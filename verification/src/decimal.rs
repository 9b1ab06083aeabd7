//! Unsigned numbers written in decimal digits, as amounts and code
//! identifiers travel in messages.

use vstd::prelude::*;

verus! {

/// The byte is one of the digits `0` to `9`.
pub open spec fn is_digit(b: u8) -> bool {
    48 <= b <= 57
}

/// Every byte is a digit.
pub open spec fn all_digits(d: Seq<u8>) -> bool {
    forall|i: int| 0 <= i < d.len() ==> is_digit(#[trigger] d[i])
}

/// The number that a string of digits stands for, most significant digit
/// first.
pub open spec fn digits_value(d: Seq<u8>) -> nat
    decreases d.len(),
{
    if d.len() == 0 {
        0
    } else {
        digits_value(d.drop_last()) * 10 + (d.last() - 48) as nat
    }
}

/// The number that a text stands for: an optional `+`, then at least one
/// digit and nothing else.
pub open spec fn parse_nat(bytes: Seq<u8>) -> Option<nat> {
    let d = if bytes.len() > 0 && bytes[0] == 43 {
        bytes.drop_first()
    } else {
        bytes
    };
    if d.len() > 0 && all_digits(d) {
        Some(digits_value(d))
    } else {
        None
    }
}

/// The number that a text stands for, if it fits into 128 bits.
pub open spec fn parse_u128_spec(bytes: Seq<u8>) -> Option<u128> {
    match parse_nat(bytes) {
        Some(n) => if n <= u128::MAX {
            Some(n as u128)
        } else {
            None
        },
        None => None,
    }
}

/// The number that a text stands for, if it fits into 64 bits.
pub open spec fn parse_u64_spec(s: Seq<char>) -> Option<u64> {
    match parse_nat(vstd::utf8::encode_utf8(s)) {
        Some(n) => if n <= u64::MAX {
            Some(n as u64)
        } else {
            None
        },
        None => None,
    }
}

/// The digits of a number, without leading zeros.
pub open spec fn decimal(n: nat) -> Seq<u8>
    decreases n,
{
    if n < 10 {
        seq![(48 + n) as u8]
    } else {
        decimal(n / 10).push((48 + n % 10) as u8)
    }
}

/// A longer string of digits stands for a number that is no smaller than
/// what any of its prefixes stands for.
pub proof fn lemma_digits_value_prefix(d: Seq<u8>, i: int)
    requires
        all_digits(d),
        0 <= i <= d.len(),
    ensures
        digits_value(d.take(i)) <= digits_value(d),
    decreases d.len() - i,
{
    if i < d.len() {
        lemma_digits_value_prefix(d, i + 1);
        assert(d.take(i + 1).drop_last() =~= d.take(i));
        assert(is_digit(d[i]));
    } else {
        assert(d.take(i) =~= d);
    }
}

/// Reading back the digits of a number gives the number.
pub proof fn lemma_decimal_parses(n: nat)
    ensures
        decimal(n).len() > 0,
        all_digits(decimal(n)),
        digits_value(decimal(n)) == n,
        parse_nat(decimal(n)) == Some(n),
    decreases n,
{
    if n < 10 {
        let d = decimal(n);
        assert(d.drop_last() =~= Seq::<u8>::empty());
        assert(digits_value(d.drop_last()) == 0);
    } else {
        lemma_decimal_parses(n / 10);
        let d = decimal(n);
        assert(d.drop_last() =~= decimal(n / 10));
        assert(d.last() == (48 + n % 10) as u8);
        assert(d[0] == decimal(n / 10)[0]);
    }
    assert(is_digit(decimal(n)[0]));
}

/// Reads a number from its decimal digits.
pub fn parse_u128(bytes: &[u8]) -> (r: Option<u128>)
    ensures
        r == parse_u128_spec(bytes@),
{
    let n = bytes.len();
    let start: usize = if n > 0 && bytes[0] == 43 {
        1
    } else {
        0
    };
    if start == n {
        return None;
    }
    let ghost d = if start == 1 {
        bytes@.drop_first()
    } else {
        bytes@
    };
    let mut acc: u128 = 0;
    let mut i: usize = start;
    proof {
        assert(d.take(0) =~= Seq::<u8>::empty());
    }
    while i < n
        invariant
            start <= i <= n,
            n == bytes@.len(),
            d.len() == n - start,
            d.len() > 0,
            d == if bytes@.len() > 0 && bytes@[0] == 43 {
                bytes@.drop_first()
            } else {
                bytes@
            },
            forall|j: int| 0 <= j < d.len() ==> d[j] == bytes@[j + start],
            all_digits(d.take(i - start)),
            acc == digits_value(d.take(i - start)),
        decreases n - i,
    {
        let b = bytes[i];
        if b < 48 || b > 57 {
            proof {
                assert(d[i - start] == b);
                assert(!is_digit(d[i - start]));
            }
            return None;
        }
        let ghost prefix = d.take(i - start + 1);
        proof {
            assert(prefix.drop_last() =~= d.take(i - start));
            assert(prefix.last() == b);
            assert(all_digits(prefix)) by {
                assert forall|j: int| 0 <= j < prefix.len() implies is_digit(
                    #[trigger] prefix[j],
                ) by {
                    if j < i - start {
                        assert(d.take(i - start)[j] == prefix[j]);
                    }
                }
            }
        }
        let next = match acc.checked_mul(10) {
            Some(m) => m.checked_add((b - 48) as u128),
            None => None,
        };
        match next {
            Some(v) => {
                acc = v;
            },
            None => {
                proof {
                    assert(digits_value(prefix) > u128::MAX);
                    if all_digits(d) {
                        lemma_digits_value_prefix(d, i - start + 1);
                    }
                }
                return None;
            },
        }
        i += 1;
    }
    proof {
        assert(d.take(n - start) =~= d);
    }
    Some(acc)
}

/// Reads a number of at most 64 bits from its decimal digits.
pub fn parse_u64(s: &str) -> (r: Option<u64>)
    ensures
        r == parse_u64_spec(s@),
{
    match parse_u128(s.as_bytes()) {
        Some(n) => if n <= u64::MAX as u128 {
            Some(n as u64)
        } else {
            None
        },
        None => None,
    }
}

/// Appends the decimal digits of a number.
pub fn write_decimal(out: &mut Vec<u8>, n: u128)
    ensures
        final(out)@ == old(out)@ + decimal(n as nat),
    decreases n,
{
    if n < 10 {
        out.push((48 + n) as u8);
        proof {
            assert(final(out)@ =~= old(out)@ + decimal(n as nat));
        }
    } else {
        write_decimal(out, n / 10);
        out.push((48 + n % 10) as u8);
        proof {
            assert(final(out)@ =~= old(out)@ + decimal(n as nat));
        }
    }
}

/// Decimal digits are a text.
pub proof fn lemma_decimal_is_text(n: nat)
    ensures
        vstd::utf8::valid_utf8(decimal(n)),
{
    lemma_decimal_parses(n);
    assert(crate::json::all_ascii(decimal(n))) by {
        assert forall|i: int| 0 <= i < decimal(n).len() implies #[trigger] decimal(n)[i]
            < 0x80 by {
            assert(is_digit(decimal(n)[i]));
        }
    }
    crate::json::lemma_ascii_is_text(decimal(n));
}

/// A number in decimal digits, as a text.
pub open spec fn decimal_text(n: nat) -> Seq<char> {
    vstd::utf8::decode_utf8(decimal(n))
}

/// Writes a number in decimal digits.
pub fn to_decimal_string(n: u128) -> (s: String)
    ensures
        s@ == decimal_text(n as nat),
{
    let mut digits: Vec<u8> = Vec::new();
    write_decimal(&mut digits, n);
    proof {
        lemma_decimal_is_text(n as nat);
    }
    match crate::wire::string_from_utf8(digits.as_slice()) {
        Some(s) => s,
        None => {
            proof {
                assert(false);
            }
            String::new()
        },
    }
}

} // verus!
