//! The text form in which documents are written: strings in double quotes
//! with escapes, and objects whose members come in a fixed order. Everything
//! here works on the bytes of a text.

use vstd::prelude::*;

verus! {

/// The double quote that opens and closes a string.
pub const QUOTE: u8 = 0x22;

/// The backslash that begins an escape.
pub const BACKSLASH: u8 = 0x5c;

/// The comma between members and between elements.
pub const COMMA: u8 = 0x2c;

/// The colon between a member's name and its value.
pub const COLON: u8 = 0x3a;

/// The brace that opens an object.
pub const LEFT_BRACE: u8 = 0x7b;

/// The brace that closes an object.
pub const RIGHT_BRACE: u8 = 0x7d;

/// The bracket that opens a list.
pub const LEFT_BRACKET: u8 = 0x5b;

/// The bracket that closes a list.
pub const RIGHT_BRACKET: u8 = 0x5d;

/// The hexadecimal digit for a number below sixteen, in upper case.
pub open spec fn hex_digit(n: u8) -> u8 {
    if n < 10 {
        (48 + n) as u8
    } else {
        (55 + n) as u8
    }
}

/// The number that a hexadecimal digit stands for, in either case.
pub open spec fn hex_value(c: u8) -> Option<u8> {
    if 48 <= c <= 57 {
        Some((c - 48) as u8)
    } else if 65 <= c <= 70 {
        Some((c - 55) as u8)
    } else if 97 <= c <= 102 {
        Some((c - 87) as u8)
    } else {
        None
    }
}

/// How one byte is written inside a string: the quote and the backslash
/// behind a backslash, a control character by its short name or by its
/// number, every other byte as it is.
pub open spec fn escape_byte(b: u8) -> Seq<u8> {
    if b == QUOTE {
        seq![BACKSLASH, QUOTE]
    } else if b == BACKSLASH {
        seq![BACKSLASH, BACKSLASH]
    } else if b == 0x08 {
        seq![BACKSLASH, 0x62u8]
    } else if b == 0x0c {
        seq![BACKSLASH, 0x66u8]
    } else if b == 0x0a {
        seq![BACKSLASH, 0x6eu8]
    } else if b == 0x0d {
        seq![BACKSLASH, 0x72u8]
    } else if b == 0x09 {
        seq![BACKSLASH, 0x74u8]
    } else if b < 0x20 {
        seq![BACKSLASH, 0x75u8, 0x30u8, 0x30u8, hex_digit(b / 16), hex_digit(b % 16)]
    } else {
        seq![b]
    }
}

/// The bytes of a text as they are written inside a string.
pub open spec fn escape(s: Seq<u8>) -> Seq<u8>
    decreases s.len(),
{
    if s.len() == 0 {
        Seq::<u8>::empty()
    } else {
        escape_byte(s[0]) + escape(s.drop_first())
    }
}

/// A text as a string: in double quotes, with escapes.
pub open spec fn json_string(s: Seq<u8>) -> Seq<u8> {
    seq![QUOTE] + escape(s) + seq![QUOTE]
}

/// Reads one byte of a text from the front of what stands inside a string:
/// the byte, and how many bytes it was written in. There is none at a quote,
/// at a bare control character and at an escape that is not known.
pub open spec fn unescape_byte(b: Seq<u8>) -> Option<(u8, int)> {
    if b.len() == 0 || b[0] == QUOTE || b[0] < 0x20 {
        None
    } else if b[0] != BACKSLASH {
        Some((b[0], 1))
    } else if b.len() < 2 {
        None
    } else if b[1] == QUOTE {
        Some((QUOTE, 2))
    } else if b[1] == BACKSLASH {
        Some((BACKSLASH, 2))
    } else if b[1] == 0x62 {
        Some((0x08u8, 2))
    } else if b[1] == 0x66 {
        Some((0x0cu8, 2))
    } else if b[1] == 0x6e {
        Some((0x0au8, 2))
    } else if b[1] == 0x72 {
        Some((0x0du8, 2))
    } else if b[1] == 0x74 {
        Some((0x09u8, 2))
    } else if b[1] == 0x75 && b.len() >= 6 && b[2] == 0x30 && b[3] == 0x30 {
        match (hex_value(b[4]), hex_value(b[5])) {
            (Some(hi), Some(lo)) => Some(((hi * 16 + lo) as u8, 6)),
            _ => None,
        }
    } else {
        None
    }
}

/// Reads what stands inside a string up to the closing quote: the text, and
/// what follows the quote.
pub open spec fn unescape(b: Seq<u8>) -> Option<(Seq<u8>, Seq<u8>)>
    decreases b.len(),
{
    if b.len() == 0 {
        None
    } else if b[0] == QUOTE {
        Some((Seq::<u8>::empty(), b.drop_first()))
    } else {
        match unescape_byte(b) {
            Some((x, k)) => match unescape(b.skip(k)) {
                Some((t, rest)) => Some((seq![x] + t, rest)),
                None => None,
            },
            None => None,
        }
    }
}

/// Takes a string from the front of `b`: the text, and what follows the
/// string.
pub open spec fn take_json_string(b: Seq<u8>) -> Option<(Seq<u8>, Seq<u8>)> {
    if b.len() > 0 && b[0] == QUOTE {
        unescape(b.drop_first())
    } else {
        None
    }
}

/// A byte is read back from how it is written, whatever follows.
pub proof fn lemma_unescape_byte(x: u8, rest: Seq<u8>)
    ensures
        unescape_byte(escape_byte(x) + rest) == Some((x, escape_byte(x).len() as int)),
        (escape_byte(x) + rest)[0] != QUOTE,
        escape_byte(x).len() >= 1,
{
    let b = escape_byte(x) + rest;
    if x < 0x20 && x != 0x08 && x != 0x0c && x != 0x0a && x != 0x0d && x != 0x09 {
        assert(b[0] == BACKSLASH);
        assert(b[1] == 0x75);
        assert(b[2] == 0x30);
        assert(b[3] == 0x30);
        assert(b[4] == hex_digit(x / 16));
        assert(b[5] == hex_digit(x % 16));
        assert(hex_value(hex_digit(x / 16)) == Some(x / 16));
        assert(hex_value(hex_digit(x % 16)) == Some(x % 16));
        assert(((x / 16) * 16 + x % 16) as u8 == x);
    } else if x == QUOTE || x == BACKSLASH || x < 0x20 {
        assert(b[0] == BACKSLASH);
        assert(b[1] == escape_byte(x)[1]);
    } else {
        assert(b[0] == x);
    }
}

/// A text is read back from how it is written in a string, whatever follows
/// the closing quote.
pub proof fn lemma_unescape(s: Seq<u8>, rest: Seq<u8>)
    ensures
        unescape(escape(s) + seq![QUOTE] + rest) == Some((s, rest)),
    decreases s.len(),
{
    let b = escape(s) + seq![QUOTE] + rest;
    if s.len() == 0 {
        assert(b[0] == QUOTE);
        assert(b.drop_first() =~= rest);
    } else {
        let tail = escape(s.drop_first()) + seq![QUOTE] + rest;
        lemma_unescape_byte(s[0], tail);
        lemma_unescape(s.drop_first(), rest);
        assert(b =~= escape_byte(s[0]) + tail);
        assert(b.skip(escape_byte(s[0]).len() as int) =~= tail);
        assert(seq![s[0]] + s.drop_first() =~= s);
    }
}

/// A string is taken back from its bytes, whatever follows them.
pub proof fn lemma_take_json_string(s: Seq<u8>, rest: Seq<u8>)
    ensures
        take_json_string(json_string(s) + rest) == Some((s, rest)),
{
    let b = json_string(s) + rest;
    lemma_unescape(s, rest);
    assert(b[0] == QUOTE);
    assert(b.drop_first() =~= escape(s) + seq![QUOTE] + rest);
}

/// One more byte at the end of a text is its escape at the end of what is
/// written.
pub proof fn lemma_escape_push(s: Seq<u8>, x: u8)
    ensures
        escape(s.push(x)) == escape(s) + escape_byte(x),
    decreases s.len(),
{
    let more = s.push(x);
    if s.len() == 0 {
        assert(more.drop_first() =~= Seq::<u8>::empty());
        assert(more[0] == x);
        assert(escape(more.drop_first()) =~= Seq::<u8>::empty());
        assert(escape(more) =~= escape(s) + escape_byte(x));
    } else {
        lemma_escape_push(s.drop_first(), x);
        assert(more.drop_first() =~= s.drop_first().push(x));
        assert(more[0] == s[0]);
        assert(escape(more) == escape_byte(s[0]) + escape(more.drop_first()));
        assert(escape(more) =~= escape(s) + escape_byte(x));
    }
}

/// Appends one byte of a text as it is written inside a string.
pub fn write_escaped_byte(out: &mut Vec<u8>, b: u8)
    ensures
        final(out)@ == old(out)@ + escape_byte(b),
{
    if b == QUOTE {
        out.push(BACKSLASH);
        out.push(QUOTE);
    } else if b == BACKSLASH {
        out.push(BACKSLASH);
        out.push(BACKSLASH);
    } else if b == 0x08 {
        out.push(BACKSLASH);
        out.push(0x62);
    } else if b == 0x0c {
        out.push(BACKSLASH);
        out.push(0x66);
    } else if b == 0x0a {
        out.push(BACKSLASH);
        out.push(0x6e);
    } else if b == 0x0d {
        out.push(BACKSLASH);
        out.push(0x72);
    } else if b == 0x09 {
        out.push(BACKSLASH);
        out.push(0x74);
    } else if b < 0x20 {
        let hi: u8 = b / 16;
        let lo: u8 = b % 16;
        out.push(BACKSLASH);
        out.push(0x75);
        out.push(0x30);
        out.push(0x30);
        out.push(
            if hi < 10 {
                48 + hi
            } else {
                55 + hi
            },
        );
        out.push(
            if lo < 10 {
                48 + lo
            } else {
                55 + lo
            },
        );
    } else {
        out.push(b);
    }
    proof {
        assert(out@ =~= old(out)@ + escape_byte(b));
    }
}

/// Appends a text as a string.
pub fn write_json_string(out: &mut Vec<u8>, s: &[u8])
    ensures
        final(out)@ == old(out)@ + json_string(s@),
{
    out.push(QUOTE);
    let mut i: usize = 0;
    proof {
        assert(s@.take(0) =~= Seq::<u8>::empty());
        assert(out@ =~= old(out)@ + seq![QUOTE] + escape(s@.take(0)));
    }
    while i < s.len()
        invariant
            i <= s.len(),
            out@ == old(out)@ + seq![QUOTE] + escape(s@.take(i as int)),
        decreases s.len() - i,
    {
        write_escaped_byte(out, s[i]);
        proof {
            lemma_escape_push(s@.take(i as int), s@[i as int]);
            assert(s@.take(i + 1) =~= s@.take(i as int).push(s@[i as int]));
            assert(out@ =~= old(out)@ + seq![QUOTE] + escape(s@.take(i + 1)));
        }
        i += 1;
    }
    out.push(QUOTE);
    proof {
        assert(s@.take(s.len() as int) =~= s@);
        assert(out@ =~= old(out)@ + json_string(s@));
    }
}

/// The number that a hexadecimal digit stands for, in either case.
pub fn read_hex_digit(c: u8) -> (r: Option<u8>)
    ensures
        r == hex_value(c),
{
    if 48 <= c && c <= 57 {
        Some(c - 48)
    } else if 65 <= c && c <= 70 {
        Some(c - 55)
    } else if 97 <= c && c <= 102 {
        Some(c - 87)
    } else {
        None
    }
}

/// Reads one byte of a text from the front of what stands inside a string.
pub fn read_escaped_byte(b: &[u8]) -> (r: Option<(u8, usize)>)
    ensures
        match unescape_byte(b@) {
            Some((x, k)) => r == Some((x, k as usize)) && 1 <= k <= b@.len(),
            None => r is None,
        },
{
    if b.len() == 0 || b[0] == QUOTE || b[0] < 0x20 {
        None
    } else if b[0] != BACKSLASH {
        Some((b[0], 1))
    } else if b.len() < 2 {
        None
    } else if b[1] == QUOTE {
        Some((QUOTE, 2))
    } else if b[1] == BACKSLASH {
        Some((BACKSLASH, 2))
    } else if b[1] == 0x62 {
        Some((0x08, 2))
    } else if b[1] == 0x66 {
        Some((0x0c, 2))
    } else if b[1] == 0x6e {
        Some((0x0a, 2))
    } else if b[1] == 0x72 {
        Some((0x0d, 2))
    } else if b[1] == 0x74 {
        Some((0x09, 2))
    } else if b[1] == 0x75 && b.len() >= 6 && b[2] == 0x30 && b[3] == 0x30 {
        match (read_hex_digit(b[4]), read_hex_digit(b[5])) {
            (Some(hi), Some(lo)) => Some((hi * 16 + lo, 6)),
            _ => None,
        }
    } else {
        None
    }
}

/// Takes a string from the front of `b`.
pub fn read_json_string<'a>(b: &'a [u8]) -> (r: Option<(Vec<u8>, &'a [u8])>)
    ensures
        match take_json_string(b@) {
            Some((s, rest)) => r matches Some((v, q)) && v@ == s && q@ == rest,
            None => r is None,
        },
{
    if b.len() == 0 || b[0] != QUOTE {
        return None;
    }
    let mut out: Vec<u8> = Vec::new();
    let mut cur: &'a [u8] = &b[1..b.len()];
    proof {
        assert(cur@ =~= b@.drop_first());
    }
    loop
        invariant
            match unescape(cur@) {
                Some((t, rest)) => take_json_string(b@) == Some((out@ + t, rest)),
                None => take_json_string(b@) is None,
            },
        decreases cur@.len(),
    {
        if cur.len() == 0 {
            return None;
        }
        if cur[0] == QUOTE {
            let rest = &cur[1..cur.len()];
            proof {
                assert(rest@ =~= cur@.drop_first());
                assert(out@ + Seq::<u8>::empty() =~= out@);
            }
            return Some((out, rest));
        }
        match read_escaped_byte(cur) {
            Some((x, k)) => {
                let next = &cur[k..cur.len()];
                proof {
                    assert(next@ =~= cur@.skip(k as int));
                    match unescape(next@) {
                        Some((t, rest)) => {
                            assert((out@.push(x)) + t =~= out@ + (seq![x] + t));
                        },
                        None => {},
                    }
                }
                out.push(x);
                cur = next;
            },
            None => {
                return None;
            },
        }
    }
}

/// What follows a string is shorter than what the string was taken from.
pub proof fn lemma_unescape_shrinks(b: Seq<u8>)
    ensures
        unescape(b) matches Some((t, rest)) ==> rest.len() < b.len(),
    decreases b.len(),
{
    if b.len() > 0 && b[0] != QUOTE {
        match unescape_byte(b) {
            Some((x, k)) => {
                lemma_unescape_shrinks(b.skip(k));
            },
            None => {},
        }
    }
}

/// What follows a member is shorter than what the member was taken from.
pub proof fn lemma_take_member_shrinks(b: Seq<u8>, name: Seq<u8>)
    ensures
        take_member(b, name) matches Some((t, rest)) ==> rest.len() < b.len(),
{
    match take_literal(b, json_string(name) + seq![COLON]) {
        Some(r) => {
            if r.len() > 0 {
                lemma_unescape_shrinks(r.drop_first());
            }
        },
        None => {},
    }
}

/// What follows members is no longer than what they were taken from, and
/// there are as many texts as names.
pub proof fn lemma_take_members_shrinks(b: Seq<u8>, names: Seq<Seq<u8>>)
    ensures
        take_members(b, names) matches Some((ts, rest)) ==> rest.len() <= b.len() && ts.len()
            == names.len(),
    decreases names.len(),
{
    if names.len() > 0 && b.len() > 0 && b[0] == COMMA {
        lemma_take_member_shrinks(b.drop_first(), names[0]);
        match take_member(b.drop_first(), names[0]) {
            Some((t, r)) => {
                lemma_take_members_shrinks(r, names.drop_first());
            },
            None => {},
        }
    }
}

/// Takes the given bytes from the front of `b`: what follows them, if `b`
/// begins with them.
pub open spec fn take_literal(b: Seq<u8>, lit: Seq<u8>) -> Option<Seq<u8>> {
    if lit.len() <= b.len() && b.take(lit.len() as int) == lit {
        Some(b.skip(lit.len() as int))
    } else {
        None
    }
}

/// Bytes are taken back from the front of what begins with them.
pub proof fn lemma_take_literal(lit: Seq<u8>, rest: Seq<u8>)
    ensures
        take_literal(lit + rest, lit) == Some(rest),
{
    let b = lit + rest;
    assert(b.take(lit.len() as int) =~= lit);
    assert(b.skip(lit.len() as int) =~= rest);
}

/// Takes the given bytes from the front of `b`.
pub fn read_literal<'a>(b: &'a [u8], lit: &[u8]) -> (r: Option<&'a [u8]>)
    ensures
        match take_literal(b@, lit@) {
            Some(rest) => r matches Some(q) && q@ == rest,
            None => r is None,
        },
{
    if lit.len() > b.len() {
        return None;
    }
    let mut i: usize = 0;
    while i < lit.len()
        invariant
            i <= lit.len(),
            lit.len() <= b.len(),
            b@.take(i as int) == lit@.take(i as int),
        decreases lit.len() - i,
    {
        if b[i] != lit[i] {
            proof {
                if b@.take(lit.len() as int) == lit@ {
                    assert(b@.take(lit.len() as int)[i as int] == lit@[i as int]);
                }
            }
            return None;
        }
        proof {
            assert(b@.take(i + 1) =~= b@.take(i as int).push(b@[i as int]));
            assert(lit@.take(i + 1) =~= lit@.take(i as int).push(lit@[i as int]));
        }
        i += 1;
    }
    let rest = &b[lit.len()..b.len()];
    proof {
        assert(lit@.take(lit.len() as int) =~= lit@);
        assert(rest@ =~= b@.skip(lit.len() as int));
    }
    Some(rest)
}

/// One member of an object: the name and the text, both as strings, with a
/// colon between them.
pub open spec fn member(name: Seq<u8>, text: Seq<u8>) -> Seq<u8> {
    json_string(name) + seq![COLON] + json_string(text)
}

/// Takes a member with this name from the front of `b`: its text, and what
/// follows the member.
pub open spec fn take_member(b: Seq<u8>, name: Seq<u8>) -> Option<(Seq<u8>, Seq<u8>)> {
    match take_literal(b, json_string(name) + seq![COLON]) {
        Some(r) => take_json_string(r),
        None => None,
    }
}

/// A member is taken back from its bytes, whatever follows them.
pub proof fn lemma_take_member(name: Seq<u8>, text: Seq<u8>, rest: Seq<u8>)
    ensures
        take_member(member(name, text) + rest, name) == Some((text, rest)),
{
    let head = json_string(name) + seq![COLON];
    lemma_take_literal(head, json_string(text) + rest);
    lemma_take_json_string(text, rest);
    assert(member(name, text) + rest =~= head + (json_string(text) + rest));
}

/// Members with these names and texts, in order, each behind a comma.
pub open spec fn members(names: Seq<Seq<u8>>, texts: Seq<Seq<u8>>) -> Seq<u8>
    decreases names.len(),
{
    if names.len() == 0 || texts.len() == 0 {
        Seq::<u8>::empty()
    } else {
        seq![COMMA] + member(names[0], texts[0]) + members(
            names.drop_first(),
            texts.drop_first(),
        )
    }
}

/// Takes a member with this name from behind a comma at the front of `b`.
pub open spec fn take_comma_member(b: Seq<u8>, name: Seq<u8>) -> Option<(Seq<u8>, Seq<u8>)> {
    if b.len() == 0 || b[0] != COMMA {
        None
    } else {
        take_member(b.drop_first(), name)
    }
}

/// Takes members with these names, in order and each behind a comma, from
/// the front of `b`: their texts, and what follows the last member.
pub open spec fn take_members(b: Seq<u8>, names: Seq<Seq<u8>>) -> Option<(Seq<Seq<u8>>, Seq<u8>)>
    decreases names.len(),
{
    if names.len() == 0 {
        Some((Seq::<Seq<u8>>::empty(), b))
    } else {
        match take_comma_member(b, names[0]) {
            Some((t, r)) => match take_members(r, names.drop_first()) {
                Some((ts, rest)) => Some((seq![t] + ts, rest)),
                None => None,
            },
            None => None,
        }
    }
}

/// Members are taken back from their bytes, whatever follows them.
pub proof fn lemma_take_members(names: Seq<Seq<u8>>, texts: Seq<Seq<u8>>, rest: Seq<u8>)
    requires
        names.len() == texts.len(),
    ensures
        take_members(members(names, texts) + rest, names) == Some((texts, rest)),
    decreases names.len(),
{
    let b = members(names, texts) + rest;
    if names.len() == 0 {
        assert(b =~= rest);
        assert(texts =~= Seq::<Seq<u8>>::empty());
    } else {
        let tail = members(names.drop_first(), texts.drop_first()) + rest;
        lemma_take_member(names[0], texts[0], tail);
        lemma_take_members(names.drop_first(), texts.drop_first(), rest);
        assert(b[0] == COMMA);
        assert(b.drop_first() =~= member(names[0], texts[0]) + tail);
        assert(seq![texts[0]] + texts.drop_first() =~= texts);
    }
}

/// One more member at the end.
pub proof fn lemma_members_push(
    names: Seq<Seq<u8>>,
    texts: Seq<Seq<u8>>,
    name: Seq<u8>,
    text: Seq<u8>,
)
    requires
        names.len() == texts.len(),
    ensures
        members(names.push(name), texts.push(text)) == members(names, texts) + seq![COMMA]
            + member(name, text),
    decreases names.len(),
{
    let more_names = names.push(name);
    let more_texts = texts.push(text);
    if names.len() == 0 {
        assert(more_names.drop_first() =~= Seq::<Seq<u8>>::empty());
        assert(more_texts.drop_first() =~= Seq::<Seq<u8>>::empty());
        assert(members(more_names.drop_first(), more_texts.drop_first()) =~= Seq::<u8>::empty());
        assert(more_names[0] == name);
        assert(more_texts[0] == text);
        assert(members(more_names, more_texts) =~= members(names, texts) + seq![COMMA] + member(
            name,
            text,
        ));
    } else {
        lemma_members_push(names.drop_first(), texts.drop_first(), name, text);
        assert(more_names.drop_first() =~= names.drop_first().push(name));
        assert(more_texts.drop_first() =~= texts.drop_first().push(text));
        assert(more_names[0] == names[0]);
        assert(more_texts[0] == texts[0]);
        assert(members(more_names, more_texts) == seq![COMMA] + member(names[0], texts[0])
            + members(more_names.drop_first(), more_texts.drop_first()));
        assert(members(more_names, more_texts) =~= members(names, texts) + seq![COMMA] + member(
            name,
            text,
        ));
    }
}

/// Appends a member behind a comma.
pub fn write_member(out: &mut Vec<u8>, name: &[u8], text: &[u8])
    ensures
        final(out)@ == old(out)@ + seq![COMMA] + member(name@, text@),
{
    out.push(COMMA);
    write_json_string(out, name);
    out.push(COLON);
    write_json_string(out, text);
    proof {
        assert(out@ =~= old(out)@ + seq![COMMA] + member(name@, text@));
    }
}

/// Takes a member with this name from behind a comma at the front of `b`.
pub fn read_member<'a>(b: &'a [u8], name: &[u8]) -> (r: Option<(Vec<u8>, &'a [u8])>)
    ensures
        match take_comma_member(b@, name@) {
            Some((t, rest)) => r matches Some((v, q)) && v@ == t && q@ == rest,
            None => r is None,
        },
{
    if b.len() == 0 || b[0] != COMMA {
        return None;
    }
    let mut head: Vec<u8> = Vec::new();
    write_json_string(&mut head, name);
    head.push(COLON);
    let after_comma = &b[1..b.len()];
    proof {
        assert(after_comma@ =~= b@.drop_first());
        assert(head@ =~= json_string(name@) + seq![COLON]);
    }
    let r = match read_literal(after_comma, head.as_slice()) {
        Some(r) => r,
        None => {
            return None;
        },
    };
    read_json_string(r)
}

/// The views of a list of byte strings.
pub open spec fn byte_views(v: Seq<Vec<u8>>) -> Seq<Seq<u8>> {
    v.map_values(|s: Vec<u8>| s@)
}

/// Takes members with these names, in order and each behind a comma, from
/// the front of `b`.
pub fn read_members<'a>(b: &'a [u8], names: &Vec<&[u8]>) -> (r: Option<(Vec<Vec<u8>>, &'a [u8])>)
    ensures
        match take_members(b@, crate::wire::views(names@)) {
            Some((ts, rest)) => r matches Some((v, q)) && byte_views(v@) == ts && q@ == rest,
            None => r is None,
        },
{
    let ghost all = crate::wire::views(names@);
    let mut out: Vec<Vec<u8>> = Vec::new();
    let mut cur: &'a [u8] = b;
    let mut i: usize = 0;
    proof {
        assert(all.skip(0) =~= all);
        assert(byte_views(out@) =~= Seq::<Seq<u8>>::empty());
    }
    while i < names.len()
        invariant
            i <= names.len(),
            all == crate::wire::views(names@),
            out@.len() == i,
            match take_members(cur@, all.skip(i as int)) {
                Some((ts, rest)) => take_members(b@, all) == Some((byte_views(out@) + ts, rest)),
                None => take_members(b@, all) is None,
            },
        decreases names.len() - i,
    {
        proof {
            assert(all.skip(i as int)[0] == names@[i as int]@);
            assert(all.skip(i as int).drop_first() =~= all.skip(i + 1));
        }
        match read_member(cur, names[i]) {
            Some((v, rest)) => {
                proof {
                    let before = byte_views(out@);
                    match take_members(rest@, all.skip(i + 1)) {
                        Some((ts, rr)) => {
                            assert((before + seq![v@]) + ts =~= before + (seq![v@] + ts));
                        },
                        None => {},
                    }
                    assert(byte_views(out@.push(v)) =~= before + seq![v@]);
                }
                out.push(v);
                cur = rest;
            },
            None => {
                return None;
            },
        }
        i += 1;
    }
    proof {
        assert(all.skip(names.len() as int) =~= Seq::<Seq<u8>>::empty());
        assert(byte_views(out@) + Seq::<Seq<u8>>::empty() =~= byte_views(out@));
    }
    Some((out, cur))
}

/// Appends members with these names and texts, in order, each behind a
/// comma.
pub fn write_members(out: &mut Vec<u8>, names: &Vec<&[u8]>, texts: &Vec<&[u8]>)
    requires
        names@.len() == texts@.len(),
    ensures
        final(out)@ == old(out)@ + members(
            crate::wire::views(names@),
            crate::wire::views(texts@),
        ),
{
    let ghost ns = crate::wire::views(names@);
    let ghost ts = crate::wire::views(texts@);
    let mut i: usize = 0;
    proof {
        assert(ns.take(0) =~= Seq::<Seq<u8>>::empty());
        assert(out@ =~= old(out)@ + members(ns.take(0), ts.take(0)));
    }
    while i < names.len()
        invariant
            i <= names.len(),
            names@.len() == texts@.len(),
            ns == crate::wire::views(names@),
            ts == crate::wire::views(texts@),
            out@ == old(out)@ + members(ns.take(i as int), ts.take(i as int)),
        decreases names.len() - i,
    {
        write_member(out, names[i], texts[i]);
        proof {
            lemma_members_push(ns.take(i as int), ts.take(i as int), ns[i as int], ts[i as int]);
            assert(ns.take(i + 1) =~= ns.take(i as int).push(ns[i as int]));
            assert(ts.take(i + 1) =~= ts.take(i as int).push(ts[i as int]));
            assert(out@ =~= old(out)@ + members(ns.take(i + 1), ts.take(i + 1)));
        }
        i += 1;
    }
    proof {
        assert(ns.take(names.len() as int) =~= ns);
        assert(ts.take(names.len() as int) =~= ts);
    }
}

/// Every byte is below 128.
pub open spec fn all_ascii(b: Seq<u8>) -> bool {
    forall|i: int| 0 <= i < b.len() ==> #[trigger] b[i] < 0x80
}

/// No byte is below 128.
pub open spec fn none_ascii(b: Seq<u8>) -> bool {
    forall|i: int| 0 <= i < b.len() ==> #[trigger] b[i] >= 0x80
}

/// The low seven bits of a byte below 128 are the byte.
pub proof fn lemma_low_seven_bits(x: u8)
    requires
        x < 0x80,
    ensures
        vstd::utf8::codepoint_width_1(x) == x,
{
    assert(x < 0x80 ==> (x & 0x7f) as u32 == x) by (bit_vector);
}

/// Bytes below 128 are a text.
pub proof fn lemma_ascii_is_text(b: Seq<u8>)
    requires
        all_ascii(b),
    ensures
        vstd::utf8::valid_utf8(b),
    decreases b.len(),
{
    if b.len() > 0 {
        let x = b[0];
        assert(x < 0x80);
        lemma_low_seven_bits(x);
        assert(vstd::utf8::pop_first_scalar(b) =~= b.drop_first());
        assert(all_ascii(b.drop_first())) by {
            assert forall|i: int| 0 <= i < b.drop_first().len() implies #[trigger] b.drop_first()[i]
                < 0x80 by {
                assert(b.drop_first()[i] == b[i + 1]);
            }
        }
        lemma_ascii_is_text(b.drop_first());
    }
}

/// What is written for two texts, one behind the other, is what is written
/// for the one behind what is written for the other.
pub proof fn lemma_escape_concat(a: Seq<u8>, b: Seq<u8>)
    ensures
        escape(a + b) == escape(a) + escape(b),
    decreases a.len(),
{
    if a.len() == 0 {
        assert(a + b =~= b);
        assert(escape(a) + escape(b) =~= escape(b));
    } else {
        lemma_escape_concat(a.drop_first(), b);
        assert((a + b).drop_first() =~= a.drop_first() + b);
        assert((a + b)[0] == a[0]);
        assert(escape(a + b) =~= escape(a) + escape(b));
    }
}

/// Bytes of which none is below 128 are written as they are.
pub proof fn lemma_escape_keeps_high_bytes(b: Seq<u8>)
    requires
        none_ascii(b),
    ensures
        escape(b) == b,
    decreases b.len(),
{
    if b.len() > 0 {
        assert(b[0] >= 0x80);
        assert(none_ascii(b.drop_first())) by {
            assert forall|i: int| 0 <= i < b.drop_first().len() implies #[trigger] b.drop_first()[i]
                >= 0x80 by {
                assert(b.drop_first()[i] == b[i + 1]);
            }
        }
        lemma_escape_keeps_high_bytes(b.drop_first());
        assert(escape(b) =~= b);
    } else {
        assert(escape(b) =~= b);
    }
}

/// What is written for one byte below 128 is below 128.
pub proof fn lemma_escape_byte_is_ascii(x: u8)
    requires
        x < 0x80,
    ensures
        all_ascii(escape_byte(x)),
{
}

/// What is written for a text is a text.
pub proof fn lemma_escape_is_text(b: Seq<u8>)
    requires
        vstd::utf8::valid_utf8(b),
    ensures
        vstd::utf8::valid_utf8(escape(b)),
    decreases b.len(),
{
    if b.len() > 0 {
        let k = vstd::utf8::length_of_first_scalar(b);
        let head = vstd::utf8::take_first_scalar(b);
        let tail = vstd::utf8::pop_first_scalar(b);
        assert(1 <= k <= 4 && k <= b.len());
        assert(head.len() == k);
        assert(tail.len() == b.len() - k);
        lemma_escape_is_text(tail);
        assert(b =~= head + tail);
        lemma_escape_concat(head, tail);
        if k == 1 {
            assert(head[0] == b[0]);
            assert(b[0] < 0x80);
            assert(head =~= seq![b[0]]);
            assert(head.drop_first() =~= Seq::<u8>::empty());
            assert(escape(head.drop_first()) =~= Seq::<u8>::empty());
            assert(escape(head) =~= escape_byte(b[0]));
            lemma_escape_byte_is_ascii(b[0]);
            lemma_ascii_is_text(escape(head));
        } else {
            assert forall|i: int| 0 <= i < head.len() implies #[trigger] head[i] >= 0x80 by {
                assert(head[i] == b[i]);
            }
            lemma_escape_keeps_high_bytes(head);
            assert(vstd::utf8::valid_utf8(head)) by {
                assert(head[0] == b[0]);
                if k >= 2 {
                    assert(head[1] == b[1]);
                }
                if k >= 3 {
                    assert(head[2] == b[2]);
                }
                if k >= 4 {
                    assert(head[3] == b[3]);
                }
                reveal_with_fuel(vstd::utf8::valid_utf8, 2);
                assert(vstd::utf8::valid_first_scalar(b));
                assert(vstd::utf8::length_of_first_codepoint(head)
                    == vstd::utf8::length_of_first_codepoint(b));
                assert(vstd::utf8::decode_first_codepoint(head)
                    == vstd::utf8::decode_first_codepoint(b));
                assert(vstd::utf8::valid_leading_and_continuation_bytes_first_codepoint(head));
                assert(vstd::utf8::valid_first_scalar(head));
                assert(vstd::utf8::pop_first_scalar(head) =~= Seq::<u8>::empty());
            }
        }
        vstd::utf8::valid_utf8_concat(escape(head), escape(tail));
    }
}

/// One byte below 128 is a text.
pub proof fn lemma_byte_is_text(x: u8)
    requires
        x < 0x80,
    ensures
        vstd::utf8::valid_utf8(seq![x]),
{
    lemma_ascii_is_text(seq![x]);
}

/// A text as a string is a text.
pub proof fn lemma_json_string_is_text(s: Seq<u8>)
    requires
        vstd::utf8::valid_utf8(s),
    ensures
        vstd::utf8::valid_utf8(json_string(s)),
{
    lemma_escape_is_text(s);
    lemma_byte_is_text(QUOTE);
    vstd::utf8::valid_utf8_concat(seq![QUOTE], escape(s));
    vstd::utf8::valid_utf8_concat(seq![QUOTE] + escape(s), seq![QUOTE]);
}

/// A member whose name and text are texts is a text.
pub proof fn lemma_member_is_text(name: Seq<u8>, text: Seq<u8>)
    requires
        vstd::utf8::valid_utf8(name),
        vstd::utf8::valid_utf8(text),
    ensures
        vstd::utf8::valid_utf8(member(name, text)),
{
    lemma_json_string_is_text(name);
    lemma_json_string_is_text(text);
    lemma_byte_is_text(COLON);
    vstd::utf8::valid_utf8_concat(json_string(name), seq![COLON]);
    vstd::utf8::valid_utf8_concat(json_string(name) + seq![COLON], json_string(text));
}

/// Every byte string of the list is a text.
pub open spec fn all_texts(items: Seq<Seq<u8>>) -> bool {
    forall|i: int| 0 <= i < items.len() ==> vstd::utf8::valid_utf8(#[trigger] items[i])
}

/// Members whose names and texts are texts are a text.
pub proof fn lemma_members_are_text(names: Seq<Seq<u8>>, texts: Seq<Seq<u8>>)
    requires
        all_texts(names),
        all_texts(texts),
    ensures
        vstd::utf8::valid_utf8(members(names, texts)),
    decreases names.len(),
{
    if names.len() == 0 || texts.len() == 0 {
    } else {
        assert(vstd::utf8::valid_utf8(names[0]));
        assert(vstd::utf8::valid_utf8(texts[0]));
        lemma_member_is_text(names[0], texts[0]);
        assert(all_texts(names.drop_first())) by {
            assert forall|i: int| 0 <= i < names.drop_first().len() implies vstd::utf8::valid_utf8(
                #[trigger] names.drop_first()[i],
            ) by {
                assert(names.drop_first()[i] == names[i + 1]);
            }
        }
        assert(all_texts(texts.drop_first())) by {
            assert forall|i: int| 0 <= i < texts.drop_first().len() implies vstd::utf8::valid_utf8(
                #[trigger] texts.drop_first()[i],
            ) by {
                assert(texts.drop_first()[i] == texts[i + 1]);
            }
        }
        lemma_members_are_text(names.drop_first(), texts.drop_first());
        lemma_byte_is_text(COMMA);
        vstd::utf8::valid_utf8_concat(seq![COMMA], member(names[0], texts[0]));
        vstd::utf8::valid_utf8_concat(
            seq![COMMA] + member(names[0], texts[0]),
            members(names.drop_first(), texts.drop_first()),
        );
    }
}

} // verus!
