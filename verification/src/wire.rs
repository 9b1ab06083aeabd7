//! The binary wire format in which records are packed: each field is a key
//! byte, the payload's length as a variable-length number, and the payload.

use vstd::prelude::*;

verus! {

/// Most bytes that the length of a payload is read from.
pub const VARINT_LIMIT: u8 = 10;

/// A number in base 128, least significant digit first; every byte but the
/// last has its top bit set.
pub open spec fn varint(n: nat) -> Seq<u8>
    decreases n,
{
    if n < 128 {
        seq![n as u8]
    } else {
        seq![(n % 128 + 128) as u8] + varint(n / 128)
    }
}

/// Reads a number in base 128 from the front of `b`, from at most `limit`
/// bytes: the number and how many bytes it took.
pub open spec fn parse_varint(b: Seq<u8>, limit: nat) -> Option<(nat, nat)>
    decreases limit,
{
    if limit == 0 || b.len() == 0 {
        None
    } else if b[0] < 128 {
        Some((b[0] as nat, 1))
    } else {
        match parse_varint(b.drop_first(), (limit - 1) as nat) {
            Some((v, k)) => Some(((b[0] - 128) as nat + 128 * v, k + 1)),
            None => None,
        }
    }
}

/// What `read_varint` gives: the number at the front of `b`, if it is
/// written in at most `limit` bytes and fits into 64 bits.
pub open spec fn read_varint_spec(b: Seq<u8>, limit: nat) -> Option<(u64, usize)> {
    match parse_varint(b, limit) {
        Some((v, k)) => if v <= u64::MAX {
            Some((v as u64, k as usize))
        } else {
            None
        },
        None => None,
    }
}

/// The first number that does not fit into `limit` bytes.
pub open spec fn varint_bound(limit: nat) -> nat
    decreases limit,
{
    if limit == 0 {
        1
    } else {
        128 * varint_bound((limit - 1) as nat)
    }
}

/// A number is read back from its bytes, whatever follows them.
pub proof fn lemma_varint_parses(n: nat, rest: Seq<u8>, limit: nat)
    requires
        limit >= 1,
        n < varint_bound(limit),
    ensures
        parse_varint(varint(n) + rest, limit) == Some((n, varint(n).len())),
        varint(n).len() <= limit,
        varint(n).len() >= 1,
    decreases n,
{
    let b = varint(n) + rest;
    if n < 128 {
        assert(b[0] == n as u8);
    } else {
        assert(limit > 0);
        assert(n / 128 < varint_bound((limit - 1) as nat));
        assert(limit - 1 >= 1);
        lemma_varint_parses(n / 128, rest, (limit - 1) as nat);
        assert(b[0] == (n % 128 + 128) as u8);
        assert(b.drop_first() =~= varint(n / 128) + rest);
        assert((b[0] - 128) as nat + 128 * (n / 128) == n);
        assert(varint(n).len() == 1 + varint(n / 128).len());
    }
}

/// Every number of 64 bits fits into ten bytes.
pub proof fn lemma_u64_fits(n: nat)
    requires
        n <= u64::MAX,
    ensures
        n < varint_bound(10),
{
    assert(varint_bound(0) == 1);
    assert(varint_bound(1) == 128);
    assert(varint_bound(2) == 128 * 128);
    assert(varint_bound(3) == 128 * 128 * 128);
    assert(varint_bound(4) == 128 * 128 * 128 * 128);
    assert(varint_bound(5) == 128 * varint_bound(4));
    assert(varint_bound(6) == 128 * varint_bound(5));
    assert(varint_bound(7) == 128 * varint_bound(6));
    assert(varint_bound(8) == 128 * varint_bound(7));
    assert(varint_bound(9) == 128 * varint_bound(8));
    assert(varint_bound(10) == 128 * varint_bound(9));
}

/// A number that was read took one byte at least, and no more bytes than
/// there were, nor more than the limit.
pub proof fn lemma_parse_varint_len(b: Seq<u8>, limit: nat)
    ensures
        parse_varint(b, limit) matches Some((v, k)) ==> 1 <= k <= b.len() && k <= limit,
    decreases limit,
{
    if limit > 0 && b.len() > 0 && b[0] >= 128 {
        lemma_parse_varint_len(b.drop_first(), (limit - 1) as nat);
    }
}

/// Appends a number in base 128.
pub fn write_varint(out: &mut Vec<u8>, n: u64)
    ensures
        final(out)@ == old(out)@ + varint(n as nat),
    decreases n,
{
    if n < 128 {
        out.push(n as u8);
        proof {
            assert(final(out)@ =~= old(out)@ + varint(n as nat));
        }
    } else {
        out.push((n % 128 + 128) as u8);
        write_varint(out, n / 128);
        proof {
            assert(final(out)@ =~= old(out)@ + varint(n as nat));
        }
    }
}

/// Reads a number in base 128 from the front of `b`, from at most `limit`
/// bytes.
pub fn read_varint(b: &[u8], limit: u8) -> (r: Option<(u64, usize)>)
    ensures
        r == read_varint_spec(b@, limit as nat),
    decreases limit,
{
    proof {
        lemma_parse_varint_len(b@, limit as nat);
    }
    if limit == 0 || b.len() == 0 {
        return None;
    }
    let x = b[0];
    if x < 128 {
        return Some((x as u64, 1));
    }
    let rest = &b[1..b.len()];
    proof {
        assert(rest@ =~= b@.drop_first());
        lemma_parse_varint_len(rest@, (limit - 1) as nat);
    }
    match read_varint(rest, limit - 1) {
        Some((v, k)) => {
            let low = (x - 128) as u64;
            if v > (u64::MAX - low) / 128 {
                None
            } else {
                Some((low + 128 * v, k + 1))
            }
        },
        None => None,
    }
}

/// Bytes that a machine holds are few enough for their number to be written
/// as a length.
pub fn length_fits(b: &[u8])
    ensures
        b@.len() <= u64::MAX,
{
    let n = b.len();
    assert(n <= u64::MAX);
}

/// Appends a string of bytes.
pub fn append_bytes(out: &mut Vec<u8>, src: &[u8])
    ensures
        final(out)@ == old(out)@ + src@,
{
    let mut i: usize = 0;
    while i < src.len()
        invariant
            i <= src.len(),
            out@ == old(out)@ + src@.take(i as int),
        decreases src.len() - i,
    {
        out.push(src[i]);
        proof {
            assert(src@.take(i + 1) =~= src@.take(i as int).push(src@[i as int]));
            assert(out@ =~= old(out)@ + src@.take(i + 1));
        }
        i += 1;
    }
    proof {
        assert(src@.take(src.len() as int) =~= src@);
    }
}

/// The key byte of a field that carries a payload with its length.
pub open spec fn key(tag: u8) -> u8
    recommends
        1 <= tag <= 15,
{
    (tag * 8 + 2) as u8
}

/// A field: its key, the payload's length and the payload.
pub open spec fn field(tag: u8, payload: Seq<u8>) -> Seq<u8> {
    seq![key(tag)] + varint(payload.len()) + payload
}

/// A field that is left out when its payload is empty.
pub open spec fn optional_field(tag: u8, payload: Seq<u8>) -> Seq<u8> {
    if payload.len() == 0 {
        Seq::<u8>::empty()
    } else {
        field(tag, payload)
    }
}

/// The bytes begin with the key of this field.
pub open spec fn starts_with_key(b: Seq<u8>, tag: u8) -> bool {
    b.len() > 0 && b[0] == key(tag)
}

/// Takes a field with this tag from the front of `b`: its payload, and what
/// follows the field.
pub open spec fn take_field(b: Seq<u8>, tag: u8) -> Option<(Seq<u8>, Seq<u8>)> {
    if starts_with_key(b, tag) {
        match read_varint_spec(b.drop_first(), VARINT_LIMIT as nat) {
            Some((n, k)) => if n <= b.len() - 1 - k {
                Some((b.subrange(1 + k, 1 + k + n), b.subrange(1 + k + n, b.len() as int)))
            } else {
                None
            },
            None => None,
        }
    } else {
        None
    }
}

/// Takes a field with this tag from the front of `b` if one is there, and an
/// empty payload if not.
pub open spec fn take_optional_field(b: Seq<u8>, tag: u8) -> Option<(Seq<u8>, Seq<u8>)> {
    if starts_with_key(b, tag) {
        take_field(b, tag)
    } else {
        Some((Seq::<u8>::empty(), b))
    }
}

/// A field is taken back from its bytes, whatever follows them.
pub proof fn lemma_take_field(tag: u8, payload: Seq<u8>, rest: Seq<u8>)
    requires
        payload.len() <= u64::MAX,
    ensures
        take_field(field(tag, payload) + rest, tag) == Some((payload, rest)),
        starts_with_key(field(tag, payload) + rest, tag),
{
    let b = field(tag, payload) + rest;
    let n = payload.len() as int;
    lemma_u64_fits(n as nat);
    lemma_varint_parses(n as nat, payload + rest, 10);
    assert(b.drop_first() =~= varint(n as nat) + (payload + rest));
    let k = varint(n as nat).len() as int;
    assert(b.subrange(1 + k, 1 + k + n) =~= payload);
    assert(b.subrange(1 + k + n, b.len() as int) =~= rest);
    assert(b[0] == key(tag));
}

/// An optional field is taken back from its bytes, if what follows them does
/// not begin with the same key.
pub proof fn lemma_take_optional_field(tag: u8, payload: Seq<u8>, rest: Seq<u8>)
    requires
        payload.len() <= u64::MAX,
        !starts_with_key(rest, tag),
    ensures
        take_optional_field(optional_field(tag, payload) + rest, tag) == Some((payload, rest)),
{
    if payload.len() == 0 {
        assert(optional_field(tag, payload) + rest =~= rest);
        assert(payload =~= Seq::<u8>::empty());
    } else {
        lemma_take_field(tag, payload, rest);
    }
}

/// Appends a field.
pub fn write_field(out: &mut Vec<u8>, tag: u8, payload: &[u8])
    requires
        1 <= tag <= 15,
    ensures
        final(out)@ == old(out)@ + field(tag, payload@),
{
    out.push(tag * 8 + 2);
    write_varint(out, payload.len() as u64);
    append_bytes(out, payload);
    proof {
        assert(final(out)@ =~= old(out)@ + field(tag, payload@));
    }
}

/// Appends a field, unless its payload is empty.
pub fn write_optional_field(out: &mut Vec<u8>, tag: u8, payload: &[u8])
    requires
        1 <= tag <= 15,
    ensures
        final(out)@ == old(out)@ + optional_field(tag, payload@),
{
    if payload.len() > 0 {
        write_field(out, tag, payload);
    } else {
        proof {
            assert(out@ =~= old(out)@ + optional_field(tag, payload@));
        }
    }
}

/// Takes a field with this tag from the front of `b`.
pub fn read_field<'a>(b: &'a [u8], tag: u8) -> (r: Option<(&'a [u8], &'a [u8])>)
    requires
        1 <= tag <= 15,
    ensures
        match take_field(b@, tag) {
            Some((payload, rest)) => r matches Some((p, q)) && p@ == payload && q@ == rest,
            None => r is None,
        },
{
    if b.len() == 0 || b[0] != tag * 8 + 2 {
        return None;
    }
    let tail = &b[1..b.len()];
    proof {
        assert(tail@ =~= b@.drop_first());
        lemma_parse_varint_len(tail@, VARINT_LIMIT as nat);
    }
    match read_varint(tail, VARINT_LIMIT) {
        Some((n, k)) => {
            if n > (b.len() - 1 - k) as u64 {
                return None;
            }
            let start = 1 + k;
            let end = start + n as usize;
            Some((&b[start..end], &b[end..b.len()]))
        },
        None => None,
    }
}

/// Takes a field with this tag from the front of `b` if one is there.
pub fn read_optional_field<'a>(b: &'a [u8], tag: u8) -> (r: Option<(&'a [u8], &'a [u8])>)
    requires
        1 <= tag <= 15,
    ensures
        match take_optional_field(b@, tag) {
            Some((payload, rest)) => r matches Some((p, q)) && p@ == payload && q@ == rest,
            None => r is None,
        },
{
    if b.len() > 0 && b[0] == tag * 8 + 2 {
        read_field(b, tag)
    } else {
        let empty = &b[0..0];
        proof {
            assert(empty@ =~= Seq::<u8>::empty());
        }
        Some((empty, b))
    }
}

/// The views of a list of byte strings.
pub open spec fn views(v: Seq<&[u8]>) -> Seq<Seq<u8>> {
    v.map_values(|s: &[u8]| s@)
}

/// A record: fields with the tags `tag`, `tag + 1` and so on, each left out
/// when its payload is empty.
pub open spec fn record(fields: Seq<Seq<u8>>, tag: u8) -> Seq<u8>
    decreases fields.len(),
{
    if fields.len() == 0 {
        Seq::<u8>::empty()
    } else {
        optional_field(tag, fields[0]) + record(fields.drop_first(), (tag + 1) as u8)
    }
}

/// Takes `count` fields with the tags `tag`, `tag + 1` and so on from the
/// front of `b`, each of which may be left out: the payloads, and what
/// follows the last field.
pub open spec fn take_record(b: Seq<u8>, tag: u8, count: nat) -> Option<(Seq<Seq<u8>>, Seq<u8>)>
    decreases count,
{
    if count == 0 {
        Some((Seq::<Seq<u8>>::empty(), b))
    } else {
        match take_optional_field(b, tag) {
            Some((p, r)) => match take_record(r, (tag + 1) as u8, (count - 1) as nat) {
                Some((ps, rest)) => Some((seq![p] + ps, rest)),
                None => None,
            },
            None => None,
        }
    }
}

/// The bytes begin with none of the keys of the tags from `tag` up to, and
/// without, `tag + count`.
pub open spec fn free_of_keys(b: Seq<u8>, tag: u8, count: nat) -> bool {
    forall|t: u8| tag <= t < tag + count ==> !starts_with_key(b, t)
}

/// Every payload is short enough for its length to be written.
pub open spec fn all_fit(items: Seq<Seq<u8>>) -> bool {
    forall|i: int| 0 <= i < items.len() ==> (#[trigger] items[i]).len() <= u64::MAX
}

/// A record followed by bytes that begin with no lower key begins with no
/// lower key itself.
pub proof fn lemma_record_start(fields: Seq<Seq<u8>>, tag: u8, rest: Seq<u8>, low: u8)
    requires
        1 <= low < tag,
        tag + fields.len() <= 16,
        !starts_with_key(rest, low),
    ensures
        !starts_with_key(record(fields, tag) + rest, low),
    decreases fields.len(),
{
    if fields.len() == 0 {
        assert(record(fields, tag) + rest =~= rest);
    } else {
        let tail = record(fields.drop_first(), (tag + 1) as u8);
        lemma_record_start(fields.drop_first(), (tag + 1) as u8, rest, low);
        if fields[0].len() == 0 {
            assert(record(fields, tag) + rest =~= tail + rest);
        } else {
            assert((record(fields, tag) + rest)[0] == key(tag));
        }
    }
}

/// A record is taken back from its bytes, if what follows them begins with
/// none of the record's keys.
pub proof fn lemma_take_record(fields: Seq<Seq<u8>>, tag: u8, rest: Seq<u8>)
    requires
        1 <= tag,
        tag + fields.len() <= 16,
        all_fit(fields),
        free_of_keys(rest, tag, fields.len()),
    ensures
        take_record(record(fields, tag) + rest, tag, fields.len()) == Some((fields, rest)),
    decreases fields.len(),
{
    if fields.len() == 0 {
        assert(record(fields, tag) + rest =~= rest);
        assert(fields =~= Seq::<Seq<u8>>::empty());
    } else {
        let next = (tag + 1) as u8;
        let tail = record(fields.drop_first(), next);
        assert(!starts_with_key(rest, tag));
        lemma_record_start(fields.drop_first(), next, rest, tag);
        assert(fields[0].len() <= u64::MAX);
        lemma_take_optional_field(tag, fields[0], tail + rest);
        assert(record(fields, tag) + rest =~= optional_field(tag, fields[0]) + (tail + rest));
        assert(all_fit(fields.drop_first())) by {
            assert forall|i: int| 0 <= i < fields.drop_first().len() implies (
            #[trigger] fields.drop_first()[i]).len() <= u64::MAX by {
                assert(fields.drop_first()[i] == fields[i + 1]);
            }
        }
        assert(free_of_keys(rest, next, fields.drop_first().len()));
        lemma_take_record(fields.drop_first(), next, rest);
        assert(seq![fields[0]] + fields.drop_first() =~= fields);
    }
}

/// A record that was taken has as many payloads as were asked for.
pub proof fn lemma_take_record_len(b: Seq<u8>, tag: u8, count: nat)
    ensures
        take_record(b, tag, count) matches Some((ps, rest)) ==> ps.len() == count,
    decreases count,
{
    if count > 0 {
        match take_optional_field(b, tag) {
            Some((p, r)) => {
                lemma_take_record_len(r, (tag + 1) as u8, (count - 1) as nat);
            },
            None => {},
        }
    }
}

/// Takes `count` fields with the tags `tag`, `tag + 1` and so on from the
/// front of `b`.
pub fn read_record<'a>(b: &'a [u8], tag: u8, count: u8) -> (r: Option<(Vec<&'a [u8]>, &'a [u8])>)
    requires
        1 <= tag,
        tag + count <= 16,
    ensures
        match take_record(b@, tag, count as nat) {
            Some((ps, rest)) => r matches Some((v, q)) && views(v@) == ps && q@ == rest,
            None => r is None,
        },
    decreases count,
{
    if count == 0 {
        let v: Vec<&'a [u8]> = Vec::new();
        proof {
            assert(views(v@) =~= Seq::<Seq<u8>>::empty());
        }
        return Some((v, b));
    }
    match read_optional_field(b, tag) {
        Some((p, r)) => match read_record(r, tag + 1, count - 1) {
            Some((ps, rest)) => {
                let mut v: Vec<&'a [u8]> = Vec::new();
                v.push(p);
                let mut i: usize = 0;
                while i < ps.len()
                    invariant
                        i <= ps.len(),
                        v@ == seq![p] + ps@.take(i as int),
                    decreases ps.len() - i,
                {
                    v.push(ps[i]);
                    proof {
                        assert(ps@.take(i + 1) =~= ps@.take(i as int).push(ps@[i as int]));
                        assert(v@ =~= seq![p] + ps@.take(i + 1));
                    }
                    i += 1;
                }
                proof {
                    assert(ps@.take(ps.len() as int) =~= ps@);
                    assert(views(v@) =~= seq![p@] + views(ps@));
                }
                Some((v, rest))
            },
            None => None,
        },
        None => None,
    }
}

/// One more payload at the end of a record is one more optional field at
/// the end of its bytes, with the next tag.
pub proof fn lemma_record_push(fields: Seq<Seq<u8>>, tag: u8, item: Seq<u8>)
    requires
        tag + fields.len() <= 255,
    ensures
        record(fields.push(item), tag) == record(fields, tag) + optional_field(
            (tag + fields.len()) as u8,
            item,
        ),
    decreases fields.len(),
{
    let more = fields.push(item);
    if fields.len() == 0 {
        assert(more.drop_first() =~= Seq::<Seq<u8>>::empty());
        assert(more[0] == item);
        assert(record(more.drop_first(), (tag + 1) as u8) =~= Seq::<u8>::empty());
        assert(record(more, tag) =~= record(fields, tag) + optional_field(tag, item));
    } else {
        lemma_record_push(fields.drop_first(), (tag + 1) as u8, item);
        assert(more.drop_first() =~= fields.drop_first().push(item));
        assert(more[0] == fields[0]);
        assert(record(more, tag) == optional_field(tag, fields[0]) + record(
            more.drop_first(),
            (tag + 1) as u8,
        ));
        assert(record(more, tag) =~= record(fields, tag) + optional_field(
            (tag + fields.len()) as u8,
            item,
        ));
    }
}

/// Appends a record whose first field has the tag `tag`.
pub fn write_record(out: &mut Vec<u8>, fields: &Vec<&[u8]>, tag: u8)
    requires
        1 <= tag,
        tag + fields@.len() <= 16,
    ensures
        final(out)@ == old(out)@ + record(views(fields@), tag),
{
    let mut i: usize = 0;
    proof {
        assert(views(fields@).take(0) =~= Seq::<Seq<u8>>::empty());
        assert(out@ =~= old(out)@ + record(views(fields@).take(0), tag));
    }
    while i < fields.len()
        invariant
            i <= fields.len(),
            1 <= tag,
            tag + fields@.len() <= 16,
            out@ == old(out)@ + record(views(fields@).take(i as int), tag),
        decreases fields.len() - i,
    {
        let ghost before = out@;
        write_optional_field(out, tag + i as u8, fields[i]);
        proof {
            let all = views(fields@);
            lemma_record_push(all.take(i as int), tag, all[i as int]);
            assert(all.take(i + 1) =~= all.take(i as int).push(all[i as int]));
            assert(out@ =~= old(out)@ + record(all.take(i + 1), tag));
        }
        i += 1;
    }
    proof {
        assert(views(fields@).take(fields.len() as int) =~= views(fields@));
    }
}

/// A repeated field: one field with this tag for each payload, in order.
pub open spec fn repeated(tag: u8, items: Seq<Seq<u8>>) -> Seq<u8>
    decreases items.len(),
{
    if items.len() == 0 {
        Seq::<u8>::empty()
    } else {
        field(tag, items[0]) + repeated(tag, items.drop_first())
    }
}

/// Takes `fuel` fields with this tag from the front of `b`, or fewer if
/// fewer are there: the payloads, and what follows the last of them.
pub open spec fn take_repeated(b: Seq<u8>, tag: u8, fuel: nat) -> Option<(Seq<Seq<u8>>, Seq<u8>)>
    decreases fuel,
{
    if fuel == 0 || !starts_with_key(b, tag) {
        Some((Seq::<Seq<u8>>::empty(), b))
    } else {
        match take_field(b, tag) {
            Some((p, r)) => match take_repeated(r, tag, (fuel - 1) as nat) {
                Some((ps, rest)) => Some((seq![p] + ps, rest)),
                None => None,
            },
            None => None,
        }
    }
}

/// Takes every field with this tag from the front of `b`.
pub open spec fn take_all_repeated(b: Seq<u8>, tag: u8) -> Option<(Seq<Seq<u8>>, Seq<u8>)> {
    take_repeated(b, tag, b.len())
}

/// One more payload at the end of a repeated field is one more field at the
/// end of its bytes.
pub proof fn lemma_repeated_push(tag: u8, items: Seq<Seq<u8>>, item: Seq<u8>)
    ensures
        repeated(tag, items.push(item)) == repeated(tag, items) + field(tag, item),
    decreases items.len(),
{
    let more = items.push(item);
    if items.len() == 0 {
        assert(more.drop_first() =~= Seq::<Seq<u8>>::empty());
        assert(more[0] == item);
        assert(repeated(tag, more.drop_first()) =~= Seq::<u8>::empty());
        assert(repeated(tag, more) =~= repeated(tag, items) + field(tag, item));
    } else {
        lemma_repeated_push(tag, items.drop_first(), item);
        assert(more.drop_first() =~= items.drop_first().push(item));
        assert(more[0] == items[0]);
        assert(repeated(tag, more) == field(tag, items[0]) + repeated(tag, more.drop_first()));
        assert(repeated(tag, more) =~= repeated(tag, items) + field(tag, item));
    }
}

/// A field takes at least two bytes.
pub proof fn lemma_take_field_shrinks(b: Seq<u8>, tag: u8)
    ensures
        take_field(b, tag) matches Some((p, r)) ==> r.len() + 2 <= b.len() && p.len() <= u64::MAX,
{
    if starts_with_key(b, tag) {
        lemma_parse_varint_len(b.drop_first(), VARINT_LIMIT as nat);
    }
}

/// With more fuel than there are bytes, taking a repeated field does not
/// depend on the fuel.
pub proof fn lemma_take_repeated_fuel(b: Seq<u8>, tag: u8, fuel: nat)
    requires
        fuel >= b.len(),
    ensures
        take_repeated(b, tag, fuel) == take_repeated(b, tag, b.len()),
        take_repeated(b, tag, fuel) matches Some((ps, rest)) ==> !starts_with_key(rest, tag),
    decreases b.len(),
{
    if starts_with_key(b, tag) {
        lemma_take_field_shrinks(b, tag);
        match take_field(b, tag) {
            Some((p, r)) => {
                lemma_take_repeated_fuel(r, tag, (fuel - 1) as nat);
                lemma_take_repeated_fuel(r, tag, (b.len() - 1) as nat);
            },
            None => {},
        }
    }
}

/// A repeated field is taken back from its bytes, if what follows them does
/// not begin with the same key.
pub proof fn lemma_take_repeated(tag: u8, items: Seq<Seq<u8>>, rest: Seq<u8>)
    requires
        all_fit(items),
        !starts_with_key(rest, tag),
    ensures
        take_all_repeated(repeated(tag, items) + rest, tag) == Some((items, rest)),
    decreases items.len(),
{
    let b = repeated(tag, items) + rest;
    if items.len() == 0 {
        assert(b =~= rest);
        assert(items =~= Seq::<Seq<u8>>::empty());
        if b.len() > 0 {
        }
    } else {
        let tail = repeated(tag, items.drop_first()) + rest;
        assert(items[0].len() <= u64::MAX);
        lemma_take_field(tag, items[0], tail);
        assert(b =~= field(tag, items[0]) + tail);
        assert(all_fit(items.drop_first())) by {
            assert forall|i: int| 0 <= i < items.drop_first().len() implies (
            #[trigger] items.drop_first()[i]).len() <= u64::MAX by {
                assert(items.drop_first()[i] == items[i + 1]);
            }
        }
        lemma_take_repeated(tag, items.drop_first(), rest);
        lemma_take_field_shrinks(b, tag);
        lemma_take_repeated_fuel(tail, tag, (b.len() - 1) as nat);
        assert(seq![items[0]] + items.drop_first() =~= items);
    }
}

/// Takes every field with this tag from the front of `b`.
pub fn read_repeated<'a>(b: &'a [u8], tag: u8) -> (r: Option<(Vec<&'a [u8]>, &'a [u8])>)
    requires
        1 <= tag <= 15,
    ensures
        match take_all_repeated(b@, tag) {
            Some((ps, rest)) => r matches Some((v, q)) && views(v@) == ps && q@ == rest,
            None => r is None,
        },
{
    let mut v: Vec<&'a [u8]> = Vec::new();
    let mut cur: &'a [u8] = b;
    proof {
        assert(views(v@) =~= Seq::<Seq<u8>>::empty());
    }
    loop
        invariant
            1 <= tag <= 15,
            cur@.len() <= b@.len(),
            match take_all_repeated(cur@, tag) {
                Some((ps, rest)) => take_all_repeated(b@, tag) == Some((views(v@) + ps, rest)),
                None => take_all_repeated(b@, tag) is None,
            },
        ensures
            match take_all_repeated(b@, tag) {
                Some((ps, rest)) => views(v@) == ps && cur@ == rest,
                None => false,
            },
        decreases cur@.len(),
    {
        if cur.len() == 0 || cur[0] != tag * 8 + 2 {
            proof {
                assert(views(v@) + Seq::<Seq<u8>>::empty() =~= views(v@));
            }
            break;
        }
        proof {
            lemma_take_field_shrinks(cur@, tag);
        }
        match read_field(cur, tag) {
            Some((p, rest)) => {
                proof {
                    lemma_take_repeated_fuel(rest@, tag, (cur@.len() - 1) as nat);
                    let old_views = views(v@);
                    match take_all_repeated(rest@, tag) {
                        Some((ps, rr)) => {
                            assert((old_views + seq![p@]) + ps =~= old_views + (seq![p@] + ps));
                        },
                        None => {},
                    }
                    assert(views(v@.push(p)) =~= old_views + seq![p@]);
                }
                v.push(p);
                cur = rest;
            },
            None => {
                return None;
            },
        }
    }
    Some((v, cur))
}

/// Turns bytes into text, if they are the UTF-8 encoding of a text.
///
/// This is `String::from_utf8` of the standard library: it succeeds exactly
/// on valid UTF-8, and the text it gives is the one that the bytes encode.
#[verifier::external_body]
pub(crate) fn string_from_utf8(bytes: &[u8]) -> (r: Option<String>)
    ensures
        r is Some <==> vstd::utf8::valid_utf8(bytes@),
        r matches Some(s) ==> s@ == vstd::utf8::decode_utf8(bytes@),
{
    String::from_utf8(bytes.to_vec()).ok()
}

} // verus!
