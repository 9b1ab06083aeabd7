//! Hashes and merkle paths by which the filetree module names its records.

use vstd::prelude::*;
use vstd::utf8::*;
use sha2::Digest;
use crate::json::byte_views;

verus! {

/// The SHA-256 digest of a string of bytes.
pub uninterp spec fn sha256(data: Seq<u8>) -> Seq<u8>;

/// Computes the SHA-256 digest of a string of bytes.
///
/// This is `Sha256::digest` of the crate `sha2`. Nothing is claimed of it but
/// that the same bytes always give the same digest.
#[verifier::external_body]
pub(crate) fn sha256_digest(data: &[u8]) -> (out: Vec<u8>)
    ensures
        out@ == sha256(data@),
{
    sha2::Sha256::digest(data).to_vec()
}

/// The hexadecimal digit for a number below sixteen, in lower case.
pub open spec fn hex_char(n: u8) -> char {
    if n < 10 {
        (48 + n) as u8 as char
    } else {
        (87 + n) as u8 as char
    }
}

/// Bytes in hexadecimal digits, two for each byte, in lower case.
pub open spec fn hex_lower(data: Seq<u8>) -> Seq<char>
    decreases data.len(),
{
    if data.len() == 0 {
        Seq::<char>::empty()
    } else {
        seq![hex_char(data[0] / 16), hex_char(data[0] % 16)] + hex_lower(data.drop_first())
    }
}

/// Writes bytes in hexadecimal digits.
///
/// This is `encode` of the crate `hex`: each byte becomes two digits, the
/// high half first, with the letters in lower case.
#[verifier::external_body]
pub(crate) fn hex_encode(data: &[u8]) -> (s: String)
    ensures
        s@ == hex_lower(data@),
{
    hex::encode(data)
}

/// The slash that separates the parts of a path.
pub const SLASH: u8 = 0x2f;

/// The hash of a text, in hexadecimal digits.
pub open spec fn hash_hex(input: Seq<u8>) -> Seq<char> {
    hex_lower(sha256(input))
}

/// Bytes without the slashes at their end.
pub open spec fn trim_slashes(b: Seq<u8>) -> Seq<u8>
    decreases b.len(),
{
    if b.len() > 0 && b.last() == SLASH {
        trim_slashes(b.drop_last())
    } else {
        b
    }
}

/// The parts of a path: what stands between its slashes, before the first
/// and behind the last. There is always one part at least; parts may be
/// empty.
pub open spec fn split_slashes(b: Seq<u8>) -> Seq<Seq<u8>>
    decreases b.len(),
{
    if b.len() == 0 {
        seq![Seq::<u8>::empty()]
    } else {
        let before = split_slashes(b.drop_last());
        if b.last() == SLASH {
            before.push(Seq::<u8>::empty())
        } else {
            before.drop_last().push(before.last().push(b.last()))
        }
    }
}

/// Parts put together again, with a slash between each two.
pub open spec fn join_slashes(parts: Seq<Seq<u8>>) -> Seq<u8>
    decreases parts.len(),
{
    if parts.len() == 0 {
        Seq::<u8>::empty()
    } else if parts.len() == 1 {
        parts[0]
    } else {
        join_slashes(parts.drop_last()) + seq![SLASH] + parts.last()
    }
}

/// The merkle path of the parts that are left, when `total` is the path of
/// the parts before them: each part's hash is put behind the path so far, and
/// the hash of both is the path that includes the part.
pub open spec fn merkle_fold(parts: Seq<Seq<u8>>, total: Seq<char>) -> Seq<char>
    decreases parts.len(),
{
    if parts.len() == 0 {
        total
    } else {
        merkle_fold(
            parts.drop_first(),
            hash_hex(encode_utf8(total + hash_hex(parts[0]))),
        )
    }
}

/// The merkle path of a path: its slashes at the end are dropped, and the
/// parts between the others are folded from the first to the last.
pub open spec fn merkle_path_of(path: Seq<u8>) -> Seq<char> {
    merkle_fold(split_slashes(trim_slashes(path)), Seq::<char>::empty())
}

/// The merkle path of the parent of a path, and the hash of its last part.
pub open spec fn merkle_helper_of(path: Seq<u8>) -> (Seq<char>, Seq<char>) {
    let parts = split_slashes(trim_slashes(path));
    (merkle_path_of(join_slashes(parts.drop_last())), hash_hex(parts.last()))
}

/// A path has one part at least.
pub proof fn lemma_split_nonempty(b: Seq<u8>)
    ensures
        split_slashes(b).len() >= 1,
    decreases b.len(),
{
    if b.len() > 0 {
        lemma_split_nonempty(b.drop_last());
    }
}

/// Hashes a text and writes the hash in hexadecimal digits.
pub fn hash_and_hex(input: &str) -> (s: String)
    ensures
        s@ == hash_hex(encode_utf8(input@)),
{
    let hash_result = sha256_digest(input.as_bytes());
    hex_encode(hash_result.as_slice())
}

/// Hashes bytes and writes the hash in hexadecimal digits.
pub fn hash_and_hex_bytes(input: &[u8]) -> (s: String)
    ensures
        s@ == hash_hex(input@),
{
    let hash_result = sha256_digest(input);
    hex_encode(hash_result.as_slice())
}

/// The bytes without the slashes at their end.
pub fn trim_end_slashes(b: &[u8]) -> (r: &[u8])
    ensures
        r@ == trim_slashes(b@),
{
    let mut end: usize = b.len();
    proof {
        assert(b@.take(end as int) =~= b@);
    }
    while end > 0 && b[end - 1] == SLASH
        invariant
            end <= b.len(),
            trim_slashes(b@) == trim_slashes(b@.take(end as int)),
        decreases end,
    {
        proof {
            assert(b@.take(end as int).drop_last() =~= b@.take(end - 1));
        }
        end -= 1;
    }
    &b[0..end]
}

/// The parts of a path.
pub fn split_at_slashes(b: &[u8]) -> (parts: Vec<Vec<u8>>)
    ensures
        byte_views(parts@) == split_slashes(b@),
        parts@.len() >= 1,
{
    let mut done: Vec<Vec<u8>> = Vec::new();
    let mut cur: Vec<u8> = Vec::new();
    let mut i: usize = 0;
    proof {
        assert(byte_views(done@).push(cur@) =~= split_slashes(b@.take(0)));
    }
    while i < b.len()
        invariant
            i <= b.len(),
            byte_views(done@).push(cur@) == split_slashes(b@.take(i as int)),
        decreases b.len() - i,
    {
        let ghost before = byte_views(done@).push(cur@);
        proof {
            assert(b@.take(i + 1).drop_last() =~= b@.take(i as int));
            assert(b@.take(i + 1).last() == b@[i as int]);
        }
        if b[i] == SLASH {
            done.push(cur);
            cur = Vec::new();
            proof {
                assert(byte_views(done@) =~= before);
                assert(byte_views(done@).push(cur@) =~= before.push(Seq::<u8>::empty()));
            }
        } else {
            cur.push(b[i]);
            proof {
                assert(before.drop_last() =~= byte_views(done@));
                assert(byte_views(done@).push(cur@) =~= before.drop_last().push(
                    before.last().push(b@[i as int]),
                ));
            }
        }
        i += 1;
    }
    let ghost before = byte_views(done@).push(cur@);
    done.push(cur);
    proof {
        assert(b@.take(b.len() as int) =~= b@);
        assert(byte_views(done@) =~= before);
    }
    done
}

/// The merkle path of a path that is given as bytes.
pub fn merkle_path_bytes(path: &[u8]) -> (s: String)
    ensures
        s@ == merkle_path_of(path@),
{
    let trim_path = trim_end_slashes(path);
    let chunks = split_at_slashes(trim_path);
    let ghost all = byte_views(chunks@);
    let mut total = String::new();
    let mut i: usize = 0;
    proof {
        assert(all.skip(0) =~= all);
    }
    while i < chunks.len()
        invariant
            i <= chunks.len(),
            all == byte_views(chunks@),
            merkle_fold(all, Seq::<char>::empty()) == merkle_fold(all.skip(i as int), total@),
        decreases chunks.len() - i,
    {
        let b = hash_and_hex_bytes(chunks[i].as_slice());
        let k = total.concat(b.as_str());
        proof {
            assert(all.skip(i as int)[0] == chunks@[i as int]@);
            assert(all.skip(i as int).drop_first() =~= all.skip(i + 1));
        }
        total = hash_and_hex(k.as_str());
        i += 1;
    }
    total
}

/// The merkle path of a path.
pub fn merkle_path(path: &str) -> (s: String)
    ensures
        s@ == merkle_path_of(encode_utf8(path@)),
{
    merkle_path_bytes(path.as_bytes())
}

/// Puts parts together again, with a slash between each two.
pub fn join_with_slashes(parts: &Vec<Vec<u8>>, count: usize) -> (out: Vec<u8>)
    requires
        count <= parts@.len(),
    ensures
        out@ == join_slashes(byte_views(parts@).take(count as int)),
{
    let ghost all = byte_views(parts@);
    let mut out: Vec<u8> = Vec::new();
    let mut i: usize = 0;
    proof {
        assert(join_slashes(all.take(0)) =~= Seq::<u8>::empty());
    }
    while i < count
        invariant
            i <= count,
            count <= parts@.len(),
            all == byte_views(parts@),
            out@ == join_slashes(all.take(i as int)),
        decreases count - i,
    {
        let ghost before = out@;
        if i > 0 {
            out.push(SLASH);
        }
        crate::wire::append_bytes(&mut out, parts[i].as_slice());
        proof {
            let more = all.take(i + 1);
            assert(more.drop_last() =~= all.take(i as int));
            assert(more.last() == parts@[i as int]@);
            if i == 0 {
                assert(out@ =~= more[0]);
            } else {
                assert(out@ =~= before + seq![SLASH] + more.last());
            }
        }
        i += 1;
    }
    out
}

/// The merkle path of the parent of a path, and the hash of its last part.
pub fn merkle_helper(arg_hashpath: &str) -> (r: (String, String))
    ensures
        (r.0@, r.1@) == merkle_helper_of(encode_utf8(arg_hashpath@)),
{
    let trim_path = trim_end_slashes(arg_hashpath.as_bytes());
    let chunks = split_at_slashes(trim_path);
    let last = chunks.len() - 1;
    let parent_string = join_with_slashes(&chunks, last);
    proof {
        assert(byte_views(chunks@).take(last as int) =~= byte_views(chunks@).drop_last());
        assert(byte_views(chunks@).last() == chunks@[last as int]@);
    }
    let parent_hash = merkle_path_bytes(parent_string.as_slice());
    let child_hash = hash_and_hex_bytes(chunks[last].as_slice());
    (parent_hash, child_hash)
}

} // verus!
