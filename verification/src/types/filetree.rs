//! Transaction messages of the remote chain's filetree module, and how they
//! are written on the wire.

use vstd::prelude::*;
use vstd::utf8::*;
use crate::wire::{
    all_fit,
    lemma_take_record,
    length_fits,
    read_record,
    record,
    string_from_utf8,
    take_record,
    views,
    write_record,
};

verus! {

/// Identifier of the type of [`MsgPostKey`].
pub const MSG_POST_KEY_TYPE_URL: &'static str = "/canine_chain.filetree.MsgPostKey";

/// Identifier of the type of [`MsgPostFile`].
pub const MSG_POST_FILE_TYPE_URL: &'static str = "/canine_chain.filetree.MsgPostFile";

/// The UTF-8 encodings of a list of texts.
pub open spec fn texts_bytes(texts: Seq<Seq<char>>) -> Seq<Seq<u8>> {
    texts.map_values(|t: Seq<char>| encode_utf8(t))
}

/// A message all of whose fields are texts, with the tags 1, 2 and so on.
pub open spec fn text_record(texts: Seq<Seq<char>>) -> Seq<u8> {
    record(texts_bytes(texts), 1)
}

/// Every payload is the UTF-8 encoding of a text.
pub open spec fn all_valid_utf8(items: Seq<Seq<u8>>) -> bool {
    forall|i: int| 0 <= i < items.len() ==> valid_utf8(#[trigger] items[i])
}

/// Reads a message of `count` text fields: the texts, if the bytes are such
/// a message and nothing more.
pub open spec fn parse_text_record(b: Seq<u8>, count: nat) -> Option<Seq<Seq<char>>> {
    match take_record(b, 1, count) {
        Some((ps, rest)) => if rest.len() == 0 && all_valid_utf8(ps) {
            Some(ps.map_values(|p: Seq<u8>| decode_utf8(p)))
        } else {
            None
        },
        None => None,
    }
}

/// Every text is short enough for the length of its encoding to be written.
pub open spec fn texts_fit(texts: Seq<Seq<char>>) -> bool {
    all_fit(texts_bytes(texts))
}

/// A message of text fields is read back from its bytes.
pub proof fn lemma_text_record_parses(texts: Seq<Seq<char>>)
    requires
        texts.len() <= 15,
        texts_fit(texts),
    ensures
        parse_text_record(text_record(texts), texts.len()) == Some(texts),
{
    let items = texts_bytes(texts);
    let none = Seq::<u8>::empty();
    lemma_take_record(items, 1, none);
    assert(text_record(texts) + none =~= text_record(texts));
    assert forall|i: int| 0 <= i < items.len() implies valid_utf8(#[trigger] items[i]) by {
        encode_utf8_valid_utf8(texts[i]);
    }
    assert forall|i: int| 0 <= i < texts.len() implies decode_utf8(items[i]) == texts[i] by {
        encode_utf8_decode_utf8(texts[i]);
    }
    assert(items.map_values(|p: Seq<u8>| decode_utf8(p)) =~= texts);
}

/// The views of a list of texts.
pub open spec fn strs_view(v: Seq<&str>) -> Seq<Seq<char>> {
    v.map_values(|s: &str| s@)
}

/// The views of a list of texts.
pub open spec fn strings_view(v: Seq<String>) -> Seq<Seq<char>> {
    v.map_values(|s: String| s@)
}

/// Writes a message of text fields.
pub fn write_text_record(texts: &Vec<&str>) -> (out: Vec<u8>)
    requires
        texts@.len() <= 15,
    ensures
        out@ == text_record(strs_view(texts@)),
        texts_fit(strs_view(texts@)),
{
    let mut fields: Vec<&[u8]> = Vec::new();
    let mut i: usize = 0;
    while i < texts.len()
        invariant
            i <= texts.len(),
            fields@.len() == i,
            views(fields@) == texts_bytes(strs_view(texts@)).take(i as int),
            forall|j: int| 0 <= j < i ==> (#[trigger] texts_bytes(strs_view(texts@))[j]).len()
                <= u64::MAX,
        decreases texts.len() - i,
    {
        fields.push(texts[i].as_bytes());
        length_fits(texts[i].as_bytes());
        proof {
            let all = texts_bytes(strs_view(texts@));
            assert(views(fields@) =~= all.take(i + 1));
        }
        i += 1;
    }
    proof {
        let all = texts_bytes(strs_view(texts@));
        assert(all.take(texts.len() as int) =~= all);
    }
    let mut out: Vec<u8> = Vec::new();
    write_record(&mut out, &fields, 1);
    proof {
        assert(out@ =~= text_record(strs_view(texts@)));
    }
    out
}

/// Reads a message of `count` text fields.
pub fn read_text_record(b: &[u8], count: u8) -> (r: Option<Vec<String>>)
    requires
        count <= 15,
    ensures
        match parse_text_record(b@, count as nat) {
            Some(texts) => r matches Some(v) && strings_view(v@) == texts && v@.len() == count,
            None => r is None,
        },
{
    proof {
        crate::wire::lemma_take_record_len(b@, 1, count as nat);
    }
    let (fields, rest) = match read_record(b, 1, count) {
        Some(x) => x,
        None => {
            return None;
        },
    };
    if rest.len() != 0 {
        return None;
    }
    let ghost ps = views(fields@);
    let mut out: Vec<String> = Vec::new();
    let mut i: usize = 0;
    while i < fields.len()
        invariant
            i <= fields.len(),
            ps == views(fields@),
            fields@.len() == count,
            take_record(b@, 1, count as nat) == Some((ps, rest@)),
            rest@.len() == 0,
            out@.len() == i,
            forall|j: int| 0 <= j < i ==> valid_utf8(#[trigger] ps[j]),
            forall|j: int| 0 <= j < i ==> (#[trigger] out@[j])@ == decode_utf8(ps[j]),
        decreases fields.len() - i,
    {
        match string_from_utf8(fields[i]) {
            Some(s) => {
                out.push(s);
            },
            None => {
                proof {
                    assert(!valid_utf8(ps[i as int]));
                }
                return None;
            },
        }
        i += 1;
    }
    proof {
        assert(strings_view(out@) =~= ps.map_values(|p: Seq<u8>| decode_utf8(p)));
    }
    Some(out)
}

/// Posts a public key.
#[derive(Clone, Debug, PartialEq, Eq)]
pub struct MsgPostKey {
    /// Address of the key's owner.
    pub creator: String,
    /// The public key, hex encoded.
    pub key: String,
}

/// [`MsgPostKey`] as plain values.
pub struct MsgPostKeyView {
    pub creator: Seq<char>,
    pub key: Seq<char>,
}

impl MsgPostKeyView {
    /// The fields in the order of their tags.
    pub open spec fn fields(self) -> Seq<Seq<char>> {
        seq![self.creator, self.key]
    }

    /// The message with these fields, if they are as many as it has.
    pub open spec fn from_fields(f: Seq<Seq<char>>) -> MsgPostKeyView {
        MsgPostKeyView { creator: f[0], key: f[1] }
    }
}

impl View for MsgPostKey {
    type V = MsgPostKeyView;

    open spec fn view(&self) -> MsgPostKeyView {
        MsgPostKeyView { creator: self.creator@, key: self.key@ }
    }
}

impl MsgPostKey {
    /// The message on the wire.
    pub fn encode_to_vec(&self) -> (out: Vec<u8>)
        ensures
            out@ == text_record(self@.fields()),
            texts_fit(self@.fields()),
    {
        let mut texts: Vec<&str> = Vec::new();
        texts.push(self.creator.as_str());
        texts.push(self.key.as_str());
        proof {
            assert(strs_view(texts@) =~= self@.fields());
        }
        write_text_record(&texts)
    }

    /// Reads the message from the wire.
    pub fn decode(b: &[u8]) -> (r: Option<Self>)
        ensures
            match parse_text_record(b@, 2) {
                Some(f) => r matches Some(m) && m@ == MsgPostKeyView::from_fields(f),
                None => r is None,
            },
    {
        match read_text_record(b, 2) {
            Some(v) => {
                Some(MsgPostKey { creator: v[0].clone(), key: v[1].clone() })
            },
            None => None,
        }
    }
}

/// Answer to [`MsgPostKey`]; it carries nothing.
#[derive(Clone, Copy, Debug, PartialEq, Eq, Structural)]
pub struct MsgPostKeyResponse {}

/// Posts a file record.
#[derive(Clone, Debug, PartialEq, Eq)]
pub struct MsgPostFile {
    /// Creator and broadcaster of the message.
    pub creator: String,
    /// Hex of the hash of the owner's address.
    pub account: String,
    /// Merkle path of the parent directory.
    pub hash_parent: String,
    /// Hex of the hash of the file's own name.
    pub hash_child: String,
    /// The file identifier.
    pub contents: String,
    /// JSON map of those who may view the file.
    pub viewers: String,
    /// JSON map of those who may edit the file.
    pub editors: String,
    /// Identifier shared by the viewers' and the editors' maps.
    pub tracking_number: String,
}

/// [`MsgPostFile`] as plain values.
pub struct MsgPostFileView {
    pub creator: Seq<char>,
    pub account: Seq<char>,
    pub hash_parent: Seq<char>,
    pub hash_child: Seq<char>,
    pub contents: Seq<char>,
    pub viewers: Seq<char>,
    pub editors: Seq<char>,
    pub tracking_number: Seq<char>,
}

impl MsgPostFileView {
    /// The fields in the order of their tags.
    pub open spec fn fields(self) -> Seq<Seq<char>> {
        seq![
            self.creator,
            self.account,
            self.hash_parent,
            self.hash_child,
            self.contents,
            self.viewers,
            self.editors,
            self.tracking_number,
        ]
    }

    /// The message with these fields, if they are as many as it has.
    pub open spec fn from_fields(f: Seq<Seq<char>>) -> MsgPostFileView {
        MsgPostFileView {
            creator: f[0],
            account: f[1],
            hash_parent: f[2],
            hash_child: f[3],
            contents: f[4],
            viewers: f[5],
            editors: f[6],
            tracking_number: f[7],
        }
    }
}

impl View for MsgPostFile {
    type V = MsgPostFileView;

    open spec fn view(&self) -> MsgPostFileView {
        MsgPostFileView {
            creator: self.creator@,
            account: self.account@,
            hash_parent: self.hash_parent@,
            hash_child: self.hash_child@,
            contents: self.contents@,
            viewers: self.viewers@,
            editors: self.editors@,
            tracking_number: self.tracking_number@,
        }
    }
}

impl MsgPostFile {
    /// The message on the wire.
    pub fn encode_to_vec(&self) -> (out: Vec<u8>)
        ensures
            out@ == text_record(self@.fields()),
            texts_fit(self@.fields()),
    {
        let mut texts: Vec<&str> = Vec::new();
        texts.push(self.creator.as_str());
        texts.push(self.account.as_str());
        texts.push(self.hash_parent.as_str());
        texts.push(self.hash_child.as_str());
        texts.push(self.contents.as_str());
        texts.push(self.viewers.as_str());
        texts.push(self.editors.as_str());
        texts.push(self.tracking_number.as_str());
        proof {
            assert(strs_view(texts@) =~= self@.fields());
        }
        write_text_record(&texts)
    }

    /// Reads the message from the wire.
    pub fn decode(b: &[u8]) -> (r: Option<Self>)
        ensures
            match parse_text_record(b@, 8) {
                Some(f) => r matches Some(m) && m@ == MsgPostFileView::from_fields(f),
                None => r is None,
            },
    {
        match read_text_record(b, 8) {
            Some(v) => {
                Some(
                    MsgPostFile {
                        creator: v[0].clone(),
                        account: v[1].clone(),
                        hash_parent: v[2].clone(),
                        hash_child: v[3].clone(),
                        contents: v[4].clone(),
                        viewers: v[5].clone(),
                        editors: v[6].clone(),
                        tracking_number: v[7].clone(),
                    },
                )
            },
            None => None,
        }
    }
}

/// Answer to [`MsgPostFile`].
#[derive(Clone, Debug, PartialEq, Eq)]
pub struct MsgPostFileResponse {
    /// Full merkle path of the file.
    pub path: String,
}

} // verus!
