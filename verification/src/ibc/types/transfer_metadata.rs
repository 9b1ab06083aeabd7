//! What the transfer application tells its counterparty in the handshake.

use vstd::prelude::*;
use vstd::utf8::*;
use crate::json::{
    lemma_byte_is_text,
    lemma_member_is_text,
    lemma_members_are_text,
    member,
    members,
    write_json_string,
    write_members,
    COLON,
    LEFT_BRACE,
    RIGHT_BRACE,
};
use crate::wire::{string_from_utf8, views};

verus! {

/// What the transfer application tells its counterparty in the handshake.
#[derive(Clone, Debug, PartialEq, Eq)]
pub struct TransferMetadata {
    /// Version of the application.
    pub version: String,
    /// Connection on the controller's side.
    pub controller_connection_id: String,
    /// Connection on the host's side.
    pub host_connection_id: String,
}

/// The metadata as a JSON object, with its members in the order of the
/// fields.
pub open spec fn metadata_doc(
    version: Seq<char>,
    controller_connection_id: Seq<char>,
    host_connection_id: Seq<char>,
) -> Seq<u8> {
    seq![LEFT_BRACE] + member(encode_utf8("version"@), encode_utf8(version)) + members(
        seq![encode_utf8("controller_connection_id"@), encode_utf8("host_connection_id"@)],
        seq![encode_utf8(controller_connection_id), encode_utf8(host_connection_id)],
    ) + seq![RIGHT_BRACE]
}

impl TransferMetadata {
    /// Metadata with these values.
    pub fn new(version: String, controller_connection_id: String, host_connection_id: String) -> (m:
        Self)
        ensures
            m.version == version,
            m.controller_connection_id == controller_connection_id,
            m.host_connection_id == host_connection_id,
    {
        TransferMetadata { version, controller_connection_id, host_connection_id }
    }

    /// The metadata as a JSON object.
    pub fn to_string(&self) -> (s: String)
        ensures
            encode_utf8(s@) == metadata_doc(
                self.version@,
                self.controller_connection_id@,
                self.host_connection_id@,
            ),
    {
        let mut out: Vec<u8> = Vec::new();
        out.push(LEFT_BRACE);
        write_json_string(&mut out, "version".as_bytes());
        out.push(COLON);
        write_json_string(&mut out, self.version.as_str().as_bytes());
        let mut names: Vec<&[u8]> = Vec::new();
        names.push("controller_connection_id".as_bytes());
        names.push("host_connection_id".as_bytes());
        let mut texts: Vec<&[u8]> = Vec::new();
        texts.push(self.controller_connection_id.as_str().as_bytes());
        texts.push(self.host_connection_id.as_str().as_bytes());
        write_members(&mut out, &names, &texts);
        out.push(RIGHT_BRACE);
        proof {
            let ns = seq![
                encode_utf8("controller_connection_id"@),
                encode_utf8("host_connection_id"@),
            ];
            let ts = seq![
                encode_utf8(self.controller_connection_id@),
                encode_utf8(self.host_connection_id@),
            ];
            assert(views(names@) =~= ns);
            assert(views(texts@) =~= ts);
            let head = member(encode_utf8("version"@), encode_utf8(self.version@));
            assert(out@ =~= metadata_doc(
                self.version@,
                self.controller_connection_id@,
                self.host_connection_id@,
            ));
            encode_utf8_valid_utf8("version"@);
            encode_utf8_valid_utf8(self.version@);
            encode_utf8_valid_utf8("controller_connection_id"@);
            encode_utf8_valid_utf8("host_connection_id"@);
            encode_utf8_valid_utf8(self.controller_connection_id@);
            encode_utf8_valid_utf8(self.host_connection_id@);
            lemma_member_is_text(encode_utf8("version"@), encode_utf8(self.version@));
            assert(crate::json::all_texts(ns)) by {
                assert forall|i: int| 0 <= i < ns.len() implies valid_utf8(#[trigger] ns[i]) by {
                    if i == 0 {
                    } else {
                        assert(ns[i] == encode_utf8("host_connection_id"@));
                    }
                }
            }
            assert(crate::json::all_texts(ts)) by {
                assert forall|i: int| 0 <= i < ts.len() implies valid_utf8(#[trigger] ts[i]) by {
                    if i == 0 {
                    } else {
                        assert(ts[i] == encode_utf8(self.host_connection_id@));
                    }
                }
            }
            lemma_members_are_text(ns, ts);
            lemma_byte_is_text(LEFT_BRACE);
            lemma_byte_is_text(RIGHT_BRACE);
            valid_utf8_concat(seq![LEFT_BRACE], head);
            valid_utf8_concat(seq![LEFT_BRACE] + head, members(ns, ts));
            valid_utf8_concat(seq![LEFT_BRACE] + head + members(ns, ts), seq![RIGHT_BRACE]);
            decode_utf8_encode_utf8(out@);
        }
        match string_from_utf8(out.as_slice()) {
            Some(s) => s,
            None => {
                proof {
                    assert(false);
                }
                String::new()
            },
        }
    }
}

} // verus!
