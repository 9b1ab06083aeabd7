//! The other transaction messages of the remote chain's filetree module.
//! Every field of every message is a text; on the wire the fields have the
//! tags 1, 2 and so on, in the order in which they are declared, and a field
//! that is empty is left out.

use vstd::prelude::*;
use crate::types::filetree::{
    parse_text_record,
    read_text_record,
    strings_view,
    strs_view,
    text_record,
    write_text_record,
};

verus! {

/// Lets more accounts view a file.
#[derive(Clone, Debug, PartialEq, Eq)]
pub struct MsgAddViewers {
    pub creator: String,
    pub viewer_ids: String,
    pub viewer_keys: String,
    pub address: String,
    pub file_owner: String,
}

/// Answer to [`MsgAddViewers`]; it carries nothing.
#[derive(Clone, Copy, Debug, PartialEq, Eq, Structural)]
pub struct MsgAddViewersResponse {}

impl MsgAddViewers {
    /// The fields in the order of their tags.
    pub open spec fn fields(&self) -> Seq<Seq<char>> {
        seq![
            self.creator@,
            self.viewer_ids@,
            self.viewer_keys@,
            self.address@,
            self.file_owner@,
        ]
    }

    /// The message on the wire.
    pub fn encode_to_vec(&self) -> (out: Vec<u8>)
        ensures
            out@ == text_record(self.fields()),
    {
        let mut texts: Vec<&str> = Vec::new();
        texts.push(self.creator.as_str());
        texts.push(self.viewer_ids.as_str());
        texts.push(self.viewer_keys.as_str());
        texts.push(self.address.as_str());
        texts.push(self.file_owner.as_str());
        proof {
            assert(strs_view(texts@) =~= self.fields());
        }
        write_text_record(&texts)
    }

    /// Reads the message from the wire: there is one if and only if the
    /// bytes are its fields and nothing more.
    pub fn decode(b: &[u8]) -> (r: Option<Self>)
        ensures
            match parse_text_record(b@, 5) {
                Some(f) => r matches Some(m) && m.fields() == f,
                None => r is None,
            },
    {
        match read_text_record(b, 5) {
            Some(v) => {
                let m = MsgAddViewers {
                    creator: v[0].clone(),
                    viewer_ids: v[1].clone(),
                    viewer_keys: v[2].clone(),
                    address: v[3].clone(),
                    file_owner: v[4].clone(),
                };
                proof {
                    assert(m.fields() =~= strings_view(v@));
                }
                Some(m)
            },
            None => None,
        }
    }
}

/// Deletes a file record.
#[derive(Clone, Debug, PartialEq, Eq)]
pub struct MsgDeleteFile {
    pub creator: String,
    pub hash_path: String,
    pub account: String,
}

/// Answer to [`MsgDeleteFile`]; it carries nothing.
#[derive(Clone, Copy, Debug, PartialEq, Eq, Structural)]
pub struct MsgDeleteFileResponse {}

impl MsgDeleteFile {
    /// The fields in the order of their tags.
    pub open spec fn fields(&self) -> Seq<Seq<char>> {
        seq![
            self.creator@,
            self.hash_path@,
            self.account@,
        ]
    }

    /// The message on the wire.
    pub fn encode_to_vec(&self) -> (out: Vec<u8>)
        ensures
            out@ == text_record(self.fields()),
    {
        let mut texts: Vec<&str> = Vec::new();
        texts.push(self.creator.as_str());
        texts.push(self.hash_path.as_str());
        texts.push(self.account.as_str());
        proof {
            assert(strs_view(texts@) =~= self.fields());
        }
        write_text_record(&texts)
    }

    /// Reads the message from the wire: there is one if and only if the
    /// bytes are its fields and nothing more.
    pub fn decode(b: &[u8]) -> (r: Option<Self>)
        ensures
            match parse_text_record(b@, 3) {
                Some(f) => r matches Some(m) && m.fields() == f,
                None => r is None,
            },
    {
        match read_text_record(b, 3) {
            Some(v) => {
                let m = MsgDeleteFile {
                    creator: v[0].clone(),
                    hash_path: v[1].clone(),
                    account: v[2].clone(),
                };
                proof {
                    assert(m.fields() =~= strings_view(v@));
                }
                Some(m)
            },
            None => None,
        }
    }
}

/// Takes the right to view a file from accounts.
#[derive(Clone, Debug, PartialEq, Eq)]
pub struct MsgRemoveViewers {
    pub creator: String,
    pub viewer_ids: String,
    pub address: String,
    pub file_owner: String,
}

/// Answer to [`MsgRemoveViewers`]; it carries nothing.
#[derive(Clone, Copy, Debug, PartialEq, Eq, Structural)]
pub struct MsgRemoveViewersResponse {}

impl MsgRemoveViewers {
    /// The fields in the order of their tags.
    pub open spec fn fields(&self) -> Seq<Seq<char>> {
        seq![
            self.creator@,
            self.viewer_ids@,
            self.address@,
            self.file_owner@,
        ]
    }

    /// The message on the wire.
    pub fn encode_to_vec(&self) -> (out: Vec<u8>)
        ensures
            out@ == text_record(self.fields()),
    {
        let mut texts: Vec<&str> = Vec::new();
        texts.push(self.creator.as_str());
        texts.push(self.viewer_ids.as_str());
        texts.push(self.address.as_str());
        texts.push(self.file_owner.as_str());
        proof {
            assert(strs_view(texts@) =~= self.fields());
        }
        write_text_record(&texts)
    }

    /// Reads the message from the wire: there is one if and only if the
    /// bytes are its fields and nothing more.
    pub fn decode(b: &[u8]) -> (r: Option<Self>)
        ensures
            match parse_text_record(b@, 4) {
                Some(f) => r matches Some(m) && m.fields() == f,
                None => r is None,
            },
    {
        match read_text_record(b, 4) {
            Some(v) => {
                let m = MsgRemoveViewers {
                    creator: v[0].clone(),
                    viewer_ids: v[1].clone(),
                    address: v[2].clone(),
                    file_owner: v[3].clone(),
                };
                proof {
                    assert(m.fields() =~= strings_view(v@));
                }
                Some(m)
            },
            None => None,
        }
    }
}

/// Sets up the file tree of an account.
#[derive(Clone, Debug, PartialEq, Eq)]
pub struct MsgProvisionFileTree {
    pub creator: String,
    pub editors: String,
    pub viewers: String,
    pub tracking_number: String,
}

/// Answer to [`MsgProvisionFileTree`]; it carries nothing.
#[derive(Clone, Copy, Debug, PartialEq, Eq, Structural)]
pub struct MsgProvisionFileTreeResponse {}

impl MsgProvisionFileTree {
    /// The fields in the order of their tags.
    pub open spec fn fields(&self) -> Seq<Seq<char>> {
        seq![
            self.creator@,
            self.editors@,
            self.viewers@,
            self.tracking_number@,
        ]
    }

    /// The message on the wire.
    pub fn encode_to_vec(&self) -> (out: Vec<u8>)
        ensures
            out@ == text_record(self.fields()),
    {
        let mut texts: Vec<&str> = Vec::new();
        texts.push(self.creator.as_str());
        texts.push(self.editors.as_str());
        texts.push(self.viewers.as_str());
        texts.push(self.tracking_number.as_str());
        proof {
            assert(strs_view(texts@) =~= self.fields());
        }
        write_text_record(&texts)
    }

    /// Reads the message from the wire: there is one if and only if the
    /// bytes are its fields and nothing more.
    pub fn decode(b: &[u8]) -> (r: Option<Self>)
        ensures
            match parse_text_record(b@, 4) {
                Some(f) => r matches Some(m) && m.fields() == f,
                None => r is None,
            },
    {
        match read_text_record(b, 4) {
            Some(v) => {
                let m = MsgProvisionFileTree {
                    creator: v[0].clone(),
                    editors: v[1].clone(),
                    viewers: v[2].clone(),
                    tracking_number: v[3].clone(),
                };
                proof {
                    assert(m.fields() =~= strings_view(v@));
                }
                Some(m)
            },
            None => None,
        }
    }
}

/// Lets more accounts edit a file.
#[derive(Clone, Debug, PartialEq, Eq)]
pub struct MsgAddEditors {
    pub creator: String,
    pub editor_ids: String,
    pub editor_keys: String,
    pub address: String,
    pub file_owner: String,
}

/// Answer to [`MsgAddEditors`]; it carries nothing.
#[derive(Clone, Copy, Debug, PartialEq, Eq, Structural)]
pub struct MsgAddEditorsResponse {}

impl MsgAddEditors {
    /// The fields in the order of their tags.
    pub open spec fn fields(&self) -> Seq<Seq<char>> {
        seq![
            self.creator@,
            self.editor_ids@,
            self.editor_keys@,
            self.address@,
            self.file_owner@,
        ]
    }

    /// The message on the wire.
    pub fn encode_to_vec(&self) -> (out: Vec<u8>)
        ensures
            out@ == text_record(self.fields()),
    {
        let mut texts: Vec<&str> = Vec::new();
        texts.push(self.creator.as_str());
        texts.push(self.editor_ids.as_str());
        texts.push(self.editor_keys.as_str());
        texts.push(self.address.as_str());
        texts.push(self.file_owner.as_str());
        proof {
            assert(strs_view(texts@) =~= self.fields());
        }
        write_text_record(&texts)
    }

    /// Reads the message from the wire: there is one if and only if the
    /// bytes are its fields and nothing more.
    pub fn decode(b: &[u8]) -> (r: Option<Self>)
        ensures
            match parse_text_record(b@, 5) {
                Some(f) => r matches Some(m) && m.fields() == f,
                None => r is None,
            },
    {
        match read_text_record(b, 5) {
            Some(v) => {
                let m = MsgAddEditors {
                    creator: v[0].clone(),
                    editor_ids: v[1].clone(),
                    editor_keys: v[2].clone(),
                    address: v[3].clone(),
                    file_owner: v[4].clone(),
                };
                proof {
                    assert(m.fields() =~= strings_view(v@));
                }
                Some(m)
            },
            None => None,
        }
    }
}

/// Takes the right to edit a file from accounts.
#[derive(Clone, Debug, PartialEq, Eq)]
pub struct MsgRemoveEditors {
    pub creator: String,
    pub editor_ids: String,
    pub address: String,
    pub file_owner: String,
}

/// Answer to [`MsgRemoveEditors`]; it carries nothing.
#[derive(Clone, Copy, Debug, PartialEq, Eq, Structural)]
pub struct MsgRemoveEditorsResponse {}

impl MsgRemoveEditors {
    /// The fields in the order of their tags.
    pub open spec fn fields(&self) -> Seq<Seq<char>> {
        seq![
            self.creator@,
            self.editor_ids@,
            self.address@,
            self.file_owner@,
        ]
    }

    /// The message on the wire.
    pub fn encode_to_vec(&self) -> (out: Vec<u8>)
        ensures
            out@ == text_record(self.fields()),
    {
        let mut texts: Vec<&str> = Vec::new();
        texts.push(self.creator.as_str());
        texts.push(self.editor_ids.as_str());
        texts.push(self.address.as_str());
        texts.push(self.file_owner.as_str());
        proof {
            assert(strs_view(texts@) =~= self.fields());
        }
        write_text_record(&texts)
    }

    /// Reads the message from the wire: there is one if and only if the
    /// bytes are its fields and nothing more.
    pub fn decode(b: &[u8]) -> (r: Option<Self>)
        ensures
            match parse_text_record(b@, 4) {
                Some(f) => r matches Some(m) && m.fields() == f,
                None => r is None,
            },
    {
        match read_text_record(b, 4) {
            Some(v) => {
                let m = MsgRemoveEditors {
                    creator: v[0].clone(),
                    editor_ids: v[1].clone(),
                    address: v[2].clone(),
                    file_owner: v[3].clone(),
                };
                proof {
                    assert(m.fields() =~= strings_view(v@));
                }
                Some(m)
            },
            None => None,
        }
    }
}

/// Takes the right to edit a file from everyone but its owner.
#[derive(Clone, Debug, PartialEq, Eq)]
pub struct MsgResetEditors {
    pub creator: String,
    pub address: String,
    pub file_owner: String,
}

/// Answer to [`MsgResetEditors`]; it carries nothing.
#[derive(Clone, Copy, Debug, PartialEq, Eq, Structural)]
pub struct MsgResetEditorsResponse {}

impl MsgResetEditors {
    /// The fields in the order of their tags.
    pub open spec fn fields(&self) -> Seq<Seq<char>> {
        seq![
            self.creator@,
            self.address@,
            self.file_owner@,
        ]
    }

    /// The message on the wire.
    pub fn encode_to_vec(&self) -> (out: Vec<u8>)
        ensures
            out@ == text_record(self.fields()),
    {
        let mut texts: Vec<&str> = Vec::new();
        texts.push(self.creator.as_str());
        texts.push(self.address.as_str());
        texts.push(self.file_owner.as_str());
        proof {
            assert(strs_view(texts@) =~= self.fields());
        }
        write_text_record(&texts)
    }

    /// Reads the message from the wire: there is one if and only if the
    /// bytes are its fields and nothing more.
    pub fn decode(b: &[u8]) -> (r: Option<Self>)
        ensures
            match parse_text_record(b@, 3) {
                Some(f) => r matches Some(m) && m.fields() == f,
                None => r is None,
            },
    {
        match read_text_record(b, 3) {
            Some(v) => {
                let m = MsgResetEditors {
                    creator: v[0].clone(),
                    address: v[1].clone(),
                    file_owner: v[2].clone(),
                };
                proof {
                    assert(m.fields() =~= strings_view(v@));
                }
                Some(m)
            },
            None => None,
        }
    }
}

/// Takes the right to view a file from everyone but its owner.
#[derive(Clone, Debug, PartialEq, Eq)]
pub struct MsgResetViewers {
    pub creator: String,
    pub address: String,
    pub file_owner: String,
}

/// Answer to [`MsgResetViewers`]; it carries nothing.
#[derive(Clone, Copy, Debug, PartialEq, Eq, Structural)]
pub struct MsgResetViewersResponse {}

impl MsgResetViewers {
    /// The fields in the order of their tags.
    pub open spec fn fields(&self) -> Seq<Seq<char>> {
        seq![
            self.creator@,
            self.address@,
            self.file_owner@,
        ]
    }

    /// The message on the wire.
    pub fn encode_to_vec(&self) -> (out: Vec<u8>)
        ensures
            out@ == text_record(self.fields()),
    {
        let mut texts: Vec<&str> = Vec::new();
        texts.push(self.creator.as_str());
        texts.push(self.address.as_str());
        texts.push(self.file_owner.as_str());
        proof {
            assert(strs_view(texts@) =~= self.fields());
        }
        write_text_record(&texts)
    }

    /// Reads the message from the wire: there is one if and only if the
    /// bytes are its fields and nothing more.
    pub fn decode(b: &[u8]) -> (r: Option<Self>)
        ensures
            match parse_text_record(b@, 3) {
                Some(f) => r matches Some(m) && m.fields() == f,
                None => r is None,
            },
    {
        match read_text_record(b, 3) {
            Some(v) => {
                let m = MsgResetViewers {
                    creator: v[0].clone(),
                    address: v[1].clone(),
                    file_owner: v[2].clone(),
                };
                proof {
                    assert(m.fields() =~= strings_view(v@));
                }
                Some(m)
            },
            None => None,
        }
    }
}

/// Hands a file over to a new owner.
#[derive(Clone, Debug, PartialEq, Eq)]
pub struct MsgChangeOwner {
    pub creator: String,
    pub address: String,
    pub file_owner: String,
    pub new_owner: String,
}

/// Answer to [`MsgChangeOwner`]; it carries nothing.
#[derive(Clone, Copy, Debug, PartialEq, Eq, Structural)]
pub struct MsgChangeOwnerResponse {}

impl MsgChangeOwner {
    /// The fields in the order of their tags.
    pub open spec fn fields(&self) -> Seq<Seq<char>> {
        seq![
            self.creator@,
            self.address@,
            self.file_owner@,
            self.new_owner@,
        ]
    }

    /// The message on the wire.
    pub fn encode_to_vec(&self) -> (out: Vec<u8>)
        ensures
            out@ == text_record(self.fields()),
    {
        let mut texts: Vec<&str> = Vec::new();
        texts.push(self.creator.as_str());
        texts.push(self.address.as_str());
        texts.push(self.file_owner.as_str());
        texts.push(self.new_owner.as_str());
        proof {
            assert(strs_view(texts@) =~= self.fields());
        }
        write_text_record(&texts)
    }

    /// Reads the message from the wire: there is one if and only if the
    /// bytes are its fields and nothing more.
    pub fn decode(b: &[u8]) -> (r: Option<Self>)
        ensures
            match parse_text_record(b@, 4) {
                Some(f) => r matches Some(m) && m.fields() == f,
                None => r is None,
            },
    {
        match read_text_record(b, 4) {
            Some(v) => {
                let m = MsgChangeOwner {
                    creator: v[0].clone(),
                    address: v[1].clone(),
                    file_owner: v[2].clone(),
                    new_owner: v[3].clone(),
                };
                proof {
                    assert(m.fields() =~= strings_view(v@));
                }
                Some(m)
            },
            None => None,
        }
    }
}

} // verus!
