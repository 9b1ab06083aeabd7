use storage_outpost::ibc::types::keys::{HOST_PORT_ID, ICA_VERSION, TRANSFER_PORT_ID, TRANSFER_VERSION};
use storage_outpost::ibc::types::transfer_metadata::TransferMetadata;
use storage_outpost::types::cosmos_msg::{handle_cosmos_msg, Operation};
use storage_outpost::types::filetree::{MsgPostFile, MsgPostKey};
use storage_outpost::types::filetree_tx::{
    MsgAddEditors, MsgAddViewers, MsgChangeOwner, MsgDeleteFile, MsgProvisionFileTree,
    MsgRemoveEditors, MsgRemoveViewers, MsgResetEditors, MsgResetViewers,
};

fn s(text: &str) -> String {
    text.to_string()
}

#[test]
fn keys_of_the_applications() {
    assert_eq!(ICA_VERSION, "ics27-1");
    assert_eq!(HOST_PORT_ID, "icahost");
    assert_eq!(TRANSFER_PORT_ID, "transfer");
    assert_eq!(TRANSFER_VERSION, "ics20-1");
}

#[test]
fn transfer_metadata_is_written_as_a_json_object() {
    let m = TransferMetadata::new(s("ics20-1"), s("connection-0"), s("connection-\"1\""));
    assert_eq!(
        m.to_string(),
        "{\"version\":\"ics20-1\",\"controller_connection_id\":\"connection-0\",\"host_connection_id\":\"connection-\\\"1\\\"\"}"
    );
    assert_eq!(m.version, "ics20-1");
}

#[test]
fn encoded_message_is_described_for_the_log() {
    let op = Operation::Stargate { type_url: s("/canine_chain.filetree.MsgPostKey"), value: vec![0x0a, 0x05, 0xff] };
    assert_eq!(handle_cosmos_msg(&op), "Stargate type_url: /canine_chain.filetree.MsgPostKey, value: Binary(0a05ff)");
    let other = Operation::PostKey(MsgPostKey { creator: s("a"), key: s("b") });
    assert_eq!(handle_cosmos_msg(&other), "Encountered a non-Stargate CosmosMsg variant.");
}

#[test]
fn post_key_has_creator_and_key_as_fields_one_and_two() {
    let m = MsgPostKey { creator: s("Alice"), key: s("Alice's Public Key") };
    let mut expected = vec![0x0a, 5];
    expected.extend_from_slice(b"Alice");
    expected.extend_from_slice(&[0x12, 18]);
    expected.extend_from_slice(b"Alice's Public Key");
    assert_eq!(m.encode_to_vec(), expected);
    assert_eq!(MsgPostKey::decode(&expected), Some(m));
    assert_eq!(MsgPostKey::decode(&[0x0a, 5]), None);
    assert_eq!(MsgPostKey::decode(&[0x1a, 0]), None);
    assert_eq!(MsgPostKey::decode(&[0x0a, 1, 0xff]), None);
    assert_eq!(MsgPostKey::decode(&[]), Some(MsgPostKey { creator: s(""), key: s("") }));
}

#[test]
fn post_file_round_trips_with_empty_fields_left_out() {
    let m = MsgPostFile {
        creator: s("c"),
        account: s(""),
        hash_parent: s("p"),
        hash_child: s(""),
        contents: s(""),
        viewers: s("v"),
        editors: s(""),
        tracking_number: s("t"),
    };
    let bytes = m.encode_to_vec();
    assert_eq!(bytes, vec![0x0a, 1, b'c', 0x1a, 1, b'p', 0x32, 1, b'v', 0x42, 1, b't']);
    assert_eq!(MsgPostFile::decode(&bytes), Some(m));
}

#[test]
fn long_field_has_its_length_in_two_bytes() {
    let m = MsgDeleteFile { creator: "x".repeat(300), hash_path: s(""), account: s("a") };
    let bytes = m.encode_to_vec();
    assert_eq!(&bytes[..3], &[0x0a, 0xac, 0x02]);
    assert_eq!(bytes.len(), 3 + 300 + 3);
    assert_eq!(MsgDeleteFile::decode(&bytes), Some(m));
}

#[test]
fn other_filetree_messages_round_trip() {
    let a = MsgAddViewers { creator: s("c"), viewer_ids: s("i"), viewer_keys: s("k"), address: s("a"), file_owner: s("o") };
    assert_eq!(a.encode_to_vec(), vec![0x0a, 1, b'c', 0x12, 1, b'i', 0x1a, 1, b'k', 0x22, 1, b'a', 0x2a, 1, b'o']);
    assert_eq!(MsgAddViewers::decode(&a.encode_to_vec()), Some(a));
    let b = MsgRemoveViewers { creator: s("c"), viewer_ids: s("ü"), address: s(""), file_owner: s("o") };
    assert_eq!(MsgRemoveViewers::decode(&b.encode_to_vec()), Some(b));
    let c = MsgProvisionFileTree { creator: s("c"), editors: s("{}"), viewers: s("{}"), tracking_number: s("1") };
    assert_eq!(MsgProvisionFileTree::decode(&c.encode_to_vec()), Some(c));
    let d = MsgAddEditors { creator: s("c"), editor_ids: s("i"), editor_keys: s("k"), address: s("a"), file_owner: s("o") };
    assert_eq!(MsgAddEditors::decode(&d.encode_to_vec()), Some(d));
    let e = MsgRemoveEditors { creator: s("c"), editor_ids: s("i"), address: s("a"), file_owner: s("o") };
    assert_eq!(MsgRemoveEditors::decode(&e.encode_to_vec()), Some(e));
    let f = MsgResetEditors { creator: s("c"), address: s("a"), file_owner: s("o") };
    assert_eq!(MsgResetEditors::decode(&f.encode_to_vec()), Some(f));
    let g = MsgResetViewers { creator: s(""), address: s(""), file_owner: s("") };
    assert_eq!(g.encode_to_vec(), Vec::<u8>::new());
    assert_eq!(MsgResetViewers::decode(&[]), Some(g));
    let h = MsgChangeOwner { creator: s("c"), address: s("a"), file_owner: s("o"), new_owner: s("n") };
    assert_eq!(MsgChangeOwner::decode(&h.encode_to_vec()), Some(h));
    // a field too many
    assert_eq!(MsgResetViewers::decode(&[0x22, 1, b'x']), None);
}
