use cosmos_sdk_proto::cosmos::bank::v1beta1::MsgSend;
use cosmos_sdk_proto::cosmos::base::v1beta1::Coin as ProtoCoin;
use cosmos_sdk_proto::ibc::applications::interchain_accounts::v1::CosmosTx;
use cosmos_sdk_proto::traits::Message;
use storage_outpost::decimal::{parse_u128, parse_u64, write_decimal};
use storage_outpost::host::{BankMsg, Coin};
use storage_outpost::ibc::types::metadata::TxEncoding;
use storage_outpost::ibc::types::packet::{
    decode, encode, EncodedMessages, IcaPacketData, DEFAULT_TIMEOUT_SECONDS, EXECUTE_TX,
};
use storage_outpost::json::{read_json_string, write_json_string};
use storage_outpost::types::cosmos_msg::{
    bank, convert_from_proto_any, convert_to_proto_any, Any, Operation, MSG_SEND_TYPE_URL,
};
use storage_outpost::types::error::ContractError;
use storage_outpost::types::filetree::{
    MsgPostFile, MsgPostKey, MSG_POST_FILE_TYPE_URL, MSG_POST_KEY_TYPE_URL,
};
use storage_outpost::types::json_msg::{convert_from_proto3json, convert_to_proto3json};
use storage_outpost::wire::{read_varint, write_field, write_optional_field, write_varint};

fn coin(amount: u128, denom: &str) -> Coin {
    Coin::new(amount, denom.to_string())
}

fn send(to: &str, coins: Vec<Coin>) -> Operation {
    Operation::Bank(BankMsg::Send { to_address: to.to_string(), amount: coins })
}

fn post_key() -> Operation {
    Operation::PostKey(MsgPostKey { creator: "jkl1alice".to_string(), key: "04ab".to_string() })
}

fn post_file() -> Operation {
    Operation::PostFile(MsgPostFile {
        creator: "jkl1alice".to_string(),
        account: "acc".to_string(),
        hash_parent: "parent".to_string(),
        hash_child: "child".to_string(),
        contents: "{\"fid\":\"x\"}".to_string(),
        viewers: "".to_string(),
        editors: "e\\d".to_string(),
        tracking_number: "uuid-1".to_string(),
    })
}

fn stargate() -> Operation {
    Operation::Stargate { type_url: "/custom.v1.MsgDo".to_string(), value: vec![0, 1, 2, 255] }
}

fn proto_send(from: &str, to: &str, coins: &[(u128, &str)]) -> MsgSend {
    MsgSend {
        from_address: from.to_string(),
        to_address: to.to_string(),
        amount: coins
            .iter()
            .map(|(a, d)| ProtoCoin { denom: d.to_string(), amount: a.to_string() })
            .collect(),
    }
}

#[test]
fn varint_has_the_bytes_of_base_128() {
    let mut out = Vec::new();
    write_varint(&mut out, 0);
    write_varint(&mut out, 127);
    write_varint(&mut out, 128);
    write_varint(&mut out, 300);
    assert_eq!(out, vec![0x00, 0x7f, 0x80, 0x01, 0xac, 0x02]);
}

#[test]
fn varint_is_read_back_at_both_ends_of_the_range() {
    for n in [0u64, 1, 127, 128, 16_383, 16_384, u64::MAX - 1, u64::MAX] {
        let mut out = Vec::new();
        write_varint(&mut out, n);
        out.push(0x55);
        assert_eq!(read_varint(&out, 10), Some((n, out.len() - 1)));
    }
}

#[test]
fn varint_that_does_not_fit_or_does_not_end_is_refused() {
    assert_eq!(read_varint(&[], 10), None);
    assert_eq!(read_varint(&[0x80], 10), None);
    assert_eq!(read_varint(&[0xff; 11], 10), None);
    // ten bytes, but the value needs 65 bits
    let too_large = [0xff, 0xff, 0xff, 0xff, 0xff, 0xff, 0xff, 0xff, 0xff, 0x02];
    assert_eq!(read_varint(&too_large, 10), None);
}

#[test]
fn field_is_key_length_payload_and_an_empty_optional_field_is_left_out() {
    let mut out = Vec::new();
    write_field(&mut out, 1, b"ab");
    write_optional_field(&mut out, 2, b"");
    write_field(&mut out, 3, b"");
    assert_eq!(out, vec![0x0a, 2, b'a', b'b', 0x1a, 0]);
}

#[test]
fn decimal_is_written_and_read() {
    let mut out = Vec::new();
    write_decimal(&mut out, 0);
    out.push(b' ');
    write_decimal(&mut out, 1_000_000);
    out.push(b' ');
    write_decimal(&mut out, u128::MAX);
    assert_eq!(
        String::from_utf8(out).unwrap(),
        "0 1000000 340282366920938463463374607431768211455"
    );
    assert_eq!(parse_u128(b"340282366920938463463374607431768211455"), Some(u128::MAX));
    assert_eq!(parse_u128(b"340282366920938463463374607431768211456"), None);
    assert_eq!(parse_u128(b"+17"), Some(17));
    assert_eq!(parse_u128(b"007"), Some(7));
    assert_eq!(parse_u128(b""), None);
    assert_eq!(parse_u128(b"+"), None);
    assert_eq!(parse_u128(b"-1"), None);
    assert_eq!(parse_u128(b"1 "), None);
}

#[test]
fn code_identifier_is_read_as_the_standard_library_reads_it() {
    for text in ["0", "42", "+42", "18446744073709551615", "18446744073709551616", "", "+", "4 2", "x", "٣"] {
        assert_eq!(parse_u64(text), text.parse::<u64>().ok(), "{text:?}");
    }
}

#[test]
fn transfer_is_the_record_that_prost_writes() {
    let any = bank(
        BankMsg::Send { to_address: "bob".to_string(), amount: vec![coin(5, "ujkl"), coin(0, "uatom")] },
        "ica".to_string(),
    )
    .unwrap();
    assert_eq!(any.type_url, MSG_SEND_TYPE_URL);
    assert_eq!(any.type_url, "/cosmos.bank.v1beta1.MsgSend");
    assert_eq!(any.value, proto_send("ica", "bob", &[(5, "ujkl"), (0, "uatom")]).encode_to_vec());
}

#[test]
fn transfer_with_empty_texts_is_the_record_that_prost_writes() {
    let any = bank(BankMsg::Send { to_address: String::new(), amount: vec![coin(1, "")] }, String::new()).unwrap();
    assert_eq!(any.value, proto_send("", "", &[(1, "")]).encode_to_vec());
}

#[test]
fn burning_has_no_record() {
    let r = bank(BankMsg::Burn { amount: vec![coin(1, "ujkl")] }, "ica".to_string());
    assert_eq!(r, Err(ContractError::UnsupportedOperation {}));
}

#[test]
fn encoded_message_goes_as_it_is() {
    let any = convert_to_proto_any(stargate(), "ica".to_string()).unwrap();
    assert_eq!(any, Any { type_url: "/custom.v1.MsgDo".to_string(), value: vec![0, 1, 2, 255] });
}

#[test]
fn filetree_messages_have_their_own_identifiers() {
    let key = convert_to_proto_any(post_key(), "ica".to_string()).unwrap();
    assert_eq!(key.type_url, MSG_POST_KEY_TYPE_URL);
    // creator = 1, key = 2
    let mut expected = vec![0x0a, 9];
    expected.extend_from_slice(b"jkl1alice");
    expected.extend_from_slice(&[0x12, 4]);
    expected.extend_from_slice(b"04ab");
    assert_eq!(key.value, expected);

    let file = convert_to_proto_any(post_file(), "ica".to_string()).unwrap();
    assert_eq!(file.type_url, MSG_POST_FILE_TYPE_URL);
    // the empty field, viewers = 6, is left out
    assert!(!file.value.contains(&0x32));
    assert!(file.value.contains(&0x3a));
}

#[test]
fn binary_batch_is_the_transaction_that_prost_writes() {
    let ops = vec![send("bob", vec![coin(5, "ujkl")]), stargate(), post_key()];
    let encoded = encode(&ops, &TxEncoding::Protobuf, "ica").unwrap();

    let key = convert_to_proto_any(post_key(), "ica".to_string()).unwrap();
    let tx = CosmosTx {
        messages: vec![
            cosmos_sdk_proto::Any {
                type_url: "/cosmos.bank.v1beta1.MsgSend".to_string(),
                value: proto_send("ica", "bob", &[(5, "ujkl")]).encode_to_vec(),
            },
            cosmos_sdk_proto::Any { type_url: "/custom.v1.MsgDo".to_string(), value: vec![0, 1, 2, 255] },
            cosmos_sdk_proto::Any { type_url: key.type_url, value: key.value },
        ],
    };
    assert_eq!(encoded, EncodedMessages::Binary(tx.encode_to_vec()));
}

#[test]
fn binary_batch_is_read_by_prost_as_the_same_records() {
    let ops = vec![stargate(), send("bob", vec![coin(12, "ujkl"), coin(7, "uatom")])];
    let encoded = match encode(&ops, &TxEncoding::Protobuf, "ica").unwrap() {
        EncodedMessages::Binary(b) => b,
        other => panic!("{other:?}"),
    };
    let tx = CosmosTx::decode(encoded.as_slice()).unwrap();
    assert_eq!(tx.messages.len(), 2);
    assert_eq!(tx.messages[0].type_url, "/custom.v1.MsgDo");
    let sent = MsgSend::decode(tx.messages[1].value.as_slice()).unwrap();
    assert_eq!(sent, proto_send("ica", "bob", &[(12, "ujkl"), (7, "uatom")]));
}

#[test]
fn binary_round_trip_gives_the_batch_back() {
    let ops = vec![
        send("bob", vec![coin(5, "ujkl"), coin(u128::MAX, "uatom")]),
        send("", vec![]),
        stargate(),
        Operation::Stargate { type_url: String::new(), value: vec![] },
        post_key(),
        post_file(),
        send("carol", vec![coin(0, "ü")]),
    ];
    let encoded = encode(&ops, &TxEncoding::Protobuf, "ica").unwrap();
    assert_eq!(decode(&encoded), Ok(ops));
}

#[test]
fn text_round_trip_gives_the_batch_back() {
    let ops = vec![
        send("bob", vec![coin(5, "ujkl"), coin(u128::MAX, "uatom")]),
        send("quote\" backslash\\ newline\n tab\t bell\u{7} ü 漢", vec![]),
        post_key(),
        post_file(),
    ];
    let encoded = encode(&ops, &TxEncoding::Proto3Json, "ica").unwrap();
    assert_eq!(decode(&encoded), Ok(ops));
}

#[test]
fn empty_batch_round_trips_in_both_encodings() {
    let none: Vec<Operation> = vec![];
    assert_eq!(encode(&none, &TxEncoding::Protobuf, "ica"), Ok(EncodedMessages::Binary(vec![])));
    assert_eq!(encode(&none, &TxEncoding::Proto3Json, "ica"), Ok(EncodedMessages::Text(vec![])));
    assert_eq!(decode(&EncodedMessages::Binary(vec![])), Ok(vec![]));
    assert_eq!(decode(&EncodedMessages::Text(vec![])), Ok(vec![]));
}

#[test]
fn encoding_keeps_the_order_and_the_doubles() {
    let ops = vec![post_key(), stargate(), post_key(), stargate()];
    let encoded = encode(&ops, &TxEncoding::Protobuf, "ica").unwrap();
    assert_eq!(decode(&encoded), Ok(ops));
}

#[test]
fn encoded_message_under_the_identifier_of_a_transfer_is_read_as_the_transfer() {
    let value = proto_send("ica", "bob", &[(5, "ujkl")]).encode_to_vec();
    let ops = vec![Operation::Stargate { type_url: MSG_SEND_TYPE_URL.to_string(), value }];
    let encoded = encode(&ops, &TxEncoding::Protobuf, "ica").unwrap();
    assert_eq!(decode(&encoded), Ok(vec![send("bob", vec![coin(5, "ujkl")])]));
}

#[test]
fn record_under_a_known_identifier_that_cannot_be_read_is_refused() {
    let any = Any { type_url: MSG_POST_KEY_TYPE_URL.to_string(), value: vec![0x0a, 5, b'x'] };
    assert_eq!(
        convert_from_proto_any(any),
        Err(ContractError::SerializationFailure(MSG_POST_KEY_TYPE_URL.to_string()))
    );
}

#[test]
fn bytes_that_are_no_batch_are_refused() {
    assert!(matches!(
        decode(&EncodedMessages::Binary(vec![0x0a, 3, 1])),
        Err(ContractError::SerializationFailure(_))
    ));
    assert!(matches!(
        decode(&EncodedMessages::Binary(vec![0x12, 0])),
        Err(ContractError::SerializationFailure(_))
    ));
    assert!(matches!(
        decode(&EncodedMessages::Text(vec!["{}".to_string()])),
        Err(ContractError::SerializationFailure(_))
    ));
}

#[test]
fn transfer_as_text_has_the_names_of_the_host_side() {
    let text = convert_to_proto3json(send("bob", vec![coin(5, "ujkl"), coin(7, "uatom")]), "ica".to_string());
    assert_eq!(
        text,
        Ok("{\"@type\":\"/cosmos.bank.v1beta1.MsgSend\",\"from_address\":\"ica\",\"to_address\":\"bob\",\"amount\":[{\"denom\":\"ujkl\",\"amount\":\"5\"},{\"denom\":\"uatom\",\"amount\":\"7\"}]}".to_string())
    );
    let none = convert_to_proto3json(send("bob", vec![]), "ica".to_string());
    assert_eq!(
        none,
        Ok("{\"@type\":\"/cosmos.bank.v1beta1.MsgSend\",\"from_address\":\"ica\",\"to_address\":\"bob\",\"amount\":[]}".to_string())
    );
}

#[test]
fn post_key_as_text() {
    assert_eq!(
        convert_to_proto3json(post_key(), "ica".to_string()),
        Ok("{\"@type\":\"/canine_chain.filetree.MsgPostKey\",\"creator\":\"jkl1alice\",\"key\":\"04ab\"}".to_string())
    );
}

#[test]
fn text_batch_is_one_document_for_each_operation() {
    let ops = vec![post_key(), send("bob", vec![])];
    match encode(&ops, &TxEncoding::Proto3Json, "ica").unwrap() {
        EncodedMessages::Text(docs) => {
            assert_eq!(docs.len(), 2);
            assert_eq!(convert_from_proto3json(&docs[0]), Ok(post_key()));
            assert_eq!(convert_from_proto3json(&docs[1]), Ok(send("bob", vec![])));
        }
        other => panic!("{other:?}"),
    }
}

#[test]
fn encoded_message_and_burning_have_no_text_form() {
    assert_eq!(
        encode(&vec![post_key(), stargate()], &TxEncoding::Proto3Json, "ica"),
        Err(ContractError::UnsupportedOperation {})
    );
    assert_eq!(
        convert_to_proto3json(Operation::Bank(BankMsg::Burn { amount: vec![] }), "ica".to_string()),
        Err(ContractError::UnsupportedOperation {})
    );
    assert_eq!(
        encode(&vec![Operation::Bank(BankMsg::Burn { amount: vec![] })], &TxEncoding::Protobuf, "ica"),
        Err(ContractError::UnsupportedOperation {})
    );
}

#[test]
fn strings_are_escaped_as_serde_json_wasm_escapes_them() {
    for text in ["", "plain", "quote\"", "back\\slash", "line\nfeed\r\t", "\u{8}\u{c}", "\u{0}\u{1f}", "ü 漢 🦀"] {
        let mut out = Vec::new();
        write_json_string(&mut out, text.as_bytes());
        let expected = serde_json_wasm::to_string(text).unwrap();
        assert_eq!(String::from_utf8(out.clone()).unwrap(), expected, "{text:?}");
        out.extend_from_slice(b",rest");
        let (back, rest) = read_json_string(&out).unwrap();
        assert_eq!(back, text.as_bytes());
        assert_eq!(rest, b",rest");
    }
}

#[test]
fn string_that_is_not_closed_or_badly_escaped_is_refused() {
    assert!(read_json_string(b"\"abc").is_none());
    assert!(read_json_string(b"abc\"").is_none());
    assert!(read_json_string(b"\"a\\x\"").is_none());
    assert!(read_json_string(b"\"a\\u12\"").is_none());
    assert!(read_json_string(b"\"a\nb\"").is_none());
}

#[test]
fn packet_carries_the_batch_and_the_memo() {
    let packet = IcaPacketData::from_cosmos_msgs(
        vec![stargate()],
        &TxEncoding::Protobuf,
        Some("memo".to_string()),
        "ica",
    )
    .unwrap();
    assert_eq!(packet.packet_type, EXECUTE_TX);
    assert_eq!(packet.memo, Some("memo".to_string()));
    assert_eq!(packet.to_cosmos_msgs(), Ok(vec![stargate()]));
    assert_eq!(DEFAULT_TIMEOUT_SECONDS, 600);

    let any = convert_to_proto_any(stargate(), String::new()).unwrap();
    let same = IcaPacketData::from_proto_anys(vec![any], Some("memo".to_string()));
    assert_eq!(same, packet);

    let text = IcaPacketData::from_json_strings(vec!["{}".to_string()], None);
    assert_eq!(text.data, EncodedMessages::Text(vec!["{}".to_string()]));
}
