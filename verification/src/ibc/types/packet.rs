//! The packet that carries a batch of operations: how the batch is encoded,
//! how it is read back, and how the packet is handed to the host.

use vstd::prelude::*;
use vstd::utf8::*;
use crate::host::{CosmosMsg, Env, SendPacket, StdError};
use crate::ibc::types::metadata::TxEncoding;
use crate::types::cosmos_msg::{
    binary_supported,
    convert_from_proto_any,
    from_any,
    lemma_any_round_trip,
    operation_fits,
    operations_view,
    to_any,
    to_proto_any,
    Any,
    AnyView,
    Operation,
    OperationView,
};
use crate::types::error::ContractError;
use crate::types::json_msg::{
    from_doc,
    from_doc_bytes,
    lemma_doc_round_trip,
    text_supported,
    to_doc,
    to_doc_bytes,
};
use crate::wire::{
    all_fit,
    lemma_repeated_push,
    lemma_take_record,
    lemma_take_record_len,
    lemma_take_repeated,
    length_fits,
    read_record,
    read_repeated,
    record,
    repeated,
    string_from_utf8,
    take_all_repeated,
    take_record,
    views,
    write_field,
    write_record,
};

verus! {

/// Seconds after which a packet times out when the sender names no timeout.
pub const DEFAULT_TIMEOUT_SECONDS: u64 = 600;

/// Nanoseconds in a second.
pub const NANOS_PER_SECOND: u64 = 1_000_000_000;

/// Packet type of a packet that asks for a transaction to be executed.
pub const EXECUTE_TX: u32 = 1;

/// A batch of operations in one of the two encodings.
#[derive(Clone, Debug, PartialEq, Eq)]
pub enum EncodedMessages {
    /// The records, packed into one byte string.
    Binary(Vec<u8>),
    /// One JSON document for each operation, each complete in itself.
    Text(Vec<String>),
}

/// The content of a packet.
#[derive(Clone, Debug, PartialEq, Eq)]
pub struct IcaPacketData {
    pub packet_type: u32,
    pub data: EncodedMessages,
    pub memo: Option<String>,
}

/// A record on the wire: the identifier of the type, then the value.
pub open spec fn any_bytes(a: AnyView) -> Seq<u8> {
    record(seq![encode_utf8(a.type_url), a.value], 1)
}

/// Reads a record from the wire.
pub open spec fn parse_any(b: Seq<u8>) -> Option<AnyView> {
    match take_record(b, 1, 2) {
        Some((ps, rest)) => if rest.len() == 0 && valid_utf8(ps[0]) {
            Some(AnyView { type_url: decode_utf8(ps[0]), value: ps[1] })
        } else {
            None
        },
        None => None,
    }
}

/// Records packed into one byte string: one field for each, in order.
pub open spec fn pack(records: Seq<AnyView>) -> Seq<u8> {
    repeated(1, records.map_values(|a: AnyView| any_bytes(a)))
}

/// Every operation has a binary form.
pub open spec fn all_binary(ops: Seq<OperationView>, from_address: Seq<char>) -> bool {
    forall|i: int| 0 <= i < ops.len() ==> to_any(#[trigger] ops[i], from_address) is Some
}

/// The records of the operations, in order.
pub open spec fn records(ops: Seq<OperationView>, from_address: Seq<char>) -> Seq<AnyView> {
    ops.map_values(|op: OperationView| to_any(op, from_address)->Some_0)
}

/// The binary encoding of a batch sent from `from_address`: the operations'
/// records in order, packed into one byte string. There is none if one of
/// the operations has no binary form.
pub open spec fn encode_binary(ops: Seq<OperationView>, from_address: Seq<char>) -> Option<
    Seq<u8>,
> {
    if all_binary(ops, from_address) {
        Some(pack(records(ops, from_address)))
    } else {
        None
    }
}

/// The operation that one packed field stands for.
pub open spec fn unpack_one(b: Seq<u8>) -> Option<OperationView> {
    match parse_any(b) {
        Some(a) => from_any(a),
        None => None,
    }
}

/// The batch that a byte string stands for: it must be records packed one
/// after the other and nothing more, and each record must stand for an
/// operation.
pub open spec fn decode_binary(b: Seq<u8>) -> Option<Seq<OperationView>> {
    match take_all_repeated(b, 1) {
        Some((items, rest)) => if rest.len() == 0 && forall|i: int|
            0 <= i < items.len() ==> unpack_one(#[trigger] items[i]) is Some {
            Some(items.map_values(|x: Seq<u8>| unpack_one(x)->Some_0))
        } else {
            None
        },
        None => None,
    }
}

/// Every operation has a text form.
pub open spec fn all_text(ops: Seq<OperationView>, from_address: Seq<char>) -> bool {
    forall|i: int| 0 <= i < ops.len() ==> to_doc(#[trigger] ops[i], from_address) is Some
}

/// The text encoding of a batch sent from `from_address`: one document for
/// each operation, in order. There is none if one of the operations has no
/// text form.
pub open spec fn encode_text(ops: Seq<OperationView>, from_address: Seq<char>) -> Option<
    Seq<Seq<u8>>,
> {
    if all_text(ops, from_address) {
        Some(ops.map_values(|op: OperationView| to_doc(op, from_address)->Some_0))
    } else {
        None
    }
}

/// The batch that a list of documents stands for: each must be the document
/// of an operation.
pub open spec fn decode_text(docs: Seq<Seq<u8>>) -> Option<Seq<OperationView>> {
    if forall|i: int| 0 <= i < docs.len() ==> from_doc(#[trigger] docs[i]) is Some {
        Some(docs.map_values(|d: Seq<u8>| from_doc(d)->Some_0))
    } else {
        None
    }
}

/// Every length that is written for the record fits into 64 bits.
pub open spec fn any_fits(a: AnyView) -> bool {
    &&& encode_utf8(a.type_url).len() <= u64::MAX
    &&& a.value.len() <= u64::MAX
    &&& any_bytes(a).len() <= u64::MAX
}

/// The operation can be packed and told again: it has a binary form from
/// which it can be told, and every length that is written for it fits into
/// 64 bits, as it does for every operation that a machine can hold.
pub open spec fn packable(op: OperationView, from_address: Seq<char>) -> bool {
    &&& binary_supported(op)
    &&& operation_fits(op, from_address)
    &&& any_fits(to_any(op, from_address)->Some_0)
}

/// A record is read back from its bytes.
pub proof fn lemma_any_parses(a: AnyView)
    requires
        any_fits(a),
    ensures
        parse_any(any_bytes(a)) == Some(a),
{
    let fields = seq![encode_utf8(a.type_url), a.value];
    let none = Seq::<u8>::empty();
    assert(all_fit(fields)) by {
        assert forall|i: int| 0 <= i < fields.len() implies (#[trigger] fields[i]).len()
            <= u64::MAX by {
            if i == 0 {
            } else {
                assert(fields[i] == a.value);
            }
        }
    }
    lemma_take_record(fields, 1, none);
    assert(any_bytes(a) + none =~= any_bytes(a));
    encode_utf8_valid_utf8(a.type_url);
    encode_utf8_decode_utf8(a.type_url);
}

/// Decoding undoes encoding, for binary messages: a batch of operations that
/// can be packed is read back from its encoding as it was, operation for
/// operation and in the same order. An empty batch is read back as well.
///
/// Left out are burning, which has no encoding, and a message that is
/// already encoded under the identifier of a transfer or of a filetree
/// message: what is read back under such an identifier is the transfer or
/// the filetree message.
pub proof fn lemma_binary_round_trip(ops: Seq<OperationView>, from_address: Seq<char>)
    requires
        forall|i: int| 0 <= i < ops.len() ==> packable(#[trigger] ops[i], from_address),
    ensures
        encode_binary(ops, from_address) matches Some(b) && decode_binary(b) == Some(ops),
{
    assert forall|i: int| 0 <= i < ops.len() implies to_any(#[trigger] ops[i], from_address)
        is Some by {
        assert(packable(ops[i], from_address));
        lemma_any_round_trip(ops[i], from_address);
    }
    let recs = records(ops, from_address);
    let items = recs.map_values(|a: AnyView| any_bytes(a));
    let none = Seq::<u8>::empty();
    assert(all_fit(items)) by {
        assert forall|i: int| 0 <= i < items.len() implies (#[trigger] items[i]).len()
            <= u64::MAX by {
            assert(packable(ops[i], from_address));
        }
    }
    lemma_take_repeated(1, items, none);
    assert(pack(recs) + none =~= pack(recs));
    assert forall|i: int| 0 <= i < items.len() implies unpack_one(#[trigger] items[i]) == Some(
        ops[i],
    ) by {
        assert(packable(ops[i], from_address));
        lemma_any_parses(recs[i]);
        lemma_any_round_trip(ops[i], from_address);
    }
    assert(items.map_values(|x: Seq<u8>| unpack_one(x)->Some_0) =~= ops);
}

/// Decoding undoes encoding, for text messages: a batch of operations that
/// have a text form is read back from its documents as it was, operation for
/// operation and in the same order. An empty batch is read back as well.
pub proof fn lemma_text_round_trip(ops: Seq<OperationView>, from_address: Seq<char>)
    requires
        forall|i: int| 0 <= i < ops.len() ==> text_supported(#[trigger] ops[i]),
    ensures
        encode_text(ops, from_address) matches Some(d) && decode_text(d) == Some(ops),
{
    assert forall|i: int| 0 <= i < ops.len() implies to_doc(#[trigger] ops[i], from_address)
        is Some by {
        assert(text_supported(ops[i]));
        lemma_doc_round_trip(ops[i], from_address);
    }
    let docs = ops.map_values(|op: OperationView| to_doc(op, from_address)->Some_0);
    assert forall|i: int| 0 <= i < docs.len() implies from_doc(#[trigger] docs[i]) == Some(
        ops[i],
    ) by {
        assert(text_supported(ops[i]));
        lemma_doc_round_trip(ops[i], from_address);
    }
    assert(docs.map_values(|d: Seq<u8>| from_doc(d)->Some_0) =~= ops);
}

/// The views of a list of records.
pub open spec fn anys_view(v: Seq<Any>) -> Seq<AnyView> {
    v.map_values(|a: Any| a@)
}

/// Writes a record.
pub fn encode_any(a: &Any) -> (out: Vec<u8>)
    ensures
        out@ == any_bytes(a@),
        any_fits(a@),
{
    let mut fields: Vec<&[u8]> = Vec::new();
    fields.push(a.type_url.as_str().as_bytes());
    fields.push(a.value.as_slice());
    length_fits(a.type_url.as_str().as_bytes());
    length_fits(a.value.as_slice());
    let mut out: Vec<u8> = Vec::new();
    proof {
        assert(views(fields@) =~= seq![encode_utf8(a@.type_url), a@.value]);
    }
    write_record(&mut out, &fields, 1);
    length_fits(out.as_slice());
    proof {
        assert(out@ =~= any_bytes(a@));
    }
    out
}

/// Reads a record.
pub fn decode_any(b: &[u8]) -> (r: Option<Any>)
    ensures
        match parse_any(b@) {
            Some(a) => r matches Some(x) && x@ == a,
            None => r is None,
        },
{
    proof {
        lemma_take_record_len(b@, 1, 2);
    }
    let (fields, rest) = match read_record(b, 1, 2) {
        Some(x) => x,
        None => {
            return None;
        },
    };
    if rest.len() != 0 {
        return None;
    }
    proof {
        assert(views(fields@)[0] == fields@[0]@);
        assert(views(fields@)[1] == fields@[1]@);
    }
    match string_from_utf8(fields[0]) {
        Some(type_url) => Some(
            Any { type_url, value: crate::types::cosmos_msg::copy_bytes(fields[1]) },
        ),
        None => None,
    }
}

/// The result of encoding a batch in the text encoding, for the documents
/// `docs` that the batch has, if it has any.
pub open spec fn is_text_result(docs: Option<Seq<Seq<u8>>>, r: Result<Vec<String>, ContractError>) -> bool {
    match docs {
        None => r == Err::<Vec<String>, ContractError>(ContractError::UnsupportedOperation {  }),
        Some(docs) => {
            &&& r matches Ok(v)
            &&& v@.len() == docs.len()
            &&& forall|i: int| 0 <= i < docs.len() ==> encode_utf8((#[trigger] v@[i])@) == docs[i]
        },
    }
}

/// Encodes a batch sent from `from_address` as binary messages.
pub fn encode_binary_messages(messages: &Vec<Operation>, from_address: &str) -> (r: Result<
    Vec<u8>,
    ContractError,
>)
    ensures
        match encode_binary(operations_view(messages@), from_address@) {
            Some(b) => r matches Ok(v) && v@ == b,
            None => r == Err::<Vec<u8>, ContractError>(ContractError::UnsupportedOperation {  }),
        },
        all_told_again(operations_view(messages@), TxEncoding::Protobuf) ==> (r matches Ok(v)
            ==> decode_binary(v@) == Some(operations_view(messages@))),
{
    let ghost ops = operations_view(messages@);
    let mut out: Vec<u8> = Vec::new();
    let mut i: usize = 0;
    proof {
        assert(records(ops.take(0), from_address@) =~= Seq::<AnyView>::empty());
        assert(pack(Seq::<AnyView>::empty()) =~= Seq::<u8>::empty());
    }
    while i < messages.len()
        invariant
            i <= messages.len(),
            ops == operations_view(messages@),
            all_binary(ops.take(i as int), from_address@),
            out@ == pack(records(ops.take(i as int), from_address@)),
            forall|j: int|
                0 <= j < i ==> operation_fits(#[trigger] ops[j], from_address@) && any_fits(
                    to_any(ops[j], from_address@)->Some_0,
                ),
        decreases messages.len() - i,
    {
        let any = match to_proto_any(&messages[i], from_address) {
            Ok(a) => a,
            Err(e) => {
                proof {
                    assert(to_any(ops[i as int], from_address@) is None);
                }
                return Err(e);
            },
        };
        let bytes = encode_any(&any);
        write_field(&mut out, 1, bytes.as_slice());
        proof {
            let before = records(ops.take(i as int), from_address@);
            let after = records(ops.take(i + 1), from_address@);
            assert(ops.take(i + 1) =~= ops.take(i as int).push(ops[i as int]));
            assert(after =~= before.push(any@));
            let items = before.map_values(|a: AnyView| any_bytes(a));
            lemma_repeated_push(1, items, any_bytes(any@));
            assert(after.map_values(|a: AnyView| any_bytes(a)) =~= items.push(any_bytes(any@)));
            assert forall|j: int| 0 <= j < ops.take(i + 1).len() implies to_any(
                #[trigger] ops.take(i + 1)[j],
                from_address@,
            ) is Some by {
                if j < i {
                    assert(ops.take(i as int)[j] == ops.take(i + 1)[j]);
                }
            }
        }
        i += 1;
    }
    proof {
        assert(ops.take(messages.len() as int) =~= ops);
        if all_told_again(ops, TxEncoding::Protobuf) {
            assert forall|j: int| 0 <= j < ops.len() implies packable(
                #[trigger] ops[j],
                from_address@,
            ) by {
                assert(told_again(ops[j], TxEncoding::Protobuf));
            }
            lemma_binary_round_trip(ops, from_address@);
        }
    }
    Ok(out)
}

/// Reads a batch from its binary encoding. Bytes that are no batch are
/// refused with `SerializationFailure`.
pub fn decode_binary_messages(data: &[u8]) -> (r: Result<Vec<Operation>, ContractError>)
    ensures
        match decode_binary(data@) {
            Some(ops) => r matches Ok(v) && operations_view(v@) == ops,
            None => r matches Err(ContractError::SerializationFailure(_)),
        },
{
    let (items, rest) = match read_repeated(data, 1) {
        Some(x) => x,
        None => {
            return Err(ContractError::SerializationFailure(String::from_str("not a batch")));
        },
    };
    if rest.len() != 0 {
        return Err(ContractError::SerializationFailure(String::from_str("not a batch")));
    }
    let ghost ps = views(items@);
    let mut out: Vec<Operation> = Vec::new();
    let mut i: usize = 0;
    while i < items.len()
        invariant
            i <= items.len(),
            ps == views(items@),
            take_all_repeated(data@, 1) == Some((ps, rest@)),
            rest@.len() == 0,
            out@.len() == i,
            forall|j: int| 0 <= j < i ==> unpack_one(#[trigger] ps[j]) is Some,
            forall|j: int| 0 <= j < i ==> (#[trigger] out@[j])@ == unpack_one(ps[j])->Some_0,
        decreases items.len() - i,
    {
        let any = match decode_any(items[i]) {
            Some(a) => a,
            None => {
                proof {
                    assert(unpack_one(ps[i as int]) is None);
                }
                return Err(ContractError::SerializationFailure(String::from_str("not a record")));
            },
        };
        match convert_from_proto_any(any) {
            Ok(op) => {
                out.push(op);
            },
            Err(e) => {
                proof {
                    assert(unpack_one(ps[i as int]) is None);
                }
                return Err(e);
            },
        }
        i += 1;
    }
    proof {
        assert(operations_view(out@) =~= ps.map_values(|x: Seq<u8>| unpack_one(x)->Some_0));
    }
    Ok(out)
}

/// Encodes a batch sent from `from_address` as text messages.
pub fn encode_text_messages(messages: &Vec<Operation>, from_address: &str) -> (r: Result<
    Vec<String>,
    ContractError,
>)
    ensures
        is_text_result(encode_text(operations_view(messages@), from_address@), r),
        r matches Ok(v) ==> decode_text(docs_bytes(v@)) == Some(operations_view(messages@)),
{
    let ghost ops = operations_view(messages@);
    let mut docs: Vec<Vec<u8>> = Vec::new();
    let mut i: usize = 0;
    while i < messages.len()
        invariant
            i <= messages.len(),
            ops == operations_view(messages@),
            docs@.len() == i,
            forall|j: int| 0 <= j < i ==> to_doc(#[trigger] ops[j], from_address@) == Some(
                docs@[j]@,
            ),
            forall|j: int| 0 <= j < i ==> valid_utf8(#[trigger] docs@[j]@),
        decreases messages.len() - i,
    {
        match to_doc_bytes(&messages[i], from_address) {
            Some(d) => {
                proof {
                    crate::types::json_msg::lemma_to_doc_is_text(ops[i as int], from_address@);
                }
                docs.push(d);
            },
            None => {
                proof {
                    assert(to_doc(ops[i as int], from_address@) is None);
                }
                return Err(ContractError::UnsupportedOperation {  });
            },
        }
        i += 1;
    }
    let ghost all = encode_text(ops, from_address@)->Some_0;
    proof {
        assert(all_text(ops, from_address@));
        assert(all.len() == docs@.len());
        assert forall|j: int| 0 <= j < all.len() implies #[trigger] all[j] == docs@[j]@ by {
            assert(to_doc(ops[j], from_address@) == Some(docs@[j]@));
        }
    }
    let mut out: Vec<String> = Vec::new();
    let mut k: usize = 0;
    while k < docs.len()
        invariant
            k <= docs.len(),
            encode_text(operations_view(messages@), from_address@) == Some(all),
            all.len() == docs@.len(),
            forall|j: int| 0 <= j < all.len() ==> #[trigger] all[j] == docs@[j]@,
            forall|j: int| 0 <= j < docs@.len() ==> valid_utf8(#[trigger] docs@[j]@),
            out@.len() == k,
            forall|j: int| 0 <= j < k ==> encode_utf8((#[trigger] out@[j])@) == all[j],
        decreases docs.len() - k,
    {
        match string_from_utf8(docs[k].as_slice()) {
            Some(s) => {
                proof {
                    decode_utf8_encode_utf8(docs@[k as int]@);
                }
                out.push(s);
            },
            None => {
                proof {
                    assert(valid_utf8(docs@[k as int]@));
                    assert(false);
                }
                return Err(ContractError::UnsupportedOperation {  });
            },
        }
        k += 1;
    }
    proof {
        assert(docs_bytes(out@) =~= all);
        assert forall|j: int| 0 <= j < ops.len() implies text_supported(#[trigger] ops[j]) by {
            assert(to_doc(ops[j], from_address@) is Some);
        }
        lemma_text_round_trip(ops, from_address@);
    }
    Ok(out)
}

/// The encodings of the texts of a list.
pub open spec fn docs_bytes(docs: Seq<String>) -> Seq<Seq<u8>> {
    docs.map_values(|d: String| encode_utf8(d@))
}

/// Reads a batch from its text encoding. A text that is no document of an
/// operation is refused with `SerializationFailure`.
pub fn decode_text_messages(docs: &Vec<String>) -> (r: Result<Vec<Operation>, ContractError>)
    ensures
        match decode_text(docs_bytes(docs@)) {
            Some(ops) => r matches Ok(v) && operations_view(v@) == ops,
            None => r matches Err(ContractError::SerializationFailure(_)),
        },
{
    let ghost ds = docs_bytes(docs@);
    let mut out: Vec<Operation> = Vec::new();
    let mut i: usize = 0;
    while i < docs.len()
        invariant
            i <= docs.len(),
            ds == docs_bytes(docs@),
            out@.len() == i,
            forall|j: int| 0 <= j < i ==> from_doc(#[trigger] ds[j]) is Some,
            forall|j: int| 0 <= j < i ==> (#[trigger] out@[j])@ == from_doc(ds[j])->Some_0,
        decreases docs.len() - i,
    {
        match from_doc_bytes(docs[i].as_str().as_bytes()) {
            Some(op) => {
                out.push(op);
            },
            None => {
                proof {
                    assert(from_doc(ds[i as int]) is None);
                }
                return Err(
                    ContractError::SerializationFailure(
                        String::from_str("not the document of an operation"),
                    ),
                );
            },
        }
        i += 1;
    }
    proof {
        assert(operations_view(out@) =~= ds.map_values(|d: Seq<u8>| from_doc(d)->Some_0));
    }
    Ok(out)
}

/// The deadline of a packet that is sent at `now` with this timeout: the
/// timeout, or the default if none is named, after `now`. In nanoseconds.
pub open spec fn deadline(now: u64, timeout_seconds: Option<u64>) -> int {
    now + NANOS_PER_SECOND * match timeout_seconds {
        Some(t) => t,
        None => DEFAULT_TIMEOUT_SECONDS,
    }
}

/// What encoding a batch gives, by the encoding that is asked for.
pub open spec fn is_encoded(
    ops: Seq<OperationView>,
    encoding: TxEncoding,
    from_address: Seq<char>,
    r: Result<EncodedMessages, ContractError>,
) -> bool {
    match encoding {
        TxEncoding::Protobuf => match encode_binary(ops, from_address) {
            Some(b) => r matches Ok(EncodedMessages::Binary(v)) && v@ == b,
            None => r == Err::<EncodedMessages, ContractError>(
                ContractError::UnsupportedOperation {  },
            ),
        },
        TxEncoding::Proto3Json => match r {
            Ok(EncodedMessages::Text(v)) => is_text_result(
                encode_text(ops, from_address),
                Ok(v),
            ),
            Ok(_) => false,
            Err(e) => is_text_result(encode_text(ops, from_address), Err(e)),
        },
    }
}

/// The operation is read back from its form in the encoding as it was.
/// Every operation with a text form is; of the operations with a binary form
/// all are but a message that is already encoded under the identifier of a
/// transfer or of a filetree message, which is read back as what the
/// identifier names.
pub open spec fn told_again(op: OperationView, encoding: TxEncoding) -> bool {
    match encoding {
        TxEncoding::Protobuf => binary_supported(op),
        TxEncoding::Proto3Json => text_supported(op),
    }
}

/// Every operation of the batch is read back as it was.
pub open spec fn all_told_again(ops: Seq<OperationView>, encoding: TxEncoding) -> bool {
    forall|i: int| 0 <= i < ops.len() ==> told_again(#[trigger] ops[i], encoding)
}

/// Encodes a batch of operations sent from `from_address`. The order of the
/// operations is kept, and none is left out or doubled. The call succeeds if
/// and only if every operation has a form in the encoding; otherwise it fails
/// with `UnsupportedOperation`. Reading the result gives the batch back,
/// wherever each operation is read back as it was.
pub fn encode(messages: &Vec<Operation>, encoding: &TxEncoding, from_address: &str) -> (r: Result<
    EncodedMessages,
    ContractError,
>)
    ensures
        is_encoded(operations_view(messages@), *encoding, from_address@, r),
        all_told_again(operations_view(messages@), *encoding) ==> (r matches Ok(data) ==> decoded(
            data,
        ) == Some(operations_view(messages@))),
{
    match encoding {
        TxEncoding::Protobuf => match encode_binary_messages(messages, from_address) {
            Ok(b) => Ok(EncodedMessages::Binary(b)),
            Err(e) => Err(e),
        },
        TxEncoding::Proto3Json => match encode_text_messages(messages, from_address) {
            Ok(d) => Ok(EncodedMessages::Text(d)),
            Err(e) => Err(e),
        },
    }
}

/// The batch that encoded messages stand for.
pub open spec fn decoded(data: EncodedMessages) -> Option<Seq<OperationView>> {
    match data {
        EncodedMessages::Binary(b) => decode_binary(b@),
        EncodedMessages::Text(d) => decode_text(docs_bytes(d@)),
    }
}

/// Reads a batch of operations from its encoding. What is no encoding of a
/// batch is refused with `SerializationFailure`.
pub fn decode(data: &EncodedMessages) -> (r: Result<Vec<Operation>, ContractError>)
    ensures
        match decoded(*data) {
            Some(ops) => r matches Ok(v) && operations_view(v@) == ops,
            None => r matches Err(ContractError::SerializationFailure(_)),
        },
{
    match data {
        EncodedMessages::Binary(b) => decode_binary_messages(b.as_slice()),
        EncodedMessages::Text(d) => decode_text_messages(d),
    }
}

impl IcaPacketData {
    /// A packet that asks for the encoded operations to be executed.
    pub fn new(data: EncodedMessages, memo: Option<String>) -> (p: Self)
        ensures
            p.packet_type == EXECUTE_TX,
            p.data == data,
            p.memo == memo,
    {
        IcaPacketData { packet_type: EXECUTE_TX, data, memo }
    }

    /// A packet of records, packed in order.
    pub fn from_proto_anys(messages: Vec<Any>, memo: Option<String>) -> (p: Self)
        ensures
            p.packet_type == EXECUTE_TX,
            p.data matches EncodedMessages::Binary(b) && b@ == pack(anys_view(messages@)),
            p.memo == memo,
    {
        let ghost recs = anys_view(messages@);
        let mut out: Vec<u8> = Vec::new();
        let mut i: usize = 0;
        proof {
            assert(pack(recs.take(0)) =~= Seq::<u8>::empty());
        }
        while i < messages.len()
            invariant
                i <= messages.len(),
                recs == anys_view(messages@),
                out@ == pack(recs.take(i as int)),
            decreases messages.len() - i,
        {
            let bytes = encode_any(&messages[i]);
            write_field(&mut out, 1, bytes.as_slice());
            proof {
                let items = recs.take(i as int).map_values(|a: AnyView| any_bytes(a));
                lemma_repeated_push(1, items, any_bytes(recs[i as int]));
                assert(recs.take(i + 1).map_values(|a: AnyView| any_bytes(a)) =~= items.push(
                    any_bytes(recs[i as int]),
                ));
            }
            i += 1;
        }
        proof {
            assert(recs.take(messages.len() as int) =~= recs);
        }
        IcaPacketData::new(EncodedMessages::Binary(out), memo)
    }

    /// A packet of documents, one for each operation.
    pub fn from_json_strings(messages: Vec<String>, memo: Option<String>) -> (p: Self)
        ensures
            p.packet_type == EXECUTE_TX,
            p.data == EncodedMessages::Text(messages),
            p.memo == memo,
    {
        IcaPacketData::new(EncodedMessages::Text(messages), memo)
    }

    /// The packet that carries a batch of operations from the account at
    /// `ica_address` in the given encoding.
    pub fn from_cosmos_msgs(
        messages: Vec<Operation>,
        encoding: &TxEncoding,
        memo: Option<String>,
        ica_address: &str,
    ) -> (r: Result<Self, ContractError>)
        ensures
            match r {
                Ok(p) => {
                    &&& p.packet_type == EXECUTE_TX
                    &&& p.memo == memo
                    &&& is_encoded(
                        operations_view(messages@),
                        *encoding,
                        ica_address@,
                        Ok(p.data),
                    )
                },
                Err(e) => is_encoded(operations_view(messages@), *encoding, ica_address@, Err(e)),
            },
    {
        match encode(&messages, encoding, ica_address) {
            Ok(data) => Ok(IcaPacketData::new(data, memo)),
            Err(e) => Err(e),
        }
    }

    /// The batch of operations that the packet carries.
    pub fn to_cosmos_msgs(&self) -> (r: Result<Vec<Operation>, ContractError>)
        ensures
            match decoded(self.data) {
                Some(ops) => r matches Ok(v) && operations_view(v@) == ops,
                None => r matches Err(ContractError::SerializationFailure(_)),
            },
    {
        decode(&self.data)
    }

    /// The message that asks the host to send the packet on a channel. The
    /// deadline is counted from the time of the block in which the packet is
    /// sent, not from when the packet was made.
    pub fn to_ibc_msg(self, env: &Env, channel_id: String, timeout_seconds: Option<u64>) -> (r:
        Result<CosmosMsg, StdError>)
        requires
            deadline(env.block_time_nanos, timeout_seconds) <= u64::MAX,
        ensures
            r matches Ok(CosmosMsg::SendPacket(p)) && p.channel_id == channel_id && p.data == self
                && p.timeout_timestamp_nanos == deadline(env.block_time_nanos, timeout_seconds),
    {
        let seconds = match timeout_seconds {
            Some(t) => t,
            None => DEFAULT_TIMEOUT_SECONDS,
        };
        let timeout_timestamp_nanos = env.block_time_nanos + NANOS_PER_SECOND * seconds;
        Ok(CosmosMsg::SendPacket(SendPacket { channel_id, data: self, timeout_timestamp_nanos }))
    }
}

} // verus!
