//! The operations that an outpost can carry to the host side, and their form
//! as type-tagged binary records.

use vstd::prelude::*;
use vstd::utf8::*;
use crate::decimal::{decimal, lemma_decimal_parses, parse_u128, parse_u128_spec, write_decimal};
use crate::host::{coins_view, BankMsg, BankMsgView, Coin, CoinView};
use crate::types::error::ContractError;
use crate::types::filetree::{
    lemma_text_record_parses,
    parse_text_record,
    text_record,
    texts_fit,
    MsgPostFile,
    MsgPostFileView,
    MsgPostKey,
    MsgPostKeyView,
    MSG_POST_FILE_TYPE_URL,
    MSG_POST_KEY_TYPE_URL,
};
use crate::wire::{
    all_fit,
    lemma_take_record,
    lemma_take_record_len,
    lemma_take_repeated,
    length_fits,
    read_record,
    read_repeated,
    record,
    repeated,
    string_from_utf8,
    take_all_repeated,
    take_record,
    views,
    write_field,
    write_record,
};

verus! {

/// Identifier of the type of a transfer of funds.
pub const MSG_SEND_TYPE_URL: &'static str = "/cosmos.bank.v1beta1.MsgSend";

/// One unit of work for the host side to carry out.
#[derive(Clone, Debug, PartialEq, Eq)]
pub enum Operation {
    /// A movement of native funds out of the interchain account.
    Bank(BankMsg),
    /// A message that is already encoded, with the identifier of its type.
    Stargate { type_url: String, value: Vec<u8> },
    /// Posts a public key to the filetree module.
    PostKey(MsgPostKey),
    /// Posts a file record to the filetree module.
    PostFile(MsgPostFile),
}

/// An operation as plain values.
pub enum OperationView {
    Bank(BankMsgView),
    Stargate { type_url: Seq<char>, value: Seq<u8> },
    PostKey(MsgPostKeyView),
    PostFile(MsgPostFileView),
}

impl View for Operation {
    type V = OperationView;

    open spec fn view(&self) -> OperationView {
        match *self {
            Operation::Bank(m) => OperationView::Bank(m@),
            Operation::Stargate { type_url, value } => OperationView::Stargate {
                type_url: type_url@,
                value: value@,
            },
            Operation::PostKey(m) => OperationView::PostKey(m@),
            Operation::PostFile(m) => OperationView::PostFile(m@),
        }
    }
}

/// A list of operations as plain values.
pub open spec fn operations_view(ops: Seq<Operation>) -> Seq<OperationView> {
    ops.map_values(|op: Operation| op@)
}

/// A type-tagged binary record.
#[derive(Clone, Debug, PartialEq, Eq)]
pub struct Any {
    pub type_url: String,
    pub value: Vec<u8>,
}

/// A type-tagged binary record as plain values.
pub struct AnyView {
    pub type_url: Seq<char>,
    pub value: Seq<u8>,
}

impl View for Any {
    type V = AnyView;

    open spec fn view(&self) -> AnyView {
        AnyView { type_url: self.type_url@, value: self.value@ }
    }
}

/// A coin on the wire: the denomination, then the amount in decimal digits.
pub open spec fn coin_bytes(c: CoinView) -> Seq<u8> {
    record(seq![encode_utf8(c.denom), decimal(c.amount as nat)], 1)
}

/// Each coin of a list on the wire.
pub open spec fn coin_items(coins: Seq<CoinView>) -> Seq<Seq<u8>> {
    coins.map_values(|c: CoinView| coin_bytes(c))
}

/// A transfer on the wire: sender, receiver, then one field for each coin.
pub open spec fn msg_send_bytes(
    from_address: Seq<char>,
    to_address: Seq<char>,
    amount: Seq<CoinView>,
) -> Seq<u8> {
    record(seq![encode_utf8(from_address), encode_utf8(to_address)], 1) + repeated(
        3,
        coin_items(amount),
    )
}

/// The record that stands for an operation sent from `from_address`, if the
/// operation has a binary form: a transfer and the filetree messages are
/// written out under the identifier of their type, an encoded message goes as
/// it is, and burning has no form.
pub open spec fn to_any(op: OperationView, from_address: Seq<char>) -> Option<AnyView> {
    match op {
        OperationView::Bank(BankMsgView::Send { to_address, amount }) => Some(
            AnyView {
                type_url: MSG_SEND_TYPE_URL@,
                value: msg_send_bytes(from_address, to_address, amount),
            },
        ),
        OperationView::Bank(BankMsgView::Burn { .. }) => None,
        OperationView::Stargate { type_url, value } => Some(AnyView { type_url, value }),
        OperationView::PostKey(m) => Some(
            AnyView { type_url: MSG_POST_KEY_TYPE_URL@, value: text_record(m.fields()) },
        ),
        OperationView::PostFile(m) => Some(
            AnyView { type_url: MSG_POST_FILE_TYPE_URL@, value: text_record(m.fields()) },
        ),
    }
}

/// Reads a coin from the wire.
pub open spec fn parse_coin(b: Seq<u8>) -> Option<CoinView> {
    match take_record(b, 1, 2) {
        Some((ps, rest)) => if rest.len() == 0 && valid_utf8(ps[0]) {
            match parse_u128_spec(ps[1]) {
                Some(n) => Some(CoinView { denom: decode_utf8(ps[0]), amount: n }),
                None => None,
            }
        } else {
            None
        },
        None => None,
    }
}

/// Reads each coin of a list from the wire.
pub open spec fn parse_coins(items: Seq<Seq<u8>>) -> Option<Seq<CoinView>> {
    if forall|i: int| 0 <= i < items.len() ==> parse_coin(#[trigger] items[i]) is Some {
        Some(items.map_values(|b: Seq<u8>| parse_coin(b)->Some_0))
    } else {
        None
    }
}

/// A transfer as it is read from the wire.
pub struct MsgSendView {
    pub from_address: Seq<char>,
    pub to_address: Seq<char>,
    pub amount: Seq<CoinView>,
}

/// Reads a transfer from the wire.
pub open spec fn parse_msg_send(b: Seq<u8>) -> Option<MsgSendView> {
    match take_record(b, 1, 2) {
        Some((ps, r1)) => match take_all_repeated(r1, 3) {
            Some((items, r2)) => if r2.len() == 0 && valid_utf8(ps[0]) && valid_utf8(ps[1]) {
                match parse_coins(items) {
                    Some(amount) => Some(
                        MsgSendView {
                            from_address: decode_utf8(ps[0]),
                            to_address: decode_utf8(ps[1]),
                            amount,
                        },
                    ),
                    None => None,
                }
            } else {
                None
            },
            None => None,
        },
        None => None,
    }
}

/// The identifier names one of the types that are written out field by
/// field.
pub open spec fn is_reserved(type_url: Seq<char>) -> bool {
    type_url == MSG_SEND_TYPE_URL@ || type_url == MSG_POST_KEY_TYPE_URL@ || type_url
        == MSG_POST_FILE_TYPE_URL@
}

/// The operation that a record stands for: under the identifier of a
/// transfer or of a filetree message the value is read field by field, and
/// there is no operation if it cannot be; any other record is an encoded
/// message.
pub open spec fn from_any(a: AnyView) -> Option<OperationView> {
    if a.type_url == MSG_SEND_TYPE_URL@ {
        match parse_msg_send(a.value) {
            Some(m) => Some(
                OperationView::Bank(
                    BankMsgView::Send { to_address: m.to_address, amount: m.amount },
                ),
            ),
            None => None,
        }
    } else if a.type_url == MSG_POST_KEY_TYPE_URL@ {
        match parse_text_record(a.value, 2) {
            Some(f) => Some(OperationView::PostKey(MsgPostKeyView::from_fields(f))),
            None => None,
        }
    } else if a.type_url == MSG_POST_FILE_TYPE_URL@ {
        match parse_text_record(a.value, 8) {
            Some(f) => Some(OperationView::PostFile(MsgPostFileView::from_fields(f))),
            None => None,
        }
    } else {
        Some(OperationView::Stargate { type_url: a.type_url, value: a.value })
    }
}

/// Every length that is written for a coin fits into 64 bits.
pub open spec fn coin_fits(c: CoinView) -> bool {
    &&& encode_utf8(c.denom).len() <= u64::MAX
    &&& decimal(c.amount as nat).len() <= u64::MAX
    &&& coin_bytes(c).len() <= u64::MAX
}

/// Every length that is written for the operation fits into 64 bits. This
/// holds of every operation that a machine can hold.
pub open spec fn operation_fits(op: OperationView, from_address: Seq<char>) -> bool {
    match op {
        OperationView::Bank(BankMsgView::Send { to_address, amount }) => {
            &&& encode_utf8(from_address).len() <= u64::MAX
            &&& encode_utf8(to_address).len() <= u64::MAX
            &&& forall|i: int| 0 <= i < amount.len() ==> coin_fits(#[trigger] amount[i])
        },
        OperationView::Bank(BankMsgView::Burn { .. }) => true,
        OperationView::Stargate { .. } => true,
        OperationView::PostKey(m) => texts_fit(m.fields()),
        OperationView::PostFile(m) => texts_fit(m.fields()),
    }
}

/// The operation has a binary form from which it can be told again: it is
/// not burning, and it is not an encoded message under an identifier whose
/// messages are written out field by field.
pub open spec fn binary_supported(op: OperationView) -> bool {
    match op {
        OperationView::Bank(BankMsgView::Burn { .. }) => false,
        OperationView::Stargate { type_url, .. } => !is_reserved(type_url),
        _ => true,
    }
}

/// The three identifiers are different from each other.
pub proof fn lemma_type_urls_differ()
    ensures
        MSG_SEND_TYPE_URL@ != MSG_POST_KEY_TYPE_URL@,
        MSG_SEND_TYPE_URL@ != MSG_POST_FILE_TYPE_URL@,
        MSG_POST_KEY_TYPE_URL@ != MSG_POST_FILE_TYPE_URL@,
{
    reveal_strlit("/cosmos.bank.v1beta1.MsgSend");
    reveal_strlit("/canine_chain.filetree.MsgPostKey");
    reveal_strlit("/canine_chain.filetree.MsgPostFile");
    assert(MSG_SEND_TYPE_URL@.len() == 28);
    assert(MSG_POST_KEY_TYPE_URL@.len() == 33);
    assert(MSG_POST_FILE_TYPE_URL@.len() == 34);
}

/// A coin is read back from its bytes.
pub proof fn lemma_coin_parses(c: CoinView)
    requires
        coin_fits(c),
    ensures
        parse_coin(coin_bytes(c)) == Some(c),
{
    let fields = seq![encode_utf8(c.denom), decimal(c.amount as nat)];
    let none = Seq::<u8>::empty();
    lemma_decimal_parses(c.amount as nat);
    assert(all_fit(fields)) by {
        assert forall|i: int| 0 <= i < fields.len() implies (#[trigger] fields[i]).len()
            <= u64::MAX by {
            if i == 0 {
            } else {
                assert(fields[i] == decimal(c.amount as nat));
            }
        }
    }
    lemma_take_record(fields, 1, none);
    assert(coin_bytes(c) + none =~= coin_bytes(c));
    encode_utf8_valid_utf8(c.denom);
    encode_utf8_decode_utf8(c.denom);
}

/// A transfer is read back from its bytes.
pub proof fn lemma_msg_send_parses(
    from_address: Seq<char>,
    to_address: Seq<char>,
    amount: Seq<CoinView>,
)
    requires
        encode_utf8(from_address).len() <= u64::MAX,
        encode_utf8(to_address).len() <= u64::MAX,
        forall|i: int| 0 <= i < amount.len() ==> coin_fits(#[trigger] amount[i]),
    ensures
        parse_msg_send(msg_send_bytes(from_address, to_address, amount)) == Some(
            MsgSendView { from_address, to_address, amount },
        ),
{
    let head = seq![encode_utf8(from_address), encode_utf8(to_address)];
    let items = coin_items(amount);
    let tail = repeated(3, items);
    let none = Seq::<u8>::empty();
    assert(all_fit(head)) by {
        assert forall|i: int| 0 <= i < head.len() implies (#[trigger] head[i]).len()
            <= u64::MAX by {
            if i == 0 {
            } else {
                assert(head[i] == encode_utf8(to_address));
            }
        }
    }
    assert(crate::wire::free_of_keys(tail, 1, 2)) by {
        if items.len() > 0 {
            assert(tail[0] == crate::wire::key(3));
        }
    }
    lemma_take_record(head, 1, tail);
    assert(all_fit(items)) by {
        assert forall|i: int| 0 <= i < items.len() implies (#[trigger] items[i]).len()
            <= u64::MAX by {
            assert(coin_fits(amount[i]));
        }
    }
    lemma_take_repeated(3, items, none);
    assert(tail + none =~= tail);
    encode_utf8_valid_utf8(from_address);
    encode_utf8_valid_utf8(to_address);
    encode_utf8_decode_utf8(from_address);
    encode_utf8_decode_utf8(to_address);
    assert forall|i: int| 0 <= i < items.len() implies parse_coin(#[trigger] items[i]) == Some(
        amount[i],
    ) by {
        assert(coin_fits(amount[i]));
        lemma_coin_parses(amount[i]);
    }
    assert(items.map_values(|b: Seq<u8>| parse_coin(b)->Some_0) =~= amount);
}

/// An operation that has a binary form from which it can be told again is
/// told again from its record.
pub proof fn lemma_any_round_trip(op: OperationView, from_address: Seq<char>)
    requires
        binary_supported(op),
        operation_fits(op, from_address),
    ensures
        to_any(op, from_address) matches Some(a) && from_any(a) == Some(op),
{
    lemma_type_urls_differ();
    match op {
        OperationView::Bank(BankMsgView::Send { to_address, amount }) => {
            lemma_msg_send_parses(from_address, to_address, amount);
        },
        OperationView::Bank(BankMsgView::Burn { .. }) => {},
        OperationView::Stargate { .. } => {},
        OperationView::PostKey(m) => {
            lemma_text_record_parses(m.fields());
        },
        OperationView::PostFile(m) => {
            lemma_text_record_parses(m.fields());
        },
    }
}

/// Writes a coin.
pub fn encode_coin(c: &Coin) -> (out: Vec<u8>)
    ensures
        out@ == coin_bytes(c@),
        coin_fits(c@),
{
    let mut digits: Vec<u8> = Vec::new();
    write_decimal(&mut digits, c.amount);
    let denom = c.denom.as_str().as_bytes();
    length_fits(denom);
    length_fits(digits.as_slice());
    let mut fields: Vec<&[u8]> = Vec::new();
    fields.push(denom);
    fields.push(digits.as_slice());
    let mut out: Vec<u8> = Vec::new();
    proof {
        assert(views(fields@) =~= seq![encode_utf8(c@.denom), decimal(c@.amount as nat)]);
    }
    write_record(&mut out, &fields, 1);
    length_fits(out.as_slice());
    proof {
        assert(out@ =~= coin_bytes(c@));
    }
    out
}

/// Reads a coin.
pub fn decode_coin(b: &[u8]) -> (r: Option<Coin>)
    ensures
        match parse_coin(b@) {
            Some(c) => r matches Some(x) && x@ == c,
            None => r is None,
        },
{
    proof {
        lemma_take_record_len(b@, 1, 2);
    }
    let (fields, rest) = match read_record(b, 1, 2) {
        Some(x) => x,
        None => {
            return None;
        },
    };
    if rest.len() != 0 {
        return None;
    }
    proof {
        assert(views(fields@)[0] == fields@[0]@);
        assert(views(fields@)[1] == fields@[1]@);
    }
    let denom = match string_from_utf8(fields[0]) {
        Some(d) => d,
        None => {
            return None;
        },
    };
    match parse_u128(fields[1]) {
        Some(amount) => Some(Coin { denom, amount }),
        None => None,
    }
}

/// Writes a transfer.
pub fn encode_msg_send(from_address: &str, to_address: &str, amount: &Vec<Coin>) -> (out: Vec<u8>)
    ensures
        out@ == msg_send_bytes(from_address@, to_address@, coins_view(amount@)),
        operation_fits(
            OperationView::Bank(
                BankMsgView::Send { to_address: to_address@, amount: coins_view(amount@) },
            ),
            from_address@,
        ),
{
    let mut fields: Vec<&[u8]> = Vec::new();
    fields.push(from_address.as_bytes());
    fields.push(to_address.as_bytes());
    length_fits(from_address.as_bytes());
    length_fits(to_address.as_bytes());
    let mut out: Vec<u8> = Vec::new();
    proof {
        assert(views(fields@) =~= seq![encode_utf8(from_address@), encode_utf8(to_address@)]);
    }
    write_record(&mut out, &fields, 1);
    let ghost head = out@;
    let ghost items = coin_items(coins_view(amount@));
    let mut i: usize = 0;
    proof {
        assert(items.take(0) =~= Seq::<Seq<u8>>::empty());
        assert(out@ =~= head + repeated(3, items.take(0)));
    }
    while i < amount.len()
        invariant
            i <= amount.len(),
            items == coin_items(coins_view(amount@)),
            out@ == head + repeated(3, items.take(i as int)),
            forall|j: int| 0 <= j < i ==> coin_fits(#[trigger] coins_view(amount@)[j]),
        decreases amount.len() - i,
    {
        let coin = encode_coin(&amount[i]);
        write_field(&mut out, 3, coin.as_slice());
        proof {
            crate::wire::lemma_repeated_push(3, items.take(i as int), items[i as int]);
            assert(items.take(i + 1) =~= items.take(i as int).push(items[i as int]));
            assert(out@ =~= head + repeated(3, items.take(i + 1)));
        }
        i += 1;
    }
    proof {
        assert(items.take(amount.len() as int) =~= items);
    }
    out
}

/// Reads a transfer: who sends, and what is sent to whom.
pub fn decode_msg_send(b: &[u8]) -> (r: Option<(String, BankMsg)>)
    ensures
        match parse_msg_send(b@) {
            Some(m) => r matches Some((from, msg)) && from@ == m.from_address && msg@
                == (BankMsgView::Send { to_address: m.to_address, amount: m.amount }),
            None => r is None,
        },
{
    proof {
        lemma_take_record_len(b@, 1, 2);
    }
    let (head, r1) = match read_record(b, 1, 2) {
        Some(x) => x,
        None => {
            return None;
        },
    };
    let (items, r2) = match read_repeated(r1, 3) {
        Some(x) => x,
        None => {
            return None;
        },
    };
    if r2.len() != 0 {
        return None;
    }
    proof {
        assert(views(head@)[0] == head@[0]@);
        assert(views(head@)[1] == head@[1]@);
    }
    let from_address = match string_from_utf8(head[0]) {
        Some(s) => s,
        None => {
            return None;
        },
    };
    let to_address = match string_from_utf8(head[1]) {
        Some(s) => s,
        None => {
            return None;
        },
    };
    let ghost ps = views(items@);
    let mut amount: Vec<Coin> = Vec::new();
    let mut i: usize = 0;
    while i < items.len()
        invariant
            i <= items.len(),
            ps == views(items@),
            take_record(b@, 1, 2) == Some((views(head@), r1@)),
            take_all_repeated(r1@, 3) == Some((ps, r2@)),
            r2@.len() == 0,
            valid_utf8(views(head@)[0]),
            valid_utf8(views(head@)[1]),
            amount@.len() == i,
            forall|j: int| 0 <= j < i ==> parse_coin(#[trigger] ps[j]) is Some,
            forall|j: int| 0 <= j < i ==> (#[trigger] amount@[j])@ == parse_coin(ps[j])->Some_0,
        decreases items.len() - i,
    {
        match decode_coin(items[i]) {
            Some(c) => {
                amount.push(c);
            },
            None => {
                proof {
                    assert(parse_coin(ps[i as int]) is None);
                }
                return None;
            },
        }
        i += 1;
    }
    proof {
        assert(coins_view(amount@) =~= ps.map_values(|b: Seq<u8>| parse_coin(b)->Some_0));
    }
    Some((from_address, BankMsg::Send { to_address, amount }))
}

/// A copy of a string of bytes.
pub fn copy_bytes(src: &[u8]) -> (out: Vec<u8>)
    ensures
        out@ == src@,
{
    let mut out: Vec<u8> = Vec::new();
    crate::wire::append_bytes(&mut out, src);
    proof {
        assert(out@ =~= src@);
    }
    out
}

/// The record that stands for a transfer out of `from_address`. Burning has
/// no form and is refused.
pub fn bank_to_any(msg: &BankMsg, from_address: &str) -> (r: Result<Any, ContractError>)
    ensures
        match to_any(OperationView::Bank(msg@), from_address@) {
            Some(a) => r matches Ok(x) && x@ == a,
            None => r == Err::<Any, ContractError>(ContractError::UnsupportedOperation {  }),
        },
        operation_fits(OperationView::Bank(msg@), from_address@),
{
    match msg {
        BankMsg::Send { to_address, amount } => Ok(
            Any {
                type_url: String::from_str(MSG_SEND_TYPE_URL),
                value: encode_msg_send(from_address, to_address.as_str(), amount),
            },
        ),
        BankMsg::Burn { .. } => Err(ContractError::UnsupportedOperation {  }),
    }
}

/// The record that stands for a transfer out of `from_address`. Burning has
/// no form and is refused.
pub fn bank(msg: BankMsg, from_address: String) -> (r: Result<Any, ContractError>)
    ensures
        match to_any(OperationView::Bank(msg@), from_address@) {
            Some(a) => r matches Ok(x) && x@ == a,
            None => r == Err::<Any, ContractError>(ContractError::UnsupportedOperation {  }),
        },
{
    bank_to_any(&msg, from_address.as_str())
}

/// The record that stands for an operation sent from `from_address`.
/// `from_address` is not used for a message that is already encoded. An
/// operation without a binary form is refused with `UnsupportedOperation`.
pub fn to_proto_any(msg: &Operation, from_address: &str) -> (r: Result<Any, ContractError>)
    ensures
        match to_any(msg@, from_address@) {
            Some(a) => r matches Ok(x) && x@ == a,
            None => r == Err::<Any, ContractError>(ContractError::UnsupportedOperation {  }),
        },
        operation_fits(msg@, from_address@),
{
    match msg {
        Operation::Stargate { type_url, value } => Ok(
            Any { type_url: type_url.clone(), value: copy_bytes(value.as_slice()) },
        ),
        Operation::Bank(bank_msg) => bank_to_any(bank_msg, from_address),
        Operation::PostKey(m) => Ok(
            Any { type_url: String::from_str(MSG_POST_KEY_TYPE_URL), value: m.encode_to_vec() },
        ),
        Operation::PostFile(m) => Ok(
            Any { type_url: String::from_str(MSG_POST_FILE_TYPE_URL), value: m.encode_to_vec() },
        ),
    }
}

/// The record that stands for an operation sent from `from_address`.
/// `from_address` is not used for a message that is already encoded. An
/// operation without a binary form is refused with `UnsupportedOperation`.
pub fn convert_to_proto_any(msg: Operation, from_address: String) -> (r: Result<Any, ContractError>)
    ensures
        match to_any(msg@, from_address@) {
            Some(a) => r matches Ok(x) && x@ == a,
            None => r == Err::<Any, ContractError>(ContractError::UnsupportedOperation {  }),
        },
{
    to_proto_any(&msg, from_address.as_str())
}

/// The operation that a record stands for. A record under the identifier of
/// a transfer or of a filetree message whose value cannot be read field by
/// field is refused with `SerializationFailure`, which names the identifier.
pub fn convert_from_proto_any(any: Any) -> (r: Result<Operation, ContractError>)
    ensures
        match from_any(any@) {
            Some(op) => r matches Ok(x) && x@ == op,
            None => r == Err::<Operation, ContractError>(
                ContractError::SerializationFailure(any.type_url),
            ),
        },
{
    if any.type_url == String::from_str(MSG_SEND_TYPE_URL) {
        match decode_msg_send(any.value.as_slice()) {
            Some((_, msg)) => Ok(Operation::Bank(msg)),
            None => Err(ContractError::SerializationFailure(any.type_url)),
        }
    } else if any.type_url == String::from_str(MSG_POST_KEY_TYPE_URL) {
        match MsgPostKey::decode(any.value.as_slice()) {
            Some(m) => Ok(Operation::PostKey(m)),
            None => Err(ContractError::SerializationFailure(any.type_url)),
        }
    } else if any.type_url == String::from_str(MSG_POST_FILE_TYPE_URL) {
        match MsgPostFile::decode(any.value.as_slice()) {
            Some(m) => Ok(Operation::PostFile(m)),
            None => Err(ContractError::SerializationFailure(any.type_url)),
        }
    } else {
        Ok(Operation::Stargate { type_url: any.type_url, value: any.value })
    }
}

/// What is logged of an operation that is about to be sent.
pub open spec fn log_line(op: OperationView) -> Seq<char> {
    match op {
        OperationView::Stargate { type_url, value } => "Stargate type_url: "@ + type_url
            + ", value: Binary("@ + crate::helpers::filetree_helpers::hex_lower(value) + ")"@,
        _ => "Encountered a non-Stargate CosmosMsg variant."@,
    }
}

/// Describes an operation for the log: of a message that is already encoded
/// the identifier of its type and its bytes in hexadecimal digits; of any
/// other operation only that it is none.
pub fn handle_cosmos_msg(cosmos_msg: &Operation) -> (s: String)
    ensures
        s@ == log_line(cosmos_msg@),
{
    match cosmos_msg {
        Operation::Stargate { type_url, value } => {
            let hex = crate::helpers::filetree_helpers::hex_encode(value.as_slice());
            String::from_str("Stargate type_url: ").concat(type_url.as_str()).concat(
                ", value: Binary(",
            ).concat(hex.as_str()).concat(")")
        },
        _ => String::from_str("Encountered a non-Stargate CosmosMsg variant."),
    }
}

} // verus!
