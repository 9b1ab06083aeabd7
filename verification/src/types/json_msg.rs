//! The operations as text documents: one JSON object for each operation,
//! with the member names that the host side expects for its kind.

use vstd::prelude::*;
use vstd::utf8::*;
use crate::decimal::{
    decimal,
    lemma_decimal_is_text,
    lemma_decimal_parses,
    parse_u128,
    parse_u128_spec,
    write_decimal,
};
use crate::host::{coins_view, BankMsg, BankMsgView, Coin, CoinView};
use crate::json::{
    byte_views,
    json_string,
    lemma_take_literal,
    lemma_take_member,
    lemma_take_members,
    member,
    members,
    read_json_string,
    read_literal,
    read_members,
    take_literal,
    take_member,
    take_members,
    write_json_string,
    write_members,
    COLON,
    COMMA,
    LEFT_BRACE,
    LEFT_BRACKET,
    RIGHT_BRACE,
    RIGHT_BRACKET,
};
use crate::types::error::ContractError;
use crate::types::cosmos_msg::{
    lemma_type_urls_differ,
    Operation,
    OperationView,
    MSG_SEND_TYPE_URL,
};
use crate::types::filetree::{
    all_valid_utf8,
    texts_bytes,
    MsgPostFile,
    MsgPostFileView,
    MsgPostKey,
    MsgPostKeyView,
    MSG_POST_FILE_TYPE_URL,
    MSG_POST_KEY_TYPE_URL,
};
use crate::wire::{string_from_utf8, views};

verus! {

/// Name of the member that holds the identifier of the operation's type.
pub open spec fn type_member() -> Seq<u8> {
    encode_utf8("@type"@)
}

/// Names of the members of a transfer that are texts.
pub open spec fn send_names() -> Seq<Seq<u8>> {
    seq![encode_utf8("from_address"@), encode_utf8("to_address"@)]
}

/// Names of the members of the message that posts a key.
pub open spec fn post_key_names() -> Seq<Seq<u8>> {
    seq![encode_utf8("creator"@), encode_utf8("key"@)]
}

/// Names of the members of the message that posts a file.
pub open spec fn post_file_names() -> Seq<Seq<u8>> {
    seq![
        encode_utf8("creator"@),
        encode_utf8("account"@),
        encode_utf8("hash_parent"@),
        encode_utf8("hash_child"@),
        encode_utf8("contents"@),
        encode_utf8("viewers"@),
        encode_utf8("editors"@),
        encode_utf8("tracking_number"@),
    ]
}

/// What opens the list of coins of a transfer.
pub open spec fn amount_open() -> Seq<u8> {
    seq![COMMA] + json_string(encode_utf8("amount"@)) + seq![COLON, LEFT_BRACKET]
}

/// A coin as a document: the denomination, then the amount in decimal
/// digits, as a string.
#[verifier::opaque]
pub open spec fn coin_doc(c: CoinView) -> Seq<u8> {
    seq![LEFT_BRACE] + member(encode_utf8("denom"@), encode_utf8(c.denom)) + members(
        seq![encode_utf8("amount"@)],
        seq![decimal(c.amount as nat)],
    ) + seq![RIGHT_BRACE]
}

/// The coins of a list, with commas between them and the closing bracket
/// behind them.
pub open spec fn coin_list(coins: Seq<CoinView>) -> Seq<u8>
    decreases coins.len(),
{
    if coins.len() == 0 {
        seq![RIGHT_BRACKET]
    } else if coins.len() == 1 {
        coin_doc(coins[0]) + seq![RIGHT_BRACKET]
    } else {
        coin_doc(coins[0]) + seq![COMMA] + coin_list(coins.drop_first())
    }
}

/// A document of the given type whose members are texts, with what follows
/// the members before the closing brace.
#[verifier::opaque]
pub open spec fn doc(
    type_url: Seq<char>,
    names: Seq<Seq<u8>>,
    texts: Seq<Seq<char>>,
    extra: Seq<u8>,
) -> Seq<u8> {
    seq![LEFT_BRACE] + member(type_member(), encode_utf8(type_url)) + members(
        names,
        texts_bytes(texts),
    ) + extra + seq![RIGHT_BRACE]
}

/// The document that stands for an operation sent from `from_address`, if
/// the operation has a text form: a transfer and the filetree messages have
/// one; burning and a message that is already encoded have none.
pub open spec fn to_doc(op: OperationView, from_address: Seq<char>) -> Option<Seq<u8>> {
    match op {
        OperationView::Bank(BankMsgView::Send { to_address, amount }) => Some(
            doc(
                MSG_SEND_TYPE_URL@,
                send_names(),
                seq![from_address, to_address],
                amount_open() + coin_list(amount),
            ),
        ),
        OperationView::Bank(BankMsgView::Burn { .. }) => None,
        OperationView::Stargate { .. } => None,
        OperationView::PostKey(m) => Some(
            doc(MSG_POST_KEY_TYPE_URL@, post_key_names(), m.fields(), Seq::<u8>::empty()),
        ),
        OperationView::PostFile(m) => Some(
            doc(MSG_POST_FILE_TYPE_URL@, post_file_names(), m.fields(), Seq::<u8>::empty()),
        ),
    }
}

/// Takes a coin's document from the front of `b`: the coin, and what follows
/// the document.
#[verifier::opaque]
pub open spec fn take_coin_doc(b: Seq<u8>) -> Option<(CoinView, Seq<u8>)> {
    if b.len() == 0 || b[0] != LEFT_BRACE {
        None
    } else {
        match take_member(b.drop_first(), encode_utf8("denom"@)) {
            Some((d, r1)) => match take_members(r1, seq![encode_utf8("amount"@)]) {
                Some((a, r2)) => if r2.len() > 0 && r2[0] == RIGHT_BRACE && valid_utf8(d) {
                    match parse_u128_spec(a[0]) {
                        Some(n) => Some(
                            (CoinView { denom: decode_utf8(d), amount: n }, r2.drop_first()),
                        ),
                        None => None,
                    }
                } else {
                    None
                },
                None => None,
            },
            None => None,
        }
    }
}

/// Takes at most `fuel` coins' documents, with commas between them, and the
/// closing bracket from the front of `b`, where at least one coin stands.
pub open spec fn take_more_coins(b: Seq<u8>, fuel: nat) -> Option<(Seq<CoinView>, Seq<u8>)>
    decreases fuel,
{
    if fuel == 0 {
        None
    } else {
        match take_coin_doc(b) {
            Some((c, r)) => if r.len() > 0 && r[0] == RIGHT_BRACKET {
                Some((seq![c], r.drop_first()))
            } else if r.len() > 0 && r[0] == COMMA {
                match take_more_coins(r.drop_first(), (fuel - 1) as nat) {
                    Some((cs, rest)) => Some((seq![c] + cs, rest)),
                    None => None,
                }
            } else {
                None
            },
            None => None,
        }
    }
}

/// Takes a list of coins with its closing bracket from the front of `b`.
pub open spec fn take_coin_list(b: Seq<u8>) -> Option<(Seq<CoinView>, Seq<u8>)> {
    if b.len() > 0 && b[0] == RIGHT_BRACKET {
        Some((Seq::<CoinView>::empty(), b.drop_first()))
    } else {
        take_more_coins(b, b.len())
    }
}

/// The texts of a document's members, if `b` is these members and the
/// closing brace and nothing more.
#[verifier::opaque]
pub open spec fn parse_text_body(b: Seq<u8>, names: Seq<Seq<u8>>) -> Option<Seq<Seq<char>>> {
    match take_members(b, names) {
        Some((ts, rest)) => if rest == seq![RIGHT_BRACE] && all_valid_utf8(ts) {
            Some(ts.map_values(|t: Seq<u8>| decode_utf8(t)))
        } else {
            None
        },
        None => None,
    }
}

/// The transfer that the members of a document stand for.
#[verifier::opaque]
pub open spec fn parse_send_body(b: Seq<u8>) -> Option<OperationView> {
    match take_members(b, send_names()) {
        Some((ts, r1)) => match take_literal(r1, amount_open()) {
            Some(r2) => match take_coin_list(r2) {
                Some((amount, r3)) => if r3 == seq![RIGHT_BRACE] && all_valid_utf8(ts) {
                    Some(
                        OperationView::Bank(
                            BankMsgView::Send { to_address: decode_utf8(ts[1]), amount },
                        ),
                    )
                } else {
                    None
                },
                None => None,
            },
            None => None,
        },
        None => None,
    }
}

/// The operation that a document stands for.
pub open spec fn from_doc(b: Seq<u8>) -> Option<OperationView> {
    if b.len() == 0 || b[0] != LEFT_BRACE {
        None
    } else {
        match take_member(b.drop_first(), type_member()) {
            Some((u, r)) => if !valid_utf8(u) {
                None
            } else if decode_utf8(u) == MSG_SEND_TYPE_URL@ {
                parse_send_body(r)
            } else if decode_utf8(u) == MSG_POST_KEY_TYPE_URL@ {
                match parse_text_body(r, post_key_names()) {
                    Some(f) => Some(OperationView::PostKey(MsgPostKeyView::from_fields(f))),
                    None => None,
                }
            } else if decode_utf8(u) == MSG_POST_FILE_TYPE_URL@ {
                match parse_text_body(r, post_file_names()) {
                    Some(f) => Some(OperationView::PostFile(MsgPostFileView::from_fields(f))),
                    None => None,
                }
            } else {
                None
            },
            None => None,
        }
    }
}

/// The operation has a text form.
pub open spec fn text_supported(op: OperationView) -> bool {
    match op {
        OperationView::Bank(BankMsgView::Send { .. }) => true,
        OperationView::PostKey(_) => true,
        OperationView::PostFile(_) => true,
        _ => false,
    }
}

/// A coin is taken back from its document, whatever follows it.
pub proof fn lemma_take_coin_doc(c: CoinView, rest: Seq<u8>)
    ensures
        take_coin_doc(coin_doc(c) + rest) == Some((c, rest)),
        (coin_doc(c) + rest)[0] == LEFT_BRACE,
{
    reveal(coin_doc);
    reveal(take_coin_doc);
    let b = coin_doc(c) + rest;
    let names = seq![encode_utf8("amount"@)];
    let texts = seq![decimal(c.amount as nat)];
    let tail2 = seq![RIGHT_BRACE] + rest;
    let tail1 = members(names, texts) + tail2;
    lemma_take_member(encode_utf8("denom"@), encode_utf8(c.denom), tail1);
    lemma_take_members(names, texts, tail2);
    assert(b.drop_first() =~= member(encode_utf8("denom"@), encode_utf8(c.denom)) + tail1);
    assert(tail2[0] == RIGHT_BRACE);
    assert(tail2.drop_first() =~= rest);
    encode_utf8_valid_utf8(c.denom);
    encode_utf8_decode_utf8(c.denom);
    lemma_decimal_parses(c.amount as nat);
    assert(b[0] == LEFT_BRACE);
}

/// A coin's document is not empty.
pub proof fn lemma_coin_doc_len(c: CoinView)
    ensures
        coin_doc(c).len() >= 2,
{
    reveal(coin_doc);
}

/// A list of coins is taken back from its bytes, whatever follows them.
pub proof fn lemma_take_more_coins(coins: Seq<CoinView>, rest: Seq<u8>, fuel: nat)
    requires
        coins.len() >= 1,
        fuel >= coins.len(),
    ensures
        take_more_coins(coin_list(coins) + rest, fuel) == Some((coins, rest)),
        (coin_list(coins) + rest)[0] == LEFT_BRACE,
    decreases coins.len(),
{
    let b = coin_list(coins) + rest;
    lemma_coin_doc_len(coins[0]);
    if coins.len() == 1 {
        let tail = seq![RIGHT_BRACKET] + rest;
        lemma_take_coin_doc(coins[0], tail);
        assert(b =~= coin_doc(coins[0]) + tail);
        assert(tail[0] == RIGHT_BRACKET);
        assert(tail.drop_first() =~= rest);
        assert(seq![coins[0]] =~= coins);
    } else {
        let inner = coin_list(coins.drop_first()) + rest;
        let tail = seq![COMMA] + inner;
        lemma_take_coin_doc(coins[0], tail);
        lemma_take_more_coins(coins.drop_first(), rest, (fuel - 1) as nat);
        assert(b =~= coin_doc(coins[0]) + tail);
        assert(tail[0] == COMMA);
        assert(tail.drop_first() =~= inner);
        assert(seq![coins[0]] + coins.drop_first() =~= coins);
    }
}

/// A list of coins takes at least two bytes for each coin.
pub proof fn lemma_coin_list_len(coins: Seq<CoinView>)
    ensures
        coin_list(coins).len() >= 2 * coins.len(),
    decreases coins.len(),
{
    if coins.len() >= 1 {
        lemma_coin_doc_len(coins[0]);
    }
    if coins.len() > 1 {
        lemma_coin_list_len(coins.drop_first());
    }
}

/// A list of coins with its closing bracket is taken back from its bytes.
pub proof fn lemma_take_coin_list(coins: Seq<CoinView>, rest: Seq<u8>)
    ensures
        take_coin_list(coin_list(coins) + rest) == Some((coins, rest)),
{
    let b = coin_list(coins) + rest;
    if coins.len() == 0 {
        assert(b[0] == RIGHT_BRACKET);
        assert(b.drop_first() =~= rest);
    } else {
        lemma_coin_list_len(coins);
        lemma_take_more_coins(coins, rest, b.len());
    }
}

/// The members of a document whose members are texts are read back.
pub proof fn lemma_text_body_parses(names: Seq<Seq<u8>>, texts: Seq<Seq<char>>)
    requires
        names.len() == texts.len(),
    ensures
        parse_text_body(members(names, texts_bytes(texts)) + seq![RIGHT_BRACE], names) == Some(
            texts,
        ),
{
    reveal(parse_text_body);
    let items = texts_bytes(texts);
    lemma_take_members(names, items, seq![RIGHT_BRACE]);
    assert forall|i: int| 0 <= i < items.len() implies valid_utf8(#[trigger] items[i]) by {
        encode_utf8_valid_utf8(texts[i]);
    }
    assert forall|i: int| 0 <= i < texts.len() implies decode_utf8(items[i]) == texts[i] by {
        encode_utf8_decode_utf8(texts[i]);
    }
    assert(items.map_values(|t: Seq<u8>| decode_utf8(t)) =~= texts);
}

/// The head of a document is read back: the opening brace, and the
/// identifier of the type.
pub proof fn lemma_doc_head(
    type_url: Seq<char>,
    names: Seq<Seq<u8>>,
    texts: Seq<Seq<char>>,
    extra: Seq<u8>,
)
    ensures
        doc(type_url, names, texts, extra).len() > 0,
        doc(type_url, names, texts, extra)[0] == LEFT_BRACE,
        take_member(doc(type_url, names, texts, extra).drop_first(), type_member()) == Some(
            (
                encode_utf8(type_url),
                members(names, texts_bytes(texts)) + extra + seq![RIGHT_BRACE],
            ),
        ),
        valid_utf8(encode_utf8(type_url)),
        decode_utf8(encode_utf8(type_url)) == type_url,
{
    reveal(doc);
    let d = doc(type_url, names, texts, extra);
    let tail = members(names, texts_bytes(texts)) + extra + seq![RIGHT_BRACE];
    lemma_take_member(type_member(), encode_utf8(type_url), tail);
    assert(d.drop_first() =~= member(type_member(), encode_utf8(type_url)) + tail);
    encode_utf8_valid_utf8(type_url);
    encode_utf8_decode_utf8(type_url);
}

/// The members of a transfer's document are read back.
pub proof fn lemma_send_body_parses(
    from_address: Seq<char>,
    to_address: Seq<char>,
    amount: Seq<CoinView>,
)
    ensures
        parse_send_body(
            members(send_names(), texts_bytes(seq![from_address, to_address])) + (amount_open()
                + coin_list(amount)) + seq![RIGHT_BRACE],
        ) == Some(OperationView::Bank(BankMsgView::Send { to_address, amount })),
{
    reveal(parse_send_body);
    let texts = seq![from_address, to_address];
    let items = texts_bytes(texts);
    let close = seq![RIGHT_BRACE];
    let t3 = coin_list(amount) + close;
    let t2 = amount_open() + t3;
    let b = members(send_names(), items) + (amount_open() + coin_list(amount)) + close;
    assert(b =~= members(send_names(), items) + t2);
    lemma_take_members(send_names(), items, t2);
    lemma_take_literal(amount_open(), t3);
    lemma_take_coin_list(amount, close);
    assert forall|i: int| 0 <= i < items.len() implies valid_utf8(#[trigger] items[i]) by {
        encode_utf8_valid_utf8(texts[i]);
    }
    encode_utf8_decode_utf8(to_address);
    assert(items[1] == encode_utf8(to_address));
}

/// An operation that has a text form is told again from its document.
pub proof fn lemma_doc_round_trip(op: OperationView, from_address: Seq<char>)
    requires
        text_supported(op),
    ensures
        to_doc(op, from_address) matches Some(d) && from_doc(d) == Some(op),
{
    lemma_type_urls_differ();
    let none = Seq::<u8>::empty();
    match op {
        OperationView::Bank(BankMsgView::Send { to_address, amount }) => {
            lemma_doc_head(
                MSG_SEND_TYPE_URL@,
                send_names(),
                seq![from_address, to_address],
                amount_open() + coin_list(amount),
            );
            lemma_send_body_parses(from_address, to_address, amount);
        },
        OperationView::PostKey(m) => {
            lemma_doc_head(MSG_POST_KEY_TYPE_URL@, post_key_names(), m.fields(), none);
            lemma_text_body_parses(post_key_names(), m.fields());
            assert(members(post_key_names(), texts_bytes(m.fields())) + none + seq![RIGHT_BRACE]
                =~= members(post_key_names(), texts_bytes(m.fields())) + seq![RIGHT_BRACE]);
        },
        OperationView::PostFile(m) => {
            lemma_doc_head(MSG_POST_FILE_TYPE_URL@, post_file_names(), m.fields(), none);
            lemma_text_body_parses(post_file_names(), m.fields());
            assert(members(post_file_names(), texts_bytes(m.fields())) + none + seq![RIGHT_BRACE]
                =~= members(post_file_names(), texts_bytes(m.fields())) + seq![RIGHT_BRACE]);
        },
        _ => {},
    }
}

/// What follows a coin's document is shorter, by two bytes at least, than
/// what the document was taken from.
pub proof fn lemma_take_coin_doc_shrinks(b: Seq<u8>)
    ensures
        take_coin_doc(b) matches Some((c, rest)) ==> rest.len() + 2 <= b.len(),
{
    reveal(take_coin_doc);
    if b.len() > 0 && b[0] == LEFT_BRACE {
        crate::json::lemma_take_member_shrinks(b.drop_first(), encode_utf8("denom"@));
        match take_member(b.drop_first(), encode_utf8("denom"@)) {
            Some((d, r1)) => {
                crate::json::lemma_take_members_shrinks(r1, seq![encode_utf8("amount"@)]);
            },
            None => {},
        }
    }
}

/// With as much fuel as there are bytes, taking coins does not depend on
/// the fuel.
pub proof fn lemma_take_more_coins_fuel(b: Seq<u8>, fuel: nat)
    requires
        fuel >= b.len(),
    ensures
        take_more_coins(b, fuel) == take_more_coins(b, b.len()),
    decreases b.len(),
{
    lemma_take_coin_doc_shrinks(b);
    reveal(take_coin_doc);
    if b.len() > 0 {
        match take_coin_doc(b) {
            Some((c, r)) => {
                if r.len() > 0 && r[0] == COMMA {
                    lemma_take_more_coins_fuel(r.drop_first(), (fuel - 1) as nat);
                    lemma_take_more_coins_fuel(r.drop_first(), (b.len() - 1) as nat);
                }
            },
            None => {},
        }
    }
}

/// A coin's document is a text.
pub proof fn lemma_coin_doc_is_text(c: CoinView)
    ensures
        valid_utf8(coin_doc(c)),
{
    reveal(coin_doc);
    let names = seq![encode_utf8("amount"@)];
    let texts = seq![decimal(c.amount as nat)];
    encode_utf8_valid_utf8("denom"@);
    encode_utf8_valid_utf8("amount"@);
    encode_utf8_valid_utf8(c.denom);
    lemma_decimal_is_text(c.amount as nat);
    crate::json::lemma_member_is_text(encode_utf8("denom"@), encode_utf8(c.denom));
    crate::json::lemma_members_are_text(names, texts);
    crate::json::lemma_byte_is_text(LEFT_BRACE);
    crate::json::lemma_byte_is_text(RIGHT_BRACE);
    let m = member(encode_utf8("denom"@), encode_utf8(c.denom));
    valid_utf8_concat(seq![LEFT_BRACE], m);
    valid_utf8_concat(seq![LEFT_BRACE] + m, members(names, texts));
    valid_utf8_concat(seq![LEFT_BRACE] + m + members(names, texts), seq![RIGHT_BRACE]);
}

/// A list of coins with its closing bracket is a text.
pub proof fn lemma_coin_list_is_text(coins: Seq<CoinView>)
    ensures
        valid_utf8(coin_list(coins)),
    decreases coins.len(),
{
    crate::json::lemma_byte_is_text(RIGHT_BRACKET);
    crate::json::lemma_byte_is_text(COMMA);
    if coins.len() == 0 {
    } else if coins.len() == 1 {
        lemma_coin_doc_is_text(coins[0]);
        valid_utf8_concat(coin_doc(coins[0]), seq![RIGHT_BRACKET]);
    } else {
        lemma_coin_doc_is_text(coins[0]);
        lemma_coin_list_is_text(coins.drop_first());
        valid_utf8_concat(coin_doc(coins[0]), seq![COMMA]);
        valid_utf8_concat(coin_doc(coins[0]) + seq![COMMA], coin_list(coins.drop_first()));
    }
}

/// A document is a text, if the names of its members are and what follows
/// the members is.
pub proof fn lemma_doc_is_text(
    type_url: Seq<char>,
    names: Seq<Seq<u8>>,
    texts: Seq<Seq<char>>,
    extra: Seq<u8>,
)
    requires
        crate::json::all_texts(names),
        valid_utf8(extra),
    ensures
        valid_utf8(doc(type_url, names, texts, extra)),
{
    reveal(doc);
    let items = texts_bytes(texts);
    assert(crate::json::all_texts(items)) by {
        assert forall|i: int| 0 <= i < items.len() implies valid_utf8(#[trigger] items[i]) by {
            encode_utf8_valid_utf8(texts[i]);
        }
    }
    encode_utf8_valid_utf8("@type"@);
    encode_utf8_valid_utf8(type_url);
    let head = member(type_member(), encode_utf8(type_url));
    crate::json::lemma_member_is_text(type_member(), encode_utf8(type_url));
    crate::json::lemma_members_are_text(names, items);
    crate::json::lemma_byte_is_text(LEFT_BRACE);
    crate::json::lemma_byte_is_text(RIGHT_BRACE);
    valid_utf8_concat(seq![LEFT_BRACE], head);
    valid_utf8_concat(seq![LEFT_BRACE] + head, members(names, items));
    valid_utf8_concat(seq![LEFT_BRACE] + head + members(names, items), extra);
    valid_utf8_concat(seq![LEFT_BRACE] + head + members(names, items) + extra, seq![RIGHT_BRACE]);
}

/// The names of the members are texts.
pub proof fn lemma_names_are_texts()
    ensures
        crate::json::all_texts(send_names()),
        crate::json::all_texts(post_key_names()),
        crate::json::all_texts(post_file_names()),
        valid_utf8(amount_open()),
{
    encode_utf8_valid_utf8("from_address"@);
    encode_utf8_valid_utf8("to_address"@);
    encode_utf8_valid_utf8("creator"@);
    encode_utf8_valid_utf8("key"@);
    encode_utf8_valid_utf8("account"@);
    encode_utf8_valid_utf8("hash_parent"@);
    encode_utf8_valid_utf8("hash_child"@);
    encode_utf8_valid_utf8("contents"@);
    encode_utf8_valid_utf8("viewers"@);
    encode_utf8_valid_utf8("editors"@);
    encode_utf8_valid_utf8("tracking_number"@);
    encode_utf8_valid_utf8("amount"@);
    crate::json::lemma_json_string_is_text(encode_utf8("amount"@));
    crate::json::lemma_byte_is_text(COMMA);
    crate::json::lemma_ascii_is_text(seq![COLON, LEFT_BRACKET]);
    valid_utf8_concat(seq![COMMA], json_string(encode_utf8("amount"@)));
    valid_utf8_concat(
        seq![COMMA] + json_string(encode_utf8("amount"@)),
        seq![COLON, LEFT_BRACKET],
    );
}

/// The document of an operation is a text.
pub proof fn lemma_to_doc_is_text(op: OperationView, from_address: Seq<char>)
    ensures
        to_doc(op, from_address) matches Some(d) ==> valid_utf8(d),
{
    lemma_names_are_texts();
    let none = Seq::<u8>::empty();
    match op {
        OperationView::Bank(BankMsgView::Send { to_address, amount }) => {
            lemma_coin_list_is_text(amount);
            valid_utf8_concat(amount_open(), coin_list(amount));
            lemma_doc_is_text(
                MSG_SEND_TYPE_URL@,
                send_names(),
                seq![from_address, to_address],
                amount_open() + coin_list(amount),
            );
        },
        OperationView::PostKey(m) => {
            lemma_doc_is_text(MSG_POST_KEY_TYPE_URL@, post_key_names(), m.fields(), none);
        },
        OperationView::PostFile(m) => {
            lemma_doc_is_text(MSG_POST_FILE_TYPE_URL@, post_file_names(), m.fields(), none);
        },
        _ => {},
    }
}

/// Appends a coin's document.
pub fn write_coin_doc(out: &mut Vec<u8>, c: &Coin)
    ensures
        final(out)@ == old(out)@ + coin_doc(c@),
{
    let mut digits: Vec<u8> = Vec::new();
    write_decimal(&mut digits, c.amount);
    out.push(LEFT_BRACE);
    write_json_string(out, "denom".as_bytes());
    out.push(COLON);
    write_json_string(out, c.denom.as_str().as_bytes());
    let mut names: Vec<&[u8]> = Vec::new();
    names.push("amount".as_bytes());
    let mut texts: Vec<&[u8]> = Vec::new();
    texts.push(digits.as_slice());
    write_members(out, &names, &texts);
    out.push(RIGHT_BRACE);
    proof {
        reveal(coin_doc);
        assert(views(names@) =~= seq![encode_utf8("amount"@)]);
        assert(views(texts@) =~= seq![decimal(c@.amount as nat)]);
        assert(out@ =~= old(out)@ + coin_doc(c@));
    }
}

/// Appends a list of coins with its closing bracket.
pub fn write_coin_list(out: &mut Vec<u8>, coins: &Vec<Coin>)
    ensures
        final(out)@ == old(out)@ + coin_list(coins_view(coins@)),
{
    let ghost all = coins_view(coins@);
    let mut i: usize = 0;
    proof {
        assert(all.skip(0) =~= all);
    }
    while i < coins.len()
        invariant
            i <= coins.len(),
            all == coins_view(coins@),
            out@ + coin_list(all.skip(i as int)) == old(out)@ + coin_list(all),
        decreases coins.len() - i,
    {
        let ghost before = out@;
        write_coin_doc(out, &coins[i]);
        if i + 1 < coins.len() {
            out.push(COMMA);
        }
        proof {
            let here = all.skip(i as int);
            assert(here[0] == coins@[i as int]@);
            assert(here.drop_first() =~= all.skip(i + 1));
            if i + 1 < coins.len() {
                assert(before + coin_list(here) =~= out@ + coin_list(all.skip(i + 1)));
            } else {
                assert(coin_list(all.skip(i + 1)) =~= seq![RIGHT_BRACKET]);
                assert(before + coin_list(here) =~= out@ + coin_list(all.skip(i + 1)));
            }
        }
        i += 1;
    }
    proof {
        assert(coin_list(all.skip(coins.len() as int)) =~= seq![RIGHT_BRACKET]);
    }
    let ghost last = out@;
    out.push(RIGHT_BRACKET);
    proof {
        assert(out@ =~= last + seq![RIGHT_BRACKET]);
    }
}

/// Writes a document of the given type whose members are texts, with what
/// follows the members before the closing brace.
pub fn write_doc(type_url: &str, names: &Vec<&[u8]>, texts: &Vec<&str>, extra: &[u8]) -> (out: Vec<
    u8,
>)
    requires
        names@.len() == texts@.len(),
    ensures
        out@ == doc(type_url@, views(names@), crate::types::filetree::strs_view(texts@), extra@),
{
    let mut out: Vec<u8> = Vec::new();
    out.push(LEFT_BRACE);
    write_json_string(&mut out, "@type".as_bytes());
    out.push(COLON);
    write_json_string(&mut out, type_url.as_bytes());
    let mut items: Vec<&[u8]> = Vec::new();
    let mut i: usize = 0;
    let ghost all = texts_bytes(crate::types::filetree::strs_view(texts@));
    while i < texts.len()
        invariant
            i <= texts.len(),
            all == texts_bytes(crate::types::filetree::strs_view(texts@)),
            items@.len() == i,
            views(items@) == all.take(i as int),
        decreases texts.len() - i,
    {
        items.push(texts[i].as_bytes());
        proof {
            assert(views(items@) =~= all.take(i + 1));
        }
        i += 1;
    }
    proof {
        assert(all.take(texts.len() as int) =~= all);
    }
    write_members(&mut out, names, &items);
    crate::wire::append_bytes(&mut out, extra);
    out.push(RIGHT_BRACE);
    proof {
        reveal(doc);
        assert(out@ =~= doc(
            type_url@,
            views(names@),
            crate::types::filetree::strs_view(texts@),
            extra@,
        ));
    }
    out
}

/// The names of the members of a transfer that are texts.
pub fn send_member_names() -> (names: Vec<&'static [u8]>)
    ensures
        views(names@) == send_names(),
        names@.len() == 2,
{
    let mut names: Vec<&'static [u8]> = Vec::new();
    names.push("from_address".as_bytes());
    names.push("to_address".as_bytes());
    proof {
        assert(views(names@) =~= send_names());
    }
    names
}

/// The names of the members of the message that posts a key.
pub fn post_key_member_names() -> (names: Vec<&'static [u8]>)
    ensures
        views(names@) == post_key_names(),
        names@.len() == 2,
{
    let mut names: Vec<&'static [u8]> = Vec::new();
    names.push("creator".as_bytes());
    names.push("key".as_bytes());
    proof {
        assert(views(names@) =~= post_key_names());
    }
    names
}

/// The names of the members of the message that posts a file.
pub fn post_file_member_names() -> (names: Vec<&'static [u8]>)
    ensures
        views(names@) == post_file_names(),
        names@.len() == 8,
{
    let mut names: Vec<&'static [u8]> = Vec::new();
    names.push("creator".as_bytes());
    names.push("account".as_bytes());
    names.push("hash_parent".as_bytes());
    names.push("hash_child".as_bytes());
    names.push("contents".as_bytes());
    names.push("viewers".as_bytes());
    names.push("editors".as_bytes());
    names.push("tracking_number".as_bytes());
    proof {
        assert(views(names@) =~= post_file_names());
    }
    names
}

/// The bytes of the document that stands for an operation sent from
/// `from_address`, if the operation has a text form.
pub fn to_doc_bytes(msg: &Operation, from_address: &str) -> (r: Option<Vec<u8>>)
    ensures
        match to_doc(msg@, from_address@) {
            Some(d) => r matches Some(v) && v@ == d,
            None => r is None,
        },
{
    match msg {
        Operation::Bank(BankMsg::Send { to_address, amount }) => {
            let mut extra: Vec<u8> = Vec::new();
            extra.push(COMMA);
            write_json_string(&mut extra, "amount".as_bytes());
            extra.push(COLON);
            extra.push(LEFT_BRACKET);
            proof {
                assert(extra@ =~= amount_open());
            }
            write_coin_list(&mut extra, amount);
            let mut texts: Vec<&str> = Vec::new();
            texts.push(from_address);
            texts.push(to_address.as_str());
            proof {
                assert(crate::types::filetree::strs_view(texts@) =~= seq![
                    from_address@,
                    to_address@,
                ]);
            }
            let names = send_member_names();
            Some(write_doc(MSG_SEND_TYPE_URL, &names, &texts, extra.as_slice()))
        },
        Operation::Bank(BankMsg::Burn { .. }) => None,
        Operation::Stargate { .. } => None,
        Operation::PostKey(m) => {
            let mut texts: Vec<&str> = Vec::new();
            texts.push(m.creator.as_str());
            texts.push(m.key.as_str());
            proof {
                assert(crate::types::filetree::strs_view(texts@) =~= m@.fields());
            }
            let names = post_key_member_names();
            let extra: Vec<u8> = Vec::new();
            Some(write_doc(MSG_POST_KEY_TYPE_URL, &names, &texts, extra.as_slice()))
        },
        Operation::PostFile(m) => {
            let mut texts: Vec<&str> = Vec::new();
            texts.push(m.creator.as_str());
            texts.push(m.account.as_str());
            texts.push(m.hash_parent.as_str());
            texts.push(m.hash_child.as_str());
            texts.push(m.contents.as_str());
            texts.push(m.viewers.as_str());
            texts.push(m.editors.as_str());
            texts.push(m.tracking_number.as_str());
            proof {
                assert(crate::types::filetree::strs_view(texts@) =~= m@.fields());
            }
            let names = post_file_member_names();
            let extra: Vec<u8> = Vec::new();
            Some(write_doc(MSG_POST_FILE_TYPE_URL, &names, &texts, extra.as_slice()))
        },
    }
}

/// What `convert_to_proto3json` gives for an operation whose document, if it
/// has one, is `d`.
pub open spec fn is_json_result(d: Option<Seq<u8>>, r: Result<String, ContractError>) -> bool {
    match d {
        Some(d) => r matches Ok(s) && encode_utf8(s@) == d,
        None => r == Err::<String, ContractError>(ContractError::UnsupportedOperation {  }),
    }
}

/// The document that stands for an operation sent from `from_address`, as a
/// text. An operation without a text form is refused with
/// `UnsupportedOperation`; every other operation has its document.
pub fn to_proto3json(msg: &Operation, from_address: &str) -> (r: Result<String, ContractError>)
    ensures
        is_json_result(to_doc(msg@, from_address@), r),
{
    proof {
        lemma_to_doc_is_text(msg@, from_address@);
    }
    match to_doc_bytes(msg, from_address) {
        Some(bytes) => match string_from_utf8(bytes.as_slice()) {
            Some(s) => {
                proof {
                    decode_utf8_encode_utf8(bytes@);
                }
                Ok(s)
            },
            None => {
                proof {
                    assert(false);
                }
                Err(ContractError::UnsupportedOperation {  })
            },
        },
        None => Err(ContractError::UnsupportedOperation {  }),
    }
}

/// The document that stands for an operation sent from `from_address`, as a
/// text.
pub fn convert_to_proto3json(msg: Operation, from_address: String) -> (r: Result<
    String,
    ContractError,
>)
    ensures
        is_json_result(to_doc(msg@, from_address@), r),
{
    to_proto3json(&msg, from_address.as_str())
}

/// Takes a coin's document from the front of `b`.
pub fn read_coin_doc<'a>(b: &'a [u8]) -> (r: Option<(Coin, &'a [u8])>)
    ensures
        match take_coin_doc(b@) {
            Some((c, rest)) => r matches Some((x, q)) && x@ == c && q@ == rest,
            None => r is None,
        },
{
    proof {
        reveal(take_coin_doc);
    }
    if b.len() == 0 || b[0] != LEFT_BRACE {
        return None;
    }
    let body = &b[1..b.len()];
    proof {
        assert(body@ =~= b@.drop_first());
    }
    let mut head: Vec<u8> = Vec::new();
    write_json_string(&mut head, "denom".as_bytes());
    head.push(COLON);
    proof {
        assert(head@ =~= json_string(encode_utf8("denom"@)) + seq![COLON]);
    }
    let r0 = match read_literal(body, head.as_slice()) {
        Some(r) => r,
        None => {
            return None;
        },
    };
    let (d, r1) = match read_json_string(r0) {
        Some(x) => x,
        None => {
            return None;
        },
    };
    let mut names: Vec<&[u8]> = Vec::new();
    names.push("amount".as_bytes());
    proof {
        assert(views(names@) =~= seq![encode_utf8("amount"@)]);
        crate::json::lemma_take_members_shrinks(r1@, views(names@));
    }
    let (a, r2) = match read_members(r1, &names) {
        Some(x) => x,
        None => {
            return None;
        },
    };
    if r2.len() == 0 || r2[0] != RIGHT_BRACE {
        return None;
    }
    let denom = match string_from_utf8(d.as_slice()) {
        Some(s) => s,
        None => {
            return None;
        },
    };
    proof {
        assert(byte_views(a@)[0] == a@[0]@);
    }
    let amount = match parse_u128(a[0].as_slice()) {
        Some(n) => n,
        None => {
            return None;
        },
    };
    let rest = &r2[1..r2.len()];
    proof {
        assert(rest@ =~= r2@.drop_first());
    }
    Some((Coin { denom, amount }, rest))
}

/// Takes a list of coins with its closing bracket from the front of `b`.
pub fn read_coin_list<'a>(b: &'a [u8]) -> (r: Option<(Vec<Coin>, &'a [u8])>)
    ensures
        match take_coin_list(b@) {
            Some((cs, rest)) => r matches Some((v, q)) && coins_view(v@) == cs && q@ == rest,
            None => r is None,
        },
{
    let mut out: Vec<Coin> = Vec::new();
    if b.len() > 0 && b[0] == RIGHT_BRACKET {
        let rest = &b[1..b.len()];
        proof {
            assert(rest@ =~= b@.drop_first());
            assert(coins_view(out@) =~= Seq::<CoinView>::empty());
        }
        return Some((out, rest));
    }
    let mut cur: &'a [u8] = b;
    proof {
        assert(coins_view(out@) =~= Seq::<CoinView>::empty());
        match take_more_coins(cur@, cur@.len()) {
            Some((cs, rest)) => {
                assert(coins_view(out@) + cs =~= cs);
            },
            None => {},
        }
    }
    loop
        invariant
            match take_more_coins(cur@, cur@.len()) {
                Some((cs, rest)) => take_coin_list(b@) == Some((coins_view(out@) + cs, rest)),
                None => take_coin_list(b@) is None,
            },
        decreases cur@.len(),
    {
        proof {
            lemma_take_coin_doc_shrinks(cur@);
        }
        let (c, r) = match read_coin_doc(cur) {
            Some(x) => x,
            None => {
                return None;
            },
        };
        if r.len() > 0 && r[0] == RIGHT_BRACKET {
            let ghost before = coins_view(out@);
            out.push(c);
            let rest = &r[1..r.len()];
            proof {
                assert(rest@ =~= r@.drop_first());
                assert(coins_view(out@) =~= before + seq![c@]);
            }
            return Some((out, rest));
        } else if r.len() > 0 && r[0] == COMMA {
            let next = &r[1..r.len()];
            proof {
                assert(next@ =~= r@.drop_first());
                lemma_take_more_coins_fuel(next@, (cur@.len() - 1) as nat);
                let before = coins_view(out@);
                match take_more_coins(next@, next@.len()) {
                    Some((cs, rest)) => {
                        assert((before + seq![c@]) + cs =~= before + (seq![c@] + cs));
                    },
                    None => {},
                }
                assert(coins_view(out@.push(c)) =~= before + seq![c@]);
            }
            out.push(c);
            cur = next;
        } else {
            return None;
        }
    }
}

/// Turns each of the byte strings into a text, if all of them are texts.
pub fn texts_from_utf8(items: &Vec<Vec<u8>>) -> (r: Option<Vec<String>>)
    ensures
        match r {
            Some(v) => all_valid_utf8(byte_views(items@)) && crate::types::filetree::strings_view(
                v@,
            ) == byte_views(items@).map_values(|t: Seq<u8>| decode_utf8(t)) && v@.len()
                == items@.len(),
            None => !all_valid_utf8(byte_views(items@)),
        },
{
    let ghost ps = byte_views(items@);
    let mut out: Vec<String> = Vec::new();
    let mut i: usize = 0;
    while i < items.len()
        invariant
            i <= items.len(),
            ps == byte_views(items@),
            out@.len() == i,
            forall|j: int| 0 <= j < i ==> valid_utf8(#[trigger] ps[j]),
            forall|j: int| 0 <= j < i ==> (#[trigger] out@[j])@ == decode_utf8(ps[j]),
        decreases items.len() - i,
    {
        match string_from_utf8(items[i].as_slice()) {
            Some(s) => {
                out.push(s);
            },
            None => {
                proof {
                    assert(!valid_utf8(ps[i as int]));
                }
                return None;
            },
        }
        i += 1;
    }
    proof {
        assert(crate::types::filetree::strings_view(out@) =~= ps.map_values(
            |t: Seq<u8>| decode_utf8(t),
        ));
    }
    Some(out)
}

/// Reads the texts of a document's members, if `b` is these members and the
/// closing brace and nothing more.
pub fn read_text_body(b: &[u8], names: &Vec<&[u8]>) -> (r: Option<Vec<String>>)
    ensures
        match parse_text_body(b@, views(names@)) {
            Some(f) => r matches Some(v) && crate::types::filetree::strings_view(v@) == f && v@.len()
                == names@.len(),
            None => r is None,
        },
{
    proof {
        reveal(parse_text_body);
        crate::json::lemma_take_members_shrinks(b@, views(names@));
    }
    let (ts, rest) = match read_members(b, names) {
        Some(x) => x,
        None => {
            return None;
        },
    };
    if rest.len() != 1 || rest[0] != RIGHT_BRACE {
        proof {
            if rest@ == seq![RIGHT_BRACE] {
                assert(rest@.len() == 1);
                assert(rest@[0] == RIGHT_BRACE);
            }
        }
        return None;
    }
    proof {
        assert(rest@ =~= seq![RIGHT_BRACE]);
    }
    texts_from_utf8(&ts)
}

/// Reads the transfer that the members of a document stand for.
pub fn read_send_body(b: &[u8]) -> (r: Option<Operation>)
    ensures
        match parse_send_body(b@) {
            Some(op) => r matches Some(x) && x@ == op,
            None => r is None,
        },
{
    let names = send_member_names();
    proof {
        reveal(parse_send_body);
        crate::json::lemma_take_members_shrinks(b@, views(names@));
    }
    let (ts, r1) = match read_members(b, &names) {
        Some(x) => x,
        None => {
            return None;
        },
    };
    let mut open: Vec<u8> = Vec::new();
    open.push(COMMA);
    write_json_string(&mut open, "amount".as_bytes());
    open.push(COLON);
    open.push(LEFT_BRACKET);
    proof {
        assert(open@ =~= amount_open());
    }
    let r2 = match read_literal(r1, open.as_slice()) {
        Some(x) => x,
        None => {
            return None;
        },
    };
    let (amount, r3) = match read_coin_list(r2) {
        Some(x) => x,
        None => {
            return None;
        },
    };
    if r3.len() != 1 || r3[0] != RIGHT_BRACE {
        proof {
            if r3@ == seq![RIGHT_BRACE] {
                assert(r3@.len() == 1);
                assert(r3@[0] == RIGHT_BRACE);
            }
        }
        return None;
    }
    proof {
        assert(r3@ =~= seq![RIGHT_BRACE]);
    }
    let texts = match texts_from_utf8(&ts) {
        Some(t) => t,
        None => {
            return None;
        },
    };
    proof {
        assert(crate::types::filetree::strings_view(texts@)[1] == texts@[1]@);
    }
    Some(Operation::Bank(BankMsg::Send { to_address: texts[1].clone(), amount }))
}

/// The operation that a document stands for.
pub fn from_doc_bytes(b: &[u8]) -> (r: Option<Operation>)
    ensures
        match from_doc(b@) {
            Some(op) => r matches Some(x) && x@ == op,
            None => r is None,
        },
{
    if b.len() == 0 || b[0] != LEFT_BRACE {
        return None;
    }
    let body = &b[1..b.len()];
    proof {
        assert(body@ =~= b@.drop_first());
    }
    let mut head: Vec<u8> = Vec::new();
    write_json_string(&mut head, "@type".as_bytes());
    head.push(COLON);
    proof {
        assert(head@ =~= json_string(type_member()) + seq![COLON]);
    }
    let r0 = match read_literal(body, head.as_slice()) {
        Some(r) => r,
        None => {
            return None;
        },
    };
    let (u, r) = match read_json_string(r0) {
        Some(x) => x,
        None => {
            return None;
        },
    };
    let url = match string_from_utf8(u.as_slice()) {
        Some(s) => s,
        None => {
            return None;
        },
    };
    if url == String::from_str(MSG_SEND_TYPE_URL) {
        read_send_body(r)
    } else if url == String::from_str(MSG_POST_KEY_TYPE_URL) {
        let names = post_key_member_names();
        match read_text_body(r, &names) {
            Some(v) => {
                proof {
                    assert(crate::types::filetree::strings_view(v@)[0] == v@[0]@);
                    assert(crate::types::filetree::strings_view(v@)[1] == v@[1]@);
                }
                Some(Operation::PostKey(MsgPostKey { creator: v[0].clone(), key: v[1].clone() }))
            },
            None => None,
        }
    } else if url == String::from_str(MSG_POST_FILE_TYPE_URL) {
        let names = post_file_member_names();
        match read_text_body(r, &names) {
            Some(v) => {
                proof {
                    let f = crate::types::filetree::strings_view(v@);
                    assert(f[0] == v@[0]@);
                    assert(f[1] == v@[1]@);
                    assert(f[2] == v@[2]@);
                    assert(f[3] == v@[3]@);
                    assert(f[4] == v@[4]@);
                    assert(f[5] == v@[5]@);
                    assert(f[6] == v@[6]@);
                    assert(f[7] == v@[7]@);
                }
                Some(
                    Operation::PostFile(
                        MsgPostFile {
                            creator: v[0].clone(),
                            account: v[1].clone(),
                            hash_parent: v[2].clone(),
                            hash_child: v[3].clone(),
                            contents: v[4].clone(),
                            viewers: v[5].clone(),
                            editors: v[6].clone(),
                            tracking_number: v[7].clone(),
                        },
                    ),
                )
            },
            None => None,
        }
    } else {
        None
    }
}

/// The operation that a document stands for. A text that is no document of
/// an operation is refused with `SerializationFailure`.
pub fn convert_from_proto3json(text: &str) -> (r: Result<Operation, ContractError>)
    ensures
        match from_doc(encode_utf8(text@)) {
            Some(op) => r matches Ok(x) && x@ == op,
            None => r matches Err(ContractError::SerializationFailure(why)) && why@
                == "not the document of an operation"@,
        },
{
    match from_doc_bytes(text.as_bytes()) {
        Some(op) => Ok(op),
        None => Err(
            ContractError::SerializationFailure(
                String::from_str("not the document of an operation"),
            ),
        ),
    }
}

} // verus!
