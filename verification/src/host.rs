//! Plain descriptions of what the host runtime hands to an entry point and
//! of what an entry point hands back: nothing here performs any effect.

use vstd::prelude::*;
use crate::ibc::types::packet::IcaPacketData;
use crate::ibc::types::stargate::ChannelOpenRequest;
use crate::types::msg::{ExecuteMsg, InstantiateMsg, MigrateMsg, OutpostFactoryExecuteMsg};

verus! {

/// The view of an optional text.
pub open spec fn opt_view(s: Option<String>) -> Option<Seq<char>> {
    match s {
        Some(s) => Some(s@),
        None => None,
    }
}

/// What the host's own validation says of an address.
#[derive(Clone, Debug, PartialEq, Eq)]
pub enum AddrCheck {
    /// The address is well formed.
    Valid,
    /// The address is refused, with the host's reason.
    Invalid(String),
}

/// An amount of one denomination.
#[derive(Clone, Debug, PartialEq, Eq)]
pub struct Coin {
    pub denom: String,
    pub amount: u128,
}

/// A coin as plain values.
pub struct CoinView {
    pub denom: Seq<char>,
    pub amount: u128,
}

impl View for Coin {
    type V = CoinView;

    open spec fn view(&self) -> CoinView {
        CoinView { denom: self.denom@, amount: self.amount }
    }
}

/// A list of coins as plain values.
pub open spec fn coins_view(coins: Seq<Coin>) -> Seq<CoinView> {
    coins.map_values(|c: Coin| c@)
}

impl Coin {
    /// This amount of this denomination.
    pub fn new(amount: u128, denom: String) -> (c: Self)
        ensures
            c.amount == amount,
            c.denom == denom,
    {
        Coin { denom, amount }
    }

    /// A copy with the same denomination and amount.
    pub fn duplicate(&self) -> (c: Self)
        ensures
            c == *self,
    {
        Coin { denom: self.denom.clone(), amount: self.amount }
    }
}

/// Copies a list of coins, one by one.
pub fn duplicate_coins(coins: &Vec<Coin>) -> (out: Vec<Coin>)
    ensures
        out@ == coins@,
{
    let mut out: Vec<Coin> = Vec::new();
    let mut i: usize = 0;
    while i < coins.len()
        invariant
            i <= coins.len(),
            out@ == coins@.take(i as int),
        decreases coins.len() - i,
    {
        out.push(coins[i].duplicate());
        proof {
            assert(coins@.take(i + 1) =~= coins@.take(i as int).push(coins@[i as int]));
        }
        i += 1;
    }
    proof {
        assert(coins@.take(coins.len() as int) =~= coins@);
    }
    out
}

/// What the host tells an entry point about the block and about the contract
/// that is running.
#[derive(Clone, Debug, PartialEq, Eq)]
pub struct Env {
    /// Time of the current block, in nanoseconds since the epoch.
    pub block_time_nanos: u64,
    /// Address of the contract that is being run.
    pub contract_address: String,
}

/// The one fact about a call that the host authenticates: who made it.
#[derive(Clone, Debug, PartialEq, Eq)]
pub struct MessageInfo {
    pub sender: String,
}

/// A key-value pair attached to a response or to an event.
#[derive(Clone, Debug, PartialEq, Eq)]
pub struct Attribute {
    pub key: String,
    pub value: String,
}

impl Attribute {
    /// The attribute holds this key and this value.
    pub open spec fn is(&self, key: Seq<char>, value: Seq<char>) -> bool {
        self.key@ == key && self.value@ == value
    }
}

/// A named event with its attributes.
#[derive(Clone, Debug, PartialEq, Eq)]
pub struct Event {
    pub ty: String,
    pub attributes: Vec<Attribute>,
}

impl Event {
    /// An event of the given type without attributes.
    pub fn new(ty: &str) -> (e: Self)
        ensures
            e.ty@ == ty@,
            e.attributes@.len() == 0,
    {
        Event { ty: String::from_str(ty), attributes: Vec::new() }
    }

    /// The same event with one more attribute at the end.
    pub fn add_attribute(self, key: &str, value: String) -> (e: Self)
        ensures
            e.ty == self.ty,
            e.attributes@.len() == self.attributes@.len() + 1,
            e.attributes@.take(self.attributes@.len() as int) == self.attributes@,
            e.attributes@.last().key@ == key@,
            e.attributes@.last().value == value,
    {
        let mut e = self;
        e.attributes.push(Attribute { key: String::from_str(key), value });
        proof {
            assert(e.attributes@.take(self.attributes@.len() as int) =~= self.attributes@);
        }
        e
    }

    /// The event has this type and exactly one attribute, with this key and
    /// this value.
    pub open spec fn is_single(&self, ty: Seq<char>, key: Seq<char>, value: Seq<char>) -> bool {
        &&& self.ty@ == ty
        &&& self.attributes@.len() == 1
        &&& self.attributes@[0].is(key, value)
    }
}

/// Errors of the host's own making, passed through unchanged.
#[derive(Clone, Debug, PartialEq, Eq)]
pub enum StdError {
    /// A record that was to be loaded does not exist.
    NotFound { kind: String },
    /// Any other failure, with its text.
    GenericErr { msg: String },
}

/// A transfer of native funds out of the contract's own balance.
#[derive(Clone, Debug, PartialEq, Eq)]
pub enum BankMsg {
    Send { to_address: String, amount: Vec<Coin> },
    Burn { amount: Vec<Coin> },
}

/// A transfer as plain values.
pub enum BankMsgView {
    Send { to_address: Seq<char>, amount: Seq<CoinView> },
    Burn { amount: Seq<CoinView> },
}

impl View for BankMsg {
    type V = BankMsgView;

    open spec fn view(&self) -> BankMsgView {
        match *self {
            BankMsg::Send { to_address, amount } => BankMsgView::Send {
                to_address: to_address@,
                amount: coins_view(amount@),
            },
            BankMsg::Burn { amount } => BankMsgView::Burn { amount: coins_view(amount@) },
        }
    }
}

/// The message carried by a call into another contract.
#[derive(Clone, Debug, PartialEq, Eq)]
pub enum Payload {
    /// Creates an outpost.
    Instantiate(InstantiateMsg),
    /// Calls an outpost.
    Execute(ExecuteMsg),
    /// Migrates an outpost.
    Migrate(MigrateMsg),
    /// Calls the factory back.
    Factory(OutpostFactoryExecuteMsg),
}

/// A call into the contract runtime.
#[allow(inconsistent_fields)]
#[derive(Clone, Debug, PartialEq, Eq)]
pub enum WasmMsg {
    Execute { contract_addr: String, msg: Payload, funds: Vec<Coin> },
    Instantiate {
        admin: Option<String>,
        code_id: u64,
        msg: Payload,
        funds: Vec<Coin>,
        label: String,
    },
    Migrate { contract_addr: String, new_code_id: u64, msg: Payload },
    UpdateAdmin { contract_addr: String, admin: String },
}

/// A packet to be sent on an open channel.
#[derive(Clone, Debug, PartialEq, Eq)]
pub struct SendPacket {
    pub channel_id: String,
    pub data: IcaPacketData,
    /// Absolute deadline, in nanoseconds since the epoch.
    pub timeout_timestamp_nanos: u64,
}

/// One effect that an entry point asks the host to carry out.
#[derive(Clone, Debug, PartialEq, Eq)]
pub enum CosmosMsg {
    Bank(BankMsg),
    Wasm(WasmMsg),
    ChannelOpenInit(ChannelOpenRequest),
    SendPacket(SendPacket),
}

/// What an entry point returns on success: the effects it asks for, in order,
/// and what it wants logged.
#[derive(Clone, Debug, PartialEq, Eq)]
pub struct Response {
    pub messages: Vec<CosmosMsg>,
    pub attributes: Vec<Attribute>,
    pub events: Vec<Event>,
}

impl Response {
    /// A response that asks for nothing and logs nothing.
    pub fn new() -> (r: Self)
        ensures
            r.is_empty(),
    {
        Response { messages: Vec::new(), attributes: Vec::new(), events: Vec::new() }
    }

    /// Nothing is asked for and nothing is logged.
    pub open spec fn is_empty(&self) -> bool {
        &&& self.messages@.len() == 0
        &&& self.attributes@.len() == 0
        &&& self.events@.len() == 0
    }

    /// The same response with one more message at the end.
    pub fn add_message(self, msg: CosmosMsg) -> (r: Self)
        ensures
            r.messages@ == self.messages@.push(msg),
            r.attributes == self.attributes,
            r.events == self.events,
    {
        let mut r = self;
        r.messages.push(msg);
        r
    }

    /// The same response with one more event at the end.
    pub fn add_event(self, event: Event) -> (r: Self)
        ensures
            r.messages == self.messages,
            r.attributes == self.attributes,
            r.events@ == self.events@.push(event),
    {
        let mut r = self;
        r.events.push(event);
        r
    }

    /// The same response with one more attribute at the end.
    pub fn add_attribute(self, key: &str, value: String) -> (r: Self)
        ensures
            r.messages == self.messages,
            r.events == self.events,
            r.attributes@.len() == self.attributes@.len() + 1,
            r.attributes@.take(self.attributes@.len() as int) == self.attributes@,
            r.attributes@.last().key@ == key@,
            r.attributes@.last().value == value,
    {
        let mut r = self;
        r.attributes.push(Attribute { key: String::from_str(key), value });
        proof {
            assert(r.attributes@.take(self.attributes@.len() as int) =~= self.attributes@);
        }
        r
    }
}

} // verus!
