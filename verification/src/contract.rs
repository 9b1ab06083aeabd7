//! The outpost's entry points and what they keep between calls.

use vstd::prelude::*;
use crate::host::{
    opt_view,
    AddrCheck,
    CosmosMsg,
    Env,
    Event,
    MessageInfo,
    Payload,
    Response,
    StdError,
    WasmMsg,
};
use crate::ibc::types::metadata::TxEncoding;
use crate::ibc::types::stargate::{is_open_request, new_ica_channel_open_init_cosmos_msg};
use crate::types::callback::Callback;
use crate::types::error::ContractError;
use crate::types::keys::{CONTRACT_NAME, CONTRACT_VERSION};
use crate::types::msg::options::ChannelOpenInitOptions;
use crate::ibc::types::packet::{
    deadline,
    encode_binary,
    encode_text,
    is_encoded,
    IcaPacketData,
    EXECUTE_TX,
};
use crate::types::cosmos_msg::{operations_view, Operation, OperationView};
use crate::types::msg::{ExecuteMsg, InstantiateMsg, MigrateMsg, OutpostFactoryExecuteMsg, QueryMsg};
use crate::version::{check_versions, decide_migration, is_decision, version_check};
use crate::types::state::{CallbackCounter, ChannelState, ChannelStatus, ContractState, IcaInfo};

verus! {

/// Name and version under which a contract has recorded itself.
#[derive(Clone, Debug, PartialEq, Eq)]
pub struct ContractVersion {
    pub contract: String,
    pub version: String,
}

/// Everything that the outpost keeps between calls. A record that has never
/// been written is absent.
#[derive(Clone, Debug, PartialEq, Eq)]
pub struct Store {
    /// Name and version recorded at instantiation and at each migration.
    pub contract_version: Option<ContractVersion>,
    /// The owner, who alone may open channels and send packets.
    pub owner: Option<String>,
    /// The outpost's own state.
    pub state: Option<ContractState>,
    /// Counts of acknowledgements.
    pub callback_counter: Option<CallbackCounter>,
    /// The options of the last channel-open request that carried any.
    pub channel_open_init_options: Option<ChannelOpenInitOptions>,
    /// Whether a channel-open handshake may begin.
    pub allow_channel_open_init: Option<bool>,
    /// The channel record.
    pub channel_state: Option<ChannelState>,
    /// A text stored after a migration.
    pub migration_data: Option<String>,
}

impl Store {
    /// The store of an outpost that has not been instantiated: every record
    /// is absent.
    pub fn new() -> (s: Self)
        ensures
            s.contract_version is None,
            s.owner is None,
            s.state is None,
            s.callback_counter is None,
            s.channel_open_init_options is None,
            s.allow_channel_open_init is None,
            s.channel_state is None,
            s.migration_data is None,
    {
        Store {
            contract_version: None,
            owner: None,
            state: None,
            callback_counter: None,
            channel_open_init_options: None,
            allow_channel_open_init: None,
            channel_state: None,
            migration_data: None,
        }
    }

    /// The channel's status; `Uninitialized` while there is no record.
    pub open spec fn channel_status(&self) -> ChannelStatus {
        match self.channel_state {
            Some(c) => c.channel_status,
            None => ChannelStatus::Uninitialized,
        }
    }

    /// The channel is open and the remote account is known, so that packets
    /// can be sent.
    pub open spec fn ready(&self) -> bool {
        &&& self.channel_status() == ChannelStatus::Open
        &&& self.state matches Some(s)
        &&& s.ica_info is Some
    }
}

/// The owner that an instantiation asks for: the one it names, or else the
/// sender.
pub open spec fn requested_owner(info: MessageInfo, msg: InstantiateMsg) -> String {
    match msg.owner {
        Some(o) => o,
        None => info.sender,
    }
}

/// The admin that an instantiation asks for: the one it names, or else the
/// sender.
pub open spec fn requested_admin(info: MessageInfo, msg: InstantiateMsg) -> String {
    match msg.admin {
        Some(a) => a,
        None => info.sender,
    }
}

/// The owner that an instantiation asks for, whose address the host is to
/// check before the instantiation.
pub fn owner_to_check(info: &MessageInfo, msg: &InstantiateMsg) -> (owner: String)
    ensures
        owner == requested_owner(*info, *msg),
{
    match &msg.owner {
        Some(o) => o.clone(),
        None => info.sender.clone(),
    }
}

/// The records of a store that was just instantiated by `msg`.
pub open spec fn is_instantiated(
    before: Store,
    after: Store,
    info: MessageInfo,
    msg: InstantiateMsg,
) -> bool {
    &&& after.contract_version matches Some(cv)
    &&& cv.contract@ == CONTRACT_NAME@
    &&& cv.version@ == CONTRACT_VERSION@
    &&& after.owner == Some(requested_owner(info, msg))
    &&& after.state == Some(
        ContractState { admin: requested_admin(info, msg), ica_info: None },
    )
    &&& after.callback_counter == Some(CallbackCounter { success: 0, error: 0, timeout: 0 })
    &&& after.allow_channel_open_init == Some(true)
    &&& after.migration_data == before.migration_data
    &&& match msg.channel_open_init_options {
        Some(options) => {
            &&& after.channel_open_init_options == Some(options)
            &&& is_submitted(after.channel_state, options)
        },
        None => {
            &&& after.channel_open_init_options == before.channel_open_init_options
            &&& after.channel_state == before.channel_state
        },
    }
}

/// The channel record says that a request with these options was submitted
/// and has not been answered.
pub open spec fn is_submitted(c: Option<ChannelState>, options: ChannelOpenInitOptions) -> bool {
    &&& c matches Some(c)
    &&& c.channel_id@.len() == 0
    &&& c.counterparty_port_id@ == options.spec_counterparty_port_id()
    &&& c.encoding == options.spec_tx_encoding()
    &&& c.ordering == options.spec_channel_ordering()
    &&& c.channel_status == ChannelStatus::Init
}

/// The message asks the host to submit the channel-open request that the
/// options stand for, from the contract at `contract`.
pub open spec fn is_open_init(m: CosmosMsg, contract: Seq<char>, options: ChannelOpenInitOptions) -> bool {
    m matches CosmosMsg::ChannelOpenInit(r) && is_open_request(
        r,
        contract,
        options.connection_id@,
        opt_view(options.counterparty_port_id),
        options.counterparty_connection_id@,
        options.tx_encoding,
        options.channel_ordering,
    )
}

/// The message calls the contract named in the callback, without funds, and
/// confirms in the name of the requester named there.
pub open spec fn is_callback(m: CosmosMsg, callback: Callback) -> bool {
    &&& m matches CosmosMsg::Wasm(WasmMsg::Execute { contract_addr, msg, funds })
    &&& contract_addr == callback.contract
    &&& msg == Payload::Factory(
        OutpostFactoryExecuteMsg::MapUserOutpost { outpost_owner: callback.outpost_owner },
    )
    &&& funds@.len() == 0
}

/// What an instantiation answers. With channel options: the channel-open
/// request, then the callback if there is one, and the outpost's address
/// logged. Without: nothing.
pub open spec fn is_instantiate_response(
    resp: Response,
    env: Env,
    info: MessageInfo,
    msg: InstantiateMsg,
) -> bool {
    match msg.channel_open_init_options {
        Some(options) => {
            &&& resp.messages@.len() == if msg.callback is Some {
                2int
            } else {
                1int
            }
            &&& is_open_init(resp.messages@[0], env.contract_address@, options)
            &&& (msg.callback matches Some(cb) ==> is_callback(resp.messages@[1], cb))
            &&& resp.events@.len() == 1
            &&& resp.events@[0].ty@ == "OUTPOST:instantiate"@
            &&& resp.events@[0].attributes@.len() == 2
            &&& resp.events@[0].attributes@[0].is("info.sender"@, info.sender@)
            &&& resp.events@[0].attributes@[1].is("outpost_address"@, env.contract_address@)
            &&& resp.attributes@.len() == 1
            &&& resp.attributes@[0].is("outpost_address"@, env.contract_address@)
        },
        None => resp.is_empty(),
    }
}

/// Instantiates the outpost.
///
/// The owner is the one that the message names, or else the sender; so is the
/// admin. `owner_check` is the host's verdict on the owner's address and
/// `admin_check` its verdict on the admin that the message names (it is not
/// looked at when the message names none). If the host refuses one of them the
/// call fails with `UpstreamValidationFailure` and the host's reason, the
/// owner's first, and the store stays as it was.
///
/// Otherwise every record is initialised. If the message carries channel
/// options they are kept, the channel record says that a request was
/// submitted, and the answer holds the request and, if the message carries a
/// callback, the confirmation for the factory.
pub fn instantiate(
    store: &mut Store,
    env: &Env,
    info: &MessageInfo,
    msg: InstantiateMsg,
    owner_check: AddrCheck,
    admin_check: AddrCheck,
) -> (r: Result<Response, ContractError>)
    ensures
        match (owner_check, admin_check) {
            (AddrCheck::Invalid(why), _) => {
                &&& *final(store) == *old(store)
                &&& r == Err::<Response, ContractError>(
                    ContractError::UpstreamValidationFailure(why),
                )
            },
            (AddrCheck::Valid, AddrCheck::Invalid(why)) if msg.admin is Some => {
                &&& *final(store) == *old(store)
                &&& r == Err::<Response, ContractError>(
                    ContractError::UpstreamValidationFailure(why),
                )
            },
            _ => {
                &&& is_instantiated(*old(store), *final(store), *info, msg)
                &&& r matches Ok(resp)
                &&& is_instantiate_response(resp, *env, *info, msg)
            },
        },
{
    match owner_check {
        AddrCheck::Invalid(why) => {
            return Err(ContractError::UpstreamValidationFailure(why));
        },
        AddrCheck::Valid => {},
    }
    let owner = owner_to_check(info, &msg);
    let admin = match &msg.admin {
        Some(admin) => {
            match admin_check {
                AddrCheck::Invalid(why) => {
                    return Err(ContractError::UpstreamValidationFailure(why));
                },
                AddrCheck::Valid => {},
            }
            admin.clone()
        },
        None => info.sender.clone(),
    };

    store.contract_version = Some(
        ContractVersion {
            contract: String::from_str(CONTRACT_NAME),
            version: String::from_str(CONTRACT_VERSION),
        },
    );
    store.owner = Some(owner);

    let event = Event::new("OUTPOST:instantiate").add_attribute(
        "info.sender",
        info.sender.clone(),
    ).add_attribute("outpost_address", env.contract_address.clone());

    store.state = Some(ContractState::new(admin));
    store.callback_counter = Some(CallbackCounter::new());
    store.allow_channel_open_init = Some(true);

    match msg.channel_open_init_options {
        Some(channel_open_init_options) => {
            store.channel_open_init_options = Some(channel_open_init_options.duplicate());
            store.channel_state = Some(submitted(&channel_open_init_options));
            let ica_channel_open_init_msg = new_ica_channel_open_init_cosmos_msg(
                env.contract_address.clone(),
                channel_open_init_options.connection_id,
                channel_open_init_options.counterparty_port_id,
                channel_open_init_options.counterparty_connection_id,
                channel_open_init_options.tx_encoding,
                channel_open_init_options.channel_ordering,
            );
            let mut resp = Response::new().add_message(ica_channel_open_init_msg);
            match msg.callback {
                Some(callback) => {
                    resp = resp.add_message(
                        CosmosMsg::Wasm(
                            WasmMsg::Execute {
                                contract_addr: callback.contract,
                                msg: Payload::Factory(
                                    OutpostFactoryExecuteMsg::MapUserOutpost {
                                        outpost_owner: callback.outpost_owner,
                                    },
                                ),
                                funds: Vec::new(),
                            },
                        ),
                    );
                },
                None => {},
            }
            Ok(
                resp.add_event(event).add_attribute(
                    "outpost_address",
                    env.contract_address.clone(),
                ),
            )
        },
        None => Ok(Response::new()),
    }
}

/// The channel record of a request that was submitted with these options.
pub fn submitted(options: &ChannelOpenInitOptions) -> (c: ChannelState)
    ensures
        is_submitted(Some(c), *options),
{
    ChannelState {
        channel_id: String::new(),
        counterparty_port_id: options.counterparty_port_id(),
        encoding: options.tx_encoding(),
        ordering: options.channel_ordering(),
        channel_status: ChannelStatus::Init,
    }
}

/// Succeeds if and only if the caller is the outpost's owner.
pub fn assert_owner(store: &Store, sender: &String) -> (r: Result<(), ContractError>)
    ensures
        r is Ok <==> (store.owner matches Some(o) && o@ == sender@),
        r is Err ==> r == Err::<(), ContractError>(ContractError::NotAuthorized {  }),
{
    match &store.owner {
        Some(o) => if *o == *sender {
            Ok(())
        } else {
            Err(ContractError::NotAuthorized {  })
        },
        None => Err(ContractError::NotAuthorized {  }),
    }
}

/// Succeeds if and only if the caller is the outpost's admin.
pub fn assert_admin(store: &Store, sender: &String) -> (r: Result<(), ContractError>)
    ensures
        r is Ok <==> (store.state matches Some(s) && s.admin@ == sender@),
        r is Err ==> r == Err::<(), ContractError>(ContractError::NotAuthorized {  }),
{
    match &store.state {
        Some(s) => if s.admin == *sender {
            Ok(())
        } else {
            Err(ContractError::NotAuthorized {  })
        },
        None => Err(ContractError::NotAuthorized {  }),
    }
}

/// The options that a channel-open request goes out with: those given now,
/// or else those kept from before.
pub open spec fn effective_options(store: Store, options: Option<ChannelOpenInitOptions>) -> Option<
    ChannelOpenInitOptions,
> {
    match options {
        Some(o) => Some(o),
        None => store.channel_open_init_options,
    }
}

/// Submits a channel-open request. Only the owner may call this.
///
/// Options that are given are kept for later requests; a request without
/// options goes out with those that were kept, exactly as they were given.
/// The channel record then says that a request was submitted. On failure the
/// store stays as it was.
pub fn create_channel(
    store: &mut Store,
    env: &Env,
    info: &MessageInfo,
    options: Option<ChannelOpenInitOptions>,
) -> (r: Result<Response, ContractError>)
    ensures
        is_create_channel_result(*old(store), *final(store), *env, *info, options, r),
{
    match assert_owner(store, &info.sender) {
        Err(e) => {
            return Err(e);
        },
        Ok(_) => {},
    }
    let options = match options {
        Some(new_options) => {
            store.channel_open_init_options = Some(new_options.duplicate());
            new_options
        },
        None => match &store.channel_open_init_options {
            Some(kept) => kept.duplicate(),
            None => {
                return Err(ContractError::NoChannelInitOptions {  });
            },
        },
    };
    store.allow_channel_open_init = Some(true);
    store.channel_state = Some(submitted(&options));

    let ica_channel_open_init_msg = new_ica_channel_open_init_cosmos_msg(
        env.contract_address.clone(),
        options.connection_id,
        options.counterparty_port_id,
        options.counterparty_connection_id,
        options.tx_encoding,
        options.channel_ordering,
    );
    Ok(Response::new().add_message(ica_channel_open_init_msg))
}

/// The channel record and the remote account say the same as this
/// completion of the handshake.
pub open spec fn is_established(
    store: Store,
    channel_id: Seq<char>,
    ica_address: Seq<char>,
    encoding: TxEncoding,
) -> bool {
    &&& store.channel_state matches Some(c)
    &&& c.channel_status == ChannelStatus::Open
    &&& c.channel_id@ == channel_id
    &&& c.encoding == encoding
    &&& store.state matches Some(s)
    &&& s.ica_info matches Some(i)
    &&& i.ica_address@ == ica_address
    &&& i.channel_id@ == channel_id
    &&& i.encoding == encoding
}

/// Takes in the counterparty's confirmation that the channel is open, with
/// the channel, the remote account and the encoding that were negotiated.
///
/// While the channel is not open the confirmation is stored: the channel is
/// then open and the remote account known. Once the channel is open, a
/// confirmation that says the same again changes nothing, and one that says
/// anything else is refused with `ChannelAlreadyEstablished`. Before the
/// outpost is instantiated there is no state to store into, and the call
/// fails.
pub fn channel_open_ack(
    store: &mut Store,
    channel_id: String,
    ica_address: String,
    encoding: TxEncoding,
) -> (r: Result<(), ContractError>)
    ensures
        old(store).state is None ==> {
            &&& *final(store) == *old(store)
            &&& r matches Err(ContractError::Std(StdError::NotFound { kind }))
            &&& kind@ == "ContractState"@
        },
        old(store).state is Some && old(store).channel_status() == ChannelStatus::Open ==> {
            &&& *final(store) == *old(store)
            &&& (is_established(*old(store), channel_id@, ica_address@, encoding) ==> r is Ok)
            &&& (!is_established(*old(store), channel_id@, ica_address@, encoding) ==> r == Err::<
                (),
                ContractError,
            >(ContractError::ChannelAlreadyEstablished {  }))
        },
        old(store).state is Some && old(store).channel_status() != ChannelStatus::Open ==> {
            &&& r is Ok
            &&& is_established(*final(store), channel_id@, ica_address@, encoding)
            &&& final(store).ready()
            &&& final(store).state->Some_0.admin == old(store).state->Some_0.admin
            &&& final(store).contract_version == old(store).contract_version
            &&& final(store).owner == old(store).owner
            &&& final(store).callback_counter == old(store).callback_counter
            &&& final(store).channel_open_init_options == old(store).channel_open_init_options
            &&& final(store).allow_channel_open_init == old(store).allow_channel_open_init
            &&& final(store).migration_data == old(store).migration_data
            &&& (old(store).channel_state matches Some(c) ==> {
                &&& final(store).channel_state->Some_0.counterparty_port_id
                    == c.counterparty_port_id
                &&& final(store).channel_state->Some_0.ordering == c.ordering
            })
        },
{
    let admin = match &store.state {
        None => {
            return Err(
                ContractError::Std(StdError::NotFound { kind: String::from_str("ContractState") }),
            );
        },
        Some(s) => s.admin.clone(),
    };
    let open = match &store.channel_state {
        Some(c) => c.is_open(),
        None => false,
    };
    if open {
        let same = match (&store.channel_state, &store.state) {
            (Some(c), Some(s)) => match &s.ica_info {
                Some(i) => c.channel_id == channel_id && c.encoding == encoding && i.ica_address
                    == ica_address && i.channel_id == channel_id && i.encoding == encoding,
                None => false,
            },
            _ => false,
        };
        if same {
            return Ok(());
        }
        return Err(ContractError::ChannelAlreadyEstablished {  });
    }
    let (counterparty_port_id, ordering) = match &store.channel_state {
        Some(c) => (c.counterparty_port_id.clone(), c.ordering),
        None => (crate::ibc::types::keys::host_port_id(), crate::ibc::types::metadata::IbcOrder::Ordered),
    };
    store.channel_state = Some(
        ChannelState {
            channel_id: channel_id.clone(),
            counterparty_port_id,
            encoding,
            ordering,
            channel_status: ChannelStatus::Open,
        },
    );
    store.state = Some(
        ContractState { admin, ica_info: Some(IcaInfo { ica_address, channel_id, encoding }) },
    );
    Ok(())
}

/// How a packet ended.
#[derive(Clone, Copy, Debug, PartialEq, Eq, Structural)]
pub enum PacketOutcome {
    Success,
    Error,
    Timeout,
}

/// The count that the outcome raises can be raised.
pub open spec fn can_count(counter: Option<CallbackCounter>, outcome: PacketOutcome) -> bool {
    counter matches Some(c) ==> match outcome {
        PacketOutcome::Success => c.success < u64::MAX,
        PacketOutcome::Error => c.error < u64::MAX,
        PacketOutcome::Timeout => c.timeout < u64::MAX,
    }
}

/// Counts the outcome of one packet. Nothing else changes; before the
/// outpost is instantiated there is no counter, and the call fails.
pub fn packet_ack(store: &mut Store, outcome: PacketOutcome) -> (r: Result<(), ContractError>)
    requires
        can_count(old(store).callback_counter, outcome),
    ensures
        old(store).callback_counter is None ==> {
            &&& *final(store) == *old(store)
            &&& r matches Err(ContractError::Std(StdError::NotFound { kind }))
            &&& kind@ == "CallbackCounter"@
        },
        old(store).callback_counter matches Some(c) ==> {
            &&& r is Ok
            &&& final(store).callback_counter matches Some(d)
            &&& d.success == bump(c.success, outcome == PacketOutcome::Success)
            &&& d.error == bump(c.error, outcome == PacketOutcome::Error)
            &&& d.timeout == bump(c.timeout, outcome == PacketOutcome::Timeout)
            &&& final(store).contract_version == old(store).contract_version
            &&& final(store).owner == old(store).owner
            &&& final(store).state == old(store).state
            &&& final(store).channel_open_init_options == old(store).channel_open_init_options
            &&& final(store).allow_channel_open_init == old(store).allow_channel_open_init
            &&& final(store).channel_state == old(store).channel_state
            &&& final(store).migration_data == old(store).migration_data
        },
{
    let mut counter = match store.callback_counter {
        Some(c) => c,
        None => {
            return Err(
                ContractError::Std(
                    StdError::NotFound { kind: String::from_str("CallbackCounter") },
                ),
            );
        },
    };
    match outcome {
        PacketOutcome::Success => counter.success(),
        PacketOutcome::Error => counter.error(),
        PacketOutcome::Timeout => counter.timeout(),
    }
    store.callback_counter = Some(counter);
    Ok(())
}

/// A count after one more outcome, if that outcome is the one it counts.
pub open spec fn bump(n: u64, hit: bool) -> int {
    if hit {
        n + 1
    } else {
        n as int
    }
}

/// The outpost's state.
pub fn state(store: &Store) -> (r: Result<ContractState, StdError>)
    ensures
        match store.state {
            Some(s) => r matches Ok(t) && t.admin == s.admin && t.ica_info == s.ica_info,
            None => r matches Err(StdError::NotFound { kind }) && kind@ == "ContractState"@,
        },
{
    match &store.state {
        Some(s) => Ok(
            ContractState {
                admin: s.admin.clone(),
                ica_info: match &s.ica_info {
                    Some(i) => Some(i.duplicate()),
                    None => None,
                },
            },
        ),
        None => Err(StdError::NotFound { kind: String::from_str("ContractState") }),
    }
}

/// The channel record.
pub fn channel(store: &Store) -> (r: Result<ChannelState, StdError>)
    ensures
        match store.channel_state {
            Some(c) => r == Ok::<ChannelState, StdError>(c),
            None => r matches Err(StdError::NotFound { kind }) && kind@ == "ChannelState"@,
        },
{
    match &store.channel_state {
        Some(c) => Ok(c.duplicate()),
        None => Err(StdError::NotFound { kind: String::from_str("ChannelState") }),
    }
}

/// The counts of acknowledgements.
pub fn callback_counter(store: &Store) -> (r: Result<CallbackCounter, StdError>)
    ensures
        match store.callback_counter {
            Some(c) => r == Ok::<CallbackCounter, StdError>(c),
            None => r matches Err(StdError::NotFound { kind }) && kind@ == "CallbackCounter"@,
        },
{
    match store.callback_counter {
        Some(c) => Ok(c),
        None => Err(StdError::NotFound { kind: String::from_str("CallbackCounter") }),
    }
}

/// The outpost's owner.
pub fn get_owner(store: &Store) -> (r: Result<String, StdError>)
    ensures
        match store.owner {
            Some(o) => r == Ok::<String, StdError>(o),
            None => r matches Err(StdError::GenericErr { msg }) && msg@ == "No owner found"@,
        },
{
    match &store.owner {
        Some(owner) => Ok(owner.clone()),
        None => Err(StdError::GenericErr { msg: String::from_str("No owner found") }),
    }
}

/// A channel-open request never opens the channel: after the request the
/// channel is open only if it was open before and the request was refused.
pub proof fn lemma_request_does_not_open(
    before: Store,
    after: Store,
    env: Env,
    info: MessageInfo,
    options: Option<ChannelOpenInitOptions>,
    r: Result<Response, ContractError>,
)
    requires
        is_create_channel_result(before, after, env, info, options, r),
    ensures
        after.channel_status() == ChannelStatus::Open ==> r is Err && after == before,
        r is Ok ==> after.channel_status() == ChannelStatus::Init,
{
}

/// Nor does an instantiation: after it the channel is open only if it was
/// open before and the instantiation carried no channel options.
pub proof fn lemma_instantiation_does_not_open(
    before: Store,
    after: Store,
    info: MessageInfo,
    msg: InstantiateMsg,
)
    requires
        is_instantiated(before, after, info, msg),
    ensures
        after.channel_status() == ChannelStatus::Open ==> before.channel_status()
            == ChannelStatus::Open && msg.channel_open_init_options is None,
        !after.ready(),
{
}

/// Options persist: after a channel-open request with the options `x` has
/// gone out, a later request without options, by the same owner, goes out
/// with exactly `x`, and `x` stays kept.
pub proof fn lemma_options_persist(
    before: Store,
    after: Store,
    later: Store,
    env: Env,
    later_env: Env,
    info: MessageInfo,
    x: ChannelOpenInitOptions,
    first: Result<Response, ContractError>,
    second: Result<Response, ContractError>,
)
    requires
        is_create_channel_result(before, after, env, info, Some(x), first),
        first is Ok,
        is_create_channel_result(after, later, later_env, info, None, second),
    ensures
        second matches Ok(resp) && resp.messages@.len() == 1 && is_open_init(
            resp.messages@[0],
            later_env.contract_address@,
            x,
        ),
        later.channel_open_init_options == Some(x),
{
}

/// How an attempt to send a batch ends.
#[derive(Clone, Copy, Debug, PartialEq, Eq, Structural)]
pub enum SendOutcome {
    /// The channel is not open, or the remote account is not known.
    ChannelNotReady,
    /// The channel is open and the caller is not the owner.
    NotAuthorized,
    /// One of the operations has no form in the channel's encoding.
    UnsupportedOperation,
    /// The packet goes out.
    Sent,
}

/// How sending the batch `ops` ends when `sender` asks for it. Whether the
/// channel is open is looked at first, then who asks, then the batch.
pub open spec fn send_outcome(store: Store, sender: Seq<char>, ops: Seq<OperationView>) -> SendOutcome {
    if !store.ready() {
        SendOutcome::ChannelNotReady
    } else if !(store.owner matches Some(o) && o@ == sender) {
        SendOutcome::NotAuthorized
    } else {
        let info = store.state->Some_0.ica_info->Some_0;
        match info.encoding {
            TxEncoding::Protobuf => if encode_binary(ops, info.ica_address@) is Some {
                SendOutcome::Sent
            } else {
                SendOutcome::UnsupportedOperation
            },
            TxEncoding::Proto3Json => if encode_text(ops, info.ica_address@) is Some {
                SendOutcome::Sent
            } else {
                SendOutcome::UnsupportedOperation
            },
        }
    }
}

/// The response asks for one packet to be sent: on the open channel, with
/// the batch encoded as the channel wants it and sent from the remote
/// account, with the memo, and with its deadline counted from the block's
/// time.
pub open spec fn is_send_response(
    resp: Response,
    store: Store,
    env: Env,
    ops: Seq<OperationView>,
    packet_memo: Option<String>,
    timeout_seconds: Option<u64>,
) -> bool {
    let info = store.state->Some_0.ica_info->Some_0;
    &&& resp.messages@.len() == 1
    &&& resp.events@.len() == 0
    &&& resp.attributes@.len() == 0
    &&& resp.messages@[0] matches CosmosMsg::SendPacket(p)
    &&& p.channel_id == info.channel_id
    &&& p.timeout_timestamp_nanos == deadline(env.block_time_nanos, timeout_seconds)
    &&& p.data.packet_type == EXECUTE_TX
    &&& p.data.memo == packet_memo
    &&& is_encoded(ops, info.encoding, info.ica_address@, Ok(p.data.data))
}

/// Sends a batch of operations to the host side in one packet.
///
/// While the channel is not open the call fails with `ChannelNotReady`,
/// whoever calls. On an open channel only the owner may send. The store is
/// not changed.
pub fn send_cosmos_msgs(
    store: &Store,
    env: &Env,
    info: &MessageInfo,
    messages: Vec<Operation>,
    packet_memo: Option<String>,
    timeout_seconds: Option<u64>,
) -> (r: Result<Response, ContractError>)
    requires
        deadline(env.block_time_nanos, timeout_seconds) <= u64::MAX,
    ensures
        match send_outcome(*store, info.sender@, operations_view(messages@)) {
            SendOutcome::ChannelNotReady => r == Err::<Response, ContractError>(
                ContractError::ChannelNotReady {  },
            ),
            SendOutcome::NotAuthorized => r == Err::<Response, ContractError>(
                ContractError::NotAuthorized {  },
            ),
            SendOutcome::UnsupportedOperation => r == Err::<Response, ContractError>(
                ContractError::UnsupportedOperation {  },
            ),
            SendOutcome::Sent => r matches Ok(resp) && is_send_response(
                resp,
                *store,
                *env,
                operations_view(messages@),
                packet_memo,
                timeout_seconds,
            ),
        },
{
    let open = match &store.channel_state {
        Some(c) => c.is_open(),
        None => false,
    };
    if !open {
        return Err(ContractError::ChannelNotReady {  });
    }
    let ica_info = match &store.state {
        Some(contract_state) => match contract_state.get_ica_info() {
            Ok(i) => i,
            Err(e) => {
                return Err(e);
            },
        },
        None => {
            return Err(ContractError::ChannelNotReady {  });
        },
    };
    match assert_owner(store, &info.sender) {
        Err(e) => {
            return Err(e);
        },
        Ok(_) => {},
    }
    let ica_packet = match IcaPacketData::from_cosmos_msgs(
        messages,
        &ica_info.encoding,
        packet_memo,
        ica_info.ica_address.as_str(),
    ) {
        Ok(p) => p,
        Err(e) => {
            return Err(e);
        },
    };
    let send_packet_msg = match ica_packet.to_ibc_msg(env, ica_info.channel_id, timeout_seconds) {
        Ok(m) => m,
        Err(e) => {
            proof {
                assert(false);
            }
            return Err(ContractError::Std(e));
        },
    };
    Ok(Response::new().add_message(send_packet_msg))
}

/// While the channel is not open, sending fails with `ChannelNotReady`,
/// whoever asks and whatever is to be sent.
pub proof fn lemma_send_needs_open_channel(store: Store, sender: Seq<char>, ops: Seq<OperationView>)
    requires
        store.channel_status() != ChannelStatus::Open,
    ensures
        send_outcome(store, sender, ops) == SendOutcome::ChannelNotReady,
{
}

/// Once the completion of the handshake has been taken in, a call that
/// failed only because the channel was not open succeeds: if the owner sends
/// a batch that has a form in the negotiated encoding, the packet goes out.
pub proof fn lemma_send_after_handshake(
    before: Store,
    after: Store,
    channel_id: Seq<char>,
    ica_address: Seq<char>,
    encoding: TxEncoding,
    sender: Seq<char>,
    ops: Seq<OperationView>,
)
    requires
        before.channel_status() != ChannelStatus::Open,
        is_established(after, channel_id, ica_address, encoding),
        after.owner == before.owner,
        before.owner matches Some(o) && o@ == sender,
        match encoding {
            TxEncoding::Protobuf => encode_binary(ops, ica_address) is Some,
            TxEncoding::Proto3Json => encode_text(ops, ica_address) is Some,
        },
    ensures
        send_outcome(before, sender, ops) == SendOutcome::ChannelNotReady,
        send_outcome(after, sender, ops) == SendOutcome::Sent,
{
}

/// What `set_data_after_migration` promises.
pub open spec fn is_set_data_result(
    before: Store,
    after: Store,
    info: MessageInfo,
    data: String,
    r: Result<Response, ContractError>,
) -> bool {
    if before.owner matches Some(o) && o@ == info.sender@ {
        &&& r matches Ok(resp) && resp.is_empty()
        &&& after.migration_data == Some(data)
        &&& after.contract_version == before.contract_version
        &&& after.owner == before.owner
        &&& after.state == before.state
        &&& after.callback_counter == before.callback_counter
        &&& after.channel_open_init_options == before.channel_open_init_options
        &&& after.allow_channel_open_init == before.allow_channel_open_init
        &&& after.channel_state == before.channel_state
    } else {
        &&& after == before
        &&& r == Err::<Response, ContractError>(ContractError::NotAuthorized {  })
    }
}

/// Stores a text by which a migration can be told to have succeeded. Only
/// the owner may do so; for anyone else the call fails with `NotAuthorized`
/// and changes nothing.
pub fn set_data_after_migration(store: &mut Store, info: &MessageInfo, data: String) -> (r: Result<
    Response,
    ContractError,
>)
    ensures
        is_set_data_result(*old(store), *final(store), *info, data, r),
{
    match assert_owner(store, &info.sender) {
        Err(e) => {
            return Err(e);
        },
        Ok(_) => {},
    }
    store.migration_data = Some(data);
    Ok(Response::new())
}

/// Carries out one call of the outpost: each kind of message goes to the
/// function that handles it, and the result is that function's.
pub fn execute(store: &mut Store, env: &Env, info: &MessageInfo, msg: ExecuteMsg) -> (r: Result<
    Response,
    ContractError,
>)
    requires
        msg matches ExecuteMsg::SendCosmosMsgs { timeout_seconds, .. } ==> deadline(
            env.block_time_nanos,
            timeout_seconds,
        ) <= u64::MAX,
    ensures
        match msg {
            ExecuteMsg::CreateChannel { channel_open_init_options } => is_create_channel_result(
                *old(store),
                *final(store),
                *env,
                *info,
                channel_open_init_options,
                r,
            ),
            ExecuteMsg::SendCosmosMsgs { messages, packet_memo, timeout_seconds } => {
                &&& *final(store) == *old(store)
                &&& is_send_result(
                    *old(store),
                    *env,
                    *info,
                    operations_view(messages@),
                    packet_memo,
                    timeout_seconds,
                    r,
                )
            },
            ExecuteMsg::SetDataAfterMigration { data } => is_set_data_result(
                *old(store),
                *final(store),
                *info,
                data,
                r,
            ),
        },
{
    match msg {
        ExecuteMsg::CreateChannel { channel_open_init_options } => create_channel(
            store,
            env,
            info,
            channel_open_init_options,
        ),
        ExecuteMsg::SendCosmosMsgs { messages, packet_memo, timeout_seconds } => send_cosmos_msgs(
            store,
            env,
            info,
            messages,
            packet_memo,
            timeout_seconds,
        ),
        ExecuteMsg::SetDataAfterMigration { data } => set_data_after_migration(store, info, data),
    }
}

/// What `send_cosmos_msgs` promises.
pub open spec fn is_send_result(
    store: Store,
    env: Env,
    info: MessageInfo,
    ops: Seq<OperationView>,
    packet_memo: Option<String>,
    timeout_seconds: Option<u64>,
    r: Result<Response, ContractError>,
) -> bool {
    match send_outcome(store, info.sender@, ops) {
        SendOutcome::ChannelNotReady => r == Err::<Response, ContractError>(
            ContractError::ChannelNotReady {  },
        ),
        SendOutcome::NotAuthorized => r == Err::<Response, ContractError>(
            ContractError::NotAuthorized {  },
        ),
        SendOutcome::UnsupportedOperation => r == Err::<Response, ContractError>(
            ContractError::UnsupportedOperation {  },
        ),
        SendOutcome::Sent => r matches Ok(resp) && is_send_response(
            resp,
            store,
            env,
            ops,
            packet_memo,
            timeout_seconds,
        ),
    }
}

/// What `create_channel` promises.
pub open spec fn is_create_channel_result(
    before: Store,
    after: Store,
    env: Env,
    info: MessageInfo,
    options: Option<ChannelOpenInitOptions>,
    r: Result<Response, ContractError>,
) -> bool {
    if !(before.owner matches Some(o) && o@ == info.sender@) {
        &&& after == before
        &&& r == Err::<Response, ContractError>(ContractError::NotAuthorized {  })
    } else {
        match effective_options(before, options) {
            None => {
                &&& after == before
                &&& r == Err::<Response, ContractError>(ContractError::NoChannelInitOptions {  })
            },
            Some(used) => {
                &&& r matches Ok(resp)
                &&& resp.messages@.len() == 1
                &&& is_open_init(resp.messages@[0], env.contract_address@, used)
                &&& resp.events@.len() == 0
                &&& resp.attributes@.len() == 0
                &&& after.channel_open_init_options == Some(used)
                &&& after.allow_channel_open_init == Some(true)
                &&& is_submitted(after.channel_state, used)
                &&& after.contract_version == before.contract_version
                &&& after.owner == before.owner
                &&& after.state == before.state
                &&& after.callback_counter == before.callback_counter
                &&& after.migration_data == before.migration_data
            },
        }
    }
}

/// The answer to a query, by the query that was put.
#[derive(Clone, Debug, PartialEq, Eq)]
pub enum QueryResponse {
    Channel(ChannelState),
    ContractState(ContractState),
    CallbackCounter(CallbackCounter),
    MigrationData(String),
    Ownership(String),
}

/// Answers a query. Nothing is changed and nobody is refused; a record that
/// was never written is reported as not found.
pub fn query(store: &Store, env: &Env, msg: QueryMsg) -> (r: Result<QueryResponse, StdError>)
    ensures
        match msg {
            QueryMsg::GetContractState {  } => match store.state {
                Some(s) => r matches Ok(QueryResponse::ContractState(t)) && t.admin == s.admin
                    && t.ica_info == s.ica_info,
                None => r matches Err(StdError::NotFound { kind }) && kind@ == "ContractState"@,
            },
            QueryMsg::GetChannel {  } => match store.channel_state {
                Some(c) => r == Ok::<QueryResponse, StdError>(QueryResponse::Channel(c)),
                None => r matches Err(StdError::NotFound { kind }) && kind@ == "ChannelState"@,
            },
            QueryMsg::GetCallbackCounter {  } => match store.callback_counter {
                Some(c) => r == Ok::<QueryResponse, StdError>(QueryResponse::CallbackCounter(c)),
                None => r matches Err(StdError::NotFound { kind }) && kind@ == "CallbackCounter"@,
            },
            QueryMsg::GetMigrationData {  } => match store.migration_data {
                Some(d) => r == Ok::<QueryResponse, StdError>(QueryResponse::MigrationData(d)),
                None => r matches Err(StdError::NotFound { kind }) && kind@ == "String"@,
            },
            QueryMsg::Ownership {  } => match store.owner {
                Some(o) => r == Ok::<QueryResponse, StdError>(QueryResponse::Ownership(o)),
                None => r matches Err(StdError::GenericErr { msg }) && msg@ == "No owner found"@,
            },
        },
{
    match msg {
        QueryMsg::GetContractState {  } => match state(store) {
            Ok(s) => Ok(QueryResponse::ContractState(s)),
            Err(e) => Err(e),
        },
        QueryMsg::GetChannel {  } => match channel(store) {
            Ok(c) => Ok(QueryResponse::Channel(c)),
            Err(e) => Err(e),
        },
        QueryMsg::GetCallbackCounter {  } => match callback_counter(store) {
            Ok(c) => Ok(QueryResponse::CallbackCounter(c)),
            Err(e) => Err(e),
        },
        QueryMsg::GetMigrationData {  } => match &store.migration_data {
            Some(d) => Ok(QueryResponse::MigrationData(d.clone())),
            None => Err(StdError::NotFound { kind: String::from_str("String") }),
        },
        QueryMsg::Ownership {  } => match get_owner(store) {
            Ok(o) => Ok(QueryResponse::Ownership(o)),
            Err(e) => Err(e),
        },
    }
}

/// What `validate_semver` promises: without a recorded version the call
/// fails as not found; otherwise the decision is the one that belongs to the
/// recorded name and to the comparison of the recorded version with the
/// version of the code.
pub open spec fn is_validated(store: Store, r: Result<(), ContractError>) -> bool {
    match store.contract_version {
        None => r matches Err(ContractError::Std(StdError::NotFound { kind })) && kind@
            == "ContractVersion"@,
        Some(cv) => is_decision(cv.contract@, version_check(cv.version@, CONTRACT_VERSION@), r),
    }
}

/// Checks that the contract recorded in the store is this contract in an
/// older version.
pub fn validate_semver(store: &Store) -> (r: Result<(), ContractError>)
    ensures
        is_validated(*store, r),
{
    let prev_cw2_version = match &store.contract_version {
        Some(cv) => cv,
        None => {
            return Err(
                ContractError::Std(
                    StdError::NotFound { kind: String::from_str("ContractVersion") },
                ),
            );
        },
    };
    let check = check_versions(prev_cw2_version.version.as_str(), CONTRACT_VERSION);
    decide_migration(prev_cw2_version.contract.as_str(), check)
}

/// Checks that the channel, if one has been established, carries binary
/// messages. Any other encoding is refused with `UnsupportedPacketEncoding`
/// and the encoding's name.
pub fn validate_channel_encoding(store: &Store) -> (r: Result<(), ContractError>)
    ensures
        match store.state {
            None => r matches Err(ContractError::Std(StdError::NotFound { kind })) && kind@
                == "ContractState"@,
            Some(s) => match s.ica_info {
                Some(i) => if i.encoding == TxEncoding::Protobuf {
                    r is Ok
                } else {
                    r matches Err(ContractError::UnsupportedPacketEncoding(name)) && name@
                        == i.encoding.name()
                },
                None => r is Ok,
            },
        },
{
    match &store.state {
        None => Err(
            ContractError::Std(StdError::NotFound { kind: String::from_str("ContractState") }),
        ),
        Some(s) => match &s.ica_info {
            Some(ica_info) => match ica_info.encoding {
                TxEncoding::Protobuf => Ok(()),
                _ => Err(ContractError::UnsupportedPacketEncoding(ica_info.encoding.to_string())),
            },
            None => Ok(()),
        },
    }
}

/// Migrates the outpost: the migration passes only from an older version of
/// this contract, and the version of the code is then recorded. Nothing else
/// changes; if the migration does not pass, nothing changes at all.
pub fn migrate(store: &mut Store, env: &Env, msg: MigrateMsg) -> (r: Result<Response, ContractError>)
    ensures
        match r {
            Ok(resp) => {
                &&& is_validated(*old(store), Ok(()))
                &&& resp.is_empty()
                &&& final(store).contract_version matches Some(cv)
                &&& cv.contract@ == CONTRACT_NAME@
                &&& cv.version@ == CONTRACT_VERSION@
                &&& final(store).owner == old(store).owner
                &&& final(store).state == old(store).state
                &&& final(store).callback_counter == old(store).callback_counter
                &&& final(store).channel_open_init_options == old(store).channel_open_init_options
                &&& final(store).allow_channel_open_init == old(store).allow_channel_open_init
                &&& final(store).channel_state == old(store).channel_state
                &&& final(store).migration_data == old(store).migration_data
            },
            Err(e) => {
                &&& is_validated(*old(store), Err(e))
                &&& *final(store) == *old(store)
            },
        },
{
    match validate_semver(store) {
        Err(e) => {
            return Err(e);
        },
        Ok(_) => {},
    }
    store.contract_version = Some(
        ContractVersion {
            contract: String::from_str(CONTRACT_NAME),
            version: String::from_str(CONTRACT_VERSION),
        },
    );
    Ok(Response::new())
}

} // verus!
