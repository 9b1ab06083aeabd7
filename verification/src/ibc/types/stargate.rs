//! The request that opens a channel.

use vstd::prelude::*;
use crate::host::{opt_view, CosmosMsg};
use crate::ibc::types::keys::{HOST_PORT_ID, ICA_VERSION};
use crate::ibc::types::metadata::{IbcOrder, TxEncoding};

verus! {

/// What the counterparty is asked when a channel is to be opened.
#[derive(Clone, Debug, PartialEq, Eq)]
pub struct ChannelOpenRequest {
    /// Port of this end: the contract's address behind the prefix `wasm.`.
    pub port_id: String,
    /// Who submits the request: the contract itself.
    pub signer: String,
    /// Version of the interchain-accounts application.
    pub version: String,
    /// Connection on this chain.
    pub connection_id: String,
    /// Connection on the counterparty chain.
    pub counterparty_connection_id: String,
    /// Port on the counterparty chain.
    pub counterparty_port_id: String,
    /// Encoding of the operations.
    pub tx_encoding: TxEncoding,
    /// Ordering of the channel.
    pub ordering: IbcOrder,
}

/// The request that these arguments stand for, with the defaults filled in:
/// the host port, binary messages, an ordered channel.
pub open spec fn is_open_request(
    r: ChannelOpenRequest,
    contract_address: Seq<char>,
    connection_id: Seq<char>,
    counterparty_port_id: Option<Seq<char>>,
    counterparty_connection_id: Seq<char>,
    tx_encoding: Option<TxEncoding>,
    channel_ordering: Option<IbcOrder>,
) -> bool {
    &&& r.port_id@ == "wasm."@ + contract_address
    &&& r.signer@ == contract_address
    &&& r.version@ == ICA_VERSION@
    &&& r.connection_id@ == connection_id
    &&& r.counterparty_connection_id@ == counterparty_connection_id
    &&& r.counterparty_port_id@ == match counterparty_port_id {
        Some(p) => p,
        None => HOST_PORT_ID@,
    }
    &&& r.tx_encoding == match tx_encoding {
        Some(e) => e,
        None => TxEncoding::Protobuf,
    }
    &&& r.ordering == match channel_ordering {
        Some(o) => o,
        None => IbcOrder::Ordered,
    }
}

/// Builds the message that asks the host to submit a channel-open request.
pub fn new_ica_channel_open_init_cosmos_msg(
    contract_address: String,
    connection_id: String,
    counterparty_port_id: Option<String>,
    counterparty_connection_id: String,
    tx_encoding: Option<TxEncoding>,
    channel_ordering: Option<IbcOrder>,
) -> (msg: CosmosMsg)
    ensures
        msg matches CosmosMsg::ChannelOpenInit(r) && is_open_request(
            r,
            contract_address@,
            connection_id@,
            opt_view(counterparty_port_id),
            counterparty_connection_id@,
            tx_encoding,
            channel_ordering,
        ),
{
    let port_id = String::from_str("wasm.").concat(contract_address.as_str());
    let counterparty_port_id = match counterparty_port_id {
        Some(p) => p,
        None => String::from_str(HOST_PORT_ID),
    };
    let tx_encoding = match tx_encoding {
        Some(e) => e,
        None => TxEncoding::Protobuf,
    };
    let ordering = match channel_ordering {
        Some(o) => o,
        None => IbcOrder::Ordered,
    };
    CosmosMsg::ChannelOpenInit(
        ChannelOpenRequest {
            port_id,
            signer: contract_address,
            version: String::from_str(ICA_VERSION),
            connection_id,
            counterparty_connection_id,
            counterparty_port_id,
            tx_encoding,
            ordering,
        },
    )
}

} // verus!
