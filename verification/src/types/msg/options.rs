//! Options that other messages carry.

use vstd::prelude::*;
use crate::ibc::types::keys::HOST_PORT_ID;
use crate::ibc::types::metadata::{IbcOrder, TxEncoding};

verus! {

/// What a channel-open request needs to know.
#[derive(Clone, Debug, PartialEq, Eq)]
pub struct ChannelOpenInitOptions {
    /// Connection on this chain.
    pub connection_id: String,
    /// Connection on the counterparty chain.
    pub counterparty_connection_id: String,
    /// Port on the counterparty chain; the host port if not given.
    pub counterparty_port_id: Option<String>,
    /// Encoding of the operations; binary messages if not given.
    pub tx_encoding: Option<TxEncoding>,
    /// Ordering of the channel; ordered if not given.
    pub channel_ordering: Option<IbcOrder>,
}

impl ChannelOpenInitOptions {
    /// The counterparty port that these options stand for.
    pub open spec fn spec_counterparty_port_id(&self) -> Seq<char> {
        match self.counterparty_port_id {
            Some(p) => p@,
            None => HOST_PORT_ID@,
        }
    }

    /// The encoding that these options stand for.
    pub open spec fn spec_tx_encoding(&self) -> TxEncoding {
        match self.tx_encoding {
            Some(e) => e,
            None => TxEncoding::Protobuf,
        }
    }

    /// The ordering that these options stand for.
    pub open spec fn spec_channel_ordering(&self) -> IbcOrder {
        match self.channel_ordering {
            Some(o) => o,
            None => IbcOrder::Ordered,
        }
    }

    /// The counterparty port, with the default filled in.
    pub fn counterparty_port_id(&self) -> (port: String)
        ensures
            port@ == self.spec_counterparty_port_id(),
    {
        match &self.counterparty_port_id {
            Some(p) => p.clone(),
            None => String::from_str(HOST_PORT_ID),
        }
    }

    /// The encoding, with the default filled in.
    pub fn tx_encoding(&self) -> (encoding: TxEncoding)
        ensures
            encoding == self.spec_tx_encoding(),
    {
        match self.tx_encoding {
            Some(e) => e,
            None => TxEncoding::Protobuf,
        }
    }

    /// The ordering, with the default filled in.
    pub fn channel_ordering(&self) -> (ordering: IbcOrder)
        ensures
            ordering == self.spec_channel_ordering(),
    {
        match self.channel_ordering {
            Some(o) => o,
            None => IbcOrder::Ordered,
        }
    }

    /// A copy that is equal field by field.
    pub fn duplicate(&self) -> (c: Self)
        ensures
            c == *self,
    {
        ChannelOpenInitOptions {
            connection_id: self.connection_id.clone(),
            counterparty_connection_id: self.counterparty_connection_id.clone(),
            counterparty_port_id: match &self.counterparty_port_id {
                Some(p) => Some(p.clone()),
                None => None,
            },
            tx_encoding: self.tx_encoding,
            channel_ordering: self.channel_ordering,
        }
    }
}

} // verus!
