//! The encoding of operations that the two ends of a channel agree on.

use vstd::prelude::*;

verus! {

/// How a batch of operations is written into a packet.
#[derive(Clone, Copy, Debug, PartialEq, Eq, Structural)]
pub enum TxEncoding {
    /// Binary messages: each operation is a type-tagged binary record.
    Protobuf,
    /// Text messages: each operation is a JSON document.
    Proto3Json,
}

impl TxEncoding {
    /// The name under which the counterparty knows the encoding.
    pub open spec fn name(self) -> Seq<char> {
        match self {
            TxEncoding::Protobuf => "proto3"@,
            TxEncoding::Proto3Json => "proto3json"@,
        }
    }

    /// The name under which the counterparty knows the encoding.
    pub fn to_string(&self) -> (s: String)
        ensures
            s@ == self.name(),
    {
        match self {
            TxEncoding::Protobuf => String::from_str("proto3"),
            TxEncoding::Proto3Json => String::from_str("proto3json"),
        }
    }
}

/// Delivery order on a channel.
#[derive(Clone, Copy, Debug, PartialEq, Eq, Structural)]
pub enum IbcOrder {
    Unordered,
    Ordered,
}

} // verus!
