//! Plain-value model of the client-facing message surface: envelopes as the
//! duty classifier reads them, with their senders, duties and destinations.

use vstd::prelude::*;
use crate::name::XorName;

verus! {

/// The elder duties a section's committee divides its work into.
#[derive(Clone, Copy, Debug, Eq, PartialEq, Structural)]
pub enum ElderDuty {
    /// Client entry: authentication and charging.
    Gateway,
    /// Payment validation for data writes.
    Payment,
    /// Data index keeping.
    Metadata,
    /// Token transfer handling.
    Transfer,
    /// Reward bookkeeping.
    Rewards,
}

/// Which duty a sender was acting under.
#[derive(Clone, Copy, Debug, Eq, PartialEq, Structural)]
pub enum Duty {
    /// An adult node storing chunks.
    Adult,
    /// An elder acting under one of the elder duties.
    Elder(ElderDuty),
    /// A plain node.
    Node,
}

/// Who sent (or relayed) a message.
#[derive(Clone, Copy, Debug, Eq, PartialEq)]
pub enum MsgSender {
    /// A client, from its address.
    Client {
        /// The client's address.
        address: XorName,
    },
    /// A single node, acting under a duty.
    Node {
        /// The node's address.
        address: XorName,
        /// The duty it acted under.
        duty: Duty,
    },
    /// A whole section, speaking with an accumulated signature.
    Section {
        /// The section's address.
        address: XorName,
        /// The duty it acted under.
        duty: Duty,
    },
}

/// Where a message is headed.
#[derive(Clone, Copy, Debug, Eq, PartialEq)]
pub enum Address {
    /// A client at this address.
    Client(XorName),
    /// The single node with this name.
    Node(XorName),
    /// The section owning this address.
    Section(XorName),
}

impl Address {
    /// The plain address inside.
    pub open spec fn xorname_spec(self) -> XorName {
        match self {
            Address::Client(n) => n,
            Address::Node(n) => n,
            Address::Section(n) => n,
        }
    }

    /// Returns the plain address inside.
    pub fn xorname(&self) -> (r: XorName)
        ensures
            r == self.xorname_spec(),
    {
        match self {
            Address::Client(n) => *n,
            Address::Node(n) => *n,
            Address::Section(n) => *n,
        }
    }
}

/// The kinds of data a command can write.
#[derive(Clone, Copy, Debug, Eq, PartialEq, Structural)]
pub enum DataCmdKind {
    /// An immutable chunk.
    Blob,
    /// A mutable map.
    MapData,
    /// An append-only sequence.
    Sequence,
}

/// A command carried by a client message.
#[derive(Clone, Copy, Debug, Eq, PartialEq, Structural)]
pub enum Cmd {
    /// A client-authorisation command.
    Auth,
    /// A data write.
    Data {
        /// What kind of data it writes.
        cmd: DataCmdKind,
    },
    /// A token transfer command.
    Transfer,
}

/// A query carried by a client message.
#[derive(Clone, Copy, Debug, Eq, PartialEq, Structural)]
pub enum QueryKind {
    /// A data read.
    Data,
    /// A transfer or balance read.
    Transfer,
    /// An authorisation read.
    Auth,
}

/// The message body, as far as duty classification reads it.
#[derive(Clone, Copy, Debug, Eq, PartialEq, Structural)]
pub enum Message {
    /// A command.
    Cmd {
        /// The command.
        cmd: Cmd,
    },
    /// A query.
    Query {
        /// The query kind.
        query: QueryKind,
    },
    /// An answer to a query.
    QueryResponse,
    /// A notification.
    Event,
}

/// A message as it travels: its body, where it is going, who first sent it
/// and who relayed it since.
#[derive(Clone, Debug, Eq, PartialEq)]
pub struct MsgEnvelope {
    /// The body.
    pub message: Message,
    /// Who first sent it.
    pub origin: MsgSender,
    /// The relays it passed, oldest first.
    pub proxies: Vec<MsgSender>,
    /// Where it is going.
    pub dst: Address,
}

impl MsgEnvelope {
    /// The sender to judge authority by: the newest proxy, or the origin
    /// when it came straight.
    pub open spec fn most_recent_sender_spec(self) -> MsgSender {
        if self.proxies@.len() > 0 {
            self.proxies@.last()
        } else {
            self.origin
        }
    }

    /// Returns the newest proxy, or the origin when the message came
    /// straight.
    pub fn most_recent_sender(&self) -> (r: &MsgSender)
        ensures
            *r == self.most_recent_sender_spec(),
    {
        if self.proxies.len() > 0 {
            &self.proxies[self.proxies.len() - 1]
        } else {
            &self.origin
        }
    }

    /// Returns where the message is going.
    pub fn destination(&self) -> (r: Address)
        ensures
            r == self.dst,
    {
        self.dst
    }
}

} // verus!
