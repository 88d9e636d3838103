//! Plain-value model of the node's duty vocabulary: the client message
//! surface, the duties an inbound event maps to, and the outgoing message
//! shells the node emits.

use vstd::prelude::*;
use crate::name::{Prefix, XorName};
use crate::types::{BlsPublicKeyBytes, BlsSignatureBytes, KeyedSig};

verus! {

/// A message identifier.
#[derive(Clone, Copy, Debug, Eq, PartialEq, Hash, Structural)]
pub struct MessageId(pub u64);

/// 64-bit wrapping addition.
pub open spec fn w_add64(a: u64, b: u64) -> u64 {
    (((a as int) + (b as int)) % 0x1_0000_0000_0000_0000) as u64
}

impl MessageId {
    /// A deterministic identifier for the answer to `other`.
    pub fn in_response_to(other: &MessageId) -> (r: MessageId)
        ensures
            r.0 == w_add64(other.0, 1),
    {
        MessageId(other.0.wrapping_add(1))
    }
}

/// A client as an end user of the network.
#[derive(Clone, Copy, Debug, Eq, PartialEq)]
pub struct EndUser(pub XorName);

/// Where a message came from.
#[derive(Clone, Copy, Debug, Eq, PartialEq)]
pub enum SrcLocation {
    /// A client.
    EndUser(EndUser),
    /// A single node.
    Node(XorName),
    /// A whole section.
    Section(Prefix),
}

/// Where a message goes.
#[derive(Clone, Copy, Debug, Eq, PartialEq)]
pub enum DstLocation {
    /// A client.
    EndUser(EndUser),
    /// A single node.
    Node(XorName),
    /// The section owning the address.
    Section(XorName),
    /// The direct peer, with no routing.
    Direct,
}

impl SrcLocation {
    /// The destination that answers to this source.
    pub open spec fn to_dst_spec(self) -> DstLocation {
        match self {
            SrcLocation::EndUser(user) => DstLocation::EndUser(user),
            SrcLocation::Node(name) => DstLocation::Node(name),
            SrcLocation::Section(prefix) => DstLocation::Section(prefix.name),
        }
    }

    /// Returns the destination that answers to this source.
    pub fn to_dst(&self) -> (r: DstLocation)
        ensures
            r == self.to_dst_spec(),
    {
        match self {
            SrcLocation::EndUser(user) => DstLocation::EndUser(*user),
            SrcLocation::Node(name) => DstLocation::Node(*name),
            SrcLocation::Section(prefix) => DstLocation::Section(prefix.name),
        }
    }
}

/// How answers to a message are to be aggregated.
#[derive(Clone, Copy, Debug, Eq, PartialEq, Structural)]
pub enum Aggregation {
    /// No aggregation.
    NoAggregation,
    /// Aggregate at the destination.
    AtDestination,
    /// Aggregate at the source section before sending.
    AtSourceSection,
}

/// A client's signature over its message.
#[derive(Clone, Copy, Debug, Eq, PartialEq)]
pub struct ClientSig {
    /// The client's public key.
    pub public_key: BlsPublicKeyBytes,
    /// The signature over the message.
    pub signature: BlsSignatureBytes,
}

/// A data read.
#[derive(Clone, Copy, Debug, Eq, PartialEq)]
pub enum DataQuery {
    /// Read a chunk.
    Blob(XorName),
    /// Read a mutable map.
    MapData(XorName),
    /// Read a sequence.
    Sequence(XorName),
}

/// The kinds of data a client command writes.
#[derive(Clone, Copy, Debug, Eq, PartialEq, Structural)]
pub enum ClientDataCmd {
    /// Write a chunk.
    Blob,
    /// Write a mutable map.
    MapData,
    /// Write a sequence.
    Sequence,
}

/// A transfer of tokens between two keys.
#[derive(Clone, Copy, Debug, Eq, PartialEq)]
pub struct Transfer {
    /// The debited key's name.
    pub debiting: XorName,
    /// The credited key's name.
    pub crediting: XorName,
    /// The amount moved.
    pub amount: u64,
}

/// A transfer signed by the debiting client.
#[derive(Clone, Copy, Debug, Eq, PartialEq)]
pub struct SignedTransfer {
    /// The transfer.
    pub transfer: Transfer,
    /// The client's signature over it.
    pub signature: BlsSignatureBytes,
}

/// A transfer with the section signature that registered it.
#[derive(Clone, Copy, Debug, Eq, PartialEq)]
pub struct TransferProof {
    /// The transfer.
    pub transfer: Transfer,
    /// The section signature over it.
    pub sig: KeyedSig,
}

/// A transfer command from a client.
#[derive(Clone, Copy, Debug, Eq, PartialEq)]
pub enum TransferCmd {
    /// Ask the section to validate a signed transfer.
    ValidateTransfer(SignedTransfer),
    /// Ask for a simulated payout.
    SimulatePayout(Transfer),
    /// Register a validated transfer.
    RegisterTransfer(TransferProof),
}

/// A transfer query from a client.
#[derive(Clone, Copy, Debug, Eq, PartialEq)]
pub enum TransferQuery {
    /// The history of an account.
    GetHistory {
        /// The account.
        at: XorName,
        /// From this version on.
        since_version: u64,
    },
    /// The balance of an account.
    GetBalance(XorName),
    /// What storing this many bytes costs.
    GetStoreCost {
        /// The payload size.
        bytes: u64,
    },
}

/// A command a client can send.
#[derive(Clone, Copy, Debug, Eq, PartialEq)]
pub enum ClientCmd {
    /// A data write.
    Data {
        /// What kind of data it writes.
        cmd: ClientDataCmd,
    },
    /// A transfer command.
    Transfer(TransferCmd),
    /// An authorisation command.
    Auth,
}

/// A query a client can send.
#[derive(Clone, Copy, Debug, Eq, PartialEq)]
pub enum ClientQuery {
    /// A data read.
    Data(DataQuery),
    /// A transfer read.
    Transfer(TransferQuery),
    /// An authorisation read.
    Auth,
}

/// A client message to be processed.
#[derive(Clone, Copy, Debug, Eq, PartialEq)]
pub enum ProcessMsg {
    /// A command.
    Cmd {
        /// Message identifier.
        id: MessageId,
        /// The command.
        cmd: ClientCmd,
        /// The client's signature.
        client_sig: ClientSig,
    },
    /// A query.
    Query {
        /// Message identifier.
        id: MessageId,
        /// The query.
        query: ClientQuery,
        /// The client's signature.
        client_sig: ClientSig,
    },
}

impl ProcessMsg {
    /// The message's identifier.
    pub open spec fn id_spec(self) -> MessageId {
        match self {
            ProcessMsg::Cmd { id, .. } => id,
            ProcessMsg::Query { id, .. } => id,
        }
    }

    /// Returns the message's identifier.
    pub fn id(&self) -> (r: MessageId)
        ensures
            r == self.id_spec(),
    {
        match self {
            ProcessMsg::Cmd { id, .. } => *id,
            ProcessMsg::Query { id, .. } => *id,
        }
    }
}

/// Why a message could not be processed.
#[derive(Clone, Copy, Debug, Eq, PartialEq, Structural)]
pub enum ErrorMessage {
    /// The bytes did not decode.
    Serialization,
    /// The message is not one the node knows.
    InvalidMessage,
}

/// An error answer about a message that could not be processed.
#[derive(Clone, Copy, Debug, Eq, PartialEq)]
pub struct ProcessingError {
    /// What went wrong, when known.
    pub reason: Option<ErrorMessage>,
    /// The message it was about, when it decoded.
    pub source: Option<ProcessMsg>,
    /// Identifier of this error answer.
    pub id: MessageId,
}

/// Supporting information for an earlier error.
#[derive(Clone, Copy, Debug, Eq, PartialEq)]
pub struct SupportingInfo {
    /// The message it is about.
    pub source: ProcessMsg,
    /// Identifier of this answer.
    pub id: MessageId,
}

/// A message between a client and the network.
#[derive(Clone, Copy, Debug, Eq, PartialEq)]
pub enum ClientMsg {
    /// A message to process.
    Process(ProcessMsg),
    /// An error answer.
    ProcessingError(ProcessingError),
    /// Supporting information for an error.
    SupportingInfo(SupportingInfo),
}

/// A node-to-node message, already decoded; its content is handled by the
/// node-message mapper.
#[derive(Clone, Copy, Debug, Eq, PartialEq)]
pub struct NodeMsg {
    /// Message identifier.
    pub id: MessageId,
}

/// A decoded message of either surface.
#[derive(Clone, Copy, Debug, Eq, PartialEq)]
pub enum MsgType {
    /// From or to a client.
    Client(ClientMsg),
    /// Between nodes.
    Node(NodeMsg),
}

/// An ordinary outgoing message.
#[derive(Clone, Copy, Debug, Eq, PartialEq)]
pub struct OutgoingMsg {
    /// What to send.
    pub msg: MsgType,
    /// Whether the section, not this node, is named as the source.
    pub section_source: bool,
    /// Where to send it.
    pub dst: DstLocation,
    /// How answers aggregate.
    pub aggregation: Aggregation,
}

/// An error sent back lazily to a message's origin.
#[derive(Clone, Copy, Debug, Eq, PartialEq)]
pub struct OutgoingLazyError {
    /// The error answer.
    pub msg: ProcessingError,
    /// Where to send it.
    pub dst: DstLocation,
}

/// The duty a mapped inbound event asks the node to perform.
#[derive(Clone, Debug, Eq, PartialEq)]
pub enum NodeDuty {
    /// Answer a data read.
    ProcessRead {
        /// The read.
        query: DataQuery,
        /// Identifier of the client message.
        msg_id: MessageId,
        /// The client's signature.
        client_sig: ClientSig,
        /// The asking client.
        origin: EndUser,
    },
    /// Charge for a data write, then pass it on.
    ProcessDataPayment {
        /// The whole client message.
        msg: ProcessMsg,
        /// The asking client.
        origin: EndUser,
    },
    /// Validate a client transfer.
    ValidateClientTransfer {
        /// The signed transfer.
        signed_transfer: SignedTransfer,
        /// The asking client.
        origin: SrcLocation,
        /// Identifier of the client message.
        msg_id: MessageId,
    },
    /// Simulate a payout.
    SimulatePayout {
        /// The transfer to simulate.
        transfer: Transfer,
        /// The asking client.
        origin: SrcLocation,
        /// Identifier of the client message.
        msg_id: MessageId,
    },
    /// Register a validated transfer.
    RegisterTransfer {
        /// The transfer with its proof.
        proof: TransferProof,
        /// The asking client.
        origin: SrcLocation,
        /// Identifier of the client message.
        msg_id: MessageId,
    },
    /// Answer a transfer history query.
    GetTransfersHistory {
        /// The account asked about.
        at: XorName,
        /// From this version on.
        since_version: u64,
        /// The asking client.
        origin: SrcLocation,
        /// Identifier of the client message.
        msg_id: MessageId,
    },
    /// Answer a balance query.
    GetBalance {
        /// The account asked about.
        at: XorName,
        /// The asking client.
        origin: SrcLocation,
        /// Identifier of the client message.
        msg_id: MessageId,
    },
    /// Answer a store cost query.
    GetStoreCost {
        /// The payload size asked about.
        bytes: u64,
        /// The asking client.
        origin: SrcLocation,
        /// Identifier of the client message.
        msg_id: MessageId,
    },
    /// Process a decoded node-to-node message.
    ProcessNodeMsg {
        /// The message.
        msg: NodeMsg,
        /// Who sent it.
        src: SrcLocation,
        /// Where it was addressed.
        dst: DstLocation,
    },
    /// Send an ordinary message.
    Send(OutgoingMsg),
    /// Send an error answer back to a message's origin.
    SendError(OutgoingLazyError),
    /// The first section of a new network starts here.
    Genesis,
    /// Our section split in two.
    SectionSplit {
        /// Our half's prefix.
        our_prefix: Prefix,
        /// Our half's new key.
        our_key: BlsPublicKeyBytes,
        /// Elders newly added on our half.
        our_new_elders: Vec<XorName>,
        /// Elders newly added on the sibling half.
        their_new_elders: Vec<XorName>,
        /// The sibling half's key.
        sibling_key: BlsPublicKeyBytes,
        /// Whether this node was just promoted.
        newbie: bool,
    },
    /// The elder committee changed.
    EldersChanged {
        /// Our prefix.
        our_prefix: Prefix,
        /// Our section's new key.
        our_key: BlsPublicKeyBytes,
        /// Elders newly added.
        new_elders: Vec<XorName>,
        /// Whether this node was just promoted.
        newbie: bool,
    },
    /// This node was demoted from the committee.
    LevelDown,
    /// A member left or was lost.
    ProcessLostMember {
        /// Its name.
        name: XorName,
        /// Its age.
        age: u8,
    },
    /// Switch whether new nodes may join.
    SetNodeJoinsAllowed(bool),
    /// The set of adults changed.
    AdultsChanged {
        /// Adults that stay.
        remaining: Vec<XorName>,
        /// Adults newly added.
        added: Vec<XorName>,
        /// Adults removed.
        removed: Vec<XorName>,
    },
    /// Nothing to do.
    NoOp,
}

} // verus!
