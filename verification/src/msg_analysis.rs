//! Duty classification of inbound network messages: given an envelope that
//! reached this node, decide whether to accumulate, forward, execute at one
//! of the elder duties, store as an adult, or answer the client. The
//! decision is a pure function of the envelope, the node's role, and
//! whether the destination falls under the node's section prefix.

use vstd::prelude::*;
use crate::client_messaging::{Address, Cmd, DataCmdKind, Duty, ElderDuty, Message, MsgEnvelope,
    MsgSender, QueryKind};
use crate::name::{Prefix, XorName};

verus! {

/// What a node currently is to its section.
#[derive(Clone, Copy, Debug, Eq, PartialEq, Structural)]
pub enum NodeDuties {
    /// Not yet a full member.
    Infant,
    /// A storing member.
    Adult,
    /// A committee member.
    Elder,
}

/// What to do with an inbound message.
#[derive(Clone, Debug, Eq, PartialEq)]
pub enum InboundMsg {
    /// Collect threshold signatures before acting.
    Accumulate(MsgEnvelope),
    /// Not ours: pass on towards its destination.
    ForwardToNetwork(MsgEnvelope),
    /// Finalise a client authorisation at the gateway.
    RunAtGateway(MsgEnvelope),
    /// Charge for a data write, then pass it to the metadata section.
    RunAtPayment(MsgEnvelope),
    /// Persist the data index and pass chunks to the adults.
    RunAtMetadata(MsgEnvelope),
    /// Store or delete a chunk.
    RunAtAdult(MsgEnvelope),
    /// Deliver to a client we handle.
    SendToClient(MsgEnvelope),
    /// A deferred duty, never chosen yet.
    RunAtRewards(MsgEnvelope),
    /// Execute a transfer at the transfers elders.
    RunAtTransfers(MsgEnvelope),
    /// None of the duties applies.
    Unknown,
}

/// The snapshot of routing state the classifier reads: the node's name,
/// its section prefix and its current role.
pub struct InboundMsgAnalysis {
    /// The node's own name.
    pub our_name: XorName,
    /// The section prefix the node serves.
    pub our_prefix: Prefix,
    /// The node's role.
    pub duties: NodeDuties,
}

/// Whether this node's section handles the address.
pub open spec fn spec_is_handler_for(s: InboundMsgAnalysis, address: XorName) -> bool {
    s.our_prefix.matches_spec(address@)
}

/// Whether the destination address is handled by this node's section.
pub open spec fn spec_is_dst_for(s: InboundMsgAnalysis, msg: MsgEnvelope) -> bool {
    spec_is_handler_for(s, msg.dst.xorname_spec())
}

/// A write agreed by single payment elders accumulates at the metadata
/// section.
pub open spec fn spec_should_accumulate_for_metadata_write(
    s: InboundMsgAnalysis,
    msg: MsgEnvelope,
) -> bool {
    &&& msg.message matches Message::Cmd { cmd: Cmd::Data { .. } }
    &&& msg.most_recent_sender_spec() matches MsgSender::Node {
        duty: Duty::Elder(ElderDuty::Payment),
        ..
    }
    &&& spec_is_dst_for(s, msg)
    &&& s.duties == NodeDuties::Elder
}

/// A chunk write from single metadata elders accumulates at the adult.
pub open spec fn spec_should_accumulate_for_adult(s: InboundMsgAnalysis, msg: MsgEnvelope) -> bool {
    &&& msg.message matches Message::Cmd { cmd: Cmd::Data { cmd: DataCmdKind::Blob } }
    &&& msg.most_recent_sender_spec() matches MsgSender::Node {
        duty: Duty::Elder(ElderDuty::Metadata),
        ..
    }
    &&& spec_is_dst_for(s, msg)
    &&& s.duties == NodeDuties::Adult
}

/// Whether the message still needs accumulation here.
pub open spec fn spec_should_accumulate(s: InboundMsgAnalysis, msg: MsgEnvelope) -> bool {
    spec_should_accumulate_for_metadata_write(s, msg) || spec_should_accumulate_for_adult(s, msg)
}

/// Whether the message is for somewhere else on the network, or came from
/// a client and is not an authorisation command finalised here.
pub open spec fn spec_should_forward_to_network(s: InboundMsgAnalysis, msg: MsgEnvelope) -> bool {
    let destined_for_network = match msg.dst {
        Address::Client(a) => !spec_is_handler_for(s, a),
        Address::Node(a) => a@ != s.our_name@,
        Address::Section(a) => !spec_is_handler_for(s, a),
    };
    let from_client = msg.most_recent_sender_spec() matches MsgSender::Client { .. };
    let is_auth_cmd = msg.message matches Message::Cmd { cmd: Cmd::Auth };
    destined_for_network || (from_client && !is_auth_cmd)
}

/// An authorisation command from a client, agreed by the gateway section,
/// is finalised by a gateway elder.
pub open spec fn spec_should_run_at_gateway_auth(s: InboundMsgAnalysis, msg: MsgEnvelope) -> bool {
    &&& msg.origin matches MsgSender::Client { .. }
    &&& msg.most_recent_sender_spec() matches MsgSender::Section {
        duty: Duty::Elder(ElderDuty::Gateway),
        ..
    }
    &&& msg.message matches Message::Cmd { cmd: Cmd::Auth }
    &&& spec_is_dst_for(s, msg)
    &&& s.duties == NodeDuties::Elder
}

/// A data command or query from a single gateway elder is charged by a
/// payment elder at once; the client already signed it, so it does not
/// accumulate here.
pub open spec fn spec_should_run_at_data_payment(s: InboundMsgAnalysis, msg: MsgEnvelope) -> bool {
    let is_data_msg = (msg.message matches Message::Cmd { cmd: Cmd::Data { .. } }) || (
    msg.message matches Message::Query { query: QueryKind::Data });
    &&& is_data_msg
    &&& msg.most_recent_sender_spec() matches MsgSender::Node {
        duty: Duty::Elder(ElderDuty::Gateway),
        ..
    }
    &&& spec_is_dst_for(s, msg)
    &&& s.duties == NodeDuties::Elder
}

/// A data write accumulated by the payment section is carried out by a
/// metadata elder.
pub open spec fn spec_should_run_at_metadata_write(s: InboundMsgAnalysis, msg: MsgEnvelope) -> bool {
    &&& msg.message matches Message::Cmd { cmd: Cmd::Data { .. } }
    &&& msg.most_recent_sender_spec() matches MsgSender::Section {
        duty: Duty::Elder(ElderDuty::Payment),
        ..
    }
    &&& spec_is_dst_for(s, msg)
    &&& s.duties == NodeDuties::Elder
}

/// A chunk write accumulated by the metadata section is carried out by an
/// adult.
pub open spec fn spec_should_run_at_adult(s: InboundMsgAnalysis, msg: MsgEnvelope) -> bool {
    &&& msg.message matches Message::Cmd { cmd: Cmd::Data { cmd: DataCmdKind::Blob } }
    &&& msg.most_recent_sender_spec() matches MsgSender::Section {
        duty: Duty::Elder(ElderDuty::Metadata),
        ..
    }
    &&& spec_is_dst_for(s, msg)
    &&& s.duties == NodeDuties::Adult
}

/// Rewards are a deferred duty: the interface is kept, the arm never
/// matches.
pub open spec fn spec_should_run_at_rewards(s: InboundMsgAnalysis, msg: MsgEnvelope) -> bool {
    false
}

/// A transfer command from a single gateway elder runs at the transfers
/// elders.
pub open spec fn spec_should_run_at_transfers(s: InboundMsgAnalysis, msg: MsgEnvelope) -> bool {
    &&& msg.message matches Message::Cmd { cmd: Cmd::Transfer }
    &&& msg.most_recent_sender_spec() matches MsgSender::Node {
        duty: Duty::Elder(ElderDuty::Gateway),
        ..
    }
    &&& spec_is_dst_for(s, msg)
    &&& s.duties == NodeDuties::Elder
}

/// A message addressed to a client whose address we handle is pushed to
/// that client.
pub open spec fn spec_should_push_to_client(s: InboundMsgAnalysis, msg: MsgEnvelope) -> bool {
    match msg.dst {
        Address::Client(a) => spec_is_handler_for(s, a),
        _ => false,
    }
}

/// The classification: the first matching arm wins, client delivery first,
/// then accumulation, then forwarding, then the duties in pipeline order.
pub open spec fn spec_evaluate(s: InboundMsgAnalysis, msg: MsgEnvelope) -> InboundMsg {
    if spec_should_push_to_client(s, msg) {
        InboundMsg::SendToClient(msg)
    } else if spec_should_accumulate(s, msg) {
        InboundMsg::Accumulate(msg)
    } else if spec_should_forward_to_network(s, msg) {
        InboundMsg::ForwardToNetwork(msg)
    } else if spec_should_run_at_gateway_auth(s, msg) {
        InboundMsg::RunAtGateway(msg)
    } else if spec_should_run_at_data_payment(s, msg) {
        InboundMsg::RunAtPayment(msg)
    } else if spec_should_run_at_metadata_write(s, msg) {
        InboundMsg::RunAtMetadata(msg)
    } else if spec_should_run_at_adult(s, msg) {
        InboundMsg::RunAtAdult(msg)
    } else if spec_should_run_at_rewards(s, msg) {
        InboundMsg::RunAtRewards(msg)
    } else if spec_should_run_at_transfers(s, msg) {
        InboundMsg::RunAtTransfers(msg)
    } else {
        InboundMsg::Unknown
    }
}

impl InboundMsgAnalysis {
    /// A classifier over the given routing snapshot.
    pub fn new(our_name: XorName, our_prefix: Prefix, duties: NodeDuties) -> (r:
        InboundMsgAnalysis)
        requires
            our_prefix.wf(),
        ensures
            r.our_name == our_name,
            r.our_prefix == our_prefix,
            r.duties == duties,
    {
        InboundMsgAnalysis { our_name, our_prefix, duties }
    }

    /// The classifier's state is well formed when its prefix is.
    pub open spec fn wf(self) -> bool {
        self.our_prefix.wf()
    }

    /// Whether the envelope's destination is handled by this node's
    /// section.
    pub fn is_dst_for(&self, msg: &MsgEnvelope) -> (r: bool)
        requires
            self.wf(),
        ensures
            r == spec_is_dst_for(*self, *msg),
    {
        self.self_is_handler_for(&msg.destination().xorname())
    }

    /// Classifies the envelope into exactly one action.
    pub fn evaluate(&self, msg: MsgEnvelope) -> (r: InboundMsg)
        requires
            self.wf(),
        ensures
            r == spec_evaluate(*self, msg),
    {
        if self.should_push_to_client(&msg) {
            InboundMsg::SendToClient(msg)
        } else if self.should_accumulate(&msg) {
            InboundMsg::Accumulate(msg)
        } else if self.should_forward_to_network(&msg) {
            InboundMsg::ForwardToNetwork(msg)
        } else if self.should_run_at_gateway_auth(&msg) {
            InboundMsg::RunAtGateway(msg)
        } else if self.should_run_at_data_payment(&msg) {
            InboundMsg::RunAtPayment(msg)
        } else if self.should_run_at_metadata_write(&msg) {
            InboundMsg::RunAtMetadata(msg)
        } else if self.should_run_at_adult(&msg) {
            InboundMsg::RunAtAdult(msg)
        } else if self.should_run_at_rewards(&msg) {
            InboundMsg::RunAtRewards(msg)
        } else if self.should_run_at_transfers(&msg) {
            InboundMsg::RunAtTransfers(msg)
        } else {
            InboundMsg::Unknown
        }
    }

    /// Whether the message still needs accumulation here.
    fn should_accumulate(&self, msg: &MsgEnvelope) -> (r: bool)
        requires
            self.wf(),
        ensures
            r == spec_should_accumulate(*self, *msg),
    {
        self.should_accumulate_for_metadata_write(msg) || self.should_accumulate_for_adult(msg)
    }

    /// Whether the message is for somewhere else on the network.
    fn should_forward_to_network(&self, msg: &MsgEnvelope) -> (r: bool)
        requires
            self.wf(),
        ensures
            r == spec_should_forward_to_network(*self, *msg),
    {
        let destined_for_network = match msg.destination() {
            Address::Client(a) => !self.self_is_handler_for(&a),
            Address::Node(a) => !a.equals(&self.our_name),
            Address::Section(a) => !self.self_is_handler_for(&a),
        };
        let from_client = match msg.most_recent_sender() {
            MsgSender::Client { .. } => true,
            _ => false,
        };
        let is_auth_cmd = match msg.message {
            Message::Cmd { cmd: Cmd::Auth } => true,
            _ => false,
        };
        destined_for_network || (from_client && !is_auth_cmd)
    }

    /// Whether a gateway elder finalises this client authorisation here.
    fn should_run_at_gateway_auth(&self, msg: &MsgEnvelope) -> (r: bool)
        requires
            self.wf(),
        ensures
            r == spec_should_run_at_gateway_auth(*self, *msg),
    {
        let from_client = match msg.origin {
            MsgSender::Client { .. } => true,
            _ => false,
        };
        let agreed_by_gateway_section = match msg.most_recent_sender() {
            MsgSender::Section { duty: Duty::Elder(ElderDuty::Gateway), .. } => true,
            _ => false,
        };
        let is_auth_cmd = match msg.message {
            Message::Cmd { cmd: Cmd::Auth } => true,
            _ => false,
        };
        from_client && agreed_by_gateway_section && is_auth_cmd && self.is_dst_for(msg)
            && self.is_elder()
    }

    /// Whether a payment elder charges for this data message here.
    fn should_run_at_data_payment(&self, msg: &MsgEnvelope) -> (r: bool)
        requires
            self.wf(),
        ensures
            r == spec_should_run_at_data_payment(*self, *msg),
    {
        let from_gateway_single_elder = match msg.most_recent_sender() {
            MsgSender::Node { duty: Duty::Elder(ElderDuty::Gateway), .. } => true,
            _ => false,
        };
        let is_data_msg = match msg.message {
            Message::Cmd { cmd: Cmd::Data { .. } } => true,
            Message::Query { query: QueryKind::Data } => true,
            _ => false,
        };
        is_data_msg && from_gateway_single_elder && self.is_dst_for(msg) && self.is_elder()
    }

    /// Whether a metadata elder accumulates this write here.
    fn should_accumulate_for_metadata_write(&self, msg: &MsgEnvelope) -> (r: bool)
        requires
            self.wf(),
        ensures
            r == spec_should_accumulate_for_metadata_write(*self, *msg),
    {
        let from_single_payment_elder = match msg.most_recent_sender() {
            MsgSender::Node { duty: Duty::Elder(ElderDuty::Payment), .. } => true,
            _ => false,
        };
        let is_data_cmd = match msg.message {
            Message::Cmd { cmd: Cmd::Data { .. } } => true,
            _ => false,
        };
        is_data_cmd && from_single_payment_elder && self.is_dst_for(msg) && self.is_elder()
    }

    /// Whether a metadata elder carries out this accumulated write here.
    fn should_run_at_metadata_write(&self, msg: &MsgEnvelope) -> (r: bool)
        requires
            self.wf(),
        ensures
            r == spec_should_run_at_metadata_write(*self, *msg),
    {
        let from_payment_section = match msg.most_recent_sender() {
            MsgSender::Section { duty: Duty::Elder(ElderDuty::Payment), .. } => true,
            _ => false,
        };
        let is_data_cmd = match msg.message {
            Message::Cmd { cmd: Cmd::Data { .. } } => true,
            _ => false,
        };
        is_data_cmd && from_payment_section && self.is_dst_for(msg) && self.is_elder()
    }

    /// Whether an adult accumulates this chunk write here.
    fn should_accumulate_for_adult(&self, msg: &MsgEnvelope) -> (r: bool)
        requires
            self.wf(),
        ensures
            r == spec_should_accumulate_for_adult(*self, *msg),
    {
        let from_single_metadata_elder = match msg.most_recent_sender() {
            MsgSender::Node { duty: Duty::Elder(ElderDuty::Metadata), .. } => true,
            _ => false,
        };
        let is_chunk_cmd = match msg.message {
            Message::Cmd { cmd: Cmd::Data { cmd: DataCmdKind::Blob } } => true,
            _ => false,
        };
        is_chunk_cmd && from_single_metadata_elder && self.is_dst_for(msg) && self.is_adult()
    }

    /// Whether an adult carries out this accumulated chunk write here.
    fn should_run_at_adult(&self, msg: &MsgEnvelope) -> (r: bool)
        requires
            self.wf(),
        ensures
            r == spec_should_run_at_adult(*self, *msg),
    {
        let from_metadata_section = match msg.most_recent_sender() {
            MsgSender::Section { duty: Duty::Elder(ElderDuty::Metadata), .. } => true,
            _ => false,
        };
        let is_chunk_cmd = match msg.message {
            Message::Cmd { cmd: Cmd::Data { cmd: DataCmdKind::Blob } } => true,
            _ => false,
        };
        is_chunk_cmd && from_metadata_section && self.is_dst_for(msg) && self.is_adult()
    }

    /// The rewards duty is deferred: never chosen.
    fn should_run_at_rewards(&self, msg: &MsgEnvelope) -> (r: bool)
        ensures
            r == spec_should_run_at_rewards(*self, *msg),
    {
        false
    }

    /// Whether a transfers elder executes this transfer here.
    fn should_run_at_transfers(&self, msg: &MsgEnvelope) -> (r: bool)
        requires
            self.wf(),
        ensures
            r == spec_should_run_at_transfers(*self, *msg),
    {
        let from_single_gateway_elder = match msg.most_recent_sender() {
            MsgSender::Node { duty: Duty::Elder(ElderDuty::Gateway), .. } => true,
            _ => false,
        };
        let is_transfer = match msg.message {
            Message::Cmd { cmd: Cmd::Transfer } => true,
            _ => false,
        };
        is_transfer && from_single_gateway_elder && self.is_dst_for(msg) && self.is_elder()
    }

    /// Whether the message goes to a client we handle.
    fn should_push_to_client(&self, msg: &MsgEnvelope) -> (r: bool)
        requires
            self.wf(),
        ensures
            r == spec_should_push_to_client(*self, *msg),
    {
        match msg.destination() {
            Address::Client(a) => self.self_is_handler_for(&a),
            _ => false,
        }
    }

    /// Whether this node's section handles the address.
    fn self_is_handler_for(&self, address: &XorName) -> (r: bool)
        requires
            self.wf(),
        ensures
            r == spec_is_handler_for(*self, *address),
    {
        self.our_prefix.matches(address)
    }

    /// Whether this node is an elder.
    fn is_elder(&self) -> (r: bool)
        ensures
            r == (self.duties == NodeDuties::Elder),
    {
        match self.our_duties() {
            NodeDuties::Elder => true,
            _ => false,
        }
    }

    /// Whether this node is an adult.
    fn is_adult(&self) -> (r: bool)
        ensures
            r == (self.duties == NodeDuties::Adult),
    {
        match self.our_duties() {
            NodeDuties::Adult => true,
            _ => false,
        }
    }

    /// The node's current role.
    fn our_duties(&self) -> (r: NodeDuties)
        ensures
            r == self.duties,
    {
        self.duties
    }
}

} // verus!
