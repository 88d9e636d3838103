//! Maps inbound routing events and client messages to the duty the node
//! must perform. The mapping is a pure function of the event and of a
//! snapshot of what the node knows about its section.

use vstd::prelude::*;
use crate::name::{Prefix, XorName};
use crate::node_ops::{ClientCmd, ClientMsg, ClientQuery, DstLocation, EndUser, ErrorMessage,
    MessageId, MsgType, NodeDuty, NodeMsg, OutgoingLazyError, ProcessMsg, ProcessingError,
    SrcLocation, TransferCmd, TransferQuery};
use crate::types::BlsPublicKeyBytes;

verus! {

/// A duty together with the message context it came from.
#[derive(Clone, Debug, Eq, PartialEq)]
pub struct Mapping {
    /// What the node must do.
    pub op: NodeDuty,
    /// The message that asked for it, when one did.
    pub ctx: Option<MsgContext>,
}

/// The message a duty came from, and who sent it.
#[derive(Clone, Copy, Debug, Eq, PartialEq)]
pub struct MsgContext {
    /// The message.
    pub msg: MsgType,
    /// Who sent it.
    pub src: SrcLocation,
}

/// Whether a node was promoted, demoted, or neither, by a section change.
#[derive(Clone, Copy, Debug, Eq, PartialEq, Structural)]
pub enum NodeElderChange {
    /// The node's rank did not change.
    Unchanged,
    /// The node joined the committee.
    Promoted,
    /// The node left the committee.
    Demoted,
}

/// An elder committee after a change.
#[derive(Clone, Debug, Eq, PartialEq)]
pub struct EldersChange {
    /// The section prefix.
    pub prefix: Prefix,
    /// The section's key after the change.
    pub key: BlsPublicKeyBytes,
    /// Elders newly added.
    pub added: Vec<XorName>,
}

/// An event handed up by the routing layer, with outside work already
/// performed: message bytes arrive decoded (`None` when they did not
/// decode).
#[derive(Clone, Debug, Eq, PartialEq)]
pub enum RoutingEvent {
    /// A node-to-node message arrived.
    MessageReceived {
        /// The decoded message, or `None` when the bytes did not decode.
        msg: Option<NodeMsg>,
        /// Who sent it.
        src: SrcLocation,
        /// Where it was addressed.
        dst: DstLocation,
    },
    /// A client message arrived.
    ClientMsgReceived {
        /// The message.
        msg: ClientMsg,
        /// The sending client.
        user: EndUser,
    },
    /// Our section split in two.
    SectionSplit {
        /// Our half.
        elders: EldersChange,
        /// The sibling half.
        sibling_elders: EldersChange,
        /// How the split changed this node's rank.
        self_status_change: NodeElderChange,
    },
    /// The elder committee changed.
    EldersChanged {
        /// The committee after the change.
        elders: EldersChange,
        /// How the change changed this node's rank.
        self_status_change: NodeElderChange,
    },
    /// A member left the section.
    MemberLeft {
        /// Its name.
        name: XorName,
        /// Its age.
        age: u8,
    },
    /// A member joined the section.
    MemberJoined {
        /// Its name.
        name: XorName,
        /// Its previous name, when it was relocated here.
        previous_name: Option<XorName>,
        /// Its age.
        age: u8,
    },
    /// This node was relocated.
    Relocated {
        /// Its previous name.
        previous_name: XorName,
    },
    /// The set of adults changed.
    AdultsChanged {
        /// Adults that stay.
        remaining: Vec<XorName>,
        /// Adults newly added.
        added: Vec<XorName>,
        /// Adults removed.
        removed: Vec<XorName>,
    },
    /// A relocation of this node began.
    RelocationStarted {
        /// Its name before the relocation.
        previous_name: XorName,
    },
}

/// What the node knows of its section at the moment an event is mapped;
/// the waits the mapping depends on (the distributed-key share becoming
/// available) are handed in as their outcome.
#[derive(Clone, Copy, Debug, Eq, PartialEq, Structural)]
pub struct NetworkSnapshot {
    /// Whether our prefix is the empty prefix.
    pub prefix_is_empty: bool,
    /// Whether our committee has exactly one elder.
    pub single_elder: bool,
    /// Whether this node is an elder.
    pub is_elder: bool,
    /// Whether this node's key share arrived within the waiting budget.
    pub key_share_found: bool,
}

/// The duty a client message maps to.
pub open spec fn spec_map_client_process_msg(process_msg: ProcessMsg, origin: EndUser) -> NodeDuty {
    let msg_id = process_msg.id_spec();
    match process_msg {
        ProcessMsg::Query { query: ClientQuery::Data(query), client_sig, .. } => NodeDuty::ProcessRead {
            query,
            msg_id,
            client_sig,
            origin,
        },
        ProcessMsg::Cmd { cmd: ClientCmd::Data { .. }, .. } => NodeDuty::ProcessDataPayment {
            msg: process_msg,
            origin,
        },
        ProcessMsg::Cmd {
            cmd: ClientCmd::Transfer(TransferCmd::ValidateTransfer(signed_transfer)),
            ..
        } => NodeDuty::ValidateClientTransfer {
            signed_transfer,
            origin: SrcLocation::EndUser(origin),
            msg_id,
        },
        ProcessMsg::Cmd {
            cmd: ClientCmd::Transfer(TransferCmd::SimulatePayout(transfer)),
            ..
        } => NodeDuty::SimulatePayout { transfer, origin: SrcLocation::EndUser(origin), msg_id },
        ProcessMsg::Cmd {
            cmd: ClientCmd::Transfer(TransferCmd::RegisterTransfer(proof)),
            ..
        } => NodeDuty::RegisterTransfer { proof, origin: SrcLocation::EndUser(origin), msg_id },
        ProcessMsg::Query {
            query: ClientQuery::Transfer(TransferQuery::GetHistory { at, since_version }),
            ..
        } => NodeDuty::GetTransfersHistory {
            at,
            since_version,
            origin: SrcLocation::EndUser(origin),
            msg_id,
        },
        ProcessMsg::Query {
            query: ClientQuery::Transfer(TransferQuery::GetBalance(at)),
            ..
        } => NodeDuty::GetBalance { at, origin: SrcLocation::EndUser(origin), msg_id },
        ProcessMsg::Query {
            query: ClientQuery::Transfer(TransferQuery::GetStoreCost { bytes }),
            ..
        } => NodeDuty::GetStoreCost { bytes, origin: SrcLocation::EndUser(origin), msg_id },
        _ => NodeDuty::SendError(
            OutgoingLazyError {
                msg: ProcessingError {
                    reason: Some(ErrorMessage::InvalidMessage),
                    source: Some(process_msg),
                    id: MessageId(crate::node_ops::w_add64(msg_id.0, 1)),
                },
                dst: SrcLocation::EndUser(origin).to_dst_spec(),
            },
        ),
    }
}

/// The mapping a whole client message gets.
pub open spec fn spec_map_client_msg(msg: ClientMsg, user: EndUser) -> Mapping {
    match msg {
        ClientMsg::Process(process_msg) => Mapping {
            op: spec_map_client_process_msg(process_msg, user),
            ctx: Some(
                MsgContext { msg: MsgType::Client(msg), src: SrcLocation::EndUser(user) },
            ),
        },
        ClientMsg::ProcessingError(_) => Mapping { op: NodeDuty::NoOp, ctx: None },
        ClientMsg::SupportingInfo(_) => Mapping { op: NodeDuty::NoOp, ctx: None },
    }
}

/// Maps one client message to the duty it asks of the node. A node never
/// processes error or supporting-info messages; those map to no work.
pub fn map_client_msg(msg: &ClientMsg, user: EndUser) -> (r: Mapping)
    ensures
        r == spec_map_client_msg(*msg, user),
{
    match msg {
        ClientMsg::Process(process_msg) => {
            let op = map_client_process_msg(*process_msg, user);
            let ctx = Some(MsgContext { msg: MsgType::Client(*msg), src: SrcLocation::EndUser(user) });
            Mapping { op, ctx }
        },
        ClientMsg::ProcessingError(_) => Mapping { op: NodeDuty::NoOp, ctx: None },
        ClientMsg::SupportingInfo(_) => Mapping { op: NodeDuty::NoOp, ctx: None },
    }
}

/// Maps the processable client messages: data reads, data-write payments,
/// the transfer commands and queries; anything else is answered with an
/// invalid-message error to its origin.
pub fn map_client_process_msg(process_msg: ProcessMsg, origin: EndUser) -> (r: NodeDuty)
    ensures
        r == spec_map_client_process_msg(process_msg, origin),
{
    let msg_id = process_msg.id();
    match process_msg {
        ProcessMsg::Query { query: ClientQuery::Data(query), client_sig, .. } => NodeDuty::ProcessRead {
            query,
            msg_id,
            client_sig,
            origin,
        },
        ProcessMsg::Cmd { cmd: ClientCmd::Data { .. }, .. } => NodeDuty::ProcessDataPayment {
            msg: process_msg,
            origin,
        },
        ProcessMsg::Cmd {
            cmd: ClientCmd::Transfer(TransferCmd::ValidateTransfer(signed_transfer)),
            ..
        } => NodeDuty::ValidateClientTransfer {
            signed_transfer,
            origin: SrcLocation::EndUser(origin),
            msg_id,
        },
        ProcessMsg::Cmd {
            cmd: ClientCmd::Transfer(TransferCmd::SimulatePayout(transfer)),
            ..
        } => NodeDuty::SimulatePayout { transfer, origin: SrcLocation::EndUser(origin), msg_id },
        ProcessMsg::Cmd {
            cmd: ClientCmd::Transfer(TransferCmd::RegisterTransfer(proof)),
            ..
        } => NodeDuty::RegisterTransfer { proof, origin: SrcLocation::EndUser(origin), msg_id },
        ProcessMsg::Query {
            query: ClientQuery::Transfer(TransferQuery::GetHistory { at, since_version }),
            ..
        } => NodeDuty::GetTransfersHistory {
            at,
            since_version,
            origin: SrcLocation::EndUser(origin),
            msg_id,
        },
        ProcessMsg::Query {
            query: ClientQuery::Transfer(TransferQuery::GetBalance(at)),
            ..
        } => NodeDuty::GetBalance { at, origin: SrcLocation::EndUser(origin), msg_id },
        ProcessMsg::Query {
            query: ClientQuery::Transfer(TransferQuery::GetStoreCost { bytes }),
            ..
        } => NodeDuty::GetStoreCost { bytes, origin: SrcLocation::EndUser(origin), msg_id },
        _ => {
            let id = MessageId::in_response_to(&msg_id);
            NodeDuty::SendError(
                OutgoingLazyError {
                    msg: ProcessingError {
                        reason: Some(ErrorMessage::InvalidMessage),
                        source: Some(process_msg),
                        id,
                    },
                    dst: SrcLocation::EndUser(origin).to_dst(),
                },
            )
        },
    }
}

/// The mapping a routing event gets, given the snapshot.
pub open spec fn spec_map_routing_event(
    event: RoutingEvent,
    api: NetworkSnapshot,
    error_msg_id: MessageId,
) -> Mapping {
    match event {
        RoutingEvent::MessageReceived { msg: Some(msg), src, dst } => Mapping {
            op: NodeDuty::ProcessNodeMsg { msg, src, dst },
            ctx: Some(MsgContext { msg: MsgType::Node(msg), src }),
        },
        RoutingEvent::MessageReceived { msg: None, src, .. } => Mapping {
            op: NodeDuty::SendError(
                OutgoingLazyError {
                    msg: ProcessingError {
                        reason: Some(ErrorMessage::Serialization),
                        source: None,
                        id: error_msg_id,
                    },
                    dst: src.to_dst_spec(),
                },
            ),
            ctx: None,
        },
        RoutingEvent::ClientMsgReceived { msg, user } => spec_map_client_msg(msg, user),
        RoutingEvent::SectionSplit { elders, sibling_elders, self_status_change } => {
            if self_status_change == NodeElderChange::Demoted {
                Mapping { op: NodeDuty::NoOp, ctx: None }
            } else {
                Mapping {
                    op: NodeDuty::SectionSplit {
                        our_prefix: elders.prefix,
                        our_key: elders.key,
                        our_new_elders: elders.added,
                        their_new_elders: sibling_elders.added,
                        sibling_key: sibling_elders.key,
                        newbie: self_status_change == NodeElderChange::Promoted,
                    },
                    ctx: None,
                }
            }
        },
        RoutingEvent::EldersChanged { elders, self_status_change } => {
            if api.prefix_is_empty && api.single_elder {
                Mapping { op: NodeDuty::Genesis, ctx: None }
            } else {
                match self_status_change {
                    NodeElderChange::Unchanged => {
                        if !api.is_elder {
                            Mapping { op: NodeDuty::NoOp, ctx: None }
                        } else {
                            Mapping {
                                op: NodeDuty::EldersChanged {
                                    our_prefix: elders.prefix,
                                    our_key: elders.key,
                                    new_elders: elders.added,
                                    newbie: false,
                                },
                                ctx: None,
                            }
                        }
                    },
                    NodeElderChange::Promoted => {
                        if !api.key_share_found {
                            Mapping { op: NodeDuty::NoOp, ctx: None }
                        } else {
                            Mapping {
                                op: NodeDuty::EldersChanged {
                                    our_prefix: elders.prefix,
                                    our_key: elders.key,
                                    new_elders: elders.added,
                                    newbie: true,
                                },
                                ctx: None,
                            }
                        }
                    },
                    NodeElderChange::Demoted => Mapping { op: NodeDuty::LevelDown, ctx: None },
                }
            }
        },
        RoutingEvent::MemberLeft { name, age } => Mapping {
            op: NodeDuty::ProcessLostMember { name, age },
            ctx: None,
        },
        RoutingEvent::MemberJoined { previous_name, .. } => {
            if previous_name is Some {
                Mapping { op: NodeDuty::SetNodeJoinsAllowed(false), ctx: None }
            } else if api.prefix_is_empty {
                Mapping { op: NodeDuty::NoOp, ctx: None }
            } else {
                Mapping { op: NodeDuty::SetNodeJoinsAllowed(false), ctx: None }
            }
        },
        RoutingEvent::Relocated { .. } => Mapping { op: NodeDuty::NoOp, ctx: None },
        RoutingEvent::AdultsChanged { remaining, added, removed } => Mapping {
            op: NodeDuty::AdultsChanged { remaining, added, removed },
            ctx: None,
        },
        RoutingEvent::RelocationStarted { .. } => Mapping { op: NodeDuty::NoOp, ctx: None },
    }
}

/// Maps one routing event to the duty it asks of the node.
///
/// What the mapping needs to know of the network arrives in `api`: the
/// wait for a key share is summed up in `api.key_share_found`, and
/// `error_msg_id` is the caller-drawn identifier for an error answer about
/// undecodable bytes.
pub fn map_routing_event(
    event: RoutingEvent,
    api: NetworkSnapshot,
    error_msg_id: MessageId,
) -> (r: Mapping)
    ensures
        r == spec_map_routing_event(event, api, error_msg_id),
{
    match event {
        RoutingEvent::MessageReceived { msg: Some(msg), src, dst } => Mapping {
            op: NodeDuty::ProcessNodeMsg { msg, src, dst },
            ctx: Some(MsgContext { msg: MsgType::Node(msg), src }),
        },
        RoutingEvent::MessageReceived { msg: None, src, .. } => Mapping {
            op: NodeDuty::SendError(
                OutgoingLazyError {
                    msg: ProcessingError {
                        reason: Some(ErrorMessage::Serialization),
                        source: None,
                        id: error_msg_id,
                    },
                    dst: src.to_dst(),
                },
            ),
            ctx: None,
        },
        RoutingEvent::ClientMsgReceived { msg, user } => map_client_msg(&msg, user),
        RoutingEvent::SectionSplit { elders, sibling_elders, self_status_change } => {
            match self_status_change {
                NodeElderChange::Demoted => Mapping { op: NodeDuty::NoOp, ctx: None },
                NodeElderChange::Promoted => Mapping {
                    op: NodeDuty::SectionSplit {
                        our_prefix: elders.prefix,
                        our_key: elders.key,
                        our_new_elders: elders.added,
                        their_new_elders: sibling_elders.added,
                        sibling_key: sibling_elders.key,
                        newbie: true,
                    },
                    ctx: None,
                },
                NodeElderChange::Unchanged => Mapping {
                    op: NodeDuty::SectionSplit {
                        our_prefix: elders.prefix,
                        our_key: elders.key,
                        our_new_elders: elders.added,
                        their_new_elders: sibling_elders.added,
                        sibling_key: sibling_elders.key,
                        newbie: false,
                    },
                    ctx: None,
                },
            }
        },
        RoutingEvent::EldersChanged { elders, self_status_change } => {
            if api.prefix_is_empty && api.single_elder {
                Mapping { op: NodeDuty::Genesis, ctx: None }
            } else {
                match self_status_change {
                    NodeElderChange::Unchanged => {
                        if !api.is_elder {
                            Mapping { op: NodeDuty::NoOp, ctx: None }
                        } else {
                            Mapping {
                                op: NodeDuty::EldersChanged {
                                    our_prefix: elders.prefix,
                                    our_key: elders.key,
                                    new_elders: elders.added,
                                    newbie: false,
                                },
                                ctx: None,
                            }
                        }
                    },
                    NodeElderChange::Promoted => {
                        if !api.key_share_found {
                            Mapping { op: NodeDuty::NoOp, ctx: None }
                        } else {
                            Mapping {
                                op: NodeDuty::EldersChanged {
                                    our_prefix: elders.prefix,
                                    our_key: elders.key,
                                    new_elders: elders.added,
                                    newbie: true,
                                },
                                ctx: None,
                            }
                        }
                    },
                    NodeElderChange::Demoted => Mapping { op: NodeDuty::LevelDown, ctx: None },
                }
            }
        },
        RoutingEvent::MemberLeft { name, age } => Mapping {
            op: NodeDuty::ProcessLostMember { name, age },
            ctx: None,
        },
        RoutingEvent::MemberJoined { previous_name, .. } => {
            if previous_name.is_some() {
                Mapping { op: NodeDuty::SetNodeJoinsAllowed(false), ctx: None }
            } else if api.prefix_is_empty {
                Mapping { op: NodeDuty::NoOp, ctx: None }
            } else {
                Mapping { op: NodeDuty::SetNodeJoinsAllowed(false), ctx: None }
            }
        },
        RoutingEvent::Relocated { .. } => Mapping { op: NodeDuty::NoOp, ctx: None },
        RoutingEvent::AdultsChanged { remaining, added, removed } => Mapping {
            op: NodeDuty::AdultsChanged { remaining, added, removed },
            ctx: None,
        },
        RoutingEvent::RelocationStarted { .. } => Mapping { op: NodeDuty::NoOp, ctx: None },
    }
}

} // verus!
