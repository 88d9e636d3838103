//! Tests of the event-to-duty mapping.

use safe_node::event_mapping::{map_client_msg, map_routing_event, EldersChange, NetworkSnapshot,
    NodeElderChange, RoutingEvent};
use safe_node::name::{Prefix, XorName};
use safe_node::node_ops::{ClientCmd, ClientDataCmd, ClientMsg, ClientQuery, ClientSig, EndUser,
    MessageId, NodeDuty, ProcessMsg, TransferQuery};

fn name_of(b: u8) -> XorName {
    let mut bytes = [0u8; 32];
    bytes[0] = b;
    XorName(bytes)
}

fn sig() -> ClientSig {
    ClientSig { public_key: [0u8; 48], signature: [0u8; 96] }
}

fn user() -> EndUser {
    EndUser(name_of(9))
}

#[test]
fn balance_queries_map_to_get_balance() {
    let msg = ClientMsg::Process(ProcessMsg::Query {
        id: MessageId(4),
        query: ClientQuery::Transfer(TransferQuery::GetBalance(name_of(5))),
        client_sig: sig(),
    });
    let mapping = map_client_msg(&msg, user());
    match mapping.op {
        NodeDuty::GetBalance { at, msg_id, .. } => {
            assert_eq!(at, name_of(5));
            assert_eq!(msg_id, MessageId(4));
        }
        other => panic!("unexpected duty: {:?}", other),
    }
    assert!(mapping.ctx.is_some());
}

#[test]
fn data_writes_map_to_payment_processing() {
    let msg = ClientMsg::Process(ProcessMsg::Cmd {
        id: MessageId(7),
        cmd: ClientCmd::Data { cmd: ClientDataCmd::Blob },
        client_sig: sig(),
    });
    let mapping = map_client_msg(&msg, user());
    assert!(matches!(mapping.op, NodeDuty::ProcessDataPayment { .. }));
}

#[test]
fn unknown_client_messages_answer_with_an_error() {
    let msg = ClientMsg::Process(ProcessMsg::Query {
        id: MessageId(8),
        query: ClientQuery::Auth,
        client_sig: sig(),
    });
    let mapping = map_client_msg(&msg, user());
    match mapping.op {
        NodeDuty::SendError(err) => {
            assert_eq!(err.msg.id, MessageId(9));
            assert!(err.msg.source.is_some());
        }
        other => panic!("unexpected duty: {:?}", other),
    }
}

#[test]
fn first_section_elder_change_is_genesis() {
    let event = RoutingEvent::EldersChanged {
        elders: EldersChange { prefix: Prefix::empty(), key: [0u8; 48], added: Vec::new() },
        self_status_change: NodeElderChange::Unchanged,
    };
    let api = NetworkSnapshot {
        prefix_is_empty: true,
        single_elder: true,
        is_elder: true,
        key_share_found: true,
    };
    let mapping = map_routing_event(event, api, MessageId(0));
    assert_eq!(mapping.op, NodeDuty::Genesis);
}

#[test]
fn promotion_without_a_key_share_is_skipped() {
    let event = RoutingEvent::EldersChanged {
        elders: EldersChange { prefix: Prefix::empty(), key: [0u8; 48], added: Vec::new() },
        self_status_change: NodeElderChange::Promoted,
    };
    let api = NetworkSnapshot {
        prefix_is_empty: false,
        single_elder: false,
        is_elder: false,
        key_share_found: false,
    };
    let mapping = map_routing_event(event, api, MessageId(0));
    assert_eq!(mapping.op, NodeDuty::NoOp);

    let event = RoutingEvent::EldersChanged {
        elders: EldersChange { prefix: Prefix::empty(), key: [0u8; 48], added: Vec::new() },
        self_status_change: NodeElderChange::Promoted,
    };
    let found = NetworkSnapshot { key_share_found: true, ..api };
    let mapping = map_routing_event(event, found, MessageId(0));
    match mapping.op {
        NodeDuty::EldersChanged { newbie, .. } => assert!(newbie),
        other => panic!("unexpected duty: {:?}", other),
    }
}

#[test]
fn lost_members_are_processed() {
    let event = RoutingEvent::MemberLeft { name: name_of(3), age: 11 };
    let api = NetworkSnapshot {
        prefix_is_empty: false,
        single_elder: false,
        is_elder: true,
        key_share_found: true,
    };
    let mapping = map_routing_event(event, api, MessageId(0));
    assert_eq!(
        mapping.op,
        NodeDuty::ProcessLostMember { name: name_of(3), age: 11 }
    );
}

#[test]
fn joined_members_switch_joins_off_outside_the_first_section() {
    let api = NetworkSnapshot {
        prefix_is_empty: false,
        single_elder: false,
        is_elder: true,
        key_share_found: true,
    };
    let event = RoutingEvent::MemberJoined { name: name_of(4), previous_name: None, age: 5 };
    assert_eq!(
        map_routing_event(event, api, MessageId(0)).op,
        NodeDuty::SetNodeJoinsAllowed(false)
    );

    let first = NetworkSnapshot { prefix_is_empty: true, ..api };
    let event = RoutingEvent::MemberJoined { name: name_of(4), previous_name: None, age: 5 };
    assert_eq!(map_routing_event(event, first, MessageId(0)).op, NodeDuty::NoOp);

    // A relocated joiner switches joins off even in the first section.
    let event = RoutingEvent::MemberJoined {
        name: name_of(4),
        previous_name: Some(name_of(2)),
        age: 6,
    };
    assert_eq!(
        map_routing_event(event, first, MessageId(0)).op,
        NodeDuty::SetNodeJoinsAllowed(false)
    );
}
