//! Tests of the node's smaller public surface: stage reporting, elders,
//! destinations, close groups and the logging identity.

use safe_node::approved_peer::{ApprovedPeer, Core, EventOutbox, FullId, Stage};
use safe_node::name::{Prefix, XorName};
use safe_node::routing_msgs::{RoutingDst, Variant};
use threshold_crypto::SecretKey;

fn name_of(b: u8) -> XorName {
    let mut bytes = [0u8; 32];
    bytes[0] = b;
    XorName(bytes)
}

fn first_node(seed: u8) -> ApprovedPeer {
    let sk = SecretKey::random();
    let genesis = sk.public_key().to_bytes();
    let mut outbox = EventOutbox::new();
    ApprovedPeer::first(
        Core::new(FullId { name: name_of(seed), generation: 0 }, 0),
        genesis,
        &mut outbox,
    )
}

#[test]
fn first_node_owns_the_whole_space() {
    let peer = first_node(1);
    assert!(peer.is_approved());
    assert!(peer.is_running());
    assert_eq!(peer.our_prefix().unwrap().bit_count, 0);
    assert_eq!(peer.our_elders().len(), 1);
    assert!(peer.is_peer_our_elder(&name_of(1)));
    assert!(!peer.is_peer_our_elder(&name_of(2)));
    assert_eq!(peer.parsec_last_version(), 0);
    assert!(!peer.has_unpolled_observations());
    assert_eq!(peer.unpolled_observations_string(), "");
    assert_eq!(peer.set_log_ident(), "Elder");
    assert_eq!(peer.chain().unwrap().version(), 0);
}

#[test]
fn votes_are_recorded_until_polled() {
    let mut peer = first_node(2);
    peer.vote_for_user_event(b"observation".to_vec());
    assert!(peer.has_unpolled_observations());
    assert_eq!(peer.unpolled_observations_string(), "unpolled observations");
}

#[test]
fn destination_membership_follows_the_stage() {
    let booting = ApprovedPeer::new(Core::new(
        FullId { name: name_of(3), generation: 0 },
        0,
    ));
    assert_eq!(booting.set_log_ident(), "Bootstrapping");
    assert!(booting.in_dst_location(&RoutingDst::Node(name_of(3))));
    assert!(!booting.in_dst_location(&RoutingDst::Node(name_of(4))));
    assert!(!booting.in_dst_location(&RoutingDst::Section(name_of(3))));
    assert!(booting.in_dst_location(&RoutingDst::Direct));

    let approved = first_node(4);
    assert!(approved.in_dst_location(&RoutingDst::Section(name_of(200))));
    assert!(approved.in_dst_location(&RoutingDst::Prefix(Prefix::empty())));
}

#[test]
fn close_group_orders_by_distance() {
    let peer = first_node(5);
    // A single elder: the close group is that elder, whatever the target.
    let group = peer.close_group(name_of(77), 3).unwrap();
    assert_eq!(group, vec![name_of(5)]);

    let booting = ApprovedPeer::new(Core::new(
        FullId { name: name_of(6), generation: 0 },
        0,
    ));
    assert!(booting.close_group(name_of(77), 3).is_none());
}

#[test]
fn pause_and_resume_keep_the_section() {
    let peer = first_node(7);
    let paused = peer.pause();
    let resumed = ApprovedPeer::resume(paused);
    assert!(resumed.is_approved());
    assert_eq!(resumed.our_prefix().unwrap().bit_count, 0);
}

#[test]
fn message_bodies_describe_themselves() {
    assert_eq!(Variant::Ping.describe(), "Ping");
    assert_eq!(
        Variant::UserMessage(b"x".to_vec()).describe(),
        "UserMessage"
    );
    assert_eq!(
        Variant::Bounce { elders_version: None, message: Vec::new() }.describe(),
        "Bounce"
    );
}
