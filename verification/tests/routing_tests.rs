//! Tests of the node lifecycle: joining, rejection with a fresh identity,
//! bounces, join handling and single-use relocation.

use safe_node::approved_peer::{ApprovedPeer, Core, Event, EventOutbox, FullId, Stage,
    TransportCmd, BOUNCE_RESEND_DELAY_MS};
use safe_node::name::XorName;
use safe_node::routing_msgs::{BootstrapResponse, EldersInfo, JoinAsRelocatedRequest,
    JoinRejectionReason, JoinRequest, JoinResponse, Message, RelocateDetails, RelocatePayload,
    ResourceProofResponse, RoutingDst, SignedRelocateDetails, SrcAuthority, Variant};
use safe_node::types::{KeyedSig, Peer, PeerAddr};
use threshold_crypto::SecretKey;

fn name_of(b: u8) -> XorName {
    let mut bytes = [0u8; 32];
    bytes[0] = b;
    XorName(bytes)
}

fn addr_of(p: u16) -> PeerAddr {
    PeerAddr { ip: 0x7f000001, port: p }
}

fn fresh_core(name_seed: u8) -> Core {
    Core::new(FullId { name: name_of(name_seed), generation: 0 }, 0)
}

fn node_msg(variant: Variant, sender_name: XorName) -> Message {
    Message {
        src: SrcAuthority::Node {
            name: sender_name,
            public_key: [0u8; 48],
            signature: [0u8; 96],
        },
        dst: RoutingDst::Direct,
        variant,
        signed_bytes: Vec::new(),
    }
}

fn target_committee() -> EldersInfo {
    EldersInfo {
        prefix: safe_node::name::Prefix::empty(),
        elders: vec![Peer { name: name_of(9), addr: addr_of(9000), age: 20 }],
    }
}

#[test]
fn rejected_join_rebootstraps_with_fresh_identity() {
    let mut outbox = EventOutbox::new();
    let mut peer = ApprovedPeer::new(fresh_core(1));
    assert!(matches!(peer.stage, Stage::Bootstrapping(_)));
    assert_eq!(peer.id().generation, 0);

    // The contacted node tells us where to join: Bootstrapping -> Joining.
    peer.dispatch_message(
        Some(addr_of(9000)),
        node_msg(
            Variant::BootstrapResponse(BootstrapResponse::Join(target_committee())),
            name_of(9),
        ),
        &mut outbox,
    );
    assert!(matches!(peer.stage, Stage::Joining(_)));

    // The section turns us down as unreachable: back to Bootstrapping,
    // under a freshly generated identity.
    peer.dispatch_message(
        Some(addr_of(9000)),
        node_msg(
            Variant::JoinResponse(JoinResponse::Rejected(JoinRejectionReason::NodeNotReachable)),
            name_of(9),
        ),
        &mut outbox,
    );
    assert!(matches!(peer.stage, Stage::Bootstrapping(_)));
    assert_eq!(peer.id().generation, 1);
    assert!(peer.is_running());
}

#[test]
fn bootstrapping_node_always_resends_bounced_messages() {
    let mut peer = ApprovedPeer::new(fresh_core(2));
    let sender = Peer { name: name_of(3), addr: addr_of(4000), age: 10 };
    peer.handle_bounce(sender, None, b"original".to_vec());
    match peer.core.transport.commands.last().unwrap() {
        TransportCmd::SendLater { addr, msg, delay_ms } => {
            assert_eq!(*addr, addr_of(4000));
            assert_eq!(msg, &b"original".to_vec());
            assert_eq!(*delay_ms, BOUNCE_RESEND_DELAY_MS);
        }
        other => panic!("expected a delayed resend, got {:?}", other),
    }
}

#[test]
fn approved_node_resends_only_to_lagging_members() {
    let sk0 = SecretKey::random();
    let genesis = sk0.public_key().to_bytes();
    let mut outbox = EventOutbox::new();
    let core = fresh_core(4);
    let me = name_of(4);
    let mut peer = ApprovedPeer::first(core, genesis, &mut outbox);
    assert!(peer.is_approved());

    // Grow the chain to key version 1 so a version-0 peer lags.
    let sk1 = SecretKey::random();
    let pk1 = sk1.public_key().to_bytes();
    let proof = sk0.sign(&pk1[..]).to_bytes();
    let mut extension = safe_node::chain::SectionChain::new(genesis);
    extension.extend(pk1, proof).unwrap();
    peer.dispatch_message(
        Some(addr_of(5002)),
        node_msg(
            Variant::SectionKnowledge { chain: extension, message: Vec::new() },
            name_of(9),
        ),
        &mut outbox,
    );
    assert_eq!(peer.chain().unwrap().version(), 1);

    // The first node is its own only member.
    let member = Peer { name: me, addr: addr_of(5000), age: 5 };

    // A bounce at a lagging version gets the bytes resent together with
    // the chain extension covering the gap, after the fixed delay.
    let before = peer.core.transport.commands.len();
    peer.handle_bounce(member, Some(0), b"m".to_vec());
    assert_eq!(peer.core.transport.commands.len(), before + 1);
    match peer.core.transport.commands.last().unwrap() {
        TransportCmd::SendVariantLater {
            addr,
            variant: Variant::SectionKnowledge { chain, message },
            delay_ms,
        } => {
            assert_eq!(*addr, addr_of(5000));
            assert_eq!(message, &b"m".to_vec());
            assert_eq!(*delay_ms, BOUNCE_RESEND_DELAY_MS);
            assert_eq!(chain.len(), 2);
            assert!(chain.is_known(&genesis));
            assert!(chain.is_known(&pk1));
        }
        other => panic!("expected a delayed resend with a chain extension, got {:?}", other),
    }

    // A bounce without a version is ahead or unknown: no resend.
    let before = peer.core.transport.commands.len();
    peer.handle_bounce(member, None, b"m".to_vec());
    assert_eq!(peer.core.transport.commands.len(), before);

    // A bounce at our own version is not lagging: no resend.
    let before = peer.core.transport.commands.len();
    peer.handle_bounce(member, Some(1), b"m".to_vec());
    assert_eq!(peer.core.transport.commands.len(), before);

    // A bounce from an unknown peer is dropped.
    let stranger = Peer { name: name_of(200), addr: addr_of(5001), age: 5 };
    let before = peer.core.transport.commands.len();
    peer.handle_bounce(stranger, Some(0), b"m".to_vec());
    assert_eq!(peer.core.transport.commands.len(), before);
}

#[test]
fn join_requests_follow_the_policy() {
    let sk = SecretKey::random();
    let genesis = sk.public_key().to_bytes();
    let mut outbox = EventOutbox::new();
    let mut peer = ApprovedPeer::first(fresh_core(5), genesis, &mut outbox);
    let candidate = name_of(77);

    // Without a resource-proof answer the section sets a challenge.
    peer.dispatch_message(
        Some(addr_of(7000)),
        node_msg(
            Variant::JoinRequest(JoinRequest { section_key: genesis, resource_proof_response: None }),
            candidate,
        ),
        &mut outbox,
    );
    assert!(matches!(
        peer.core.transport.commands.last().unwrap(),
        TransportCmd::SendDirect {
            variant: Variant::JoinResponse(JoinResponse::ResourceChallenge { .. }),
            ..
        }
    ));

    // With a stale section key the candidate is asked to retry.
    peer.dispatch_message(
        Some(addr_of(7000)),
        node_msg(
            Variant::JoinRequest(JoinRequest {
                section_key: [1u8; 48],
                resource_proof_response: Some(ResourceProofResponse { nonce: 0, solution: 0 }),
            }),
            candidate,
        ),
        &mut outbox,
    );
    assert!(matches!(
        peer.core.transport.commands.last().unwrap(),
        TransportCmd::SendDirect { variant: Variant::JoinResponse(JoinResponse::Retry(_)), .. }
    ));

    // A complete request under the current key is approved.
    peer.dispatch_message(
        Some(addr_of(7000)),
        node_msg(
            Variant::JoinRequest(JoinRequest {
                section_key: genesis,
                resource_proof_response: Some(ResourceProofResponse { nonce: 0, solution: 0 }),
            }),
            candidate,
        ),
        &mut outbox,
    );
    assert!(matches!(
        peer.core.transport.commands.last().unwrap(),
        TransportCmd::SendDirect {
            variant: Variant::JoinResponse(JoinResponse::Approval(_)),
            ..
        }
    ));
}

#[test]
fn relocation_payload_admits_at_most_once() {
    let sk = SecretKey::random();
    let genesis = sk.public_key().to_bytes();
    let mut outbox = EventOutbox::new();
    let mut peer = ApprovedPeer::first(fresh_core(6), genesis, &mut outbox);

    let details = RelocateDetails {
        previous_name: name_of(50),
        destination: name_of(51),
        age: 6,
    };
    let mut signed_bytes = Vec::new();
    signed_bytes.extend_from_slice(&details.previous_name.0);
    signed_bytes.extend_from_slice(&details.destination.0);
    signed_bytes.push(details.age);
    let signature = sk.sign(&signed_bytes).to_bytes();

    let request = Variant::JoinAsRelocatedRequest(JoinAsRelocatedRequest {
        relocate_payload: RelocatePayload {
            details: SignedRelocateDetails {
                details,
                sig: KeyedSig { public_key: genesis, signature },
            },
        },
    });

    peer.dispatch_message(
        Some(addr_of(8000)),
        node_msg(request.clone(), name_of(52)),
        &mut outbox,
    );
    assert!(matches!(
        peer.core.transport.commands.last().unwrap(),
        TransportCmd::SendDirect {
            variant: Variant::JoinResponse(JoinResponse::Approval(_)),
            ..
        }
    ));

    // The same payload again: consumed, so rejected.
    peer.dispatch_message(
        Some(addr_of(8001)),
        node_msg(request, name_of(53)),
        &mut outbox,
    );
    assert!(matches!(
        peer.core.transport.commands.last().unwrap(),
        TransportCmd::SendDirect {
            variant: Variant::JoinResponse(JoinResponse::Rejected(
                JoinRejectionReason::JoinsDisallowed
            )),
            ..
        }
    ));
}

#[test]
fn approved_node_verifies_section_signatures_against_its_chain() {
    let sk = SecretKey::random();
    let genesis = sk.public_key().to_bytes();
    let mut outbox = EventOutbox::new();
    let peer = ApprovedPeer::first(fresh_core(7), genesis, &mut outbox);

    let payload = b"section speaks".to_vec();
    let good = Message {
        src: SrcAuthority::Section {
            sig: KeyedSig { public_key: genesis, signature: sk.sign(&payload).to_bytes() },
        },
        dst: RoutingDst::Direct,
        variant: Variant::Ping,
        signed_bytes: payload.clone(),
    };
    assert!(peer.verify_message(&good));

    // A signature under a key outside the chain does not verify.
    let other = SecretKey::random();
    let foreign = Message {
        src: SrcAuthority::Section {
            sig: KeyedSig {
                public_key: other.public_key().to_bytes(),
                signature: other.sign(&payload).to_bytes(),
            },
        },
        dst: RoutingDst::Direct,
        variant: Variant::Ping,
        signed_bytes: payload.clone(),
    };
    assert!(!peer.verify_message(&foreign));

    // A bad signature under a known key does not verify either.
    let bad = Message {
        src: SrcAuthority::Section {
            sig: KeyedSig { public_key: genesis, signature: sk.sign(b"other").to_bytes() },
        },
        dst: RoutingDst::Direct,
        variant: Variant::Ping,
        signed_bytes: payload,
    };
    assert!(!peer.verify_message(&bad));
}

#[test]
fn user_messages_reach_the_owner() {
    let sk = SecretKey::random();
    let genesis = sk.public_key().to_bytes();
    let mut outbox = EventOutbox::new();
    let mut peer = ApprovedPeer::first(fresh_core(8), genesis, &mut outbox);
    assert_eq!(
        outbox.events,
        vec![
            Event::Connected(safe_node::approved_peer::Connected::First),
            Event::Promoted
        ]
    );

    peer.dispatch_message(
        Some(addr_of(9100)),
        node_msg(Variant::UserMessage(b"payload".to_vec()), name_of(9)),
        &mut outbox,
    );
    assert_eq!(
        outbox.events.last().unwrap(),
        &Event::MessageReceived { content: b"payload".to_vec() }
    );
}

#[test]
fn accumulated_shares_surface_as_an_event() {
    let mut rng = <rand_xorshift::XorShiftRng as rand::SeedableRng>::from_seed([3u8; 16]);
    let sk_set = threshold_crypto::SecretKeySet::random(1, &mut rng);
    let pks_bytes = bincode::serialize(&sk_set.public_keys()).unwrap();
    let aggregator = safe_node::aggregator::SignatureAggregator::new(pks_bytes).unwrap();

    let sk = SecretKey::random();
    let mut outbox = EventOutbox::new();
    let mut peer = ApprovedPeer::first(fresh_core(10), sk.public_key().to_bytes(), &mut outbox);
    peer.set_aggregator(aggregator);

    let payload = b"accumulating message".to_vec();
    let s0 = sk_set.secret_key_share(0usize).sign(&payload).to_bytes();
    let s1 = sk_set.secret_key_share(1usize).sign(&payload).to_bytes();

    let share_msg = |signer: u64, share: [u8; 96]| {
        node_msg(
            Variant::MessageSignature { payload: payload.clone(), key_index: 0, signer, share },
            name_of(11),
        )
    };

    let before = outbox.events.len();
    peer.dispatch_message(Some(addr_of(9200)), share_msg(0, s0), &mut outbox);
    assert_eq!(outbox.events.len(), before);

    peer.dispatch_message(Some(addr_of(9200)), share_msg(1, s1), &mut outbox);
    match outbox.events.last().unwrap() {
        Event::Aggregated { payload: signed, signature } => {
            // The event names the payload that completed, with its
            // combined signature.
            assert_eq!(signed, &payload);
            let sig = threshold_crypto::Signature::from_bytes(*signature).unwrap();
            assert!(sk_set.public_keys().public_key().verify(&sig, &payload));
        }
        other => panic!("expected an aggregation event, got {:?}", other),
    }
}
