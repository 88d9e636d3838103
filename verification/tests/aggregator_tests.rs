//! Tests of the signature aggregator against the real threshold-signature
//! crate: three elders, threshold two, one combined signature.

use rand::SeedableRng;
use safe_node::aggregator::{AddShareResult, SignatureAggregator};
use threshold_crypto::{SecretKeySet, Signature};

fn fixed_rng() -> rand_xorshift::XorShiftRng {
    rand_xorshift::XorShiftRng::from_seed([7u8; 16])
}

fn setup() -> (SecretKeySet, Vec<u8>, SignatureAggregator) {
    let mut rng = fixed_rng();
    let sk_set = SecretKeySet::random(1, &mut rng);
    let pk_set = sk_set.public_keys();
    let pks_bytes = bincode::serialize(&pk_set).unwrap();
    let agg = SignatureAggregator::new(pks_bytes).unwrap();
    (sk_set, bincode::serialize(&pk_set).unwrap(), agg)
}

fn share_bytes(sk_set: &SecretKeySet, i: usize, payload: &[u8]) -> [u8; 96] {
    sk_set.secret_key_share(i).sign(payload).to_bytes()
}

#[test]
fn three_elders_threshold_two_combine_once() {
    let (sk_set, _, mut agg) = setup();
    let payload = b"message m".to_vec();

    let s0 = share_bytes(&sk_set, 0, &payload);
    let s1 = share_bytes(&sk_set, 1, &payload);
    let s2 = share_bytes(&sk_set, 2, &payload);

    // First share: not enough.
    assert_eq!(agg.add_share(payload.clone(), 0, 0, s0, 10), AddShareResult::NotEnough);

    // Duplicate submission by the same signer: kept unchanged, no error.
    assert_eq!(agg.add_share(payload.clone(), 0, 0, s0, 11), AddShareResult::NotEnough);

    // The second distinct signer completes the threshold: one combination.
    let combined = match agg.add_share(payload.clone(), 0, 1, s1, 12) {
        AddShareResult::Combined(sig) => sig,
        other => panic!("expected a combined signature, got {:?}", other),
    };
    let signature = Signature::from_bytes(combined).unwrap();
    assert!(sk_set.public_keys().public_key().verify(&signature, &payload));

    // The third share arrives after the accumulation completed: it starts
    // a fresh accumulation and reports that more are needed, without error.
    assert_eq!(agg.add_share(payload.clone(), 0, 2, s2, 13), AddShareResult::NotEnough);
}

#[test]
fn invalid_shares_are_rejected() {
    let (sk_set, _, mut agg) = setup();
    let payload = b"payload".to_vec();

    // A share over different bytes does not verify for this payload.
    let wrong = share_bytes(&sk_set, 0, b"other bytes");
    assert_eq!(agg.add_share(payload.clone(), 0, 0, wrong, 0), AddShareResult::InvalidShare);

    // A share claimed for the wrong signer index does not verify either.
    let s0 = share_bytes(&sk_set, 0, &payload);
    assert_eq!(agg.add_share(payload.clone(), 0, 1, s0, 0), AddShareResult::InvalidShare);

    // Garbage bytes are not a share at all.
    assert_eq!(
        agg.add_share(payload, 0, 0, [0u8; 96], 0),
        AddShareResult::InvalidShare
    );
}

#[test]
fn accumulations_age_out() {
    let (sk_set, _, mut agg) = setup();
    let payload = b"slow accumulation".to_vec();
    let s0 = share_bytes(&sk_set, 0, &payload);
    let s1 = share_bytes(&sk_set, 1, &payload);

    assert_eq!(agg.add_share(payload.clone(), 0, 0, s0, 0), AddShareResult::NotEnough);

    // Well past the time-to-live, the old accumulation is gone, so the
    // second signer starts over instead of completing it.
    assert_eq!(
        agg.add_share(payload.clone(), 0, 1, s1, 1_000_000),
        AddShareResult::NotEnough
    );

    // Within the window, the pair completes.
    assert!(matches!(
        agg.add_share(payload, 0, 0, s0, 1_000_100),
        AddShareResult::Combined(_)
    ));
}

#[test]
fn key_generations_accumulate_independently() {
    let (sk_set, _, mut agg) = setup();
    let payload = b"same payload".to_vec();
    let s0 = share_bytes(&sk_set, 0, &payload);
    let s1 = share_bytes(&sk_set, 1, &payload);

    assert_eq!(agg.add_share(payload.clone(), 0, 0, s0, 0), AddShareResult::NotEnough);
    // A share for another key generation does not complete generation 0.
    assert_eq!(agg.add_share(payload.clone(), 1, 1, s1, 1), AddShareResult::NotEnough);
    // The matching generation does.
    assert!(matches!(
        agg.add_share(payload, 0, 1, s1, 2),
        AddShareResult::Combined(_)
    ));
}
