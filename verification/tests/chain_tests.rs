//! Tests of the secured key chain against real BLS signatures.

use safe_node::chain::{InvalidProof, SectionChain};
use threshold_crypto::SecretKey;

#[test]
fn extend_accepts_only_valid_proofs() {
    let sk0 = SecretKey::random();
    let pk0 = sk0.public_key().to_bytes();
    let mut chain = SectionChain::new(pk0);
    assert_eq!(chain.len(), 1);
    assert!(chain.is_known(&pk0));

    let sk1 = SecretKey::random();
    let pk1 = sk1.public_key().to_bytes();

    // A proof by a key that is not the tail is forged: never accepted.
    let forger = SecretKey::random();
    let forged = forger.sign(&pk1[..]).to_bytes();
    assert_eq!(chain.extend(pk1, forged), Err(InvalidProof));
    assert!(!chain.is_known(&pk1));

    // The tail's own signature over the new key extends the chain.
    let proof = sk0.sign(&pk1[..]).to_bytes();
    assert_eq!(chain.extend(pk1, proof), Ok(()));
    assert!(chain.is_known(&pk0));
    assert!(chain.is_known(&pk1));
    assert_eq!(chain.len(), 2);
    assert_eq!(chain.last_key(), pk1);
}

#[test]
fn minimize_to_yields_the_proving_suffix() {
    let sk0 = SecretKey::random();
    let sk1 = SecretKey::random();
    let sk2 = SecretKey::random();
    let pk0 = sk0.public_key().to_bytes();
    let pk1 = sk1.public_key().to_bytes();
    let pk2 = sk2.public_key().to_bytes();

    let mut chain = SectionChain::new(pk0);
    chain.extend(pk1, sk0.sign(&pk1[..]).to_bytes()).unwrap();
    chain.extend(pk2, sk1.sign(&pk2[..]).to_bytes()).unwrap();

    let sub = chain.minimize_to(&pk1).unwrap();
    assert_eq!(sub.len(), 2);
    assert_eq!(sub.last_key(), pk2);
    assert!(sub.is_known(&pk1));
    assert!(!sub.is_known(&pk0));

    let unknown = SecretKey::random().public_key().to_bytes();
    assert!(chain.minimize_to(&unknown).is_none());
}
