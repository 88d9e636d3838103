//! Trusted boundary to the BLS threshold-signature primitive. Keys,
//! signatures and shares cross it as plain bytes; the mathematics stays in
//! the outside crate and is named, not restated.

use vstd::prelude::*;
use crate::types::{BlsPublicKeyBytes, BlsSignatureBytes};

verus! {

/// Whether `sig` is a valid BLS signature over `msg` under the public key
/// `pk`, all in compressed byte form. Verification is a pure function of
/// the three byte strings.
pub uninterp spec fn sig_valid(pk: Seq<u8>, sig: Seq<u8>, msg: Seq<u8>) -> bool;

/// Relies on threshold_crypto::PublicKey::verify: deterministic signature
/// verification; malformed key or signature bytes verify nothing.
#[verifier::external_body]
pub fn bls_verify(pk: &BlsPublicKeyBytes, sig: &BlsSignatureBytes, msg: &Vec<u8>) -> (r: bool)
    ensures
        r == sig_valid(pk@, sig@, msg@),
{
    match (threshold_crypto::PublicKey::from_bytes(*pk), threshold_crypto::Signature::from_bytes(*sig)) {
        (Ok(k), Ok(s)) => k.verify(&s, msg),
        _ => false,
    }
}

/// Whether the serialized public key set parses; a pure function of the
/// bytes.
pub uninterp spec fn pks_wf(pks: Seq<u8>) -> bool;

/// The threshold of a serialized public key set: any `threshold + 1`
/// distinct signature shares combine into a full signature.
pub uninterp spec fn pks_threshold_of(pks: Seq<u8>) -> int;

/// Relies on serde deserialization of threshold_crypto::PublicKeySet and
/// on PublicKeySet::threshold.
#[verifier::external_body]
pub fn pks_threshold(pks_bytes: &Vec<u8>) -> (r: Option<usize>)
    ensures
        r is Some <==> pks_wf(pks_bytes@),
        match r {
            Some(t) => t == pks_threshold_of(pks_bytes@),
            None => true,
        },
{
    let pk_set: Option<threshold_crypto::PublicKeySet> = bincode::deserialize(pks_bytes).ok();
    pk_set.map(|p| p.threshold())
}

/// Whether `share` is signer `index`'s valid signature share over `payload`
/// under the serialized public key set; a pure function of its arguments.
pub uninterp spec fn share_valid(pks: Seq<u8>, index: u64, share: Seq<u8>, payload: Seq<u8>) -> bool;

/// Relies on PublicKeySet::public_key_share and PublicKeyShare::verify:
/// deterministic verification of one signer's share.
#[verifier::external_body]
pub fn bls_verify_share(
    pks_bytes: &Vec<u8>,
    index: u64,
    share: &BlsSignatureBytes,
    payload: &Vec<u8>,
) -> (r: bool)
    ensures
        r == share_valid(pks_bytes@, index, share@, payload@),
        r ==> pks_wf(pks_bytes@),
{
    let parsed: Result<threshold_crypto::PublicKeySet, _> = bincode::deserialize(pks_bytes);
    match (parsed, threshold_crypto::SignatureShare::from_bytes(*share)) {
        (Ok(pk_set), Ok(sig_share)) => pk_set.public_key_share(index).verify(&sig_share, payload),
        _ => false,
    }
}

/// The combined signature that the key set produces from the given
/// `(signer index, share bytes)` pairs, `None` where combining fails
/// (malformed bytes, a duplicate index, or too few shares); a pure
/// function of its arguments.
pub uninterp spec fn combined_of(pks: Seq<u8>, shares: Seq<(u64, Seq<u8>)>) -> Option<Seq<u8>>;

/// View of a share list as plain values.
pub open spec fn shares_view(shares: Seq<(u64, BlsSignatureBytes)>) -> Seq<(u64, Seq<u8>)> {
    shares.map_values(|p: (u64, BlsSignatureBytes)| (p.0, p.1@))
}

/// Relies on PublicKeySet::combine_signatures: interpolates the shares
/// into one signature; fails only on malformed bytes, a duplicate signer
/// index, or fewer than `threshold + 1` shares.
#[verifier::external_body]
pub fn bls_combine(pks_bytes: &Vec<u8>, shares: &Vec<(u64, BlsSignatureBytes)>) -> (r: Option<
    BlsSignatureBytes,
>)
    ensures
        match r {
            Some(sig) => combined_of(pks_bytes@, shares_view(shares@)) == Some(sig@),
            None => combined_of(pks_bytes@, shares_view(shares@)) is None,
        },
{
    let pk_set: threshold_crypto::PublicKeySet = bincode::deserialize(pks_bytes).ok()?;
    let mut parsed: Vec<(u64, threshold_crypto::SignatureShare)> = Vec::new();
    for (i, b) in shares.iter() {
        parsed.push((*i, threshold_crypto::SignatureShare::from_bytes(*b).ok()?));
    }
    pk_set.combine_signatures(parsed.iter().map(|(i, s)| (*i, s))).ok().map(|sig| sig.to_bytes())
}

} // verus!
