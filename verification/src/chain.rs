//! The secured key chain: an append-only list of section BLS public keys,
//! each signed by its predecessor, so that any listed key can be traced
//! back to the root by verified signatures.

use vstd::prelude::*;
use crate::bls::{bls_verify, sig_valid};
use crate::types::{BlsPublicKeyBytes, BlsSignatureBytes};

verus! {

/// Error returned when an extension's proof signature does not verify.
#[derive(Clone, Copy, Debug, Eq, PartialEq, Structural)]
pub struct InvalidProof;

/// An append-only chain of section keys. `sigs[i]` is the signature by
/// `keys[i]` over the byte form of `keys[i + 1]`.
#[derive(Clone, Debug, Eq, PartialEq)]
pub struct SectionChain {
    /// The section keys, root first.
    pub keys: Vec<BlsPublicKeyBytes>,
    /// The proof signatures linking each key to its successor.
    pub sigs: Vec<BlsSignatureBytes>,
}

impl SectionChain {
    /// Well-formedness: non-empty, one signature per link, and every link
    /// verified by its predecessor key.
    pub open spec fn wf(self) -> bool {
        &&& self.keys@.len() >= 1
        &&& self.sigs@.len() == self.keys@.len() - 1
        &&& forall|i: int|
            0 <= i < self.sigs@.len() ==> sig_valid(
                self.keys@[i]@,
                self.sigs@[i]@,
                self.keys@[i + 1]@,
            )
    }

    /// Whether `key` stands in the chain.
    pub open spec fn is_known_spec(self, key: BlsPublicKeyBytes) -> bool {
        exists|i: int| 0 <= i < self.keys@.len() && self.keys@[i]@ == key@
    }

    /// A chain holding only the root key.
    pub fn new(root: BlsPublicKeyBytes) -> (r: SectionChain)
        ensures
            r.wf(),
            r.keys@.len() == 1,
            r.keys@[0] == root,
    {
        let mut keys: Vec<BlsPublicKeyBytes> = Vec::new();
        keys.push(root);
        SectionChain { keys, sigs: Vec::new() }
    }

    /// Number of keys in the chain.
    pub fn len(&self) -> (r: usize)
        ensures
            r == self.keys@.len(),
    {
        self.keys.len()
    }

    /// The newest key.
    pub fn last_key(&self) -> (r: BlsPublicKeyBytes)
        requires
            self.wf(),
        ensures
            r == self.keys@.last(),
    {
        self.keys[self.keys.len() - 1]
    }

    /// Appends `new_key`, but only when `proof` is a valid signature by the
    /// current last key over the new key's bytes: a forged proof is never
    /// accepted.
    pub fn extend(&mut self, new_key: BlsPublicKeyBytes, proof: BlsSignatureBytes) -> (r: Result<
        (),
        InvalidProof,
    >)
        requires
            old(self).wf(),
        ensures
            final(self).wf(),
            r is Ok <==> sig_valid(old(self).keys@.last()@, proof@, new_key@),
            r is Ok ==> final(self).keys@ == old(self).keys@.push(new_key) && final(self).sigs@
                == old(self).sigs@.push(proof),
            r is Err ==> *final(self) == *old(self),
    {
        let tail = self.keys[self.keys.len() - 1];
        let mut msg: Vec<u8> = Vec::new();
        msg.extend_from_slice(&new_key);
        proof {
            assert(msg@ =~= new_key@);
        }
        if bls_verify(&tail, &proof, &msg) {
            self.keys.push(new_key);
            self.sigs.push(proof);
            Ok(())
        } else {
            Err(InvalidProof)
        }
    }

    /// Whether `key` is one of the chain's keys.
    pub fn is_known(&self, key: &BlsPublicKeyBytes) -> (r: bool)
        ensures
            r == self.is_known_spec(*key),
    {
        let n = self.keys.len();
        let mut i: usize = 0;
        while i < n
            invariant
                i <= n,
                n == self.keys@.len(),
                forall|k: int| 0 <= k < i ==> self.keys@[k]@ != key@,
            decreases n - i,
        {
            if eq_key(&self.keys[i], key) {
                return true;
            }
            i = i + 1;
        }
        false
    }

    /// The index of `key` in the chain, when known.
    pub fn index_of(&self, key: &BlsPublicKeyBytes) -> (r: Option<usize>)
        ensures
            match r {
                Some(i) => i < self.keys@.len() && self.keys@[i as int]@ == key@,
                None => !self.is_known_spec(*key),
            },
    {
        let n = self.keys.len();
        let mut i: usize = 0;
        while i < n
            invariant
                i <= n,
                n == self.keys@.len(),
                forall|k: int| 0 <= k < i ==> self.keys@[k]@ != key@,
            decreases n - i,
        {
            if eq_key(&self.keys[i], key) {
                return Some(i);
            }
            i = i + 1;
        }
        None
    }

    /// The sub-chain from key index `start` to the tail: what a peer whose
    /// knowledge stops at version `start` needs in order to verify every
    /// later key.
    pub fn suffix(&self, start: usize) -> (r: SectionChain)
        requires
            self.wf(),
            start < self.keys@.len(),
        ensures
            r.wf(),
            r.keys@ == self.keys@.subrange(start as int, self.keys@.len() as int),
            r.sigs@ == self.sigs@.subrange(start as int, self.sigs@.len() as int),
            r.keys@[0] == self.keys@[start as int],
            r.keys@.last() == self.keys@.last(),
    {
        let mut keys: Vec<BlsPublicKeyBytes> = Vec::new();
        let n = self.keys.len();
        let mut i: usize = start;
        while i < n
            invariant
                start <= i <= n,
                start < n,
                n == self.keys@.len(),
                keys@ == self.keys@.subrange(start as int, i as int),
            decreases n - i,
        {
            keys.push(self.keys[i]);
            proof {
                assert(self.keys@.subrange(start as int, i as int).push(self.keys@[i as int])
                    =~= self.keys@.subrange(start as int, i + 1));
            }
            i = i + 1;
        }
        let mut sigs: Vec<BlsSignatureBytes> = Vec::new();
        let m = self.sigs.len();
        let mut j: usize = start;
        while j < m
            invariant
                start <= j <= m,
                m == self.sigs@.len(),
                sigs@ == self.sigs@.subrange(start as int, j as int),
            decreases m - j,
        {
            sigs.push(self.sigs[j]);
            proof {
                assert(self.sigs@.subrange(start as int, j as int).push(self.sigs@[j as int])
                    =~= self.sigs@.subrange(start as int, j + 1));
            }
            j = j + 1;
        }
        SectionChain { keys, sigs }
    }

    /// The sub-chain rooted at `key`: what a peer who trusts only `key`
    /// needs in order to verify every later key of this chain.
    pub fn minimize_to(&self, key: &BlsPublicKeyBytes) -> (r: Option<SectionChain>)
        requires
            self.wf(),
        ensures
            match r {
                Some(sub) => {
                    &&& sub.wf()
                    &&& sub.keys@.len() >= 1
                    &&& sub.keys@[0]@ == key@
                    &&& sub.keys@.last() == self.keys@.last()
                    &&& exists|i: int|
                        0 <= i < self.keys@.len() && sub.keys@ == self.keys@.subrange(
                            i,
                            self.keys@.len() as int,
                        ) && sub.sigs@ == self.sigs@.subrange(i, self.sigs@.len() as int)
                },
                None => !self.is_known_spec(*key),
            },
    {
        let start = match self.index_of(key) {
            Some(i) => i,
            None => {
                return None;
            },
        };
        let mut keys: Vec<BlsPublicKeyBytes> = Vec::new();
        let mut sigs: Vec<BlsSignatureBytes> = Vec::new();
        let n = self.keys.len();
        let mut i: usize = start;
        while i < n
            invariant
                start <= i <= n,
                start < n,
                n == self.keys@.len(),
                keys@ == self.keys@.subrange(start as int, i as int),
            decreases n - i,
        {
            keys.push(self.keys[i]);
            proof {
                assert(self.keys@.subrange(start as int, i as int).push(self.keys@[i as int])
                    =~= self.keys@.subrange(start as int, i + 1));
            }
            i = i + 1;
        }
        let m = self.sigs.len();
        let mut j: usize = start;
        while j < m
            invariant
                start <= j <= m,
                m == self.sigs@.len(),
                sigs@ == self.sigs@.subrange(start as int, j as int),
            decreases m - j,
        {
            sigs.push(self.sigs[j]);
            proof {
                assert(self.sigs@.subrange(start as int, j as int).push(self.sigs@[j as int])
                    =~= self.sigs@.subrange(start as int, j + 1));
            }
            j = j + 1;
        }
        let sub = SectionChain { keys, sigs };
        proof {
            assert(sub.keys@ == self.keys@.subrange(start as int, self.keys@.len() as int));
            assert(sub.sigs@ == self.sigs@.subrange(start as int, self.sigs@.len() as int));
            assert(sub.keys@.last() == self.keys@.last());
        }
        Some(sub)
    }
}

/// Byte-wise comparison of two compressed BLS public keys.
pub fn eq_key(a: &BlsPublicKeyBytes, b: &BlsPublicKeyBytes) -> (r: bool)
    ensures
        r <==> a@ =~= b@,
{
    let mut i: usize = 0;
    while i < 48
        invariant
            i <= 48,
            forall|k: int| 0 <= k < i ==> a@[k] == b@[k],
        decreases 48 - i,
    {
        if a[i] != b[i] {
            return false;
        }
        i = i + 1;
    }
    proof {
        assert(a@ =~= b@);
    }
    true
}

/// Key chain soundness: every key the chain reports as known is reachable
/// from the root by a path of valid predecessor signatures, because a
/// well-formed chain verifies every link and `extend` rejects any proof
/// that does not verify.
pub proof fn lemma_chain_sound(c: SectionChain, key: BlsPublicKeyBytes)
    requires
        c.wf(),
        c.is_known_spec(key),
    ensures
        exists|i: int|
            {
                &&& 0 <= i < c.keys@.len()
                &&& c.keys@[i]@ == key@
                &&& forall|j: int|
                    0 <= j < i ==> sig_valid(c.keys@[j]@, c.sigs@[j]@, c.keys@[j + 1]@)
            },
{
    let i = choose|i: int| 0 <= i < c.keys@.len() && c.keys@[i]@ == key@;
    assert(forall|j: int| 0 <= j < i ==> sig_valid(c.keys@[j]@, c.sigs@[j]@, c.keys@[j + 1]@));
}

} // verus!
