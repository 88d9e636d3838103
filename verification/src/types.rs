//! Plain-value models of the identities, keys and signatures that the
//! routing logic reads. BLS keys and signatures are carried as their
//! fixed-size compressed byte forms; the cryptography itself stays behind
//! trusted wrappers.

use vstd::prelude::*;
use crate::name::{Prefix, XorName};

verus! {

/// Compressed BLS public key bytes.
pub type BlsPublicKeyBytes = [u8; 48];

/// Compressed BLS signature bytes.
pub type BlsSignatureBytes = [u8; 96];

/// A transport address of a peer, kept as plain values.
#[derive(Clone, Copy, Debug, Eq, PartialEq, Hash, Structural)]
pub struct PeerAddr {
    /// IPv4 address bytes.
    pub ip: u32,
    /// UDP/TCP port.
    pub port: u16,
}

/// A peer: its network name, address and age.
#[derive(Clone, Copy, Debug, Eq, PartialEq)]
pub struct Peer {
    /// Routing name of the peer.
    pub name: XorName,
    /// Where the peer can be reached.
    pub addr: PeerAddr,
    /// Relocation age of the peer.
    pub age: u8,
}

/// A signature together with the public key that is claimed to verify it.
#[derive(Clone, Copy, Debug, Eq, PartialEq)]
pub struct KeyedSig {
    /// The key the signature is claimed to verify under.
    pub public_key: BlsPublicKeyBytes,
    /// The signature bytes.
    pub signature: BlsSignatureBytes,
}

/// A value together with the section signature vouching for it.
#[derive(Clone, Debug, Eq, PartialEq)]
pub struct SectionSigned<T> {
    /// The signed value.
    pub value: T,
    /// The section signature over the value.
    pub sig: KeyedSig,
}

/// The authority of a section: its prefix, elder committee and current key.
#[derive(Clone, Debug, Eq, PartialEq)]
pub struct SectionAuthorityProvider {
    /// The part of the address space this section owns.
    pub prefix: Prefix,
    /// The current elder committee.
    pub elders: Vec<Peer>,
    /// The section's current BLS public key.
    pub public_key: BlsPublicKeyBytes,
}

impl SectionAuthorityProvider {
    /// Well-formedness: the prefix fits the address width and every elder
    /// name lies under it.
    pub open spec fn wf(self) -> bool {
        &&& self.prefix.wf()
        &&& forall|i: int|
            0 <= i < self.elders@.len() ==> self.prefix.matches_spec(self.elders@[i].name@)
    }

    /// The names of the elders, in committee order.
    pub fn elder_names(&self) -> (r: Vec<XorName>)
        ensures
            r@.len() == self.elders@.len(),
            forall|i: int| 0 <= i < r@.len() ==> r@[i] == self.elders@[i].name,
    {
        let mut names: Vec<XorName> = Vec::new();
        let mut i: usize = 0;
        while i < self.elders.len()
            invariant
                i <= self.elders@.len(),
                names@.len() == i,
                forall|k: int| 0 <= k < i ==> names@[k] == self.elders@[k].name,
            decreases self.elders@.len() - i,
        {
            names.push(self.elders[i].name);
            i = i + 1;
        }
        names
    }
}

} // verus!
