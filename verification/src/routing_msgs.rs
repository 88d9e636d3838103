//! Plain-value model of the node-to-node routing surface: the envelope, its
//! source authority, its destination, and the join and relocation payloads.

use vstd::prelude::*;
use crate::chain::SectionChain;
use crate::name::{Prefix, XorName};
use crate::prefix_map::OtherSection;
use crate::types::{BlsPublicKeyBytes, BlsSignatureBytes, KeyedSig, Peer, PeerAddr};

verus! {

/// Why a join request was turned down.
#[derive(Clone, Copy, Debug, Eq, PartialEq, Structural)]
pub enum JoinRejectionReason {
    /// The section could not reach the candidate.
    NodeNotReachable,
    /// The section takes no new members now.
    JoinsDisallowed,
}

/// A section's elder committee and prefix.
#[derive(Clone, Debug, Eq, PartialEq)]
pub struct EldersInfo {
    /// The part of the address space the committee serves.
    pub prefix: Prefix,
    /// The committee.
    pub elders: Vec<Peer>,
}

/// What an approved node needs to start serving: the committee it joined
/// and the section key.
#[derive(Clone, Debug, Eq, PartialEq)]
pub struct GenesisPfxInfo {
    /// The committee.
    pub elders_info: EldersInfo,
    /// The section's current key.
    pub section_key: BlsPublicKeyBytes,
}

/// The content of a relocation directive.
#[derive(Clone, Copy, Debug, Eq, PartialEq)]
pub struct RelocateDetails {
    /// The name the node had.
    pub previous_name: XorName,
    /// Where the node must go.
    pub destination: XorName,
    /// The age the node restarts with.
    pub age: u8,
}

/// A relocation directive signed by the issuing section.
#[derive(Clone, Copy, Debug, Eq, PartialEq)]
pub struct SignedRelocateDetails {
    /// The directive.
    pub details: RelocateDetails,
    /// The issuing section's signature over the directive's byte form.
    pub sig: KeyedSig,
}

impl SignedRelocateDetails {
    /// The byte form the issuing section signs: previous name, destination,
    /// then the age.
    pub open spec fn signed_bytes_spec(self) -> Seq<u8> {
        self.details.previous_name@ + self.details.destination@ + seq![self.details.age]
    }

    /// Builds the byte form the issuing section signs.
    pub fn signed_bytes(&self) -> (r: Vec<u8>)
        ensures
            r@ == self.signed_bytes_spec(),
    {
        let mut bytes: Vec<u8> = Vec::new();
        bytes.extend_from_slice(&self.details.previous_name.0);
        bytes.extend_from_slice(&self.details.destination.0);
        bytes.push(self.details.age);
        proof {
            assert(bytes@ =~= self.signed_bytes_spec());
        }
        bytes
    }
}

/// What a relocated node presents when joining its target section.
#[derive(Clone, Copy, Debug, Eq, PartialEq)]
pub struct RelocatePayload {
    /// The signed directive it was relocated under.
    pub details: SignedRelocateDetails,
}

/// A candidate's answer to a resource-proof challenge.
#[derive(Clone, Copy, Debug, Eq, PartialEq, Structural)]
pub struct ResourceProofResponse {
    /// The challenge it answers.
    pub nonce: u64,
    /// The claimed solution.
    pub solution: u64,
}

/// A request to join a section as a new member.
#[derive(Clone, Copy, Debug, Eq, PartialEq)]
pub struct JoinRequest {
    /// The section key the candidate believes current.
    pub section_key: BlsPublicKeyBytes,
    /// The candidate's answer to the resource-proof challenge, once it has
    /// one.
    pub resource_proof_response: Option<ResourceProofResponse>,
}

/// A request to join a section as a relocated member.
#[derive(Clone, Copy, Debug, Eq, PartialEq)]
pub struct JoinAsRelocatedRequest {
    /// The relocation the candidate was sent here under.
    pub relocate_payload: RelocatePayload,
}

/// A bootstrapping peer's answer from the contacted node.
#[derive(Clone, Debug, Eq, PartialEq)]
pub enum BootstrapResponse {
    /// Join this committee.
    Join(EldersInfo),
    /// Try again against these peers.
    Rebootstrap(Vec<PeerAddr>),
}

/// A joining peer's answer from the section.
#[derive(Clone, Debug, Eq, PartialEq)]
pub enum JoinResponse {
    /// The candidate is in; here is the section.
    Approval(GenesisPfxInfo),
    /// The committee changed; aim at this one instead.
    Retry(EldersInfo),
    /// The candidate is not taken.
    Rejected(JoinRejectionReason),
    /// Solve this first.
    ResourceChallenge {
        /// The challenge.
        nonce: u64,
    },
}

/// The body of a routing message.
#[derive(Clone, Debug, Eq, PartialEq)]
pub enum Variant {
    /// User-facing payload.
    UserMessage(Vec<u8>),
    /// A bootstrapping peer asks where to join.
    BootstrapRequest(XorName),
    /// The answer to a bootstrap request.
    BootstrapResponse(BootstrapResponse),
    /// A candidate asks to join.
    JoinRequest(JoinRequest),
    /// The section's answer to a join request.
    JoinResponse(JoinResponse),
    /// A relocated candidate asks to join.
    JoinAsRelocatedRequest(JoinAsRelocatedRequest),
    /// A section orders a node to relocate.
    Relocate(SignedRelocateDetails),
    /// The receiver could not verify a message and asks for a longer chain.
    Bounce {
        /// The key version the bouncing node knows, when it has one.
        elders_version: Option<u64>,
        /// The undeliverable message's bytes.
        message: Vec<u8>,
    },
    /// A chain extension proving newer section keys, with the message it
    /// should make verifiable.
    SectionKnowledge {
        /// The proving sub-chain.
        chain: SectionChain,
        /// The message to retry, when one is carried.
        message: Vec<u8>,
    },
    /// One elder's signature share over an accumulating message.
    MessageSignature {
        /// The payload being signed.
        payload: Vec<u8>,
        /// The key generation the share belongs to.
        key_index: u64,
        /// The signing elder's share index.
        signer: u64,
        /// The share.
        share: BlsSignatureBytes,
    },
    /// News about another section.
    NeighbourInfo(OtherSection),
    /// A liveness probe.
    Ping,
}

impl Variant {
    /// A short name of the message body, for log lines.
    pub fn describe(&self) -> (r: String)
        ensures
            match self {
                Variant::UserMessage(_) => r@ =~= "UserMessage"@,
                Variant::BootstrapRequest(_) => r@ =~= "BootstrapRequest"@,
                Variant::BootstrapResponse(_) => r@ =~= "BootstrapResponse"@,
                Variant::JoinRequest(_) => r@ =~= "JoinRequest"@,
                Variant::JoinResponse(_) => r@ =~= "JoinResponse"@,
                Variant::JoinAsRelocatedRequest(_) => r@ =~= "JoinAsRelocatedRequest"@,
                Variant::Relocate(_) => r@ =~= "Relocate"@,
                Variant::Bounce { .. } => r@ =~= "Bounce"@,
                Variant::SectionKnowledge { .. } => r@ =~= "SectionKnowledge"@,
                Variant::MessageSignature { .. } => r@ =~= "MessageSignature"@,
                Variant::NeighbourInfo(_) => r@ =~= "NeighbourInfo"@,
                Variant::Ping => r@ =~= "Ping"@,
            },
    {
        let s: &str = match self {
            Variant::UserMessage(_) => "UserMessage",
            Variant::BootstrapRequest(_) => "BootstrapRequest",
            Variant::BootstrapResponse(_) => "BootstrapResponse",
            Variant::JoinRequest(_) => "JoinRequest",
            Variant::JoinResponse(_) => "JoinResponse",
            Variant::JoinAsRelocatedRequest(_) => "JoinAsRelocatedRequest",
            Variant::Relocate(_) => "Relocate",
            Variant::Bounce { .. } => "Bounce",
            Variant::SectionKnowledge { .. } => "SectionKnowledge",
            Variant::MessageSignature { .. } => "MessageSignature",
            Variant::NeighbourInfo(_) => "NeighbourInfo",
            Variant::Ping => "Ping",
        };
        s.to_owned()
    }
}

/// Who vouches for a routing message.
#[derive(Clone, Copy, Debug, Eq, PartialEq)]
pub enum SrcAuthority {
    /// A single node, signing with its own key.
    Node {
        /// The sender's name.
        name: XorName,
        /// The sender's public key.
        public_key: BlsPublicKeyBytes,
        /// Its signature over the message's signed bytes.
        signature: BlsSignatureBytes,
    },
    /// One elder's share of a section signature; such envelopes feed the
    /// aggregator and are not handled as messages themselves.
    BlsShare {
        /// The key generation.
        key_index: u64,
        /// The signing elder's share index.
        signer: u64,
        /// The share.
        share: BlsSignatureBytes,
    },
    /// A whole section, with an accumulated signature.
    Section {
        /// The accumulated signature and its key.
        sig: KeyedSig,
    },
}

/// Where a routing message is addressed.
#[derive(Clone, Copy, Debug, Eq, PartialEq)]
pub enum RoutingDst {
    /// The single node with this name.
    Node(XorName),
    /// The section owning this address.
    Section(XorName),
    /// Every node under this prefix.
    Prefix(Prefix),
    /// The direct peer, with no routing.
    Direct,
}

impl RoutingDst {
    /// Whether the destination names more than one node.
    pub open spec fn is_multiple_spec(self) -> bool {
        self matches RoutingDst::Section(_) || self matches RoutingDst::Prefix(_)
    }

    /// Returns whether the destination names more than one node.
    pub fn is_multiple(&self) -> (r: bool)
        ensures
            r == self.is_multiple_spec(),
    {
        match self {
            RoutingDst::Section(_) => true,
            RoutingDst::Prefix(_) => true,
            _ => false,
        }
    }
}

/// A routing message, decoded: its source authority, destination, body,
/// and the byte form its signatures cover.
#[derive(Clone, Debug, Eq, PartialEq)]
pub struct Message {
    /// Who vouches for it.
    pub src: SrcAuthority,
    /// Where it is going.
    pub dst: RoutingDst,
    /// The body.
    pub variant: Variant,
    /// The byte form the source authority signed.
    pub signed_bytes: Vec<u8>,
}

/// A received message queued with the address it arrived from.
#[derive(Clone, Debug, Eq, PartialEq)]
pub struct QueuedMessage {
    /// The message.
    pub message: Message,
    /// Where it arrived from, when known.
    pub sender: Option<PeerAddr>,
}

} // verus!
