//! The node lifecycle: Bootstrapping, Joining, Approved, Terminated. Covers
//! the join and relocation handshakes, bounce handling with its resend
//! delay, message verification against the section key chain, the relay
//! rule, and per-stage dispatch of inbound routing messages.

use vstd::prelude::*;
use crate::aggregator::{AddShareResult, SignatureAggregator};
use crate::bls::{bls_verify, sig_valid};
use crate::chain::SectionChain;
use crate::name::{Prefix, XorName};
use crate::prefix_map::{Network, OtherSection};
use crate::routing_msgs::{BootstrapResponse, EldersInfo, GenesisPfxInfo, JoinAsRelocatedRequest,
    JoinRejectionReason, JoinRequest, JoinResponse, Message, QueuedMessage, RelocatePayload,
    RoutingDst, SignedRelocateDetails, SrcAuthority, Variant};
use crate::types::{BlsPublicKeyBytes, BlsSignatureBytes, Peer, PeerAddr};

verus! {

/// Delay in milliseconds after which a bounced message is resent.
pub const BOUNCE_RESEND_DELAY_MS: u64 = 1000;

/// How a node connected to the network.
#[derive(Clone, Copy, Debug, Eq, PartialEq, Structural)]
pub enum Connected {
    /// As the first node of a new network.
    First,
    /// As an ordinary new member.
    Normal,
    /// As a relocated member.
    Relocate,
}

/// What the node reports to its owner.
#[derive(Clone, Debug, Eq, PartialEq)]
pub enum Event {
    /// The node connected.
    Connected(Connected),
    /// The node became an elder.
    Promoted,
    /// The node stopped.
    Terminated,
    /// A user message reached the node.
    MessageReceived {
        /// The payload.
        content: Vec<u8>,
    },
    /// Enough signature shares accumulated to form a section signature.
    Aggregated {
        /// The signed payload.
        payload: Vec<u8>,
        /// The combined signature.
        signature: BlsSignatureBytes,
    },
}

/// Collects the events a handler produces.
pub struct EventOutbox {
    /// The events, oldest first.
    pub events: Vec<Event>,
}

impl EventOutbox {
    /// An empty outbox.
    pub fn new() -> (r: EventOutbox)
        ensures
            r.events@.len() == 0,
    {
        EventOutbox { events: Vec::new() }
    }

    /// Records one event.
    pub fn send_event(&mut self, event: Event)
        ensures
            final(self).events@ == old(self).events@.push(event),
    {
        self.events.push(event);
    }
}

/// A command to the transport, recorded instead of performed.
#[derive(Clone, Debug, Eq, PartialEq)]
pub enum TransportCmd {
    /// Contact the configured bootstrap peers.
    Bootstrap,
    /// Drop the connection to this peer.
    Disconnect(PeerAddr),
    /// Send bytes to a client.
    SendToClient {
        /// The client's address.
        addr: PeerAddr,
        /// The bytes.
        msg: Vec<u8>,
        /// The send token the caller tracks it by.
        token: u64,
    },
    /// Send a routing message straight to one peer.
    SendDirect {
        /// The peer.
        addr: PeerAddr,
        /// The body to send.
        variant: Variant,
    },
    /// Send bytes to several peers.
    SendToTargets {
        /// The peers.
        targets: Vec<PeerAddr>,
        /// How many of them must take delivery.
        dg_size: usize,
        /// The bytes.
        msg: Vec<u8>,
    },
    /// Send bytes to a peer after a delay.
    SendLater {
        /// The peer.
        addr: PeerAddr,
        /// The bytes.
        msg: Vec<u8>,
        /// The delay in milliseconds.
        delay_ms: u64,
    },
    /// Serialize a routing body and send it to a peer after a delay.
    SendVariantLater {
        /// The peer.
        addr: PeerAddr,
        /// The body to serialize and send.
        variant: Variant,
        /// The delay in milliseconds.
        delay_ms: u64,
    },
    /// Serialize a routing message and send it to each target.
    SendRouting {
        /// The peers.
        targets: Vec<PeerAddr>,
        /// The message to serialize and send.
        msg: Message,
    },
}

/// The transport boundary: commands queue here for the runtime to perform.
pub struct Transport {
    /// Commands not yet taken by the runtime, oldest first.
    pub commands: Vec<TransportCmd>,
}

/// The node's timer: hands out tokens and records what was scheduled.
pub struct Timer {
    /// The next unused token.
    pub next_token: u64,
    /// Tokens scheduled and not yet fired.
    pub scheduled: Vec<u64>,
}

/// The node's identity: its routing name and how many identities it has
/// worn. Rebootstrapping generates a fresh identity, modeled by advancing
/// the generation.
#[derive(Clone, Copy, Debug, Eq, PartialEq)]
pub struct FullId {
    /// The current routing name.
    pub name: XorName,
    /// How many identities came before this one.
    pub generation: u64,
}

/// State every stage shares: identity, transport, queues and the clock.
pub struct Core {
    /// The node's identity.
    pub full_id: FullId,
    /// The transport boundary.
    pub transport: Transport,
    /// Verified messages waiting for dispatch.
    pub msg_queue: Vec<QueuedMessage>,
    /// Byte forms of messages already handled, kept to drop repeats.
    pub msg_filter: Vec<Vec<u8>>,
    /// The timer.
    pub timer: Timer,
    /// The runtime's clock in milliseconds, updated by the caller.
    pub now_ms: u64,
}

impl Core {
    /// A fresh core around one identity.
    pub fn new(full_id: FullId, now_ms: u64) -> (r: Core)
        ensures
            r.full_id == full_id,
            r.transport.commands@.len() == 0,
            r.msg_queue@.len() == 0,
            r.msg_filter@.len() == 0,
            r.now_ms == now_ms,
    {
        Core {
            full_id,
            transport: Transport { commands: Vec::new() },
            msg_queue: Vec::new(),
            msg_filter: Vec::new(),
            timer: Timer { next_token: 0, scheduled: Vec::new() },
            now_ms,
        }
    }
}

/// Membership states a section tracks for its members.
#[derive(Clone, Copy, Debug, Eq, PartialEq, Structural)]
pub enum MembershipState {
    /// A current member.
    Joined,
    /// Gone for good.
    Left,
    /// Moved to another section.
    Relocated,
}

/// One roster line of the section.
#[derive(Clone, Copy, Debug, Eq, PartialEq)]
pub struct MemberInfo {
    /// The member.
    pub peer: Peer,
    /// Its membership state.
    pub state: MembershipState,
}

/// The section state an approved node keeps: committee, key history,
/// roster and join policy.
#[derive(Clone, Debug, Eq, PartialEq)]
pub struct Chain {
    /// The current committee.
    pub elders_info: EldersInfo,
    /// The section's key history.
    pub keys: SectionChain,
    /// The roster.
    pub members: Vec<MemberInfo>,
    /// Whether new members are taken now.
    pub joins_allowed: bool,
    /// Signatures of relocation payloads already consumed, so a payload
    /// admits a node at most once.
    pub used_relocations: Vec<BlsSignatureBytes>,
}

impl Chain {
    /// Well-formedness: the prefix fits, the key history verifies, and
    /// every elder stands under the prefix.
    pub open spec fn wf(self) -> bool {
        &&& self.elders_info.prefix.wf()
        &&& self.keys.wf()
        &&& forall|i: int|
            0 <= i < self.elders_info.elders@.len()
                ==> self.elders_info.prefix.matches_spec(
                (#[trigger] self.elders_info.elders@[i]).name@,
            )
    }

    /// The section's current key version: the number of keys that came
    /// before the current one.
    pub open spec fn version_spec(self) -> int {
        self.keys.keys@.len() - 1
    }

    /// Returns the section's current key version.
    pub fn version(&self) -> (r: u64)
        requires
            self.wf(),
        ensures
            r == self.version_spec(),
    {
        (self.keys.len() - 1) as u64
    }

    /// Whether a joined member carries this name.
    pub open spec fn is_joined_member_spec(self, name: XorName) -> bool {
        exists|i: int|
            0 <= i < self.members@.len() && (#[trigger] self.members@[i]).peer.name@ == name@
                && self.members@[i].state == MembershipState::Joined
    }

    /// Returns whether a joined member carries this name.
    pub fn is_joined_member(&self, name: &XorName) -> (r: bool)
        ensures
            r == self.is_joined_member_spec(*name),
    {
        let n = self.members.len();
        let mut i: usize = 0;
        while i < n
            invariant
                i <= n,
                n == self.members@.len(),
                forall|k: int|
                    0 <= k < i ==> !((#[trigger] self.members@[k]).peer.name@ == name@
                        && self.members@[k].state == MembershipState::Joined),
            decreases n - i,
        {
            let m = &self.members[i];
            if m.peer.name.equals(name) && matches!(m.state, MembershipState::Joined) {
                return true;
            }
            i = i + 1;
        }
        false
    }

    /// Whether this relocation signature was consumed already.
    pub open spec fn relocation_used_spec(self, sig: BlsSignatureBytes) -> bool {
        exists|i: int| 0 <= i < self.used_relocations@.len() && self.used_relocations@[i]@ == sig@
    }

    /// Returns whether this relocation signature was consumed already.
    pub fn relocation_used(&self, sig: &BlsSignatureBytes) -> (r: bool)
        ensures
            r == self.relocation_used_spec(*sig),
    {
        let n = self.used_relocations.len();
        let mut i: usize = 0;
        while i < n
            invariant
                i <= n,
                n == self.used_relocations@.len(),
                forall|k: int| 0 <= k < i ==> self.used_relocations@[k]@ != sig@,
            decreases n - i,
        {
            if eq_sig(&self.used_relocations[i], sig) {
                return true;
            }
            i = i + 1;
        }
        false
    }
}

/// Byte-wise comparison of two signature byte forms.
pub fn eq_sig(a: &BlsSignatureBytes, b: &BlsSignatureBytes) -> (r: bool)
    ensures
        r <==> a@ =~= b@,
{
    let mut i: usize = 0;
    while i < 96
        invariant
            i <= 96,
            forall|k: int| 0 <= k < i ==> a@[k] == b@[k],
        decreases 96 - i,
    {
        if a[i] != b[i] {
            return false;
        }
        i = i + 1;
    }
    proof {
        assert(a@ =~= b@);
    }
    true
}

/// The state of a node still looking for a section.
pub struct Bootstrapping {
    /// A relocation to present when joining, when this bootstrap follows
    /// one.
    pub relocate_details: Option<SignedRelocateDetails>,
}

/// The state of a node joining a section.
pub struct Joining {
    /// The committee it is joining.
    pub elders_info: EldersInfo,
    /// The relocation it joins under, when it was relocated here.
    pub relocate_payload: Option<RelocatePayload>,
}

/// The state of an approved member.
pub struct Approved {
    /// The section state.
    pub chain: Chain,
    /// What we know of the rest of the network.
    pub network: Network,
    /// Collects signature shares of accumulating messages, once the node
    /// has a key set to verify them against.
    pub aggregator: Option<SignatureAggregator>,
    /// Version of the consensus engine's last agreement.
    pub parsec_version: u64,
    /// Consensus observations voted for and not yet polled.
    pub unpolled: Vec<Vec<u8>>,
}

/// The node lifecycle.
pub enum Stage {
    /// Looking for a section.
    Bootstrapping(Bootstrapping),
    /// Joining one.
    Joining(Joining),
    /// Serving as a member.
    Approved(Approved),
    /// Stopped for good.
    Terminated,
}

impl Stage {
    /// Whether the node serves as an approved member.
    pub open spec fn is_approved_spec(self) -> bool {
        self matches Stage::Approved(_)
    }
}

/// Everything a paused node needs to resume.
pub struct PausedState {
    /// The approved stage at pause time.
    pub approved: Approved,
    /// The shared state at pause time.
    pub core: Core,
}

/// A node of the network, in whatever stage of its lifecycle.
pub struct ApprovedPeer {
    /// Shared state.
    pub core: Core,
    /// The lifecycle stage.
    pub stage: Stage,
}

/// Well-formedness of an approved stage: section, network view and
/// aggregator are all well formed.
pub open spec fn approved_wf(a: Approved) -> bool {
    &&& a.chain.wf()
    &&& a.network.sections.wf()
    &&& (a.aggregator matches Some(g) ==> g.wf())
}

/// Well-formedness of the node: an approved stage carries a well-formed
/// section, network view and aggregator.
pub open spec fn peer_wf(p: ApprovedPeer) -> bool {
    match p.stage {
        Stage::Approved(a) => approved_wf(a),
        _ => true,
    }
}

impl ApprovedPeer {
    /// The first node of a new network: it forms the first section alone,
    /// owning the whole address space under the given genesis key.
    pub fn first(core: Core, genesis_key: BlsPublicKeyBytes, outbox: &mut EventOutbox) -> (r:
        ApprovedPeer)
        ensures
            peer_wf(r),
            r.stage matches Stage::Approved(a) && a.chain.elders_info.prefix.bit_count == 0
                && a.chain.elders_info.elders@.len() == 1 && a.chain.keys.keys@.len() == 1,
            final(outbox).events@ == old(outbox).events@.push(Event::Connected(Connected::First))
                .push(Event::Promoted),
            r.core.full_id == core.full_id,
    {
        let me = Peer { name: core.full_id.name, addr: PeerAddr { ip: 0, port: 0 }, age: 5 };
        let mut elders: Vec<Peer> = Vec::new();
        elders.push(me);
        let mut members: Vec<MemberInfo> = Vec::new();
        members.push(MemberInfo { peer: me, state: MembershipState::Joined });
        let chain = Chain {
            elders_info: EldersInfo { prefix: Prefix::empty(), elders },
            keys: SectionChain::new(genesis_key),
            members,
            joins_allowed: true,
            used_relocations: Vec::new(),
        };
        let stage = Stage::Approved(
            Approved {
                chain,
                network: Network::new(),
                aggregator: None,
                parsec_version: 0,
                unpolled: Vec::new(),
            },
        );
        outbox.send_event(Event::Connected(Connected::First));
        outbox.send_event(Event::Promoted);
        ApprovedPeer { core, stage }
    }

    /// An ordinary new node: it starts bootstrapping at once.
    pub fn new(core: Core) -> (r: ApprovedPeer)
        ensures
            peer_wf(r),
            r.stage matches Stage::Bootstrapping(b) && b.relocate_details is None,
            r.core.transport.commands@ == core.transport.commands@.push(TransportCmd::Bootstrap),
            r.core.full_id == core.full_id,
    {
        let mut core = core;
        core.transport.commands.push(TransportCmd::Bootstrap);
        ApprovedPeer { core, stage: Stage::Bootstrapping(Bootstrapping { relocate_details: None }) }
    }

    /// Pauses an approved node, handing back everything needed to resume.
    pub fn pause(self) -> (r: PausedState)
        requires
            self.stage is Approved,
            peer_wf(self),
        ensures
            approved_wf(r.approved),
            r.core == self.core,
            self.stage matches Stage::Approved(a) ==> r.approved == a,
    {
        match self.stage {
            Stage::Approved(approved) => PausedState { approved, core: self.core },
            _ => {
                proof {
                    assert(false);
                }
                PausedState {
                    approved: Approved {
                        chain: Chain {
                            elders_info: EldersInfo { prefix: Prefix::empty(), elders: Vec::new() },
                            keys: SectionChain::new([0; 48]),
                            members: Vec::new(),
                            joins_allowed: false,
                            used_relocations: Vec::new(),
                        },
                        network: Network::new(),
                        aggregator: None,
                        parsec_version: 0,
                        unpolled: Vec::new(),
                    },
                    core: self.core,
                }
            },
        }
    }

    /// Resumes a paused node.
    pub fn resume(state: PausedState) -> (r: ApprovedPeer)
        requires
            approved_wf(state.approved),
        ensures
            peer_wf(r),
            r.core == state.core,
            r.stage matches Stage::Approved(a) && a == state.approved,
    {
        ApprovedPeer { core: state.core, stage: Stage::Approved(state.approved) }
    }

    /// Whether the node still runs.
    pub fn is_running(&self) -> (r: bool)
        ensures
            r == !(self.stage matches Stage::Terminated),
    {
        !matches!(self.stage, Stage::Terminated)
    }

    /// The node's identity.
    pub fn id(&self) -> (r: &FullId)
        ensures
            r == &self.core.full_id,
    {
        &self.core.full_id
    }

    /// The node's routing name.
    pub fn name(&self) -> (r: &XorName)
        ensures
            r == &self.core.full_id.name,
    {
        &self.core.full_id.name
    }

    /// The address this node is reachable at; the runtime fills it in, so
    /// a fixed placeholder stands here.
    pub fn our_connection_info(&mut self) -> (r: PeerAddr)
        ensures
            *final(self) == *old(self),
    {
        PeerAddr { ip: 0, port: 0 }
    }

    /// The prefix of the section we serve, once approved.
    pub fn our_prefix(&self) -> (r: Option<&Prefix>)
        ensures
            match r {
                Some(p) => self.stage matches Stage::Approved(a) && *p
                    == a.chain.elders_info.prefix,
                None => !self.stage.is_approved_spec(),
            },
    {
        if let Stage::Approved(stage) = &self.stage {
            Some(&stage.chain.elders_info.prefix)
        } else {
            None
        }
    }

    /// The elders of our section, or nothing while not approved.
    pub fn our_elders(&self) -> (r: Vec<Peer>)
        ensures
            match self.stage {
                Stage::Approved(a) => r@ == a.chain.elders_info.elders@,
                _ => r@.len() == 0,
            },
    {
        match &self.stage {
            Stage::Approved(stage) => clone_peers(&stage.chain.elders_info.elders),
            _ => Vec::new(),
        }
    }

    /// Whether this node has been approved into a section.
    pub fn is_approved(&self) -> (r: bool)
        ensures
            r == self.stage.is_approved_spec(),
    {
        matches!(self.stage, Stage::Approved(_))
    }

    /// The section state, once approved.
    pub fn chain(&self) -> (r: Option<&Chain>)
        ensures
            match r {
                Some(c) => self.stage matches Stage::Approved(a) && *c == a.chain,
                None => !self.stage.is_approved_spec(),
            },
    {
        match &self.stage {
            Stage::Approved(stage) => Some(&stage.chain),
            _ => None,
        }
    }

    /// Whether consensus observations wait to be polled.
    pub fn has_unpolled_observations(&self) -> (r: bool)
        ensures
            r == (self.stage matches Stage::Approved(a) && a.unpolled@.len() > 0),
    {
        match &self.stage {
            Stage::Approved(stage) => stage.unpolled.len() > 0,
            _ => false,
        }
    }

    /// A short human-readable note on the unpolled observations: empty
    /// exactly when there are none.
    pub fn unpolled_observations_string(&self) -> (r: String)
        ensures
            (r@.len() == 0) == !(self.stage matches Stage::Approved(a) && a.unpolled@.len() > 0),
    {
        match &self.stage {
            Stage::Approved(stage) => {
                if stage.unpolled.len() > 0 {
                    let s = unpolled_note();
                    proof {
                        reveal_strlit("unpolled observations");
                    }
                    s
                } else {
                    String::new()
                }
            },
            _ => String::new(),
        }
    }

    /// Whether the peer is one of our elders.
    pub fn is_peer_our_elder(&self, name: &XorName) -> (r: bool)
        ensures
            r == match self.stage {
                Stage::Approved(a) => elders_contain(a.chain.elders_info, *name),
                _ => false,
            },
    {
        match &self.stage {
            Stage::Approved(stage) => {
                let elders = &stage.chain.elders_info.elders;
                let n = elders.len();
                let mut i: usize = 0;
                while i < n
                    invariant
                        i <= n,
                        n == elders@.len(),
                        forall|k: int| 0 <= k < i ==> (#[trigger] elders@[k]).name@ != name@,
                    decreases n - i,
                {
                    if elders[i].name.equals(name) {
                        return true;
                    }
                    i = i + 1;
                }
                false
            },
            _ => false,
        }
    }

    /// Version of the consensus engine's last agreement, zero while not
    /// approved.
    pub fn parsec_last_version(&self) -> (r: u64)
        ensures
            r == match self.stage {
                Stage::Approved(a) => a.parsec_version,
                _ => 0u64,
            },
    {
        match &self.stage {
            Stage::Approved(stage) => stage.parsec_version,
            _ => 0,
        }
    }

    /// Sends serialized bytes to several peers at once.
    pub fn send_msg_to_targets(&mut self, dst_targets: &Vec<PeerAddr>, dg_size: usize, msg: Vec<
        u8,
    >)
        ensures
            final(self).core.transport.commands@.len() == old(self).core.transport.commands@.len()
                + 1,
            final(self).core.transport.commands@.drop_last() == old(self).core.transport.commands@,
            (final(self).core.transport.commands@.last() matches TransportCmd::SendToTargets {
                targets,
                dg_size: d,
                msg: m,
            } && targets@ == dst_targets@ && d == dg_size && m == msg),
            final(self).stage == old(self).stage,
    {
        let targets = clone_addrs(dst_targets);
        let ghost before = self.core.transport.commands@;
        self.core.transport.commands.push(
            TransportCmd::SendToTargets { targets, dg_size, msg },
        );
        proof {
            assert(self.core.transport.commands@.drop_last() =~= before);
        }
    }

    /// Pushes bytes to a connected client.
    pub fn send_message_to_client(&mut self, peer_addr: PeerAddr, msg: Vec<u8>, token: u64)
        ensures
            final(self).core.transport.commands@ == old(self).core.transport.commands@.push(
                (TransportCmd::SendToClient { addr: peer_addr, msg: msg, token: token }),
            ),
            final(self).stage == old(self).stage,
    {
        self.core.transport.commands.push(TransportCmd::SendToClient { addr: peer_addr, msg, token });
    }

    /// Votes for a user-defined event; only an approved node records it.
    pub fn vote_for_user_event(&mut self, event: Vec<u8>)
        ensures
            match old(self).stage {
                Stage::Approved(a) => final(self).stage matches Stage::Approved(a2)
                    && a2.unpolled@ == a.unpolled@.push(event) && a2.chain == a.chain,
                _ => *final(self) == *old(self),
            },
    {
        if let Stage::Approved(stage) = &mut self.stage {
            stage.unpolled.push(event);
        }
    }

    /// Gives an approved node the key set it accumulates signature shares
    /// against; a node in any other stage has no use for one.
    pub fn set_aggregator(&mut self, aggregator: SignatureAggregator)
        requires
            peer_wf(*old(self)),
            aggregator.wf(),
        ensures
            peer_wf(*final(self)),
            old(self).stage is Approved ==> (final(self).stage matches Stage::Approved(a)
                && a.aggregator == Some(aggregator)),
            !(old(self).stage is Approved) ==> *final(self) == *old(self),
    {
        if let Stage::Approved(stage) = &mut self.stage {
            stage.aggregator = Some(aggregator);
        }
    }

    /// Whether this node lies in the destination of a message.
    pub fn in_dst_location(&self, dst: &RoutingDst) -> (r: bool)
        requires
            peer_wf(*self),
            dst_wf(*dst),
        ensures
            r == spec_in_dst_location(*self, *dst),
    {
        match &self.stage {
            Stage::Bootstrapping(_) | Stage::Joining(_) => match dst {
                RoutingDst::Node(name) => name.equals(&self.core.full_id.name),
                RoutingDst::Section(_) | RoutingDst::Prefix(_) => false,
                RoutingDst::Direct => true,
            },
            Stage::Approved(stage) => match dst {
                RoutingDst::Node(name) => name.equals(&self.core.full_id.name),
                RoutingDst::Section(addr) => stage.chain.elders_info.prefix.matches(addr),
                RoutingDst::Prefix(p) => p.is_compatible(&stage.chain.elders_info.prefix),
                RoutingDst::Direct => true,
            },
            Stage::Terminated => false,
        }
    }
}

/// A committee description is valid when its prefix fits the address width
/// and every elder stands under it.
pub open spec fn spec_elders_info_valid(info: EldersInfo) -> bool {
    &&& info.prefix.wf()
    &&& forall|i: int|
        0 <= i < info.elders@.len() ==> info.prefix.matches_spec(
            (#[trigger] info.elders@[i]).name@,
        )
}

/// Checks that a committee description is valid.
pub fn elders_info_valid(info: &EldersInfo) -> (r: bool)
    ensures
        r == spec_elders_info_valid(*info),
{
    if info.prefix.bit_count > 256 {
        return false;
    }
    let n = info.elders.len();
    let mut i: usize = 0;
    while i < n
        invariant
            i <= n,
            n == info.elders@.len(),
            info.prefix.wf(),
            forall|k: int|
                0 <= k < i ==> info.prefix.matches_spec((#[trigger] info.elders@[k]).name@),
        decreases n - i,
    {
        if !info.prefix.matches(&info.elders[i].name) {
            return false;
        }
        i = i + 1;
    }
    true
}

/// The join requests a candidate sends to each target elder.
pub fn join_requests_for(info: &EldersInfo) -> (r: Vec<TransportCmd>)
    ensures
        r@.len() == info.elders@.len(),
{
    let mut out: Vec<TransportCmd> = Vec::new();
    let n = info.elders.len();
    let mut i: usize = 0;
    while i < n
        invariant
            i <= n,
            n == info.elders@.len(),
            out@.len() == i,
        decreases n - i,
    {
        out.push(
            TransportCmd::SendDirect {
                addr: info.elders[i].addr,
                variant: Variant::JoinRequest(
                    JoinRequest { section_key: [0; 48], resource_proof_response: None },
                ),
            },
        );
        i = i + 1;
    }
    out
}

/// When a fresh candidate's join request is accepted: its name falls under
/// the section's prefix, it knows the current section key, it has answered
/// a resource challenge, and joins are allowed.
pub open spec fn spec_join_accepted(a: Approved, name: XorName, req: JoinRequest) -> bool {
    &&& a.chain.elders_info.prefix.matches_spec(name@)
    &&& req.section_key@ == a.chain.keys.keys@.last()@
    &&& req.resource_proof_response is Some
    &&& a.chain.joins_allowed
}

/// Whether the signing key of a relocation directive is one the section
/// trusts for the issuing section: the key of the known section owning the
/// node's previous name, or a key of our own history.
pub open spec fn spec_relocation_key_trusted(a: Approved, d: SignedRelocateDetails) -> bool {
    ||| exists|i: int|
        0 <= i < a.network.sections.entries@.len() && (
        #[trigger] a.network.sections.entries@[i]).prefix_spec().matches_spec(
            d.details.previous_name@,
        ) && a.network.sections.entries@[i].section_auth.value.public_key@ == d.sig.public_key@
    ||| a.chain.keys.is_known_spec(d.sig.public_key)
}

/// When a relocated candidate's payload is accepted: it targets this
/// section, its signature verifies under a trusted key of the issuing
/// section, and it was never consumed before.
pub open spec fn spec_relocation_accepted(a: Approved, req: JoinAsRelocatedRequest) -> bool {
    let d = req.relocate_payload.details;
    &&& a.chain.elders_info.prefix.matches_spec(d.details.destination@)
    &&& spec_relocation_key_trusted(a, d)
    &&& sig_valid(d.sig.public_key@, d.sig.signature@, d.signed_bytes_spec())
    &&& !a.chain.relocation_used_spec(d.sig.signature)
}

/// Checks whether a relocation directive's signing key is trusted.
fn relocation_key_trusted(a: &Approved, d: &SignedRelocateDetails) -> (r: bool)
    requires
        a.chain.wf(),
        a.network.sections.wf(),
    ensures
        r == spec_relocation_key_trusted(*a, *d),
{
    let name = d.details.previous_name;
    match a.network.sections.get_matching(&name) {
        Some(other) => {
            if crate::chain::eq_key(&other.section_auth.value.public_key, &d.sig.public_key) {
                proof {
                    let entries = a.network.sections.entries@;
                    let w = choose|w: int| 0 <= w < entries.len() && entries[w] == *other;
                    assert(entries[w].prefix_spec().matches_spec(name@));
                }
                return true;
            }
            let ghost oth = *other;
            if a.chain.keys.is_known(&d.sig.public_key) {
                return true;
            }
            proof {
                let entries = a.network.sections.entries@;
                if exists|j: int|
                    0 <= j < entries.len() && (#[trigger] entries[j]).prefix_spec().matches_spec(
                        name@,
                    ) && entries[j].section_auth.value.public_key@ == d.sig.public_key@ {
                    let j = choose|j: int|
                        0 <= j < entries.len() && (
                        #[trigger] entries[j]).prefix_spec().matches_spec(name@)
                            && entries[j].section_auth.value.public_key@ == d.sig.public_key@;
                    let w = choose|w: int| 0 <= w < entries.len() && entries[w] == oth;
                    if j != w {
                        crate::prefix_map::lemma_prefix_map_disjoint(
                            a.network.sections,
                            w,
                            j,
                            name@,
                        );
                    }
                    assert(false);
                }
            }
            false
        },
        None => {
            if a.chain.keys.is_known(&d.sig.public_key) {
                return true;
            }
            false
        },
    }
}

/// A destination is well formed when a prefix destination fits the address
/// width.
pub open spec fn dst_wf(dst: RoutingDst) -> bool {
    match dst {
        RoutingDst::Prefix(p) => p.wf(),
        _ => true,
    }
}

/// Whether some elder of the committee carries exactly this name value.
pub open spec fn elders_have_name(info: EldersInfo, n: XorName) -> bool {
    exists|e: int| 0 <= e < info.elders@.len() && (#[trigger] info.elders@[e]).name == n
}

/// Whether the committee contains an elder of this name.
pub open spec fn elders_contain(info: EldersInfo, name: XorName) -> bool {
    exists|i: int| 0 <= i < info.elders@.len() && (#[trigger] info.elders@[i]).name@ == name@
}

/// Whether this node lies in the destination: before approval only its own
/// name and direct messages count; approved, its section's prefix decides
/// for section and prefix destinations.
pub open spec fn spec_in_dst_location(p: ApprovedPeer, dst: RoutingDst) -> bool {
    match p.stage {
        Stage::Bootstrapping(_) | Stage::Joining(_) => match dst {
            RoutingDst::Node(name) => name@ == p.core.full_id.name@,
            RoutingDst::Direct => true,
            _ => false,
        },
        Stage::Approved(a) => match dst {
            RoutingDst::Node(name) => name@ == p.core.full_id.name@,
            RoutingDst::Section(addr) => a.chain.elders_info.prefix.matches_spec(addr@),
            RoutingDst::Prefix(q) => q.compatible_spec(a.chain.elders_info.prefix),
            RoutingDst::Direct => true,
        },
        Stage::Terminated => false,
    }
}

/// An error the routing layer reports to its caller.
#[derive(Clone, Copy, Debug, Eq, PartialEq, Structural)]
pub enum RoutingError {
    /// The destination is not one that can be routed to.
    BadLocation,
}

/// Where a message may originate, at the routing layer.
#[derive(Clone, Copy, Debug, Eq, PartialEq)]
pub enum MsgSrcLocation {
    /// A single node.
    Node(XorName),
    /// A whole section.
    Section(Prefix),
}

/// A peer at the transport, client or node.
#[derive(Clone, Copy, Debug, Eq, PartialEq)]
pub enum TransportPeer {
    /// A client connection.
    Client(PeerAddr),
    /// A node connection.
    Node(PeerAddr),
}

/// An instruction from the node's owner.
pub enum Action {
    /// Send a user message.
    SendMessage {
        /// Where to send it.
        dst: RoutingDst,
        /// The payload.
        content: Vec<u8>,
    },
    /// A timer fired.
    HandleTimeout(u64),
    /// Drop a client connection.
    DisconnectClient {
        /// The client.
        peer_addr: PeerAddr,
    },
    /// Push bytes to a client.
    SendMessageToClient {
        /// The client.
        peer_addr: PeerAddr,
        /// The bytes.
        msg: Vec<u8>,
        /// The send token the caller tracks it by.
        token: u64,
    },
}

/// An event from the transport, with message bytes already decoded; bytes
/// that did not decode arrive as `None`.
pub enum NetworkEvent {
    /// A bootstrap connection succeeded.
    BootstrappedTo {
        /// The contacted node.
        node: PeerAddr,
    },
    /// No bootstrap contact could be reached.
    BootstrapFailure,
    /// A connection was established.
    ConnectedTo {
        /// The peer.
        peer: TransportPeer,
    },
    /// A connection failed.
    ConnectionFailure {
        /// The peer.
        peer: TransportPeer,
    },
    /// A message arrived.
    NewMessage {
        /// The peer it arrived from.
        peer: TransportPeer,
        /// The decoded message, or `None` when the bytes did not decode.
        msg: Option<Message>,
    },
    /// A send could not be delivered.
    UnsentUserMessage {
        /// The peer.
        peer: TransportPeer,
        /// The bytes.
        msg: Vec<u8>,
        /// The send token.
        token: u64,
    },
    /// A send was delivered.
    SentUserMessage {
        /// The peer.
        peer: TransportPeer,
        /// The bytes.
        msg: Vec<u8>,
        /// The send token.
        token: u64,
    },
    /// Stop the node for good.
    Finish,
}

/// What verifying a message means: a node-signed message must verify under
/// the sender's own key; a section-signed message must verify under its
/// carried key, which an approved node additionally requires to stand in
/// its chain; share-carrying envelopes feed the aggregator and pass here.
pub open spec fn spec_verify_message(p: ApprovedPeer, msg: Message) -> bool {
    match msg.src {
        SrcAuthority::Node { public_key, signature, .. } => sig_valid(
            public_key@,
            signature@,
            msg.signed_bytes@,
        ),
        SrcAuthority::Section { sig } => {
            let key_ok = match p.stage {
                Stage::Approved(a) => a.chain.keys.is_known_spec(sig.public_key),
                _ => true,
            };
            key_ok && sig_valid(sig.public_key@, sig.signature@, msg.signed_bytes@)
        },
        SrcAuthority::BlsShare { .. } => true,
    }
}

/// Which message bodies a stage is ready to handle.
pub open spec fn spec_should_handle_message(p: ApprovedPeer, msg: Message) -> bool {
    match p.stage {
        Stage::Bootstrapping(_) => msg.variant matches Variant::BootstrapResponse(_)
            || msg.variant matches Variant::Bounce { .. },
        Stage::Joining(_) => msg.variant matches Variant::BootstrapResponse(
            BootstrapResponse::Join(_),
        ) || msg.variant matches Variant::JoinResponse(_) || msg.variant matches Variant::Bounce {
            ..
        },
        Stage::Approved(_) => !(msg.variant matches Variant::BootstrapResponse(_))
            && !(msg.variant matches Variant::JoinResponse(_)),
        Stage::Terminated => false,
    }
}

/// The transport commands only grow: what stood queued before a handler
/// ran still stands, in place, afterwards.
pub open spec fn commands_extended(pre: Seq<TransportCmd>, post: Seq<TransportCmd>) -> bool {
    pre.len() <= post.len() && forall|i: int| 0 <= i < pre.len() ==> #[trigger] post[i] == pre[i]
}

/// The reported events only grow.
pub open spec fn events_extended(pre: Seq<Event>, post: Seq<Event>) -> bool {
    pre.len() <= post.len() && forall|i: int| 0 <= i < pre.len() ==> #[trigger] post[i] == pre[i]
}

/// Whether this message's byte form was handled before.
pub open spec fn spec_filtered(p: ApprovedPeer, bytes: Seq<u8>) -> bool {
    exists|i: int| 0 <= i < p.core.msg_filter@.len() && p.core.msg_filter@[i]@ == bytes
}

/// Whether a freshly arrived message is taken for handling: it is ours,
/// was not handled before, the stage expects its body, and its source
/// authority verifies. Exactly then it enters the queue and the handled
/// filter, so each message is handled at most once.
pub open spec fn spec_message_taken(p: ApprovedPeer, msg: Message, sender: Option<PeerAddr>) -> bool {
    &&& spec_in_dst_checked(p, msg.dst)
    &&& !spec_filtered(p, msg.signed_bytes@)
    &&& spec_should_handle_message(p, msg)
    &&& spec_verify_message(p, msg)
}

/// Destination membership with an oversized prefix counted as not ours.
pub open spec fn spec_in_dst_checked(p: ApprovedPeer, dst: RoutingDst) -> bool {
    dst_wf(dst) && spec_in_dst_location(p, dst)
}

/// What dispatching one elder's signature share does: with no aggregator
/// nothing changes; with one, the aggregator takes exactly its specified
/// transition on the share (deduplication, rejection of invalid shares,
/// aging, one combination at the threshold), the section state is
/// untouched, and an event carrying the signed payload and the combined
/// signature is emitted exactly when this share completes the threshold.
pub open spec fn spec_share_dispatched(
    pre: ApprovedPeer,
    post: ApprovedPeer,
    outbox_pre: EventOutbox,
    outbox_post: EventOutbox,
    payload: Seq<u8>,
    key_index: u64,
    signer: u64,
    share: BlsSignatureBytes,
    now: u64,
) -> bool {
    match (pre.stage, post.stage) {
        (Stage::Approved(a0), Stage::Approved(a2)) => {
            &&& a2.chain == a0.chain
            &&& a2.network == a0.network
            &&& a2.parsec_version == a0.parsec_version
            &&& a2.unpolled == a0.unpolled
            &&& match a0.aggregator {
                None => a2.aggregator is None && outbox_post == outbox_pre,
                Some(g0) => a2.aggregator matches Some(g2) && {
                    let (entries2, outcome) = crate::aggregator::spec_add_share(
                        g0.pks_bytes@,
                        g0.threshold as int,
                        crate::aggregator::entries_view(g0.entries@),
                        payload,
                        key_index,
                        signer,
                        share@,
                        now,
                    );
                    &&& g2.pks_bytes@ == g0.pks_bytes@
                    &&& g2.threshold == g0.threshold
                    &&& crate::aggregator::entries_view(g2.entries@) == entries2
                    &&& match outcome {
                        crate::aggregator::SpecOutcome::Combined(sig) => {
                            &&& outbox_post.events@.len() == outbox_pre.events@.len() + 1
                            &&& outbox_post.events@.drop_last() == outbox_pre.events@
                            &&& (outbox_post.events@.last() matches Event::Aggregated {
                                payload: p,
                                signature: s,
                            } && p@ == payload && s@ == sig)
                        },
                        _ => outbox_post == outbox_pre,
                    }
                },
            }
        },
        _ => false,
    }
}

/// What handling a fresh candidate's join request does to an approved
/// section: an accepted candidate joins the roster and is sent approval;
/// a refused one changes no membership.
pub open spec fn spec_join_dispatched(
    pre: ApprovedPeer,
    post: ApprovedPeer,
    name: XorName,
    addr: PeerAddr,
    req: JoinRequest,
) -> bool {
    match (pre.stage, post.stage) {
        (Stage::Approved(a0), Stage::Approved(a2)) => {
            &&& (spec_join_accepted(a0, name, req) ==> (a2.chain.is_joined_member_spec(name) && (
            post.core.transport.commands@.last() matches TransportCmd::SendDirect {
                addr: a3,
                variant: Variant::JoinResponse(JoinResponse::Approval(_)),
            } && a3 == addr)))
            &&& (!spec_join_accepted(a0, name, req) ==> a2.chain.members == a0.chain.members)
        },
        _ => false,
    }
}

/// What handling a relocated candidate's join request does: the payload is
/// consumed and the candidate admitted exactly when it is acceptable;
/// anything else changes no membership and consumes nothing.
pub open spec fn spec_relocated_join_dispatched(
    pre: ApprovedPeer,
    post: ApprovedPeer,
    name: XorName,
    addr: PeerAddr,
    req: JoinAsRelocatedRequest,
) -> bool {
    match (pre.stage, post.stage) {
        (Stage::Approved(a0), Stage::Approved(a2)) => {
            &&& (spec_relocation_accepted(a0, req) ==> (a2.chain.relocation_used_spec(
                req.relocate_payload.details.sig.signature,
            ) && a2.chain.is_joined_member_spec(name) && (
            post.core.transport.commands@.last() matches TransportCmd::SendDirect {
                addr: a3,
                variant: Variant::JoinResponse(JoinResponse::Approval(_)),
            } && a3 == addr)))
            &&& (!spec_relocation_accepted(a0, req) ==> (a2.chain.used_relocations
                == a0.chain.used_relocations && a2.chain.members == a0.chain.members))
        },
        _ => false,
    }
}

/// Whether a bounce from this sender gets the original message resent: a
/// node still bootstrapping or joining always resends (it has nothing to
/// prove); an approved node resends only to a member it knows whose stated
/// key version lags its own — a bounce whose version is ahead or unknown
/// is dropped.
pub open spec fn spec_bounce_resends(
    p: ApprovedPeer,
    sender: Peer,
    sender_version: Option<u64>,
) -> bool {
    match p.stage {
        Stage::Bootstrapping(_) | Stage::Joining(_) => true,
        Stage::Approved(a) => a.chain.is_joined_member_spec(sender.name) && (
        sender_version matches Some(v) && v < a.chain.version_spec()),
        Stage::Terminated => false,
    }
}

impl ApprovedPeer {
    /// Carries out one instruction from the node's owner, then works off
    /// the message queue.
    pub fn handle_action(&mut self, action: Action, outbox: &mut EventOutbox) -> (r: Result<
        (),
        RoutingError,
    >)
        requires
            peer_wf(*old(self)),
        ensures
            peer_wf(*final(self)),
            final(self).core.msg_queue@.len() == 0,
            commands_extended(
                old(self).core.transport.commands@,
                final(self).core.transport.commands@,
            ),
            events_extended(old(outbox).events@, final(outbox).events@),
            match action {
                Action::SendMessage { dst, .. } => r == (if dst is Direct {
                    Err::<(), RoutingError>(RoutingError::BadLocation)
                } else {
                    Ok::<(), RoutingError>(())
                }),
                _ => r is Ok,
            },
            match action {
                Action::DisconnectClient { peer_addr } => final(self).core.transport.commands@.len() > old(self).core.transport.commands@.len()
                    && final(self).core.transport.commands@[old(self).core.transport.commands@.len() as int] == TransportCmd::Disconnect(peer_addr),
                Action::SendMessageToClient { peer_addr, msg, token } => final(self).core.transport.commands@.len() > old(self).core.transport.commands@.len()
                    && final(self).core.transport.commands@[old(self).core.transport.commands@.len() as int] == (TransportCmd::SendToClient {
                    addr: peer_addr,
                    msg: msg,
                    token: token,
                }),
                _ => true,
            },
    {
        let result = match action {
            Action::SendMessage { dst, content } => self.handle_send_message(dst, content),
            Action::HandleTimeout(token) => {
                self.handle_timeout(token);
                Ok(())
            },
            Action::DisconnectClient { peer_addr } => {
                self.core.transport.commands.push(TransportCmd::Disconnect(peer_addr));
                Ok(())
            },
            Action::SendMessageToClient { peer_addr, msg, token } => {
                self.send_message_to_client(peer_addr, msg, token);
                Ok(())
            },
        };
        self.finish_handle_input(outbox);
        result
    }

    /// Reacts to one transport event, then works off the message queue.
    pub fn handle_network_event(&mut self, event: NetworkEvent, outbox: &mut EventOutbox)
        requires
            peer_wf(*old(self)),
        ensures
            peer_wf(*final(self)),
            (event matches NetworkEvent::Finish) ==> final(self).stage is Terminated,
            !(event matches NetworkEvent::Finish) ==> final(self).core.msg_queue@.len() == 0,
            commands_extended(
                old(self).core.transport.commands@,
                final(self).core.transport.commands@,
            ),
            events_extended(old(outbox).events@, final(outbox).events@),
            match event {
                NetworkEvent::BootstrappedTo { node } => match old(self).stage {
                    Stage::Bootstrapping(_) => final(self).core.transport.commands@.len() > old(self).core.transport.commands@.len() && final(self).core.transport.commands@[old(self).core.transport.commands@.len() as int] == (TransportCmd::SendDirect {
                        addr: node,
                        variant: Variant::BootstrapRequest(old(self).core.full_id.name),
                    }),
                    Stage::Joining(_) | Stage::Approved(_) => final(self).core.transport.commands@.len() > old(self).core.transport.commands@.len()
                        && final(self).core.transport.commands@[old(self).core.transport.commands@.len() as int] == TransportCmd::Disconnect(node),
                    Stage::Terminated => true,
                },
                NetworkEvent::BootstrapFailure => old(self).stage is Bootstrapping ==> (final(self).stage is Terminated && final(outbox).events@.len() > old(outbox).events@.len()
                    && final(outbox).events@[old(outbox).events@.len() as int]
                    == Event::Terminated),
                _ => true,
            },
    {
        let ghost ev = event;
        match event {
            NetworkEvent::BootstrappedTo { node } => self.handle_bootstrapped_to(node),
            NetworkEvent::BootstrapFailure => {
                if matches!(self.stage, Stage::Bootstrapping(_)) {
                    self.handle_bootstrap_failure(outbox);
                }
            },
            NetworkEvent::ConnectedTo { peer } => match peer {
                TransportPeer::Client(_) => {},
                TransportPeer::Node(peer_addr) => self.handle_connected_to(peer_addr),
            },
            NetworkEvent::ConnectionFailure { peer } => match peer {
                TransportPeer::Client(_) => {},
                TransportPeer::Node(peer_addr) => self.handle_connection_failure(peer_addr),
            },
            NetworkEvent::NewMessage { peer, msg } => match peer {
                TransportPeer::Client(_) => {},
                TransportPeer::Node(peer_addr) => self.handle_new_message(peer_addr, msg),
            },
            NetworkEvent::UnsentUserMessage { peer, .. } => match peer {
                TransportPeer::Client(_) => {},
                TransportPeer::Node(peer_addr) => self.handle_unsent_message(peer_addr),
            },
            NetworkEvent::SentUserMessage { .. } => self.handle_sent_message(),
            NetworkEvent::Finish => {
                self.stage = Stage::Terminated;
                return ;
            },
        }
        let ghost mid_commands = self.core.transport.commands@;
        let ghost mid_events = outbox.events@;
        self.finish_handle_input(outbox);
        proof {
            let c0 = old(self).core.transport.commands@;
            assert(c0.len() <= mid_commands.len());
            assert forall|i: int|
                0 <= i < c0.len() implies #[trigger] self.core.transport.commands@[i]
                == c0[i] by {
                assert(mid_commands[i] == c0[i]);
                assert(self.core.transport.commands@[i] == mid_commands[i]);
            }
            let e0 = old(outbox).events@;
            assert(e0.len() <= mid_events.len());
            assert forall|i: int|
                0 <= i < e0.len() implies #[trigger] outbox.events@[i] == e0[i] by {
                assert(mid_events[i] == e0[i]);
                assert(outbox.events@[i] == mid_events[i]);
            }
            if ev matches NetworkEvent::BootstrappedTo { node } {
                if !(old(self).stage is Terminated) {
                    assert(mid_commands.len() == c0.len() + 1);
                    assert(self.core.transport.commands@[c0.len() as int] == mid_commands[c0.len() as int]);
                }
            }
            if ev is BootstrapFailure && old(self).stage is Bootstrapping {
                assert(mid_events.len() == e0.len() + 1);
                assert(outbox.events@[e0.len() as int] == mid_events[e0.len() as int]);
            }
        }
    }

    /// Works off the queued, verified messages.
    fn finish_handle_input(&mut self, outbox: &mut EventOutbox)
        requires
            peer_wf(*old(self)),
        ensures
            peer_wf(*final(self)),
            final(self).core.msg_queue@.len() == 0,
            commands_extended(
                old(self).core.transport.commands@,
                final(self).core.transport.commands@,
            ),
            events_extended(old(outbox).events@, final(outbox).events@),
            old(self).stage is Terminated ==> final(self).stage is Terminated,
    {
        self.handle_messages(outbox);
    }

    /// Sends a user message from this node. Direct destinations cannot be
    /// routed; a node that has not joined yet cannot send and reports
    /// success without effect, as the callers expect.
    fn handle_send_message(&mut self, dst: RoutingDst, content: Vec<u8>) -> (r: Result<
        (),
        RoutingError,
    >)
        requires
            peer_wf(*old(self)),
        ensures
            peer_wf(*final(self)),
            final(self).stage == old(self).stage,
            final(self).core.msg_queue == old(self).core.msg_queue,
            commands_extended(
                old(self).core.transport.commands@,
                final(self).core.transport.commands@,
            ),
            r == (if dst is Direct {
                Err::<(), RoutingError>(RoutingError::BadLocation)
            } else {
                Ok::<(), RoutingError>(())
            }),
            old(self).stage is Terminated ==> *final(self) == *old(self),
    {
        if matches!(dst, RoutingDst::Direct) {
            return Err(RoutingError::BadLocation);
        }
        match &self.stage {
            Stage::Bootstrapping(_) | Stage::Joining(_) | Stage::Terminated => Ok(()),
            Stage::Approved(_) => {
                let name = self.core.full_id.name;
                let msg = Message {
                    src: SrcAuthority::Node {
                        name,
                        public_key: [0; 48],
                        signature: [0; 96],
                    },
                    dst,
                    variant: Variant::UserMessage(content),
                    signed_bytes: Vec::new(),
                };
                self.push_routing_send(msg);
                Ok(())
            },
        }
    }

    /// A bootstrap connection: a bootstrapping node asks it where to join;
    /// a joined node needs no more bootstrap contacts and disconnects.
    fn handle_bootstrapped_to(&mut self, addr: PeerAddr)
        requires
            peer_wf(*old(self)),
        ensures
            peer_wf(*final(self)),
            final(self).stage == old(self).stage,
            match old(self).stage {
                Stage::Bootstrapping(_) => final(self).core.transport.commands@ == old(self).core.transport.commands@.push(
                    (TransportCmd::SendDirect {
                        addr,
                        variant: Variant::BootstrapRequest(old(self).core.full_id.name),
                    }),
                ),
                Stage::Joining(_) | Stage::Approved(_) => final(self).core.transport.commands@
                    == old(self).core.transport.commands@.push(
                    (TransportCmd::Disconnect(addr)),
                ),
                Stage::Terminated => final(self).core.transport.commands@ == old(self).core.transport.commands@,
            },
    {
        match &self.stage {
            Stage::Bootstrapping(_) => {
                let variant = Variant::BootstrapRequest(self.core.full_id.name);
                self.core.transport.commands.push(TransportCmd::SendDirect { addr, variant });
            },
            Stage::Joining(_) | Stage::Approved(_) => {
                self.core.transport.commands.push(TransportCmd::Disconnect(addr));
            },
            Stage::Terminated => {},
        }
    }

    /// Bootstrapping failed for good: report and stop.
    fn handle_bootstrap_failure(&mut self, outbox: &mut EventOutbox)
        requires
            old(self).stage is Bootstrapping,
        ensures
            final(self).stage is Terminated,
            final(self).core == old(self).core,
            final(outbox).events@ == old(outbox).events@.push(Event::Terminated),
    {
        outbox.send_event(Event::Terminated);
        self.stage = Stage::Terminated;
    }

    /// A new connection needs no reaction of its own: messages on it speak
    /// for themselves.
    fn handle_connected_to(&mut self, _addr: PeerAddr)
        ensures
            *final(self) == *old(self),
    {
    }

    /// A failed connection: the roster consequences arrive as their own
    /// membership events, so nothing changes here.
    fn handle_connection_failure(&mut self, _addr: PeerAddr)
        ensures
            *final(self) == *old(self),
    {
    }

    /// A message arrived from a node; bytes that did not decode come as
    /// `None` and are dropped.
    fn handle_new_message(&mut self, sender: PeerAddr, msg: Option<Message>)
        requires
            peer_wf(*old(self)),
        ensures
            peer_wf(*final(self)),
            msg is None ==> *final(self) == *old(self),
            final(self).stage == old(self).stage,
            commands_extended(
                old(self).core.transport.commands@,
                final(self).core.transport.commands@,
            ),
    {
        if let Some(msg) = msg {
            self.try_handle_message(Some(sender), msg);
        }
    }

    /// A send could not be delivered; the peer-loss consequences arrive as
    /// their own membership events.
    fn handle_unsent_message(&mut self, _addr: PeerAddr)
        ensures
            *final(self) == *old(self),
    {
    }

    /// A send was delivered; the transport tracks its own tokens, so there
    /// is nothing to record.
    fn handle_sent_message(&mut self)
        ensures
            *final(self) == *old(self),
    {
    }

    /// A timer fired. A joining node that timed out starts over with a
    /// fresh identity.
    pub fn handle_timeout(&mut self, token: u64)
        requires
            peer_wf(*old(self)),
        ensures
            peer_wf(*final(self)),
            (old(self).stage is Joining) ==> (final(self).stage matches Stage::Bootstrapping(b)
                && b.relocate_details is None && final(self).core.full_id.generation == (if old(self).core.full_id.generation < u64::MAX {
                (old(self).core.full_id.generation + 1) as u64
            } else {
                u64::MAX
            }) && final(self).core.transport.commands@ == old(self).core.transport.commands@.push(TransportCmd::Bootstrap)),
            !(old(self).stage is Joining) ==> *final(self) == *old(self),
    {
        match &self.stage {
            Stage::Joining(_) => {
                self.rebootstrap();
            },
            _ => {},
        }
    }

    /// Takes one message from the wire: relays it when it is not only
    /// ours, then handles it when it is ours, new, expected and verified,
    /// and bounces it otherwise.
    pub fn try_handle_message(&mut self, sender: Option<PeerAddr>, msg: Message)
        requires
            peer_wf(*old(self)),
        ensures
            peer_wf(*final(self)),
            final(self).stage == old(self).stage,
            final(self).core.full_id == old(self).core.full_id,
            commands_extended(
                old(self).core.transport.commands@,
                final(self).core.transport.commands@,
            ),
            spec_message_taken(*old(self), msg, sender) ==> (final(self).core.msg_queue@ == old(self).core.msg_queue@.push((QueuedMessage { message: msg, sender })) && final(self).core.msg_filter@.len() == old(self).core.msg_filter@.len() + 1 && final(self).core.msg_filter@.last()@ == msg.signed_bytes@ && final(self).core.msg_filter@.drop_last() == old(self).core.msg_filter@),
            !spec_message_taken(*old(self), msg, sender) ==> (final(self).core.msg_queue == old(self).core.msg_queue && final(self).core.msg_filter == old(self).core.msg_filter),
            (spec_in_dst_checked(*old(self), msg.dst) && !spec_filtered(
                *old(self),
                msg.signed_bytes@,
            ) && !(spec_should_handle_message(*old(self), msg) && spec_verify_message(
                *old(self),
                msg,
            )) && sender is Some && !(old(self).stage is Terminated)) ==> (final(self).core.transport.commands@.len() > old(self).core.transport.commands@.len() && (
            final(self).core.transport.commands@.last() matches TransportCmd::SendDirect {
                addr,
                variant: Variant::Bounce { .. },
            } && Some(addr) == sender)),
            spec_in_dst_checked(*old(self), msg.dst) && !msg.dst.is_multiple_spec() && (
            spec_filtered(*old(self), msg.signed_bytes@) || spec_message_taken(
                *old(self),
                msg,
                sender,
            )) ==> final(self).core.transport.commands@ == old(self).core.transport.commands@,
    {
        self.try_relay_message(sender, &msg);
        let in_dst = self.in_dst_location_checked(&msg.dst);
        if !in_dst {
            return ;
        }
        if self.filter_contains(&msg.signed_bytes) {
            return ;
        }
        if self.should_handle_message(&msg) && self.verify_message(&msg) {
            let bytes = clone_bytes(&msg.signed_bytes);
            self.core.msg_filter.push(bytes);
            self.core.msg_queue.push(QueuedMessage { message: msg, sender });
        } else {
            self.unhandled_message(sender, msg);
        }
    }

    /// Relays the message when its destination is not only this node.
    fn try_relay_message(&mut self, sender: Option<PeerAddr>, msg: &Message)
        requires
            peer_wf(*old(self)),
        ensures
            peer_wf(*final(self)),
            final(self).stage == old(self).stage,
            final(self).core.msg_queue == old(self).core.msg_queue,
            final(self).core.msg_filter == old(self).core.msg_filter,
            final(self).core.full_id == old(self).core.full_id,
            commands_extended(old(self).core.transport.commands@, final(self).core.transport.commands@),
            spec_in_dst_checked(*old(self), msg.dst) && !msg.dst.is_multiple_spec() ==> final(self).core.transport.commands@ == old(self).core.transport.commands@,
    {
        let in_dst = self.in_dst_location_checked(&msg.dst);
        if !in_dst || msg.dst.is_multiple() {
            self.relay_message(sender, msg);
        }
    }

    /// Relays closer to the destination: a node not yet approved can only
    /// bounce the message back to its sender; an approved node passes it
    /// to its elders.
    fn relay_message(&mut self, sender: Option<PeerAddr>, msg: &Message)
        requires
            peer_wf(*old(self)),
        ensures
            peer_wf(*final(self)),
            final(self).stage == old(self).stage,
            final(self).core.msg_queue == old(self).core.msg_queue,
            final(self).core.msg_filter == old(self).core.msg_filter,
            final(self).core.full_id == old(self).core.full_id,
            commands_extended(old(self).core.transport.commands@, final(self).core.transport.commands@),
    {
        match &self.stage {
            Stage::Bootstrapping(_) | Stage::Joining(_) => {
                if let Some(addr) = sender {
                    let message = clone_bytes(&msg.signed_bytes);
                    let variant = Variant::Bounce { elders_version: None, message };
                    self.core.transport.commands.push(TransportCmd::SendDirect { addr, variant });
                }
            },
            Stage::Approved(_) => {
                let m = Message {
                    src: msg.src,
                    dst: msg.dst,
                    variant: clone_variant(&msg.variant),
                    signed_bytes: clone_bytes(&msg.signed_bytes),
                };
                self.push_routing_send(m);
            },
            Stage::Terminated => {},
        }
    }

    /// Queues a routing message for delivery to our elders, the relay
    /// targets.
    fn push_routing_send(&mut self, msg: Message)
        requires
            peer_wf(*old(self)),
        ensures
            peer_wf(*final(self)),
            final(self).stage == old(self).stage,
            final(self).core.msg_queue == old(self).core.msg_queue,
            final(self).core.msg_filter == old(self).core.msg_filter,
            final(self).core.full_id == old(self).core.full_id,
            final(self).core.transport.commands@.len() == old(self).core.transport.commands@.len() + 1,
            commands_extended(old(self).core.transport.commands@, final(self).core.transport.commands@),
    {
        let targets: Vec<PeerAddr> = match &self.stage {
            Stage::Approved(stage) => {
                let elders = &stage.chain.elders_info.elders;
                let mut out: Vec<PeerAddr> = Vec::new();
                let mut i: usize = 0;
                while i < elders.len()
                    invariant
                        i <= elders@.len(),
                        out@.len() <= i,
                    decreases elders@.len() - i,
                {
                    out.push(elders[i].addr);
                    i = i + 1;
                }
                out
            },
            _ => Vec::new(),
        };
        self.core.transport.commands.push(TransportCmd::SendRouting { targets, msg });
    }

    /// Whether this stage is ready to handle this message body.
    pub fn should_handle_message(&self, msg: &Message) -> (r: bool)
        ensures
            r == spec_should_handle_message(*self, *msg),
    {
        match &self.stage {
            Stage::Bootstrapping(_) => match &msg.variant {
                Variant::BootstrapResponse(_) => true,
                Variant::Bounce { .. } => true,
                _ => false,
            },
            Stage::Joining(_) => match &msg.variant {
                Variant::BootstrapResponse(BootstrapResponse::Join(_)) => true,
                Variant::JoinResponse(_) => true,
                Variant::Bounce { .. } => true,
                _ => false,
            },
            Stage::Approved(_) => match &msg.variant {
                Variant::BootstrapResponse(_) => false,
                Variant::JoinResponse(_) => false,
                _ => true,
            },
            Stage::Terminated => false,
        }
    }

    /// Verifies the message's source authority against what this node
    /// knows.
    pub fn verify_message(&self, msg: &Message) -> (r: bool)
        ensures
            r == spec_verify_message(*self, *msg),
    {
        match &msg.src {
            SrcAuthority::Node { public_key, signature, .. } => bls_verify(
                public_key,
                signature,
                &msg.signed_bytes,
            ),
            SrcAuthority::Section { sig } => {
                let key_ok = match &self.stage {
                    Stage::Approved(stage) => stage.chain.keys.is_known(&sig.public_key),
                    _ => true,
                };
                key_ok && bls_verify(&sig.public_key, &sig.signature, &msg.signed_bytes)
            },
            SrcAuthority::BlsShare { .. } => true,
        }
    }

    /// Dispatches every queued message that is still addressed to us.
    pub fn handle_messages(&mut self, outbox: &mut EventOutbox)
        requires
            peer_wf(*old(self)),
        ensures
            peer_wf(*final(self)),
            final(self).core.msg_queue@.len() == 0,
            commands_extended(
                old(self).core.transport.commands@,
                final(self).core.transport.commands@,
            ),
            events_extended(old(outbox).events@, final(outbox).events@),
            old(self).stage is Terminated ==> (final(self).stage is Terminated && final(self).core.transport.commands@ == old(self).core.transport.commands@ && final(outbox).events@ == old(outbox).events@),
    {
        while self.core.msg_queue.len() > 0
            invariant
                peer_wf(*self),
                commands_extended(
                    old(self).core.transport.commands@,
                    self.core.transport.commands@,
                ),
                events_extended(old(outbox).events@, outbox.events@),
                old(self).stage is Terminated ==> (self.stage is Terminated
                    && self.core.transport.commands@ == old(self).core.transport.commands@
                    && outbox.events@ == old(outbox).events@),
            decreases self.core.msg_queue@.len(),
        {
            let qm = self.core.msg_queue.remove(0);
            let in_dst = self.in_dst_location_checked(&qm.message.dst);
            if in_dst {
                self.dispatch_message(qm.sender, qm.message, outbox);
            }
        }
    }

    /// `in_dst_location`, with an oversized prefix destination counted as
    /// not ours.
    fn in_dst_location_checked(&self, dst: &RoutingDst) -> (r: bool)
        requires
            peer_wf(*self),
        ensures
            dst_wf(*dst) ==> r == spec_in_dst_location(*self, *dst),
            !dst_wf(*dst) ==> r == false,
    {
        if let RoutingDst::Prefix(p) = dst {
            if p.bit_count > 256 {
                return false;
            }
        }
        self.in_dst_location(dst)
    }

    /// Bounces a message this node cannot handle or verify back to its
    /// sender, so the sender can prove newer keys and retry.
    fn unhandled_message(&mut self, sender: Option<PeerAddr>, msg: Message)
        requires
            peer_wf(*old(self)),
        ensures
            peer_wf(*final(self)),
            final(self).stage == old(self).stage,
            final(self).core.msg_queue == old(self).core.msg_queue,
            final(self).core.msg_filter == old(self).core.msg_filter,
            final(self).core.full_id == old(self).core.full_id,
            commands_extended(old(self).core.transport.commands@, final(self).core.transport.commands@),
            match (old(self).stage, sender) {
                (Stage::Terminated, _) => final(self).core.transport.commands@ == old(self).core.transport.commands@,
                (_, None) => final(self).core.transport.commands@ == old(self).core.transport.commands@,
                (Stage::Approved(a), Some(addr)) => final(self).core.transport.commands@ == old(self).core.transport.commands@.push(
                    (TransportCmd::SendDirect {
                        addr,
                        variant: Variant::Bounce {
                            elders_version: Some((a.chain.keys.keys@.len() - 1) as u64),
                            message: msg.signed_bytes,
                        },
                    }),
                ),
                (_, Some(addr)) => final(self).core.transport.commands@ == old(self).core.transport.commands@.push(
                    (TransportCmd::SendDirect {
                        addr,
                        variant: Variant::Bounce {
                            elders_version: None,
                            message: msg.signed_bytes,
                        },
                    }),
                ),
            },
    {
        let addr = match sender {
            Some(addr) => addr,
            None => {
                return ;
            },
        };
        match &self.stage {
            Stage::Bootstrapping(_) | Stage::Joining(_) => {
                let variant = Variant::Bounce { elders_version: None, message: msg.signed_bytes };
                self.core.transport.commands.push(TransportCmd::SendDirect { addr, variant });
            },
            Stage::Approved(stage) => {
                let version = stage.chain.version();
                let variant = Variant::Bounce {
                    elders_version: Some(version),
                    message: msg.signed_bytes,
                };
                self.core.transport.commands.push(TransportCmd::SendDirect { addr, variant });
            },
            Stage::Terminated => {},
        }
    }

    /// Decides whether a bounced message is resent to the bouncing peer,
    /// after the fixed delay. A node with nothing to prove resends the
    /// bytes unchanged; an approved node resends only to a known member
    /// whose stated key version lags its own — then together with the
    /// chain extension covering the gap — and drops bounces whose version
    /// is ahead or unknown.
    pub fn handle_bounce(&mut self, sender: Peer, sender_version: Option<u64>, msg_bytes: Vec<u8>)
        requires
            peer_wf(*old(self)),
        ensures
            peer_wf(*final(self)),
            final(self).stage == old(self).stage,
            final(self).core.msg_queue == old(self).core.msg_queue,
            final(self).core.msg_filter == old(self).core.msg_filter,
            final(self).core.full_id == old(self).core.full_id,
            commands_extended(old(self).core.transport.commands@, final(self).core.transport.commands@),
            !spec_bounce_resends(*old(self), sender, sender_version) ==> final(self).core.transport.commands@ == old(self).core.transport.commands@,
            match old(self).stage {
                Stage::Bootstrapping(_) | Stage::Joining(_) => final(self).core.transport.commands@ == old(self).core.transport.commands@.push(
                    (TransportCmd::SendLater {
                        addr: sender.addr,
                        msg: msg_bytes,
                        delay_ms: BOUNCE_RESEND_DELAY_MS,
                    }),
                ),
                Stage::Approved(a) => spec_bounce_resends(*old(self), sender, sender_version)
                    ==> (final(self).core.transport.commands@.len() == old(self).core.transport.commands@.len() + 1 && final(self).core.transport.commands@.drop_last() == old(self).core.transport.commands@
                    && (final(self).core.transport.commands@.last()
                    matches TransportCmd::SendVariantLater {
                    addr,
                    variant: Variant::SectionKnowledge { chain, message },
                    delay_ms,
                } && addr == sender.addr && delay_ms == BOUNCE_RESEND_DELAY_MS && message
                    == msg_bytes && (sender_version matches Some(v) && chain.keys@
                    == a.chain.keys.keys@.subrange(v as int, a.chain.keys.keys@.len() as int)
                    && chain.sigs@ == a.chain.keys.sigs@.subrange(
                    v as int,
                    a.chain.keys.sigs@.len() as int,
                ) && chain.wf()))),
                Stage::Terminated => final(self).core.transport.commands@ == old(self).core.transport.commands@,
            },
    {
        match &self.stage {
            Stage::Bootstrapping(_) | Stage::Joining(_) => {
                self.core.transport.commands.push(
                    TransportCmd::SendLater {
                        addr: sender.addr,
                        msg: msg_bytes,
                        delay_ms: BOUNCE_RESEND_DELAY_MS,
                    },
                );
            },
            Stage::Approved(stage) => {
                if stage.chain.is_joined_member(&sender.name) {
                    let known_version = stage.chain.version();
                    let lagging = match sender_version {
                        Some(v) => v < known_version,
                        None => false,
                    };
                    if lagging {
                        let v = match sender_version {
                            Some(v) => v,
                            None => {
                                return ;
                            },
                        };
                        let total = stage.chain.keys.len();
                        proof {
                            assert(known_version == total - 1);
                            assert((v as int) < total as int);
                            assert(v as usize as int == v as int);
                        }
                        let extension = stage.chain.keys.suffix(v as usize);
                        let ghost before = self.core.transport.commands@;
                        self.core.transport.commands.push(
                            TransportCmd::SendVariantLater {
                                addr: sender.addr,
                                variant: Variant::SectionKnowledge {
                                    chain: extension,
                                    message: msg_bytes,
                                },
                                delay_ms: BOUNCE_RESEND_DELAY_MS,
                            },
                        );
                        proof {
                            assert(self.core.transport.commands@.drop_last() =~= before);
                        }
                    }
                }
            },
            Stage::Terminated => {},
        }
    }

    /// Transition from Bootstrapping to Joining: aim at the given
    /// committee, keeping any relocation to present.
    fn join(&mut self, elders_info: EldersInfo, relocate_payload: Option<RelocatePayload>)
        requires
            peer_wf(*old(self)),
        ensures
            peer_wf(*final(self)),
            final(self).stage matches Stage::Joining(j) && j.elders_info == elders_info
                && j.relocate_payload == relocate_payload,
            final(self).core == old(self).core,
    {
        self.stage = Stage::Joining(Joining { elders_info, relocate_payload });
    }

    /// Transition from Joining to Approved: start serving the section.
    fn approve(&mut self, gen_pfx_info: GenesisPfxInfo, connect_type: Connected, outbox: &mut
        EventOutbox)
        requires
            peer_wf(*old(self)),
            gen_pfx_info.elders_info.prefix.wf(),
            forall|i: int|
                0 <= i < gen_pfx_info.elders_info.elders@.len()
                    ==> gen_pfx_info.elders_info.prefix.matches_spec(
                    (#[trigger] gen_pfx_info.elders_info.elders@[i]).name@,
                ),
        ensures
            peer_wf(*final(self)),
            final(self).stage matches Stage::Approved(a) && a.chain.elders_info
                == gen_pfx_info.elders_info && a.chain.keys.keys@.len() == 1
                && a.chain.keys.keys@[0] == gen_pfx_info.section_key,
            final(self).core == old(self).core,
            final(outbox).events@ == old(outbox).events@.push(Event::Connected(connect_type)),
    {
        let chain = Chain {
            elders_info: gen_pfx_info.elders_info,
            keys: SectionChain::new(gen_pfx_info.section_key),
            members: Vec::new(),
            joins_allowed: true,
            used_relocations: Vec::new(),
        };
        self.stage = Stage::Approved(
            Approved {
                chain,
                network: Network::new(),
                aggregator: None,
                parsec_version: 0,
                unpolled: Vec::new(),
            },
        );
        outbox.send_event(Event::Connected(connect_type));
    }

    /// Transition from Approved back to Bootstrapping on a relocation
    /// directive: the signed directive is retained and must be presented
    /// with the next join.
    fn relocate(&mut self, details: SignedRelocateDetails)
        requires
            peer_wf(*old(self)),
        ensures
            peer_wf(*final(self)),
            final(self).stage matches Stage::Bootstrapping(b) && b.relocate_details == Some(
                details,
            ),
            final(self).core.msg_queue == old(self).core.msg_queue,
            final(self).core.msg_filter == old(self).core.msg_filter,
            final(self).core.full_id == old(self).core.full_id,
            final(self).core.transport.commands@ == old(self).core.transport.commands@.push(
                TransportCmd::Bootstrap,
            ),
    {
        self.stage = Stage::Bootstrapping(Bootstrapping { relocate_details: Some(details) });
        self.core.transport.commands.push(TransportCmd::Bootstrap);
    }

    /// Transition from Joining back to Bootstrapping on a join failure,
    /// under a freshly generated identity.
    fn rebootstrap(&mut self)
        requires
            peer_wf(*old(self)),
        ensures
            peer_wf(*final(self)),
            final(self).stage matches Stage::Bootstrapping(b) && b.relocate_details is None,
            final(self).core.msg_queue == old(self).core.msg_queue,
            final(self).core.msg_filter == old(self).core.msg_filter,
            final(self).core.full_id.generation == if old(self).core.full_id.generation
                < u64::MAX {
                (old(self).core.full_id.generation + 1) as u64
            } else {
                u64::MAX
            },
            final(self).core.transport.commands@ == old(self).core.transport.commands@.push(
                TransportCmd::Bootstrap,
            ),
    {
        self.stage = Stage::Bootstrapping(Bootstrapping { relocate_details: None });
        self.core.full_id.generation = self.core.full_id.generation.saturating_add(1);
        self.core.transport.commands.push(TransportCmd::Bootstrap);
    }

    /// Dispatches one verified message according to the current stage.
    pub fn dispatch_message(
        &mut self,
        sender: Option<PeerAddr>,
        msg: Message,
        outbox: &mut EventOutbox,
    )
        requires
            peer_wf(*old(self)),
        ensures
            peer_wf(*final(self)),
            final(self).core.msg_queue == old(self).core.msg_queue,
            commands_extended(old(self).core.transport.commands@, final(self).core.transport.commands@),
            events_extended(old(outbox).events@, final(outbox).events@),
            match old(self).stage {
                Stage::Joining(_) => msg.variant matches Variant::JoinResponse(
                    JoinResponse::Rejected(_),
                ) ==> (final(self).stage is Bootstrapping && final(self).core.full_id.generation
                    == (if old(self).core.full_id.generation < u64::MAX {
                    (old(self).core.full_id.generation + 1) as u64
                } else {
                    u64::MAX
                })),
                _ => true,
            },
            match old(self).stage {
                Stage::Approved(_) => match msg.variant {
                    Variant::UserMessage(c) => final(outbox).events@ == old(outbox).events@.push((Event::MessageReceived { content: c })),
                    _ => true,
                },
                _ => true,
            },
            match old(self).stage {
                Stage::Approved(_) => match msg.variant {
                    Variant::MessageSignature { payload, key_index, signer, share } => spec_share_dispatched(
                        *old(self),
                        *final(self),
                        *old(outbox),
                        *final(outbox),
                        payload@,
                        key_index,
                        signer,
                        share,
                        old(self).core.now_ms,
                    ),
                    _ => true,
                },
                _ => true,
            },
            match old(self).stage {
                Stage::Approved(_) => match msg.variant {
                    Variant::JoinRequest(req) => match (msg.src, sender) {
                        (SrcAuthority::Node { name, .. }, Some(addr)) => spec_join_dispatched(
                            *old(self),
                            *final(self),
                            name,
                            addr,
                            req,
                        ),
                        _ => true,
                    },
                    _ => true,
                },
                _ => true,
            },
            match old(self).stage {
                Stage::Approved(_) => match msg.variant {
                    Variant::JoinAsRelocatedRequest(req) => match (msg.src, sender) {
                        (
                            SrcAuthority::Node { name, .. },
                            Some(addr),
                        ) => spec_relocated_join_dispatched(
                            *old(self),
                            *final(self),
                            name,
                            addr,
                            req,
                        ),
                        _ => true,
                    },
                    _ => true,
                },
                _ => true,
            },
            old(self).stage is Terminated ==> (*final(self) == *old(self) && *final(outbox)
                == *old(outbox)),
    {
        match &self.stage {
            Stage::Bootstrapping(_) => self.dispatch_bootstrapping(sender, msg),
            Stage::Joining(_) => self.dispatch_joining(sender, msg, outbox),
            Stage::Approved(_) => self.dispatch_approved(sender, msg, outbox),
            Stage::Terminated => {},
        }
    }

    /// Dispatch while bootstrapping: a committee to join, fresh bootstrap
    /// contacts, or a bounce of something we sent.
    fn dispatch_bootstrapping(&mut self, sender: Option<PeerAddr>, msg: Message)
        requires
            peer_wf(*old(self)),
            old(self).stage is Bootstrapping,
        ensures
            peer_wf(*final(self)),
            final(self).core.msg_queue == old(self).core.msg_queue,
            commands_extended(old(self).core.transport.commands@, final(self).core.transport.commands@),
            msg.variant matches Variant::BootstrapResponse(BootstrapResponse::Join(info)) ==> (
            final(self).stage matches Stage::Joining(j) && j.elders_info == info),
    {
        let relocate_details = match &self.stage {
            Stage::Bootstrapping(b) => b.relocate_details,
            _ => None,
        };
        match msg.variant {
            Variant::BootstrapResponse(BootstrapResponse::Join(info)) => {
                let payload = match relocate_details {
                    Some(details) => Some(RelocatePayload { details }),
                    None => None,
                };
                let requests = join_requests_for(&info);
                self.join(info, payload);
                self.push_commands(requests);
            },
            Variant::BootstrapResponse(BootstrapResponse::Rebootstrap(addrs)) => {
                let name = self.core.full_id.name;
                let mut i: usize = 0;
                while i < addrs.len()
                    invariant
                        i <= addrs@.len(),
                        peer_wf(*self),
                        self.stage is Bootstrapping,
                        self.core.msg_queue == old(self).core.msg_queue,
                        commands_extended(
                            old(self).core.transport.commands@,
                            self.core.transport.commands@,
                        ),
                    decreases addrs@.len() - i,
                {
                    self.core.transport.commands.push(
                        TransportCmd::SendDirect {
                            addr: addrs[i],
                            variant: Variant::BootstrapRequest(name),
                        },
                    );
                    i = i + 1;
                }
            },
            Variant::Bounce { elders_version, message } => {
                if let (SrcAuthority::Node { name, .. }, Some(addr)) = (msg.src, sender) {
                    let peer = Peer { name, addr, age: 0 };
                    self.handle_bounce(peer, elders_version, message);
                }
            },
            _ => {},
        }
    }

    /// Dispatch while joining: approval, a retry against a newer
    /// committee, a rejection that sends us back to bootstrapping under a
    /// fresh identity, or a bounce. A resource challenge is answered by
    /// the runtime, which computes the proof of work and sends a new join
    /// request.
    fn dispatch_joining(&mut self, sender: Option<PeerAddr>, msg: Message, outbox: &mut
        EventOutbox)
        requires
            peer_wf(*old(self)),
            old(self).stage is Joining,
        ensures
            peer_wf(*final(self)),
            final(self).core.msg_queue == old(self).core.msg_queue,
            commands_extended(old(self).core.transport.commands@, final(self).core.transport.commands@),
            events_extended(old(outbox).events@, final(outbox).events@),
            msg.variant matches Variant::JoinResponse(JoinResponse::Rejected(_)) ==> (final(self).stage is Bootstrapping && final(self).core.full_id.generation == (if old(self).core.full_id.generation < u64::MAX {
                (old(self).core.full_id.generation + 1) as u64
            } else {
                u64::MAX
            })),
            match msg.variant {
                Variant::JoinResponse(JoinResponse::Approval(gen)) => spec_elders_info_valid(
                    gen.elders_info,
                ) ==> (final(self).stage matches Stage::Approved(a) && a.chain.elders_info
                    == gen.elders_info),
                _ => true,
            },
    {
        let relocate_payload = match &self.stage {
            Stage::Joining(j) => j.relocate_payload,
            _ => None,
        };
        match msg.variant {
            Variant::JoinResponse(JoinResponse::Approval(gen)) => {
                if elders_info_valid(&gen.elders_info) {
                    let connect_type = if relocate_payload.is_some() {
                        Connected::Relocate
                    } else {
                        Connected::Normal
                    };
                    self.approve(gen, connect_type, outbox);
                }
            },
            Variant::JoinResponse(JoinResponse::Retry(info)) => {
                let requests = join_requests_for(&info);
                self.retarget(info);
                self.push_commands(requests);
            },
            Variant::BootstrapResponse(BootstrapResponse::Join(info)) => {
                let requests = join_requests_for(&info);
                self.retarget(info);
                self.push_commands(requests);
            },
            Variant::JoinResponse(JoinResponse::Rejected(_)) => {
                self.rebootstrap();
            },
            Variant::JoinResponse(JoinResponse::ResourceChallenge { .. }) => {},
            Variant::Bounce { elders_version, message } => {
                if let (SrcAuthority::Node { name, .. }, Some(addr)) = (msg.src, sender) {
                    let peer = Peer { name, addr, age: 0 };
                    self.handle_bounce(peer, elders_version, message);
                }
            },
            _ => {},
        }
    }

    /// Retargets the join at a newer committee, without losing the
    /// relocation payload.
    fn retarget(&mut self, info: EldersInfo)
        requires
            peer_wf(*old(self)),
            old(self).stage is Joining,
        ensures
            peer_wf(*final(self)),
            final(self).core == old(self).core,
            final(self).stage matches Stage::Joining(j) && j.elders_info == info
                && (old(self).stage matches Stage::Joining(j0) && j.relocate_payload
                == j0.relocate_payload),
    {
        let payload = match &self.stage {
            Stage::Joining(j) => j.relocate_payload,
            _ => None,
        };
        self.stage = Stage::Joining(Joining { elders_info: info, relocate_payload: payload });
    }

    /// Appends prepared transport commands.
    fn push_commands(&mut self, cmds: Vec<TransportCmd>)
        ensures
            final(self).stage == old(self).stage,
            final(self).core.msg_queue == old(self).core.msg_queue,
            final(self).core.msg_filter == old(self).core.msg_filter,
            final(self).core.full_id == old(self).core.full_id,
            final(self).core.transport.commands@ == old(self).core.transport.commands@
                + cmds@,
            peer_wf(*old(self)) ==> peer_wf(*final(self)),
    {
        let ghost all = cmds@;
        let mut cmds = cmds;
        proof {
            assert(all.subrange(0, 0) =~= Seq::<TransportCmd>::empty());
            assert(self.core.transport.commands@ + all.subrange(0, 0)
                =~= self.core.transport.commands@);
        }
        while cmds.len() > 0
            invariant
                cmds@.len() <= all.len(),
                cmds@ == all.subrange(all.len() - cmds@.len(), all.len() as int),
                self.stage == old(self).stage,
                self.core.msg_queue == old(self).core.msg_queue,
                self.core.msg_filter == old(self).core.msg_filter,
                self.core.full_id == old(self).core.full_id,
                self.core.transport.commands@ == old(self).core.transport.commands@
                    + all.subrange(0, all.len() - cmds@.len()),
            decreases cmds@.len(),
        {
            let ghost done = all.len() - cmds@.len();
            let cmd = cmds.remove(0);
            proof {
                assert(cmd == all[done]);
                assert(cmds@ =~= all.subrange(all.len() - cmds@.len(), all.len() as int));
                assert(old(self).core.transport.commands@ + all.subrange(0, done).push(all[done])
                    =~= old(self).core.transport.commands@ + all.subrange(0, done + 1));
            }
            self.core.transport.commands.push(cmd);
        }
        proof {
            assert(all.subrange(0, all.len() as int) =~= all);
        }
    }

    /// Dispatch while approved: the full duty set.
    fn dispatch_approved(&mut self, sender: Option<PeerAddr>, msg: Message, outbox: &mut
        EventOutbox)
        requires
            peer_wf(*old(self)),
            old(self).stage is Approved,
        ensures
            peer_wf(*final(self)),
            final(self).core.msg_queue == old(self).core.msg_queue,
            commands_extended(old(self).core.transport.commands@, final(self).core.transport.commands@),
            events_extended(old(outbox).events@, final(outbox).events@),
            final(self).stage is Approved || final(self).stage is Bootstrapping,
            msg.variant matches Variant::UserMessage(c) ==> (final(outbox).events@ == old(outbox).events@.push((Event::MessageReceived { content: c }))),
            match msg.variant {
                Variant::Relocate(d) => d.details.previous_name@ == old(self).core.full_id.name@ ==> (final(self).stage matches Stage::Bootstrapping(b)
                    && b.relocate_details == Some(d)),
                _ => true,
            },
            match msg.variant {
                Variant::MessageSignature { payload, key_index, signer, share } => spec_share_dispatched(
                    *old(self),
                    *final(self),
                    *old(outbox),
                    *final(outbox),
                    payload@,
                    key_index,
                    signer,
                    share,
                    old(self).core.now_ms,
                ),
                _ => true,
            },
            match msg.variant {
                Variant::JoinRequest(req) => match (msg.src, sender) {
                    (SrcAuthority::Node { name, .. }, Some(addr)) => spec_join_dispatched(
                        *old(self),
                        *final(self),
                        name,
                        addr,
                        req,
                    ),
                    _ => true,
                },
                _ => true,
            },
            match msg.variant {
                Variant::JoinAsRelocatedRequest(req) => match (msg.src, sender) {
                    (SrcAuthority::Node { name, .. }, Some(addr)) => spec_relocated_join_dispatched(
                        *old(self),
                        *final(self),
                        name,
                        addr,
                        req,
                    ),
                    _ => true,
                },
                _ => true,
            },
    {
        match msg.variant {
            Variant::UserMessage(content) => {
                outbox.send_event(Event::MessageReceived { content });
            },
            Variant::Relocate(details) => {
                if details.details.previous_name.equals(&self.core.full_id.name) {
                    self.relocate(details);
                }
            },
            Variant::Bounce { elders_version, message } => {
                if let (SrcAuthority::Node { name, .. }, Some(addr)) = (msg.src, sender) {
                    let peer = Peer { name, addr, age: 0 };
                    self.handle_bounce(peer, elders_version, message);
                }
            },
            Variant::JoinRequest(req) => {
                if let (SrcAuthority::Node { name, .. }, Some(addr)) = (msg.src, sender) {
                    self.handle_join_request(name, addr, req);
                }
            },
            Variant::JoinAsRelocatedRequest(req) => {
                if let (SrcAuthority::Node { name, .. }, Some(addr)) = (msg.src, sender) {
                    self.handle_join_as_relocated_request(name, addr, req);
                }
            },
            Variant::MessageSignature { payload, key_index, signer, share } => {
                self.handle_message_signature(payload, key_index, signer, share, outbox);
            },
            Variant::NeighbourInfo(other) => {
                if other.section_auth.value.prefix.bit_count <= 256 {
                    if let Stage::Approved(stage) = &mut self.stage {
                        let _ = stage.network.sections.insert(other);
                    }
                }
            },
            Variant::BootstrapRequest(name) => {
                if let Some(addr) = sender {
                    self.handle_bootstrap_request(name, addr);
                }
            },
            Variant::SectionKnowledge { chain, .. } => {
                self.try_extend_chain(chain);
            },
            _ => {},
        }
    }

    /// Answers a bootstrap request: a candidate whose name falls under our
    /// prefix is invited to join our committee; anyone else is redirected.
    fn handle_bootstrap_request(&mut self, name: XorName, addr: PeerAddr)
        requires
            peer_wf(*old(self)),
            old(self).stage is Approved,
        ensures
            peer_wf(*final(self)),
            final(self).stage == old(self).stage,
            final(self).core.msg_queue == old(self).core.msg_queue,
            commands_extended(old(self).core.transport.commands@, final(self).core.transport.commands@),
            match old(self).stage {
                Stage::Approved(a) => a.chain.elders_info.prefix.matches_spec(name@) ==> (final(self).core.transport.commands@.len() == old(self).core.transport.commands@.len() + 1
                    && (final(self).core.transport.commands@.last()
                    matches TransportCmd::SendDirect {
                    addr: a2,
                    variant: Variant::BootstrapResponse(BootstrapResponse::Join(info)),
                } && a2 == addr && info.prefix == a.chain.elders_info.prefix && info.elders@
                    == a.chain.elders_info.elders@)),
                _ => true,
            },
    {
        let (matches_us, info) = match &self.stage {
            Stage::Approved(stage) => (
                stage.chain.elders_info.prefix.matches(&name),
                clone_elders_info(&stage.chain.elders_info),
            ),
            _ => {
                return ;
            },
        };
        if matches_us {
            self.core.transport.commands.push(
                TransportCmd::SendDirect {
                    addr,
                    variant: Variant::BootstrapResponse(BootstrapResponse::Join(info)),
                },
            );
        } else {
            let mut addrs: Vec<PeerAddr> = Vec::new();
            let mut i: usize = 0;
            let n = info.elders.len();
            while i < n
                invariant
                    i <= n,
                    n == info.elders@.len(),
                decreases n - i,
            {
                addrs.push(info.elders[i].addr);
                i = i + 1;
            }
            self.core.transport.commands.push(
                TransportCmd::SendDirect {
                    addr,
                    variant: Variant::BootstrapResponse(BootstrapResponse::Rebootstrap(addrs)),
                },
            );
        }
    }

    /// Handles a fresh candidate's join request. The proof-of-work behind
    /// a carried resource-proof response is checked by the runtime before
    /// the message is handed in; here the join policy decides: the name
    /// must fall under our prefix, the candidate must know our current
    /// key, must have answered a challenge, and joins must be allowed.
    fn handle_join_request(&mut self, name: XorName, addr: PeerAddr, req: JoinRequest)
        requires
            peer_wf(*old(self)),
            old(self).stage is Approved,
        ensures
            peer_wf(*final(self)),
            final(self).stage is Approved,
            final(self).core.msg_queue == old(self).core.msg_queue,
            commands_extended(old(self).core.transport.commands@, final(self).core.transport.commands@),
            spec_join_dispatched(*old(self), *final(self), name, addr, req),
    {
        let decision = match &self.stage {
            Stage::Approved(stage) => {
                if !stage.chain.elders_info.prefix.matches(&name) {
                    0u8
                } else if !crate::chain::eq_key(&req.section_key, &stage.chain.keys.last_key()) {
                    1u8
                } else if req.resource_proof_response.is_none() {
                    2u8
                } else if !stage.chain.joins_allowed {
                    3u8
                } else {
                    4u8
                }
            },
            _ => {
                return ;
            },
        };
        if decision == 0 {
            return ;
        }
        if decision == 1 {
            let info = match &self.stage {
                Stage::Approved(stage) => clone_elders_info(&stage.chain.elders_info),
                _ => {
                    return ;
                },
            };
            self.core.transport.commands.push(
                TransportCmd::SendDirect {
                    addr,
                    variant: Variant::JoinResponse(JoinResponse::Retry(info)),
                },
            );
            return ;
        }
        if decision == 2 {
            let nonce = self.core.timer.next_token;
            self.core.timer.next_token = nonce.wrapping_add(1);
            self.core.transport.commands.push(
                TransportCmd::SendDirect {
                    addr,
                    variant: Variant::JoinResponse(JoinResponse::ResourceChallenge { nonce }),
                },
            );
            return ;
        }
        if decision == 3 {
            self.core.transport.commands.push(
                TransportCmd::SendDirect {
                    addr,
                    variant: Variant::JoinResponse(
                        JoinResponse::Rejected(JoinRejectionReason::JoinsDisallowed),
                    ),
                },
            );
            return ;
        }
        let (info, key) = match &self.stage {
            Stage::Approved(stage) => (
                clone_elders_info(&stage.chain.elders_info),
                stage.chain.keys.last_key(),
            ),
            _ => {
                return ;
            },
        };
        if let Stage::Approved(stage) = &mut self.stage {
            stage.chain.members.push(
                MemberInfo {
                    peer: Peer { name, addr, age: 5 },
                    state: MembershipState::Joined,
                },
            );
            proof {
                let ms = stage.chain.members@;
                assert(ms[ms.len() - 1].peer.name@ == name@ && ms[ms.len() - 1].state
                    == MembershipState::Joined);
                assert(stage.chain.is_joined_member_spec(name));
            }
        }
        self.core.transport.commands.push(
            TransportCmd::SendDirect {
                addr,
                variant: Variant::JoinResponse(
                    JoinResponse::Approval(GenesisPfxInfo { elders_info: info, section_key: key }),
                ),
            },
        );
    }

    /// Handles a relocated candidate's join request. The relocation
    /// payload is accepted exactly once: it must target our prefix, carry
    /// a valid signature under a key we trust for the issuing section, and
    /// must not have been consumed before; accepting consumes it.
    fn handle_join_as_relocated_request(
        &mut self,
        name: XorName,
        addr: PeerAddr,
        req: JoinAsRelocatedRequest,
    )
        requires
            peer_wf(*old(self)),
            old(self).stage is Approved,
        ensures
            peer_wf(*final(self)),
            final(self).stage is Approved,
            final(self).core.msg_queue == old(self).core.msg_queue,
            commands_extended(old(self).core.transport.commands@, final(self).core.transport.commands@),
            spec_relocated_join_dispatched(*old(self), *final(self), name, addr, req),
    {
        let d = req.relocate_payload.details;
        let signed = d.signed_bytes();
        let (accepted, was_used) = match &self.stage {
            Stage::Approved(stage) => {
                let in_prefix = stage.chain.elders_info.prefix.matches(&d.details.destination);
                let key_trusted = relocation_key_trusted(stage, &d);
                let sig_ok = bls_verify(&d.sig.public_key, &d.sig.signature, &signed);
                let used = stage.chain.relocation_used(&d.sig.signature);
                (in_prefix && key_trusted && sig_ok && !used, used)
            },
            _ => {
                return ;
            },
        };
        if !accepted {
            if was_used {
                self.core.transport.commands.push(
                    TransportCmd::SendDirect {
                        addr,
                        variant: Variant::JoinResponse(
                            JoinResponse::Rejected(JoinRejectionReason::JoinsDisallowed),
                        ),
                    },
                );
            }
            return ;
        }
        let (info, key) = match &self.stage {
            Stage::Approved(stage) => (
                clone_elders_info(&stage.chain.elders_info),
                stage.chain.keys.last_key(),
            ),
            _ => {
                return ;
            },
        };
        if let Stage::Approved(stage) = &mut self.stage {
            stage.chain.used_relocations.push(d.sig.signature);
            stage.chain.members.push(
                MemberInfo {
                    peer: Peer { name, addr, age: d.details.age },
                    state: MembershipState::Joined,
                },
            );
            proof {
                let ms = stage.chain.members@;
                assert(ms[ms.len() - 1].peer.name@ == name@ && ms[ms.len() - 1].state
                    == MembershipState::Joined);
                assert(stage.chain.is_joined_member_spec(name));
                let us = stage.chain.used_relocations@;
                assert(us[us.len() - 1]@ == d.sig.signature@);
                assert(stage.chain.relocation_used_spec(d.sig.signature));
            }
        }
        self.core.transport.commands.push(
            TransportCmd::SendDirect {
                addr,
                variant: Variant::JoinResponse(
                    JoinResponse::Approval(GenesisPfxInfo { elders_info: info, section_key: key }),
                ),
            },
        );
    }

    /// Feeds one elder's signature share to the aggregator, when the node
    /// has one: the aggregator's transition applies verbatim, and exactly
    /// the share that completes the threshold is reported as an event
    /// carrying the signed payload and the combined signature. Share
    /// envelopes never reach the message queue.
    fn handle_message_signature(
        &mut self,
        payload: Vec<u8>,
        key_index: u64,
        signer: u64,
        share: BlsSignatureBytes,
        outbox: &mut EventOutbox,
    )
        requires
            peer_wf(*old(self)),
            old(self).stage is Approved,
        ensures
            peer_wf(*final(self)),
            final(self).stage is Approved,
            final(self).core == old(self).core,
            spec_share_dispatched(*old(self), *final(self), *old(outbox), *final(outbox), payload@, key_index, signer, share, old(self).core.now_ms),
    {
        let now = self.core.now_ms;
        if let Stage::Approved(stage) = &mut self.stage {
            if let Some(agg) = &mut stage.aggregator {
                let payload_copy = clone_bytes(&payload);
                let result = agg.add_share(payload_copy, key_index, signer, share, now);
                if let AddShareResult::Combined(signature) = result {
                    let ghost pre_events = outbox.events@;
                    outbox.send_event(Event::Aggregated { payload, signature });
                    proof {
                        assert(outbox.events@.drop_last() =~= pre_events);
                        assert(outbox.events@.last() == (Event::Aggregated {
                            payload: payload,
                            signature: signature,
                        }));
                    }
                }
            }
        }
    }

    /// Extends our key chain from a proving sub-chain: links are taken one
    /// by one, each only when its predecessor signature verifies, starting
    /// where the sub-chain meets our newest key.
    fn try_extend_chain(&mut self, sub: SectionChain)
        requires
            peer_wf(*old(self)),
            old(self).stage is Approved,
        ensures
            peer_wf(*final(self)),
            final(self).stage is Approved,
            final(self).core.msg_queue == old(self).core.msg_queue,
            final(self).core == old(self).core,
    {
        if !(sub.sigs.len() < sub.keys.len() && sub.keys.len() - sub.sigs.len() == 1) {
            return ;
        }
        let tail = match &self.stage {
            Stage::Approved(stage) => stage.chain.keys.last_key(),
            _ => {
                return ;
            },
        };
        let start = match sub.index_of(&tail) {
            Some(i) => i,
            None => {
                return ;
            },
        };
        let mut j: usize = start;
        while j < sub.sigs.len()
            invariant
                peer_wf(*self),
                self.stage is Approved,
                self.core == old(self).core,
                j <= sub.sigs@.len(),
                sub.keys@.len() == sub.sigs@.len() + 1,
            decreases sub.sigs@.len() - j,
        {
            let key = sub.keys[j + 1];
            let sig = sub.sigs[j];
            let extended = match &mut self.stage {
                Stage::Approved(stage2) => stage2.chain.keys.extend(key, sig),
                _ => Err(crate::chain::InvalidProof),
            };
            if extended.is_err() {
                return ;
            }
            j = j + 1;
        }
    }

    /// The elders closest to the name among what we know: the owning
    /// remote section's committee when we know one, else our own.
    pub fn closest_known_elders_to(&self, name: &XorName) -> (r: Vec<Peer>)
        requires
            peer_wf(*self),
        ensures
            !(self.stage is Approved) ==> r@.len() == 0,
    {
        match &self.stage {
            Stage::Approved(stage) => {
                match stage.network.sections.get_matching(name) {
                    Some(other) => clone_peers(&other.section_auth.value.elders),
                    None => clone_peers(&stage.chain.elders_info.elders),
                }
            },
            _ => Vec::new(),
        }
    }

    /// The `count` elder names closest to `name` under the XOR metric,
    /// closest first; nothing while not approved.
    pub fn close_group(&self, name: XorName, count: usize) -> (r: Option<Vec<XorName>>)
        requires
            peer_wf(*self),
        ensures
            match r {
                Some(v) => {
                    &&& self.stage is Approved
                    &&& (self.stage matches Stage::Approved(a) ==> v@.len() == if count
                        < a.chain.elders_info.elders@.len() {
                        count as int
                    } else {
                        a.chain.elders_info.elders@.len() as int
                    })
                    &&& forall|x: int, y: int|
                        0 <= x < y < v@.len() ==> !crate::name::dist_lt(
                            name@,
                            (#[trigger] v@[y])@,
                            (#[trigger] v@[x])@,
                        )
                    &&& (self.stage matches Stage::Approved(a) ==> forall|x: int|
                        0 <= x < v@.len() ==> elders_have_name(
                            a.chain.elders_info,
                            #[trigger] v@[x],
                        ))
                    &&& (self.stage matches Stage::Approved(a) ==> forall|x: int, e: int|
                        0 <= x < v@.len() && 0 <= e < a.chain.elders_info.elders@.len()
                            && !v@.contains(
                            (#[trigger] a.chain.elders_info.elders@[e]).name,
                        ) ==> !crate::name::dist_lt(
                            name@,
                            a.chain.elders_info.elders@[e].name@,
                            (#[trigger] v@[x])@,
                        ))
                },
                None => !(self.stage is Approved),
            },
    {
        let stage = match &self.stage {
            Stage::Approved(stage) => stage,
            _ => {
                return None;
            },
        };
        let elders = &stage.chain.elders_info.elders;
        let mut pool: Vec<XorName> = Vec::new();
        let mut i: usize = 0;
        while i < elders.len()
            invariant
                i <= elders@.len(),
                pool@.len() == i,
                forall|p: int| 0 <= p < i ==> #[trigger] pool@[p] == elders@[p].name,
            decreases elders@.len() - i,
        {
            pool.push(elders[i].name);
            i = i + 1;
        }
        let ghost init = pool@;
        let ghost orig_n = pool@.len();
        let take = if count < pool.len() {
            count
        } else {
            pool.len()
        };
        let mut out: Vec<XorName> = Vec::new();
        let mut k: usize = 0;
        while k < take
            invariant
                k <= take,
                take <= orig_n,
                out@.len() == k,
                pool@.len() + k == orig_n,
                forall|x: int, y: int|
                    0 <= x < y < k ==> !crate::name::dist_lt(
                        name@,
                        (#[trigger] out@[y])@,
                        (#[trigger] out@[x])@,
                    ),
                forall|x: int, p: int|
                    0 <= x < k && 0 <= p < pool@.len() ==> !crate::name::dist_lt(
                        name@,
                        (#[trigger] pool@[p])@,
                        (#[trigger] out@[x])@,
                    ),
                forall|w: int| 0 <= w < k ==> init.contains(#[trigger] out@[w]),
                forall|p: int| 0 <= p < pool@.len() ==> init.contains(#[trigger] pool@[p]),
                forall|e: int|
                    0 <= e < init.len() && !out@.contains(#[trigger] init[e]) ==> pool@.contains(
                        init[e],
                    ),
            decreases take - k,
        {
            let mut best: usize = 0;
            let mut j: usize = 1;
            proof {
                assert(pool@.len() > 0);
                crate::name::lemma_dist_lt_irrefl(name@, pool@[0]@);
            }
            while j < pool.len()
                invariant
                    pool@.len() > 0,
                    best < j <= pool@.len(),
                    forall|m: int|
                        0 <= m < j ==> !crate::name::dist_lt(
                            name@,
                            (#[trigger] pool@[m])@,
                            pool@[best as int]@,
                        ),
                decreases pool@.len() - j,
            {
                if name.cmp_distance(&pool[j], &pool[best]) < 0 {
                    proof {
                        let ghost old_best = best as int;
                        assert forall|m: int|
                            0 <= m < j implies !crate::name::dist_lt(
                            name@,
                            (#[trigger] pool@[m])@,
                            pool@[j as int]@,
                        ) by {
                            if crate::name::dist_lt(name@, pool@[m]@, pool@[j as int]@) {
                                crate::name::lemma_dist_lt_trans(
                                    name@,
                                    pool@[m]@,
                                    pool@[j as int]@,
                                    pool@[old_best]@,
                                );
                            }
                        }
                    }
                    best = j;
                }
                proof {
                    crate::name::lemma_dist_lt_irrefl(name@, pool@[best as int]@);
                }
                j = j + 1;
            }
            let ghost pool_before = pool@;
            let ghost out_before = out@;
            let ghost best_i = best as int;
            let chosen = pool.remove(best);
            out.push(chosen);
            proof {
                assert forall|x: int, p: int|
                    0 <= x < k + 1 && 0 <= p < pool@.len() implies !crate::name::dist_lt(
                    name@,
                    (#[trigger] pool@[p])@,
                    (#[trigger] out@[x])@,
                ) by {
                    let src = if p < best_i {
                        p
                    } else {
                        p + 1
                    };
                    assert(pool@[p] == pool_before[src]);
                    if x < k {
                        assert(!crate::name::dist_lt(name@, pool_before[src]@, out@[x]@));
                    } else {
                        assert(out@[x] == pool_before[best_i]);
                        assert(!crate::name::dist_lt(name@, pool_before[src]@, pool_before[best_i]@));
                    }
                }
                assert forall|x: int, y: int|
                    0 <= x < y < k + 1 implies !crate::name::dist_lt(
                    name@,
                    (#[trigger] out@[y])@,
                    (#[trigger] out@[x])@,
                ) by {
                    if y == k {
                        assert(out@[y] == pool_before[best_i]);
                        assert(!crate::name::dist_lt(name@, pool_before[best_i]@, out@[x]@));
                    }
                }
                assert forall|w: int| 0 <= w < k + 1 implies init.contains(
                    #[trigger] out@[w],
                ) by {
                    if w == k {
                        assert(pool_before.contains(pool_before[best_i]));
                        assert(init.contains(pool_before[best_i]));
                        assert(out@[w] == pool_before[best_i]);
                    }
                }
                assert forall|p: int| 0 <= p < pool@.len() implies init.contains(
                    #[trigger] pool@[p],
                ) by {
                    let src = if p < best_i {
                        p
                    } else {
                        p + 1
                    };
                    assert(pool@[p] == pool_before[src]);
                    assert(init.contains(pool_before[src]));
                }
                assert forall|e: int|
                    0 <= e < init.len() && !out@.contains(#[trigger] init[e]) implies pool@.contains(
                    init[e],
                ) by {
                    assert(out@[k as int] == pool_before[best_i]);
                    assert(init[e] != pool_before[best_i]);
                    assert(!out_before.contains(init[e])) by {
                        if out_before.contains(init[e]) {
                            let w = choose|w: int|
                                0 <= w < out_before.len() && out_before[w] == init[e];
                            assert(out@[w] == init[e]);
                        }
                    }
                    assert(pool_before.contains(init[e]));
                    let p0 = choose|p0: int|
                        0 <= p0 < pool_before.len() && pool_before[p0] == init[e];
                    assert(p0 != best_i);
                    let dst = if p0 < best_i {
                        p0
                    } else {
                        p0 - 1
                    };
                    assert(pool@[dst] == pool_before[p0]);
                }
            }
            k = k + 1;
        }
        proof {
            let elder_seq = stage.chain.elders_info.elders@;
            assert forall|x: int|
                0 <= x < out@.len() implies elders_have_name(
                stage.chain.elders_info,
                #[trigger] out@[x],
            ) by {
                assert(init.contains(out@[x]));
                let e0 = choose|e0: int| 0 <= e0 < init.len() && init[e0] == out@[x];
                assert(stage.chain.elders_info.elders@[e0].name == out@[x]);
            }
            assert forall|x: int, e: int|
                0 <= x < out@.len() && 0 <= e < elder_seq.len() && !out@.contains(
                    (#[trigger] elder_seq[e]).name,
                ) implies !crate::name::dist_lt(
                name@,
                elder_seq[e].name@,
                (#[trigger] out@[x])@,
            ) by {
                assert(init[e] == elder_seq[e].name);
                assert(pool@.contains(init[e]));
                let p = choose|p: int| 0 <= p < pool@.len() && pool@[p] == init[e];
                assert(!crate::name::dist_lt(name@, pool@[p]@, out@[x]@));
            }
        }
        Some(out)
    }

    /// Whether this node speaks for the source location.
    pub fn in_src_location(&self, src: &MsgSrcLocation) -> (r: bool)
        requires
            peer_wf(*self),
        ensures
            r == match self.stage {
                Stage::Approved(a) => match *src {
                    MsgSrcLocation::Node(n) => n@ == self.core.full_id.name@,
                    MsgSrcLocation::Section(p) => p.wf() && p.bit_count
                        == a.chain.elders_info.prefix.bit_count && p.compatible_spec(
                        a.chain.elders_info.prefix,
                    ),
                },
                _ => false,
            },
    {
        match &self.stage {
            Stage::Approved(stage) => match src {
                MsgSrcLocation::Node(n) => n.equals(&self.core.full_id.name),
                MsgSrcLocation::Section(p) => {
                    if p.bit_count > 256 {
                        false
                    } else {
                        p.same_as(&stage.chain.elders_info.prefix)
                    }
                },
            },
            _ => false,
        }
    }

    /// Fires due timers; the runtime owns real time, so nothing is pending
    /// here.
    pub fn process_timers(&mut self)
        ensures
            *final(self) == *old(self),
    {
    }

    /// The logging identity of the node: its stage, as the log line
    /// prefix.
    pub fn set_log_ident(&self) -> (r: String)
        ensures
            (self.stage is Bootstrapping) ==> r@ =~= "Bootstrapping"@,
            (self.stage is Joining) ==> r@ =~= "Joining"@,
            (self.stage is Terminated) ==> r@ =~= "Terminated"@,
    {
        match &self.stage {
            Stage::Bootstrapping(_) => {
                let s: &str = "Bootstrapping";
                s.to_owned()
            },
            Stage::Joining(_) => {
                let s: &str = "Joining";
                s.to_owned()
            },
            Stage::Approved(stage) => {
                if self.is_peer_our_elder_inner(&stage.chain.elders_info, &self.core.full_id.name)
                {
                    let s: &str = "Elder";
                    s.to_owned()
                } else {
                    let s: &str = "Adult";
                    s.to_owned()
                }
            },
            Stage::Terminated => {
                let s: &str = "Terminated";
                s.to_owned()
            },
        }
    }

    /// Whether the committee contains this name.
    fn is_peer_our_elder_inner(&self, info: &EldersInfo, name: &XorName) -> (r: bool)
        ensures
            r == elders_contain(*info, *name),
    {
        let n = info.elders.len();
        let mut i: usize = 0;
        while i < n
            invariant
                i <= n,
                n == info.elders@.len(),
                forall|k: int| 0 <= k < i ==> (#[trigger] info.elders@[k]).name@ != name@,
            decreases n - i,
        {
            if info.elders[i].name.equals(name) {
                return true;
            }
            i = i + 1;
        }
        false
    }

    /// Whether this message's bytes were handled before.
    fn filter_contains(&self, bytes: &Vec<u8>) -> (r: bool)
        ensures
            r == exists|i: int|
                0 <= i < self.core.msg_filter@.len() && self.core.msg_filter@[i]@ == bytes@,
    {
        let n = self.core.msg_filter.len();
        let mut i: usize = 0;
        while i < n
            invariant
                i <= n,
                n == self.core.msg_filter@.len(),
                forall|k: int| 0 <= k < i ==> self.core.msg_filter@[k]@ != bytes@,
            decreases n - i,
        {
            if crate::aggregator::eq_bytes(&self.core.msg_filter[i], bytes) {
                return true;
            }
            i = i + 1;
        }
        false
    }
}

/// Copies a byte vector.
pub fn clone_bytes(v: &Vec<u8>) -> (r: Vec<u8>)
    ensures
        r@ == v@,
{
    let mut out: Vec<u8> = Vec::new();
    let mut i: usize = 0;
    while i < v.len()
        invariant
            i <= v@.len(),
            out@ == v@.subrange(0, i as int),
        decreases v@.len() - i,
    {
        out.push(v[i]);
        proof {
            assert(v@.subrange(0, i as int).push(v@[i as int]) =~= v@.subrange(0, i + 1));
        }
        i = i + 1;
    }
    proof {
        assert(v@.subrange(0, v@.len() as int) =~= v@);
    }
    out
}

/// Copies a message body; the copy's views equal the original's.
pub fn clone_variant(v: &Variant) -> (r: Variant)
{
    match v {
        Variant::UserMessage(bytes) => Variant::UserMessage(clone_bytes(bytes)),
        Variant::BootstrapRequest(name) => Variant::BootstrapRequest(*name),
        Variant::BootstrapResponse(BootstrapResponse::Join(info)) => Variant::BootstrapResponse(
            BootstrapResponse::Join(clone_elders_info(info)),
        ),
        Variant::BootstrapResponse(BootstrapResponse::Rebootstrap(addrs)) => {
            Variant::BootstrapResponse(BootstrapResponse::Rebootstrap(clone_addrs_owned(addrs)))
        },
        Variant::JoinRequest(req) => Variant::JoinRequest(*req),
        Variant::JoinResponse(JoinResponse::Approval(gen)) => Variant::JoinResponse(
            JoinResponse::Approval(
                GenesisPfxInfo {
                    elders_info: clone_elders_info(&gen.elders_info),
                    section_key: gen.section_key,
                },
            ),
        ),
        Variant::JoinResponse(JoinResponse::Retry(info)) => Variant::JoinResponse(
            JoinResponse::Retry(clone_elders_info(info)),
        ),
        Variant::JoinResponse(JoinResponse::Rejected(reason)) => Variant::JoinResponse(
            JoinResponse::Rejected(*reason),
        ),
        Variant::JoinResponse(JoinResponse::ResourceChallenge { nonce }) => Variant::JoinResponse(
            JoinResponse::ResourceChallenge { nonce: *nonce },
        ),
        Variant::JoinAsRelocatedRequest(req) => Variant::JoinAsRelocatedRequest(*req),
        Variant::Relocate(details) => Variant::Relocate(*details),
        Variant::Bounce { elders_version, message } => Variant::Bounce {
            elders_version: *elders_version,
            message: clone_bytes(message),
        },
        Variant::SectionKnowledge { chain, message } => Variant::SectionKnowledge {
            chain: clone_chain(chain),
            message: clone_bytes(message),
        },
        Variant::MessageSignature { payload, key_index, signer, share } => {
            Variant::MessageSignature {
                payload: clone_bytes(payload),
                key_index: *key_index,
                signer: *signer,
                share: *share,
            }
        },
        Variant::NeighbourInfo(other) => Variant::NeighbourInfo(clone_other_section(other)),
        Variant::Ping => Variant::Ping,
    }
}

/// Copies a committee description.
pub fn clone_elders_info(info: &EldersInfo) -> (r: EldersInfo)
    ensures
        r.prefix == info.prefix,
        r.elders@ == info.elders@,
{
    let elders = clone_peers(&info.elders);
    EldersInfo { prefix: info.prefix, elders }
}

/// Copies an owned address list.
pub fn clone_addrs_owned(v: &Vec<PeerAddr>) -> (r: Vec<PeerAddr>)
    ensures
        r@ == v@,
{
    clone_addrs(v)
}

/// Copies a key chain.
pub fn clone_chain(c: &SectionChain) -> (r: SectionChain)
    ensures
        r.keys@ == c.keys@,
        r.sigs@ == c.sigs@,
{
    let mut keys: Vec<BlsPublicKeyBytes> = Vec::new();
    let mut i: usize = 0;
    while i < c.keys.len()
        invariant
            i <= c.keys@.len(),
            keys@ == c.keys@.subrange(0, i as int),
        decreases c.keys@.len() - i,
    {
        keys.push(c.keys[i]);
        proof {
            assert(c.keys@.subrange(0, i as int).push(c.keys@[i as int]) =~= c.keys@.subrange(
                0,
                i + 1,
            ));
        }
        i = i + 1;
    }
    let mut sigs: Vec<BlsSignatureBytes> = Vec::new();
    let mut j: usize = 0;
    while j < c.sigs.len()
        invariant
            j <= c.sigs@.len(),
            sigs@ == c.sigs@.subrange(0, j as int),
        decreases c.sigs@.len() - j,
    {
        sigs.push(c.sigs[j]);
        proof {
            assert(c.sigs@.subrange(0, j as int).push(c.sigs@[j as int]) =~= c.sigs@.subrange(
                0,
                j + 1,
            ));
        }
        j = j + 1;
    }
    proof {
        assert(keys@ =~= c.keys@);
        assert(sigs@ =~= c.sigs@);
    }
    SectionChain { keys, sigs }
}

/// Copies a section entry; the copy's views equal the original's.
pub fn clone_other_section(o: &OtherSection) -> (r: OtherSection)
    ensures
        r.prefix_spec() == o.prefix_spec(),
        r.section_auth.value.prefix == o.section_auth.value.prefix,
        r.section_auth.value.elders@ == o.section_auth.value.elders@,
        r.section_auth.value.public_key == o.section_auth.value.public_key,
        r.key_sig == o.key_sig,
{
    let elders = clone_peers(&o.section_auth.value.elders);
    OtherSection {
        section_auth: crate::types::SectionSigned {
            value: crate::types::SectionAuthorityProvider {
                prefix: o.section_auth.value.prefix,
                elders,
                public_key: o.section_auth.value.public_key,
            },
            sig: o.section_auth.sig,
        },
        key_sig: o.key_sig,
    }
}

/// A fixed note for the unpolled-observations report.
fn unpolled_note() -> (r: String)
    ensures
        r@ =~= "unpolled observations"@,
{
    let s: &str = "unpolled observations";
    s.to_owned()
}

/// Copies a peer list.
pub fn clone_peers(v: &Vec<Peer>) -> (r: Vec<Peer>)
    ensures
        r@ == v@,
{
    let mut out: Vec<Peer> = Vec::new();
    let mut i: usize = 0;
    while i < v.len()
        invariant
            i <= v@.len(),
            out@ == v@.subrange(0, i as int),
        decreases v@.len() - i,
    {
        out.push(v[i]);
        proof {
            assert(v@.subrange(0, i as int).push(v@[i as int]) =~= v@.subrange(0, i + 1));
        }
        i = i + 1;
    }
    proof {
        assert(v@.subrange(0, v@.len() as int) =~= v@);
    }
    out
}

/// Copies an address list.
pub fn clone_addrs(v: &Vec<PeerAddr>) -> (r: Vec<PeerAddr>)
    ensures
        r@ == v@,
{
    let mut out: Vec<PeerAddr> = Vec::new();
    let mut i: usize = 0;
    while i < v.len()
        invariant
            i <= v@.len(),
            out@ == v@.subrange(0, i as int),
        decreases v@.len() - i,
    {
        out.push(v[i]);
        proof {
            assert(v@.subrange(0, i as int).push(v@[i as int]) =~= v@.subrange(0, i + 1));
        }
        i = i + 1;
    }
    proof {
        assert(v@.subrange(0, v@.len() as int) =~= v@);
    }
    out
}

} // verus!
