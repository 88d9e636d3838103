//! The laws that relate the library's operations to one another, proved
//! from their contracts: address determinism, blob round trips, delete
//! semantics, bounce monotonicity and single-use relocation.

use vstd::prelude::*;
use crate::approved_peer::{spec_bounce_resends, spec_relocation_accepted, spec_verify_message,
    Approved, ApprovedPeer, Stage};
use crate::blob::{se_ok, ChunkAddress, Error};
use crate::bls::sig_valid;
use crate::chunk_store::{addr_view, slookup};
use crate::client::{slice_spec, spec_blob_address, spec_create_ensures, spec_head_fits,
    spec_read_full, Client, StoreV};
use crate::routing_msgs::{JoinAsRelocatedRequest, Message, SrcAuthority};
use crate::types::{BlsPublicKeyBytes, Peer};

verus! {

/// Address determinism: the address an offline data-map computation
/// reports and the address a real write returns are the same function of
/// the payload and owner, whenever the head chunk fits without an extra
/// wrapping level (with the leaf encryptor in use, every payload up to the
/// protocol maximum fits).
pub proof fn lemma_address_determinism(
    data: Seq<u8>,
    owner: Option<BlsPublicKeyBytes>,
    planned: ChunkAddress,
    pre: Client,
    post: Client,
    stored: ChunkAddress,
)
    requires
        spec_head_fits(data, owner),
        addr_view(planned) == spec_blob_address(data, owner),
        spec_create_ensures(pre, post, data, owner, Ok(stored)),
    ensures
        addr_view(stored) == addr_view(planned),
{
}

/// Round trip: a payload written successfully is read back whole from the
/// store the write produced.
pub proof fn lemma_round_trip(
    pre: Client,
    post: Client,
    data: Seq<u8>,
    owner: Option<BlsPublicKeyBytes>,
    addr: ChunkAddress,
)
    requires
        spec_create_ensures(pre, post, data, owner, Ok(addr)),
    ensures
        spec_read_full(post.store.view_spec(), addr.is_public_spec(), addr.name_spec()@) == Some(
            data,
        ),
        slice_spec(data, None, None) == data,
{
    assert(slice_spec(data, None, None) =~= data);
}

/// Partial read: reading `[i, i + n)` of a written payload yields exactly
/// that range of the payload, for any in-range `i` and `n`.
pub proof fn lemma_partial_read(
    pre: Client,
    post: Client,
    data: Seq<u8>,
    owner: Option<BlsPublicKeyBytes>,
    addr: ChunkAddress,
    i: usize,
    n: usize,
)
    requires
        spec_create_ensures(pre, post, data, owner, Ok(addr)),
        i + n <= data.len(),
    ensures
        spec_read_full(post.store.view_spec(), addr.is_public_spec(), addr.name_spec()@) == Some(
            data,
        ),
        slice_spec(data, Some(i), Some(n)) == data.subrange(i as int, i + n),
{
}

/// Idempotence: two successful writes of the same payload under the same
/// owner return equal addresses, and the second write changes nothing the
/// first store already held.
pub proof fn lemma_put_idempotent(
    s0: Client,
    s1: Client,
    s2: Client,
    data: Seq<u8>,
    owner: Option<BlsPublicKeyBytes>,
    a1: ChunkAddress,
    a2: ChunkAddress,
)
    requires
        spec_head_fits(data, owner),
        spec_create_ensures(s0, s1, data, owner, Ok(a1)),
        spec_create_ensures(s1, s2, data, owner, Ok(a2)),
    ensures
        addr_view(a2) == addr_view(a1),
        forall|b: bool, n: Seq<u8>|
            slookup(s1.store.view_spec(), b, n) is Some ==> #[trigger] slookup(
                s2.store.view_spec(),
                b,
                n,
            ) == slookup(s1.store.view_spec(), b, n),
{
}

/// Delete semantics: after deleting a private blob, a read at its address
/// reports that the data is not found, and a fresh write of the same
/// payload returns the same address, because the address is a function of
/// payload and owner alone.
pub proof fn lemma_delete_then_reput(
    data: Seq<u8>,
    owner: BlsPublicKeyBytes,
    deleted_view: StoreV,
    addr: ChunkAddress,
    pre2: Client,
    post2: Client,
    addr2: ChunkAddress,
)
    requires
        spec_head_fits(data, Some(owner)),
        addr_view(addr) == spec_blob_address(data, Some(owner)),
        slookup(deleted_view, addr.is_public_spec(), addr.name_spec()@) is None,
        spec_create_ensures(pre2, post2, data, Some(owner), Ok(addr2)),
    ensures
        spec_read_full(deleted_view, addr.is_public_spec(), addr.name_spec()@) is None,
        addr_view(addr2) == addr_view(addr),
{
}

/// Bounce monotonicity, the bouncing side: a message from a whole section
/// that fails verification only for want of the referenced key verifies as
/// soon as the node's chain comes to know that key; the signature check
/// itself never changes, so an unverifiable message is bounced again at
/// unchanged cost.
pub proof fn lemma_bounce_acceptance(p1: ApprovedPeer, p2: ApprovedPeer, msg: Message)
    requires
        msg.src matches SrcAuthority::Section { sig } && sig_valid(
            sig.public_key@,
            sig.signature@,
            msg.signed_bytes@,
        ),
        p1.stage matches Stage::Approved(a1) && (msg.src matches SrcAuthority::Section { sig }
            ==> !a1.chain.keys.is_known_spec(sig.public_key)),
        p2.stage matches Stage::Approved(a2) && (msg.src matches SrcAuthority::Section { sig }
            ==> a2.chain.keys.is_known_spec(sig.public_key)),
    ensures
        !spec_verify_message(p1, msg),
        spec_verify_message(p2, msg),
{
}

/// Bounce monotonicity, the resending side: an approved node resends a
/// bounced message exactly to a member it knows whose stated key version
/// lags its own; a bounce whose version is ahead or unknown is dropped,
/// and the same bounce from the same peer at the same version is decided
/// the same way every time.
pub proof fn lemma_bounce_resend_decision(p: ApprovedPeer, sender: Peer, v: Option<u64>)
    requires
        p.stage matches Stage::Approved(a),
    ensures
        spec_bounce_resends(p, sender, v) == (match p.stage {
            Stage::Approved(a) => a.chain.is_joined_member_spec(sender.name) && (
            v matches Some(sv) && sv < a.chain.version_spec()),
            _ => false,
        }),
{
}

/// Relocation payloads admit a node at most once: a payload consumed by an
/// accepting join is no longer acceptable in any later state that keeps
/// the consumed-payload record.
pub proof fn lemma_relocation_single_use(a_after: Approved, req: JoinAsRelocatedRequest)
    requires
        a_after.chain.relocation_used_spec(req.relocate_payload.details.sig.signature),
    ensures
        !spec_relocation_accepted(a_after, req),
{
}

} // verus!
