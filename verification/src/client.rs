//! The client's blob surface: store a payload as self-encrypted chunks
//! under a deterministic head address, read any range of it back, and
//! delete private blobs. The network is a content-addressed chunk store;
//! a write is committed only after the blob has been read back from the
//! candidate store, so a successful write is readable by construction.

use vstd::prelude::*;
use crate::approved_peer::clone_bytes;
use crate::blob::{chunks_view, content_hash, hash_of, map_parse_of, names_view, se_chunks_of, se_decrypt,
    se_decrypt_of, se_encrypt, se_map_bytes_of, se_ok, se_parse_map, ChunkAddress, Error,
    MAX_BLOB_BYTES, MAX_CHUNK_BYTES, MAX_LEVELS};
use crate::chunk_store::{addr_view, slookup, store_view, ChunkStore};
use crate::name::XorName;
use crate::types::BlsPublicKeyBytes;

verus! {

/// The store at the specification level.
pub type StoreV = Seq<((bool, Seq<u8>), Seq<u8>)>;

/// The bytes of every named chunk, in order; nothing when one is missing.
pub open spec fn spec_fetch_all(s: StoreV, names: Seq<Seq<u8>>, public: bool) -> Option<
    Seq<Seq<u8>>,
>
    decreases names.len(),
{
    if names.len() == 0 {
        Some(Seq::empty())
    } else {
        match slookup(s, public, names[0]) {
            None => None,
            Some(v) => match spec_fetch_all(s, names.drop_first(), public) {
                None => None,
                Some(rest) => Some(seq![v] + rest),
            },
        }
    }
}

/// A stored chunk's byte form: a namespace tag, the owner key when
/// private, then the payload.
pub open spec fn spec_chunk_decode(bytes: Seq<u8>) -> Option<(Seq<u8>, bool)> {
    if bytes.len() < 1 {
        None
    } else if bytes[0] == 0 {
        Some((bytes.skip(1), true))
    } else if bytes[0] == 1 {
        if bytes.len() < 49 {
            None
        } else {
            Some((bytes.skip(49), false))
        }
    } else {
        None
    }
}

/// Unwraps a head chunk's content down to the user bytes: the content is a
/// level tag and a serialized data map; the map's chunks are fetched and
/// decrypted; a root level yields the bytes, a child level holds a wrapped
/// chunk to recurse into.
pub open spec fn spec_unpack(s: StoreV, content: Seq<u8>, public: bool, fuel: nat) -> Option<
    Seq<u8>,
>
    decreases fuel,
{
    if content.len() < 1 || content[0] > 1 {
        None
    } else {
        let mb = content.skip(1);
        match map_parse_of(mb) {
            None => None,
            Some(parsed) => {
                if parsed.0 is Some {
                    None
                } else {
                    match spec_fetch_all(s, parsed.1, public) {
                        None => None,
                        Some(chunks) => match se_decrypt_of(mb, chunks) {
                            None => None,
                            Some(bytes) => {
                                if content[0] == 0 {
                                    Some(bytes)
                                } else if fuel == 0 {
                                    None
                                } else {
                                    match spec_chunk_decode(bytes) {
                                        None => None,
                                        Some(inner) => {
                                            if inner.1 != public {
                                                None
                                            } else {
                                                spec_unpack(
                                                    s,
                                                    inner.0,
                                                    public,
                                                    (fuel - 1) as nat,
                                                )
                                            }
                                        },
                                    }
                                }
                            },
                        },
                    }
                }
            },
        }
    }
}

/// The user bytes a blob head address denotes in the store, when a whole
/// blob stands there.
pub open spec fn spec_read_full(s: StoreV, public: bool, name: Seq<u8>) -> Option<Seq<u8>> {
    match slookup(s, public, name) {
        None => None,
        Some(head) => spec_unpack(s, head, public, MAX_LEVELS as nat),
    }
}

/// The range a read with these bounds returns: from the position (clamped
/// to the length) to the end of the requested length (clamped likewise).
pub open spec fn slice_spec(full: Seq<u8>, position: Option<usize>, len: Option<usize>) -> Seq<
    u8,
> {
    let p0 = match position {
        Some(p) => p as int,
        None => 0,
    };
    let start = if p0 < full.len() {
        p0
    } else {
        full.len() as int
    };
    let end = match len {
        Some(l) => if start + l < full.len() {
            start + l
        } else {
            full.len() as int
        },
        None => full.len() as int,
    };
    full.subrange(start, end)
}

/// The head content at the root level: a root tag before the serialized
/// data map of the payload.
pub open spec fn spec_head_payload(data: Seq<u8>) -> Seq<u8> {
    seq![0u8] + se_map_bytes_of(data)
}

/// What a chunk's byte form adds to its payload: the namespace tag and,
/// for a private chunk, the owner key.
pub open spec fn owner_overhead(owner: Option<BlsPublicKeyBytes>) -> int {
    match owner {
        None => 1int,
        Some(_) => 49int,
    }
}

/// The byte form of a stored chunk: a namespace tag, the owner key when
/// private, then the payload.
pub open spec fn spec_chunk_encode(payload: Seq<u8>, owner: Option<BlsPublicKeyBytes>) -> Seq<
    u8,
> {
    match owner {
        None => seq![0u8] + payload,
        Some(o) => seq![1u8] + o@ + payload,
    }
}

/// The head content after `k` wrapping levels: the root map at level zero;
/// above it, a child tag before the serialized map of the encoded chunk of
/// the level below.
pub open spec fn spec_head_level(data: Seq<u8>, owner: Option<BlsPublicKeyBytes>, k: nat) -> Seq<
    u8,
>
    decreases k,
{
    if k == 0 {
        spec_head_payload(data)
    } else {
        seq![1u8] + se_map_bytes_of(spec_chunk_encode(spec_head_level(data, owner, (k - 1) as nat), owner))
    }
}

/// Whether the head chunk of wrapping level `k` fits the chunk limit.
pub open spec fn spec_head_fits_at(data: Seq<u8>, owner: Option<BlsPublicKeyBytes>, k: nat) -> bool {
    spec_head_level(data, owner, k).len() + owner_overhead(owner) <= MAX_CHUNK_BYTES
}

/// The first wrapping level at or above `j` whose head chunk fits; past
/// the level bound when none does.
pub open spec fn spec_pack_level_from(data: Seq<u8>, owner: Option<BlsPublicKeyBytes>, j: nat) -> nat
    decreases MAX_LEVELS + 1 - j,
{
    if j > MAX_LEVELS {
        j
    } else if spec_head_fits_at(data, owner, j) {
        j
    } else {
        spec_pack_level_from(data, owner, j + 1)
    }
}

/// The wrapping level a write of this payload packs to.
pub open spec fn spec_pack_level(data: Seq<u8>, owner: Option<BlsPublicKeyBytes>) -> nat {
    spec_pack_level_from(data, owner, 0)
}

/// The address a head content stores under: its hash, keyed with the owner
/// in the private namespace.
pub open spec fn spec_addr_of_head(head: Seq<u8>, owner: Option<BlsPublicKeyBytes>) -> (
    bool,
    Seq<u8>,
) {
    match owner {
        None => (true, hash_of(head)),
        Some(o) => (false, hash_of(head + o@)),
    }
}

/// The deterministic head address of a payload that packs without an extra
/// wrapping level.
pub open spec fn spec_blob_address(data: Seq<u8>, owner: Option<BlsPublicKeyBytes>) -> (
    bool,
    Seq<u8>,
) {
    spec_addr_of_head(spec_head_payload(data), owner)
}

/// Whether the payload's head chunk fits the chunk limit without another
/// wrapping level.
pub open spec fn spec_head_fits(data: Seq<u8>, owner: Option<BlsPublicKeyBytes>) -> bool {
    spec_head_fits_at(data, owner, 0)
}

/// A run of unfit levels below a fitting one pins the pack level.
pub proof fn lemma_pack_level_pinned(
    data: Seq<u8>,
    owner: Option<BlsPublicKeyBytes>,
    j: nat,
    level: nat,
)
    requires
        j <= level <= MAX_LEVELS,
        forall|m: nat| j <= m < level ==> !spec_head_fits_at(data, owner, m),
        spec_head_fits_at(data, owner, level),
    ensures
        spec_pack_level_from(data, owner, j) == level,
    decreases level - j,
{
    if j < level {
        lemma_pack_level_pinned(data, owner, j + 1, level);
    }
}

/// One stored entry at the specification level.
pub open spec fn entry_view(e: (ChunkAddress, Vec<u8>)) -> ((bool, Seq<u8>), Seq<u8>) {
    (addr_view(e.0), e.1@)
}

/// The entries one wrapping level stores: each chunk under its map name.
pub open spec fn level_pairs(public: bool, names: Seq<Seq<u8>>, chunks: Seq<Seq<u8>>) -> Seq<
    ((bool, Seq<u8>), Seq<u8>),
> {
    Seq::new(names.len(), |i: int| ((public, names[i]), chunks[i]))
}

/// The chunk names of a payload's root-level data map, when the map parses
/// without a shrink level.
pub open spec fn spec_plan_names(data: Seq<u8>) -> Option<Seq<Seq<u8>>> {
    match map_parse_of(se_map_bytes_of(data)) {
        Some(parsed) => if parsed.0 is None {
            Some(parsed.1)
        } else {
            None
        },
        None => None,
    }
}

/// A payload whose write takes the plain single-level shape: the
/// self-encryptor maps it, the map parses without a shrink level with one
/// name per chunk, and the head chunk fits the chunk limit.
pub open spec fn spec_level0_ok(data: Seq<u8>, owner: Option<BlsPublicKeyBytes>) -> bool {
    &&& se_ok(data)
    &&& spec_head_fits(data, owner)
    &&& spec_plan_names(data) matches Some(names) && names.len() == se_chunks_of(data).len()
    &&& forall|i: int|
        0 <= i < se_chunks_of(data).len() ==> (#[trigger] se_chunks_of(data)[i]).len()
            + owner_overhead(owner) <= MAX_CHUNK_BYTES
}

/// A store takes the payload's chunks without conflict: every one of the
/// blob's names is either free or already holds the same bytes, and equal
/// names within the blob carry equal bytes.
pub open spec fn spec_no_conflict(
    store: StoreV,
    data: Seq<u8>,
    owner: Option<BlsPublicKeyBytes>,
) -> bool {
    let public = owner is None;
    let names = spec_plan_names(data)->Some_0;
    let chunks = se_chunks_of(data);
    let head = spec_head_payload(data);
    let hkey = spec_blob_address(data, owner);
    &&& forall|i: int|
        0 <= i < names.len() ==> match slookup(store, public, #[trigger] names[i]) {
            Some(v) => v == chunks[i],
            None => true,
        }
    &&& match slookup(store, hkey.0, hkey.1) {
        Some(v) => v == head,
        None => true,
    }
    &&& forall|i: int, j: int|
        0 <= i < names.len() && 0 <= j < names.len() && #[trigger] names[i] == #[trigger] names[j]
            ==> chunks[i] == chunks[j]
    &&& forall|i: int| 0 <= i < names.len() && #[trigger] names[i] == hkey.1 ==> chunks[i] == head
}

/// A store in which every named chunk resolves to its bytes fetches them
/// all, in order.
pub proof fn lemma_fetch_all_pointwise(
    s: StoreV,
    names: Seq<Seq<u8>>,
    chunks: Seq<Seq<u8>>,
    public: bool,
)
    requires
        names.len() == chunks.len(),
        forall|i: int|
            0 <= i < names.len() ==> slookup(s, public, #[trigger] names[i]) == Some(chunks[i]),
    ensures
        spec_fetch_all(s, names, public) == Some(chunks),
    decreases names.len(),
{
    if names.len() == 0 {
        assert(chunks =~= Seq::<Seq<u8>>::empty());
    } else {
        assert(forall|i: int|
            0 <= i < names.drop_first().len() ==> #[trigger] names.drop_first()[i] == names[i
                + 1]);
        lemma_fetch_all_pointwise(s, names.drop_first(), chunks.drop_first(), public);
        assert(seq![chunks[0]] + chunks.drop_first() =~= chunks);
    }
}

/// Copies the tail of a byte vector from `start` on.
pub fn bytes_tail(v: &Vec<u8>, start: usize) -> (r: Vec<u8>)
    requires
        start <= v@.len(),
    ensures
        r@ == v@.skip(start as int),
{
    let mut out: Vec<u8> = Vec::new();
    let mut i: usize = start;
    while i < v.len()
        invariant
            start <= i <= v@.len(),
            out@ == v@.subrange(start as int, i as int),
        decreases v@.len() - i,
    {
        out.push(v[i]);
        proof {
            assert(v@.subrange(start as int, i as int).push(v@[i as int]) =~= v@.subrange(
                start as int,
                i + 1,
            ));
        }
        i = i + 1;
    }
    proof {
        assert(v@.subrange(start as int, v@.len() as int) =~= v@.skip(start as int));
    }
    out
}

/// Encodes a chunk for wrapping: a namespace tag, the owner when private,
/// then the payload.
pub fn encode_chunk(payload: &Vec<u8>, owner: &Option<BlsPublicKeyBytes>) -> (r: Vec<u8>)
    ensures
        r@ == spec_chunk_encode(payload@, *owner),
        spec_chunk_decode(r@) == Some((payload@, owner is None)),
        r@.len() == 1 + payload@.len() + (match *owner {
            None => 0int,
            Some(_) => 48int,
        }),
{
    let mut out: Vec<u8> = Vec::new();
    match owner {
        None => {
            out.push(0);
        },
        Some(o) => {
            out.push(1);
            out.extend_from_slice(o);
        },
    }
    let ghost header = out@;
    out.extend_from_slice(payload.as_slice());
    proof {
        assert(out@ =~= header + payload@);
        assert(out@.skip(header.len() as int) =~= payload@);
    }
    out
}

/// Decodes a wrapped chunk back into its payload and namespace.
pub fn decode_chunk(bytes: &Vec<u8>) -> (r: Option<(Vec<u8>, bool)>)
    ensures
        match r {
            Some(p) => spec_chunk_decode(bytes@) == Some((p.0@, p.1)),
            None => spec_chunk_decode(bytes@) is None,
        },
{
    if bytes.len() < 1 {
        return None;
    }
    let tag = bytes[0];
    if tag == 0 {
        Some((bytes_tail(bytes, 1), true))
    } else if tag == 1 {
        if bytes.len() < 49 {
            None
        } else {
            Some((bytes_tail(bytes, 49), false))
        }
    } else {
        None
    }
}

/// Fetches every named chunk from the store, in map order.
pub fn fetch_chunks(store: &ChunkStore, names: &Vec<XorName>, public: bool) -> (r: Option<
    Vec<Vec<u8>>,
>)
    ensures
        match r {
            Some(chunks) => spec_fetch_all(store.view_spec(), names_view(names@), public) == Some(
                chunks_view(chunks@),
            ),
            None => spec_fetch_all(store.view_spec(), names_view(names@), public) is None,
        },
{
    let ghost sv = store.view_spec();
    let ghost nv = names_view(names@);
    let mut out: Vec<Vec<u8>> = Vec::new();
    let n = names.len();
    let mut i: usize = 0;
    proof {
        assert(nv.skip(0) =~= nv);
    }
    while i < n
        invariant
            i <= n,
            n == names@.len(),
            sv == store.view_spec(),
            nv == names_view(names@),
            out@.len() == i,
            spec_fetch_all(sv, nv, public) == (match spec_fetch_all(sv, nv.skip(i as int), public) {
                Some(rest) => Some(chunks_view(out@) + rest),
                None => None::<Seq<Seq<u8>>>,
            }),
        decreases n - i,
    {
        proof {
            assert(nv.skip(i as int)[0] == nv[i as int]);
            assert(nv.skip(i as int).drop_first() =~= nv.skip(i + 1));
        }
        let addr = if public {
            ChunkAddress::Public(names[i])
        } else {
            ChunkAddress::Private(names[i])
        };
        let bytes = match store.get(&addr) {
            Some(v) => clone_bytes(v),
            None => {
                return None;
            },
        };
        let ghost pre = out@;
        out.push(bytes);
        proof {
            assert(chunks_view(out@) =~= chunks_view(pre).push(bytes@));
            if let Some(rest) = spec_fetch_all(sv, nv.skip(i + 1), public) {
                assert(chunks_view(pre) + (seq![bytes@] + rest) =~= chunks_view(out@) + rest);
            }
        }
        i = i + 1;
    }
    proof {
        assert(nv.skip(n as int) =~= Seq::<Seq<u8>>::empty());
        assert(chunks_view(out@) + Seq::<Seq<u8>>::empty() =~= chunks_view(out@));
    }
    Some(out)
}

/// Reads the whole blob under the head address from the store.
pub fn read_full(store: &ChunkStore, addr: &ChunkAddress) -> (r: Result<Vec<u8>, Error>)
    ensures
        match spec_read_full(store.view_spec(), addr.is_public_spec(), addr.name_spec()@) {
            Some(b) => r matches Ok(v) && v@ == b,
            None => r is Err,
        },
        (slookup(store.view_spec(), addr.is_public_spec(), addr.name_spec()@) is None) ==> r
            == Err::<Vec<u8>, Error>(Error::DataNotFound),
{
    let ghost sv = store.view_spec();
    let public = addr.is_public();
    let head = match store.get(addr) {
        Some(v) => clone_bytes(v),
        None => {
            return Err(Error::DataNotFound);
        },
    };
    let mut cur = head;
    let mut fuel: usize = MAX_LEVELS;
    loop
        invariant
            sv == store.view_spec(),
            spec_unpack(sv, cur@, public, fuel as nat) == spec_read_full(
                sv,
                addr.is_public_spec(),
                addr.name_spec()@,
            ),
        decreases fuel,
    {
        if cur.len() < 1 {
            return Err(Error::SelfEncryption);
        }
        let tag = cur[0];
        if tag > 1 {
            return Err(Error::SelfEncryption);
        }
        let mb = bytes_tail(&cur, 1);
        let (child, names) = match se_parse_map(&mb) {
            Some(p) => p,
            None => {
                return Err(Error::SelfEncryption);
            },
        };
        if child.is_some() {
            return Err(Error::SelfEncryption);
        }
        let chunks = match fetch_chunks(store, &names, public) {
            Some(c) => c,
            None => {
                return Err(Error::DataNotFound);
            },
        };
        let bytes = match se_decrypt(&mb, &chunks) {
            Some(b) => b,
            None => {
                return Err(Error::SelfEncryption);
            },
        };
        if tag == 0 {
            return Ok(bytes);
        }
        if fuel == 0 {
            return Err(Error::SelfEncryption);
        }
        let (payload, inner_public) = match decode_chunk(&bytes) {
            Some(p) => p,
            None => {
                return Err(Error::SelfEncryption);
            },
        };
        if inner_public != public {
            return Err(Error::SelfEncryption);
        }
        cur = payload;
        fuel = fuel - 1;
    }
}

/// Plans a blob write without touching any store: the chunk entries to
/// store (leaf chunks of every wrapping level, the head chunk last) and
/// the head address, all deterministic in the payload and owner, with
/// every entry inside the per-chunk size limit.
fn plan_blob(data: &Vec<u8>, owner: &Option<BlsPublicKeyBytes>) -> (r: Result<
    (Vec<u8>, Vec<(ChunkAddress, Vec<u8>)>, ChunkAddress),
    Error,
>)
    ensures
        data@.len() > MAX_BLOB_BYTES ==> r == Err::<
            (Vec<u8>, Vec<(ChunkAddress, Vec<u8>)>, ChunkAddress),
            Error,
        >(Error::ExceededSize),
        data@.len() <= MAX_BLOB_BYTES && !se_ok(data@) ==> r == Err::<
            (Vec<u8>, Vec<(ChunkAddress, Vec<u8>)>, ChunkAddress),
            Error,
        >(Error::SelfEncryption),
        match r {
            Ok(p) => {
                &&& p.0@ == se_map_bytes_of(data@)
                &&& spec_pack_level(data@, *owner) <= MAX_LEVELS
                &&& addr_view(p.2) == spec_addr_of_head(
                    spec_head_level(data@, *owner, spec_pack_level(data@, *owner)),
                    *owner,
                )
                &&& (spec_head_fits(data@, *owner) ==> addr_view(p.2) == spec_blob_address(
                    data@,
                    *owner,
                ))
                &&& p.2.is_public_spec() == (owner is None)
                &&& forall|i: int|
                    0 <= i < p.1@.len() ==> (#[trigger] p.1@[i]).0.is_public_spec() == (
                    owner is None)
                &&& forall|i: int|
                    0 <= i < p.1@.len() ==> (#[trigger] p.1@[i]).1@.len() + owner_overhead(
                        *owner,
                    ) <= MAX_CHUNK_BYTES
                &&& se_decrypt_of(se_map_bytes_of(data@), se_chunks_of(data@)) == Some(data@)
                &&& (spec_level0_ok(data@, *owner) ==> store_view(p.1@) == level_pairs(
                    owner is None,
                    spec_plan_names(data@)->Some_0,
                    se_chunks_of(data@),
                ).push((spec_blob_address(data@, *owner), spec_head_payload(data@))))
            },
            Err(_) => true,
        },
        (data@.len() <= MAX_BLOB_BYTES && spec_level0_ok(data@, *owner)) ==> r is Ok,
{
    if data.len() > MAX_BLOB_BYTES {
        return Err(Error::ExceededSize);
    }
    let public = owner.is_none();
    let (map_bytes, chunks) = match se_encrypt(data) {
        Some(p) => p,
        None => {
            return Err(Error::SelfEncryption);
        },
    };
    let root_map = clone_bytes(&map_bytes);
    let mut entries: Vec<(ChunkAddress, Vec<u8>)> = Vec::new();
    let mut head_payload: Vec<u8> = Vec::new();
    head_payload.push(0);
    head_payload.extend_from_slice(map_bytes.as_slice());
    proof {
        assert(head_payload@ =~= spec_head_payload(data@));
    }
    let ghost first_fits = spec_head_fits(data@, *owner);
    let ghost level0 = spec_level0_ok(data@, *owner);
    let ghost level0_pairs = level_pairs(
        public,
        spec_plan_names(data@)->Some_0,
        se_chunks_of(data@),
    );
    proof {
        if level0 {
            assert forall|i: int|
                0 <= i < chunks@.len() implies (#[trigger] chunks@[i])@.len() + (if public {
                1int
            } else {
                49int
            }) <= MAX_CHUNK_BYTES by {
                assert(chunks_view(chunks@)[i] == chunks@[i]@);
                assert(chunks_view(chunks@)[i] == se_chunks_of(data@)[i]);
            }
        }
    }
    if let Err(e) = push_level_entries(&mut entries, &map_bytes, &chunks, public) {
        return Err(e);
    }
    proof {
        if level0 {
            assert(store_view(entries@) =~= level0_pairs);
        }
    }
    let overhead: usize = if public {
        1
    } else {
        49
    };
    let mut level: usize = 0;
    loop
        invariant
            head_payload@.len() >= 1,
            owner is Some <==> !public,
            overhead == owner_overhead(*owner),
            level <= MAX_LEVELS,
            head_payload@ == spec_head_level(data@, *owner, level as nat),
            forall|m: nat| m < level ==> !spec_head_fits_at(data@, *owner, m),
            spec_head_fits(data@, *owner) ==> level == 0,
            level0 ==> (level == 0 && store_view(entries@) == level0_pairs),
            forall|i: int|
                0 <= i < entries@.len() ==> (#[trigger] entries@[i]).0.is_public_spec()
                    == public,
            forall|i: int|
                0 <= i < entries@.len() ==> (#[trigger] entries@[i]).1@.len() + owner_overhead(
                    *owner,
                ) <= MAX_CHUNK_BYTES,
        decreases MAX_LEVELS - level,
    {
        if head_payload.len() <= MAX_CHUNK_BYTES && MAX_CHUNK_BYTES - head_payload.len()
            >= overhead {
            proof {
                assert(spec_head_fits_at(data@, *owner, level as nat));
            }
            break ;
        }
        proof {
            assert(!spec_head_fits_at(data@, *owner, level as nat));
            if level == 0 {
                assert(!first_fits);
            }
        }
        if level >= MAX_LEVELS {
            return Err(Error::ExceededSize);
        }
        let encoded = encode_chunk(&head_payload, owner);
        let (inner_map, inner_chunks) = match se_encrypt(&encoded) {
            Some(p) => p,
            None => {
                return Err(Error::SelfEncryption);
            },
        };
        if let Err(e) = push_level_entries(&mut entries, &inner_map, &inner_chunks, public) {
            return Err(e);
        }
        let mut next: Vec<u8> = Vec::new();
        next.push(1);
        next.extend_from_slice(inner_map.as_slice());
        proof {
            assert(next@ =~= seq![1u8] + se_map_bytes_of(spec_chunk_encode(
                spec_head_level(data@, *owner, level as nat),
                *owner,
            )));
            assert(next@ == spec_head_level(data@, *owner, (level + 1) as nat));
        }
        head_payload = next;
        level = level + 1;
    }
    proof {
        lemma_pack_level_pinned(data@, *owner, 0, level as nat);
    }
    let name = match owner {
        None => content_hash(&head_payload),
        Some(o) => {
            let mut keyed = clone_bytes(&head_payload);
            keyed.extend_from_slice(o);
            proof {
                assert(keyed@ =~= head_payload@ + o@);
            }
            content_hash(&keyed)
        },
    };
    let addr = if public {
        ChunkAddress::Public(name)
    } else {
        ChunkAddress::Private(name)
    };
    let ghost entries_before_head = entries@;
    entries.push((addr, head_payload));
    proof {
        assert(addr_view(addr) == spec_addr_of_head(
            spec_head_level(data@, *owner, spec_pack_level(data@, *owner)),
            *owner,
        ));
        if first_fits {
            assert(addr_view(addr) == spec_blob_address(data@, *owner));
        }
        if level0 {
            assert(store_view(entries@) =~= store_view(entries_before_head).push(
                (addr_view(addr), spec_head_payload(data@)),
            ));
        }
    }
    Ok((root_map, entries, addr))
}

/// Records one wrapping level's leaf chunks under their map names; fails
/// when the map disagrees with the chunk list or a chunk would exceed the
/// per-chunk size limit.
fn push_level_entries(
    entries: &mut Vec<(ChunkAddress, Vec<u8>)>,
    map_bytes: &Vec<u8>,
    chunks: &Vec<Vec<u8>>,
    public: bool,
) -> (r: Result<(), Error>)
    requires
        forall|i: int|
            0 <= i < old(entries)@.len() ==> (#[trigger] old(entries)@[i]).0.is_public_spec()
                == public,
    ensures
        forall|i: int|
            0 <= i < final(entries)@.len() ==> (#[trigger] final(entries)@[i]).0.is_public_spec()
                == public,
        r is Err ==> final(entries)@ == old(entries)@,
        old(entries)@.len() <= final(entries)@.len(),
        forall|i: int|
            0 <= i < old(entries)@.len() ==> #[trigger] final(entries)@[i] == old(entries)@[i],
        r is Ok ==> forall|i: int|
            old(entries)@.len() <= i < final(entries)@.len() ==> (#[trigger] final(entries)@[i]).1@.len() + (if public {
                1int
            } else {
                49int
            }) <= MAX_CHUNK_BYTES,
        match map_parse_of(map_bytes@) {
            Some(parsed) => (parsed.0 is None && parsed.1.len() == chunks@.len() && (forall|i: int|
                0 <= i < chunks@.len() ==> (#[trigger] chunks@[i])@.len() + (if public {
                    1int
                } else {
                    49int
                }) <= MAX_CHUNK_BYTES)) ==> (r is Ok
                && crate::chunk_store::store_view(final(entries)@)
                == crate::chunk_store::store_view(old(entries)@) + level_pairs(
                public,
                parsed.1,
                chunks_view(chunks@),
            )),
            None => true,
        },
{
    let (child, names) = match se_parse_map(map_bytes) {
        Some(p) => p,
        None => {
            return Err(Error::SelfEncryption);
        },
    };
    if child.is_some() {
        return Err(Error::SelfEncryption);
    }
    if names.len() != chunks.len() {
        return Err(Error::SelfEncryption);
    }
    let overhead: usize = if public {
        1
    } else {
        49
    };
    let n = names.len();
    let mut i: usize = 0;
    while i < n
        invariant
            i <= n,
            n == chunks@.len(),
            overhead == (if public {
                1int
            } else {
                49int
            }),
            forall|k: int|
                0 <= k < i ==> (#[trigger] chunks@[k])@.len() + overhead <= MAX_CHUNK_BYTES,
        decreases n - i,
    {
        if chunks[i].len() > MAX_CHUNK_BYTES || MAX_CHUNK_BYTES - chunks[i].len() < overhead {
            return Err(Error::ExceededSize);
        }
        i = i + 1;
    }
    let ghost base = crate::chunk_store::store_view(entries@);
    let ghost base_len = entries@.len();
    let ghost nv = names_view(names@);
    let ghost cv = chunks_view(chunks@);
    let mut j: usize = 0;
    while j < n
        invariant
            j <= n,
            n == names@.len(),
            n == chunks@.len(),
            nv == names_view(names@),
            cv == chunks_view(chunks@),
            nv.len() == n,
            cv.len() == n,
            overhead == (if public {
                1int
            } else {
                49int
            }),
            forall|k: int|
                0 <= k < n ==> (#[trigger] chunks@[k])@.len() + overhead <= MAX_CHUNK_BYTES,
            entries@.len() == base_len + j,
            forall|k: int| 0 <= k < base_len ==> #[trigger] entries@[k] == old(entries)@[k],
            forall|k: int|
                0 <= k < entries@.len() ==> (#[trigger] entries@[k]).0.is_public_spec()
                    == public,
            forall|k: int|
                base_len <= k < entries@.len() ==> (#[trigger] entries@[k]).1@.len() + overhead
                    <= MAX_CHUNK_BYTES,
            crate::chunk_store::store_view(entries@) == base + level_pairs(
                public,
                nv,
                cv,
            ).subrange(0, j as int),
        decreases n - j,
    {
        let addr = if public {
            ChunkAddress::Public(names[j])
        } else {
            ChunkAddress::Private(names[j])
        };
        let ghost pre = entries@;
        entries.push((addr, clone_bytes(&chunks[j])));
        proof {
            assert(crate::chunk_store::store_view(entries@) =~= crate::chunk_store::store_view(
                pre,
            ).push(((public, nv[j as int]), cv[j as int])));
            assert(level_pairs(public, nv, cv).subrange(0, j as int).push(
                level_pairs(public, nv, cv)[j as int],
            ) =~= level_pairs(public, nv, cv).subrange(0, j + 1));
            assert(base + level_pairs(public, nv, cv).subrange(0, j as int).push(
                ((public, nv[j as int]), cv[j as int]),
            ) =~= (base + level_pairs(public, nv, cv).subrange(0, j as int)).push(
                ((public, nv[j as int]), cv[j as int]),
            ));
        }
        j = j + 1;
    }
    proof {
        assert(level_pairs(public, nv, cv).subrange(0, n as int) =~= level_pairs(public, nv, cv));
    }
    Ok(())
}

/// A client of the blob store: its key, and the chunk store standing for
/// the network it writes to.
pub struct Client {
    /// The chunks the network holds.
    pub store: ChunkStore,
    /// The client's public key, the owner of its private blobs.
    pub public_key: BlsPublicKeyBytes,
}

impl Client {
    /// A client over an empty network.
    pub fn new(public_key: BlsPublicKeyBytes) -> (r: Client)
        ensures
            r.store.wf(),
            r.store.view_spec().len() == 0,
            r.public_key == public_key,
    {
        Client { store: ChunkStore::new(), public_key }
    }

    /// The client's public key.
    pub fn public_key(&self) -> (r: BlsPublicKeyBytes)
        ensures
            r == self.public_key,
    {
        self.public_key
    }

    /// Fetches the head chunk of a blob from the network.
    pub fn fetch_blob_from_network(&self, head_address: &ChunkAddress) -> (r: Result<
        Vec<u8>,
        Error,
    >)
        ensures
            match slookup(
                self.store.view_spec(),
                head_address.is_public_spec(),
                head_address.name_spec()@,
            ) {
                Some(b) => r matches Ok(v) && v@ == b,
                None => r == Err::<Vec<u8>, Error>(Error::DataNotFound),
            },
    {
        match self.store.get(head_address) {
            Some(v) => Ok(clone_bytes(v)),
            None => Err(Error::DataNotFound),
        }
    }

    /// Stores one chunk on the network, unless it exceeds the chunk limit.
    pub fn store_chunk_on_network(&mut self, addr: ChunkAddress, value: Vec<u8>) -> (r: Result<
        (),
        Error,
    >)
        requires
            old(self).store.wf(),
        ensures
            final(self).store.wf(),
            final(self).public_key == old(self).public_key,
            value@.len() + (if addr.is_public_spec() {
                1int
            } else {
                49int
            }) > MAX_CHUNK_BYTES ==> (r == Err::<(), Error>(Error::ExceededSize) && *final(self)
                == *old(self)),
            value@.len() + (if addr.is_public_spec() {
                1int
            } else {
                49int
            }) <= MAX_CHUNK_BYTES ==> (r is Ok && (match slookup(
                old(self).store.view_spec(),
                addr.is_public_spec(),
                addr.name_spec()@,
            ) {
                Some(_) => *final(self) == *old(self),
                None => final(self).store.view_spec() == old(self).store.view_spec().push(
                    ((addr.is_public_spec(), addr.name_spec()@), value@),
                ),
            })),
    {
        let overhead: usize = if addr.is_public() {
            1
        } else {
            49
        };
        if value.len() > MAX_CHUNK_BYTES || MAX_CHUNK_BYTES - value.len() < overhead {
            return Err(Error::ExceededSize);
        }
        let _ = self.store.insert(addr, value);
        Ok(())
    }

    /// Asks the network to drop a private chunk.
    pub fn delete_chunk_from_network(&mut self, address: &ChunkAddress) -> (r: Result<(), Error>)
        requires
            old(self).store.wf(),
        ensures
            final(self).store.wf(),
            final(self).public_key == old(self).public_key,
            r is Ok ==> slookup(
                final(self).store.view_spec(),
                address.is_public_spec(),
                address.name_spec()@,
            ) is None,
            address.is_public_spec() ==> (r == Err::<(), Error>(Error::InvalidOperation)
                && *final(self) == *old(self)),
            !address.is_public_spec() ==> (r is Ok && (forall|b: bool, n: Seq<u8>|
                (b, n) != (address.is_public_spec(), address.name_spec()@) ==> #[trigger] slookup(
                    final(self).store.view_spec(),
                    b,
                    n,
                ) == slookup(old(self).store.view_spec(), b, n))),
    {
        if address.is_public() {
            return Err(Error::InvalidOperation);
        }
        self.store.remove(address);
        Ok(())
    }

    /// Stores a payload as a blob that anyone can read.
    pub fn store_public_blob(&mut self, data: &Vec<u8>) -> (r: Result<ChunkAddress, Error>)
        requires
            old(self).store.wf(),
        ensures
            final(self).store.wf(),
            final(self).public_key == old(self).public_key,
            spec_create_ensures(*old(self), *final(self), data@, None, r),
    {
        self.create_new_blob(data, true)
    }

    /// Stores a payload as a blob only its owner should reach.
    pub fn store_private_blob(&mut self, data: &Vec<u8>) -> (r: Result<ChunkAddress, Error>)
        requires
            old(self).store.wf(),
        ensures
            final(self).store.wf(),
            final(self).public_key == old(self).public_key,
            spec_create_ensures(*old(self), *final(self), data@, Some(old(self).public_key), r),
    {
        self.create_new_blob(data, false)
    }

    /// Self-encrypts the payload, wraps its data map into a head chunk,
    /// stores every chunk, and returns the head address — but commits only
    /// after reading the blob back from the candidate store.
    fn create_new_blob(&mut self, data: &Vec<u8>, public: bool) -> (r: Result<ChunkAddress, Error>)
        requires
            old(self).store.wf(),
        ensures
            final(self).store.wf(),
            final(self).public_key == old(self).public_key,
            spec_create_ensures(
                *old(self),
                *final(self),
                data@,
                if public {
                    None
                } else {
                    Some(old(self).public_key)
                },
                r,
            ),
    {
        let owner = if public {
            None
        } else {
            Some(self.public_key)
        };
        let (_, entries, addr) = match plan_blob(data, &owner) {
            Ok(p) => p,
            Err(e) => {
                return Err(e);
            },
        };
        let mut candidate = self.store.duplicate();
        let ghost old_view = self.store.view_spec();
        let ghost hyp = data@.len() <= MAX_BLOB_BYTES && spec_level0_ok(data@, owner)
            && spec_no_conflict(old_view, data@, owner);
        let ghost orig_pairs = store_view(entries@);
        let ghost names = spec_plan_names(data@)->Some_0;
        let ghost chunks = se_chunks_of(data@);
        let ghost hkey = spec_blob_address(data@, owner);
        let ghost head = spec_head_payload(data@);
        let mut entries = entries;
        while entries.len() > 0
            invariant
                candidate.wf(),
                store_view(entries@) == orig_pairs.subrange(
                    orig_pairs.len() - entries@.len(),
                    orig_pairs.len() as int,
                ),
                entries@.len() <= orig_pairs.len(),
                forall|b: bool, n: Seq<u8>|
                    slookup(old_view, b, n) is Some ==> #[trigger] slookup(
                        candidate.view_spec(),
                        b,
                        n,
                    ) == slookup(old_view, b, n),
                forall|b: bool, n: Seq<u8>|
                    #[trigger] slookup(candidate.view_spec(), b, n) is Some && slookup(
                        old_view,
                        b,
                        n,
                    ) is None ==> b == public,
                forall|i: int|
                    0 <= i < entries@.len() ==> (#[trigger] entries@[i]).0.is_public_spec()
                        == public,
                hyp ==> forall|k: int|
                    0 <= k < orig_pairs.len() - entries@.len() ==> slookup(
                        candidate.view_spec(),
                        (#[trigger] orig_pairs[k]).0.0,
                        orig_pairs[k].0.1,
                    ) == Some(orig_pairs[k].1),
                hyp ==> forall|b: bool, n: Seq<u8>|
                    match #[trigger] slookup(candidate.view_spec(), b, n) {
                        Some(v) => slookup(old_view, b, n) == Some(v) || exists|m: int|
                            0 <= m < orig_pairs.len() - entries@.len() && #[trigger] orig_pairs[m]
                                == ((b, n), v),
                        None => true,
                    },
            decreases entries@.len(),
        {
            let ghost done = orig_pairs.len() - entries@.len();
            let ghost entries_pre = entries@;
            let (a, v) = entries.remove(0);
            proof {
                assert(store_view(entries_pre)[0] == entry_view((a, v)));
                assert(entry_view((a, v)) == orig_pairs[done]);
                assert(store_view(entries@) =~= store_view(entries_pre).remove(0));
                assert(store_view(entries_pre).remove(0) =~= orig_pairs.subrange(
                    done + 1,
                    orig_pairs.len() as int,
                ));
                if hyp {
                    assert(orig_pairs == level_pairs(public, names, chunks).push((hkey, head)));
                    if done < names.len() {
                        assert(orig_pairs[done] == ((public, names[done]), chunks[done]));
                    } else {
                        assert(orig_pairs[done] == (hkey, head));
                    }
                }
            }
            let ghost pre = candidate.view_spec();
            let inserted = candidate.insert(a, v);
            proof {
                let key = (a.is_public_spec(), a.name_spec()@);
                if inserted {
                    assert forall|b: bool, n: Seq<u8>|
                        #[trigger] slookup(candidate.view_spec(), b, n) is Some implies (slookup(
                        pre,
                        b,
                        n,
                    ) is Some ==> slookup(candidate.view_spec(), b, n) == slookup(pre, b, n))
                        && (slookup(pre, b, n) is None ==> (b, n) == key && slookup(
                        candidate.view_spec(),
                        b,
                        n,
                    ) == Some(v@)) by {
                        crate::chunk_store::lemma_slookup_push(pre, (key, v@), b, n);
                    }
                    assert forall|b: bool, n: Seq<u8>|
                        slookup(old_view, b, n) is Some implies #[trigger] slookup(
                        candidate.view_spec(),
                        b,
                        n,
                    ) == slookup(old_view, b, n) by {
                        crate::chunk_store::lemma_slookup_push(pre, (key, v@), b, n);
                    }
                    crate::chunk_store::lemma_slookup_push(pre, (key, v@), key.0, key.1);
                } else {
                    assert(slookup(candidate.view_spec(), key.0, key.1) is Some);
                }
                if hyp {
                    // The slot this entry lands in already agrees with it:
                    // either it was free and the insert filled it, or the
                    // bytes there came from the untouched store or an
                    // earlier entry of the same blob, which the no-conflict
                    // hypothesis makes equal.
                    assert(slookup(candidate.view_spec(), key.0, key.1) == Some(v@)) by {
                        match slookup(pre, key.0, key.1) {
                            Some(w) => {
                                if slookup(old_view, key.0, key.1) == Some(w) {
                                } else {
                                    let m = choose|m: int|
                                        0 <= m < done && #[trigger] orig_pairs[m] == (
                                        (key.0, key.1),
                                        w,
                                        );
                                    if m < names.len() && done < names.len() {
                                        assert(names[m] == names[done]);
                                    } else if m < names.len() {
                                        assert(names[m] == hkey.1);
                                    }
                                }
                            },
                            None => {},
                        }
                    }
                    assert forall|k: int|
                        0 <= k < done + 1 implies slookup(
                        candidate.view_spec(),
                        (#[trigger] orig_pairs[k]).0.0,
                        orig_pairs[k].0.1,
                    ) == Some(orig_pairs[k].1) by {
                        if k < done {
                            if inserted {
                                crate::chunk_store::lemma_slookup_push(
                                    pre,
                                    (key, v@),
                                    orig_pairs[k].0.0,
                                    orig_pairs[k].0.1,
                                );
                            }
                        }
                    }
                    assert forall|b: bool, n: Seq<u8>|
                        match #[trigger] slookup(candidate.view_spec(), b, n) {
                            Some(w) => slookup(old_view, b, n) == Some(w) || exists|m: int|
                                0 <= m < done + 1 && #[trigger] orig_pairs[m] == ((b, n), w),
                            None => true,
                        } by {
                        if slookup(candidate.view_spec(), b, n) is Some {
                            let w = slookup(candidate.view_spec(), b, n)->Some_0;
                            if inserted {
                                crate::chunk_store::lemma_slookup_push(pre, (key, v@), b, n);
                                if slookup(pre, b, n) is Some {
                                    if slookup(old_view, b, n) != Some(w) {
                                        let m = choose|m: int|
                                            0 <= m < done && #[trigger] orig_pairs[m] == (
                                            (b, n),
                                            w,
                                            );
                                        assert(orig_pairs[m] == ((b, n), w));
                                    }
                                } else {
                                    assert(orig_pairs[done] == ((b, n), w));
                                }
                            } else {
                                if slookup(old_view, b, n) != Some(w) {
                                    let m = choose|m: int|
                                        0 <= m < done && #[trigger] orig_pairs[m] == ((b, n), w);
                                    assert(orig_pairs[m] == ((b, n), w));
                                }
                            }
                        }
                    }
                }
            }
        }
        proof {
            if hyp {
                let cv = candidate.view_spec();
                assert(orig_pairs[orig_pairs.len() - 1] == (hkey, head));
                assert(slookup(cv, hkey.0, hkey.1) == Some(head));
                assert forall|i: int|
                    0 <= i < names.len() implies slookup(cv, public, #[trigger] names[i]) == Some(
                    chunks[i],
                ) by {
                    assert(orig_pairs[i] == ((public, names[i]), chunks[i]));
                }
                lemma_fetch_all_pointwise(cv, names, chunks, public);
                assert(head[0] == 0);
                assert(head.skip(1) =~= se_map_bytes_of(data@));
                assert(spec_unpack(cv, head, public, MAX_LEVELS as nat) == Some(data@));
                assert(addr_view(addr) == hkey);
                assert(spec_read_full(cv, addr.is_public_spec(), addr.name_spec()@) == Some(
                    data@,
                ));
            }
        }
        let readback = match read_full(&candidate, &addr) {
            Ok(b) => b,
            Err(_) => {
                return Err(Error::StorageConflict);
            },
        };
        if !crate::aggregator::eq_bytes(&readback, data) {
            return Err(Error::StorageConflict);
        }
        self.store = candidate;
        Ok(addr)
    }

    /// Reads a blob, or the requested range of it, from the network.
    pub fn read_blob(
        &self,
        head_address: ChunkAddress,
        position: Option<usize>,
        len: Option<usize>,
    ) -> (r: Result<Vec<u8>, Error>)
        ensures
            match spec_read_full(
                self.store.view_spec(),
                head_address.is_public_spec(),
                head_address.name_spec()@,
            ) {
                Some(full) => r matches Ok(v) && v@ == slice_spec(full, position, len),
                None => r is Err,
            },
            (slookup(
                self.store.view_spec(),
                head_address.is_public_spec(),
                head_address.name_spec()@,
            ) is None) ==> r == Err::<Vec<u8>, Error>(Error::DataNotFound),
    {
        let full = match read_full(&self.store, &head_address) {
            Ok(b) => b,
            Err(e) => {
                return Err(e);
            },
        };
        let start = match position {
            Some(p) => if p < full.len() {
                p
            } else {
                full.len()
            },
            None => 0,
        };
        let end = match len {
            Some(l) => {
                let e = start.saturating_add(l);
                if e < full.len() {
                    e
                } else {
                    full.len()
                }
            },
            None => full.len(),
        };
        let mut out: Vec<u8> = Vec::new();
        let mut i: usize = start;
        while i < end
            invariant
                start <= i <= end <= full@.len(),
                out@ == full@.subrange(start as int, i as int),
            decreases end - i,
        {
            out.push(full[i]);
            proof {
                assert(full@.subrange(start as int, i as int).push(full@[i as int])
                    =~= full@.subrange(start as int, i + 1));
            }
            i = i + 1;
        }
        proof {
            assert(out@ =~= slice_spec(full@, position, len));
        }
        Ok(out)
    }

    /// Deletes a private blob: the wrapping levels are walked first to
    /// collect every referenced chunk name, then the head chunk and the
    /// collected chunks are dropped. Any blob that reads back whole is
    /// deletable; a corrupt walk still drops the head.
    pub fn delete_blob(&mut self, head_chunk: ChunkAddress) -> (r: Result<(), Error>)
        requires
            old(self).store.wf(),
        ensures
            final(self).store.wf(),
            final(self).public_key == old(self).public_key,
            head_chunk.is_public_spec() ==> (r == Err::<(), Error>(Error::InvalidOperation)
                && *final(self) == *old(self)),
            !head_chunk.is_public_spec() && slookup(
                old(self).store.view_spec(),
                head_chunk.is_public_spec(),
                head_chunk.name_spec()@,
            ) is None ==> (r == Err::<(), Error>(Error::DataNotFound) && *final(self) == *old(
                self,
            )),
            !head_chunk.is_public_spec() && slookup(
                old(self).store.view_spec(),
                head_chunk.is_public_spec(),
                head_chunk.name_spec()@,
            ) is Some ==> slookup(
                final(self).store.view_spec(),
                head_chunk.is_public_spec(),
                head_chunk.name_spec()@,
            ) is None,
            forall|b: bool, n: Seq<u8>|
                #[trigger] slookup(final(self).store.view_spec(), b, n) is Some ==> slookup(
                    final(self).store.view_spec(),
                    b,
                    n,
                ) == slookup(old(self).store.view_spec(), b, n),
            !head_chunk.is_public_spec() && spec_read_full(
                old(self).store.view_spec(),
                false,
                head_chunk.name_spec()@,
            ) is Some ==> r is Ok,
            (!head_chunk.is_public_spec() && r is Ok) ==> match slookup(
                old(self).store.view_spec(),
                false,
                head_chunk.name_spec()@,
            ) {
                Some(h) => if h.len() >= 1 && h[0] == 0 {
                    match map_parse_of(h.skip(1)) {
                        Some(parsed) => parsed.0 is None ==> forall|i: int|
                            0 <= i < parsed.1.len() ==> slookup(
                                final(self).store.view_spec(),
                                false,
                                #[trigger] parsed.1[i],
                            ) is None,
                        None => true,
                    }
                } else {
                    true
                },
                None => true,
            },
    {
        if head_chunk.is_public() {
            return Err(Error::InvalidOperation);
        }
        let ghost sv = self.store.view_spec();
        let ghost head_key = (false, head_chunk.name_spec()@);
        let head = match self.store.get(&head_chunk) {
            Some(v) => clone_bytes(v),
            None => {
                return Err(Error::DataNotFound);
            },
        };
        // Walk the levels without touching the store, collecting every
        // referenced chunk name; a failing step is exactly a failing step
        // of the read, so a readable blob always walks to its root.
        let mut all_names: Vec<XorName> = Vec::new();
        let mut walk_error: Option<Error> = None;
        let mut cur = head;
        let mut fuel: usize = MAX_LEVELS;
        let ghost target = spec_unpack(sv, cur@, false, MAX_LEVELS as nat);
        let ghost head_view = cur@;
        let ghost mut first_done: bool = false;
        loop
            invariant
                self.store.wf(),
                self.store.view_spec() == sv,
                self.public_key == old(self).public_key,
                *self == *old(self),
                walk_error is None,
                spec_unpack(sv, cur@, false, fuel as nat) == target,
                slookup(sv, false, head_chunk.name_spec()@) == Some(head_view),
                !first_done ==> (cur@ == head_view && all_names@.len() == 0),
                first_done ==> (if head_view.len() >= 1 && head_view[0] <= 1 {
                    match map_parse_of(head_view.skip(1)) {
                        Some(parsed) => forall|i: int|
                            0 <= i < parsed.1.len() ==> names_view(all_names@).contains(
                                #[trigger] parsed.1[i],
                            ),
                        None => true,
                    }
                } else {
                    true
                }),
            decreases fuel,
        {
            if cur.len() < 1 {
                walk_error = Some(Error::SelfEncryption);
                break ;
            }
            let tag = cur[0];
            if tag > 1 {
                walk_error = Some(Error::SelfEncryption);
                break ;
            }
            let mb = bytes_tail(&cur, 1);
            let (child, names) = match se_parse_map(&mb) {
                Some(p) => p,
                None => {
                    walk_error = Some(Error::SelfEncryption);
                    break ;
                },
            };
            if child.is_some() {
                walk_error = Some(Error::SelfEncryption);
                break ;
            }
            let chunks = match fetch_chunks(&self.store, &names, false) {
                Some(c) => c,
                None => {
                    walk_error = Some(Error::DataNotFound);
                    break ;
                },
            };
            let ghost names_before = names_view(all_names@);
            let mut k: usize = 0;
            while k < names.len()
                invariant
                    k <= names@.len(),
                    names_view(all_names@) == names_before + names_view(names@).subrange(
                        0,
                        k as int,
                    ),
                decreases names@.len() - k,
            {
                let ghost pre = names_view(all_names@);
                all_names.push(names[k]);
                proof {
                    assert(names_view(all_names@) =~= pre.push(names_view(names@)[k as int]));
                    assert(names_before + names_view(names@).subrange(0, k as int).push(
                        names_view(names@)[k as int],
                    ) =~= names_before + names_view(names@).subrange(0, k + 1));
                    assert(pre.push(names_view(names@)[k as int]) =~= names_before + names_view(
                        names@,
                    ).subrange(0, k as int).push(names_view(names@)[k as int]));
                }
                k = k + 1;
            }
            proof {
                assert(names_view(names@).subrange(0, names@.len() as int) =~= names_view(
                    names@,
                ));
                assert forall|i: int|
                    0 <= i < names_view(names@).len() implies names_view(all_names@).contains(
                    #[trigger] names_view(names@)[i],
                ) by {
                    assert(names_view(all_names@)[names_before.len() + i] == names_view(
                        names@,
                    )[i]);
                }
                if first_done {
                    if head_view.len() >= 1 && head_view[0] <= 1 {
                        if let Some(parsed) = map_parse_of(head_view.skip(1)) {
                            assert forall|i: int|
                                0 <= i < parsed.1.len() implies names_view(all_names@).contains(
                                #[trigger] parsed.1[i],
                            ) by {
                                assert(names_before.contains(parsed.1[i]));
                                let w = choose|w: int|
                                    0 <= w < names_before.len() && names_before[w] == parsed.1[i];
                                assert(names_view(all_names@)[w] == parsed.1[i]);
                            }
                        }
                    }
                } else {
                    assert(mb@ == head_view.skip(1));
                    first_done = true;
                }
            }
            if tag == 0 {
                break ;
            }
            if fuel == 0 {
                walk_error = Some(Error::SelfEncryption);
                break ;
            }
            let bytes = match se_decrypt(&mb, &chunks) {
                Some(b) => b,
                None => {
                    walk_error = Some(Error::SelfEncryption);
                    break ;
                },
            };
            let (payload, inner_public) = match decode_chunk(&bytes) {
                Some(p) => p,
                None => {
                    walk_error = Some(Error::SelfEncryption);
                    break ;
                },
            };
            if inner_public {
                walk_error = Some(Error::SelfEncryption);
                break ;
            }
            cur = payload;
            fuel = fuel - 1;
        }
        // The head goes regardless; the collected chunks only after a
        // complete walk.
        self.store.remove(&head_chunk);
        if let Some(e) = walk_error {
            proof {
                assert(spec_read_full(sv, false, head_chunk.name_spec()@) is None);
            }
            return Err(e);
        }
        let ghost after_head = self.store.view_spec();
        let n = all_names.len();
        let mut i: usize = 0;
        while i < n
            invariant
                i <= n,
                n == all_names@.len(),
                self.store.wf(),
                self.public_key == old(self).public_key,
                slookup(self.store.view_spec(), head_key.0, head_key.1) is None,
                forall|k2: int|
                    0 <= k2 < i ==> slookup(
                        self.store.view_spec(),
                        false,
                        names_view(all_names@)[k2],
                    ) is None,
                forall|b: bool, nm: Seq<u8>|
                    #[trigger] slookup(self.store.view_spec(), b, nm) is Some ==> slookup(
                        self.store.view_spec(),
                        b,
                        nm,
                    ) == slookup(sv, b, nm),
            decreases n - i,
        {
            let ghost mid = self.store.view_spec();
            let leaf = ChunkAddress::Private(all_names[i]);
            self.store.remove(&leaf);
            proof {
                assert(addr_view(leaf) == (false, names_view(all_names@)[i as int]));
                assert forall|b: bool, nm: Seq<u8>|
                    #[trigger] slookup(self.store.view_spec(), b, nm) is Some implies slookup(
                    self.store.view_spec(),
                    b,
                    nm,
                ) == slookup(sv, b, nm) by {
                    assert(slookup(self.store.view_spec(), b, nm) == slookup(mid, b, nm));
                }
                assert forall|k2: int|
                    0 <= k2 < i + 1 implies slookup(
                    self.store.view_spec(),
                    false,
                    names_view(all_names@)[k2],
                ) is None by {
                    if k2 < i {
                        if (false, names_view(all_names@)[k2]) != addr_view(leaf) {
                            assert(slookup(self.store.view_spec(), false, names_view(all_names@)[k2])
                                == slookup(mid, false, names_view(all_names@)[k2]));
                        }
                    }
                }
                if slookup(self.store.view_spec(), head_key.0, head_key.1) is Some {
                    assert(slookup(self.store.view_spec(), head_key.0, head_key.1) == slookup(
                        mid,
                        head_key.0,
                        head_key.1,
                    ));
                }
            }
            i = i + 1;
        }
        Ok(())
    }

    /// Computes the serialized data map and head address a payload would
    /// store under, without touching the network; deterministic in the
    /// payload and owner.
    pub fn blob_data_map(data: Vec<u8>, privately_owned: Option<BlsPublicKeyBytes>) -> (r: Result<
        (Vec<u8>, ChunkAddress),
        Error,
    >)
        ensures
            data@.len() > MAX_BLOB_BYTES ==> r == Err::<(Vec<u8>, ChunkAddress), Error>(
                Error::ExceededSize,
            ),
            data@.len() <= MAX_BLOB_BYTES && !se_ok(data@) ==> r == Err::<
                (Vec<u8>, ChunkAddress),
                Error,
            >(Error::SelfEncryption),
            (data@.len() <= MAX_BLOB_BYTES && spec_level0_ok(data@, privately_owned)) ==> r is Ok,
            match r {
                Ok(p) => {
                    &&& p.0@ == se_map_bytes_of(data@)
                    &&& spec_pack_level(data@, privately_owned) <= MAX_LEVELS
                    &&& addr_view(p.1) == spec_addr_of_head(
                        spec_head_level(
                            data@,
                            privately_owned,
                            spec_pack_level(data@, privately_owned),
                        ),
                        privately_owned,
                    )
                    &&& (spec_head_fits(data@, privately_owned) ==> addr_view(p.1)
                        == spec_blob_address(data@, privately_owned))
                    &&& p.1.is_public_spec() == (privately_owned is None)
                },
                Err(_) => true,
            },
    {
        match plan_blob(&data, &privately_owned) {
            Ok((map_bytes, _, addr)) => Ok((map_bytes, addr)),
            Err(e) => Err(e),
        }
    }
}

/// What a blob write guarantees: rejected payloads leave the store alone
/// with the exact error; a successful write makes the blob readable at the
/// returned address, which is deterministic in payload and owner, keeps
/// every chunk that was already stored, and adds chunks only in the
/// blob's own namespace.
pub open spec fn spec_create_ensures(
    pre: Client,
    post: Client,
    data: Seq<u8>,
    owner: Option<BlsPublicKeyBytes>,
    r: Result<ChunkAddress, Error>,
) -> bool {
    &&& (data.len() > MAX_BLOB_BYTES ==> r == Err::<ChunkAddress, Error>(Error::ExceededSize))
    &&& (data.len() <= MAX_BLOB_BYTES && !se_ok(data) ==> r == Err::<ChunkAddress, Error>(
        Error::SelfEncryption,
    ))
    &&& (data.len() <= MAX_BLOB_BYTES && spec_level0_ok(data, owner) && spec_no_conflict(
        pre.store.view_spec(),
        data,
        owner,
    ) ==> r is Ok)
    &&& (r is Err ==> post == pre)
    &&& match r {
        Ok(addr) => {
            &&& addr.is_public_spec() == (owner is None)
            &&& spec_pack_level(data, owner) <= MAX_LEVELS
            &&& addr_view(addr) == spec_addr_of_head(
                spec_head_level(data, owner, spec_pack_level(data, owner)),
                owner,
            )
            &&& (spec_head_fits(data, owner) ==> addr_view(addr) == spec_blob_address(
                data,
                owner,
            ))
            &&& spec_read_full(
                post.store.view_spec(),
                addr.is_public_spec(),
                addr.name_spec()@,
            ) == Some(data)
            &&& forall|b: bool, n: Seq<u8>|
                slookup(pre.store.view_spec(), b, n) is Some ==> #[trigger] slookup(
                    post.store.view_spec(),
                    b,
                    n,
                ) == slookup(pre.store.view_spec(), b, n)
            &&& forall|b: bool, n: Seq<u8>|
                #[trigger] slookup(post.store.view_spec(), b, n) is Some && slookup(
                    pre.store.view_spec(),
                    b,
                    n,
                ) is None ==> b == (owner is None)
        },
        Err(_) => true,
    }
}

} // verus!
