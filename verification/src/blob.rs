//! The self-encrypting blob store: payloads of any size up to the protocol
//! maximum are self-encrypted into chunks whose addresses are deterministic
//! functions of their content; the serialized data map is wrapped into a
//! head chunk (recursively, should it ever outgrow the chunk limit), and
//! reading walks the wrapping back and decrypts.

use vstd::prelude::*;
use crate::name::XorName;
use crate::types::BlsPublicKeyBytes;

verus! {

/// Largest serialized chunk the network takes.
pub const MAX_CHUNK_BYTES: usize = 1_048_576;

/// Largest payload one self-encryption maps without shrinking the map
/// itself: three chunks of the leaf encryptor's chunk size.
pub const MAX_BLOB_BYTES: usize = 12_570_624;

/// Smallest payload the leaf encryptor takes.
pub const MIN_BLOB_BYTES: usize = 3;

/// How deep the head-chunk wrapping may nest.
pub const MAX_LEVELS: usize = 8;

/// What a blob operation can report.
#[derive(Clone, Copy, Debug, Eq, PartialEq, Structural)]
pub enum Error {
    /// No data stands at the address.
    DataNotFound,
    /// The chunk would exceed the per-chunk size limit, or the payload the
    /// protocol maximum.
    ExceededSize,
    /// The self-encryptor refused the payload.
    SelfEncryption,
    /// The operation does not apply to this kind of address.
    InvalidOperation,
    /// The store already holds different bytes under one of the blob's
    /// chunk names.
    StorageConflict,
}

/// The address of a chunk: public and private namespaces are disjoint even
/// at equal names.
#[derive(Clone, Copy, Debug, Eq, PartialEq, Hash)]
pub enum ChunkAddress {
    /// An anyone-readable chunk.
    Public(XorName),
    /// An owner-held chunk.
    Private(XorName),
}

impl ChunkAddress {
    /// The name within the namespace.
    pub open spec fn name_spec(self) -> XorName {
        match self {
            ChunkAddress::Public(n) => n,
            ChunkAddress::Private(n) => n,
        }
    }

    /// Returns the name within the namespace.
    pub fn name(&self) -> (r: &XorName)
        ensures
            *r == self.name_spec(),
    {
        match self {
            ChunkAddress::Public(n) => n,
            ChunkAddress::Private(n) => n,
        }
    }

    /// Whether the address lies in the public namespace.
    pub open spec fn is_public_spec(self) -> bool {
        self is Public
    }

    /// Returns whether the address lies in the public namespace.
    pub fn is_public(&self) -> (r: bool)
        ensures
            r == self.is_public_spec(),
    {
        matches!(self, ChunkAddress::Public(_))
    }
}

/// Address equality.
pub open spec fn addr_eq(a: ChunkAddress, b: ChunkAddress) -> bool {
    a.is_public_spec() == b.is_public_spec() && a.name_spec()@ == b.name_spec()@
}

/// Compares two addresses.
pub fn eq_addr(a: &ChunkAddress, b: &ChunkAddress) -> (r: bool)
    ensures
        r == addr_eq(*a, *b),
{
    match (a, b) {
        (ChunkAddress::Public(x), ChunkAddress::Private(y)) => false,
        (ChunkAddress::Private(x), ChunkAddress::Public(y)) => false,
        (ChunkAddress::Public(x), ChunkAddress::Public(y)) => x.equals(y),
        (ChunkAddress::Private(x), ChunkAddress::Private(y)) => x.equals(y),
    }
}

/// The content hash that names a chunk; a pure function of the bytes.
pub uninterp spec fn hash_of(b: Seq<u8>) -> Seq<u8>;

/// Relies on xor_name::XorName::from_content: the deterministic 32-byte
/// content hash that names data on the network.
#[verifier::external_body]
pub fn content_hash(b: &Vec<u8>) -> (r: XorName)
    ensures
        r@ == hash_of(b@),
{
    XorName(xor_name::XorName::from_content(b).0)
}

/// Whether the self-encryptor maps these bytes at all; a pure function of
/// the bytes.
pub uninterp spec fn se_ok(b: Seq<u8>) -> bool;

/// The serialized data map the self-encryptor derives from the bytes.
pub uninterp spec fn se_map_bytes_of(b: Seq<u8>) -> Seq<u8>;

/// The encrypted chunks the self-encryptor derives from the bytes, in map
/// order.
pub uninterp spec fn se_chunks_of(b: Seq<u8>) -> Seq<Seq<u8>>;

/// What decrypting a serialized data map with a chunk list yields; a pure
/// function of both.
pub uninterp spec fn se_decrypt_of(map_bytes: Seq<u8>, chunks: Seq<Seq<u8>>) -> Option<Seq<u8>>;

/// View of a chunk list as plain byte sequences.
pub open spec fn chunks_view(chunks: Seq<Vec<u8>>) -> Seq<Seq<u8>> {
    chunks.map_values(|c: Vec<u8>| c@)
}

/// Relies on self_encryption::encrypt and DataMap::to_bytes: content-keyed
/// encryption, a pure function of the bytes, refusing payloads under three
/// bytes; decrypting the derived map with the derived chunks yields the
/// bytes back.
#[verifier::external_body]
pub fn se_encrypt(data: &Vec<u8>) -> (r: Option<(Vec<u8>, Vec<Vec<u8>>)>)
    ensures
        r is Some <==> se_ok(data@),
        data@.len() < MIN_BLOB_BYTES ==> r is None,
        match r {
            Some(p) => {
                &&& p.0@ == se_map_bytes_of(data@)
                &&& chunks_view(p.1@) == se_chunks_of(data@)
                &&& se_decrypt_of(p.0@, chunks_view(p.1@)) == Some(data@)
            },
            None => true,
        },
{
    let bytes = self_encryption::bytes::Bytes::from(data.clone());
    let (map, chunks) = self_encryption::encrypt(bytes).ok()?;
    let map_bytes = map.to_bytes().ok()?;
    let mut out: Vec<Vec<u8>> = Vec::new();
    for c in chunks.iter() {
        out.push(c.content.to_vec());
    }
    Some((map_bytes, out))
}

/// What parsing a serialized data map yields: its shrink level, when one is
/// set, and its chunk names in map order; a pure function of the bytes.
pub uninterp spec fn map_parse_of(map_bytes: Seq<u8>) -> Option<(Option<usize>, Seq<Seq<u8>>)>;

/// View of a name list as plain byte sequences.
pub open spec fn names_view(names: Seq<XorName>) -> Seq<Seq<u8>> {
    names.map_values(|n: XorName| n@)
}

/// Relies on DataMap::from_bytes, DataMap::child and DataMap::infos:
/// deserializes a data map and reads its shrink level and chunk names.
#[verifier::external_body]
pub fn se_parse_map(map_bytes: &Vec<u8>) -> (r: Option<(Option<usize>, Vec<XorName>)>)
    ensures
        match r {
            Some(p) => map_parse_of(map_bytes@) == Some((p.0, names_view(p.1@))),
            None => map_parse_of(map_bytes@) is None,
        },
{
    let map = self_encryption::DataMap::from_bytes(map_bytes).ok()?;
    let mut names: Vec<XorName> = Vec::new();
    for info in map.infos().iter() {
        names.push(XorName(info.dst_hash.0));
    }
    Some((map.child(), names))
}

/// Relies on DataMap::from_bytes and self_encryption::decrypt: decrypting
/// chunks under a data map is a pure function of the map bytes and the
/// chunk list, and recovers what was encrypted.
#[verifier::external_body]
pub fn se_decrypt(map_bytes: &Vec<u8>, chunks: &Vec<Vec<u8>>) -> (r: Option<Vec<u8>>)
    ensures
        match r {
            Some(b) => se_decrypt_of(map_bytes@, chunks_view(chunks@)) == Some(b@),
            None => se_decrypt_of(map_bytes@, chunks_view(chunks@)) is None,
        },
{
    let map = self_encryption::DataMap::from_bytes(map_bytes).ok()?;
    let mut parsed: Vec<self_encryption::EncryptedChunk> = Vec::new();
    for c in chunks.iter() {
        let content = self_encryption::bytes::Bytes::from(c.clone());
        parsed.push(self_encryption::EncryptedChunk { content });
    }
    self_encryption::decrypt(&map, &parsed).ok().map(|b| b.to_vec())
}

} // verus!
