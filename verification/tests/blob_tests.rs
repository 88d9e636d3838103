//! Tests of the self-encrypting blob store: round trips, partial reads,
//! address determinism, deletion, and the disjoint namespaces.

use safe_node::blob::{ChunkAddress, Error, MAX_BLOB_BYTES};
use safe_node::client::Client;

fn test_key(seed: u8) -> [u8; 48] {
    let mut k = [0u8; 48];
    k[0] = seed;
    k
}

fn patterned(len: usize) -> Vec<u8> {
    let mut v = Vec::with_capacity(len);
    for i in 0..len {
        v.push((i % 251) as u8);
    }
    v
}

#[test]
fn public_blob_roundtrip_and_idempotence() {
    let mut client = Client::new(test_key(1));
    let value = b"hello".to_vec();

    // The offline data-map computation predicts the address.
    let (_, expected_address) = Client::blob_data_map(value.clone(), None).unwrap();

    // The blob does not exist before it is stored.
    assert_eq!(
        client.read_blob(expected_address, None, None),
        Err(Error::DataNotFound)
    );

    let public_address = client.store_public_blob(&value).unwrap();
    assert_eq!(expected_address, public_address);

    let fetched = client.read_blob(public_address, None, None).unwrap();
    assert_eq!(value, fetched);

    // Storing the same value again yields the same address without error.
    let addr = client.store_public_blob(&value).unwrap();
    assert_eq!(addr, public_address);
}

#[test]
fn private_blob_roundtrip_and_reput() {
    let mut client = Client::new(test_key(2));
    let value = patterned(10);

    let owner = client.public_key();
    let (_, expected_address) = Client::blob_data_map(value.clone(), Some(owner)).unwrap();

    assert_eq!(
        client.read_blob(expected_address, None, None),
        Err(Error::DataNotFound)
    );

    let priv_address = client.store_private_blob(&value).unwrap();
    assert_eq!(expected_address, priv_address);
    assert_eq!(client.read_blob(priv_address, None, None).unwrap(), value);

    // A public blob of the same value lives beside it without conflict.
    let public_address = client.store_public_blob(&value).unwrap();
    assert_eq!(
        client.read_blob(public_address, None, None).unwrap(),
        value
    );

    // Delete, observe absence, and store again at the same address.
    client.delete_blob(priv_address).unwrap();
    assert_eq!(
        client.read_blob(priv_address, None, None),
        Err(Error::DataNotFound)
    );
    let new_addr = client.store_private_blob(&value).unwrap();
    assert_eq!(new_addr, priv_address);
    assert_eq!(client.read_blob(priv_address, None, None).unwrap(), value);
}

#[test]
fn private_megabyte_half_reads() {
    let mut client = Client::new(test_key(3));
    let value = patterned(1_048_576);

    let addr = client.store_private_blob(&value).unwrap();

    let first_half = client.read_blob(addr, Some(0), Some(524_288)).unwrap();
    assert_eq!(&first_half[..], &value[0..524_288]);

    let second_half = client
        .read_blob(addr, Some(524_288), Some(524_288))
        .unwrap();
    assert_eq!(&second_half[..], &value[524_288..1_048_576]);
}

#[test]
fn index_based_reads() {
    let size = 1024;
    let data = patterned(size);
    let mut client = Client::new(test_key(4));
    let address = client.store_public_blob(&data).unwrap();

    let fetched = client.read_blob(address, None, Some(size / 2)).unwrap();
    assert_eq!(fetched, data[0..size / 2].to_vec());

    let fetched = client
        .read_blob(address, Some(size / 2), Some(size / 2))
        .unwrap();
    assert_eq!(fetched, data[size / 2..size].to_vec());

    // Reading past the end clamps to what there is.
    let fetched = client.read_blob(address, Some(size - 1), Some(100)).unwrap();
    assert_eq!(fetched, data[size - 1..size].to_vec());
    let fetched = client.read_blob(address, Some(size + 5), Some(1)).unwrap();
    assert_eq!(fetched, Vec::<u8>::new());
}

#[test]
fn namespaces_are_disjoint() {
    let mut client = Client::new(test_key(5));
    let data = patterned(1024);

    let public_address = client.store_public_blob(&data).unwrap();
    let name = *public_address.name();

    // A private address with the same name holds nothing.
    assert_eq!(
        client.read_blob(ChunkAddress::Private(name), None, None),
        Err(Error::DataNotFound)
    );

    let private_address = client.store_private_blob(&data).unwrap();
    let pname = *private_address.name();
    assert_eq!(
        client.read_blob(ChunkAddress::Public(pname), None, None),
        Err(Error::DataNotFound)
    );
}

#[test]
fn delete_is_private_only() {
    let mut client = Client::new(test_key(6));
    let data = patterned(64);
    let addr = client.store_public_blob(&data).unwrap();
    assert_eq!(client.delete_blob(addr), Err(Error::InvalidOperation));

    // Deleting an absent private blob reports the absence.
    let ghost_name = *addr.name();
    assert_eq!(
        client.delete_blob(ChunkAddress::Private(ghost_name)),
        Err(Error::DataNotFound)
    );
}

#[test]
fn size_limits_are_enforced() {
    let mut client = Client::new(test_key(7));

    // The leaf encryptor refuses payloads under three bytes.
    let tiny = vec![1u8, 2u8];
    assert_eq!(client.store_public_blob(&tiny), Err(Error::SelfEncryption));

    // Payloads over the protocol maximum are rejected before any work.
    let huge = vec![0u8; MAX_BLOB_BYTES + 1];
    assert_eq!(client.store_public_blob(&huge), Err(Error::ExceededSize));
}

#[test]
fn deterministic_addresses_differ_by_owner() {
    let data = patterned(100);
    let (_, a_pub) = Client::blob_data_map(data.clone(), None).unwrap();
    let (_, a_owner1) = Client::blob_data_map(data.clone(), Some(test_key(8))).unwrap();
    let (_, a_owner2) = Client::blob_data_map(data.clone(), Some(test_key(9))).unwrap();
    let (_, a_pub2) = Client::blob_data_map(data, None).unwrap();

    assert_eq!(a_pub, a_pub2);
    assert!(a_pub.is_public());
    assert!(!a_owner1.is_public());
    assert_ne!(a_owner1, a_owner2);
}

#[test]
fn delete_drops_every_root_level_chunk() {
    let mut client = Client::new(test_key(10));
    let value = patterned(1_048_576);
    let addr = client.store_private_blob(&value).unwrap();

    // Read the head chunk and the chunk names of its root data map.
    let head = client.fetch_blob_from_network(&addr).unwrap();
    assert_eq!(head[0], 0, "the head of a small blob is a root-level map");
    let map_bytes = head[1..].to_vec();
    let (child, names) = safe_node::blob::se_parse_map(&map_bytes).unwrap();
    assert!(child.is_none());
    assert!(!names.is_empty());

    client.delete_blob(addr).unwrap();

    // The head and every chunk the root map references are gone.
    assert_eq!(client.read_blob(addr, None, None), Err(Error::DataNotFound));
    for name in names {
        assert!(client
            .store
            .get(&ChunkAddress::Private(name))
            .is_none());
    }
}
