//! Tests of addresses, prefixes and the disjoint prefix map.

use safe_node::name::{Prefix, XorName};
use safe_node::prefix_map::{OtherSection, PrefixMap};
use safe_node::types::{KeyedSig, SectionAuthorityProvider, SectionSigned};

fn name_with_first_byte(b: u8) -> XorName {
    let mut bytes = [0u8; 32];
    bytes[0] = b;
    XorName(bytes)
}

fn prefix_of(bits: &[bool]) -> Prefix {
    let mut p = Prefix::empty();
    for &bit in bits {
        p = p.pushed(bit);
    }
    p
}

fn entry(p: Prefix) -> OtherSection {
    OtherSection {
        section_auth: SectionSigned {
            value: SectionAuthorityProvider {
                prefix: p,
                elders: Vec::new(),
                public_key: [0u8; 48],
            },
            sig: KeyedSig {
                public_key: [0u8; 48],
                signature: [0u8; 96],
            },
        },
        key_sig: None,
    }
}

#[test]
fn prefix_matching_follows_leading_bits() {
    // 0b1000_0000... has bit 0 set.
    let n = name_with_first_byte(0b1000_0000);
    let one = prefix_of(&[true]);
    let zero = prefix_of(&[false]);
    assert!(one.matches(&n));
    assert!(!zero.matches(&n));
    assert!(Prefix::empty().matches(&n));

    let one_zero = prefix_of(&[true, false]);
    assert!(one_zero.matches(&n));
    let one_one = prefix_of(&[true, true]);
    assert!(!one_one.matches(&n));
}

#[test]
fn prefix_compatibility_is_ancestor_containment() {
    let one = prefix_of(&[true]);
    let one_zero = prefix_of(&[true, false]);
    let zero = prefix_of(&[false]);

    assert!(one.is_compatible(&one_zero));
    assert!(one_zero.is_compatible(&one));
    assert!(!one.is_compatible(&zero));
    assert!(one.is_ancestor_of(&one_zero));
    assert!(!one_zero.is_ancestor_of(&one));
}

#[test]
fn prefix_map_stays_disjoint() {
    let mut map = PrefixMap::new();

    // Inserting two sibling prefixes succeeds.
    assert!(map.insert(entry(prefix_of(&[true]))));
    assert!(map.insert(entry(prefix_of(&[false]))));
    assert_eq!(map.len(), 2);

    // A finer prefix under an existing one is rejected: the map must stay
    // disjoint and the coarser entry wins.
    assert!(!map.insert(entry(prefix_of(&[true, false]))));
    assert_eq!(map.len(), 2);

    // An equal prefix replaces its entry.
    assert!(map.insert(entry(prefix_of(&[true]))));
    assert_eq!(map.len(), 2);

    // A coarser prefix swallows everything it contains.
    assert!(map.insert(entry(Prefix::empty())));
    assert_eq!(map.len(), 1);
}

#[test]
fn prefix_map_lookup_finds_the_owner() {
    let mut map = PrefixMap::new();
    assert!(map.insert(entry(prefix_of(&[true]))));
    assert!(map.insert(entry(prefix_of(&[false]))));

    let high = name_with_first_byte(0b1100_0000);
    let low = name_with_first_byte(0b0010_0000);

    let owner_high = map.get_matching(&high).unwrap();
    assert_eq!(owner_high.prefix().bit_count, 1);
    assert!(owner_high.prefix().matches(&high));

    let owner_low = map.get_matching(&low).unwrap();
    assert!(owner_low.prefix().matches(&low));

    let empty = PrefixMap::new();
    assert!(empty.get_matching(&high).is_none());
}

#[test]
fn xor_distance_ordering() {
    let target = name_with_first_byte(0);
    let near = name_with_first_byte(1);
    let far = name_with_first_byte(0xFF);

    assert!(target.cmp_distance(&near, &far) < 0);
    assert!(target.cmp_distance(&far, &near) > 0);
    assert_eq!(target.cmp_distance(&near, &near), 0);
}
