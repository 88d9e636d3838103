//! Identities of stored data kinds: every storable datum exposes the
//! address it is kept under, and each kind's address converts to the
//! network-wide data address.

use vstd::prelude::*;
use crate::name::XorName;

verus! {

/// The address of a mutable map, sequenced or not.
#[derive(Clone, Copy, Debug, Eq, PartialEq)]
pub enum MapAddress {
    /// A sequenced map.
    Sequenced {
        /// Its name.
        name: XorName,
        /// Its type tag.
        tag: u64,
    },
    /// An unsequenced map.
    Unseq {
        /// Its name.
        name: XorName,
        /// Its type tag.
        tag: u64,
    },
}

/// A network-wide data address.
#[derive(Clone, Copy, Debug, Eq, PartialEq)]
pub enum DataAddress {
    /// A mutable map.
    MapData(MapAddress),
}

/// A sequenced mutable map, as far as the store identifies it.
#[derive(Clone, Copy, Debug, Eq, PartialEq)]
pub struct SeqMap {
    /// Where it is kept.
    pub address: MapAddress,
}

/// An unsequenced mutable map, as far as the store identifies it.
#[derive(Clone, Copy, Debug, Eq, PartialEq)]
pub struct UnseqMap {
    /// Where it is kept.
    pub address: MapAddress,
}

/// A mutable map of either kind.
#[derive(Clone, Copy, Debug, Eq, PartialEq)]
pub enum MapData {
    /// Sequenced.
    Sequenced(SeqMap),
    /// Unsequenced.
    Unseq(UnseqMap),
}

/// A datum a store can hold: it knows its own identity.
pub trait Data {
    /// The address type the datum is kept under.
    type Id;

    /// The address the datum is kept under.
    fn id(&self) -> &Self::Id;
}

/// An address of one data kind converts to the network-wide address.
pub trait DataId {
    /// The network-wide form of this address.
    fn to_data_address(&self) -> DataAddress;
}

impl Data for MapData {
    type Id = MapAddress;

    /// A map is kept under the address of whichever kind it is.
    fn id(&self) -> (r: &MapAddress)
        ensures
            *r == match *self {
                MapData::Sequenced(chunk) => chunk.address,
                MapData::Unseq(chunk) => chunk.address,
            },
    {
        match self {
            MapData::Sequenced(chunk) => &chunk.address,
            MapData::Unseq(chunk) => &chunk.address,
        }
    }
}

impl DataId for MapAddress {
    /// A map address names map data on the network.
    fn to_data_address(&self) -> (r: DataAddress)
        ensures
            r == DataAddress::MapData(*self),
    {
        DataAddress::MapData(*self)
    }
}

} // verus!
