//! The payload stations of the aircraft.

use vstd::prelude::*;
use vstd::std_specs::convert::IntoSpecImpl;

verus! {

/// Number of passenger stations in the cabin, and of cargo stations in the
/// hold.
pub const STATION_COUNT: usize = 4;

/// Something that can say how many passengers sit in a passenger station.
pub trait NumberOfPassengers {
    fn number_of_passengers(&self, ps: usize) -> i8;
}

/// The passenger stations, front to back.
#[derive(Debug, Clone, Copy)]
pub enum A320Pax {
    A,
    B,
    C,
    D,
}

impl A320Pax {
    /// Place of the station in a table of passenger stations.
    pub open spec fn index(self) -> usize {
        match self {
            A320Pax::A => 0,
            A320Pax::B => 1,
            A320Pax::C => 2,
            A320Pax::D => 3,
        }
    }
}

impl Into<usize> for A320Pax {
    fn into(self) -> (index: usize) {
        match self {
            A320Pax::A => 0,
            A320Pax::B => 1,
            A320Pax::C => 2,
            A320Pax::D => 3,
        }
    }
}

impl IntoSpecImpl<usize> for A320Pax {
    open spec fn obeys_into_spec() -> bool {
        true
    }

    open spec fn into_spec(self) -> usize {
        self.index()
    }
}

/// The cargo stations, front to back.
#[derive(Debug, Clone, Copy)]
pub enum A320Cargo {
    FwdBaggage,
    AftContainer,
    AftBaggage,
    AftBulkLoose,
}

impl A320Cargo {
    /// Place of the station in a table of cargo stations.
    pub open spec fn index(self) -> usize {
        match self {
            A320Cargo::FwdBaggage => 0,
            A320Cargo::AftContainer => 1,
            A320Cargo::AftBaggage => 2,
            A320Cargo::AftBulkLoose => 3,
        }
    }
}

impl Into<usize> for A320Cargo {
    fn into(self) -> (index: usize) {
        match self {
            A320Cargo::FwdBaggage => 0,
            A320Cargo::AftContainer => 1,
            A320Cargo::AftBaggage => 2,
            A320Cargo::AftBulkLoose => 3,
        }
    }
}

impl IntoSpecImpl<usize> for A320Cargo {
    open spec fn obeys_into_spec() -> bool {
        true
    }

    open spec fn into_spec(self) -> usize {
        self.index()
    }
}

/// Every station has a place in a table of `STATION_COUNT` entries, and no
/// two passenger stations, nor two cargo stations, share one.
pub proof fn lemma_station_indices(p: A320Pax, q: A320Pax, c: A320Cargo, d: A320Cargo)
    ensures
        p.index() < STATION_COUNT,
        c.index() < STATION_COUNT,
        p.index() == q.index() ==> p == q,
        c.index() == d.index() ==> c == d,
{
}

} // verus!
