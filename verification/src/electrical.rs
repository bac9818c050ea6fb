//! The electrical buses that feed the components, and a snapshot of which of
//! them carry power during a tick.

use vstd::prelude::*;

verus! {

/// Identity of an electrical bus.
#[derive(Clone, Copy, Debug, PartialEq, Eq, Structural)]
pub enum ElectricalBusType {
    AlternatingCurrent(u8),
    AlternatingCurrentEssential,
    AlternatingCurrentEssentialShed,
    AlternatingCurrentStaticInverter,
    AlternatingCurrentGndFltService,
    DirectCurrent(u8),
    DirectCurrentEssential,
    DirectCurrentEssentialShed,
    DirectCurrentBattery,
    DirectCurrentHot(u8),
    DirectCurrentGndFltService,
}

/// Read-only snapshot of the electrical network: the buses that are powered.
pub struct PoweredBuses {
    buses: Vec<ElectricalBusType>,
}

impl View for PoweredBuses {
    type V = Set<ElectricalBusType>;

    closed spec fn view(&self) -> Set<ElectricalBusType> {
        self.buses@.to_set()
    }
}

impl PoweredBuses {
    /// A network in which no bus is powered.
    pub fn new() -> (network: Self)
        ensures
            network@ == Set::<ElectricalBusType>::empty(),
    {
        let network = PoweredBuses { buses: Vec::new() };
        assert(network.buses@.to_set() =~= Set::<ElectricalBusType>::empty());
        network
    }

    /// Marks `bus` as powered.
    pub fn power(&mut self, bus: ElectricalBusType)
        ensures
            final(self)@ == old(self)@.insert(bus),
    {
        self.buses.push(bus);
        assert(self.buses@.to_set() =~= old(self).buses@.to_set().insert(bus)) by {
            let before = old(self).buses@;
            let after = self.buses@;
            assert(after == before.push(bus));
            assert forall|b: ElectricalBusType| after.contains(b) <==> (before.contains(b) || b
                == bus) by {
                if before.contains(b) {
                    let i = choose|i: int| 0 <= i < before.len() && before[i] == b;
                    assert(after[i] == b);
                }
                if b == bus {
                    assert(after[before.len() as int] == b);
                }
            }
        }
    }

    /// Whether `bus` is powered.
    pub fn is_powered(&self, bus: ElectricalBusType) -> (powered: bool)
        ensures
            powered == self@.contains(bus),
    {
        let mut i: usize = 0;
        while i < self.buses.len()
            invariant
                i <= self.buses.len(),
                forall|j: int| 0 <= j < i ==> self.buses@[j] != bus,
            decreases self.buses.len() - i,
        {
            if self.buses[i] == bus {
                assert(self.buses@.contains(bus));
                return true;
            }
            i += 1;
        }
        false
    }
}

} // verus!
