//! The electrical lock that holds the reverser stowed.

use vstd::prelude::*;
use crate::electrical::{ElectricalBusType, PoweredBuses};
use crate::fixed_point::Ratio;
use crate::reverser::interface::ReverserCommands;

verus! {

/// Actuator position below which the lock can catch: 0.01.
pub const LOCK_CATCH_POSITION: i64 = 10_000_000;

/// Mathematical state of the lock.
pub struct ElectricalLockModel {
    pub is_locked: bool,
    pub is_powered: bool,
    pub powered_by: ElectricalBusType,
}

impl ElectricalLockModel {
    /// A lock that holds and has no power.
    pub open spec fn initial(powered_by: ElectricalBusType) -> Self {
        ElectricalLockModel { is_locked: true, is_powered: false, powered_by }
    }

    /// Whether the lock tries to hold: it does unless it is powered and told
    /// to unlock.
    pub open spec fn is_locking(self, unlock: bool) -> bool {
        !unlock || !self.is_powered
    }

    /// The lock after it has seen the unlock order and the position that the
    /// actuator had at the end of the tick before: it holds only if it tries
    /// to and the actuator is within the catch band.
    pub open spec fn updated(self, unlock: bool, actuator_position: int) -> Self {
        ElectricalLockModel {
            is_locked: self.is_locking(unlock) && actuator_position < LOCK_CATCH_POSITION,
            ..self
        }
    }

    /// The lock after the electrical network has been read.
    pub open spec fn powered(self, buses: Set<ElectricalBusType>) -> Self {
        ElectricalLockModel { is_powered: buses.contains(self.powered_by), ..self }
    }
}

/// Lock that releases only while it is powered and told to unlock.
pub struct ElectricalLock {
    is_locked: bool,
    is_powered: bool,
    powered_by: ElectricalBusType,
}

impl View for ElectricalLock {
    type V = ElectricalLockModel;

    closed spec fn view(&self) -> ElectricalLockModel {
        ElectricalLockModel {
            is_locked: self.is_locked,
            is_powered: self.is_powered,
            powered_by: self.powered_by,
        }
    }
}

impl ElectricalLock {
    /// A lock that holds and has no power.
    pub fn new(powered_by: ElectricalBusType) -> (lock: Self)
        ensures
            lock@ == ElectricalLockModel::initial(powered_by),
    {
        ElectricalLock { is_locked: true, is_powered: false, powered_by }
    }

    /// Decides whether the lock holds during this tick.
    pub fn update(&mut self, commands: &ReverserCommands, actuator_position: Ratio)
        ensures
            final(self)@ == old(self)@.updated(commands.unlock, actuator_position.nano as int),
    {
        let is_locking = !commands.unlock || !self.is_powered;
        self.is_locked = is_locking && actuator_position.nano < LOCK_CATCH_POSITION;
    }

    /// Whether the lock holds.
    pub fn is_locked(&self) -> (locked: bool)
        ensures
            locked == self@.is_locked,
    {
        self.is_locked
    }

    /// Reads from the electrical network whether the lock's bus is powered.
    pub fn receive_power(&mut self, buses: &PoweredBuses)
        ensures
            final(self)@ == old(self)@.powered(buses@),
    {
        self.is_powered = buses.is_powered(self.powered_by);
    }
}

} // verus!
