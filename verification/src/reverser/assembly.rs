//! The reverser assembly: lock, manifold and actuator advanced together,
//! once per tick.

use vstd::prelude::*;
use crate::electrical::{ElectricalBusType, PoweredBuses};
use crate::fixed_point::{Pressure, Ratio};
use crate::reverser::actuator::{ActuatorModel, ReverserActuator};
use crate::reverser::interface::{ReverserCommands, ReverserFeedback, ReverserInterface};
use crate::reverser::lock::{ElectricalLock, ElectricalLockModel};
use crate::reverser::manifold::{ManifoldModel, ReverserHydraulicManifold};

verus! {

/// Position below which the stowed proximity sensor reports: 0.05.
pub const STOWED_PROXIMITY_POSITION: i64 = 50_000_000;

/// Position above which the deployed proximity sensor reports: 0.99.
pub const ALL_OPENED_PROXIMITY_POSITION: i64 = 990_000_000;

/// What the world around the reverser gives it during one tick.
pub struct Tick {
    /// The buses that are powered.
    pub buses: Set<ElectricalBusType>,
    /// Length of the tick, in nanoseconds.
    pub elapsed: nat,
    /// The orders of the controller.
    pub commands: ReverserCommands,
    /// Supply pressure at the manifold's inlet, in pascals.
    pub pressure: int,
}

/// Mathematical state of the assembly.
pub struct AssemblyModel {
    pub electrical_lock: ElectricalLockModel,
    pub hydraulic_manifold: ManifoldModel,
    pub actuator: ActuatorModel,
}

impl AssemblyModel {
    /// A stowed and locked reverser at rest.
    pub open spec fn initial(
        nominal_pressure: int,
        switch_high: int,
        switch_low: int,
        lock_powered_by: ElectricalBusType,
        valves_powered_by: ElectricalBusType,
        nominal_speed: int,
    ) -> Self {
        AssemblyModel {
            electrical_lock: ElectricalLockModel::initial(lock_powered_by),
            hydraulic_manifold: ManifoldModel::initial(valves_powered_by, switch_high, switch_low),
            actuator: ActuatorModel::initial(nominal_pressure, nominal_speed),
        }
    }

    /// The manifold and the actuator are well formed.
    pub open spec fn wf(self) -> bool {
        &&& self.hydraulic_manifold.wf()
        &&& self.actuator.wf()
    }

    /// The assembly after a tick of `dt` nanoseconds with `pressure` at the
    /// manifold's inlet. The lock decides first, on the position that the
    /// actuator had at the end of the tick before; then the manifold
    /// moves; then the actuator, fed by the manifold and held by the lock
    /// as they are now.
    pub open spec fn updated(self, dt: nat, commands: ReverserCommands, pressure: int) -> Self {
        let electrical_lock = self.electrical_lock.updated(commands.unlock, self.actuator.position);
        let hydraulic_manifold = self.hydraulic_manifold.updated(dt, pressure, commands);
        AssemblyModel {
            electrical_lock,
            hydraulic_manifold,
            actuator: self.actuator.updated(
                dt,
                hydraulic_manifold.directional_valve.pressure_output,
                electrical_lock.is_locked,
            ),
        }
    }

    /// The assembly after the electrical network has been read.
    pub open spec fn powered(self, buses: Set<ElectricalBusType>) -> Self {
        AssemblyModel {
            electrical_lock: self.electrical_lock.powered(buses),
            hydraulic_manifold: self.hydraulic_manifold.powered(buses),
            ..self
        }
    }

    /// The assembly after one whole tick: the electrical network is read,
    /// then the parts are advanced.
    pub open spec fn ticked(self, tick: Tick) -> Self {
        self.powered(tick.buses).updated(tick.elapsed, tick.commands, tick.pressure)
    }

    /// The assembly after a run of ticks, the first of `ticks` first.
    pub open spec fn run(self, ticks: Seq<Tick>) -> Self
        decreases ticks.len(),
    {
        if ticks.len() == 0 {
            self
        } else {
            self.run(ticks.drop_last()).ticked(ticks.last())
        }
    }
}

/// A thrust reverser: its lock, its hydraulic manifold and its actuator.
pub struct ReverserAssembly {
    electrical_lock: ElectricalLock,
    hydraulic_manifold: ReverserHydraulicManifold,
    actuator: ReverserActuator,
}

impl View for ReverserAssembly {
    type V = AssemblyModel;

    closed spec fn view(&self) -> AssemblyModel {
        AssemblyModel {
            electrical_lock: self.electrical_lock@,
            hydraulic_manifold: self.hydraulic_manifold@,
            actuator: self.actuator@,
        }
    }
}

impl ReverserAssembly {
    /// A stowed and locked reverser at rest. `actuator_nominal_speed` is
    /// the speed of its actuator under `nominal_hydraulic_pressure`.
    pub fn new(
        nominal_hydraulic_pressure: Pressure,
        switch_high_threshold_pressure: Pressure,
        switch_low_threshold_pressure: Pressure,
        electrical_lock_powered_by: ElectricalBusType,
        hyd_valves_powered_by: ElectricalBusType,
        actuator_nominal_speed: Ratio,
    ) -> (assembly: Self)
        requires
            nominal_hydraulic_pressure.pascal > 0,
        ensures
            assembly@.wf(),
            assembly@ == AssemblyModel::initial(
                nominal_hydraulic_pressure.pascal as int,
                switch_high_threshold_pressure.pascal as int,
                switch_low_threshold_pressure.pascal as int,
                electrical_lock_powered_by,
                hyd_valves_powered_by,
                actuator_nominal_speed.nano as int,
            ),
    {
        ReverserAssembly {
            electrical_lock: ElectricalLock::new(electrical_lock_powered_by),
            hydraulic_manifold: ReverserHydraulicManifold::new(
                hyd_valves_powered_by,
                switch_high_threshold_pressure,
                switch_low_threshold_pressure,
            ),
            actuator: ReverserActuator::new(nominal_hydraulic_pressure, actuator_nominal_speed),
        }
    }

    /// Advances the reverser by a tick of `elapsed_ns` nanoseconds, under
    /// the orders that `controller` gives when asked now.
    pub fn update<C: ReverserInterface>(
        &mut self,
        elapsed_ns: u64,
        controller: &C,
        pressure: Pressure,
    )
        requires
            old(self)@.wf(),
        ensures
            final(self)@.wf(),
            exists|commands: ReverserCommands|
                #![trigger commands.given_by(controller)]
                commands.given_by(controller) && final(self)@ == old(self)@.updated(
                    elapsed_ns as nat,
                    commands,
                    pressure.pascal as int,
                ),
    {
        let commands = ReverserCommands::read(controller);
        self.update_with_commands(elapsed_ns, &commands, pressure);
    }

    /// Advances the reverser by a tick of `elapsed_ns` nanoseconds under
    /// the given orders.
    pub fn update_with_commands(
        &mut self,
        elapsed_ns: u64,
        commands: &ReverserCommands,
        pressure: Pressure,
    )
        requires
            old(self)@.wf(),
        ensures
            final(self)@.wf(),
            final(self)@ == old(self)@.updated(elapsed_ns as nat, *commands, pressure.pascal as int),
    {
        self.electrical_lock.update(commands, self.reverser_position());
        self.hydraulic_manifold.update(elapsed_ns, pressure, commands);
        self.actuator.update(
            elapsed_ns,
            self.hydraulic_manifold.actuator_pressure(),
            self.electrical_lock.is_locked(),
        );
    }

    /// Where the actuator is.
    pub fn reverser_position(&self) -> (position: Ratio)
        ensures
            position.nano == self@.actuator.position,
    {
        self.actuator.position()
    }

    /// Pressure behind the isolation valve.
    pub fn manifold_pressure(&self) -> (pressure: Pressure)
        ensures
            pressure.pascal == self@.hydraulic_manifold.isolation_valve.pressure_output,
    {
        self.hydraulic_manifold.manifold_pressure()
    }

    /// The speed of the actuator under its nominal pressure.
    pub fn actuator_nominal_speed(&self) -> (speed: Ratio)
        ensures
            speed.nano == self@.actuator.nominal_speed,
    {
        self.actuator.nominal_speed()
    }

    /// Lets the lock and the valves read from the electrical network
    /// whether their buses are powered.
    pub fn receive_power(&mut self, buses: &PoweredBuses)
        ensures
            final(self)@ == old(self)@.powered(buses@),
    {
        self.electrical_lock.receive_power(buses);
        self.hydraulic_manifold.receive_power(buses);
    }
}

impl ReverserFeedback for ReverserAssembly {
    fn position_sensor(&self) -> (position: Ratio)
        ensures
            position.nano == self@.actuator.position,
    {
        self.reverser_position()
    }

    fn proximity_sensor_stowed(&self) -> (stowed: bool)
        ensures
            stowed == (self@.actuator.position < STOWED_PROXIMITY_POSITION),
    {
        self.reverser_position().nano < STOWED_PROXIMITY_POSITION
    }

    fn proximity_sensor_all_opened(&self) -> (opened: bool)
        ensures
            opened == (self@.actuator.position > ALL_OPENED_PROXIMITY_POSITION),
    {
        self.reverser_position().nano > ALL_OPENED_PROXIMITY_POSITION
    }

    fn pressure_switch_pressurised(&self) -> (pressurised: bool)
        ensures
            pressurised == self@.hydraulic_manifold.switch_pressurised,
    {
        self.hydraulic_manifold.pressure_switch_pressurised()
    }

    fn tertiary_lock_is_locked(&self) -> (locked: bool)
        ensures
            locked == self@.electrical_lock.is_locked,
    {
        self.electrical_lock.is_locked()
    }
}

} // verus!
