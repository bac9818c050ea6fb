//! The hydraulic manifold of the reverser: an isolation valve, a pressure
//! switch behind it, and a directional valve that feeds the actuator.

use vstd::prelude::*;
use crate::electrical::{ElectricalBusType, PoweredBuses};
use crate::fixed_point::Pressure;
use crate::pressure_switch::{PressureSwitch, PressureSwitchState};
use crate::reverser::interface::ReverserCommands;
use crate::reverser::valves::{
    DirectionalValve,
    DirectionalValveModel,
    HydraulicValve,
    HydraulicValveModel,
    HydraulicValveType,
};

verus! {

/// Mathematical state of the manifold.
pub struct ManifoldModel {
    pub isolation_valve: HydraulicValveModel,
    pub directional_valve: DirectionalValveModel,
    /// Whether the pressure switch reports pressure.
    pub switch_pressurised: bool,
    /// Pressure at or above which the switch makes, in pascals.
    pub switch_high: int,
    /// Pressure at or below which the switch releases, in pascals.
    pub switch_low: int,
}

impl ManifoldModel {
    /// A manifold at rest: the isolation valve closed and closing without
    /// power, the directional valve centred, the switch released.
    pub open spec fn initial(
        powered_by: ElectricalBusType,
        switch_high: int,
        switch_low: int,
    ) -> Self {
        ManifoldModel {
            isolation_valve: HydraulicValveModel::initial(
                HydraulicValveType::ClosedWhenOff,
                powered_by,
            ),
            directional_valve: DirectionalValveModel::initial(powered_by),
            switch_pressurised: false,
            switch_high,
            switch_low,
        }
    }

    /// Both valves are well formed, and the isolation valve is one that
    /// closes without power.
    pub open spec fn wf(self) -> bool {
        &&& self.isolation_valve.wf()
        &&& self.isolation_valve.valve_type == HydraulicValveType::ClosedWhenOff
        &&& self.directional_valve.wf()
    }

    /// Whether the isolation valve is told to open: the hydraulics are not
    /// to be isolated and the valves are to be powered.
    pub open spec fn opens(commands: ReverserCommands) -> bool {
        !commands.isolate_hydraulics && commands.power_valves
    }

    /// Whether the directional valve is told to stow: the reverser is not
    /// to deploy, or the valves are not to be powered.
    pub open spec fn retracts(commands: ReverserCommands) -> bool {
        !commands.deploy_reverser || !commands.power_valves
    }

    /// The manifold after `dt` nanoseconds with `pressure` at its inlet. The
    /// isolation valve moves first; the pressure behind it is what the
    /// switch senses and what the directional valve is fed.
    pub open spec fn updated(self, dt: nat, pressure: int, commands: ReverserCommands) -> Self {
        let isolation_valve = self.isolation_valve.updated(dt, Self::opens(commands), pressure);
        ManifoldModel {
            isolation_valve,
            directional_valve: self.directional_valve.updated(
                dt,
                Self::retracts(commands),
                isolation_valve.pressure_output,
            ),
            switch_pressurised: crate::pressure_switch::switched(
                self.switch_pressurised,
                self.switch_low,
                self.switch_high,
                isolation_valve.pressure_output,
            ),
            ..self
        }
    }

    /// The manifold after the electrical network has been read.
    pub open spec fn powered(self, buses: Set<ElectricalBusType>) -> Self {
        ManifoldModel {
            isolation_valve: self.isolation_valve.powered(buses),
            directional_valve: self.directional_valve.powered(buses),
            ..self
        }
    }
}

/// Manifold that turns the supply pressure into the pressure that drives
/// the actuator.
pub struct ReverserHydraulicManifold {
    isolation_valve: HydraulicValve,
    directional_valve: DirectionalValve,
    pressure_switch: PressureSwitch,
}

impl View for ReverserHydraulicManifold {
    type V = ManifoldModel;

    closed spec fn view(&self) -> ManifoldModel {
        ManifoldModel {
            isolation_valve: self.isolation_valve@,
            directional_valve: self.directional_valve@,
            switch_pressurised: self.pressure_switch.is_pressurised(),
            switch_high: self.pressure_switch.high_threshold(),
            switch_low: self.pressure_switch.low_threshold(),
        }
    }
}

impl ReverserHydraulicManifold {
    /// A manifold at rest.
    pub fn new(
        powered_by: ElectricalBusType,
        switch_high_pressure: Pressure,
        switch_low_pressure: Pressure,
    ) -> (manifold: Self)
        ensures
            manifold@.wf(),
            manifold@ == ManifoldModel::initial(
                powered_by,
                switch_high_pressure.pascal as int,
                switch_low_pressure.pascal as int,
            ),
    {
        ReverserHydraulicManifold {
            isolation_valve: HydraulicValve::new(HydraulicValveType::ClosedWhenOff, powered_by),
            directional_valve: DirectionalValve::new(powered_by),
            pressure_switch: PressureSwitch::new(switch_high_pressure, switch_low_pressure),
        }
    }

    /// Advances the manifold by `elapsed_ns` nanoseconds with `pressure` at
    /// its inlet.
    pub fn update(&mut self, elapsed_ns: u64, pressure: Pressure, commands: &ReverserCommands)
        requires
            old(self)@.wf(),
        ensures
            final(self)@.wf(),
            final(self)@ == old(self)@.updated(elapsed_ns as nat, pressure.pascal as int, *commands),
    {
        self.isolation_valve.update(
            elapsed_ns,
            !commands.isolate_hydraulics && commands.power_valves,
            pressure,
        );
        self.pressure_switch.update(self.isolation_valve.pressure_output());
        self.directional_valve.update(
            elapsed_ns,
            !commands.deploy_reverser || !commands.power_valves,
            self.isolation_valve.pressure_output(),
        );
    }

    /// Pressure behind the isolation valve.
    pub fn manifold_pressure(&self) -> (pressure: Pressure)
        ensures
            pressure.pascal == self@.isolation_valve.pressure_output,
    {
        self.isolation_valve.pressure_output()
    }

    /// Pressure that the directional valve feeds to the actuator.
    pub fn actuator_pressure(&self) -> (pressure: Pressure)
        ensures
            pressure.pascal == self@.directional_valve.pressure_output,
    {
        self.directional_valve.pressure_output()
    }

    /// Whether the pressure switch reports pressure.
    pub fn pressure_switch_pressurised(&self) -> (pressurised: bool)
        ensures
            pressurised == self@.switch_pressurised,
    {
        self.pressure_switch.state() == PressureSwitchState::Pressurised
    }

    /// Lets both valves read from the electrical network whether their bus
    /// is powered.
    pub fn receive_power(&mut self, buses: &PoweredBuses)
        ensures
            final(self)@ == old(self)@.powered(buses@),
    {
        self.isolation_valve.receive_power(buses);
        self.directional_valve.receive_power(buses);
    }
}

} // verus!
