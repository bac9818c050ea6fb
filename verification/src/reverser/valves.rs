//! The two valves of the reverser manifold: the isolation valve, which gates
//! the hydraulic supply, and the directional valve, which selects deploy or
//! stow.

use vstd::prelude::*;
use crate::electrical::{ElectricalBusType, PoweredBuses};
use crate::fixed_point::{isqrt, scale, Pressure, Ratio, NANO};
use crate::low_pass_filter::LowPassFilter;

verus! {

/// Time constant of a valve's travel: 150 ms, in nanoseconds.
pub const VALVE_TIME_CONSTANT_NS: u64 = 150_000_000;

/// Opening at or below which an isolation valve passes no pressure: 0.02.
pub const MIN_POSITION_FOR_PRESSURE: i64 = 20_000_000;

/// How a two-position valve behaves without electrical power.
#[derive(Clone, Copy, Debug, PartialEq, Eq, Structural)]
pub enum HydraulicValveType {
    ClosedWhenOff,
    OpenedWhenOff,
    Mechanical,
}

/// The opening that a two-position valve travels to, in billionths: fully
/// open or fully closed.
pub open spec fn commanded_opening(
    valve_type: HydraulicValveType,
    commanded_open: bool,
    powered: bool,
) -> int {
    let open = match valve_type {
        HydraulicValveType::OpenedWhenOff => !(!commanded_open && powered),
        HydraulicValveType::ClosedWhenOff => commanded_open && powered,
        HydraulicValveType::Mechanical => commanded_open,
    };
    if open {
        NANO as int
    } else {
        0
    }
}

/// Fraction of the inlet pressure that an isolation valve passes at a given
/// opening, in billionths: 1.4 times the square root of the opening, rounded
/// down, and at most one. The valve passes the whole pressure well before
/// it is fully open.
pub open spec fn transfer(opening: int) -> int {
    let curve = crate::fixed_point::floor_sqrt((opening * NANO) as nat) * 14 / 10;
    if curve < NANO {
        curve as int
    } else {
        NANO as int
    }
}

/// Outlet pressure of an isolation valve: nothing up to the dead band, above
/// it the inlet pressure times the transfer fraction.
pub open spec fn throughput(opening: int, pressure: int) -> int {
    if opening > MIN_POSITION_FOR_PRESSURE {
        crate::fixed_point::scaled(pressure, transfer(opening), NANO as int)
    } else {
        0
    }
}

/// Mathematical state of a two-position valve.
pub struct HydraulicValveModel {
    /// Opening, in billionths.
    pub position: int,
    /// Time constant of the travel, in nanoseconds.
    pub time_constant: nat,
    pub is_powered: bool,
    pub powered_by: ElectricalBusType,
    pub valve_type: HydraulicValveType,
    /// Inlet pressure at the last update, in pascals.
    pub pressure_input: int,
    /// Outlet pressure at the last update, in pascals.
    pub pressure_output: int,
}

impl HydraulicValveModel {
    /// A closed, unpowered valve that has seen no pressure yet.
    pub open spec fn initial(valve_type: HydraulicValveType, powered_by: ElectricalBusType) -> Self {
        HydraulicValveModel {
            position: 0,
            time_constant: VALVE_TIME_CONSTANT_NS as nat,
            is_powered: false,
            powered_by,
            valve_type,
            pressure_input: 0,
            pressure_output: 0,
        }
    }

    /// The opening is a fraction, and the outlet pressure is the one that the
    /// opening and the inlet pressure give.
    pub open spec fn wf(self) -> bool {
        &&& 0 <= self.position <= NANO
        &&& self.time_constant == VALVE_TIME_CONSTANT_NS
        &&& self.pressure_output == throughput(self.position, self.pressure_input)
    }

    /// The valve after `dt` nanoseconds with the given command and inlet
    /// pressure.
    pub open spec fn updated(self, dt: nat, commanded_open: bool, pressure_input: int) -> Self {
        let position = crate::low_pass_filter::filtered(
            self.position,
            commanded_opening(self.valve_type, commanded_open, self.is_powered),
            dt,
            self.time_constant,
        );
        HydraulicValveModel {
            position,
            pressure_input,
            pressure_output: throughput(position, pressure_input),
            ..self
        }
    }

    /// The valve after the electrical network has been read.
    pub open spec fn powered(self, buses: Set<ElectricalBusType>) -> Self {
        HydraulicValveModel { is_powered: buses.contains(self.powered_by), ..self }
    }
}

/// Two-position valve whose opening follows its command with a lag.
pub struct HydraulicValve {
    position: LowPassFilter,
    is_powered: bool,
    powered_by: ElectricalBusType,
    valve_type: HydraulicValveType,
    pressure_input: Pressure,
    pressure_output: Pressure,
}

impl View for HydraulicValve {
    type V = HydraulicValveModel;

    closed spec fn view(&self) -> HydraulicValveModel {
        HydraulicValveModel {
            position: self.position.value(),
            time_constant: self.position.time_constant(),
            is_powered: self.is_powered,
            powered_by: self.powered_by,
            valve_type: self.valve_type,
            pressure_input: self.pressure_input.pascal as int,
            pressure_output: self.pressure_output.pascal as int,
        }
    }
}

impl HydraulicValve {
    /// A closed, unpowered valve that has seen no pressure yet.
    pub fn new(valve_type: HydraulicValveType, powered_by: ElectricalBusType) -> (valve: Self)
        ensures
            valve@.wf(),
            valve@ == HydraulicValveModel::initial(valve_type, powered_by),
    {
        HydraulicValve {
            position: LowPassFilter::new(VALVE_TIME_CONSTANT_NS),
            is_powered: false,
            powered_by,
            valve_type,
            pressure_input: Pressure { pascal: 0 },
            pressure_output: Pressure { pascal: 0 },
        }
    }

    /// Moves the valve for `elapsed_ns` nanoseconds toward the commanded
    /// position and passes on `current_pressure_input`.
    pub fn update(&mut self, elapsed_ns: u64, commanded_open: bool, current_pressure_input: Pressure)
        requires
            old(self)@.wf(),
        ensures
            final(self)@.wf(),
            final(self)@ == old(self)@.updated(
                elapsed_ns as nat,
                commanded_open,
                current_pressure_input.pascal as int,
            ),
    {
        let commanded_position = self.actual_target_position_from_valve_type(commanded_open);
        proof {
            crate::low_pass_filter::lemma_filtered_between(
                self.position.value(),
                commanded_position.nano as int,
                elapsed_ns as nat,
                self.position.time_constant(),
            );
        }
        self.position.update(elapsed_ns, commanded_position);
        self.pressure_input = current_pressure_input;
        self.update_output_pressure();
    }

    /// The position that the valve travels to under the given command.
    pub fn actual_target_position_from_valve_type(&self, commanded_open: bool) -> (target: Ratio)
        ensures
            target.nano == commanded_opening(self@.valve_type, commanded_open, self@.is_powered),
    {
        match self.valve_type {
            HydraulicValveType::OpenedWhenOff => {
                if !commanded_open && self.is_powered {
                    Ratio { nano: 0 }
                } else {
                    Ratio { nano: NANO }
                }
            },
            HydraulicValveType::ClosedWhenOff => {
                if commanded_open && self.is_powered {
                    Ratio { nano: NANO }
                } else {
                    Ratio { nano: 0 }
                }
            },
            HydraulicValveType::Mechanical => {
                if commanded_open {
                    Ratio { nano: NANO }
                } else {
                    Ratio { nano: 0 }
                }
            },
        }
    }

    fn update_output_pressure(&mut self)
        requires
            0 <= old(self)@.position <= NANO,
        ensures
            final(self)@ == (HydraulicValveModel {
                pressure_output: throughput(old(self)@.position, old(self)@.pressure_input),
                ..old(self)@
            }),
    {
        let opening: i64 = self.position.output().nano;
        self.pressure_output = if opening > MIN_POSITION_FOR_PRESSURE {
            assert(0 <= opening * NANO <= NANO * NANO) by (nonlinear_arith)
                requires
                    0 <= opening <= NANO,
            ;
            let root: u64 = isqrt((opening * NANO) as u64);
            proof {
                crate::fixed_point::lemma_floor_sqrt_of_square(NANO as nat);
                crate::fixed_point::lemma_floor_sqrt_monotonic(
                    (opening * NANO) as nat,
                    (NANO * NANO) as nat,
                );
            }
            let curve: u64 = root * 14 / 10;
            let fraction: i64 = if curve < NANO as u64 {
                curve as i64
            } else {
                NANO
            };
            Pressure { pascal: scale(self.pressure_input.pascal, fraction as i128, NANO as u64) }
        } else {
            Pressure { pascal: 0 }
        };
    }

    /// Outlet pressure at the last update.
    pub fn pressure_output(&self) -> (pressure: Pressure)
        ensures
            pressure.pascal == self@.pressure_output,
    {
        self.pressure_output
    }

    /// Reads from the electrical network whether the valve's bus is powered.
    pub fn receive_power(&mut self, buses: &PoweredBuses)
        ensures
            final(self)@ == old(self)@.powered(buses@),
    {
        self.is_powered = buses.is_powered(self.powered_by);
    }
}

/// The position that a directional valve travels to, in billionths: minus
/// one to stow, plus one to deploy. Without power the valve stows.
pub open spec fn commanded_direction(commanded_retraction: bool, powered: bool) -> int {
    if commanded_retraction || !powered {
        -(NANO as int)
    } else {
        NANO as int
    }
}

/// Mathematical state of a directional valve.
pub struct DirectionalValveModel {
    /// Position between minus one and one, in billionths.
    pub position: int,
    /// Time constant of the travel, in nanoseconds.
    pub time_constant: nat,
    pub is_powered: bool,
    pub powered_by: ElectricalBusType,
    /// Outlet pressure at the last update, in pascals; negative when it
    /// drives the actuator toward stow.
    pub pressure_output: int,
}

impl DirectionalValveModel {
    /// A centred valve that counts as powered until the electrical network
    /// is first read.
    pub open spec fn initial(powered_by: ElectricalBusType) -> Self {
        DirectionalValveModel {
            position: 0,
            time_constant: VALVE_TIME_CONSTANT_NS as nat,
            is_powered: true,
            powered_by,
            pressure_output: 0,
        }
    }

    /// The position lies between full stow and full deploy.
    pub open spec fn wf(self) -> bool {
        &&& -NANO <= self.position <= NANO
        &&& self.time_constant == VALVE_TIME_CONSTANT_NS
    }

    /// The valve after `dt` nanoseconds with the given command and inlet
    /// pressure.
    pub open spec fn updated(self, dt: nat, commanded_retraction: bool, pressure_input: int) -> Self {
        let position = crate::low_pass_filter::filtered(
            self.position,
            commanded_direction(commanded_retraction, self.is_powered),
            dt,
            self.time_constant,
        );
        DirectionalValveModel {
            position,
            pressure_output: crate::fixed_point::scaled(pressure_input, position, NANO as int),
            ..self
        }
    }

    /// The valve after the electrical network has been read.
    pub open spec fn powered(self, buses: Set<ElectricalBusType>) -> Self {
        DirectionalValveModel { is_powered: buses.contains(self.powered_by), ..self }
    }
}

/// Valve whose signed position gives its outlet pressure a direction.
pub struct DirectionalValve {
    position: LowPassFilter,
    is_powered: bool,
    powered_by: ElectricalBusType,
    pressure_output: Pressure,
}

impl View for DirectionalValve {
    type V = DirectionalValveModel;

    closed spec fn view(&self) -> DirectionalValveModel {
        DirectionalValveModel {
            position: self.position.value(),
            time_constant: self.position.time_constant(),
            is_powered: self.is_powered,
            powered_by: self.powered_by,
            pressure_output: self.pressure_output.pascal as int,
        }
    }
}

impl DirectionalValve {
    /// A centred valve that counts as powered until the electrical network
    /// is first read.
    pub fn new(powered_by: ElectricalBusType) -> (valve: Self)
        ensures
            valve@.wf(),
            valve@ == DirectionalValveModel::initial(powered_by),
    {
        DirectionalValve {
            position: LowPassFilter::new(VALVE_TIME_CONSTANT_NS),
            is_powered: true,
            powered_by,
            pressure_output: Pressure { pascal: 0 },
        }
    }

    /// Moves the valve for `elapsed_ns` nanoseconds toward the commanded
    /// direction and passes on `current_pressure_input`.
    pub fn update(
        &mut self,
        elapsed_ns: u64,
        commanded_retraction: bool,
        current_pressure_input: Pressure,
    )
        requires
            old(self)@.wf(),
        ensures
            final(self)@.wf(),
            final(self)@ == old(self)@.updated(
                elapsed_ns as nat,
                commanded_retraction,
                current_pressure_input.pascal as int,
            ),
    {
        let commanded_position = if commanded_retraction || !self.is_powered {
            Ratio { nano: -NANO }
        } else {
            Ratio { nano: NANO }
        };
        proof {
            crate::low_pass_filter::lemma_filtered_between(
                self.position.value(),
                commanded_position.nano as int,
                elapsed_ns as nat,
                self.position.time_constant(),
            );
        }
        let position = self.position.update(elapsed_ns, commanded_position);
        self.pressure_output = Pressure {
            pascal: scale(current_pressure_input.pascal, position.nano as i128, NANO as u64),
        };
    }

    /// Outlet pressure at the last update.
    pub fn pressure_output(&self) -> (pressure: Pressure)
        ensures
            pressure.pascal == self@.pressure_output,
    {
        self.pressure_output
    }

    /// Reads from the electrical network whether the valve's bus is powered.
    pub fn receive_power(&mut self, buses: &PoweredBuses)
        ensures
            final(self)@ == old(self)@.powered(buses@),
    {
        self.is_powered = buses.is_powered(self.powered_by);
    }
}

} // verus!
