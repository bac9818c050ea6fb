//! The hydraulic actuator that moves the reverser between stowed (zero) and
//! deployed (one).

use vstd::prelude::*;
use crate::fixed_point::{scale, Pressure, Ratio, NANO};
use crate::low_pass_filter::LowPassFilter;

verus! {

/// Mean travel speed of an actuator under nominal pressure: 0.6 of the full
/// travel per second.
pub const NOMINAL_SPEED_RATIO_PER_S: i64 = 600_000_000;

/// Standard deviation of that speed from one actuator to the next: 0.05 of
/// the full travel per second.
pub const SPEED_RATIO_STD_DEVIATION: i64 = 50_000_000;

/// Time constant with which the speed follows the pressure: 250 ms, in
/// nanoseconds.
pub const SPEED_TIME_CONSTANT_NS: u64 = 250_000_000;

/// Mathematical state of the actuator.
pub struct ActuatorModel {
    /// Position between stowed (zero) and deployed (one), in billionths.
    pub position: int,
    /// Current speed, in billionths of the travel per second.
    pub speed: int,
    /// Time constant of the speed, in nanoseconds.
    pub time_constant: nat,
    /// Speed under nominal pressure, in billionths of the travel per second.
    pub nominal_speed: int,
    /// Pressure at which the actuator moves at its nominal speed, in
    /// pascals.
    pub nominal_pressure: int,
}

impl ActuatorModel {
    /// A stowed actuator at rest.
    pub open spec fn initial(nominal_pressure: int, nominal_speed: int) -> Self {
        ActuatorModel {
            position: 0,
            speed: 0,
            time_constant: SPEED_TIME_CONSTANT_NS as nat,
            nominal_speed,
            nominal_pressure,
        }
    }

    /// The position is a fraction of the travel and the nominal pressure is
    /// positive.
    pub open spec fn wf(self) -> bool {
        &&& 0 <= self.position <= NANO
        &&& self.time_constant == SPEED_TIME_CONSTANT_NS
        &&& 0 < self.nominal_pressure
    }

    /// The speed that `pressure` drives the actuator to: the nominal speed
    /// times the ratio of `pressure` to the nominal pressure.
    pub open spec fn speed_from_pressure(self, pressure: int) -> int {
        crate::fixed_point::scaled(pressure, self.nominal_speed, self.nominal_pressure)
    }

    /// The speed after `dt` nanoseconds under `pressure`, before the travel
    /// limits are looked at: zero at once when the lock holds, else the
    /// speed lagging behind the one that the pressure asks for.
    pub open spec fn driven_speed(self, dt: nat, pressure: int, is_locked: bool) -> int {
        if is_locked {
            0
        } else {
            crate::low_pass_filter::filtered(
                self.speed,
                self.speed_from_pressure(pressure),
                dt,
                self.time_constant,
            )
        }
    }

    /// Where the actuator would be after `dt` nanoseconds if its travel had
    /// no limits.
    pub open spec fn free_position(self, dt: nat, pressure: int, is_locked: bool) -> int {
        self.position + crate::fixed_point::div_toward_zero(
            self.driven_speed(dt, pressure, is_locked) * dt,
            NANO as int,
        )
    }

    /// Whether the actuator runs into the end of its travel during the
    /// tick.
    pub open spec fn hits_limit(self, dt: nat, pressure: int, is_locked: bool) -> bool {
        let speed = self.driven_speed(dt, pressure, is_locked);
        let position = self.free_position(dt, pressure, is_locked);
        (speed > 0 && position >= NANO) || (speed < 0 && position <= 0)
    }

    /// The actuator after `dt` nanoseconds under `pressure`: it moves at the
    /// driven speed, stops dead at a limit that it runs into, and stays
    /// within its travel.
    pub open spec fn updated(self, dt: nat, pressure: int, is_locked: bool) -> Self {
        let position = self.free_position(dt, pressure, is_locked);
        ActuatorModel {
            position: if position < 0 {
                0
            } else if position > NANO {
                NANO as int
            } else {
                position
            },
            speed: if self.hits_limit(dt, pressure, is_locked) {
                0
            } else {
                self.driven_speed(dt, pressure, is_locked)
            },
            ..self
        }
    }
}

/// Actuator whose speed follows the pressure that it is fed.
pub struct ReverserActuator {
    position: Ratio,
    current_speed: LowPassFilter,
    nominal_speed: Ratio,
    nominal_pressure: Pressure,
}

impl View for ReverserActuator {
    type V = ActuatorModel;

    closed spec fn view(&self) -> ActuatorModel {
        ActuatorModel {
            position: self.position.nano as int,
            speed: self.current_speed.value(),
            time_constant: self.current_speed.time_constant(),
            nominal_speed: self.nominal_speed.nano as int,
            nominal_pressure: self.nominal_pressure.pascal as int,
        }
    }
}

impl ReverserActuator {
    /// A stowed actuator at rest. `nominal_speed` is the speed of this very
    /// actuator under `nominal_pressure`; it varies from one actuator to the
    /// next around `NOMINAL_SPEED_RATIO_PER_S`.
    pub fn new(nominal_pressure: Pressure, nominal_speed: Ratio) -> (actuator: Self)
        requires
            nominal_pressure.pascal > 0,
        ensures
            actuator@.wf(),
            actuator@ == ActuatorModel::initial(
                nominal_pressure.pascal as int,
                nominal_speed.nano as int,
            ),
    {
        ReverserActuator {
            position: Ratio { nano: 0 },
            current_speed: LowPassFilter::new(SPEED_TIME_CONSTANT_NS),
            nominal_speed,
            nominal_pressure,
        }
    }

    /// Moves the actuator for `elapsed_ns` nanoseconds under `pressure`.
    pub fn update(&mut self, elapsed_ns: u64, pressure: Pressure, is_mechanically_locked: bool)
        requires
            old(self)@.wf(),
        ensures
            final(self)@.wf(),
            final(self)@ == old(self)@.updated(
                elapsed_ns as nat,
                pressure.pascal as int,
                is_mechanically_locked,
            ),
    {
        self.update_current_speed(elapsed_ns, pressure, is_mechanically_locked);
        let speed: i64 = self.current_speed.output().nano;
        let travelled: i64 = scale(speed, elapsed_ns as i128, NANO as u64);
        let position: i128 = self.position.nano as i128 + travelled as i128;
        if speed > 0 && position >= NANO as i128 || speed < 0 && position <= 0 {
            self.current_speed.reset(Ratio { nano: 0 });
        }
        self.position = if position < 0 {
            Ratio { nano: 0 }
        } else if position > NANO as i128 {
            Ratio { nano: NANO }
        } else {
            Ratio { nano: position as i64 }
        };
    }

    fn update_current_speed(
        &mut self,
        elapsed_ns: u64,
        pressure: Pressure,
        is_mechanically_locked: bool,
    )
        requires
            old(self)@.wf(),
        ensures
            final(self)@ == (ActuatorModel {
                speed: old(self)@.driven_speed(
                    elapsed_ns as nat,
                    pressure.pascal as int,
                    is_mechanically_locked,
                ),
                ..old(self)@
            }),
    {
        if is_mechanically_locked {
            self.current_speed.reset(Ratio { nano: 0 });
        } else {
            let target = self.max_speed_from_pressure(pressure);
            self.current_speed.update(elapsed_ns, target);
        }
    }

    /// The speed that `pressure` drives the actuator to.
    pub fn max_speed_from_pressure(&self, pressure: Pressure) -> (speed: Ratio)
        requires
            self@.wf(),
        ensures
            speed.nano == self@.speed_from_pressure(pressure.pascal as int),
    {
        Ratio {
            nano: scale(
                pressure.pascal,
                self.nominal_speed.nano as i128,
                self.nominal_pressure.pascal as u64,
            ),
        }
    }

    /// Where the actuator is.
    pub fn position(&self) -> (position: Ratio)
        ensures
            position.nano == self@.position,
    {
        self.position
    }

    /// The speed of this actuator under its nominal pressure.
    pub fn nominal_speed(&self) -> (speed: Ratio)
        ensures
            speed.nano == self@.nominal_speed,
    {
        self.nominal_speed
    }
}

} // verus!
