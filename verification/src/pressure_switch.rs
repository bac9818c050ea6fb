//! A pressure switch: a two-state sensor with hysteresis.

use vstd::prelude::*;
use crate::fixed_point::Pressure;

verus! {

/// What a pressure switch reports.
#[derive(Clone, Copy, Debug, PartialEq, Eq, Structural)]
pub enum PressureSwitchState {
    Pressurised,
    NotPressurised,
}

/// The state of a switch after it has sensed `pressure`: released at or
/// below the low threshold, else made at or above the high threshold, else
/// as it was.
pub open spec fn switched(pressurised: bool, low: int, high: int, pressure: int) -> bool {
    if pressure <= low {
        false
    } else if pressure >= high {
        true
    } else {
        pressurised
    }
}

/// Absolute pressure switch with separate make and release thresholds.
pub struct PressureSwitch {
    state_is_pressurised: bool,
    high_hysteresis_threshold: Pressure,
    low_hysteresis_threshold: Pressure,
}

impl PressureSwitch {
    /// Whether the switch currently reports pressure.
    pub closed spec fn is_pressurised(&self) -> bool {
        self.state_is_pressurised
    }

    /// Pressure at or above which the switch makes, in pascals.
    pub closed spec fn high_threshold(&self) -> int {
        self.high_hysteresis_threshold.pascal as int
    }

    /// Pressure at or below which the switch releases, in pascals.
    pub closed spec fn low_threshold(&self) -> int {
        self.low_hysteresis_threshold.pascal as int
    }

    /// A released switch with the given thresholds.
    pub fn new(high_threshold: Pressure, low_threshold: Pressure) -> (switch: Self)
        ensures
            !switch.is_pressurised(),
            switch.high_threshold() == high_threshold.pascal,
            switch.low_threshold() == low_threshold.pascal,
    {
        PressureSwitch {
            state_is_pressurised: false,
            high_hysteresis_threshold: high_threshold,
            low_hysteresis_threshold: low_threshold,
        }
    }

    /// Senses `current_pressure`.
    pub fn update(&mut self, current_pressure: Pressure)
        ensures
            final(self).high_threshold() == old(self).high_threshold(),
            final(self).low_threshold() == old(self).low_threshold(),
            final(self).is_pressurised() == switched(
                old(self).is_pressurised(),
                old(self).low_threshold(),
                old(self).high_threshold(),
                current_pressure.pascal as int,
            ),
    {
        if current_pressure.pascal <= self.low_hysteresis_threshold.pascal {
            self.state_is_pressurised = false;
        } else if current_pressure.pascal >= self.high_hysteresis_threshold.pascal {
            self.state_is_pressurised = true;
        }
    }

    /// What the switch reports.
    pub fn state(&self) -> (state: PressureSwitchState)
        ensures
            state == if self.is_pressurised() {
                PressureSwitchState::Pressurised
            } else {
                PressureSwitchState::NotPressurised
            },
    {
        if self.state_is_pressurised {
            PressureSwitchState::Pressurised
        } else {
            PressureSwitchState::NotPressurised
        }
    }
}

} // verus!
