//! What the reverser takes from its controller and what it reports back.

use vstd::prelude::*;
use crate::fixed_point::Ratio;

verus! {

/// The orders of a controller to a reverser; each is asked anew on every
/// tick.
pub trait ReverserInterface {
    fn should_unlock(&self) -> bool;

    fn should_power_valves(&self) -> bool;

    fn should_isolate_hydraulics(&self) -> bool;

    fn should_deploy_reverser(&self) -> bool;
}

/// What a reverser reports, as of the last completed tick.
pub trait ReverserFeedback {
    fn position_sensor(&self) -> Ratio;

    fn proximity_sensor_stowed(&self) -> bool;

    fn proximity_sensor_all_opened(&self) -> bool;

    fn pressure_switch_pressurised(&self) -> bool;

    fn tertiary_lock_is_locked(&self) -> bool;
}

/// The orders of a controller for one tick, as plain values.
#[derive(Clone, Copy, Debug, PartialEq, Eq, Structural)]
pub struct ReverserCommands {
    pub unlock: bool,
    pub power_valves: bool,
    pub isolate_hydraulics: bool,
    pub deploy_reverser: bool,
}

impl ReverserCommands {
    /// Whether these are orders that `controller` may give when asked: each
    /// is an answer that the matching method of `controller` can return.
    pub open spec fn given_by<C: ReverserInterface>(self, controller: &C) -> bool {
        &&& call_ensures(C::should_unlock, (controller,), self.unlock)
        &&& call_ensures(C::should_power_valves, (controller,), self.power_valves)
        &&& call_ensures(C::should_isolate_hydraulics, (controller,), self.isolate_hydraulics)
        &&& call_ensures(C::should_deploy_reverser, (controller,), self.deploy_reverser)
    }

    /// Asks `controller` for each of its orders once.
    pub fn read<C: ReverserInterface>(controller: &C) -> (commands: Self)
        ensures
            commands.given_by(controller),
    {
        ReverserCommands {
            unlock: controller.should_unlock(),
            power_valves: controller.should_power_valves(),
            isolate_hydraulics: controller.should_isolate_hydraulics(),
            deploy_reverser: controller.should_deploy_reverser(),
        }
    }
}

impl ReverserInterface for ReverserCommands {
    fn should_unlock(&self) -> (unlock: bool)
        ensures
            unlock == self.unlock,
    {
        self.unlock
    }

    fn should_power_valves(&self) -> (power: bool)
        ensures
            power == self.power_valves,
    {
        self.power_valves
    }

    fn should_isolate_hydraulics(&self) -> (isolate: bool)
        ensures
            isolate == self.isolate_hydraulics,
    {
        self.isolate_hydraulics
    }

    fn should_deploy_reverser(&self) -> (deploy: bool)
        ensures
            deploy == self.deploy_reverser,
    {
        self.deploy_reverser
    }
}

} // verus!
