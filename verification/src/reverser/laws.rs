//! What holds of the reverser over whole runs of ticks.

use vstd::prelude::*;
use crate::fixed_point::NANO;
use crate::reverser::actuator::ActuatorModel;
use crate::reverser::assembly::{AssemblyModel, Tick};
use crate::reverser::lock::LOCK_CATCH_POSITION;
use crate::reverser::manifold::ManifoldModel;
use crate::reverser::valves::{DirectionalValveModel, HydraulicValveModel};

verus! {

/// A two-position valve keeps its opening between closed and open, whatever
/// it is commanded, fed, and for how long.
pub proof fn lemma_hydraulic_valve_stays_in_range(
    valve: HydraulicValveModel,
    dt: nat,
    commanded_open: bool,
    pressure: int,
)
    requires
        valve.wf(),
    ensures
        valve.updated(dt, commanded_open, pressure).wf(),
{
    crate::low_pass_filter::lemma_filtered_between(
        valve.position,
        crate::reverser::valves::commanded_opening(
            valve.valve_type,
            commanded_open,
            valve.is_powered,
        ),
        dt,
        valve.time_constant,
    );
}

/// A directional valve keeps its position between full stow and full
/// deploy, whatever it is commanded, fed, and for how long.
pub proof fn lemma_directional_valve_stays_in_range(
    valve: DirectionalValveModel,
    dt: nat,
    commanded_retraction: bool,
    pressure: int,
)
    requires
        valve.wf(),
    ensures
        valve.updated(dt, commanded_retraction, pressure).wf(),
{
    crate::low_pass_filter::lemma_filtered_between(
        valve.position,
        crate::reverser::valves::commanded_direction(commanded_retraction, valve.is_powered),
        dt,
        valve.time_constant,
    );
}

/// The manifold never holds more pressure than its supply, and never feeds
/// the actuator more than it holds, in either direction.
pub proof fn lemma_manifold_pressures_are_capped(
    manifold: ManifoldModel,
    dt: nat,
    pressure: int,
    commands: crate::reverser::interface::ReverserCommands,
)
    requires
        manifold.wf(),
        pressure >= 0,
    ensures
        0 <= manifold.updated(dt, pressure, commands).isolation_valve.pressure_output <= pressure,
        -manifold.updated(dt, pressure, commands).isolation_valve.pressure_output
            <= manifold.updated(dt, pressure, commands).directional_valve.pressure_output
            <= manifold.updated(dt, pressure, commands).isolation_valve.pressure_output,
{
    let after = manifold.updated(dt, pressure, commands);
    lemma_hydraulic_valve_stays_in_range(
        manifold.isolation_valve,
        dt,
        ManifoldModel::opens(commands),
        pressure,
    );
    lemma_directional_valve_stays_in_range(
        manifold.directional_valve,
        dt,
        ManifoldModel::retracts(commands),
        after.isolation_valve.pressure_output,
    );
    crate::fixed_point::lemma_scaled_by_fraction(
        pressure,
        crate::reverser::valves::transfer(after.isolation_valve.position),
        NANO as int,
    );
    crate::fixed_point::lemma_scaled_by_fraction(
        after.isolation_valve.pressure_output,
        after.directional_valve.position,
        NANO as int,
    );
}

/// An actuator stays within its travel, whatever the pressure and however
/// long the tick.
pub proof fn lemma_actuator_stays_in_range(
    actuator: ActuatorModel,
    dt: nat,
    pressure: int,
    is_locked: bool,
)
    requires
        actuator.wf(),
    ensures
        actuator.updated(dt, pressure, is_locked).wf(),
{
}

/// One tick leaves every position of the assembly within its bounds.
pub proof fn lemma_tick_keeps_bounds(assembly: AssemblyModel, tick: Tick)
    requires
        assembly.wf(),
    ensures
        assembly.ticked(tick).wf(),
{
    let powered = assembly.powered(tick.buses);
    let manifold = powered.hydraulic_manifold;
    lemma_hydraulic_valve_stays_in_range(
        manifold.isolation_valve,
        tick.elapsed,
        ManifoldModel::opens(tick.commands),
        tick.pressure,
    );
    lemma_directional_valve_stays_in_range(
        manifold.directional_valve,
        tick.elapsed,
        ManifoldModel::retracts(tick.commands),
        manifold.isolation_valve.updated(
            tick.elapsed,
            ManifoldModel::opens(tick.commands),
            tick.pressure,
        ).pressure_output,
    );
}

/// A run with one more tick at its end is the run without it, followed by
/// that tick.
pub proof fn lemma_run_one_more_tick(assembly: AssemblyModel, ticks: Seq<Tick>, tick: Tick)
    ensures
        assembly.run(ticks.push(tick)) == assembly.run(ticks).ticked(tick),
{
    assert(ticks.push(tick).drop_last() =~= ticks);
}

/// For all ticks, the actuator stays within its travel and both valves
/// within theirs, whatever the inputs and however long the run.
pub proof fn lemma_run_keeps_bounds(assembly: AssemblyModel, ticks: Seq<Tick>)
    requires
        assembly.wf(),
    ensures
        assembly.run(ticks).wf(),
    decreases ticks.len(),
{
    if ticks.len() > 0 {
        lemma_run_keeps_bounds(assembly, ticks.drop_last());
        lemma_tick_keeps_bounds(assembly.run(ticks.drop_last()), ticks.last());
    }
}

/// Whether the lock of `assembly` tries to hold during `tick`: it does
/// unless its bus is powered and it is told to unlock.
pub open spec fn lock_holds_during(assembly: AssemblyModel, tick: Tick) -> bool {
    !tick.commands.unlock || !tick.buses.contains(assembly.electrical_lock.powered_by)
}

/// A reverser whose actuator is within the catch band of the lock, and
/// whose lock tries to hold on every tick, never moves: after every run the
/// actuator is where it was, and after the first tick the lock holds and the
/// actuator is at rest, whatever the pressure and the other orders.
pub proof fn lemma_held_reverser_stays_put(assembly: AssemblyModel, ticks: Seq<Tick>)
    requires
        assembly.wf(),
        assembly.actuator.position < LOCK_CATCH_POSITION,
        forall|i: int| 0 <= i < ticks.len() ==> lock_holds_during(assembly, #[trigger] ticks[i]),
    ensures
        assembly.run(ticks).actuator.position == assembly.actuator.position,
        assembly.run(ticks).electrical_lock.powered_by == assembly.electrical_lock.powered_by,
        ticks.len() > 0 ==> assembly.run(ticks).electrical_lock.is_locked,
        ticks.len() > 0 ==> assembly.run(ticks).actuator.speed == 0,
    decreases ticks.len(),
{
    if ticks.len() > 0 {
        let before = assembly.run(ticks.drop_last());
        let tick = ticks.last();
        lemma_held_reverser_stays_put(assembly, ticks.drop_last());
        lemma_run_keeps_bounds(assembly, ticks.drop_last());
        assert(lock_holds_during(assembly, tick));
        assert(0 * tick.elapsed == 0) by (nonlinear_arith);
    }
}

/// While the bus of the lock has no power, the lock holds, whatever it is
/// told, and the reverser stays where it is. This is so from a position
/// within the catch band of the lock; further out the lock cannot catch.
pub proof fn lemma_unpowered_lock_stays_locked(assembly: AssemblyModel, ticks: Seq<Tick>)
    requires
        assembly.wf(),
        assembly.actuator.position < LOCK_CATCH_POSITION,
        ticks.len() > 0,
        forall|i: int|
            0 <= i < ticks.len() ==> !(#[trigger] ticks[i]).buses.contains(
                assembly.electrical_lock.powered_by,
            ),
    ensures
        assembly.run(ticks).electrical_lock.is_locked,
        assembly.run(ticks).actuator.position == assembly.actuator.position,
{
    lemma_held_reverser_stays_put(assembly, ticks);
}

/// While the lock is not told to unlock, a stowed reverser does not leave
/// its place, however hard the hydraulics push and whatever is powered.
pub proof fn lemma_locked_reverser_does_not_deploy(assembly: AssemblyModel, ticks: Seq<Tick>)
    requires
        assembly.wf(),
        assembly.actuator.position < LOCK_CATCH_POSITION,
        forall|i: int| 0 <= i < ticks.len() ==> !(#[trigger] ticks[i]).commands.unlock,
    ensures
        assembly.run(ticks).actuator.position == assembly.actuator.position,
        ticks.len() > 0 ==> assembly.run(ticks).electrical_lock.is_locked,
{
    lemma_held_reverser_stays_put(assembly, ticks);
}

/// The time that a run of ticks takes, in nanoseconds.
pub open spec fn total_elapsed(ticks: Seq<Tick>) -> nat
    decreases ticks.len(),
{
    if ticks.len() == 0 {
        0
    } else {
        total_elapsed(ticks.drop_last()) + ticks.last().elapsed
    }
}

/// Whether the isolation valve of `assembly` travels toward open during
/// `tick`: the hydraulics are not to be isolated, the valves are to be
/// powered, and their bus has power.
pub open spec fn isolation_valve_opens_during(assembly: AssemblyModel, tick: Tick) -> bool {
    &&& !tick.commands.isolate_hydraulics
    &&& tick.commands.power_valves
    &&& tick.buses.contains(assembly.hydraulic_manifold.isolation_valve.powered_by)
}

/// Two shrinking steps in a row: if a distance shrank from `d0` to `d1`
/// over a time `s`, and shrinks on to `d2` over `dt` more, it has shrunk
/// from `d0` to `d2` over `s + dt`.
proof fn lemma_shrinking_composes(d0: nat, d1: nat, d2: nat, tau: nat, s: nat, dt: nat)
    requires
        tau > 0,
        d1 * (tau + s) <= d0 * tau,
        d2 * (tau + dt) <= d1 * tau,
    ensures
        d2 * (tau + s + dt) <= d0 * tau,
{
    assert(d2 * (tau + dt) * (tau + s) <= d1 * tau * (tau + s)) by (nonlinear_arith)
        requires
            d2 * (tau + dt) <= d1 * tau,
    ;
    assert(d1 * tau * (tau + s) <= d0 * tau * tau) by (nonlinear_arith)
        requires
            d1 * (tau + s) <= d0 * tau,
    ;
    assert(d2 * tau * (tau + s + dt) <= d2 * (tau + dt) * (tau + s)) by (nonlinear_arith);
    assert(d2 * (tau + s + dt) <= d0 * tau) by (nonlinear_arith)
        requires
            tau > 0,
            d2 * tau * (tau + s + dt) <= d0 * tau * tau,
    ;
}

/// While the isolation valve is kept from opening, its opening `p` shrinks
/// with the time `t` that has passed: `p * (tau + t) <= p0 * tau`, where
/// `p0` is the opening at the start and `tau` the time constant of the
/// valve.
pub proof fn lemma_isolation_valve_closes(assembly: AssemblyModel, ticks: Seq<Tick>)
    requires
        assembly.wf(),
        forall|i: int|
            0 <= i < ticks.len() ==> !isolation_valve_opens_during(assembly, #[trigger] ticks[i]),
    ensures
        assembly.run(ticks).wf(),
        assembly.run(ticks).hydraulic_manifold.isolation_valve.powered_by
            == assembly.hydraulic_manifold.isolation_valve.powered_by,
        assembly.run(ticks).hydraulic_manifold.isolation_valve.position * (
        crate::reverser::valves::VALVE_TIME_CONSTANT_NS + total_elapsed(ticks))
            <= assembly.hydraulic_manifold.isolation_valve.position
            * crate::reverser::valves::VALVE_TIME_CONSTANT_NS,
    decreases ticks.len(),
{
    lemma_run_keeps_bounds(assembly, ticks);
    if ticks.len() > 0 {
        let before = assembly.run(ticks.drop_last());
        let tick = ticks.last();
        lemma_isolation_valve_closes(assembly, ticks.drop_last());
        assert(!isolation_valve_opens_during(assembly, tick));
        let valve = before.hydraulic_manifold.isolation_valve;
        let tau = crate::reverser::valves::VALVE_TIME_CONSTANT_NS as nat;
        crate::low_pass_filter::lemma_filtered_closes_in(valve.position, 0, tick.elapsed, tau);
        crate::low_pass_filter::lemma_filtered_between(valve.position, 0, tick.elapsed, tau);
        lemma_shrinking_composes(
            assembly.hydraulic_manifold.isolation_valve.position as nat,
            valve.position as nat,
            assembly.run(ticks).hydraulic_manifold.isolation_valve.position as nat,
            tau,
            total_elapsed(ticks.drop_last()),
            tick.elapsed,
        );
    }
}

/// While the isolation valve is made to open, what is left of its travel,
/// `r`, shrinks with the time `t` that has passed:
/// `r * (tau + t) <= r0 * tau`.
pub proof fn lemma_isolation_valve_opens(assembly: AssemblyModel, ticks: Seq<Tick>)
    requires
        assembly.wf(),
        forall|i: int|
            0 <= i < ticks.len() ==> isolation_valve_opens_during(assembly, #[trigger] ticks[i]),
    ensures
        assembly.run(ticks).wf(),
        assembly.run(ticks).hydraulic_manifold.isolation_valve.powered_by
            == assembly.hydraulic_manifold.isolation_valve.powered_by,
        (NANO - assembly.run(ticks).hydraulic_manifold.isolation_valve.position) * (
        crate::reverser::valves::VALVE_TIME_CONSTANT_NS + total_elapsed(ticks)) <= (NANO
            - assembly.hydraulic_manifold.isolation_valve.position)
            * crate::reverser::valves::VALVE_TIME_CONSTANT_NS,
    decreases ticks.len(),
{
    lemma_run_keeps_bounds(assembly, ticks);
    if ticks.len() > 0 {
        let before = assembly.run(ticks.drop_last());
        let tick = ticks.last();
        lemma_isolation_valve_opens(assembly, ticks.drop_last());
        assert(isolation_valve_opens_during(assembly, tick));
        let valve = before.hydraulic_manifold.isolation_valve;
        let tau = crate::reverser::valves::VALVE_TIME_CONSTANT_NS as nat;
        crate::low_pass_filter::lemma_filtered_closes_in(
            valve.position,
            NANO as int,
            tick.elapsed,
            tau,
        );
        crate::low_pass_filter::lemma_filtered_between(
            valve.position,
            NANO as int,
            tick.elapsed,
            tau,
        );
        lemma_shrinking_composes(
            (NANO - assembly.hydraulic_manifold.isolation_valve.position) as nat,
            (NANO - valve.position) as nat,
            (NANO - assembly.run(ticks).hydraulic_manifold.isolation_valve.position) as nat,
            tau,
            total_elapsed(ticks.drop_last()),
            tick.elapsed,
        );
    }
}

/// Once the hydraulics have been isolated, or the valves left without
/// power, for 49 time constants of the isolation valve, there is no
/// pressure in the manifold, whatever the supply and however the time was
/// cut into ticks.
pub proof fn lemma_isolated_manifold_loses_pressure(assembly: AssemblyModel, ticks: Seq<Tick>)
    requires
        assembly.wf(),
        forall|i: int|
            0 <= i < ticks.len() ==> !isolation_valve_opens_during(assembly, #[trigger] ticks[i]),
        total_elapsed(ticks) >= 49 * crate::reverser::valves::VALVE_TIME_CONSTANT_NS,
    ensures
        assembly.run(ticks).hydraulic_manifold.isolation_valve.pressure_output == 0,
{
    lemma_isolation_valve_closes(assembly, ticks);
    let position = assembly.run(ticks).hydraulic_manifold.isolation_valve.position;
    let start = assembly.hydraulic_manifold.isolation_valve.position;
    let tau = crate::reverser::valves::VALVE_TIME_CONSTANT_NS as int;
    let time = total_elapsed(ticks) as int;
    assert(position * 50 <= NANO) by (nonlinear_arith)
        requires
            position * (tau + time) <= start * tau,
            0 <= position,
            0 <= start <= NANO,
            tau > 0,
            time >= 49 * tau,
    ;
}

/// Once the isolation valve has been made to open for two of its time
/// constants, the manifold is at the pressure of the supply, however the
/// time was cut into ticks.
pub proof fn lemma_open_manifold_reaches_supply_pressure(assembly: AssemblyModel, ticks: Seq<Tick>)
    requires
        assembly.wf(),
        forall|i: int|
            0 <= i < ticks.len() ==> isolation_valve_opens_during(assembly, #[trigger] ticks[i]),
        total_elapsed(ticks) >= 2 * crate::reverser::valves::VALVE_TIME_CONSTANT_NS,
        i64::MIN <= ticks.last().pressure <= i64::MAX,
    ensures
        assembly.run(ticks).hydraulic_manifold.isolation_valve.pressure_output
            == ticks.last().pressure,
{
    lemma_isolation_valve_opens(assembly, ticks);
    let position = assembly.run(ticks).hydraulic_manifold.isolation_valve.position;
    let start = assembly.hydraulic_manifold.isolation_valve.position;
    let tau = crate::reverser::valves::VALVE_TIME_CONSTANT_NS as int;
    let time = total_elapsed(ticks) as int;
    assert((NANO - position) * 3 <= NANO) by (nonlinear_arith)
        requires
            (NANO - position) * (tau + time) <= (NANO - start) * tau,
            0 <= position <= NANO,
            0 <= start <= NANO,
            tau > 0,
            time >= 2 * tau,
    ;
    crate::fixed_point::lemma_floor_sqrt_of_square(800_000_000);
    assert(800_000_000nat * 800_000_000nat == 640_000_000_000_000_000) by (nonlinear_arith);
    crate::fixed_point::lemma_floor_sqrt_monotonic(
        640_000_000_000_000_000,
        (position * NANO) as nat,
    );
    assert(crate::reverser::valves::transfer(position) == NANO);
    let pressure = ticks.last().pressure;
    assert(pressure * NANO / (NANO as int) == pressure) by (nonlinear_arith);
    assert((-(pressure * NANO)) / (NANO as int) == -pressure) by (nonlinear_arith);
}

/// Whether `assembly` has come to rest under the inputs of `tick`: every part
/// has read the electrical network as it is, the lock has decided, both
/// valves are where they are commanded and pass what they are fed, the
/// switch has taken its state, and the actuator stands still, because the
/// lock holds it, or nothing pushes it, or it is pushed against the end of
/// its travel.
pub open spec fn at_rest_under(assembly: AssemblyModel, tick: Tick) -> bool {
    let lock = assembly.electrical_lock;
    let manifold = assembly.hydraulic_manifold;
    let isolation_valve = manifold.isolation_valve;
    let directional_valve = manifold.directional_valve;
    let actuator = assembly.actuator;
    let push = actuator.speed_from_pressure(directional_valve.pressure_output);
    &&& lock.is_powered == tick.buses.contains(lock.powered_by)
    &&& lock.is_locked == (lock.is_locking(tick.commands.unlock) && actuator.position
        < LOCK_CATCH_POSITION)
    &&& isolation_valve.is_powered == tick.buses.contains(isolation_valve.powered_by)
    &&& isolation_valve.position == crate::reverser::valves::commanded_opening(
        isolation_valve.valve_type,
        ManifoldModel::opens(tick.commands),
        isolation_valve.is_powered,
    )
    &&& isolation_valve.pressure_input == tick.pressure
    &&& manifold.switch_pressurised == crate::pressure_switch::switched(
        manifold.switch_pressurised,
        manifold.switch_low,
        manifold.switch_high,
        isolation_valve.pressure_output,
    )
    &&& directional_valve.is_powered == tick.buses.contains(directional_valve.powered_by)
    &&& directional_valve.position == crate::reverser::valves::commanded_direction(
        ManifoldModel::retracts(tick.commands),
        directional_valve.is_powered,
    )
    &&& directional_valve.pressure_output == crate::fixed_point::scaled(
        isolation_valve.pressure_output,
        directional_valve.position,
        NANO as int,
    )
    &&& actuator.speed == 0
    &&& {
        ||| lock.is_locked
        ||| push == 0
        ||| push > 0 && actuator.position == NANO
        ||| push < 0 && actuator.position == 0
    }
}

/// A tick under the inputs under which a reverser has come to rest changes
/// nothing in it.
pub proof fn lemma_tick_at_rest_changes_nothing(assembly: AssemblyModel, tick: Tick)
    requires
        assembly.wf(),
        at_rest_under(assembly, tick),
    ensures
        assembly.ticked(tick) == assembly,
{
    let actuator = assembly.actuator;
    let pressure = assembly.hydraulic_manifold.directional_valve.pressure_output;
    let is_locked = assembly.electrical_lock.is_locked;
    let push = actuator.speed_from_pressure(pressure);
    let speed = actuator.driven_speed(tick.elapsed, pressure, is_locked);
    let travelled = crate::fixed_point::div_toward_zero(speed * tick.elapsed, NANO as int);
    crate::low_pass_filter::lemma_filtered_between(0, push, tick.elapsed, actuator.time_constant);
    assert(speed == 0 ==> travelled == 0) by (nonlinear_arith)
        requires
            travelled == crate::fixed_point::div_toward_zero(speed * tick.elapsed, NANO as int),
    ;
    assert(speed > 0 ==> travelled >= 0) by (nonlinear_arith)
        requires
            travelled == crate::fixed_point::div_toward_zero(speed * tick.elapsed, NANO as int),
            tick.elapsed >= 0,
    ;
    assert(speed < 0 ==> travelled <= 0) by (nonlinear_arith)
        requires
            travelled == crate::fixed_point::div_toward_zero(speed * tick.elapsed, NANO as int),
            tick.elapsed >= 0,
    ;
    let after = assembly.ticked(tick);
    assert(after.electrical_lock == assembly.electrical_lock);
    assert(after.hydraulic_manifold.isolation_valve == assembly.hydraulic_manifold.isolation_valve);
    assert(after.hydraulic_manifold.directional_valve
        == assembly.hydraulic_manifold.directional_valve);
    assert(after.hydraulic_manifold == assembly.hydraulic_manifold);
    assert(after.actuator == assembly.actuator);
}

/// Once a tick has changed nothing in a reverser, more ticks under the same
/// inputs change nothing either.
pub proof fn lemma_settled_reverser_stays_settled(
    assembly: AssemblyModel,
    tick: Tick,
    ticks: Seq<Tick>,
)
    requires
        assembly.ticked(tick) == assembly,
        forall|i: int| 0 <= i < ticks.len() ==> #[trigger] ticks[i] == tick,
    ensures
        assembly.run(ticks) == assembly,
    decreases ticks.len(),
{
    if ticks.len() > 0 {
        lemma_settled_reverser_stays_settled(assembly, tick, ticks.drop_last());
        assert(ticks.last() == tick);
    }
}

} // verus!
