use aircraft_systems::electrical::{ElectricalBusType, PoweredBuses};
use aircraft_systems::fixed_point::{Pressure, Ratio};
use aircraft_systems::reverser::assembly::{
    ReverserAssembly,
    ALL_OPENED_PROXIMITY_POSITION,
    STOWED_PROXIMITY_POSITION,
};
use aircraft_systems::reverser::interface::{ReverserCommands, ReverserFeedback, ReverserInterface};

const ONE: i64 = 1_000_000_000;
const TICK_NS: u64 = 10_000_000;
const VALVE_TIME_CONSTANT_NS: u64 = 150_000_000;
const LOCK_BUS: ElectricalBusType = ElectricalBusType::AlternatingCurrent(2);
const VALVES_BUS: ElectricalBusType = ElectricalBusType::DirectCurrent(2);
const SUPPLY: Pressure = Pressure { pascal: 20_684_272 };

fn reverser() -> ReverserAssembly {
    ReverserAssembly::new(
        SUPPLY,
        Pressure { pascal: 14_478_990 },
        Pressure { pascal: 12_065_825 },
        LOCK_BUS,
        VALVES_BUS,
        Ratio { nano: 600_000_000 },
    )
}

fn network(lock_powered: bool, valves_powered: bool) -> PoweredBuses {
    let mut buses = PoweredBuses::new();
    if lock_powered {
        buses.power(LOCK_BUS);
    }
    if valves_powered {
        buses.power(VALVES_BUS);
    }
    buses
}

fn powered_reverser() -> ReverserAssembly {
    let mut reverser = reverser();
    reverser.receive_power(&network(true, true));
    reverser
}

const DEPLOY: ReverserCommands = ReverserCommands {
    unlock: true,
    power_valves: true,
    isolate_hydraulics: false,
    deploy_reverser: true,
};

const STOW: ReverserCommands = ReverserCommands {
    unlock: false,
    power_valves: true,
    isolate_hydraulics: false,
    deploy_reverser: false,
};

fn run(reverser: &mut ReverserAssembly, ticks: u32, commands: &ReverserCommands, supply: Pressure) {
    for _ in 0..ticks {
        reverser.update_with_commands(TICK_NS, commands, supply);
    }
}

struct Observed {
    position: Ratio,
    manifold_pressure: Pressure,
    stowed: bool,
    all_opened: bool,
    pressurised: bool,
    locked: bool,
}

fn observe(reverser: &ReverserAssembly) -> Observed {
    Observed {
        position: reverser.position_sensor(),
        manifold_pressure: reverser.manifold_pressure(),
        stowed: reverser.proximity_sensor_stowed(),
        all_opened: reverser.proximity_sensor_all_opened(),
        pressurised: reverser.pressure_switch_pressurised(),
        locked: reverser.tertiary_lock_is_locked(),
    }
}

fn same(a: &Observed, b: &Observed) -> bool {
    a.position == b.position
        && a.manifold_pressure == b.manifold_pressure
        && a.stowed == b.stowed
        && a.all_opened == b.all_opened
        && a.pressurised == b.pressurised
        && a.locked == b.locked
}

struct Controller {
    orders: ReverserCommands,
}

impl ReverserInterface for Controller {
    fn should_unlock(&self) -> bool {
        self.orders.unlock
    }

    fn should_power_valves(&self) -> bool {
        self.orders.power_valves
    }

    fn should_isolate_hydraulics(&self) -> bool {
        self.orders.isolate_hydraulics
    }

    fn should_deploy_reverser(&self) -> bool {
        self.orders.deploy_reverser
    }
}

#[test]
fn new_reverser_is_stowed_locked_and_without_pressure() {
    let reverser = reverser();
    let seen = observe(&reverser);
    assert_eq!(seen.position, Ratio { nano: 0 });
    assert_eq!(reverser.reverser_position(), Ratio { nano: 0 });
    assert_eq!(seen.manifold_pressure, Pressure { pascal: 0 });
    assert!(seen.stowed && !seen.all_opened && !seen.pressurised && seen.locked);
    assert_eq!(reverser.actuator_nominal_speed(), Ratio { nano: 600_000_000 });
}

#[test]
fn commands_answer_as_a_controller() {
    assert!(DEPLOY.should_unlock());
    assert!(DEPLOY.should_power_valves());
    assert!(!DEPLOY.should_isolate_hydraulics());
    assert!(DEPLOY.should_deploy_reverser());
    assert!(!STOW.should_unlock());
    assert!(!STOW.should_deploy_reverser());
    let read = ReverserCommands::read(&Controller { orders: STOW });
    assert_eq!(read, STOW);
    let read = ReverserCommands::read(&Controller { orders: DEPLOY });
    assert_eq!(read, DEPLOY);
}

#[test]
fn update_acts_on_what_the_controller_orders() {
    let mut asked = powered_reverser();
    let mut told = powered_reverser();
    let controller = Controller { orders: DEPLOY };
    for _ in 0..150 {
        asked.update(TICK_NS, &controller, SUPPLY);
        told.update_with_commands(TICK_NS, &DEPLOY, SUPPLY);
        assert!(same(&observe(&asked), &observe(&told)));
    }
    assert!(observe(&asked).position.nano > 0);
}

#[test]
fn first_ticks_of_a_deployment_are_exact() {
    let mut reverser = powered_reverser();
    reverser.update_with_commands(TICK_NS, &DEPLOY, SUPPLY);
    assert_eq!(reverser.manifold_pressure(), Pressure { pascal: 7_239_495 });
    assert_eq!(reverser.reverser_position(), Ratio { nano: 5_048 });
    assert!(!reverser.tertiary_lock_is_locked());
    reverser.update_with_commands(TICK_NS, &DEPLOY, SUPPLY);
    assert_eq!(reverser.manifold_pressure(), Pressure { pascal: 10_076_950 });
    assert_eq!(reverser.reverser_position(), Ratio { nano: 23_516 });
}

#[test]
fn positions_stay_in_bounds_under_extreme_inputs() {
    let mut reverser = ReverserAssembly::new(
        Pressure { pascal: 1 },
        Pressure { pascal: i64::MAX },
        Pressure { pascal: i64::MIN },
        LOCK_BUS,
        VALVES_BUS,
        Ratio { nano: i64::MAX },
    );
    reverser.receive_power(&network(true, true));
    let supplies = [i64::MAX, i64::MIN, 0, 1, -1, 20_684_272];
    let ticks = [u64::MAX, 0, 1, TICK_NS, 3_000_000_000];
    let orders = [DEPLOY, STOW];
    for supply in supplies {
        for tick in ticks {
            for commands in orders {
                reverser.update_with_commands(tick, &commands, Pressure { pascal: supply });
                let position = reverser.reverser_position().nano;
                assert!(position >= 0 && position <= ONE);
                let manifold = reverser.manifold_pressure().pascal as i128;
                assert!(manifold.abs() <= (supply as i128).abs());
            }
        }
    }
}

#[test]
fn unpowered_lock_holds_whatever_it_is_told() {
    let mut reverser = reverser();
    reverser.receive_power(&network(false, true));
    for _ in 0..300 {
        reverser.update_with_commands(TICK_NS, &DEPLOY, SUPPLY);
        assert!(reverser.tertiary_lock_is_locked());
        assert_eq!(reverser.reverser_position(), Ratio { nano: 0 });
    }
    assert_eq!(reverser.manifold_pressure(), SUPPLY);
}

#[test]
fn locked_reverser_does_not_move_under_full_pressure() {
    let mut reverser = powered_reverser();
    let held = ReverserCommands { unlock: false, ..DEPLOY };
    for _ in 0..300 {
        reverser.update_with_commands(TICK_NS, &held, SUPPLY);
        assert!(reverser.tertiary_lock_is_locked());
        assert_eq!(reverser.reverser_position(), Ratio { nano: 0 });
    }
    assert_eq!(reverser.manifold_pressure(), SUPPLY);
    assert!(reverser.pressure_switch_pressurised());
}

#[test]
fn isolated_manifold_is_empty_after_forty_nine_time_constants() {
    let isolated = ReverserCommands { isolate_hydraulics: true, ..DEPLOY };
    let mut in_one_tick = powered_reverser();
    run(&mut in_one_tick, 400, &DEPLOY, SUPPLY);
    assert_eq!(in_one_tick.manifold_pressure(), SUPPLY);
    in_one_tick.update_with_commands(49 * VALVE_TIME_CONSTANT_NS, &isolated, SUPPLY);
    assert_eq!(in_one_tick.manifold_pressure(), Pressure { pascal: 0 });

    let mut in_many_ticks = powered_reverser();
    run(&mut in_many_ticks, 400, &DEPLOY, SUPPLY);
    run(&mut in_many_ticks, 735, &isolated, SUPPLY);
    assert_eq!(in_many_ticks.manifold_pressure(), Pressure { pascal: 0 });
}

#[test]
fn unpowered_valves_empty_the_manifold() {
    let mut reverser = powered_reverser();
    run(&mut reverser, 400, &DEPLOY, SUPPLY);
    reverser.receive_power(&network(true, false));
    reverser.update_with_commands(49 * VALVE_TIME_CONSTANT_NS, &DEPLOY, SUPPLY);
    assert_eq!(reverser.manifold_pressure(), Pressure { pascal: 0 });
    assert!(!reverser.pressure_switch_pressurised());
}

#[test]
fn open_manifold_is_at_supply_pressure_after_two_time_constants() {
    let mut in_one_tick = powered_reverser();
    in_one_tick.update_with_commands(2 * VALVE_TIME_CONSTANT_NS, &DEPLOY, SUPPLY);
    assert_eq!(in_one_tick.manifold_pressure(), SUPPLY);

    let mut in_many_ticks = powered_reverser();
    run(&mut in_many_ticks, 30, &DEPLOY, SUPPLY);
    assert_eq!(in_many_ticks.manifold_pressure(), SUPPLY);
}

#[test]
fn manifold_follows_the_supply_of_the_tick() {
    let mut reverser = powered_reverser();
    run(&mut reverser, 400, &DEPLOY, SUPPLY);
    reverser.update_with_commands(TICK_NS, &DEPLOY, Pressure { pascal: 1_234 });
    assert_eq!(reverser.manifold_pressure(), Pressure { pascal: 1_234 });
    reverser.update_with_commands(TICK_NS, &DEPLOY, Pressure { pascal: 0 });
    assert_eq!(reverser.manifold_pressure(), Pressure { pascal: 0 });
    assert!(!reverser.pressure_switch_pressurised());
}

#[test]
fn proximity_sensors_report_the_ends_of_the_travel() {
    let mut reverser = powered_reverser();
    let mut left_stowed_band = false;
    let mut reached_opened_band = false;
    for _ in 0..300 {
        reverser.update_with_commands(TICK_NS, &DEPLOY, SUPPLY);
        let position = reverser.position_sensor().nano;
        assert_eq!(reverser.proximity_sensor_stowed(), position < STOWED_PROXIMITY_POSITION);
        assert_eq!(reverser.proximity_sensor_all_opened(), position > ALL_OPENED_PROXIMITY_POSITION);
        left_stowed_band |= !reverser.proximity_sensor_stowed();
        reached_opened_band |= reverser.proximity_sensor_all_opened();
    }
    assert_eq!(STOWED_PROXIMITY_POSITION, 50_000_000);
    assert_eq!(ALL_OPENED_PROXIMITY_POSITION, 990_000_000);
    assert!(left_stowed_band && reached_opened_band);
    assert_eq!(reverser.position_sensor(), Ratio { nano: ONE });
}

#[test]
fn lock_decides_on_the_position_of_the_tick_before() {
    let mut reverser = powered_reverser();
    run(&mut reverser, 300, &DEPLOY, SUPPLY);
    assert_eq!(reverser.reverser_position(), Ratio { nano: ONE });
    let mut before = reverser.reverser_position().nano;
    let mut caught = false;
    for _ in 0..600 {
        reverser.update_with_commands(TICK_NS, &STOW, SUPPLY);
        assert_eq!(reverser.tertiary_lock_is_locked(), before < 10_000_000);
        if reverser.tertiary_lock_is_locked() {
            assert_eq!(reverser.reverser_position().nano, before);
            caught = true;
        }
        before = reverser.reverser_position().nano;
    }
    assert!(caught);
    assert!(before > 0 && before < 10_000_000);
}

#[test]
fn lock_cannot_catch_a_deployed_reverser_that_loses_lock_power() {
    let mut reverser = powered_reverser();
    run(&mut reverser, 300, &DEPLOY, SUPPLY);
    reverser.receive_power(&network(false, true));
    reverser.update_with_commands(TICK_NS, &DEPLOY, SUPPLY);
    assert!(!reverser.tertiary_lock_is_locked());
    assert_eq!(reverser.reverser_position(), Ratio { nano: ONE });
}

#[test]
fn settled_reverser_does_not_change_under_constant_inputs() {
    let mut reverser = powered_reverser();
    run(&mut reverser, 1_000, &DEPLOY, SUPPLY);
    let settled = observe(&reverser);
    assert_eq!(settled.position, Ratio { nano: ONE });
    assert_eq!(settled.manifold_pressure, SUPPLY);
    assert!(settled.all_opened && settled.pressurised && !settled.locked && !settled.stowed);
    for _ in 0..500 {
        reverser.receive_power(&network(true, true));
        reverser.update_with_commands(TICK_NS, &DEPLOY, SUPPLY);
        assert!(same(&observe(&reverser), &settled));
    }
}

#[test]
fn stowed_reverser_settles_too() {
    let mut reverser = powered_reverser();
    run(&mut reverser, 300, &DEPLOY, SUPPLY);
    run(&mut reverser, 1_000, &STOW, SUPPLY);
    let settled = observe(&reverser);
    assert!(settled.locked && settled.stowed);
    for _ in 0..500 {
        reverser.update_with_commands(TICK_NS, &STOW, SUPPLY);
        assert!(same(&observe(&reverser), &settled));
    }
}

#[test]
fn two_reversers_with_the_same_speed_run_alike() {
    let mut first = powered_reverser();
    let mut second = powered_reverser();
    for tick in 0..400 {
        let commands = if tick < 250 { DEPLOY } else { STOW };
        first.update_with_commands(TICK_NS, &commands, SUPPLY);
        second.update_with_commands(TICK_NS, &commands, SUPPLY);
        assert!(same(&observe(&first), &observe(&second)));
    }
}

#[test]
fn faster_actuator_deploys_further_in_the_same_time() {
    let mut slow = ReverserAssembly::new(
        SUPPLY,
        Pressure { pascal: 14_478_990 },
        Pressure { pascal: 12_065_825 },
        LOCK_BUS,
        VALVES_BUS,
        Ratio { nano: 550_000_000 },
    );
    let mut fast = ReverserAssembly::new(
        SUPPLY,
        Pressure { pascal: 14_478_990 },
        Pressure { pascal: 12_065_825 },
        LOCK_BUS,
        VALVES_BUS,
        Ratio { nano: 650_000_000 },
    );
    slow.receive_power(&network(true, true));
    fast.receive_power(&network(true, true));
    run(&mut slow, 100, &DEPLOY, SUPPLY);
    run(&mut fast, 100, &DEPLOY, SUPPLY);
    assert!(fast.reverser_position().nano > slow.reverser_position().nano);
    assert!(slow.reverser_position().nano >= 300_000_000);
}
