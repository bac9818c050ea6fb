use aircraft_systems::electrical::{ElectricalBusType, PoweredBuses};
use aircraft_systems::fixed_point::{Pressure, Ratio};
use aircraft_systems::reverser::assembly::ReverserAssembly;
use aircraft_systems::reverser::interface::{ReverserFeedback, ReverserInterface};

const PASCALS_PER_PSI: f64 = 6894.757293168;

fn psi(value: f64) -> Pressure {
    Pressure { pascal: (value * PASCALS_PER_PSI).round() as i64 }
}

fn as_psi(pressure: Pressure) -> f64 {
    pressure.pascal as f64 / PASCALS_PER_PSI
}

fn as_ratio(ratio: Ratio) -> f64 {
    ratio.nano as f64 / 1e9
}

struct TestReverserController {
    should_lock: bool,
    should_isolate_hydraulics: bool,
    should_deploy_reversers: bool,
}

impl TestReverserController {
    fn default() -> Self {
        Self { should_lock: true, should_isolate_hydraulics: true, should_deploy_reversers: false }
    }

    fn set_isolation_valve(&mut self, is_closed: bool) {
        self.should_isolate_hydraulics = is_closed;
    }

    fn set_deploy_reverser(&mut self, is_deploying: bool) {
        self.should_deploy_reversers = is_deploying;
    }

    fn set_lock_reverser(&mut self, lock: bool) {
        self.should_lock = lock;
    }
}

impl ReverserInterface for TestReverserController {
    fn should_unlock(&self) -> bool {
        !self.should_lock
    }

    fn should_power_valves(&self) -> bool {
        true
    }

    fn should_isolate_hydraulics(&self) -> bool {
        self.should_isolate_hydraulics
    }

    fn should_deploy_reverser(&self) -> bool {
        self.should_deploy_reversers
    }
}

struct TestAircraft {
    controller: TestReverserController,
    reverser: ReverserAssembly,
    hydraulic_pressure: Pressure,
    is_dc_elec_powered: bool,
    is_ac_elec_powered: bool,
}

impl TestAircraft {
    const FIXED_STEP_NS: u64 = 10_000_000;

    fn new() -> Self {
        Self {
            controller: TestReverserController::default(),
            reverser: ReverserAssembly::new(
                psi(3000.),
                psi(2100.),
                psi(1750.),
                ElectricalBusType::AlternatingCurrent(2),
                ElectricalBusType::DirectCurrent(2),
                Ratio { nano: 600_000_000 },
            ),
            hydraulic_pressure: Pressure { pascal: 0 },
            is_dc_elec_powered: true,
            is_ac_elec_powered: true,
        }
    }

    fn powered_buses(&self) -> PoweredBuses {
        let mut buses = PoweredBuses::new();
        if self.is_dc_elec_powered {
            buses.power(ElectricalBusType::DirectCurrent(2));
            buses.power(ElectricalBusType::DirectCurrentEssential);
        }
        if self.is_ac_elec_powered {
            buses.power(ElectricalBusType::AlternatingCurrentEssential);
            buses.power(ElectricalBusType::AlternatingCurrent(2));
        }
        buses
    }

    fn run_with_delta_ms(&mut self, milliseconds: u64) {
        self.reverser.receive_power(&self.powered_buses());
        let mut remaining = milliseconds * 1_000_000;
        while remaining >= Self::FIXED_STEP_NS {
            self.reverser.update(Self::FIXED_STEP_NS, &self.controller, self.hydraulic_pressure);
            remaining -= Self::FIXED_STEP_NS;
        }
    }

    fn reverser_position(&self) -> f64 {
        as_ratio(self.reverser.reverser_position())
    }

    fn reverser_manifold_pressure(&self) -> f64 {
        as_psi(self.reverser.manifold_pressure())
    }

    fn reverser_is_locked(&self) -> bool {
        self.reverser.tertiary_lock_is_locked()
    }

    fn set_hyd_pressure(&mut self, pressure: Pressure) {
        self.hydraulic_pressure = pressure;
    }

    fn set_ac_elec_power(&mut self, is_on: bool) {
        self.is_ac_elec_powered = is_on;
    }

    fn set_dc_elec_power(&mut self, is_on: bool) {
        self.is_dc_elec_powered = is_on;
    }

    fn set_isolation_valve(&mut self, is_closed: bool) {
        self.controller.set_isolation_valve(is_closed)
    }

    fn set_deploy_reverser(&mut self, is_deploying: bool) {
        self.controller.set_deploy_reverser(is_deploying)
    }

    fn set_lock_reverser(&mut self, lock: bool) {
        self.controller.set_lock_reverser(lock)
    }
}

#[test]
fn reverser_stowed_at_init() {
    let mut test_bed = TestAircraft::new();

    test_bed.set_ac_elec_power(false);
    test_bed.set_dc_elec_power(false);
    test_bed.run_with_delta_ms(1000);

    assert!(test_bed.reverser_position() == 0.);
}

#[test]
fn reverser_without_pressure_if_isolated() {
    let mut test_bed = TestAircraft::new();

    test_bed.set_hyd_pressure(psi(3000.));
    test_bed.run_with_delta_ms(1000);

    assert!(test_bed.reverser_manifold_pressure() <= 50.);
    assert!(test_bed.reverser_manifold_pressure() >= -50.);
}

#[test]
fn reverser_isolated_if_no_valve_power() {
    let mut test_bed = TestAircraft::new();

    test_bed.set_hyd_pressure(psi(3000.));
    test_bed.set_ac_elec_power(false);
    test_bed.set_dc_elec_power(false);
    test_bed.set_isolation_valve(false);
    test_bed.run_with_delta_ms(1000);

    assert!(test_bed.reverser_manifold_pressure() <= 50.);
    assert!(test_bed.reverser_manifold_pressure() >= -50.);
}

#[test]
fn reverser_pressurised_if_valve_powered_and_opened() {
    let mut test_bed = TestAircraft::new();

    test_bed.set_hyd_pressure(psi(3000.));
    test_bed.set_ac_elec_power(true);
    test_bed.set_dc_elec_power(true);
    test_bed.set_isolation_valve(false);
    test_bed.run_with_delta_ms(1000);

    assert!(test_bed.reverser_manifold_pressure() >= 2800.);
}

#[test]
fn reverser_do_not_deploy_if_locked() {
    let mut test_bed = TestAircraft::new();

    test_bed.set_hyd_pressure(psi(3000.));
    test_bed.set_ac_elec_power(true);
    test_bed.set_dc_elec_power(true);
    test_bed.set_isolation_valve(false);
    test_bed.set_deploy_reverser(true);
    test_bed.set_lock_reverser(true);

    test_bed.run_with_delta_ms(1000);

    assert!(test_bed.reverser_manifold_pressure() >= 2800.);
    assert!(test_bed.reverser_position() == 0.);
}

#[test]
fn reverser_do_not_deploy_if_unlocked_but_no_lock_power() {
    let mut test_bed = TestAircraft::new();

    test_bed.set_hyd_pressure(psi(3000.));
    test_bed.set_ac_elec_power(false);
    test_bed.set_dc_elec_power(true);
    test_bed.set_isolation_valve(false);
    test_bed.set_deploy_reverser(true);
    test_bed.set_lock_reverser(false);

    test_bed.run_with_delta_ms(1000);

    assert!(test_bed.reverser_manifold_pressure() >= 2800.);
    assert!(test_bed.reverser_position() == 0.);
}

#[test]
fn reverser_deploys_if_unlocked_and_lock_powered() {
    let mut test_bed = TestAircraft::new();

    test_bed.set_hyd_pressure(psi(3000.));
    test_bed.set_ac_elec_power(true);
    test_bed.set_dc_elec_power(true);
    test_bed.set_isolation_valve(false);
    test_bed.set_deploy_reverser(true);
    test_bed.set_lock_reverser(false);

    test_bed.run_with_delta_ms(1000);

    assert!(test_bed.reverser_manifold_pressure() >= 2800.);
    assert!(test_bed.reverser_position() >= 0.3);

    test_bed.run_with_delta_ms(1500);

    assert!(test_bed.reverser_position() >= 0.99);
}

#[test]
fn reverser_deploys_and_can_be_stowed_back() {
    let mut test_bed = TestAircraft::new();

    test_bed.set_hyd_pressure(psi(3000.));
    test_bed.set_ac_elec_power(true);
    test_bed.set_dc_elec_power(true);
    test_bed.set_isolation_valve(false);
    test_bed.set_deploy_reverser(true);
    test_bed.set_lock_reverser(false);

    test_bed.run_with_delta_ms(2500);
    assert!(test_bed.reverser_position() >= 0.99);

    test_bed.set_lock_reverser(true);
    test_bed.set_deploy_reverser(false);

    test_bed.run_with_delta_ms(1000);
    assert!(test_bed.reverser_position() <= 0.9);
    assert!(!test_bed.reverser_is_locked());

    test_bed.run_with_delta_ms(2000);
    assert!(test_bed.reverser_position() <= 0.01);
    assert!(test_bed.reverser_is_locked());
}
