use aircraft_systems::fixed_point::Pressure;
use aircraft_systems::pressure_switch::{PressureSwitch, PressureSwitchState};

fn switch() -> PressureSwitch {
    PressureSwitch::new(Pressure { pascal: 2_100 }, Pressure { pascal: 1_750 })
}

#[test]
fn switch_starts_released() {
    assert_eq!(switch().state(), PressureSwitchState::NotPressurised);
}

#[test]
fn switch_makes_at_the_high_threshold() {
    let mut switch = switch();
    switch.update(Pressure { pascal: 2_099 });
    assert_eq!(switch.state(), PressureSwitchState::NotPressurised);
    switch.update(Pressure { pascal: 2_100 });
    assert_eq!(switch.state(), PressureSwitchState::Pressurised);
}

#[test]
fn switch_releases_at_the_low_threshold() {
    let mut switch = switch();
    switch.update(Pressure { pascal: 3_000 });
    switch.update(Pressure { pascal: 1_751 });
    assert_eq!(switch.state(), PressureSwitchState::Pressurised);
    switch.update(Pressure { pascal: 1_750 });
    assert_eq!(switch.state(), PressureSwitchState::NotPressurised);
}

#[test]
fn switch_keeps_its_state_between_the_thresholds() {
    let mut switch = switch();
    switch.update(Pressure { pascal: 2_000 });
    assert_eq!(switch.state(), PressureSwitchState::NotPressurised);
    switch.update(Pressure { pascal: 2_500 });
    switch.update(Pressure { pascal: 2_000 });
    assert_eq!(switch.state(), PressureSwitchState::Pressurised);
}

#[test]
fn switch_with_crossed_thresholds_releases_first() {
    let mut switch = PressureSwitch::new(Pressure { pascal: 100 }, Pressure { pascal: 200 });
    switch.update(Pressure { pascal: 150 });
    assert_eq!(switch.state(), PressureSwitchState::NotPressurised);
    switch.update(Pressure { pascal: 201 });
    assert_eq!(switch.state(), PressureSwitchState::Pressurised);
}
