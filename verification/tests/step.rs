use bottle_thermal::simulation::Simulation;
use bottle_thermal::state::SystemState;
use bottle_thermal::time_scale::TimeScale;

const FRAME: u64 = 16_000_000;

fn running() -> Simulation {
    let mut sim = Simulation::new();
    sim.toggle_running();
    sim
}

fn total(s: &SystemState) -> u128 {
    s.mass_water as u128 + s.mass_ice as u128 + s.mass_air as u128
}

#[test]
fn paused_step_changes_nothing_whatever_the_tick() {
    let mut sim = Simulation::new();
    sim.time_nanos = 123;
    let before = sim;
    for dt in [0, 1, FRAME, 1_000_000_000, u64::MAX] {
        assert!(sim.can_step(dt));
        sim.step(dt);
        assert_eq!(sim, before);
    }
}

#[test]
fn paused_step_changes_nothing_even_out_of_range() {
    let mut sim = Simulation::new();
    sim.state.mass_water = u64::MAX;
    sim.state.temp_ice = i64::MIN;
    sim.outside_temp = i64::MAX;
    sim.time_nanos = u64::MAX;
    let before = sim;
    assert!(sim.can_step(u64::MAX));
    sim.step(u64::MAX);
    assert_eq!(sim, before);
}

#[test]
fn running_step_of_no_length_changes_nothing() {
    let mut sim = running();
    sim.state.temp_water = -3_000_000;
    let before = sim;
    assert!(sim.can_step(0));
    sim.step(0);
    assert_eq!(sim, before);
}

#[test]
fn running_step_moves_the_clock_by_the_tick_times_the_speed() {
    let mut sim = running();
    let mut expected: u64 = 0;
    for factor in [1, 2, 5, 10] {
        assert_eq!(sim.time_scale.factor(), factor);
        let before = sim.time_nanos;
        sim.step(FRAME);
        expected += FRAME * factor;
        assert_eq!(sim.time_nanos, before + FRAME * factor);
        assert!(sim.time_nanos > before);
        sim.cycle_time_scale();
    }
    assert_eq!(sim.time_nanos, expected);
    assert_eq!(sim.time_nanos, 288_000_000);
}

#[test]
fn running_step_advances_the_contents_by_the_scaled_tick() {
    let mut sim = running();
    sim.time_scale = TimeScale::X10;
    let before = sim;
    sim.step(FRAME);
    assert_eq!(sim.state, before.state.evolve(before.outside_temp, 10 * FRAME));
    assert_eq!(
        sim.state,
        SystemState {
            mass_water: 500_048_996,
            mass_ice: 99_951_004,
            mass_air: 20_000_000,
            temp_water: 5_000_000,
            temp_ice: 0,
        }
    );
}

#[test]
fn two_frames_melt_twice_one_frame() {
    let mut sim = running();
    sim.step(FRAME);
    assert_eq!(sim.state.mass_water, 500_004_899);
    assert_eq!(sim.state.mass_ice, 99_995_101);
    sim.step(FRAME);
    assert_eq!(sim.state.mass_water, 500_009_798);
    assert_eq!(sim.state.mass_ice, 99_990_202);
    assert_eq!(sim.time_nanos, 2 * FRAME);
}

#[test]
fn step_touches_only_contents_and_clock() {
    let mut sim = running();
    sim.time_scale = TimeScale::X5;
    sim.init_water = 1;
    sim.init_ice = 2;
    sim.init_air = 3;
    sim.init_system_temp = -4;
    sim.init_outside_temp = 5;
    let before = sim;
    sim.step(FRAME);
    let expected = Simulation { state: sim.state, time_nanos: sim.time_nanos, ..before };
    assert_eq!(sim, expected);
    assert_ne!(sim.state, before.state);
}

#[test]
fn step_at_equilibrium_changes_only_the_clock() {
    let mut sim = Simulation::new();
    sim.init_outside_temp = sim.state.system_temperature_equivalent();
    sim.toggle_running();
    assert_eq!(sim.outside_temp, 4_544_072);
    let before = sim;
    for _ in 0..100 {
        sim.step(FRAME);
    }
    assert_eq!(sim.state, before.state);
    assert_eq!(sim.time_nanos, 100 * FRAME);
    assert_eq!(sim, Simulation { time_nanos: 100 * FRAME, ..before });
}

#[test]
fn any_run_of_steps_conserves_mass_and_keeps_the_sign_rules() {
    let mut sim = running();
    let start_total = total(&sim.state);
    let ticks: [u64; 8] = [1, FRAME, 0, 250_000_000, 33_333_333, 5_000_000_000, 7, 1_000_000_000];
    for round in 0..200 {
        let dt = ticks[round % ticks.len()];
        if round % 17 == 0 {
            sim.cycle_time_scale();
        }
        if round == 100 {
            sim.outside_temp = -40_000_000;
        }
        assert!(sim.can_step(dt));
        sim.step(dt);
        assert_eq!(total(&sim.state), start_total);
        assert_eq!(sim.state.mass_air, 20_000_000);
        assert!(sim.state.is_settled());
        assert!(sim.state.is_in_range());
    }
    assert!(sim.state.mass_ice > 100_000_000);
}

#[test]
fn clock_never_runs_backwards() {
    let mut sim = running();
    let mut last = sim.time_nanos;
    for dt in [0, 1, FRAME, 0, 999, u64::MAX / 100] {
        sim.step(dt);
        assert!(sim.time_nanos >= last);
        last = sim.time_nanos;
    }
}

#[test]
fn can_step_tells_when_the_clock_would_overflow() {
    let mut sim = running();
    sim.time_scale = TimeScale::X10;
    sim.time_nanos = u64::MAX - 100;
    assert!(sim.can_step(10));
    assert!(!sim.can_step(11));
    assert!(!sim.can_step(u64::MAX));
    sim.step(10);
    assert_eq!(sim.time_nanos, u64::MAX);
    assert!(sim.can_step(0));
    assert!(!sim.can_step(1));
}

#[test]
fn can_step_tells_when_contents_or_surroundings_are_out_of_range() {
    let mut sim = running();
    assert!(sim.can_step(FRAME));
    sim.outside_temp = 1_000_000_000_001;
    assert!(!sim.can_step(FRAME));
    sim.outside_temp = 1_000_000_000_000;
    assert!(sim.can_step(FRAME));
    sim.state.mass_water = 1_000_000_000_000_000;
    assert!(!sim.can_step(FRAME));
    sim.state.mass_ice = 0;
    assert!(sim.can_step(FRAME));
    sim.state.temp_ice = -1_000_000_000_001;
    assert!(!sim.can_step(FRAME));
    assert!(sim.can_step(0));
    sim.toggle_running();
    assert!(sim.can_step(FRAME));
}
