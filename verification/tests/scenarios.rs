use bottle_thermal::simulation::Simulation;
use bottle_thermal::state::SystemState;

const TENTH_OF_A_SECOND: u64 = 100_000_000;

fn total(s: &SystemState) -> u128 {
    s.mass_water as u128 + s.mass_ice as u128 + s.mass_air as u128
}

fn start(water: u64, ice: u64, system_temp: i64, outside_temp: i64) -> Simulation {
    let mut sim = Simulation::new();
    sim.init_water = water;
    sim.init_ice = ice;
    sim.init_air = 20_000_000;
    sim.init_system_temp = system_temp;
    sim.init_outside_temp = outside_temp;
    sim.toggle_running();
    sim
}

#[test]
fn melting_scenario() {
    let mut sim = start(0, 100_000_000, -5_000_000, 25_000_000);
    assert_eq!(sim.state.temp_ice, -5_000_000);
    let mass = total(&sim.state);
    let mut ice_at_zero_at: Option<u64> = None;
    let mut ice_gone_at: Option<u64> = None;
    let mut last = sim.state;
    while sim.time_nanos < 900_000_000_000 {
        assert!(sim.can_step(TENTH_OF_A_SECOND));
        sim.step(TENTH_OF_A_SECOND);
        let now = sim.state;
        assert_eq!(total(&now), mass);
        assert!(now.is_settled());
        assert!(now.temp_ice >= last.temp_ice);
        assert!(now.mass_ice <= last.mass_ice);
        assert_eq!(now.mass_water - last.mass_water, last.mass_ice - now.mass_ice);
        assert!(now.temp_water >= last.temp_water);
        assert!(now.temp_water <= 25_000_000);
        if now.temp_ice < 0 {
            assert_eq!(now.mass_ice, 100_000_000);
            assert_eq!(now.temp_water, 0);
            assert!(now.temp_ice > last.temp_ice);
        } else if ice_at_zero_at.is_none() {
            ice_at_zero_at = Some(sim.time_nanos);
        }
        if now.mass_ice > 0 {
            assert!(now.temp_water < 10_000);
        } else if ice_gone_at.is_none() {
            ice_gone_at = Some(sim.time_nanos);
        }
        if now.mass_ice < last.mass_ice {
            assert_eq!(now.temp_ice, 0);
        }
        last = now;
    }
    assert_eq!(ice_at_zero_at, Some(7_700_000_000));
    assert_eq!(ice_gone_at, Some(274_900_000_000));
    assert_eq!(
        sim.state,
        SystemState {
            mass_water: 100_000_000,
            mass_ice: 0,
            mass_air: 20_000_000,
            temp_water: 24_985_349,
            temp_ice: 0,
        }
    );
}

#[test]
fn freezing_scenario() {
    let mut sim = start(100_000_000, 0, 5_000_000, -10_000_000);
    assert_eq!(sim.state.temp_water, 5_000_000);
    let mass = total(&sim.state);
    let mut water_at_zero_at: Option<u64> = None;
    let mut water_gone_at: Option<u64> = None;
    let mut last = sim.state;
    while sim.time_nanos < 2_000_000_000_000 {
        assert!(sim.can_step(TENTH_OF_A_SECOND));
        sim.step(TENTH_OF_A_SECOND);
        let now = sim.state;
        assert_eq!(total(&now), mass);
        assert!(now.is_settled());
        assert!(now.temp_water <= last.temp_water);
        assert!(now.mass_water <= last.mass_water);
        assert_eq!(now.mass_ice - last.mass_ice, last.mass_water - now.mass_water);
        assert!(now.temp_ice >= -10_000_000);
        if now.temp_water > 0 {
            assert_eq!(now.mass_water, 100_000_000);
            assert_eq!(now.temp_ice, 0);
            assert!(now.temp_water < last.temp_water);
        } else if water_at_zero_at.is_none() {
            water_at_zero_at = Some(sim.time_nanos);
        }
        if now.mass_water < last.mass_water {
            assert_eq!(now.temp_water, 0);
        }
        if now.mass_water > 0 {
            assert!(now.temp_ice > -50_000);
        } else {
            if water_gone_at.is_none() {
                water_gone_at = Some(sim.time_nanos);
            }
            assert!(now.temp_ice <= last.temp_ice);
        }
        last = now;
    }
    assert_eq!(water_at_zero_at, Some(34_000_000_000));
    assert_eq!(water_gone_at, Some(702_900_000_000));
    assert_eq!(
        sim.state,
        SystemState {
            mass_water: 0,
            mass_ice: 100_000_000,
            mass_air: 20_000_000,
            temp_water: 0,
            temp_ice: -9_999_581,
        }
    );
}

#[test]
fn default_bottle_comes_to_rest_near_the_outside_temperature() {
    let mut sim = Simulation::new();
    sim.toggle_running();
    sim.cycle_time_scale();
    sim.cycle_time_scale();
    sim.cycle_time_scale();
    let mass = total(&sim.state);
    while sim.time_nanos < 7_200_000_000_000 {
        sim.step(TENTH_OF_A_SECOND);
        assert_eq!(total(&sim.state), mass);
        assert!(sim.state.is_settled());
    }
    assert_eq!(sim.state.mass_ice, 0);
    assert_eq!(sim.state.mass_water, 600_000_000);
    assert!(sim.state.temp_water <= 25_000_000);
    assert!(sim.state.temp_water > 24_900_000);
}
