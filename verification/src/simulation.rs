//! The simulator: the contents of the bottle, the surroundings, the clock
//! and the initial conditions that seed a run.

use vstd::prelude::*;
use crate::arith::{lemma_product_bounds, lemma_product_positive};
use crate::laws::lemma_equilibrium;
use crate::model::advance;
use crate::state::SystemState;
use crate::time_scale::TimeScale;
use crate::units::TEMP_LIMIT;

verus! {

/// Water in a new simulator: 0.5 kg.
pub const DEFAULT_WATER: u64 = 500_000_000;

/// Ice in a new simulator: 0.1 kg.
pub const DEFAULT_ICE: u64 = 100_000_000;

/// Air in a new simulator: 0.02 kg.
pub const DEFAULT_AIR: u64 = 20_000_000;

/// Temperature of the contents in a new simulator: 5 degrees.
pub const DEFAULT_SYSTEM_TEMP: i64 = 5_000_000;

/// Temperature of the surroundings in a new simulator: 25 degrees.
pub const DEFAULT_OUTSIDE_TEMP: i64 = 25_000_000;

/// A bottle in its surroundings, with a clock that can be paused and sped
/// up. The `init_*` fields are the conditions from which a run starts; they
/// are free to edit and take effect when the run is started or reset.
#[derive(Clone, Copy, Debug, PartialEq, Eq, Structural)]
pub struct Simulation {
    pub state: SystemState,
    /// Temperature of the surroundings, microdegrees Celsius.
    pub outside_temp: i64,
    /// Simulated time since the last reset, nanoseconds.
    pub time_nanos: u64,
    pub running: bool,
    pub time_scale: TimeScale,
    pub init_water: u64,
    pub init_ice: u64,
    pub init_air: u64,
    pub init_system_temp: i64,
    pub init_outside_temp: i64,
}

impl Simulation {
    /// The contents that the initial conditions describe: the given masses,
    /// water at the initial temperature, ice at that temperature or at
    /// 0 degrees if that is lower.
    pub open spec fn initial_state(self) -> SystemState {
        SystemState {
            mass_water: self.init_water,
            mass_ice: self.init_ice,
            mass_air: self.init_air,
            temp_water: self.init_system_temp,
            temp_ice: if self.init_system_temp < 0 {
                self.init_system_temp
            } else {
                0
            },
        }
    }

    /// The simulator with contents and surroundings taken from the initial
    /// conditions; clock, run flag and speed as they were.
    pub open spec fn seeded(self) -> Simulation {
        Simulation {
            state: self.initial_state(),
            outside_temp: self.init_outside_temp,
            ..self
        }
    }

    /// The seeded simulator with the clock at zero, paused, at speed 1.
    pub open spec fn reset(self) -> Simulation {
        Simulation { time_nanos: 0, running: false, time_scale: TimeScale::X1, ..self.seeded() }
    }

    /// The simulator after the run flag is flipped: starting a run seeds it
    /// first, pausing keeps the contents as they are.
    pub open spec fn toggled(self) -> Simulation {
        if self.running {
            Simulation { running: false, ..self }
        } else {
            Simulation { running: true, ..self.seeded() }
        }
    }

    /// Simulated time that a tick of `dt` wall-clock nanoseconds covers.
    pub open spec fn scaled(self, dt: u64) -> int {
        dt * self.time_scale.factor_spec()
    }

    /// A tick of `dt` does work when the simulator runs and `dt` is not zero.
    pub open spec fn ticks(self, dt: u64) -> bool {
        self.running && dt > 0
    }

    /// The machine limits of a tick: where the tick does work, the contents
    /// and the surroundings are in range and the clock does not overflow.
    pub open spec fn can_step_spec(&self, dt: u64) -> bool {
        self.ticks(dt) ==> {
            &&& self.state.in_range()
            &&& -TEMP_LIMIT <= self.outside_temp <= TEMP_LIMIT
            &&& self.time_nanos + self.scaled(dt) <= u64::MAX
        }
    }

    /// `next` is what a tick of `dt` makes of this simulator. A paused
    /// simulator, or a tick of no length, changes nothing. Otherwise the
    /// contents advance by the scaled time under the current surroundings,
    /// the clock moves on by the scaled time, and all else stays.
    pub open spec fn step_spec(self, dt: u64, next: Simulation) -> bool {
        if self.ticks(dt) {
            &&& next.state@ == advance(self.state@, self.outside_temp as int, self.scaled(dt))
            &&& next.time_nanos == self.time_nanos + self.scaled(dt)
            &&& next == Simulation { state: next.state, time_nanos: next.time_nanos, ..self }
        } else {
            next == self
        }
    }

    /// A paused simulator at time zero and speed 1, with the default initial
    /// conditions and contents seeded from them.
    pub fn new() -> (sim: Simulation)
        ensures
            sim.init_water == DEFAULT_WATER,
            sim.init_ice == DEFAULT_ICE,
            sim.init_air == DEFAULT_AIR,
            sim.init_system_temp == DEFAULT_SYSTEM_TEMP,
            sim.init_outside_temp == DEFAULT_OUTSIDE_TEMP,
            sim.state == sim.initial_state(),
            sim.outside_temp == DEFAULT_OUTSIDE_TEMP,
            sim.time_nanos == 0,
            !sim.running,
            sim.time_scale == TimeScale::X1,
            sim == sim.reset(),
            sim.state@.settled(),
            sim.state.in_range(),
    {
        Simulation {
            state: SystemState {
                mass_water: DEFAULT_WATER,
                mass_ice: DEFAULT_ICE,
                mass_air: DEFAULT_AIR,
                temp_water: DEFAULT_SYSTEM_TEMP,
                temp_ice: 0,
            },
            outside_temp: DEFAULT_OUTSIDE_TEMP,
            time_nanos: 0,
            running: false,
            time_scale: TimeScale::X1,
            init_water: DEFAULT_WATER,
            init_ice: DEFAULT_ICE,
            init_air: DEFAULT_AIR,
            init_system_temp: DEFAULT_SYSTEM_TEMP,
            init_outside_temp: DEFAULT_OUTSIDE_TEMP,
        }
    }

    /// Overwrites contents and surroundings from the initial conditions.
    /// Clock, run flag and speed are not touched.
    pub fn apply_initial_conditions(&mut self)
        ensures
            *final(self) == old(self).seeded(),
    {
        self.state = SystemState {
            mass_water: self.init_water,
            mass_ice: self.init_ice,
            mass_air: self.init_air,
            temp_water: self.init_system_temp,
            temp_ice: if self.init_system_temp < 0 {
                self.init_system_temp
            } else {
                0
            },
        };
        self.outside_temp = self.init_outside_temp;
    }

    /// Seeds from the initial conditions, sets the clock to zero, pauses,
    /// and sets the speed to 1.
    pub fn reset_from_init(&mut self)
        ensures
            *final(self) == old(self).reset(),
    {
        self.apply_initial_conditions();
        self.time_nanos = 0;
        self.running = false;
        self.time_scale = TimeScale::X1;
    }

    /// Starts or pauses the run. Starting seeds from the initial conditions
    /// first; pausing keeps the contents.
    pub fn toggle_running(&mut self)
        ensures
            *final(self) == old(self).toggled(),
    {
        if !self.running {
            self.apply_initial_conditions();
        }
        self.running = !self.running;
    }

    /// Moves the speed on through the cycle 1, 2, 5, 10, 1, whether running
    /// or not.
    pub fn cycle_time_scale(&mut self)
        ensures
            *final(self) == (Simulation {
                time_scale: old(self).time_scale.next_spec(),
                ..*old(self)
            }),
    {
        self.time_scale = self.time_scale.next();
    }

    /// Tells whether a tick of `dt` is within the machine limits.
    #[verifier::when_used_as_spec(can_step_spec)]
    pub fn can_step(&self, dt: u64) -> (b: bool)
        ensures
            b == self.can_step_spec(dt),
    {
        if !self.running || dt == 0 {
            return true;
        }
        let factor: u64 = self.time_scale.factor();
        proof {
            lemma_product_bounds(dt as int, u64::MAX as int, factor as int, 10);
        }
        let scaled: u128 = dt as u128 * factor as u128;
        self.state.is_in_range() && -TEMP_LIMIT <= self.outside_temp && self.outside_temp
            <= TEMP_LIMIT && self.time_nanos as u128 + scaled <= u64::MAX as u128
    }

    /// Advances the simulation by `dt` wall-clock nanoseconds.
    ///
    /// Paused, or with `dt == 0`, nothing changes. Otherwise the heat that
    /// flows between surroundings and contents during `dt` times the speed is
    /// exchanged, the temperature sign rules are restored, and the clock
    /// moves on by exactly that scaled time.
    pub fn step(&mut self, dt: u64)
        requires
            old(self).can_step_spec(dt),
        ensures
            old(self).step_spec(dt, *final(self)),
            // paused: nothing changes
            !old(self).running ==> *final(self) == *old(self),
            // mass is conserved and the air is left alone
            final(self).state@.total_mass() == old(self).state@.total_mass(),
            final(self).state.mass_air == old(self).state.mass_air,
            // the temperature sign rules hold after a tick that did work, and are kept by any
            old(self).ticks(dt) ==> final(self).state@.settled(),
            old(self).state@.settled() ==> final(self).state@.settled(),
            old(self).ticks(dt) ==> final(self).state.in_range(),
            // the clock moves by exactly the scaled tick, or not at all
            old(self).ticks(dt) ==> final(self).time_nanos == old(self).time_nanos + old(self).scaled(dt),
            old(self).ticks(dt) ==> final(self).time_nanos > old(self).time_nanos,
            !old(self).ticks(dt) ==> final(self).time_nanos == old(self).time_nanos,
            // at equilibrium settled contents stay as they are
            old(self).ticks(dt) && old(self).state@.settled()
                && old(self).outside_temp == old(self).state@.equivalent_temperature()
                ==> final(self).state == old(self).state,
    {
        if !self.running || dt == 0 {
            return;
        }
        let factor: u64 = self.time_scale.factor();
        proof {
            lemma_product_positive(dt as int, factor as int);
            if self.outside_temp == self.state@.equivalent_temperature() {
                lemma_equilibrium(self.state@, self.outside_temp as int, self.scaled(dt));
            }
        }
        let scaled: u64 = dt * factor;
        self.state = self.state.evolve(self.outside_temp, scaled);
        self.time_nanos = self.time_nanos + scaled;
    }
}

} // verus!
