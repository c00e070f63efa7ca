//! Editing the initial conditions in fixed steps.

use vstd::prelude::*;
use crate::simulation::Simulation;

verus! {

/// One editing step of a mass: 0.01 kg.
pub const MASS_STEP: i64 = 10_000_000;

/// One editing step of a temperature: 0.05 degrees.
pub const TEMP_STEP: i64 = 50_000;

/// The initial condition that an edit applies to.
#[derive(Clone, Copy, Debug, PartialEq, Eq, Structural)]
pub enum InitField {
    Water,
    Ice,
    Air,
    SystemTemp,
    OutsideTemp,
}

/// `x` brought into `[low, high]`.
pub open spec fn clamp_int(x: int, low: int, high: int) -> int {
    if x < low {
        low
    } else if x > high {
        high
    } else {
        x
    }
}

/// A mass moved by `steps` editing steps: never below zero, and held at the
/// largest value the field can take.
pub open spec fn nudged_mass(mass: u64, steps: i64) -> u64 {
    clamp_int(mass + steps * MASS_STEP, 0, u64::MAX as int) as u64
}

/// A temperature moved by `steps` editing steps, held at the ends of the
/// range the field can take.
pub open spec fn nudged_temp(temp: i64, steps: i64) -> i64 {
    clamp_int(temp + steps * TEMP_STEP, i64::MIN as int, i64::MAX as int) as i64
}

impl InitField {
    /// The field that follows this one; after the last comes the first.
    pub open spec fn next_spec(self) -> InitField {
        match self {
            InitField::Water => InitField::Ice,
            InitField::Ice => InitField::Air,
            InitField::Air => InitField::SystemTemp,
            InitField::SystemTemp => InitField::OutsideTemp,
            InitField::OutsideTemp => InitField::Water,
        }
    }

    /// Position of the field in the order water, ice, air, system
    /// temperature, outside temperature.
    pub open spec fn index_spec(self) -> usize {
        match self {
            InitField::Water => 0,
            InitField::Ice => 1,
            InitField::Air => 2,
            InitField::SystemTemp => 3,
            InitField::OutsideTemp => 4,
        }
    }

    /// The field that follows this one; after the last comes the first.
    #[verifier::when_used_as_spec(next_spec)]
    pub fn next(self) -> (n: InitField)
        ensures
            n == self.next_spec(),
            n.index_spec() == (self.index_spec() + 1) % 5,
    {
        match self {
            InitField::Water => InitField::Ice,
            InitField::Ice => InitField::Air,
            InitField::Air => InitField::SystemTemp,
            InitField::SystemTemp => InitField::OutsideTemp,
            InitField::OutsideTemp => InitField::Water,
        }
    }

    /// Position of the field in the order water, ice, air, system
    /// temperature, outside temperature.
    #[verifier::when_used_as_spec(index_spec)]
    pub fn index(self) -> (i: usize)
        ensures
            i == self.index_spec(),
            i < 5,
    {
        match self {
            InitField::Water => 0,
            InitField::Ice => 1,
            InitField::Air => 2,
            InitField::SystemTemp => 3,
            InitField::OutsideTemp => 4,
        }
    }
}

/// Any number of steps of at most 0.01 kg or 0.05 degrees fits in 128 bits
/// with room to add a field's value.
proof fn lemma_step_bounds(steps: int, size: int)
    by (nonlinear_arith)
    requires
        i64::MIN <= steps <= i64::MAX,
        0 <= size <= MASS_STEP,
    ensures
        -0x8000_0000_0000_0000 * MASS_STEP <= steps * size <= 0x8000_0000_0000_0000 * MASS_STEP,
{
}

/// Moves a mass by `steps` editing steps, stopping at zero.
pub fn nudge_mass(mass: u64, steps: i64) -> (m: u64)
    ensures
        m == nudged_mass(mass, steps),
{
    proof {
        lemma_step_bounds(steps as int, MASS_STEP as int);
    }
    let moved: i128 = mass as i128 + steps as i128 * MASS_STEP as i128;
    if moved < 0 {
        0
    } else if moved > u64::MAX as i128 {
        u64::MAX
    } else {
        moved as u64
    }
}

/// Moves a temperature by `steps` editing steps.
pub fn nudge_temp(temp: i64, steps: i64) -> (t: i64)
    ensures
        t == nudged_temp(temp, steps),
{
    proof {
        lemma_step_bounds(steps as int, TEMP_STEP as int);
    }
    let moved: i128 = temp as i128 + steps as i128 * TEMP_STEP as i128;
    if moved < i64::MIN as i128 {
        i64::MIN
    } else if moved > i64::MAX as i128 {
        i64::MAX
    } else {
        moved as i64
    }
}

impl Simulation {
    /// The simulator after the chosen initial condition is moved by `steps`
    /// editing steps. Nothing but that one field changes.
    pub open spec fn nudged(self, field: InitField, steps: i64) -> Simulation {
        match field {
            InitField::Water => Simulation {
                init_water: nudged_mass(self.init_water, steps),
                ..self
            },
            InitField::Ice => Simulation { init_ice: nudged_mass(self.init_ice, steps), ..self },
            InitField::Air => Simulation { init_air: nudged_mass(self.init_air, steps), ..self },
            InitField::SystemTemp => Simulation {
                init_system_temp: nudged_temp(self.init_system_temp, steps),
                ..self
            },
            InitField::OutsideTemp => Simulation {
                init_outside_temp: nudged_temp(self.init_outside_temp, steps),
                ..self
            },
        }
    }

    /// Moves one initial condition by `steps` editing steps of 0.01 kg or
    /// 0.05 degrees. Masses stop at zero. The contents are not touched: the
    /// edit takes effect when the run is next started or reset.
    pub fn nudge_initial(&mut self, field: InitField, steps: i64)
        ensures
            *final(self) == old(self).nudged(field, steps),
    {
        match field {
            InitField::Water => {
                self.init_water = nudge_mass(self.init_water, steps);
            },
            InitField::Ice => {
                self.init_ice = nudge_mass(self.init_ice, steps);
            },
            InitField::Air => {
                self.init_air = nudge_mass(self.init_air, steps);
            },
            InitField::SystemTemp => {
                self.init_system_temp = nudge_temp(self.init_system_temp, steps);
            },
            InitField::OutsideTemp => {
                self.init_outside_temp = nudge_temp(self.init_outside_temp, steps);
            },
        }
    }
}

} // verus!
