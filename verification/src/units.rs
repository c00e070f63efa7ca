//! Physical constants and representable ranges, in the crate's units.

use vstd::prelude::*;

verus! {

/// Mass units (micrograms) in one kilogram.
pub const MASS_PER_KG: u64 = 1_000_000_000;

/// Temperature units (microdegrees) in one degree Celsius.
pub const TEMP_PER_DEGREE: i64 = 1_000_000;

/// Time units (nanoseconds) in one second.
pub const TIME_PER_SECOND: u64 = 1_000_000_000;

/// Specific heat of liquid water, J/(kg K).
pub const CP_WATER: u64 = 4186;

/// Specific heat of ice, J/(kg K).
pub const CP_ICE: u64 = 2100;

/// Latent heat of fusion, J/kg.
pub const LATENT_FUSION: u64 = 334_000;

/// Latent heat of fusion per mass unit, in energy units:
/// `LATENT_FUSION` J/kg is this many femtojoules per microgram.
pub const LATENT_PER_MASS: u64 = 334_000_000_000;

/// Overall heat-transfer coefficient between the surroundings and the
/// contents, W/K.
pub const U_EFFECTIVE: u64 = 5;

/// Heat capacities below this (1e-9 J/K, one unit) count as no contents at all.
pub const MIN_HEAT_CAPACITY: u64 = 1;

/// Water freezes only while its temperature is strictly within this distance
/// of 0 degrees (1e-3 degrees).
pub const FREEZE_TOLERANCE: i64 = 1_000;

/// Largest temperature magnitude a state can hold: one million degrees.
/// Temperatures saturate here instead of overflowing. With this limit and
/// `MASS_LIMIT`, every intermediate of a tick of any length fits in 128 bits.
pub const TEMP_LIMIT: i64 = 1_000_000_000_000;

/// Largest combined mass of water and ice that a step accepts: one million
/// kilograms.
pub const MASS_LIMIT: u64 = 1_000_000_000_000_000;

/// The per-microgram latent heat is the SI value rescaled by the temperature unit.
pub proof fn lemma_latent_per_mass()
    ensures
        LATENT_PER_MASS == LATENT_FUSION * TEMP_PER_DEGREE,
{
}

} // verus!
