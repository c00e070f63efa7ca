//! The executable stages of one heat exchange, each proved equal to its
//! counterpart in the model.
//!
//! Between the stages the temperatures are kept in 128 bits: a large heat
//! flow into a small mass can carry them far outside the range a state can
//! hold, and only the last stage brings them back.

use vstd::prelude::*;
use crate::arith::{
    lemma_multiple_below,
    lemma_product_bounds,
    lemma_product_positive,
    lemma_quotient_bounds,
};
use crate::model;
use crate::model::ThermalModel;
use crate::units::{CP_ICE, CP_WATER, FREEZE_TOLERANCE, LATENT_PER_MASS, MASS_LIMIT, TEMP_LIMIT};

verus! {

/// Largest magnitude of a heat flow that one tick can produce:
/// `U_EFFECTIVE` times twice `TEMP_LIMIT` times the longest tick.
pub const HEAT_LIMIT: i128 = 184_467_440_737_095_516_150_000_000_000_000;

/// The contents while a heat exchange is under way.
#[derive(Clone, Copy)]
pub struct Ledger {
    pub mass_water: u64,
    pub mass_ice: u64,
    pub mass_air: u64,
    pub temp_water: i128,
    pub temp_ice: i128,
}

impl View for Ledger {
    type V = ThermalModel;

    open spec fn view(&self) -> ThermalModel {
        ThermalModel {
            mass_water: self.mass_water as int,
            mass_ice: self.mass_ice as int,
            mass_air: self.mass_air as int,
            temp_water: self.temp_water as int,
            temp_ice: self.temp_ice as int,
        }
    }
}

impl Ledger {
    /// Water and ice together are within the mass limit.
    pub open spec fn masses_fit(&self) -> bool {
        self.mass_water + self.mass_ice <= MASS_LIMIT
    }
}

/// Heat capacity of `mass` of a substance with the given specific heat.
pub fn capacity_of(mass: u64, specific_heat: u64) -> (c: i128)
    requires
        mass <= MASS_LIMIT,
        0 < specific_heat <= CP_WATER,
    ensures
        c == mass * specific_heat,
        0 <= c <= MASS_LIMIT * CP_WATER,
        mass > 0 ==> c > 0,
{
    proof {
        lemma_product_bounds(mass as int, MASS_LIMIT as int, specific_heat as int, CP_WATER as int);
        if mass > 0 {
            lemma_product_positive(mass as int, specific_heat as int);
        }
    }
    mass as i128 * specific_heat as i128
}

/// The mass that changes phase when `q` of latent heat meets `available`
/// mass: what the heat pays for, or all there is.
pub fn converted_mass(q: i128, available: u64) -> (m: u64)
    requires
        0 <= q <= HEAT_LIMIT,
    ensures
        m == model::min_int(q as int / (LATENT_PER_MASS as int), available as int),
        m <= available,
        0 <= m * LATENT_PER_MASS <= q,
{
    let affordable: i128 = q / (LATENT_PER_MASS as i128);
    let m: u64 = if affordable < available as i128 {
        affordable as u64
    } else {
        available
    };
    proof {
        lemma_multiple_below(q as int, LATENT_PER_MASS as int, m as int);
    }
    m
}

/// Heating, first stage: warm the ice toward 0 degrees.
pub fn warm_ice(s: Ledger, q: i128) -> (r: (Ledger, i128))
    requires
        s.masses_fit(),
        -TEMP_LIMIT <= s.temp_ice <= TEMP_LIMIT,
        0 <= q <= HEAT_LIMIT,
    ensures
        (r.0@, r.1 as int) == model::warm_ice(s@, q as int),
        r.0.masses_fit(),
        0 <= r.1 <= q,
{
    if s.mass_ice > 0 && s.temp_ice < 0 {
        let capacity: i128 = capacity_of(s.mass_ice, CP_ICE);
        let gap: i128 = 0 - s.temp_ice;
        proof {
            lemma_product_bounds(capacity as int, MASS_LIMIT * CP_WATER, gap as int, TEMP_LIMIT as int);
        }
        let need: i128 = capacity * gap;
        if q >= need {
            (Ledger { temp_ice: 0, ..s }, q - need)
        } else {
            proof {
                lemma_quotient_bounds(q as int, capacity as int);
            }
            (Ledger { temp_ice: s.temp_ice + q / capacity, ..s }, 0)
        }
    } else {
        (s, q)
    }
}

/// Heating, second stage: melt ice with the heat that is left.
pub fn melt_ice(s: Ledger, q: i128) -> (r: (Ledger, i128))
    requires
        s.masses_fit(),
        0 <= q <= HEAT_LIMIT,
    ensures
        (r.0@, r.1 as int) == model::melt_ice(s@, q as int),
        r.0.masses_fit(),
        0 <= r.1 <= q,
{
    if q > 0 && s.mass_ice > 0 {
        let melted: u64 = converted_mass(q, s.mass_ice);
        (
            Ledger { mass_ice: s.mass_ice - melted, mass_water: s.mass_water + melted, ..s },
            q - melted as i128 * LATENT_PER_MASS as i128,
        )
    } else {
        (s, q)
    }
}

/// Heating, third stage: all remaining heat raises the water temperature.
pub fn warm_water(s: Ledger, q: i128) -> (r: Ledger)
    requires
        s.masses_fit(),
        -TEMP_LIMIT <= s.temp_water <= TEMP_LIMIT,
        0 <= q <= HEAT_LIMIT,
    ensures
        r@ == model::warm_water(s@, q as int),
{
    if q > 0 && s.mass_water > 0 {
        let capacity: i128 = capacity_of(s.mass_water, CP_WATER);
        proof {
            lemma_quotient_bounds(q as int, capacity as int);
        }
        Ledger { temp_water: s.temp_water + q / capacity, ..s }
    } else {
        s
    }
}

/// Cooling, first stage: cool the water toward 0 degrees.
pub fn cool_water(s: Ledger, q: i128) -> (r: (Ledger, i128))
    requires
        s.masses_fit(),
        -TEMP_LIMIT <= s.temp_water <= TEMP_LIMIT,
        0 <= q <= HEAT_LIMIT,
    ensures
        (r.0@, r.1 as int) == model::cool_water(s@, q as int),
        r.0.masses_fit(),
        0 <= r.1 <= q,
{
    if s.mass_water > 0 && s.temp_water > 0 {
        let capacity: i128 = capacity_of(s.mass_water, CP_WATER);
        proof {
            lemma_product_bounds(
                capacity as int,
                MASS_LIMIT * CP_WATER,
                s.temp_water as int,
                TEMP_LIMIT as int,
            );
        }
        let need: i128 = capacity * s.temp_water;
        let take: i128 = if need <= q {
            need
        } else {
            q
        };
        proof {
            lemma_quotient_bounds(take as int, capacity as int);
        }
        (Ledger { temp_water: s.temp_water - take / capacity, ..s }, q - take)
    } else {
        (s, q)
    }
}

/// Cooling, second stage: freeze water that is at 0 degrees, within the
/// tolerance.
pub fn freeze_water(s: Ledger, q: i128) -> (r: (Ledger, i128))
    requires
        s.masses_fit(),
        0 <= q <= HEAT_LIMIT,
    ensures
        (r.0@, r.1 as int) == model::freeze_water(s@, q as int),
        r.0.masses_fit(),
        0 <= r.1 <= q,
{
    if q > 0 && s.mass_water > 0 && -(FREEZE_TOLERANCE as i128) < s.temp_water && s.temp_water
        < FREEZE_TOLERANCE as i128 {
        let frozen: u64 = converted_mass(q, s.mass_water);
        (
            Ledger { mass_water: s.mass_water - frozen, mass_ice: s.mass_ice + frozen, ..s },
            q - frozen as i128 * LATENT_PER_MASS as i128,
        )
    } else {
        (s, q)
    }
}

/// Cooling, third stage: all remaining heat to remove lowers the ice
/// temperature.
pub fn cool_ice(s: Ledger, q: i128) -> (r: Ledger)
    requires
        s.masses_fit(),
        -TEMP_LIMIT <= s.temp_ice <= TEMP_LIMIT,
        0 <= q <= HEAT_LIMIT,
    ensures
        r@ == model::cool_ice(s@, q as int),
{
    if q > 0 && s.mass_ice > 0 {
        let capacity: i128 = capacity_of(s.mass_ice, CP_ICE);
        proof {
            lemma_quotient_bounds(q as int, capacity as int);
        }
        Ledger { temp_ice: s.temp_ice - q / capacity, ..s }
    } else {
        s
    }
}

/// Last stage: restore the temperature sign rules and bring both
/// temperatures into the representable range.
pub fn settle(s: Ledger) -> (r: Ledger)
    ensures
        r@ == model::saturate(model::settle(s@)),
        r@.settled(),
        r@.temps_in_range(),
{
    let floor: i128 = -(TEMP_LIMIT as i128);
    let ceiling: i128 = TEMP_LIMIT as i128;
    let temp_ice: i128 = if s.mass_ice > 0 {
        if s.temp_ice > 0 {
            0
        } else if s.temp_ice < floor {
            floor
        } else {
            s.temp_ice
        }
    } else {
        0
    };
    let temp_water: i128 = if s.mass_water > 0 {
        if s.temp_water < 0 {
            0
        } else if s.temp_water > ceiling {
            ceiling
        } else {
            s.temp_water
        }
    } else {
        0
    };
    Ledger { temp_ice, temp_water, ..s }
}

} // verus!
