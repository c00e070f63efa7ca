//! The mathematical model of the bottle's contents and of one heat exchange.
//!
//! Everything here is ghost code over unbounded integers: no overflow and no
//! machine limits except the saturation in [`saturate`]. The executable types
//! are proved against these functions.

use vstd::prelude::*;
use crate::units::{CP_ICE, CP_WATER, FREEZE_TOLERANCE, LATENT_PER_MASS, MIN_HEAT_CAPACITY, TEMP_LIMIT, U_EFFECTIVE};

verus! {

/// Masses and temperatures of the contents, as unbounded integers in the
/// crate's units.
pub struct ThermalModel {
    pub mass_water: int,
    pub mass_ice: int,
    pub mass_air: int,
    pub temp_water: int,
    pub temp_ice: int,
}

/// Quotient rounded toward zero, for a positive divisor.
pub open spec fn div_toward_zero(n: int, d: int) -> int {
    if n >= 0 {
        n / d
    } else {
        -((-n) / d)
    }
}

/// The smaller of two integers.
pub open spec fn min_int(a: int, b: int) -> int {
    if a <= b {
        a
    } else {
        b
    }
}

/// The larger of two integers.
pub open spec fn max_int(a: int, b: int) -> int {
    if a >= b {
        a
    } else {
        b
    }
}

impl ThermalModel {
    /// No mass is negative.
    pub open spec fn masses_valid(self) -> bool {
        &&& self.mass_water >= 0
        &&& self.mass_ice >= 0
        &&& self.mass_air >= 0
    }

    /// Water, ice and air together.
    pub open spec fn total_mass(self) -> int {
        self.mass_water + self.mass_ice + self.mass_air
    }

    /// The temperature sign rules: ice is never above freezing, water never
    /// below, and a phase that is absent has temperature exactly zero.
    pub open spec fn settled(self) -> bool {
        &&& self.mass_ice > 0 ==> self.temp_ice <= 0
        &&& self.mass_ice == 0 ==> self.temp_ice == 0
        &&& self.mass_water > 0 ==> self.temp_water >= 0
        &&& self.mass_water == 0 ==> self.temp_water == 0
    }

    /// Both temperatures are within the representable range.
    pub open spec fn temps_in_range(self) -> bool {
        &&& -TEMP_LIMIT <= self.temp_water <= TEMP_LIMIT
        &&& -TEMP_LIMIT <= self.temp_ice <= TEMP_LIMIT
    }

    /// Heat capacity of ice and water together; air holds no heat.
    pub open spec fn heat_capacity(self) -> int {
        self.mass_ice * CP_ICE + self.mass_water * CP_WATER
    }

    /// Sensible heat of ice and water relative to 0 degrees.
    pub open spec fn sensible_heat(self) -> int {
        self.mass_ice * CP_ICE * self.temp_ice + self.mass_water * CP_WATER * self.temp_water
    }

    /// The energy-weighted mean temperature of ice and water, rounded toward
    /// zero; zero when there is neither ice nor water to speak of.
    pub open spec fn equivalent_temperature(self) -> int {
        if self.heat_capacity() < MIN_HEAT_CAPACITY {
            0
        } else {
            div_toward_zero(self.sensible_heat(), self.heat_capacity())
        }
    }
}

/// Net heat that flows into the contents during `dt` time units while the
/// surroundings are at `outside`. Positive heats, negative cools.
pub open spec fn heat_flow(s: ThermalModel, outside: int, dt: int) -> int {
    U_EFFECTIVE * (outside - s.equivalent_temperature()) * dt
}

/// Heating, first stage: warm the ice toward 0 degrees. Returns the new
/// contents and the heat that is left.
pub open spec fn warm_ice(s: ThermalModel, q: int) -> (ThermalModel, int) {
    if s.mass_ice > 0 && s.temp_ice < 0 {
        let need = s.mass_ice * CP_ICE * (0 - s.temp_ice);
        if q >= need {
            (ThermalModel { temp_ice: 0, ..s }, q - need)
        } else {
            (ThermalModel { temp_ice: s.temp_ice + q / (s.mass_ice * CP_ICE), ..s }, 0)
        }
    } else {
        (s, q)
    }
}

/// Heating, second stage: melt ice with the heat that is left. The melted
/// mass joins the water.
pub open spec fn melt_ice(s: ThermalModel, q: int) -> (ThermalModel, int) {
    if q > 0 && s.mass_ice > 0 {
        let melted = min_int(q / (LATENT_PER_MASS as int), s.mass_ice);
        (
            ThermalModel {
                mass_ice: s.mass_ice - melted,
                mass_water: s.mass_water + melted,
                ..s
            },
            q - melted * LATENT_PER_MASS,
        )
    } else {
        (s, q)
    }
}

/// Heating, third stage: all remaining heat raises the water temperature.
pub open spec fn warm_water(s: ThermalModel, q: int) -> ThermalModel {
    if q > 0 && s.mass_water > 0 {
        ThermalModel { temp_water: s.temp_water + q / (s.mass_water * CP_WATER), ..s }
    } else {
        s
    }
}

/// The contents after absorbing `q > 0`: warm the ice, melt it, warm the
/// water, each stage using what the one before left over.
pub open spec fn heat(s: ThermalModel, q: int) -> ThermalModel {
    let (a, qa) = warm_ice(s, q);
    let (b, qb) = melt_ice(a, qa);
    warm_water(b, qb)
}

/// Cooling, first stage: cool the water toward 0 degrees. Returns the new
/// contents and the heat still to be removed.
pub open spec fn cool_water(s: ThermalModel, q: int) -> (ThermalModel, int) {
    if s.mass_water > 0 && s.temp_water > 0 {
        let need = s.mass_water * CP_WATER * s.temp_water;
        let take = min_int(need, q);
        (ThermalModel { temp_water: s.temp_water - take / (s.mass_water * CP_WATER), ..s }, q - take)
    } else {
        (s, q)
    }
}

/// Cooling, second stage: freeze water that is at 0 degrees, within the
/// tolerance. The frozen mass joins the ice.
pub open spec fn freeze_water(s: ThermalModel, q: int) -> (ThermalModel, int) {
    if q > 0 && s.mass_water > 0 && -FREEZE_TOLERANCE < s.temp_water < FREEZE_TOLERANCE {
        let frozen = min_int(q / (LATENT_PER_MASS as int), s.mass_water);
        (
            ThermalModel {
                mass_water: s.mass_water - frozen,
                mass_ice: s.mass_ice + frozen,
                ..s
            },
            q - frozen * LATENT_PER_MASS,
        )
    } else {
        (s, q)
    }
}

/// Cooling, third stage: all remaining heat to remove lowers the ice
/// temperature.
pub open spec fn cool_ice(s: ThermalModel, q: int) -> ThermalModel {
    if q > 0 && s.mass_ice > 0 {
        ThermalModel { temp_ice: s.temp_ice - q / (s.mass_ice * CP_ICE), ..s }
    } else {
        s
    }
}

/// The contents after giving up `q > 0`: cool the water, freeze it, cool the
/// ice, each stage using what the one before left over.
pub open spec fn cool(s: ThermalModel, q: int) -> ThermalModel {
    let (a, qa) = cool_water(s, q);
    let (b, qb) = freeze_water(a, qa);
    cool_ice(b, qb)
}

/// The contents after a net heat flow `q` of either sign.
pub open spec fn exchange(s: ThermalModel, q: int) -> ThermalModel {
    if q > 0 {
        heat(s, q)
    } else if q < 0 {
        cool(s, -q)
    } else {
        s
    }
}

/// Restores the temperature sign rules: ice at most 0 degrees, water at
/// least 0 degrees, and exactly 0 for a phase that is absent.
pub open spec fn settle(s: ThermalModel) -> ThermalModel {
    ThermalModel {
        temp_ice: if s.mass_ice > 0 {
            min_int(s.temp_ice, 0)
        } else {
            0
        },
        temp_water: if s.mass_water > 0 {
            max_int(s.temp_water, 0)
        } else {
            0
        },
        ..s
    }
}

/// Brings both temperatures into the representable range
/// `[-TEMP_LIMIT, TEMP_LIMIT]`.
pub open spec fn saturate(s: ThermalModel) -> ThermalModel {
    ThermalModel {
        temp_ice: max_int(-TEMP_LIMIT, min_int(s.temp_ice, TEMP_LIMIT as int)),
        temp_water: max_int(-TEMP_LIMIT, min_int(s.temp_water, TEMP_LIMIT as int)),
        ..s
    }
}

/// One tick of the physics: the heat that flows in `dt` time units is
/// exchanged, then the sign rules are restored and the temperatures
/// saturated.
pub open spec fn advance(s: ThermalModel, outside: int, dt: int) -> ThermalModel {
    saturate(settle(exchange(s, heat_flow(s, outside, dt))))
}

} // verus!
