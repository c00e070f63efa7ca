//! The physical state of the bottle's contents.

use vstd::prelude::*;
use crate::arith::{lemma_quotient_below, lemma_signed_product_bounds};
use crate::laws::{lemma_advance_conserves_mass, lemma_advance_settles, lemma_equilibrium};
use crate::model::{advance, ThermalModel};
use crate::stages;
use crate::stages::{capacity_of, Ledger, HEAT_LIMIT};
use crate::units::{CP_ICE, CP_WATER, MASS_LIMIT, MIN_HEAT_CAPACITY, TEMP_LIMIT, U_EFFECTIVE};

verus! {

/// Masses (micrograms) and temperatures (microdegrees Celsius) of the water,
/// ice and air in the bottle.
#[derive(Clone, Copy, Debug, PartialEq, Eq, Structural)]
pub struct SystemState {
    pub mass_water: u64,
    pub mass_ice: u64,
    pub mass_air: u64,
    pub temp_water: i64,
    pub temp_ice: i64,
}

impl View for SystemState {
    type V = ThermalModel;

    open spec fn view(&self) -> ThermalModel {
        ThermalModel {
            mass_water: self.mass_water as int,
            mass_ice: self.mass_ice as int,
            mass_air: self.mass_air as int,
            temp_water: self.temp_water as int,
            temp_ice: self.temp_ice as int,
        }
    }
}

impl SystemState {
    /// The state is one the arithmetic can work on: water and ice together
    /// weigh at most `MASS_LIMIT`, and both temperatures are within
    /// `TEMP_LIMIT` of zero.
    pub open spec fn in_range(&self) -> bool {
        &&& self.mass_water + self.mass_ice <= MASS_LIMIT
        &&& self@.temps_in_range()
    }

    /// Tells whether the state is in range.
    pub fn is_in_range(&self) -> (b: bool)
        ensures
            b == self.in_range(),
    {
        self.mass_water <= MASS_LIMIT && self.mass_ice <= MASS_LIMIT - self.mass_water
            && -TEMP_LIMIT <= self.temp_water && self.temp_water <= TEMP_LIMIT && -TEMP_LIMIT
            <= self.temp_ice && self.temp_ice <= TEMP_LIMIT
    }

    /// Tells whether the temperature sign rules hold: ice at most 0 degrees,
    /// water at least 0 degrees, and exactly 0 for a phase that is absent.
    pub fn is_settled(&self) -> (b: bool)
        ensures
            b == self@.settled(),
    {
        (if self.mass_ice > 0 {
            self.temp_ice <= 0
        } else {
            self.temp_ice == 0
        }) && (if self.mass_water > 0 {
            self.temp_water >= 0
        } else {
            self.temp_water == 0
        })
    }

    /// The energy-weighted mean temperature of the ice and the water,
    /// rounded toward zero: the temperature at which the surroundings
    /// neither heat nor cool the contents. Zero when there is neither ice
    /// nor water.
    pub fn system_temperature_equivalent(&self) -> (t: i64)
        requires
            self.in_range(),
        ensures
            t == self@.equivalent_temperature(),
            -TEMP_LIMIT <= t <= TEMP_LIMIT,
    {
        let capacity_ice: i128 = capacity_of(self.mass_ice, CP_ICE);
        let capacity_water: i128 = capacity_of(self.mass_water, CP_WATER);
        let capacity: i128 = capacity_ice + capacity_water;
        if capacity < MIN_HEAT_CAPACITY as i128 {
            0
        } else {
            proof {
                lemma_signed_product_bounds(
                    capacity_ice as int,
                    MASS_LIMIT * CP_WATER,
                    self.temp_ice as int,
                    TEMP_LIMIT as int,
                );
                lemma_signed_product_bounds(
                    capacity_water as int,
                    MASS_LIMIT * CP_WATER,
                    self.temp_water as int,
                    TEMP_LIMIT as int,
                );
            }
            let sensible: i128 = capacity_ice * (self.temp_ice as i128)
                + capacity_water * (self.temp_water as i128);
            proof {
                assert(capacity_ice * TEMP_LIMIT + capacity_water * TEMP_LIMIT == capacity
                    * TEMP_LIMIT) by (nonlinear_arith)
                    requires
                        capacity == capacity_ice + capacity_water,
                ;
                if sensible >= 0 {
                    lemma_quotient_below(sensible as int, capacity as int, TEMP_LIMIT as int);
                } else {
                    lemma_quotient_below(-sensible as int, capacity as int, TEMP_LIMIT as int);
                }
            }
            (sensible / capacity) as i64
        }
    }

    /// The state after one tick of `dt` nanoseconds with the surroundings at
    /// `outside_temp`: the heat that flows is spent stage by stage on
    /// warming, melting and warming again (or cooling, freezing and cooling
    /// again), then the temperature sign rules are restored. Mass is
    /// conserved, and surroundings at the equivalent temperature leave
    /// settled contents as they are.
    pub fn evolve(&self, outside_temp: i64, dt: u64) -> (next: SystemState)
        requires
            self.in_range(),
            -TEMP_LIMIT <= outside_temp <= TEMP_LIMIT,
        ensures
            next@ == advance(self@, outside_temp as int, dt as int),
            next.in_range(),
            next@.settled(),
            next@.total_mass() == self@.total_mass(),
            next.mass_air == self.mass_air,
            next.mass_water + next.mass_ice == self.mass_water + self.mass_ice,
            self@.settled() && outside_temp == self@.equivalent_temperature() ==> next == *self,
    {
        let equivalent: i64 = self.system_temperature_equivalent();
        let difference: i128 = outside_temp as i128 - equivalent as i128;
        proof {
            lemma_signed_product_bounds(
                U_EFFECTIVE as int,
                U_EFFECTIVE as int,
                difference as int,
                2 * TEMP_LIMIT,
            );
        }
        let rate: i128 = U_EFFECTIVE as i128 * difference;
        proof {
            lemma_signed_product_bounds(
                dt as int,
                u64::MAX as int,
                rate as int,
                U_EFFECTIVE * (2 * TEMP_LIMIT),
            );
            assert(rate * dt == dt * rate) by (nonlinear_arith);
        }
        let q: i128 = rate * dt as i128;
        let start = Ledger {
            mass_water: self.mass_water,
            mass_ice: self.mass_ice,
            mass_air: self.mass_air,
            temp_water: self.temp_water as i128,
            temp_ice: self.temp_ice as i128,
        };
        assert(start@ == self@);
        let exchanged: Ledger = if q > 0 {
            let (warmed, left) = stages::warm_ice(start, q);
            let (melted, left) = stages::melt_ice(warmed, left);
            stages::warm_water(melted, left)
        } else if q < 0 {
            let (cooled, left) = stages::cool_water(start, -q);
            let (frozen, left) = stages::freeze_water(cooled, left);
            stages::cool_ice(frozen, left)
        } else {
            start
        };
        let settled: Ledger = stages::settle(exchanged);
        proof {
            lemma_advance_conserves_mass(self@, outside_temp as int, dt as int);
            lemma_advance_settles(self@, outside_temp as int, dt as int);
            if outside_temp == self@.equivalent_temperature() {
                lemma_equilibrium(self@, outside_temp as int, dt as int);
            }
        }
        SystemState {
            mass_water: settled.mass_water,
            mass_ice: settled.mass_ice,
            mass_air: settled.mass_air,
            temp_water: settled.temp_water as i64,
            temp_ice: settled.temp_ice as i64,
        }
    }
}

} // verus!
