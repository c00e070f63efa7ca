//! What holds of the model whatever the inputs: conservation of mass, the
//! temperature sign rules, and rest at equilibrium.

use vstd::prelude::*;
use crate::arith::{
    lemma_multiple_below,
    lemma_product_positive,
    lemma_quotient_below,
    lemma_quotient_bounds,
    lemma_quotient_exact,
};
use crate::model::{
    advance,
    cool,
    cool_ice,
    cool_water,
    exchange,
    freeze_water,
    heat,
    heat_flow,
    melt_ice,
    saturate,
    settle,
    warm_ice,
    warm_water,
    ThermalModel,
};
use crate::units::{CP_ICE, CP_WATER, LATENT_PER_MASS};

verus! {

/// Two model states hold the same masses phase by phase up to melting and
/// freezing: the air is untouched and water plus ice is unchanged.
pub open spec fn same_matter(a: ThermalModel, b: ThermalModel) -> bool {
    &&& a.mass_air == b.mass_air
    &&& a.mass_water + a.mass_ice == b.mass_water + b.mass_ice
}

/// Melting moves mass from ice to water and loses none; no mass goes
/// negative.
pub proof fn lemma_melt_conserves_mass(s: ThermalModel, q: int)
    requires
        s.masses_valid(),
    ensures
        same_matter(melt_ice(s, q).0, s),
        melt_ice(s, q).0.masses_valid(),
        s.mass_water <= melt_ice(s, q).0.mass_water,
{
    if q > 0 {
        lemma_quotient_bounds(q, LATENT_PER_MASS as int);
    }
}

/// Freezing moves mass from water to ice and loses none; no mass goes
/// negative.
pub proof fn lemma_freeze_conserves_mass(s: ThermalModel, q: int)
    requires
        s.masses_valid(),
    ensures
        same_matter(freeze_water(s, q).0, s),
        freeze_water(s, q).0.masses_valid(),
        s.mass_ice <= freeze_water(s, q).0.mass_ice,
{
    if q > 0 {
        lemma_quotient_bounds(q, LATENT_PER_MASS as int);
    }
}

/// A heat exchange of any size and sign conserves mass: air is untouched,
/// and what leaves one of water and ice arrives in the other.
pub proof fn lemma_exchange_conserves_mass(s: ThermalModel, q: int)
    requires
        s.masses_valid(),
    ensures
        same_matter(exchange(s, q), s),
        exchange(s, q).masses_valid(),
        exchange(s, q).total_mass() == s.total_mass(),
{
    if q > 0 {
        let (a, qa) = warm_ice(s, q);
        lemma_melt_conserves_mass(a, qa);
        let (b, qb) = melt_ice(a, qa);
        assert(heat(s, q) == warm_water(b, qb));
    } else if q < 0 {
        let (a, qa) = cool_water(s, -q);
        lemma_freeze_conserves_mass(a, qa);
        let (b, qb) = freeze_water(a, qa);
        assert(cool(s, -q) == cool_ice(b, qb));
    }
}

/// One tick conserves total mass, leaves the air alone, and keeps every mass
/// non-negative, for any surroundings and any length of tick.
pub proof fn lemma_advance_conserves_mass(s: ThermalModel, outside: int, dt: int)
    requires
        s.masses_valid(),
    ensures
        advance(s, outside, dt).total_mass() == s.total_mass(),
        same_matter(advance(s, outside, dt), s),
        advance(s, outside, dt).masses_valid(),
{
    lemma_exchange_conserves_mass(s, heat_flow(s, outside, dt));
}

/// After one tick the temperature sign rules hold and both temperatures are
/// within the representable range, whatever the state before.
pub proof fn lemma_advance_settles(s: ThermalModel, outside: int, dt: int)
    ensures
        advance(s, outside, dt).settled(),
        advance(s, outside, dt).temps_in_range(),
{
}

/// Restoring the sign rules changes nothing in a state that obeys them, and
/// saturation changes nothing in a state within range; doing either twice is
/// doing it once.
pub proof fn lemma_settle_and_saturate_are_idempotent(s: ThermalModel)
    ensures
        s.masses_valid() && s.settled() ==> settle(s) == s,
        s.temps_in_range() ==> saturate(s) == s,
        settle(s).settled(),
        settle(settle(s)) == settle(s),
        saturate(saturate(s)) == saturate(s),
{
}

/// Equilibrium: when the surroundings are exactly at the equivalent
/// temperature of the contents, no heat flows, and a tick of any length
/// leaves a settled state within range exactly as it was.
pub proof fn lemma_equilibrium(s: ThermalModel, outside: int, dt: int)
    requires
        outside == s.equivalent_temperature(),
    ensures
        heat_flow(s, outside, dt) == 0,
        exchange(s, heat_flow(s, outside, dt)) == s,
        s.masses_valid() && s.settled() && s.temps_in_range() ==> advance(s, outside, dt) == s,
{
    assert(heat_flow(s, outside, dt) == 0) by (nonlinear_arith)
        requires
            heat_flow(s, outside, dt) == crate::units::U_EFFECTIVE * (outside
                - s.equivalent_temperature()) * dt,
            outside == s.equivalent_temperature(),
    ;
}

/// Warming the ice never overshoots: the ice stays at or below 0 degrees and
/// never gets colder, and heat is left over for melting only once the ice
/// has reached 0 degrees.
pub proof fn lemma_warm_ice_order(s: ThermalModel, q: int)
    requires
        s.masses_valid(),
        s.temp_ice <= 0,
        q >= 0,
    ensures
        0 <= warm_ice(s, q).1 <= q,
        s.temp_ice <= warm_ice(s, q).0.temp_ice <= 0,
        warm_ice(s, q).1 > 0 && s.mass_ice > 0 ==> warm_ice(s, q).0.temp_ice == 0,
        warm_ice(s, q).0 == (ThermalModel { temp_ice: warm_ice(s, q).0.temp_ice, ..s }),
{
    if s.mass_ice > 0 && s.temp_ice < 0 {
        let capacity = s.mass_ice * CP_ICE;
        lemma_product_positive(s.mass_ice, CP_ICE as int);
        lemma_product_positive(capacity, 0 - s.temp_ice);
        lemma_quotient_bounds(q, capacity);
        if q < capacity * (0 - s.temp_ice) {
            lemma_quotient_below(q, capacity, 0 - s.temp_ice);
        }
    }
}

/// Melting is paid for exactly: the heat used is the melted mass times the
/// latent heat, and as much as one mass unit's worth is left over only once
/// all the ice is gone.
pub proof fn lemma_melt_order(s: ThermalModel, q: int)
    requires
        s.masses_valid(),
        q >= 0,
    ensures
        0 <= melt_ice(s, q).1 <= q,
        q - melt_ice(s, q).1 == (s.mass_ice - melt_ice(s, q).0.mass_ice) * LATENT_PER_MASS,
        melt_ice(s, q).1 >= LATENT_PER_MASS ==> melt_ice(s, q).0.mass_ice == 0,
{
    if q > 0 && s.mass_ice > 0 {
        let affordable = q / (LATENT_PER_MASS as int);
        lemma_quotient_bounds(q, LATENT_PER_MASS as int);
        let melted = s.mass_ice - melt_ice(s, q).0.mass_ice;
        lemma_multiple_below(q, LATENT_PER_MASS as int, melted);
        if melted < s.mass_ice {
            assert(q - affordable * LATENT_PER_MASS < LATENT_PER_MASS) by (nonlinear_arith)
                requires
                    affordable == q / (LATENT_PER_MASS as int),
                    LATENT_PER_MASS > 0,
            ;
        }
    }
}

/// Cooling the water never overshoots: the water stays at or above 0 degrees
/// and never gets warmer, and heat is left to remove by freezing only once
/// the water has reached 0 degrees.
pub proof fn lemma_cool_water_order(s: ThermalModel, q: int)
    requires
        s.masses_valid(),
        s.temp_water >= 0,
        q >= 0,
    ensures
        0 <= cool_water(s, q).1 <= q,
        0 <= cool_water(s, q).0.temp_water <= s.temp_water,
        cool_water(s, q).1 > 0 && s.mass_water > 0 ==> cool_water(s, q).0.temp_water == 0,
        cool_water(s, q).0 == (ThermalModel { temp_water: cool_water(s, q).0.temp_water, ..s }),
{
    if s.mass_water > 0 && s.temp_water > 0 {
        let capacity = s.mass_water * CP_WATER;
        lemma_product_positive(s.mass_water, CP_WATER as int);
        lemma_product_positive(capacity, s.temp_water);
        if q < capacity * s.temp_water {
            lemma_quotient_bounds(q, capacity);
            lemma_quotient_below(q, capacity, s.temp_water);
        } else {
            lemma_quotient_exact(capacity, s.temp_water);
        }
    }
}

/// Freezing is paid for exactly: the heat removed is the frozen mass times
/// the latent heat, and as much as one mass unit's worth is left to remove
/// only once all the water is gone or the water is not at 0 degrees.
pub proof fn lemma_freeze_order(s: ThermalModel, q: int)
    requires
        s.masses_valid(),
        q >= 0,
    ensures
        0 <= freeze_water(s, q).1 <= q,
        q - freeze_water(s, q).1 == (s.mass_water - freeze_water(s, q).0.mass_water)
            * LATENT_PER_MASS,
        freeze_water(s, q).1 >= LATENT_PER_MASS && s.temp_water == 0 ==> freeze_water(
            s,
            q,
        ).0.mass_water == 0,
{
    if q > 0 && s.mass_water > 0 && freeze_water(s, q).0 != s {
        let affordable = q / (LATENT_PER_MASS as int);
        lemma_quotient_bounds(q, LATENT_PER_MASS as int);
        let frozen = s.mass_water - freeze_water(s, q).0.mass_water;
        lemma_multiple_below(q, LATENT_PER_MASS as int, frozen);
        if frozen < s.mass_water {
            assert(q - affordable * LATENT_PER_MASS < LATENT_PER_MASS) by (nonlinear_arith)
                requires
                    affordable == q / (LATENT_PER_MASS as int),
                    LATENT_PER_MASS > 0,
            ;
        }
    }
}

/// Heating only ever warms and melts: no temperature falls, no ice forms,
/// and ice that started at or below 0 degrees ends at or below 0 degrees.
pub proof fn lemma_heat_is_monotone(s: ThermalModel, q: int)
    requires
        s.masses_valid(),
        s.temp_ice <= 0,
        q > 0,
    ensures
        s.temp_ice <= heat(s, q).temp_ice <= 0,
        heat(s, q).temp_water >= s.temp_water,
        heat(s, q).mass_ice <= s.mass_ice,
        heat(s, q).mass_water >= s.mass_water,
        heat(s, q).mass_ice < s.mass_ice ==> heat(s, q).temp_ice == 0,
{
    lemma_warm_ice_order(s, q);
    let (a, qa) = warm_ice(s, q);
    lemma_melt_conserves_mass(a, qa);
    lemma_melt_order(a, qa);
    let (b, qb) = melt_ice(a, qa);
    if qb > 0 && b.mass_water > 0 {
        lemma_product_positive(b.mass_water, CP_WATER as int);
        lemma_quotient_bounds(qb, b.mass_water * CP_WATER);
    }
    assert(heat(s, q) == warm_water(b, qb));
}

/// Cooling only ever cools and freezes: no temperature rises, no ice melts,
/// and water that started at or above 0 degrees ends at or above 0 degrees.
pub proof fn lemma_cool_is_monotone(s: ThermalModel, q: int)
    requires
        s.masses_valid(),
        s.temp_water >= 0,
        q > 0,
    ensures
        0 <= cool(s, q).temp_water <= s.temp_water,
        cool(s, q).temp_ice <= s.temp_ice,
        cool(s, q).mass_water <= s.mass_water,
        cool(s, q).mass_ice >= s.mass_ice,
        cool(s, q).mass_water < s.mass_water ==> cool(s, q).temp_water == 0,
{
    lemma_cool_water_order(s, q);
    let (a, qa) = cool_water(s, q);
    lemma_freeze_conserves_mass(a, qa);
    lemma_freeze_order(a, qa);
    let (b, qb) = freeze_water(a, qa);
    if qb > 0 && b.mass_ice > 0 {
        lemma_product_positive(b.mass_ice, CP_ICE as int);
        lemma_quotient_bounds(qb, b.mass_ice * CP_ICE);
    }
    assert(cool(s, q) == cool_ice(b, qb));
}

} // verus!
