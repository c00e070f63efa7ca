//! What holds of a simulator over resets and over whole runs of ticks.

use vstd::prelude::*;
use crate::laws::{lemma_advance_conserves_mass, lemma_advance_settles};
use crate::simulation::Simulation;
use crate::units::{MASS_LIMIT, TEMP_LIMIT};

verus! {

/// Resetting twice in a row gives what resetting once gives, from any state.
pub proof fn lemma_reset_is_idempotent(s: Simulation)
    ensures
        s.reset().reset() == s.reset(),
{
}

/// Seeding twice in a row gives what seeding once gives, and seeding never
/// touches the clock, the run flag, the speed or the initial conditions.
pub proof fn lemma_seeding_is_idempotent(s: Simulation)
    ensures
        s.seeded().seeded() == s.seeded(),
        s.seeded() == (Simulation {
            state: s.seeded().state,
            outside_temp: s.init_outside_temp,
            ..s
        }),
{
}

/// Seeded contents obey the temperature sign rules exactly when the initial
/// temperature is zero, or is above zero with some water to carry it.
pub proof fn lemma_seeded_settled(s: Simulation)
    ensures
        s.seeded().state@.settled() <==> (s.init_system_temp == 0 || (s.init_system_temp > 0
            && s.init_water > 0)),
{
}

/// Seeded contents are in range exactly when the initial conditions are.
pub proof fn lemma_seeded_in_range(s: Simulation)
    ensures
        s.seeded().state.in_range() <==> (s.init_water + s.init_ice <= MASS_LIMIT && -TEMP_LIMIT
            <= s.init_system_temp <= TEMP_LIMIT),
{
}

/// Flipping the run flag keeps the clock and the speed, and pausing keeps
/// the contents; flipping it twice leaves the flag as it was and the
/// simulator seeded.
pub proof fn lemma_toggle_twice(s: Simulation)
    ensures
        s.toggled().running == !s.running,
        s.toggled().time_nanos == s.time_nanos,
        s.toggled().time_scale == s.time_scale,
        s.running ==> s.toggled().state == s.state,
        s.toggled().toggled() == s.seeded(),
{
}

/// Tick number `i` of the history leads from `trace[i]` to `trace[i + 1]`.
pub open spec fn follows(trace: Seq<Simulation>, ticks: Seq<u64>, i: int) -> bool {
    trace[i].step_spec(ticks[i], trace[i + 1])
}

/// `trace` is the history of a simulator that is stepped with the tick
/// lengths `ticks`, one after the other: it starts at `trace[0]`, and every
/// later entry is what the tick before it made of the entry before it.
pub open spec fn is_history(trace: Seq<Simulation>, ticks: Seq<u64>) -> bool {
    &&& trace.len() == ticks.len() + 1
    &&& forall|i: int| 0 <= i < ticks.len() ==> #[trigger] follows(trace, ticks, i)
}

/// Over any run of ticks the total mass stays what it was at the start, and
/// so does the mass of the air.
pub proof fn lemma_history_conserves_mass(trace: Seq<Simulation>, ticks: Seq<u64>, k: int)
    requires
        is_history(trace, ticks),
        0 <= k < trace.len(),
    ensures
        trace[k].state@.total_mass() == trace[0].state@.total_mass(),
        trace[k].state.mass_air == trace[0].state.mass_air,
    decreases k,
{
    if k > 0 {
        lemma_history_conserves_mass(trace, ticks, k - 1);
        assert(follows(trace, ticks, k - 1));
        let before = trace[k - 1];
        lemma_advance_conserves_mass(
            before.state@,
            before.outside_temp as int,
            before.scaled(ticks[k - 1]),
        );
    }
}

/// A run of ticks that starts from contents obeying the temperature sign
/// rules never leaves them; and whatever the start, the contents obey them
/// after every tick that did work.
pub proof fn lemma_history_stays_settled(trace: Seq<Simulation>, ticks: Seq<u64>, k: int)
    requires
        is_history(trace, ticks),
        0 <= k < trace.len(),
    ensures
        trace[0].state@.settled() ==> trace[k].state@.settled(),
        k > 0 && trace[k - 1].ticks(ticks[k - 1]) ==> trace[k].state@.settled(),
    decreases k,
{
    if k > 0 {
        lemma_history_stays_settled(trace, ticks, k - 1);
        assert(follows(trace, ticks, k - 1));
        let before = trace[k - 1];
        lemma_advance_settles(
            before.state@,
            before.outside_temp as int,
            before.scaled(ticks[k - 1]),
        );
    }
}

/// Ticks change neither the surroundings, nor the run flag, nor the speed,
/// nor the initial conditions; and the clock never runs backwards.
pub proof fn lemma_history_keeps_settings(trace: Seq<Simulation>, ticks: Seq<u64>, k: int)
    requires
        is_history(trace, ticks),
        0 <= k < trace.len(),
    ensures
        trace[k] == (Simulation {
            state: trace[k].state,
            time_nanos: trace[k].time_nanos,
            ..trace[0]
        }),
        trace[k].time_nanos >= trace[0].time_nanos,
    decreases k,
{
    if k > 0 {
        lemma_history_keeps_settings(trace, ticks, k - 1);
        assert(follows(trace, ticks, k - 1));
        assert(trace[k - 1].scaled(ticks[k - 1]) >= 0) by (nonlinear_arith)
            requires
                trace[k - 1].scaled(ticks[k - 1]) == ticks[k - 1]
                    * trace[k - 1].time_scale.factor_spec(),
        ;
    }
}

/// A paused simulator is the same after any run of ticks.
pub proof fn lemma_history_of_paused(trace: Seq<Simulation>, ticks: Seq<u64>, k: int)
    requires
        is_history(trace, ticks),
        0 <= k < trace.len(),
        !trace[0].running,
    ensures
        trace[k] == trace[0],
    decreases k,
{
    if k > 0 {
        lemma_history_of_paused(trace, ticks, k - 1);
        assert(follows(trace, ticks, k - 1));
    }
}

/// Simulated time that a run of ticks covers at the given speed factor.
pub open spec fn covered(ticks: Seq<u64>, factor: int) -> int
    decreases ticks.len(),
{
    if ticks.len() == 0 {
        0
    } else {
        covered(ticks.drop_last(), factor) + ticks.last() * factor
    }
}

/// While the simulator runs, the clock after a run of ticks shows exactly
/// the start time plus every tick length times the speed.
pub proof fn lemma_history_clock(trace: Seq<Simulation>, ticks: Seq<u64>)
    requires
        is_history(trace, ticks),
        trace[0].running,
    ensures
        trace.last().time_nanos == trace[0].time_nanos + covered(
            ticks,
            trace[0].time_scale.factor_spec() as int,
        ),
    decreases ticks.len(),
{
    if ticks.len() > 0 {
        let n = ticks.len() as int;
        let shorter = trace.drop_last();
        assert forall|i: int| 0 <= i < n - 1 implies #[trigger] follows(
            shorter,
            ticks.drop_last(),
            i,
        ) by {
            assert(follows(trace, ticks, i));
        }
        lemma_history_clock(shorter, ticks.drop_last());
        lemma_history_keeps_settings(trace, ticks, n - 1);
        assert(follows(trace, ticks, n - 1));
    }
}

} // verus!
