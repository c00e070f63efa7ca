//! The discrete speed selector of the simulation clock.

use vstd::prelude::*;

verus! {

/// Multiplier applied to wall-clock time before integration.
/// The selector moves through the fixed cycle 1, 2, 5, 10 and back to 1.
#[derive(Clone, Copy, Debug, PartialEq, Eq, Structural)]
pub enum TimeScale {
    X1,
    X2,
    X5,
    X10,
}

impl TimeScale {
    /// The multiplier this selector stands for.
    pub open spec fn factor_spec(self) -> u64 {
        match self {
            TimeScale::X1 => 1,
            TimeScale::X2 => 2,
            TimeScale::X5 => 5,
            TimeScale::X10 => 10,
        }
    }

    /// The selector that follows this one in the cycle.
    pub open spec fn next_spec(self) -> TimeScale {
        match self {
            TimeScale::X1 => TimeScale::X2,
            TimeScale::X2 => TimeScale::X5,
            TimeScale::X5 => TimeScale::X10,
            TimeScale::X10 => TimeScale::X1,
        }
    }

    /// The multiplier as a number.
    #[verifier::when_used_as_spec(factor_spec)]
    pub fn factor(self) -> (f: u64)
        ensures
            f == self.factor_spec(),
            1 <= f <= 10,
    {
        match self {
            TimeScale::X1 => 1,
            TimeScale::X2 => 2,
            TimeScale::X5 => 5,
            TimeScale::X10 => 10,
        }
    }

    /// The next selector in the cycle 1, 2, 5, 10, 1.
    #[verifier::when_used_as_spec(next_spec)]
    pub fn next(self) -> (n: TimeScale)
        ensures
            n == self.next_spec(),
    {
        match self {
            TimeScale::X1 => TimeScale::X2,
            TimeScale::X2 => TimeScale::X5,
            TimeScale::X5 => TimeScale::X10,
            TimeScale::X10 => TimeScale::X1,
        }
    }
}

/// Four presses of the speed selector bring any setting back to itself, and
/// no fewer do.
pub proof fn lemma_cycle_has_period_four(t: TimeScale)
    ensures
        t.next_spec().next_spec().next_spec().next_spec() == t,
        t.next_spec() != t,
        t.next_spec().next_spec() != t,
        t.next_spec().next_spec().next_spec() != t,
{
}

} // verus!
