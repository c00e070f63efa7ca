//! Small facts of integer arithmetic that the overflow proofs rest on.

use vstd::prelude::*;

verus! {

/// A non-negative number divided by a positive one lies between zero and
/// the number itself.
pub proof fn lemma_quotient_bounds(x: int, d: int)
    by (nonlinear_arith)
    requires
        0 <= x,
        0 < d,
    ensures
        0 <= x / d <= x,
{
}

/// A product of two bounded non-negative factors is bounded by the product
/// of the bounds.
pub proof fn lemma_product_bounds(a: int, a_max: int, b: int, b_max: int)
    by (nonlinear_arith)
    requires
        0 <= a <= a_max,
        0 <= b <= b_max,
    ensures
        0 <= a * b <= a_max * b_max,
{
}

/// A product of a bounded non-negative factor and a factor bounded in
/// magnitude is bounded in magnitude by the product of the bounds.
pub proof fn lemma_signed_product_bounds(a: int, a_max: int, b: int, b_max: int)
    by (nonlinear_arith)
    requires
        0 <= a <= a_max,
        -b_max <= b <= b_max,
    ensures
        -(a_max * b_max) <= a * b <= a_max * b_max,
        -(a * b_max) <= a * b <= a * b_max,
{
}

/// If a number is at most `k` times a positive divisor, its quotient is at
/// most `k`; if it is strictly less, so is the quotient.
pub proof fn lemma_quotient_below(x: int, d: int, k: int)
    by (nonlinear_arith)
    requires
        0 <= x,
        0 < d,
        x <= d * k,
    ensures
        x / d <= k,
        x < d * k ==> x / d < k,
{
}

/// Whatever number of whole divisors fits under the quotient fits under
/// the dividend.
pub proof fn lemma_multiple_below(x: int, d: int, k: int)
    by (nonlinear_arith)
    requires
        0 <= x,
        0 < d,
        0 <= k <= x / d,
    ensures
        0 <= k * d <= x,
{
}

/// A product of positive factors is positive.
pub proof fn lemma_product_positive(a: int, b: int)
    by (nonlinear_arith)
    requires
        0 < a,
        0 < b,
    ensures
        0 < a * b,
{
}

/// An exact multiple divides exactly.
pub proof fn lemma_quotient_exact(d: int, k: int)
    by (nonlinear_arith)
    requires
        0 < d,
    ensures
        (d * k) / d == k,
{
}

} // verus!
