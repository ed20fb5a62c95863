use vstd::prelude::*;
use crate::error::VaultError;

verus! {

/// The exact value of `amount * numerator / denominator`, rounded toward zero,
/// over the unbounded integers.
pub open spec fn floor_ratio(amount: int, numerator: int, denominator: int) -> int {
    (amount * numerator) / denominator
}

/// What `proportion` returns: the floored ratio when it fits sixty-four bits,
/// and otherwise the reason it cannot be given.
pub open spec fn proportion_spec(amount: u64, numerator: u64, denominator: u64) -> Result<
    u64,
    VaultError,
> {
    if denominator == 0 {
        Err(VaultError::DivisionByZero)
    } else if floor_ratio(amount as int, numerator as int, denominator as int) > u64::MAX {
        Err(VaultError::ArithmeticOverflow)
    } else {
        Ok(floor_ratio(amount as int, numerator as int, denominator as int) as u64)
    }
}

/// The product of two sixty-four-bit magnitudes always fits in 128 bits.
pub proof fn lemma_product_fits_wide(a: u64, b: u64)
    ensures
        0 <= a * b <= u128::MAX,
{
    assert(0 <= a * b <= 0xffff_ffff_ffff_ffff * 0xffff_ffff_ffff_ffff) by (nonlinear_arith)
        requires
            0 <= a <= 0xffff_ffff_ffff_ffff,
            0 <= b <= 0xffff_ffff_ffff_ffff,
    ;
}

/// The floored ratio is the unique `q` with `q * d <= a * n < (q + 1) * d`.
pub proof fn lemma_floor_ratio_bounds(a: int, n: int, d: int)
    requires
        0 <= a,
        0 <= n,
        0 < d,
    ensures
        0 <= floor_ratio(a, n, d),
        floor_ratio(a, n, d) * d <= a * n,
        a * n < (floor_ratio(a, n, d) + 1) * d,
{
    let x = a * n;
    assert(0 <= x) by (nonlinear_arith)
        requires
            0 <= a,
            0 <= n,
            x == a * n,
    ;
    assert(0 <= x / d && (x / d) * d <= x && x < (x / d + 1) * d) by (nonlinear_arith)
        requires
            0 <= x,
            0 < d,
    ;
}

/// A floored ratio never exceeds the amount when the numerator does not
/// exceed the denominator.
pub proof fn lemma_floor_ratio_at_most_amount(a: int, n: int, d: int)
    requires
        0 <= a,
        0 <= n <= d,
        0 < d,
    ensures
        floor_ratio(a, n, d) <= a,
{
    lemma_floor_ratio_bounds(a, n, d);
    let q = floor_ratio(a, n, d);
    assert(q <= a) by (nonlinear_arith)
        requires
            q * d <= a * n,
            0 <= a,
            0 <= n <= d,
            0 < d,
    ;
}

/// A floored ratio never exceeds the numerator when the amount does not
/// exceed the denominator.
pub proof fn lemma_floor_ratio_at_most_numerator(a: int, n: int, d: int)
    requires
        0 <= a <= d,
        0 <= n,
        0 < d,
    ensures
        floor_ratio(a, n, d) <= n,
        a < d && 0 < n ==> floor_ratio(a, n, d) < n,
{
    lemma_floor_ratio_bounds(a, n, d);
    let q = floor_ratio(a, n, d);
    assert(q <= n) by (nonlinear_arith)
        requires
            q * d <= a * n,
            0 <= a <= d,
            0 <= n,
            0 < d,
    ;
    if a < d && 0 < n {
        assert(q < n) by (nonlinear_arith)
            requires
                q * d <= a * n,
                0 <= a < d,
                0 < n,
                0 < d,
        ;
    }
}

/// A floored ratio does not decrease when the numerator grows.
pub proof fn lemma_floor_ratio_monotonic(a: int, n1: int, n2: int, d: int)
    requires
        0 <= a,
        0 <= n1 <= n2,
        0 < d,
    ensures
        floor_ratio(a, n1, d) <= floor_ratio(a, n2, d),
{
    lemma_floor_ratio_bounds(a, n1, d);
    lemma_floor_ratio_bounds(a, n2, d);
    let q1 = floor_ratio(a, n1, d);
    let q2 = floor_ratio(a, n2, d);
    assert(q1 <= q2) by (nonlinear_arith)
        requires
            q1 * d <= a * n1,
            a * n2 < (q2 + 1) * d,
            0 <= a,
            0 <= n1 <= n2,
            0 < d,
    ;
}

/// Computes `floor(amount * numerator / denominator)` through a 128-bit
/// intermediate, so that the product itself can never overflow.
///
/// Rounding is always toward zero. The call fails with `DivisionByZero` when
/// `denominator` is zero and with `ArithmeticOverflow` when the quotient does
/// not fit sixty-four bits.
pub fn proportion(amount: u64, numerator: u64, denominator: u64) -> (r: Result<u64, VaultError>)
    ensures
        r == proportion_spec(amount, numerator, denominator),
{
    if denominator == 0 {
        return Err(VaultError::DivisionByZero);
    }
    proof {
        lemma_product_fits_wide(amount, numerator);
    }
    let wide: u128 = (amount as u128) * (numerator as u128);
    let quotient: u128 = wide / (denominator as u128);
    if quotient > u64::MAX as u128 {
        Err(VaultError::ArithmeticOverflow)
    } else {
        Ok(quotient as u64)
    }
}

} // verus!
