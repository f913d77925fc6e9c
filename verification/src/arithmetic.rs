//! Integer arithmetic with the overflow behaviour that money needs.

use vstd::prelude::*;

use crate::error::ApiError;

verus! {

/// The quotient rounded up.
pub open spec fn ceiling(numerator: int, denominator: int) -> int {
    (numerator + denominator - 1) / denominator
}

/// The quotient rounded towards zero.
pub open spec fn truncated(numerator: int, denominator: int) -> int {
    if numerator < 0 {
        -((-numerator) / denominator)
    } else {
        numerator / denominator
    }
}

/// The number nearest to `value` in the range of `i64`.
pub open spec fn clamped_i64(value: int) -> int {
    if value < i64::MIN {
        i64::MIN as int
    } else if value > i64::MAX {
        i64::MAX as int
    } else {
        value
    }
}

/// Divides and rounds up. A negative numerator, a denominator that is not positive,
/// or a sum that leaves the range of `i128` is an internal error.
pub fn ceil_div(numerator: i128, denominator: i128) -> (quotient: Result<i128, ApiError>)
    ensures
        quotient is Ok <==> numerator >= 0 && denominator > 0 && numerator + denominator - 1
            <= i128::MAX,
        quotient matches Ok(value) ==> value == ceiling(numerator as int, denominator as int),
        quotient matches Err(error) ==> error == ApiError::internal(),
{
    if numerator < 0 || denominator <= 0 {
        return Err(ApiError::internal());
    }
    match numerator.checked_add(denominator - 1) {
        Some(sum) => Ok(sum / denominator),
        None => Err(ApiError::internal()),
    }
}

/// Narrows to `i64`; a number out of its range is an internal error.
pub fn checked_i64(value: i128) -> (narrowed: Result<i64, ApiError>)
    ensures
        narrowed == if i64::MIN <= value <= i64::MAX {
            Ok::<i64, ApiError>(value as i64)
        } else {
            Err::<i64, ApiError>(ApiError::internal())
        },
{
    if value < i64::MIN as i128 || value > i64::MAX as i128 {
        return Err(ApiError::internal());
    }
    Ok(value as i64)
}

/// Subtracts; where the difference leaves the range of `i64`, the nearest number
/// in it is the result.
pub fn saturating_sub_i64(left: i64, right: i64) -> (difference: i64)
    ensures
        difference == clamped_i64(left - right),
{
    let exact: i128 = left as i128 - right as i128;
    if exact < i64::MIN as i128 {
        i64::MIN
    } else if exact > i64::MAX as i128 {
        i64::MAX
    } else {
        exact as i64
    }
}

/// Adds; a sum out of the range of `i64` is an internal error.
pub fn add_i64(left: i64, right: i64) -> (sum: Result<i64, ApiError>)
    ensures
        sum == if i64::MIN <= left + right <= i64::MAX {
            Ok::<i64, ApiError>((left + right) as i64)
        } else {
            Err::<i64, ApiError>(ApiError::internal())
        },
{
    match left.checked_add(right) {
        Some(sum) => Ok(sum),
        None => Err(ApiError::internal()),
    }
}

/// `amount * weight / 1_000_000`, rounded towards zero.
pub fn weighted_ppm(amount: i64, weight_ppm: i32) -> (weighted: i128)
    ensures
        weighted == truncated(amount * weight_ppm, 1_000_000),
{
    assert(-0x8000_0000_0000_0000int * 0x8000_0000int <= amount * weight_ppm
        <= 0x8000_0000_0000_0000int * 0x8000_0000int) by (nonlinear_arith)
        requires
            -0x8000_0000_0000_0000int <= amount <= 0x8000_0000_0000_0000int,
            -0x8000_0000int <= weight_ppm <= 0x8000_0000int,
    ;
    let product: i128 = amount as i128 * weight_ppm as i128;
    if product < 0 {
        -((-product) / 1_000_000)
    } else {
        product / 1_000_000
    }
}

/// Rounding up never loses anything and adds less than one unit.
pub proof fn ceiling_bounds(numerator: int, denominator: int)
    requires
        numerator >= 0,
        denominator > 0,
    ensures
        ceiling(numerator, denominator) * denominator >= numerator,
        ceiling(numerator, denominator) * denominator < numerator + denominator,
{
    let sum = numerator + denominator - 1;
    vstd::arithmetic::div_mod::lemma_fundamental_div_mod(sum, denominator);
    vstd::arithmetic::div_mod::lemma_mod_bound(sum, denominator);
    vstd::arithmetic::mul::lemma_mul_is_commutative(denominator, sum / denominator);
}

/// A quotient rounded towards zero is the largest in size whose multiple does not go beyond
/// the number, and it keeps its size when the number changes its sign.
pub proof fn truncation_is_towards_zero(numerator: int, denominator: int)
    requires
        denominator > 0,
    ensures
        numerator >= 0 ==> truncated(numerator, denominator) * denominator <= numerator < (truncated(
            numerator,
            denominator,
        ) + 1) * denominator,
        truncated(-numerator, denominator) == -truncated(numerator, denominator),
{
    if numerator >= 0 {
        vstd::arithmetic::div_mod::lemma_fundamental_div_mod(numerator, denominator);
        vstd::arithmetic::div_mod::lemma_mod_bound(numerator, denominator);
        let quotient = numerator / denominator;
        assert(quotient * denominator == denominator * quotient) by (nonlinear_arith);
        assert((quotient + 1) * denominator == quotient * denominator + denominator)
            by (nonlinear_arith);
    }
    if numerator == 0 {
        vstd::arithmetic::div_mod::lemma_div_basics(denominator);
    }
}

/// What fits stays, and what does not becomes the nearest bound.
pub proof fn clamping_takes_the_nearest(value: int, other: i64)
    ensures
        i64::MIN <= clamped_i64(value) <= i64::MAX,
        i64::MIN <= value <= i64::MAX ==> clamped_i64(value) == value,
        value > other ==> clamped_i64(value) >= other,
        value < other ==> clamped_i64(value) <= other,
{
}

} // verus!
