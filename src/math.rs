//! Integer helpers for amounts.

use vstd::prelude::*;

verus! {

/// Quotient of `a` by a positive `b`, rounded toward zero as Rust's `/` does.
pub open spec fn trunc_div(a: int, b: int) -> int {
    if a >= 0 {
        a / b
    } else {
        -((-a) / b)
    }
}

/// Whether `v` fits in an `i128`.
pub open spec fn fits_i128(v: int) -> bool {
    i128::MIN <= v <= i128::MAX
}

/// `a + b`, for sums that fit.
pub fn safe_add_i128(a: i128, b: i128) -> (r: i128)
    requires
        fits_i128(a + b),
    ensures
        r == a + b,
{
    a + b
}

/// `a - b`, for differences that fit.
pub fn safe_sub_i128(a: i128, b: i128) -> (r: i128)
    requires
        fits_i128(a - b),
    ensures
        r == a - b,
{
    a - b
}

/// `a * b`, for products that fit.
pub fn safe_mul_i128(a: i128, b: i128) -> (r: i128)
    requires
        fits_i128(a * b),
    ensures
        r == a * b,
{
    a * b
}

/// `percentage` percent of `amount`, rounded toward zero.
pub fn percentage_of(amount: i128, percentage: u32) -> (r: i128)
    requires
        fits_i128(amount * percentage),
    ensures
        r == trunc_div(amount * percentage, 100),
{
    safe_mul_i128(amount, percentage as i128) / 100
}

/// Whether `min <= value <= max`.
pub fn is_in_range(value: i128, min: i128, max: i128) -> (r: bool)
    ensures
        r == (min <= value <= max),
{
    value >= min && value <= max
}

} // verus!
