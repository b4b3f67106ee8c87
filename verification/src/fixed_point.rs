//! Fixed point arithmetic on `i128` from `soroban-fixed-point-math`.
use soroban_fixed_point_math::FixedPoint;
use vstd::prelude::*;

verus! {

/// `FixedPoint::fixed_mul_floor` for `i128`: `floor(x * y / denominator)`, or `None`
/// when `x * y` overflows `i128`. Stated for a positive denominator only; the
/// crate's answer for other denominators is left unsaid.
#[verifier::external_body]
pub(crate) fn mul_floor(x: i128, y: i128, denominator: i128) -> (r: Option<i128>)
    ensures
        denominator > 0 ==> r == if i128::MIN <= x * y <= i128::MAX {
            Some((x * y / (denominator as int)) as i128)
        } else {
            None::<i128>
        },
{
    x.fixed_mul_floor(y, denominator)
}

/// `FixedPoint::fixed_div_floor` for `i128`: `floor(x * denominator / y)`, or `None`
/// when `x * denominator` overflows `i128`. Stated for a positive divisor `y` only;
/// the crate's answer for other divisors is left unsaid.
#[verifier::external_body]
pub(crate) fn div_floor(x: i128, y: i128, denominator: i128) -> (r: Option<i128>)
    ensures
        y > 0 ==> r == if i128::MIN <= x * denominator <= i128::MAX {
            Some((x * denominator / (y as int)) as i128)
        } else {
            None::<i128>
        },
{
    x.fixed_div_floor(y, denominator)
}

} // verus!
