//! Sine, cosine and tangent on fixed-point radians.
//!
//! Both series are Maclaurin polynomials in Horner form, accurate to a few
//! representation steps over the camera's working range (magnitudes up to
//! about a quarter turn).  Like every other operation of the crate they are
//! total: out-of-range inputs give a well-defined, saturated value.

use vstd::prelude::*;

use crate::fx::fx_div;
use crate::fx::fx_div_spec;
use crate::fx::fx_mul;
use crate::fx::fx_mul_spec;
use crate::fx::fx_sub;
use crate::fx::fx_sub_spec;
use crate::fx::FX_MAX;
use crate::fx::FX_ONE;

verus! {

/// Radians per degree (pi / 180), rounded down.
pub const FX_RAD_PER_DEG: i64 = 74961320;

/// 6 in fixed point, and the following even-step Horner divisors.
pub const FX_F2: i64 = 8589934592;

pub const FX_F6: i64 = 25769803776;

pub const FX_F12: i64 = 51539607552;

pub const FX_F20: i64 = 85899345920;

pub const FX_F30: i64 = 128849018880;

pub const FX_F42: i64 = 180388626432;

pub const FX_F56: i64 = 240518168576;

pub const FX_F72: i64 = 309237645312;

pub const FX_F90: i64 = 386547056640;

pub const FX_F110: i64 = 472446402560;

pub const FX_F132: i64 = 566935683072;

pub const FX_F156: i64 = 670014898176;

/// Degrees to radians.
pub open spec fn deg_to_rad_spec(deg: i64) -> i64 {
    fx_mul_spec(deg, FX_RAD_PER_DEG)
}

/// The sine polynomial:
/// `x * (1 - x^2/6 * (1 - x^2/20 * (... (1 - x^2/156))))`.
pub open spec fn sin_spec(x: i64) -> i64 {
    let x2 = fx_mul_spec(x, x);
    let p = fx_sub_spec(FX_ONE, fx_div_spec(x2, FX_F156));
    let p = fx_sub_spec(FX_ONE, fx_mul_spec(fx_div_spec(x2, FX_F110), p));
    let p = fx_sub_spec(FX_ONE, fx_mul_spec(fx_div_spec(x2, FX_F72), p));
    let p = fx_sub_spec(FX_ONE, fx_mul_spec(fx_div_spec(x2, FX_F42), p));
    let p = fx_sub_spec(FX_ONE, fx_mul_spec(fx_div_spec(x2, FX_F20), p));
    let p = fx_sub_spec(FX_ONE, fx_mul_spec(fx_div_spec(x2, FX_F6), p));
    fx_mul_spec(x, p)
}

/// The cosine polynomial:
/// `1 - x^2/2 * (1 - x^2/12 * (... (1 - x^2/132)))`.
pub open spec fn cos_spec(x: i64) -> i64 {
    let x2 = fx_mul_spec(x, x);
    let q = fx_sub_spec(FX_ONE, fx_div_spec(x2, FX_F132));
    let q = fx_sub_spec(FX_ONE, fx_mul_spec(fx_div_spec(x2, FX_F90), q));
    let q = fx_sub_spec(FX_ONE, fx_mul_spec(fx_div_spec(x2, FX_F56), q));
    let q = fx_sub_spec(FX_ONE, fx_mul_spec(fx_div_spec(x2, FX_F30), q));
    let q = fx_sub_spec(FX_ONE, fx_mul_spec(fx_div_spec(x2, FX_F12), q));
    fx_sub_spec(FX_ONE, fx_mul_spec(fx_div_spec(x2, FX_F2), q))
}

/// Tangent: sine over cosine, saturated where the cosine is not positive.
pub open spec fn tan_spec(x: i64) -> i64 {
    if cos_spec(x) <= 0 {
        FX_MAX
    } else {
        fx_div_spec(sin_spec(x), cos_spec(x))
    }
}

pub fn deg_to_rad(deg: i64) -> (r: i64)
    ensures
        r == deg_to_rad_spec(deg),
{
    fx_mul(deg, FX_RAD_PER_DEG)
}

pub fn sin_fx(x: i64) -> (r: i64)
    ensures
        r == sin_spec(x),
{
    let x2 = fx_mul(x, x);
    let p = fx_sub(FX_ONE, fx_div(x2, FX_F156));
    let p = fx_sub(FX_ONE, fx_mul(fx_div(x2, FX_F110), p));
    let p = fx_sub(FX_ONE, fx_mul(fx_div(x2, FX_F72), p));
    let p = fx_sub(FX_ONE, fx_mul(fx_div(x2, FX_F42), p));
    let p = fx_sub(FX_ONE, fx_mul(fx_div(x2, FX_F20), p));
    let p = fx_sub(FX_ONE, fx_mul(fx_div(x2, FX_F6), p));
    fx_mul(x, p)
}

pub fn cos_fx(x: i64) -> (r: i64)
    ensures
        r == cos_spec(x),
{
    let x2 = fx_mul(x, x);
    let q = fx_sub(FX_ONE, fx_div(x2, FX_F132));
    let q = fx_sub(FX_ONE, fx_mul(fx_div(x2, FX_F90), q));
    let q = fx_sub(FX_ONE, fx_mul(fx_div(x2, FX_F56), q));
    let q = fx_sub(FX_ONE, fx_mul(fx_div(x2, FX_F30), q));
    let q = fx_sub(FX_ONE, fx_mul(fx_div(x2, FX_F12), q));
    fx_sub(FX_ONE, fx_mul(fx_div(x2, FX_F2), q))
}

pub fn tan_fx(x: i64) -> (r: i64)
    ensures
        r == tan_spec(x),
{
    let c = cos_fx(x);
    if c <= 0 {
        FX_MAX
    } else {
        fx_div(sin_fx(x), c)
    }
}

} // verus!
