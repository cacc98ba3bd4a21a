//! The boundary to `rust_decimal`.
//!
//! The ledger does its arithmetic with `rust_decimal`. A decimal crosses this
//! boundary as two plain integers, its mantissa and its scale, standing for
//! `mantissa / 10^scale`. What each function here states of its result is
//! taken on trust from `rust_decimal`; nothing in this file is proved.

use rust_decimal::Decimal;
use vstd::prelude::*;

verus! {

/// The largest mantissa of a decimal: 2^96 - 1.
pub const MAX_MANTISSA: i128 = 79_228_162_514_264_337_593_543_950_335;

/// The largest scale of a decimal.
pub const MAX_SCALE: u32 = 28;

/// Whether a decimal can hold `mantissa / 10^scale`.
pub open spec fn representable(mantissa: int, scale: int) -> bool {
    &&& -MAX_MANTISSA <= mantissa <= MAX_MANTISSA
    &&& 0 <= scale <= MAX_SCALE
}

/// Ten to the power `e`.
pub open spec fn pow10(e: nat) -> nat
    decreases e,
{
    if e == 0 {
        1
    } else {
        10 * pow10((e - 1) as nat)
    }
}

/// `n / d` rounded to the nearest integer, a tie going to the even neighbour.
pub open spec fn round_half_even(n: nat, d: nat) -> nat
    recommends
        d > 0,
{
    let q = n / d;
    let r = n % d;
    if 2 * r > d || (2 * r == d && q % 2 == 1) {
        q + 1
    } else {
        q
    }
}

/// The mantissa of `mantissa / 10^scale` once it is rounded to `dp` fractional
/// digits: unchanged where it has no more than `dp`, else its magnitude
/// rounded half to even, under the same sign.
pub open spec fn rounded_mantissa(mantissa: int, scale: nat, dp: nat) -> int {
    if scale <= dp {
        mantissa
    } else if mantissa >= 0 {
        round_half_even(mantissa as nat, pow10((scale - dp) as nat)) as int
    } else {
        -(round_half_even((-mantissa) as nat, pow10((scale - dp) as nat)) as int)
    }
}

/// `Decimal::round_dp`: a decimal rounded to `dp` fractional digits.
///
/// Trusted: a decimal with at most `dp` fractional digits comes back as it
/// is; any other comes back at scale `dp`, rounded half to even.
#[verifier::external_body]
pub(crate) fn decimal_round_dp(mantissa: i128, scale: u32, dp: u32) -> (r: (i128, u32))
    requires
        representable(mantissa as int, scale as int),
    ensures
        r.0 == rounded_mantissa(mantissa as int, scale as nat, dp as nat),
        r.1 == if scale <= dp { scale } else { dp },
{
    let d = Decimal::from_i128_with_scale(mantissa, scale).round_dp(dp);
    (d.mantissa(), d.scale())
}

/// `Decimal::is_sign_negative`.
///
/// Trusted: a decimal made from a mantissa carries the sign of that mantissa,
/// and zero carries none.
#[verifier::external_body]
pub(crate) fn decimal_is_sign_negative(mantissa: i128, scale: u32) -> (r: bool)
    requires
        representable(mantissa as int, scale as int),
    ensures
        r == (mantissa < 0),
{
    Decimal::from_i128_with_scale(mantissa, scale).is_sign_negative()
}

/// `>` on two decimals of one scale.
///
/// Trusted: decimals of one scale are ordered as their mantissas are.
#[verifier::external_body]
pub(crate) fn decimal_gt(a: i128, b: i128, scale: u32) -> (r: bool)
    requires
        representable(a as int, scale as int),
        representable(b as int, scale as int),
    ensures
        r == (a > b),
{
    Decimal::from_i128_with_scale(a, scale) > Decimal::from_i128_with_scale(b, scale)
}

/// `Decimal::checked_add` on two decimals of one scale.
///
/// Trusted: where the sum of the mantissas fits in 96 bits, the result is
/// that sum at the same scale. Where it does not, `rust_decimal` either
/// reports an overflow or rounds the sum to a smaller scale.
#[verifier::external_body]
pub(crate) fn decimal_checked_add(a: i128, b: i128, scale: u32) -> (r: Option<(i128, u32)>)
    requires
        representable(a as int, scale as int),
        representable(b as int, scale as int),
    ensures
        representable(a + b, scale as int) ==> r == Some(((a + b) as i128, scale)),
        !representable(a + b, scale as int) ==> (r matches Some(p) ==> p.1 < scale),
{
    let x = Decimal::from_i128_with_scale(a, scale);
    let y = Decimal::from_i128_with_scale(b, scale);
    match x.checked_add(y) {
        Some(z) => Some((z.mantissa(), z.scale())),
        None => None,
    }
}

/// `+` on two decimals of one scale whose sum fits.
///
/// Trusted: the result is the sum of the mantissas at the same scale.
#[verifier::external_body]
pub(crate) fn decimal_add(a: i128, b: i128, scale: u32) -> (r: (i128, u32))
    requires
        representable(a as int, scale as int),
        representable(b as int, scale as int),
        representable(a + b, scale as int),
    ensures
        r.0 == a + b,
        r.1 == scale,
{
    let z = Decimal::from_i128_with_scale(a, scale) + Decimal::from_i128_with_scale(b, scale);
    (z.mantissa(), z.scale())
}

/// `-` on two decimals of one scale whose difference fits.
///
/// Trusted: the result is the difference of the mantissas at the same scale.
#[verifier::external_body]
pub(crate) fn decimal_sub(a: i128, b: i128, scale: u32) -> (r: (i128, u32))
    requires
        representable(a as int, scale as int),
        representable(b as int, scale as int),
        representable(a - b, scale as int),
    ensures
        r.0 == a - b,
        r.1 == scale,
{
    let z = Decimal::from_i128_with_scale(a, scale) - Decimal::from_i128_with_scale(b, scale);
    (z.mantissa(), z.scale())
}

} // verus!
