//! Amounts of money: fixed-point decimals with four fractional digits.
//!
//! An amount holds a whole number of ten-thousandths, in the 96 bits that a
//! decimal of `rust_decimal` has for its mantissa. The arithmetic is that of
//! `rust_decimal`, on decimals of scale four. It is exact: where
//! `rust_decimal` would round a sum to make it fit, there is no sum.

use crate::decimal::{
    decimal_add, decimal_checked_add, decimal_gt, decimal_is_sign_negative, decimal_round_dp,
    decimal_sub, pow10, representable, round_half_even, rounded_mantissa, MAX_MANTISSA, MAX_SCALE,
};
use vstd::prelude::*;

verus! {

/// The number of fractional digits of an amount.
pub const SCALE: u32 = 4;

/// The largest number of ten-thousandths that an amount can hold: 2^96 - 1.
pub const MAX_UNITS: i128 = MAX_MANTISSA;

/// The number of ten-thousandths in `mantissa / 10^scale`, rounded half to
/// even where the value has more than four fractional digits.
pub open spec fn units_of(mantissa: int, scale: nat) -> int {
    if scale < SCALE {
        mantissa * pow10((SCALE - scale) as nat)
    } else {
        rounded_mantissa(mantissa, scale, SCALE as nat)
    }
}

/// Whether an amount can hold `units` ten-thousandths.
pub open spec fn in_range(units: int) -> bool {
    -MAX_UNITS <= units <= MAX_UNITS
}

/// An amount of money, exact to the ten-thousandth.
///
/// It is modelled by the integer number of ten-thousandths that it holds,
/// which lies between `-MAX_UNITS` and `MAX_UNITS`.
#[derive(Clone, Copy, Debug, PartialEq, Eq)]
pub struct Amount {
    units: i128,
}

impl View for Amount {
    type V = int;

    closed spec fn view(&self) -> int {
        self.units as int
    }
}

/// The powers of ten that scaling to four digits needs.
pub proof fn lemma_pow10_values()
    ensures
        pow10(0) == 1,
        pow10(1) == 10,
        pow10(2) == 100,
        pow10(3) == 1_000,
        pow10(4) == 10_000,
{
    reveal_with_fuel(pow10, 5);
}

proof fn lemma_pow10_at_least_ten(e: nat)
    requires
        e >= 1,
    ensures
        pow10(e) >= 10,
    decreases e,
{
    reveal_with_fuel(pow10, 2);
    if e > 1 {
        lemma_pow10_at_least_ten((e - 1) as nat);
    }
}

/// Rounding a quotient by ten or more never gives more than the dividend.
proof fn lemma_round_half_even_bound(n: nat, d: nat)
    requires
        d >= 10,
    ensures
        round_half_even(n, d) <= n,
{
    let q = n / d;
    let r = n % d;
    assert(n == d * q + r && 0 <= r < d) by {
        vstd::arithmetic::div_mod::lemma_fundamental_div_mod(n as int, d as int);
        vstd::arithmetic::div_mod::lemma_mod_bound(n as int, d as int);
    }
    if q >= 1 {
        assert(d * q >= 10 * q) by (nonlinear_arith)
            requires
                d >= 10,
                q >= 1,
        ;
    } else {
        assert(d * q == 0) by (nonlinear_arith)
            requires
                q == 0,
        ;
    }
}

impl Amount {
    /// Every amount is in range.
    #[verifier::type_invariant]
    pub open spec fn wf(self) -> bool {
        in_range(self@)
    }

    /// Two amounts that hold the same number of ten-thousandths are equal.
    pub proof fn lemma_view_injective(a: Amount, b: Amount)
        ensures
            (a@ == b@) == (a == b),
    {
    }

    /// No money.
    pub fn zero() -> (r: Amount)
        ensures
            r@ == 0,
    {
        Amount { units: 0 }
    }

    /// One whole unit of money.
    pub fn one() -> (r: Amount)
        ensures
            r@ == 10_000,
    {
        Amount { units: 10_000 }
    }

    /// Two whole units of money.
    pub fn two() -> (r: Amount)
        ensures
            r@ == 20_000,
    {
        Amount { units: 20_000 }
    }

    /// The largest amount.
    pub fn max_value() -> (r: Amount)
        ensures
            r@ == MAX_UNITS,
    {
        Amount { units: MAX_UNITS }
    }

    /// The amount `num / 10^scale`, rounded half to even to four fractional
    /// digits.
    pub fn new(num: i64, scale: u32) -> (r: Amount)
        requires
            scale <= MAX_SCALE,
        ensures
            r@ == units_of(num as int, scale as nat),
    {
        let units = scaled_units(num as i128, scale);
        proof {
            lemma_units_of_bound(num as int, scale as nat);
        }
        Amount { units }
    }

    /// The amount `mantissa / 10^scale`, rounded half to even to four
    /// fractional digits; `None` where no decimal has that mantissa and
    /// scale, or where the amount would be out of range.
    pub fn from_parts(mantissa: i128, scale: u32) -> (r: Option<Amount>)
        ensures
            match r {
                Some(a) => {
                    &&& representable(mantissa as int, scale as int)
                    &&& a@ == units_of(mantissa as int, scale as nat)
                    &&& a.wf()
                },
                None => {
                    ||| !representable(mantissa as int, scale as int)
                    ||| !in_range(units_of(mantissa as int, scale as nat))
                },
            },
    {
        if mantissa < -MAX_MANTISSA || mantissa > MAX_MANTISSA || scale > MAX_SCALE {
            return None;
        }
        let units = scaled_units(mantissa, scale);
        if units < -MAX_UNITS || units > MAX_UNITS {
            None
        } else {
            Some(Amount { units })
        }
    }

    /// The number of ten-thousandths held.
    pub fn mantissa(&self) -> (r: i128)
        ensures
            r == self@,
            in_range(r as int),
    {
        proof {
            use_type_invariant(self);
        }
        self.units
    }

    /// The number of fractional digits: always four.
    pub fn scale(&self) -> (r: u32)
        ensures
            r == SCALE,
    {
        SCALE
    }

    /// Whether the amount is below zero.
    pub fn is_sign_negative(&self) -> (r: bool)
        ensures
            r == (self@ < 0),
    {
        proof {
            use_type_invariant(self);
        }
        decimal_is_sign_negative(self.units, SCALE)
    }

    /// Whether the amount is greater than `other`.
    pub fn is_greater_than(&self, other: &Amount) -> (r: bool)
        ensures
            r == (self@ > other@),
    {
        proof {
            use_type_invariant(self);
            use_type_invariant(other);
        }
        decimal_gt(self.units, other.units, SCALE)
    }

    /// The exact sum of two amounts, or `None` where it is out of range.
    pub fn checked_add(self, other: Amount) -> (r: Option<Amount>)
        ensures
            match r {
                Some(sum) => sum@ == self@ + other@ && sum.wf(),
                None => !in_range(self@ + other@),
            },
    {
        proof {
            use_type_invariant(self);
            use_type_invariant(other);
        }
        match decimal_checked_add(self.units, other.units, SCALE) {
            Some((units, scale)) => {
                if scale == SCALE {
                    Some(Amount { units })
                } else {
                    None
                }
            },
            None => None,
        }
    }

    /// The sum of two amounts, where it is in range.
    pub fn plus(self, other: Amount) -> (r: Amount)
        requires
            in_range(self@ + other@),
        ensures
            r@ == self@ + other@,
    {
        proof {
            use_type_invariant(self);
            use_type_invariant(other);
        }
        let (units, _) = decimal_add(self.units, other.units, SCALE);
        Amount { units }
    }

    /// The difference of two amounts, where it is in range.
    pub fn minus(self, other: Amount) -> (r: Amount)
        requires
            in_range(self@ - other@),
        ensures
            r@ == self@ - other@,
    {
        proof {
            use_type_invariant(self);
            use_type_invariant(other);
        }
        let (units, _) = decimal_sub(self.units, other.units, SCALE);
        Amount { units }
    }
}

/// Ten to the power `e`, for the few powers that scaling to four digits needs.
fn small_pow10(e: u32) -> (r: i128)
    requires
        e <= SCALE,
    ensures
        r == pow10(e as nat),
        1 <= r <= 10_000,
{
    proof {
        lemma_pow10_values();
    }
    if e == 0 {
        1
    } else if e == 1 {
        10
    } else if e == 2 {
        100
    } else if e == 3 {
        1_000
    } else {
        10_000
    }
}

/// The number of ten-thousandths in a decimal, rounded by `rust_decimal`
/// where the decimal has more than four fractional digits.
fn scaled_units(mantissa: i128, scale: u32) -> (r: i128)
    requires
        representable(mantissa as int, scale as int),
    ensures
        r == units_of(mantissa as int, scale as nat),
{
    let (rounded, digits) = decimal_round_dp(mantissa, scale, SCALE);
    if digits < SCALE {
        let factor = small_pow10(SCALE - digits);
        assert(-MAX_MANTISSA * 10_000 <= rounded * factor <= MAX_MANTISSA * 10_000)
            by (nonlinear_arith)
            requires
                -MAX_MANTISSA <= rounded <= MAX_MANTISSA,
                1 <= factor <= 10_000,
        ;
        rounded * factor
    } else {
        rounded
    }
}

/// A mantissa of 64 bits gives an amount that is in range, whatever its scale.
pub proof fn lemma_units_of_bound(num: int, scale: nat)
    requires
        i64::MIN <= num <= i64::MAX,
    ensures
        in_range(units_of(num, scale)),
{
    if scale < SCALE {
        lemma_pow10_values();
        let factor = pow10((SCALE - scale) as nat);
        assert(1 <= factor <= 10_000);
        assert(i64::MIN * 10_000 <= num * factor <= i64::MAX * 10_000) by (nonlinear_arith)
            requires
                i64::MIN <= num <= i64::MAX,
                1 <= factor <= 10_000,
        ;
    } else if scale > SCALE {
        let d = pow10((scale - SCALE) as nat);
        lemma_pow10_at_least_ten((scale - SCALE) as nat);
        if num >= 0 {
            lemma_round_half_even_bound(num as nat, d);
        } else {
            lemma_round_half_even_bound((-num) as nat, d);
        }
    }
}

} // verus!
