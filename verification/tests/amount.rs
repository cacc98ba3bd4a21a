use tx_engine::amount::Amount;

#[test]
fn named_amounts() {
    assert_eq!(Amount::zero().mantissa(), 0);
    assert_eq!(Amount::one().mantissa(), 10_000);
    assert_eq!(Amount::two().mantissa(), 20_000);
    assert_eq!(Amount::max_value().mantissa(), 79_228_162_514_264_337_593_543_950_335);
    assert_eq!(Amount::one().scale(), 4);
    assert_eq!(Amount::new(1, 0), Amount::one());
    assert_eq!(Amount::new(2, 0), Amount::two());
    assert_eq!(Amount::new(0, 7), Amount::zero());
}

#[test]
fn new_scales_to_four_fractional_digits() {
    assert_eq!(Amount::new(100, 1).mantissa(), 100_000);
    assert_eq!(Amount::new(12, 1).mantissa(), 12_000);
    assert_eq!(Amount::new(133, 2).mantissa(), 13_300);
    assert_eq!(Amount::new(1234, 3).mantissa(), 12_340);
    assert_eq!(Amount::new(12346, 4).mantissa(), 12_346);
    assert_eq!(Amount::new(-7, 0).mantissa(), -70_000);
    assert_eq!(Amount::new(100, 1), Amount::new(10, 0));
}

#[test]
fn new_rounds_half_to_even() {
    // A tie goes to the even neighbour.
    assert_eq!(Amount::new(123455, 5), Amount::new(12346, 4));
    assert_eq!(Amount::new(123465, 5), Amount::new(12346, 4));
    assert_eq!(Amount::new(25, 5).mantissa(), 2);
    assert_eq!(Amount::new(35, 5).mantissa(), 4);
    assert_eq!(Amount::new(5, 5).mantissa(), 0);
    assert_eq!(Amount::new(15, 5).mantissa(), 2);
    // Off a tie, the nearest wins.
    assert_eq!(Amount::new(123454, 5).mantissa(), 12_345);
    assert_eq!(Amount::new(123456, 5).mantissa(), 12_346);
    assert_eq!(Amount::new(1234549, 6).mantissa(), 12_345);
    assert_eq!(Amount::new(1234551, 6).mantissa(), 12_346);
    assert_eq!(Amount::new(1234650001, 9).mantissa(), 12_347);
    // The sign stays, and the magnitude is what is rounded.
    assert_eq!(Amount::new(-123455, 5).mantissa(), -12_346);
    assert_eq!(Amount::new(-123465, 5).mantissa(), -12_346);
    assert_eq!(Amount::new(-25, 5).mantissa(), -2);
    assert_eq!(Amount::new(-26, 5).mantissa(), -3);
    // The greatest scale.
    assert_eq!(Amount::new(i64::MAX, 28).mantissa(), 0);
    assert_eq!(Amount::new(i64::MAX, 18).mantissa(), 92_234);
    assert_eq!(Amount::new(i64::MIN, 18).mantissa(), -92_234);
    assert_eq!(Amount::new(i64::MAX, 0).mantissa(), 92_233_720_368_547_758_070_000);
}

#[test]
fn from_parts_takes_what_a_decimal_can_hold() {
    let max: i128 = 79_228_162_514_264_337_593_543_950_335;
    assert_eq!(Amount::from_parts(12, 1), Some(Amount::new(12, 1)));
    assert_eq!(Amount::from_parts(123455, 5), Some(Amount::new(12346, 4)));
    assert_eq!(Amount::from_parts(max, 4), Some(Amount::max_value()));
    assert_eq!(Amount::from_parts(-max, 4).map(|a| a.mantissa()), Some(-max));
    assert_eq!(Amount::from_parts(max, 5).map(|a| a.mantissa()), Some(max / 10 + 1));
    assert_eq!(Amount::from_parts(max, 28).map(|a| a.mantissa()), Some(79_228));
    assert_eq!(Amount::from_parts(7_922_816_251_426_433_759_354_395, 0).map(|a| a.mantissa()), Some(max - 335));
}

#[test]
fn from_parts_refuses_what_is_out_of_range() {
    let max: i128 = 79_228_162_514_264_337_593_543_950_335;
    // No decimal has such a mantissa or such a scale.
    assert_eq!(Amount::from_parts(max + 1, 4), None);
    assert_eq!(Amount::from_parts(-max - 1, 4), None);
    assert_eq!(Amount::from_parts(1, 29), None);
    assert_eq!(Amount::from_parts(i128::MAX, 0), None);
    assert_eq!(Amount::from_parts(i128::MIN, 0), None);
    // A decimal, but more ten-thousandths than an amount holds.
    assert_eq!(Amount::from_parts(max, 0), None);
    assert_eq!(Amount::from_parts(max, 3), None);
    assert_eq!(Amount::from_parts(7_922_816_251_426_433_759_354_396, 0), None);
    assert_eq!(Amount::from_parts(-7_922_816_251_426_433_759_354_396, 0), None);
}

#[test]
fn sign_and_order() {
    assert!(Amount::new(-1, 4).is_sign_negative());
    assert!(!Amount::zero().is_sign_negative());
    assert!(!Amount::new(1, 4).is_sign_negative());
    assert!(Amount::two().is_greater_than(&Amount::one()));
    assert!(!Amount::one().is_greater_than(&Amount::two()));
    assert!(!Amount::one().is_greater_than(&Amount::one()));
    assert!(Amount::zero().is_greater_than(&Amount::new(-1, 4)));
    assert!(Amount::new(-1, 4).is_greater_than(&Amount::new(-2, 4)));
    assert!(!Amount::new(-1, 0).is_greater_than(&Amount::new(1, 4)));
    assert!(Amount::max_value().is_greater_than(&Amount::new(i64::MAX, 0)));
}

#[test]
fn checked_add_is_exact_or_none() {
    let max = Amount::max_value();
    assert_eq!(Amount::one().checked_add(Amount::two()), Some(Amount::new(3, 0)));
    assert_eq!(Amount::new(15, 1).checked_add(Amount::new(-25, 1)), Some(Amount::new(-1, 0)));
    assert_eq!(Amount::zero().checked_add(max), Some(max));
    assert_eq!(max.checked_add(Amount::zero()), Some(max));
    assert_eq!(max.checked_add(Amount::new(-1, 4)).map(|a| a.mantissa()), Some(max.mantissa() - 1));
    // Past the range nothing is rounded: there is no sum.
    assert_eq!(max.checked_add(Amount::new(1, 4)), None);
    assert_eq!(max.checked_add(Amount::new(5, 4)), None);
    assert_eq!(max.checked_add(max), None);
    assert_eq!(Amount::one().checked_add(max), None);
    let min = Amount::from_parts(-max.mantissa(), 4).unwrap();
    assert_eq!(min.checked_add(Amount::new(-1, 4)), None);
    assert_eq!(min.checked_add(max), Some(Amount::zero()));
}

#[test]
fn plus_and_minus() {
    assert_eq!(Amount::new(12345, 4).plus(Amount::new(1, 4)), Amount::new(12346, 4));
    assert_eq!(Amount::one().plus(Amount::new(-3, 0)), Amount::new(-2, 0));
    assert_eq!(Amount::two().minus(Amount::one()), Amount::one());
    assert_eq!(Amount::one().minus(Amount::two()), Amount::new(-1, 0));
    assert_eq!(Amount::zero().minus(Amount::new(5, 1)), Amount::new(-5, 1));
    assert_eq!(Amount::max_value().minus(Amount::max_value()), Amount::zero());
    assert_eq!(
        Amount::max_value().minus(Amount::new(1, 4)).plus(Amount::new(1, 4)),
        Amount::max_value()
    );
    assert_eq!(
        Amount::new(i64::MAX, 4).plus(Amount::new(i64::MAX, 4)).mantissa(),
        2 * (i64::MAX as i128)
    );
}

const MAX: i128 = 79_228_162_514_264_337_593_543_950_335;

fn grid() -> Vec<i128> {
    let mut values = vec![0, 1, 2, 5, 9_999, 10_000, 10_001, 123_456_789];
    // Round the limits of 32, 64 and 96 bits, where the decimal arithmetic
    // changes its path.
    for bits in [31u32, 32, 33, 63, 64, 65, 95] {
        let p = 1i128 << bits;
        values.extend([p - 1, p, p + 1]);
    }
    values.extend([MAX / 2, MAX / 2 + 1, MAX - 10_000, MAX - 1, MAX]);
    let negatives: Vec<i128> = values.iter().map(|v| -v).collect();
    values.extend(negatives);
    values
}

fn amount(units: i128) -> Amount {
    Amount::from_parts(units, 4).unwrap()
}

#[test]
fn arithmetic_agrees_with_the_integers_on_a_grid() {
    let values = grid();
    for &a in &values {
        assert_eq!(amount(a).mantissa(), a);
        assert_eq!(amount(a).is_sign_negative(), a < 0);
        for &b in &values {
            let (x, y) = (amount(a), amount(b));
            assert_eq!(x.is_greater_than(&y), a > b, "{} > {}", a, b);
            let sum = a + b;
            if -MAX <= sum && sum <= MAX {
                assert_eq!(x.checked_add(y).map(|s| s.mantissa()), Some(sum), "{} + {}", a, b);
                assert_eq!(x.plus(y).mantissa(), sum, "{} + {}", a, b);
            } else {
                assert_eq!(x.checked_add(y), None, "{} + {}", a, b);
            }
            let difference = a - b;
            if -MAX <= difference && difference <= MAX {
                assert_eq!(x.minus(y).mantissa(), difference, "{} - {}", a, b);
            }
        }
    }
}

// The number of ten-thousandths in `mantissa / 10^scale`, rounded half to
// even, by integer arithmetic alone.
fn units(mantissa: i128, scale: u32) -> Option<i128> {
    if scale < 4 {
        return mantissa.checked_mul(10i128.pow(4 - scale));
    }
    let d = 10u128.pow(scale - 4);
    let n = mantissa.unsigned_abs();
    let (q, r) = (n / d, n % d);
    let up = 2 * r > d || (2 * r == d && q % 2 == 1);
    let rounded = (q + if up { 1 } else { 0 }) as i128;
    Some(if mantissa < 0 { -rounded } else { rounded })
}

#[test]
fn rounding_agrees_with_the_rule_on_a_grid() {
    let mut values = grid();
    // Ties and their neighbours at every scale.
    for scale in 5u32..=28 {
        let d = 10i128.pow(scale - 4);
        for q in [0i128, 1, 2, 3, 12_345, 12_346] {
            for off in [-1i128, 0, 1] {
                let v = q * d + d / 2 + off;
                if v <= MAX {
                    values.extend([v, -v]);
                }
            }
            values.extend([q * d, q * d + 1, -(q * d) - 1]);
        }
    }
    for &mantissa in &values {
        for scale in 0u32..=28 {
            let expected = units(mantissa, scale).filter(|u| -MAX <= *u && *u <= MAX);
            assert_eq!(
                Amount::from_parts(mantissa, scale).map(|a| a.mantissa()),
                expected,
                "{} at scale {}",
                mantissa,
                scale
            );
        }
    }
}

#[test]
fn new_agrees_with_the_rule_on_a_grid() {
    let values = [0i64, 1, -1, 5, -5, 15, 25, 35, 45, 55, 12_345, 123_455, 123_465, -123_455, i64::MAX, i64::MIN, i64::MAX - 1, i64::MIN + 1];
    for &num in &values {
        for scale in 0u32..=28 {
            assert_eq!(
                Some(Amount::new(num, scale).mantissa()),
                units(num as i128, scale),
                "{} at scale {}",
                num,
                scale
            );
        }
    }
}
