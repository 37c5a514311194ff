//! Arithmetic on real numbers held as integers in millionths.
//!
//! A product or a quotient of two such numbers is rounded down to the
//! millionth below it and held within 64 bits.

use vstd::arithmetic::div_mod::{
    lemma_div_is_ordered, lemma_fundamental_div_mod, lemma_fundamental_div_mod_converse,
};
use vstd::arithmetic::mul::lemma_mul_inequality;
use vstd::prelude::*;

verus! {

/// The number one, in millionths.
pub const UNIT: i64 = 1_000_000;

/// `value`, held between `low` and `high`.
pub open spec fn held_between(value: int, low: int, high: int) -> int {
    if value < low {
        low
    } else if value > high {
        high
    } else {
        value
    }
}

/// `value`, held within the numbers of 64 bits.
pub open spec fn saturated(value: int) -> int {
    if value < i64::MIN {
        i64::MIN as int
    } else if value > i64::MAX {
        i64::MAX as int
    } else {
        value
    }
}

/// The whole number at or below `numerator / denominator`, where the
/// denominator is not zero.
pub open spec fn floor_quotient(numerator: int, denominator: int) -> int {
    if denominator > 0 {
        numerator / denominator
    } else {
        (-numerator) / (-denominator)
    }
}

/// The whole number nearest to `numerator / denominator`, halves going away
/// from zero, where the denominator is not zero.
pub open spec fn rounded_quotient(numerator: int, denominator: int) -> int {
    let (n, d) = if denominator > 0 {
        (numerator, denominator)
    } else {
        (-numerator, -denominator)
    };
    if n >= 0 {
        if 2 * (n % d) >= d {
            n / d + 1
        } else {
            n / d
        }
    } else {
        if 2 * ((-n) % d) >= d {
            -((-n) / d) - 1
        } else {
            -((-n) / d)
        }
    }
}

/// The product of two numbers in millionths, in millionths: rounded down
/// and held within 64 bits.
pub open spec fn times(x: int, y: int) -> int {
    saturated((x * y) / (UNIT as int))
}

/// The product of two numbers of 64 bits.
pub fn product(x: i64, y: i64) -> (result: i128)
    ensures
        result == x * y,
        -0x4000_0000_0000_0000_0000_0000_0000_0000 <= result
            <= 0x4000_0000_0000_0000_0000_0000_0000_0000,
{
    assert(-0x4000_0000_0000_0000_0000_0000_0000_0000 <= x * y
        <= 0x4000_0000_0000_0000_0000_0000_0000_0000) by (nonlinear_arith)
        requires
            -0x8000_0000_0000_0000 <= x <= 0x8000_0000_0000_0000,
            -0x8000_0000_0000_0000 <= y <= 0x8000_0000_0000_0000,
    ;
    (x as i128) * (y as i128)
}

/// `value`, held within the numbers of 64 bits.
pub fn saturate(value: i128) -> (result: i64)
    ensures
        result == saturated(value as int),
{
    if value < i64::MIN as i128 {
        i64::MIN
    } else if value > i64::MAX as i128 {
        i64::MAX
    } else {
        value as i64
    }
}

/// The whole number at or below `numerator / denominator`.
pub fn floor_div(numerator: i128, denominator: i128) -> (result: i128)
    requires
        denominator != 0,
        numerator > i128::MIN,
        denominator > i128::MIN,
    ensures
        result == floor_quotient(numerator as int, denominator as int),
{
    let (n, d) = if denominator > 0 {
        (numerator, denominator)
    } else {
        (-numerator, -denominator)
    };
    let quotient = n / d;
    let rest = n % d;
    proof {
        if n < 0 {
            lemma_fundamental_div_mod(-n as int, d as int);
            let up = (-n) as int / d as int;
            let over = (-n) as int % d as int;
            if over == 0 {
                assert((-up) * d == -(up * d)) by (nonlinear_arith);
                lemma_fundamental_div_mod_converse(n as int, d as int, -up, 0);
            } else {
                assert((-up - 1) * d == -(up * d) - d) by (nonlinear_arith);
                lemma_fundamental_div_mod_converse(n as int, d as int, -up - 1, d - over);
            }
        }
    }
    if rest < 0 {
        quotient - 1
    } else {
        quotient
    }
}

/// The whole number nearest to `numerator / denominator`.
pub fn round_div(numerator: i128, denominator: i128) -> (result: i128)
    requires
        denominator != 0,
        -0x4000_0000_0000_0000_0000_0000_0000_0000 <= numerator
            <= 0x4000_0000_0000_0000_0000_0000_0000_0000,
        -0x4000_0000_0000_0000_0000_0000_0000_0000 <= denominator
            <= 0x4000_0000_0000_0000_0000_0000_0000_0000,
    ensures
        result == rounded_quotient(numerator as int, denominator as int),
{
    let (n, d) = if denominator > 0 {
        (numerator, denominator)
    } else {
        (-numerator, -denominator)
    };
    let quotient = n / d;
    let rest = n % d;
    if n >= 0 {
        if rest >= d - rest {
            quotient + 1
        } else {
            quotient
        }
    } else {
        if -rest >= d + rest {
            quotient - 1
        } else {
            quotient
        }
    }
}

/// The product of two numbers in millionths.
pub fn multiply(x: i64, y: i64) -> (result: i64)
    ensures
        result == times(x as int, y as int),
{
    saturate(floor_div(product(x, y), UNIT as i128))
}

/// A number that is not negative, multiplied by more, gives no less.
pub proof fn times_grows(x: int, less: int, more: int)
    requires
        x >= 0,
        less <= more,
    ensures
        times(x, less) <= times(x, more),
{
    lemma_mul_inequality(less, more, x);
    lemma_div_is_ordered(x * less, x * more, UNIT as int);
}

/// No less, multiplied by a number that is not negative, gives no less.
pub proof fn times_grows_left(less: int, more: int, y: int)
    requires
        less <= more,
        y >= 0,
    ensures
        times(less, y) <= times(more, y),
{
    lemma_mul_inequality(less, more, y);
}

/// A number that is not negative, multiplied by a number that is not
/// negative, is not negative.
pub proof fn times_is_not_negative(x: int, y: int)
    requires
        x >= 0,
        y >= 0,
    ensures
        times(x, y) >= 0,
{
}

} // verus!
