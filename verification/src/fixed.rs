//! Fixed-point numbers.
//!
//! Every length, position, speed and duration of the simulation is a signed
//! 64-bit count of thousandths: `UNIT` stands for one world unit, one unit
//! per second, or one second. Arithmetic saturates at the ends of the 64-bit
//! range, so every operation is total.

use vstd::prelude::*;

verus! {

/// A fixed-point number: a count of thousandths.
pub type Fixed = i64;

/// The fixed-point representation of one.
pub const UNIT: Fixed = 1000;

/// The nearest representable value to `v`.
pub open spec fn clamp(v: int) -> int {
    if v < i64::MIN {
        i64::MIN as int
    } else if v > i64::MAX {
        i64::MAX as int
    } else {
        v
    }
}

/// Quotient of `a` by a positive `b`, rounded toward zero.
pub open spec fn trunc_div(a: int, b: int) -> int
    recommends
        b > 0,
{
    if a >= 0 {
        a / b
    } else {
        -((-a) / b)
    }
}

/// Remainder of `a` by a positive `b` that goes with `trunc_div`: it has the
/// sign of `a`.
pub open spec fn trunc_rem(a: int, b: int) -> int
    recommends
        b > 0,
{
    if a >= 0 {
        a % b
    } else {
        -((-a) % b)
    }
}

/// The sign of `v` as used when stepping: zero has no direction.
pub open spec fn direction(v: int) -> int {
    if v > 0 {
        1
    } else if v < 0 {
        -1
    } else {
        0
    }
}

/// The sign of `v` as used when comparing headings: zero counts as
/// positive.
pub open spec fn heading(v: int) -> int {
    if v >= 0 {
        1
    } else {
        -1
    }
}

/// The fixed-point product of two fixed-point numbers, before saturation.
pub open spec fn scaled_product(a: int, b: int) -> int {
    trunc_div(a * b, UNIT as int)
}

/// `a + b`, saturated.
pub open spec fn plus(a: Fixed, b: Fixed) -> Fixed {
    clamp(a + b) as Fixed
}

/// `a - b`, saturated.
pub open spec fn minus(a: Fixed, b: Fixed) -> Fixed {
    clamp(a - b) as Fixed
}

/// `-a`, saturated.
pub open spec fn opposite(a: Fixed) -> Fixed {
    clamp(-a) as Fixed
}

/// The fixed-point product of `a` and `b`, rounded toward zero and
/// saturated.
pub open spec fn times(a: Fixed, b: Fixed) -> Fixed {
    clamp(scaled_product(a as int, b as int)) as Fixed
}

/// Half of `a`, rounded toward zero.
pub open spec fn half_of(a: Fixed) -> Fixed {
    trunc_div(a as int, 2) as Fixed
}

/// A quarter of `a`, rounded toward zero.
pub open spec fn quarter_of(a: Fixed) -> Fixed {
    trunc_div(a as int, 4) as Fixed
}

/// The magnitude of `a`, saturated.
pub open spec fn magnitude_of(a: Fixed) -> Fixed {
    if a >= 0 {
        a
    } else {
        opposite(a)
    }
}

/// `a + b`, saturating.
pub fn sum(a: Fixed, b: Fixed) -> (r: Fixed)
    ensures
        r == plus(a, b),
{
    match a.checked_add(b) {
        Some(r) => r,
        None => if b > 0 {
            i64::MAX
        } else {
            i64::MIN
        },
    }
}

/// `a - b`, saturating.
pub fn difference(a: Fixed, b: Fixed) -> (r: Fixed)
    ensures
        r == minus(a, b),
{
    match a.checked_sub(b) {
        Some(r) => r,
        None => if b < 0 {
            i64::MAX
        } else {
            i64::MIN
        },
    }
}

/// `-a`, saturating.
pub fn negated(a: Fixed) -> (r: Fixed)
    ensures
        r == opposite(a),
{
    if a == i64::MIN {
        i64::MAX
    } else {
        -a
    }
}

/// The fixed-point product `a * b`, rounded toward zero and saturating.
pub fn product(a: Fixed, b: Fixed) -> (r: Fixed)
    ensures
        r == times(a, b),
{
    let wide_a: i128 = a as i128;
    let wide_b: i128 = b as i128;
    assert(-0x4000_0000_0000_0000_0000_0000_0000_0000 <= wide_a * wide_b
        <= 0x4000_0000_0000_0000_0000_0000_0000_0000) by (nonlinear_arith)
        requires
            -0x8000_0000_0000_0000 <= wide_a <= 0x8000_0000_0000_0000,
            -0x8000_0000_0000_0000 <= wide_b <= 0x8000_0000_0000_0000,
    ;
    let wide: i128 = wide_a * wide_b;
    let quotient: i128 = if wide >= 0 {
        wide / 1000
    } else {
        -((-wide) / 1000)
    };
    if quotient > i64::MAX as i128 {
        i64::MAX
    } else if quotient < i64::MIN as i128 {
        i64::MIN
    } else {
        quotient as i64
    }
}

/// Half of `a`, rounded toward zero.
pub fn half(a: Fixed) -> (r: Fixed)
    ensures
        r == half_of(a),
{
    if a >= 0 {
        a / 2
    } else if a == i64::MIN {
        i64::MIN / 2
    } else {
        -((-a) / 2)
    }
}

/// A quarter of `a`, rounded toward zero.
pub fn quarter(a: Fixed) -> (r: Fixed)
    ensures
        r == quarter_of(a),
{
    if a >= 0 {
        a / 4
    } else if a == i64::MIN {
        i64::MIN / 4
    } else {
        -((-a) / 4)
    }
}

/// The magnitude of `a`, saturating.
pub fn magnitude(a: Fixed) -> (r: Fixed)
    ensures
        r == magnitude_of(a),
{
    if a >= 0 {
        a
    } else {
        negated(a)
    }
}

/// The number of whole units in the magnitude of `a`.
pub fn whole_units(a: Fixed) -> (n: u64)
    ensures
        n == trunc_div(if a >= 0 { a as int } else { -(a as int) }, UNIT as int),
{
    let magnitude: i128 = if a >= 0 {
        a as i128
    } else {
        -(a as i128)
    };
    (magnitude / 1000) as u64
}

/// What is left of `a` once its whole units are taken away; it has the sign
/// of `a`.
pub fn fraction(a: Fixed) -> (r: Fixed)
    ensures
        r == trunc_rem(a as int, UNIT as int),
        -UNIT < r < UNIT,
{
    let magnitude: i128 = if a >= 0 {
        a as i128
    } else {
        -(a as i128)
    };
    let rest: i128 = magnitude % 1000;
    if a >= 0 {
        rest as i64
    } else {
        -(rest as i64)
    }
}

/// One signed unit in the direction of `a`, or zero when `a` is zero.
pub fn unit_step(a: Fixed) -> (r: Fixed)
    ensures
        r == direction(a as int) * UNIT,
{
    if a > 0 {
        UNIT
    } else if a < 0 {
        -UNIT
    } else {
        0
    }
}

} // verus!
