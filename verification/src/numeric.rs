//! Integer helpers shared by the racket and ball rules: clamping,
//! saturation and the distance covered in a frame.

use core::cmp::Ordering;
use vstd::prelude::*;
use vstd::std_specs::cmp::PartialOrdSpec;
use crate::units::TICKS_PER_SECOND;

verus! {

/// `val` limited to the range from `min` to `max`, by the order of `T`.
///
/// The lower limit is tested first, so when the range is inverted
/// (`min > max`) every value below `min` becomes `min` and every other
/// value becomes `max`.
pub open spec fn clamped<T: PartialOrd>(val: T, min: T, max: T) -> T {
    if val.partial_cmp_spec(&min) == Some(Ordering::Less) {
        min
    } else if val.partial_cmp_spec(&max) == Some(Ordering::Greater) {
        max
    } else {
        val
    }
}

/// [`clamped`] on mathematical integers.
pub open spec fn clamped_int(val: int, min: int, max: int) -> int {
    if val < min {
        min
    } else if val > max {
        max
    } else {
        val
    }
}

/// `v` brought into the range of `i64`: the nearest representable value.
pub open spec fn saturated(v: int) -> int {
    clamped_int(v, i64::MIN as int, i64::MAX as int)
}

/// The absolute value of `v`.
pub open spec fn magnitude(v: int) -> int {
    if v < 0 {
        -v
    } else {
        v
    }
}

/// The distance covered in `dt` ticks at `speed` units per second taken at
/// `percent` per cent, rounded toward zero. It has the sign of `speed`.
pub open spec fn travel(speed: int, dt: nat, percent: nat) -> int {
    let covered = (magnitude(speed) * dt * percent) / (100 * TICKS_PER_SECOND as int);
    if speed < 0 {
        -covered
    } else {
        covered
    }
}

/// Where a coordinate `pos` stands after `dt` ticks at `speed` units per
/// second taken at `percent` per cent. Both the distance and the sum
/// saturate at the ends of the `i64` range.
pub open spec fn advanced(pos: int, speed: int, dt: nat, percent: nat) -> int {
    saturated(pos + saturated(travel(speed, dt, percent)))
}

/// Limits `val` to the range from `min` to `max`.
///
/// The result is [`clamped`] for every type whose order is known to obey
/// its specification, the integers among them.
pub fn clamp<T: PartialOrd>(val: T, min: T, max: T) -> (r: T)
    ensures
        T::obeys_partial_cmp_spec() ==> r == clamped(val, min, max),
{
    if val < min {
        min
    } else if val > max {
        max
    } else {
        val
    }
}

/// The sum of `a` and `b`, saturated.
pub fn saturating_sum(a: i64, b: i64) -> (r: i64)
    ensures
        r == saturated(a + b),
{
    match a.checked_add(b) {
        Some(sum) => sum,
        None => if b < 0 {
            i64::MIN
        } else {
            i64::MAX
        },
    }
}

/// The absolute value of `v`, saturated: `i64::MAX` for `i64::MIN`.
pub fn saturating_magnitude(v: i64) -> (r: i64)
    ensures
        r == saturated(magnitude(v as int)),
{
    if v == i64::MIN {
        i64::MAX
    } else if v < 0 {
        -v
    } else {
        v
    }
}

/// The distance covered in `dt` ticks at `speed` units per second taken at
/// `percent` per cent, saturated.
pub fn saturating_travel(speed: i64, dt: u64, percent: u64) -> (r: i64)
    ensures
        r == saturated(travel(speed as int, dt as nat, percent as nat)),
{
    let size: u64 = if speed >= 0 {
        speed as u64
    } else {
        (-(speed + 1)) as u64 + 1
    };
    assert(size * dt <= 0x8000_0000_0000_0000 * 0xffff_ffff_ffff_ffff) by (nonlinear_arith)
        requires
            size <= 0x8000_0000_0000_0000,
            dt <= 0xffff_ffff_ffff_ffff,
    ;
    let base: u128 = size as u128 * dt as u128;
    let divisor: u128 = 100 * TICKS_PER_SECOND as u128;
    let ghost exact: int = size * dt * percent;
    let covered: u128 = match base.checked_mul(percent as u128) {
        Some(scaled) => scaled / divisor,
        None => u128::MAX,
    };
    // Where the product does not fit in `u128`, the quotient is far beyond
    // `i64::MAX`, and so is the stand-in.
    assert(exact / 100_000_000 == covered || (exact / 100_000_000 > i64::MAX && covered
        > i64::MAX));
    if covered > i64::MAX as u128 {
        if speed < 0 {
            i64::MIN
        } else {
            i64::MAX
        }
    } else if speed < 0 {
        -(covered as i64)
    } else {
        covered as i64
    }
}

/// Where a coordinate `pos` stands after `dt` ticks at `speed` units per
/// second taken at `percent` per cent.
pub fn advance(pos: i64, speed: i64, dt: u64, percent: u64) -> (r: i64)
    ensures
        r == advanced(pos as int, speed as int, dt as nat, percent as nat),
{
    saturating_sum(pos, saturating_travel(speed, dt, percent))
}

} // verus!
