//! Fixed-point quantities.
//!
//! A vertical position is a whole number of thousandths of a screen row, a
//! vertical speed a whole number of thousandths of a row per physics step,
//! and a duration a whole number of microseconds, all held in an `i64`. Every
//! constant of the game (0.2, 1.0, 2.0, 25.0 rows, 75.0 ms) is exact in this
//! form, so the physics is exact decimal arithmetic.

use vstd::prelude::*;

verus! {

/// Number of fixed-point steps in one whole row or one millisecond.
pub const UNIT: i64 = 1_000;

/// The quotient of `a` by a positive `d`, rounded toward zero.
pub open spec fn quotient_toward_zero(a: int, d: int) -> int {
    if a >= 0 {
        a / d
    } else {
        -((-a) / d)
    }
}

/// The whole number that a fixed-point value shows once its fraction is
/// discarded toward zero, held to the range of an `i32`.
pub open spec fn whole_part(v: int) -> int {
    let q = quotient_toward_zero(v, UNIT as int);
    if q < i32::MIN {
        i32::MIN as int
    } else if q > i32::MAX {
        i32::MAX as int
    } else {
        q
    }
}

/// The fixed-point value of a whole number.
pub fn from_whole(whole: i32) -> (v: i64)
    ensures
        v == whole * UNIT,
        whole_part(v as int) == whole,
{
    (whole as i64) * UNIT
}

/// Discards the fraction of a fixed-point value, toward zero; a value beyond
/// the range of an `i32` gives the nearest end of that range.
pub fn truncate(v: i64) -> (whole: i32)
    ensures
        whole == whole_part(v as int),
{
    let q: i64 = v / UNIT;
    if q < i32::MIN as i64 {
        i32::MIN
    } else if q > i32::MAX as i64 {
        i32::MAX
    } else {
        q as i32
    }
}

} // verus!
