//! Equality of points up to a tolerance.
//!
//! Two tests are offered. The absolute one asks that the points differ by
//! no more than a tolerance on each axis. The relative one also accepts a
//! difference that is small against the larger of the two coordinates.

use vstd::prelude::*;
use crate::fixed::{magnitude, ONE};
use crate::point::Point;

verus! {

/// Whether `a` and `b` differ by no more than `epsilon`.
pub open spec fn close(a: int, b: int, epsilon: int) -> bool {
    magnitude(a - b) <= epsilon
}

/// The larger of the magnitudes of `a` and `b`.
pub open spec fn largest(a: int, b: int) -> int {
    if magnitude(b) > magnitude(a) {
        magnitude(b)
    } else {
        magnitude(a)
    }
}

/// Whether `a` and `b` are equal, or differ by no more than `epsilon`, or
/// differ by no more than the share `max_relative` of the larger of their
/// magnitudes.
pub open spec fn relatively_close(a: int, b: int, epsilon: int, max_relative: int) -> bool {
    ||| a == b
    ||| close(a, b, epsilon)
    ||| magnitude(a - b) * ONE <= largest(a, b) * max_relative
}

/// `<i64 as approx::AbsDiffEq>::abs_diff_eq`, which subtracts `b` from `a`
/// in `i64`, takes the absolute value of the difference and compares it
/// with `epsilon`. The difference must be an `i64` that has an absolute
/// value; the result is then whether that absolute value is at most
/// `epsilon`.
#[verifier::external_body]
fn within(a: i64, b: i64, epsilon: i64) -> (r: bool)
    requires
        i64::MIN < a - b <= i64::MAX,
    ensures
        r == close(a as int, b as int, epsilon as int),
{
    approx::AbsDiffEq::abs_diff_eq(&a, &b, epsilon)
}

/// The absolute test on one axis.
fn axis_abs_diff_eq(a: i64, b: i64, epsilon: i64) -> (r: bool)
    ensures
        r == close(a as int, b as int, epsilon as int),
{
    match a.checked_sub(b) {
        Some(difference) => {
            if difference == i64::MIN {
                false
            } else {
                within(a, b, epsilon)
            }
        },
        None => false,
    }
}

/// The magnitude of a scalar, which may be one more than a scalar holds.
fn wide_magnitude(v: i128) -> (r: i128)
    requires
        v != i128::MIN,
    ensures
        r == magnitude(v as int),
{
    if v < 0 {
        -v
    } else {
        v
    }
}

/// The relative test on one axis.
fn axis_relative_eq(a: i64, b: i64, epsilon: i64, max_relative: i64) -> (r: bool)
    ensures
        r == relatively_close(a as int, b as int, epsilon as int, max_relative as int),
{
    if a == b {
        return true;
    }
    if axis_abs_diff_eq(a, b, epsilon) {
        return true;
    }
    let apart: i128 = wide_magnitude(a as i128 - b as i128);
    let size_a: i128 = wide_magnitude(a as i128);
    let size_b: i128 = wide_magnitude(b as i128);
    let size: i128 = if size_b > size_a {
        size_b
    } else {
        size_a
    };
    assert(size * max_relative <= 0x4000_0000_0000_0000_0000_0000_0000_0000
        && size * max_relative >= -0x4000_0000_0000_0000_0000_0000_0000_0000) by (nonlinear_arith)
        requires
            0 <= size <= 0x8000_0000_0000_0000,
            -0x8000_0000_0000_0000 <= max_relative <= 0x7fff_ffff_ffff_ffff,
    ;
    apart * (ONE as i128) <= size * (max_relative as i128)
}

impl Point {
    /// The tolerance of the absolute test where none is given: one unit,
    /// the gap between one and the next scalar above it.
    pub fn default_epsilon() -> (r: i64)
        ensures
            r == 1,
    {
        1
    }

    /// The share of the relative test where none is given: one, under
    /// which any two coordinates of the same sign pass.
    pub fn default_max_relative() -> (r: i64)
        ensures
            r == ONE,
    {
        ONE
    }

    /// Whether `self` and `other` differ by no more than `epsilon` on each
    /// axis.
    pub open spec fn abs_diff_eq_spec(self, other: Point, epsilon: i64) -> bool {
        &&& close(self.x as int, other.x as int, epsilon as int)
        &&& close(self.y as int, other.y as int, epsilon as int)
    }

    /// Whether `self` and `other` pass the relative test on each axis.
    pub open spec fn relative_eq_spec(self, other: Point, epsilon: i64, max_relative: i64)
        -> bool {
        &&& relatively_close(
            self.x as int,
            other.x as int,
            epsilon as int,
            max_relative as int,
        )
        &&& relatively_close(
            self.y as int,
            other.y as int,
            epsilon as int,
            max_relative as int,
        )
    }

    /// The absolute test: `|x1 - x2| <= epsilon` and `|y1 - y2| <= epsilon`.
    pub fn abs_diff_eq(&self, other: &Point, epsilon: i64) -> (r: bool)
        ensures
            r == self.abs_diff_eq_spec(*other, epsilon),
    {
        axis_abs_diff_eq(self.x, other.x, epsilon) && axis_abs_diff_eq(self.y, other.y, epsilon)
    }

    /// The relative test, on each axis: the coordinates are equal, or pass
    /// the absolute test, or differ by no more than `max_relative` times
    /// the larger of their magnitudes.
    pub fn relative_eq(&self, other: &Point, epsilon: i64, max_relative: i64) -> (r: bool)
        ensures
            r == self.relative_eq_spec(*other, epsilon, max_relative),
    {
        axis_relative_eq(self.x, other.x, epsilon, max_relative) && axis_relative_eq(
            self.y,
            other.y,
            epsilon,
            max_relative,
        )
    }
}

} // verus!
