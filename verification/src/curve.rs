//! Points along a line segment and along a circular arc.
//!
//! A segment leaves its origin in a given direction and has a given
//! length; an arc sweeps from one angle to another round a centre. Both
//! are walked by a parameter `t`: zero is the start, one the end, and any
//! other value is taken as it comes, so that curves extend past both ends.

use vstd::prelude::*;
use crate::fixed::{
    lemma_product_additive, lemma_product_share, lemma_product_units, narrow, product, saturate,
    times, wide_product, ONE,
};
use crate::point::{Direction, Point};

verus! {

/// How far a length reaches along one axis, given the direction's
/// component on that axis.
pub open spec fn extent(length: int, component: int) -> int {
    saturate(product(length, component))
}

/// One coordinate of the point at `t` on the segment: the origin's
/// coordinate plus the share `t` of the segment's extent on that axis.
pub open spec fn line_coordinate(origin: int, component: int, distance: int, t: int) -> int {
    saturate(origin + product(extent(distance, component), t))
}

/// One coordinate of the point of a circle that lies in a given direction
/// from its centre.
pub open spec fn circle_coordinate(center: int, component: int, radius: int) -> int {
    saturate(center + extent(radius, component))
}

/// The angle at `t` of a sweep from `angle_start` to `angle_stop`: linear
/// in `t`, following the sign of the difference.
pub open spec fn sweep(angle_start: int, angle_stop: int, t: int) -> int {
    saturate(angle_start + product(angle_stop - angle_start, t))
}

/// The point at `t` on the segment of length `distance` that leaves
/// `origin` in `direction`.
pub open spec fn line_point_spec(origin: Point, direction: Direction, distance: i64, t: i64)
    -> Point {
    Point {
        x: line_coordinate(origin.x as int, direction.cos as int, distance as int, t as int) as i64,
        y: line_coordinate(origin.y as int, direction.sin as int, distance as int, t as int) as i64,
    }
}

/// The point of the circle of the given radius round `center` that lies
/// in `direction` from it.
pub open spec fn arc_point_spec(center: Point, radius: i64, direction: Direction) -> Point {
    Point {
        x: circle_coordinate(center.x as int, direction.cos as int, radius as int) as i64,
        y: circle_coordinate(center.y as int, direction.sin as int, radius as int) as i64,
    }
}

/// Whether `v` lies between `a` and `b`, whichever of the two is the
/// smaller.
pub open spec fn between(a: int, v: int, b: int) -> bool {
    (a <= v <= b) || (b <= v <= a)
}

/// Whether the point at `t` is reached without either coordinate being
/// held back at an end of the scalar range.
pub open spec fn unsaturated(origin: Point, direction: Direction, distance: i64, t: i64) -> bool {
    &&& i64::MIN <= origin.x + product(extent(distance as int, direction.cos as int), t as int)
        <= i64::MAX
    &&& i64::MIN <= origin.y + product(extent(distance as int, direction.sin as int), t as int)
        <= i64::MAX
}

/// One coordinate of a point on a segment.
fn line_axis(origin: i64, component: i64, distance: i64, t: i64) -> (r: i64)
    ensures
        r == line_coordinate(origin as int, component as int, distance as int, t as int),
{
    let reach: i64 = times(distance, component);
    let step: i128 = wide_product(reach as i128, t);
    narrow(origin as i128 + step)
}

/// The point at `t` on the segment of length `distance` that leaves
/// `origin` in `direction`: `origin + t * distance * (cos, sin)`.
pub fn line_point(origin: &Point, direction: &Direction, distance: i64, t: i64) -> (r: Point)
    ensures
        r == line_point_spec(*origin, *direction, distance, t),
        t == 0 ==> r == *origin,
        t == ONE ==> r == arc_point_spec(*origin, distance, *direction),
        distance == 0 ==> r == *origin,
        0 <= t <= ONE ==> {
            let far = arc_point_spec(*origin, distance, *direction);
            &&& between(origin.x as int, r.x as int, far.x as int)
            &&& between(origin.y as int, r.y as int, far.y as int)
        },
{
    proof {
        lemma_line_ends(origin.x, direction.cos, distance, t);
        lemma_line_ends(origin.y, direction.sin, distance, t);
        if 0 <= t <= ONE {
            lemma_line_between(origin.x, direction.cos, distance, t);
            lemma_line_between(origin.y, direction.sin, distance, t);
        }
    }
    Point {
        x: line_axis(origin.x, direction.cos, distance, t),
        y: line_axis(origin.y, direction.sin, distance, t),
    }
}

/// The angle at `t` of the arc that sweeps from `angle_start` to
/// `angle_stop`: `angle_start + t * (angle_stop - angle_start)`.
pub fn arc_angle(angle_start: i64, angle_stop: i64, t: i64) -> (r: i64)
    ensures
        r == sweep(angle_start as int, angle_stop as int, t as int),
        t == 0 ==> r == angle_start,
        t == ONE ==> r == angle_stop,
        0 <= t <= ONE ==> between(angle_start as int, r as int, angle_stop as int),
{
    proof {
        lemma_sweep_ends(angle_start, angle_stop);
        if 0 <= t <= ONE {
            lemma_sweep_between(angle_start, angle_stop, t);
        }
    }
    let turn: i128 = angle_stop as i128 - angle_start as i128;
    let step: i128 = wide_product(turn, t);
    narrow(angle_start as i128 + step)
}

/// The point of the circle of the given radius round `center` that lies
/// in `direction` from it: `center + radius * (cos, sin)`.
pub fn arc_point(center: &Point, radius: i64, direction: &Direction) -> (r: Point)
    ensures
        r == arc_point_spec(*center, radius, *direction),
{
    Point {
        x: narrow(center.x as i128 + times(radius, direction.cos) as i128),
        y: narrow(center.y as i128 + times(radius, direction.sin) as i128),
    }
}

/// A segment starts at its origin, ends where the circle of its length
/// round the origin meets its direction, and has no other point when its
/// length is zero.
pub proof fn lemma_line_ends(origin: i64, component: i64, distance: i64, t: i64)
    ensures
        line_coordinate(origin as int, component as int, distance as int, 0) == origin,
        line_coordinate(origin as int, component as int, distance as int, ONE as int)
            == circle_coordinate(origin as int, component as int, distance as int),
        line_coordinate(origin as int, component as int, 0, t as int) == origin,
{
    lemma_product_units(extent(distance as int, component as int));
    lemma_product_units(component as int);
    lemma_product_units(t as int);
}

/// While `t` runs from zero to one, a coordinate of the segment stays
/// between those of its two ends.
pub proof fn lemma_line_between(origin: i64, component: i64, distance: i64, t: i64)
    requires
        0 <= t <= ONE,
    ensures
        between(
            origin as int,
            line_coordinate(origin as int, component as int, distance as int, t as int),
            circle_coordinate(origin as int, component as int, distance as int),
        ),
{
    lemma_product_share(extent(distance as int, component as int), t as int);
}

/// While `t` runs from zero to one, the angle of a sweep stays between
/// its start and its stop.
pub proof fn lemma_sweep_between(angle_start: i64, angle_stop: i64, t: i64)
    requires
        0 <= t <= ONE,
    ensures
        between(
            angle_start as int,
            sweep(angle_start as int, angle_stop as int, t as int),
            angle_stop as int,
        ),
{
    lemma_product_share(angle_stop - angle_start, t as int);
}

/// A sweep starts at its start angle and ends at its stop angle.
pub proof fn lemma_sweep_ends(angle_start: i64, angle_stop: i64)
    ensures
        sweep(angle_start as int, angle_stop as int, 0) == angle_start,
        sweep(angle_start as int, angle_stop as int, ONE as int) == angle_stop,
{
    lemma_product_units(angle_stop - angle_start);
}

/// The displacement from the origin is additive in `t` up to one unit of
/// rounding: wherever none of the three points is held back at the end of
/// the scalar range, the displacement at `t1 + t2` is the sum of those at
/// `t1` and at `t2`, or one unit more.
pub proof fn lemma_line_point_additive(
    origin: Point,
    direction: Direction,
    distance: i64,
    t1: i64,
    t2: i64,
)
    requires
        i64::MIN <= t1 + t2 <= i64::MAX,
        unsaturated(origin, direction, distance, t1),
        unsaturated(origin, direction, distance, t2),
        unsaturated(origin, direction, distance, (t1 + t2) as i64),
    ensures
        ({
            let whole = line_point_spec(origin, direction, distance, (t1 + t2) as i64);
            let first = line_point_spec(origin, direction, distance, t1);
            let second = line_point_spec(origin, direction, distance, t2);
            &&& 0 <= (whole.x - origin.x) - ((first.x - origin.x) + (second.x - origin.x)) <= 1
            &&& 0 <= (whole.y - origin.y) - ((first.y - origin.y) + (second.y - origin.y)) <= 1
        }),
{
    lemma_product_additive(extent(distance as int, direction.cos as int), t1 as int, t2 as int);
    lemma_product_additive(extent(distance as int, direction.sin as int), t1 as int, t2 as int);
}

} // verus!
