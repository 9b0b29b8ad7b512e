use parametric::curve::{arc_angle, arc_point};
use parametric::fixed::ONE;
use parametric::point::{Direction, Point};
use std::f64::consts::PI;

const HALF: i64 = ONE / 2;

fn fixed(v: f64) -> i64 {
    (v * 4294967296.0).round() as i64
}

fn float(v: i64) -> f64 {
    v as f64 / 4294967296.0
}

fn direction(angle: f64) -> Direction {
    Direction { cos: fixed(angle.cos()), sin: fixed(angle.sin()) }
}

fn point(x: f64, y: f64) -> Point {
    Point { x: fixed(x), y: fixed(y) }
}

fn arc(center: &Point, radius: f64, angle_start: f64, angle_stop: f64, t: f64) -> Point {
    let angle = arc_angle(fixed(angle_start), fixed(angle_stop), fixed(t));
    arc_point(center, fixed(radius), &direction(float(angle)))
}

fn assert_abs_diff_eq(left: Point, right: Point) {
    assert!(
        left.abs_diff_eq(&right, Point::default_epsilon()),
        "{:?} is not within the default tolerance of {:?}",
        left,
        right
    );
}

#[test]
fn half_circle_at_origin() {
    let arc_terminal_point = arc(&point(0., 0.), 1., 0., PI, 1.);
    assert_abs_diff_eq(arc_terminal_point, point(-1., 0.));
}

#[test]
fn half_circle_at_1_1() {
    let arc_terminal_point = arc(&point(1., 1.), 1., 0., PI, 1.);
    assert_abs_diff_eq(arc_terminal_point, point(0., 1.));
}

#[test]
fn half_circle_at_origin_halfway_point() {
    let arc_halfway_point = arc(&point(0., 0.), 1., 0., PI, 0.5);
    assert_abs_diff_eq(arc_halfway_point, point(0., 1.));
}

#[test]
fn half_circle_at_origin_radius_hal_half() {
    let arc_terminal_point = arc(&point(0., 0.), 0.5, 0., PI, 1.);
    assert_abs_diff_eq(arc_terminal_point, point(-0.5, 0.));
}

#[test]
fn arc_angle_exact_values() {
    // A quarter of the way from 2 to 10.
    assert_eq!(arc_angle(2 * ONE, 10 * ONE, ONE / 4), 4 * ONE);
    // Half of the way from 7 units to 100 units: 46.5 units rounded down.
    assert_eq!(arc_angle(7, 100, HALF), 53);
    // Half of the way from 100 units down to 7 units: -46.5 units rounded
    // down.
    assert_eq!(arc_angle(100, 7, HALF), 53);
    assert_eq!(arc_angle(fixed(PI), 0, HALF), 6746518852);
    assert_eq!(arc_angle(0, 13493037705, HALF), 6746518852);
}

#[test]
fn arc_angle_starts_at_the_start_angle() {
    let angles = [0, 1, -1, HALF, 13493037705, -13493037705, i64::MAX, i64::MIN];
    for angle_start in angles {
        for angle_stop in angles {
            assert_eq!(arc_angle(angle_start, angle_stop, 0), angle_start);
        }
    }
}

#[test]
fn arc_angle_ends_at_the_stop_angle() {
    let angles = [0, 1, -1, HALF, 13493037705, -13493037705, i64::MAX, i64::MIN];
    for angle_start in angles {
        for angle_stop in angles {
            assert_eq!(arc_angle(angle_start, angle_stop, ONE), angle_stop);
        }
    }
}

#[test]
fn arc_angle_follows_the_sign_of_the_difference() {
    assert_eq!(arc_angle(3 * ONE, ONE, HALF), 2 * ONE);
    assert_eq!(arc_angle(-ONE, -3 * ONE, ONE / 4), -3 * HALF);
    assert_eq!(arc_angle(ONE, -ONE, 3 * ONE / 4), -HALF);
}

#[test]
fn arc_angle_extends_past_both_ends() {
    assert_eq!(arc_angle(ONE, 2 * ONE, 3 * ONE), 4 * ONE);
    assert_eq!(arc_angle(ONE, 2 * ONE, -2 * ONE), -ONE);
    assert_eq!(arc_angle(2 * ONE, ONE, 2 * ONE), 0);
}

#[test]
fn arc_angle_stops_at_the_ends_of_the_range() {
    assert_eq!(arc_angle(0, i64::MAX, 2 * ONE), i64::MAX);
    assert_eq!(arc_angle(0, i64::MAX, -2 * ONE), i64::MIN);
    assert_eq!(arc_angle(i64::MIN, i64::MAX, i64::MAX), i64::MAX);
    assert_eq!(arc_angle(i64::MAX, i64::MIN, i64::MAX), i64::MIN);
    // The whole turn is wider than a scalar and still taken exactly.
    assert_eq!(arc_angle(i64::MIN, i64::MAX, HALF), -1);
    assert_eq!(arc_angle(i64::MAX, i64::MIN, HALF), -1);
}

#[test]
fn arc_angle_stays_between_its_ends() {
    let ends: [i64; 6] = [0, 7, -13493037705, 13493037705, i64::MIN, i64::MAX];
    for angle_start in ends {
        for angle_stop in ends {
            for t in [0, 1, ONE / 3, HALF, ONE - 1, ONE] {
                let angle = arc_angle(angle_start, angle_stop, t);
                assert!(angle_start.min(angle_stop) <= angle);
                assert!(angle <= angle_start.max(angle_stop));
            }
        }
    }
}

#[test]
fn arc_point_exact_values() {
    let center = Point { x: 2 * ONE, y: -ONE };
    assert_eq!(
        arc_point(&center, 3 * ONE, &Direction { cos: 0, sin: ONE }),
        Point { x: 2 * ONE, y: 2 * ONE }
    );
    assert_eq!(
        arc_point(&center, 3 * ONE, &Direction { cos: -ONE, sin: 0 }),
        Point { x: -ONE, y: -ONE }
    );
    assert_eq!(
        arc_point(&center, 4 * ONE, &Direction { cos: HALF, sin: -HALF }),
        Point { x: 4 * ONE, y: -3 * ONE }
    );
    // 3 units times one half: 1 unit one way, -2 units the other.
    assert_eq!(
        arc_point(&center, 3, &Direction { cos: HALF, sin: -HALF }),
        Point { x: 2 * ONE + 1, y: -ONE - 2 }
    );
}

#[test]
fn arc_point_of_zero_radius_is_the_center() {
    let center = Point { x: 9 * ONE, y: i64::MIN };
    assert_eq!(arc_point(&center, 0, &Direction { cos: i64::MAX, sin: i64::MIN }), center);
}

#[test]
fn arc_point_stops_at_the_ends_of_the_range() {
    let center = Point { x: i64::MAX - 1, y: i64::MIN + 1 };
    assert_eq!(
        arc_point(&center, ONE, &Direction { cos: ONE, sin: -ONE }),
        Point { x: i64::MAX, y: i64::MIN }
    );
    // The reach is held at the end of the range before the centre is added.
    let low = Point { x: i64::MIN, y: i64::MAX };
    assert_eq!(
        arc_point(&low, i64::MAX, &Direction { cos: 2 * ONE, sin: -2 * ONE }),
        Point { x: -1, y: -1 }
    );
}

#[test]
fn arc_at_zero_lies_at_the_start_angle() {
    let center = point(1.5, -2.25);
    for angle_start in [0., 0.3, PI / 2., -PI, 2.5 * PI] {
        for angle_stop in [0., PI, -7., 100.] {
            assert_eq!(
                arc(&center, 2., angle_start, angle_stop, 0.),
                arc_point(&center, fixed(2.), &direction(float(fixed(angle_start))))
            );
        }
    }
}

#[test]
fn arc_at_one_lies_at_the_stop_angle() {
    let center = point(1.5, -2.25);
    for angle_start in [0., PI, -7., 100.] {
        for angle_stop in [0., 0.3, PI / 2., -PI, 2.5 * PI] {
            assert_eq!(
                arc(&center, 2., angle_start, angle_stop, 1.),
                arc_point(&center, fixed(2.), &direction(float(fixed(angle_stop))))
            );
        }
    }
}
