//! The two value types of the library.

use vstd::prelude::*;

verus! {

/// A point of the plane. Both coordinates are fixed-point scalars.
#[derive(Clone, Copy, Debug, PartialEq, Eq, Structural)]
pub struct Point {
    pub x: i64,
    pub y: i64,
}

/// A direction of the plane, held as the cosine and the sine of its angle
/// with the x axis. Both are fixed-point scalars.
#[derive(Clone, Copy, Debug, PartialEq, Eq, Structural)]
pub struct Direction {
    pub cos: i64,
    pub sin: i64,
}

} // verus!
