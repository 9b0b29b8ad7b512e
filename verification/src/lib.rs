//! Points along line segments and circular arcs, evaluated at a parameter
//! `t`, in saturating fixed-point arithmetic.
//!
//! Every scalar (a coordinate, a length, an angle, the parameter, a
//! tolerance) is an `i64` that counts units of 2^-32, so that
//! [`fixed::ONE`] stands for the number one. The library never evaluates a
//! trigonometric function: a direction enters as its cosine and sine.

pub mod curve;
pub mod fixed;
pub mod point;
pub mod tolerance;
