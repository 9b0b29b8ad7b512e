//! Signed fixed-point scalars with 32 fractional bits.

use vstd::prelude::*;

verus! {

/// The scalar that stands for the number one.
pub const ONE: i64 = 0x1_0000_0000;

/// The value of `v` brought into the range of a scalar: values beyond
/// either end stay at that end.
pub open spec fn saturate(v: int) -> int {
    if v < i64::MIN {
        i64::MIN as int
    } else if v > i64::MAX {
        i64::MAX as int
    } else {
        v
    }
}

/// The fixed-point product of `a` and `b`, rounded down to a whole number
/// of units.
pub open spec fn product(a: int, b: int) -> int {
    (a * b) / (ONE as int)
}

/// The magnitude of `v`.
pub open spec fn magnitude(v: int) -> int {
    if v < 0 {
        -v
    } else {
        v
    }
}

/// Multiplying by one changes nothing, and multiplying by zero gives zero.
pub proof fn lemma_product_units(a: int)
    ensures
        product(a, ONE as int) == a,
        product(ONE as int, a) == a,
        product(a, 0) == 0,
        product(0, a) == 0,
{
    assert(a * 0x1_0000_0000 / 0x1_0000_0000 == a) by (nonlinear_arith);
    assert(0x1_0000_0000 * a == a * 0x1_0000_0000) by (nonlinear_arith);
    assert(a * 0 == 0 && 0 * a == 0) by (nonlinear_arith);
}

/// The share `t` of a value, for `t` from zero to one, lies between zero
/// and that value.
pub proof fn lemma_product_share(a: int, t: int)
    requires
        0 <= t <= ONE,
    ensures
        a >= 0 ==> 0 <= product(a, t) <= a,
        a <= 0 ==> a <= product(a, t) <= 0,
{
    assert(a >= 0 ==> 0 <= a * t <= a * 0x1_0000_0000) by (nonlinear_arith)
        requires
            0 <= t <= 0x1_0000_0000,
    ;
    assert(a <= 0 ==> a * 0x1_0000_0000 <= a * t <= 0) by (nonlinear_arith)
        requires
            0 <= t <= 0x1_0000_0000,
    ;
    let p = a * t;
    let whole = a * 0x1_0000_0000;
    assert(whole / 0x1_0000_0000 == a);
    if a >= 0 {
        assert(0 <= p / 0x1_0000_0000 <= whole / 0x1_0000_0000);
    } else {
        assert(whole / 0x1_0000_0000 <= p / 0x1_0000_0000 <= 0);
    }
}

/// Rounding down after adding loses at most one unit against adding after
/// rounding down.
pub proof fn lemma_product_additive(a: int, s: int, t: int)
    ensures
        product(a, s) + product(a, t) <= product(a, s + t) <= product(a, s) + product(a, t) + 1,
{
    let m: int = 0x1_0000_0000;
    let x = a * s;
    let y = a * t;
    assert(a * (s + t) == x + y) by (nonlinear_arith)
        requires
            x == a * s,
            y == a * t,
    ;
    assert(x / m + y / m <= (x + y) / m <= x / m + y / m + 1) by (nonlinear_arith)
        requires
            m == 0x1_0000_0000,
    ;
}

/// Brings a wide value into the range of a scalar.
pub(crate) fn narrow(v: i128) -> (r: i64)
    ensures
        r == saturate(v as int),
{
    if v < i64::MIN as i128 {
        i64::MIN
    } else if v > i64::MAX as i128 {
        i64::MAX
    } else {
        v as i64
    }
}

/// The fixed-point product of a scalar, or of the difference of two
/// scalars, and a scalar: exact but for the rounding down, and small
/// enough for a scalar to be added to it.
pub(crate) fn wide_product(a: i128, b: i64) -> (r: i128)
    requires
        -0x1_0000_0000_0000_0000 < a < 0x1_0000_0000_0000_0000,
    ensures
        r == product(a as int, b as int),
        -0x1_0000_0000_0000_0000_0000_0000 <= r <= 0x1_0000_0000_0000_0000_0000_0000,
{
    assert(-0x8000_0000_0000_0000_0000_0000_0000_0000 <= a * b
        <= 0x7fff_ffff_ffff_ffff_ffff_ffff_ffff_ffff) by (nonlinear_arith)
        requires
            -0x1_0000_0000_0000_0000 < a < 0x1_0000_0000_0000_0000,
            -0x8000_0000_0000_0000 <= b <= 0x7fff_ffff_ffff_ffff,
    ;
    let p: i128 = a * (b as i128);
    let q: i128 = p / 0x1_0000_0000;
    let m: i128 = p % 0x1_0000_0000;
    if m < 0 {
        q - 1
    } else {
        q
    }
}

/// The saturated fixed-point product of two scalars.
pub(crate) fn times(a: i64, b: i64) -> (r: i64)
    ensures
        r == saturate(product(a as int, b as int)),
{
    narrow(wide_product(a as i128, b))
}

} // verus!
