//! Screen coordinates.

use vstd::prelude::*;

verus! {

/// A point of the screen.
#[derive(Debug, Clone, Copy, PartialEq, Eq, Structural)]
pub struct Point {
    pub x: i32,
    pub y: i32,
}

/// A rectangle of the screen by its edges.
#[derive(Debug, Clone, Copy, PartialEq, Eq, Structural)]
pub struct Rect {
    pub left: i32,
    pub top: i32,
    pub right: i32,
    pub bottom: i32,
}

/// Whether `i` is a screen coordinate.
pub open spec fn fits(i: int) -> bool {
    i32::MIN <= i <= i32::MAX
}

/// Whether `i` is a screen coordinate.
pub fn is_coordinate(i: i64) -> (b: bool)
    ensures
        b == fits(i as int),
{
    i32::MIN as i64 <= i && i <= i32::MAX as i64
}

/// The greater of two integers.
pub open spec fn max_of(a: int, b: int) -> int {
    if a < b {
        b
    } else {
        a
    }
}

/// The lesser of two integers.
pub open spec fn min_of(a: int, b: int) -> int {
    if b < a {
        b
    } else {
        a
    }
}

/// `n / d`, rounded toward zero.
pub open spec fn quotient(n: int, d: int) -> int {
    if n < 0 {
        -((-n) / d)
    } else {
        n / d
    }
}

/// Screen coordinates are the integers of 32 bits.
pub proof fn law_coordinates_have_32_bits(i: int)
    ensures
        fits(i) <==> -0x8000_0000 <= i < 0x8000_0000,
{
}

/// The greater of two integers is one of them, and at least both; so is the lesser at most
/// both.
pub proof fn law_extremes(a: int, b: int)
    ensures
        max_of(a, b) == a || max_of(a, b) == b,
        max_of(a, b) >= a && max_of(a, b) >= b,
        min_of(a, b) == a || min_of(a, b) == b,
        min_of(a, b) <= a && min_of(a, b) <= b,
{
}

/// A quotient leaves a remainder that is less than the divisor, and has the sign of the
/// dividend.
pub proof fn law_quotient_rounds_toward_zero(n: int, d: int)
    by (nonlinear_arith)
    requires
        d > 0,
    ensures
        n >= 0 ==> 0 <= n - d * quotient(n, d) < d,
        n <= 0 ==> -d < n - d * quotient(n, d) <= 0,
{
}

} // verus!
