//! Plain-data geometry types and small numeric utilities.
//!
//! The foreign library works in 32-bit reals. This crate never computes on
//! reals; it carries each such field as its IEEE-754 single-precision bit
//! pattern, wrapped in [`Scalar`], and the driver reinterprets the bits on
//! the way across the boundary. The geometry types below therefore share
//! the foreign plain-data layout field for field.

use vstd::prelude::*;

verus! {

/// A 32-bit real value, carried as its IEEE-754 bit pattern.
///
/// The core forwards these values to the foreign library without
/// interpreting them numerically.
#[derive(Clone, Copy, Debug, PartialEq, Eq, Structural)]
pub struct Scalar {
    /// IEEE-754 single-precision bit pattern.
    pub bits: u32,
}

impl Scalar {
    /// The bit pattern of positive zero.
    pub fn zero() -> (r: Scalar)
        ensures
            r.bits == 0,
    {
        Scalar { bits: 0 }
    }

    /// The bit pattern of positive one.
    pub fn one() -> (r: Scalar)
        ensures
            r.bits == 0x3F80_0000,
    {
        Scalar { bits: 0x3F80_0000 }
    }

    /// Wraps a raw IEEE-754 single-precision bit pattern.
    pub fn new(bits: u32) -> (r: Scalar)
        ensures
            r.bits == bits,
    {
        Scalar { bits }
    }
}

/// A point or direction in the plane: two packed 32-bit reals.
#[derive(Clone, Copy, Debug, PartialEq, Eq, Structural)]
pub struct Vector2 {
    pub x: Scalar,
    pub y: Scalar,
}

impl Vector2 {
    /// Both components zero.
    pub fn zero() -> (r: Vector2)
        ensures
            r.x.bits == 0,
            r.y.bits == 0,
    {
        Vector2 { x: Scalar { bits: 0 }, y: Scalar { bits: 0 } }
    }

    /// Both components one (the bit pattern of 1.0).
    pub fn one() -> (r: Vector2)
        ensures
            r.x.bits == 0x3F80_0000,
            r.y.bits == 0x3F80_0000,
    {
        Vector2 { x: Scalar { bits: 0x3F80_0000 }, y: Scalar { bits: 0x3F80_0000 } }
    }

    /// Creates a `Vector2` from its two components.
    pub fn new(x: Scalar, y: Scalar) -> (r: Vector2)
        ensures
            r.x == x,
            r.y == y,
    {
        Vector2 { x, y }
    }
}

impl core::convert::From<&Vector2> for Vector2 {
    fn from(vector: &Vector2) -> (r: Vector2)
        ensures
            r == *vector,
    {
        *vector
    }
}

impl vstd::std_specs::convert::FromSpecImpl<&Vector2> for Vector2 {
    open spec fn obeys_from_spec() -> bool {
        true
    }

    open spec fn from_spec(v: &Vector2) -> Vector2 {
        *v
    }
}

impl core::convert::From<[Scalar; 2]> for Vector2 {
    fn from(value: [Scalar; 2]) -> (r: Vector2)
        ensures
            r == (Vector2 { x: value[0], y: value[1] }),
    {
        Vector2 { x: value[0], y: value[1] }
    }
}

impl vstd::std_specs::convert::FromSpecImpl<[Scalar; 2]> for Vector2 {
    open spec fn obeys_from_spec() -> bool {
        true
    }

    open spec fn from_spec(v: [Scalar; 2]) -> Vector2 {
        Vector2 { x: v[0], y: v[1] }
    }
}

impl core::convert::From<(Scalar, Scalar)> for Vector2 {
    fn from(value: (Scalar, Scalar)) -> (r: Vector2)
        ensures
            r == (Vector2 { x: value.0, y: value.1 }),
    {
        Vector2 { x: value.0, y: value.1 }
    }
}

impl vstd::std_specs::convert::FromSpecImpl<(Scalar, Scalar)> for Vector2 {
    open spec fn obeys_from_spec() -> bool {
        true
    }

    open spec fn from_spec(v: (Scalar, Scalar)) -> Vector2 {
        Vector2 { x: v.0, y: v.1 }
    }
}

impl core::convert::From<Vector2> for [Scalar; 2] {
    fn from(vector: Vector2) -> (r: [Scalar; 2])
        ensures
            r@ == seq![vector.x, vector.y],
    {
        let r = [vector.x, vector.y];
        proof {
            assert(r@ =~= seq![vector.x, vector.y]);
        }
        r
    }
}

impl vstd::std_specs::convert::FromSpecImpl<Vector2> for [Scalar; 2] {
    open spec fn obeys_from_spec() -> bool {
        false
    }

    open spec fn from_spec(v: Vector2) -> [Scalar; 2] {
        vstd::pervasive::arbitrary()
    }
}

impl core::convert::From<Vector2> for (Scalar, Scalar) {
    fn from(vector: Vector2) -> (r: (Scalar, Scalar))
        ensures
            r == (vector.x, vector.y),
    {
        (vector.x, vector.y)
    }
}

impl vstd::std_specs::convert::FromSpecImpl<Vector2> for (Scalar, Scalar) {
    open spec fn obeys_from_spec() -> bool {
        true
    }

    open spec fn from_spec(v: Vector2) -> (Scalar, Scalar) {
        (v.x, v.y)
    }
}

/// An axis-aligned rectangle: four packed 32-bit reals.
#[derive(Clone, Copy, Debug, PartialEq, Eq, Structural)]
pub struct Rectangle {
    pub x: Scalar,
    pub y: Scalar,
    pub width: Scalar,
    pub height: Scalar,
}

impl Rectangle {
    /// Creates a `Rectangle` from its position and size.
    pub fn new(x: Scalar, y: Scalar, width: Scalar, height: Scalar) -> (r: Rectangle)
        ensures
            r.x == x,
            r.y == y,
            r.width == width,
            r.height == height,
    {
        Rectangle { x, y, width, height }
    }
}

/// What [`clamp`] returns: the nearer bound when `value` lies outside
/// `[low, high]`, and `value` itself otherwise.
pub open spec fn spec_clamp(value: int, low: int, high: int) -> int {
    if value < low {
        low
    } else if value > high {
        high
    } else {
        value
    }
}

/// Clamps `value` to the inclusive range `[low, high]`.
///
/// The comparisons are strict, so a value exactly equal to a bound is
/// returned unchanged rather than re-derived from the bound.
pub fn clamp(value: i32, low: i32, high: i32) -> (r: i32)
    ensures
        r == spec_clamp(value as int, low as int, high as int),
        low <= value <= high ==> r == value,
{
    if value < low {
        low
    } else if value > high {
        high
    } else {
        value
    }
}

} // verus!
