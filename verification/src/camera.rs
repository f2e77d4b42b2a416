//! The 2D camera transform.

use crate::math::Scalar;
use crate::math::Vector2;
use vstd::prelude::*;

verus! {

/// A 2D camera: an offset, a target, a rotation and a zoom factor, all in
/// the foreign plain-data layout. The real-valued fields are carried as
/// IEEE-754 bit patterns.
#[derive(Clone, Copy, Debug, PartialEq, Eq, Structural)]
pub struct Camera2D {
    pub offset: Vector2,
    pub target: Vector2,
    pub rotation: Scalar,
    pub zoom: Scalar,
}

impl Camera2D {
    /// Creates a `Camera2D`.
    pub fn new(offset: Vector2, target: Vector2, rotation: Scalar, zoom: Scalar) -> (r: Camera2D)
        ensures
            r == (Camera2D { offset, target, rotation, zoom }),
    {
        Camera2D { offset, target, rotation, zoom }
    }
}

} // verus!
