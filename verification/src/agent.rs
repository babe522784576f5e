//! The simulated entities: a 3D fixed-point vector, a display color, and the
//! agent ("boid") that combines a position, a velocity and a color.

use vstd::prelude::*;

verus! {

use crate::BOUND;

/// A 3D vector; components are fixed-point thousandths (see [`crate::SCALE`]).
#[derive(Clone, Copy, Debug, PartialEq, Eq, Structural)]
pub struct Vec3 {
    pub x: i64,
    pub y: i64,
    pub z: i64,
}

impl Vec3 {
    /// Every component within the magnitude cap.
    pub open spec fn wf(self) -> bool {
        &&& -BOUND <= self.x <= BOUND
        &&& -BOUND <= self.y <= BOUND
        &&& -BOUND <= self.z <= BOUND
    }
}

/// An RGBA display color, channels in fixed-point thousandths.
/// Carried for the renderer only; the simulation rules never read it.
#[derive(Clone, Copy, Debug, PartialEq, Eq, Structural)]
pub struct Color {
    pub red: i64,
    pub green: i64,
    pub blue: i64,
    pub alpha: i64,
}

/// One boid: a position and velocity the tick rules transform, and a color
/// assigned once at creation and immutable thereafter.
#[derive(Clone, Copy, Debug, PartialEq, Eq, Structural)]
pub struct Agent {
    pub position: Vec3,
    pub velocity: Vec3,
    pub color: Color,
}

impl Agent {
    /// Position and velocity within the magnitude cap that keeps the tick
    /// arithmetic inside `i128`.
    pub open spec fn wf(self) -> bool {
        self.position.wf() && self.velocity.wf()
    }
}

} // verus!
