//! Tunable simulation constants, owned by the host and read by the engine
//! each tick. Plain value record: the engine never mutates it, and no
//! invariant beyond a magnitude cap is imposed on the fields.

use vstd::prelude::*;

verus! {

use crate::BOUND;

/// All fields are fixed-point thousandths (see [`crate::SCALE`]).
#[derive(Clone, Copy, Debug, PartialEq, Eq, Structural)]
pub struct SimulationParameters {
    /// Per-axis cap on velocity components, applied at the end of each tick.
    pub max_speed: i64,
    /// Radius within which another agent counts as a neighbor for the
    /// cohesion and alignment rules.
    pub view_distance: i64,
    /// Radius within which another agent, or a wall, triggers separation.
    pub min_distance: i64,
    /// Side length of the containment box `[0, box_size]` on each axis.
    pub box_size: i64,
    /// Weight of the separation (avoidance) rule.
    pub avoidance: i64,
    /// Weight of the cohesion (centering) rule.
    pub centering: i64,
    /// Weight of the alignment (velocity matching) rule.
    pub matching: i64,
}

impl SimulationParameters {
    /// Every field within the magnitude cap that keeps the tick arithmetic
    /// inside `i128`.
    pub open spec fn wf(self) -> bool {
        &&& -BOUND <= self.max_speed <= BOUND
        &&& -BOUND <= self.view_distance <= BOUND
        &&& -BOUND <= self.min_distance <= BOUND
        &&& -BOUND <= self.box_size <= BOUND
        &&& -BOUND <= self.avoidance <= BOUND
        &&& -BOUND <= self.centering <= BOUND
        &&& -BOUND <= self.matching <= BOUND
    }
}

impl Default for SimulationParameters {
    /// The standard defaults: max speed 500.0, view distance 10.0,
    /// minimum distance 5.0, box size 100.0, avoidance 0.5, centering 0.075,
    /// matching 0.2 — in fixed-point thousandths.
    fn default() -> (r: Self)
        ensures
            r == (SimulationParameters {
                max_speed: 500_000i64,
                view_distance: 10_000i64,
                min_distance: 5_000i64,
                box_size: 100_000i64,
                avoidance: 500i64,
                centering: 75i64,
                matching: 200i64,
            }),
            r.wf(),
    {
        SimulationParameters {
            max_speed: 500_000,
            view_distance: 10_000,
            min_distance: 5_000,
            box_size: 100_000,
            avoidance: 500,
            centering: 75,
            matching: 200,
        }
    }
}

} // verus!
