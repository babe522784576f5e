//! A flocking ("boids") simulation: a set of autonomous agents that update
//! position and velocity each tick from local interactions with nearby agents
//! (cohesion, separation, alignment) plus containment inside an axis-aligned
//! box.
//!
//! All quantities are fixed-point integers with three fractional decimal
//! digits: a stored value of 1000 stands for 1.0. This keeps the whole
//! per-tick state transformation exact and lets every step be specified and
//! proved precisely.

use vstd::prelude::*;

pub mod agent;
pub mod engine;
pub mod model;
pub mod params;
pub mod rng;

verus! {

/// Fixed-point scale: a stored value of `SCALE` stands for 1.0.
pub const SCALE: i64 = 1000;

/// Magnitude cap on parameters, time deltas, positions and velocities
/// (one million whole units in fixed-point form). Keeps every intermediate
/// product of the per-tick arithmetic inside `i128`.
pub const BOUND: i64 = 1_000_000_000;

/// Largest flock the engine accepts; bounds the neighbor sums.
pub const MAX_AGENTS: usize = 100_000;

/// Number of agents a freshly created flock holds.
pub const DEFAULT_AGENT_COUNT: usize = 100;

} // verus!
