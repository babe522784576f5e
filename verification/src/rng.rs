//! Random spawning of fresh agents: position uniform inside the box,
//! velocity uniform in `[0, 10)` per axis, color uniform in `[0, 1)` per
//! channel with alpha fixed at 1. Only the draw itself is delegated to the
//! random number generator; everything built from the drawn values is
//! verified for every value the draw can return.

use rand::Rng;
use vstd::prelude::*;

verus! {

use crate::agent::{Agent, Color, Vec3};
use crate::params::SimulationParameters;
use crate::{BOUND, MAX_AGENTS};

/// Exclusive fixed-point bound of a fresh agent's velocity components: 10.0.
pub const SPAWN_SPEED: i64 = 10_000;

/// Fixed-point value of 1.0 for color channels; fresh channels are drawn
/// below it and alpha is fixed at it.
pub const COLOR_UNIT: i64 = 1000;

/// Relies on `rand::thread_rng` and `rand::Rng::gen_range` over `0..n`: a
/// value drawn from `[0, n)`, which is non-empty by the precondition, so the
/// call cannot panic. Nothing more is assumed of the draw; callers hold for
/// every value that can come back.
#[verifier::external_body]
fn sample_below(n: u64) -> (r: u64)
    requires
        n >= 1,
    ensures
        r < n,
{
    rand::thread_rng().gen_range(0..n)
}

/// Draws a fixed-point value from `[0, limit)`.
fn sample_component(limit: i64) -> (r: i64)
    requires
        1 <= limit <= BOUND,
    ensures
        0 <= r < limit,
{
    let u: u64 = sample_below(limit as u64);
    u as i64
}

/// A freshly spawned agent: position in `[0, box_size)` per axis (collapsed
/// to the origin when the box is degenerate), velocity in
/// `[0, SPAWN_SPEED)` per axis, color channels in `[0, COLOR_UNIT)` with
/// alpha exactly `COLOR_UNIT`.
pub open spec fn spawn_ok(a: Agent, p: SimulationParameters) -> bool {
    &&& if p.box_size > 0 {
        &&& 0 <= a.position.x < p.box_size
        &&& 0 <= a.position.y < p.box_size
        &&& 0 <= a.position.z < p.box_size
    } else {
        a.position == (Vec3 { x: 0i64, y: 0i64, z: 0i64 })
    }
    &&& 0 <= a.velocity.x < SPAWN_SPEED
    &&& 0 <= a.velocity.y < SPAWN_SPEED
    &&& 0 <= a.velocity.z < SPAWN_SPEED
    &&& 0 <= a.color.red < COLOR_UNIT
    &&& 0 <= a.color.green < COLOR_UNIT
    &&& 0 <= a.color.blue < COLOR_UNIT
    &&& a.color.alpha == COLOR_UNIT
}

/// Spawns one fresh agent inside the current box.
pub fn spawn_agent(p: &SimulationParameters) -> (r: Agent)
    requires
        p.wf(),
    ensures
        spawn_ok(r, *p),
        r.wf(),
{
    let bs: i64 = p.box_size;
    let position: Vec3 = if bs > 0 {
        Vec3 { x: sample_component(bs), y: sample_component(bs), z: sample_component(bs) }
    } else {
        Vec3 { x: 0, y: 0, z: 0 }
    };
    let velocity: Vec3 = Vec3 {
        x: sample_component(SPAWN_SPEED),
        y: sample_component(SPAWN_SPEED),
        z: sample_component(SPAWN_SPEED),
    };
    let color: Color = Color {
        red: sample_component(COLOR_UNIT),
        green: sample_component(COLOR_UNIT),
        blue: sample_component(COLOR_UNIT),
        alpha: COLOR_UNIT,
    };
    Agent { position, velocity, color }
}

/// Spawns a whole fresh flock of `n` agents.
pub fn spawn_flock(n: usize, params: &SimulationParameters) -> (r: Vec<Agent>)
    requires
        n <= MAX_AGENTS,
        params.wf(),
    ensures
        r@.len() == n,
        forall|k: int| 0 <= k < n ==> spawn_ok(#[trigger] r@[k], *params) && r@[k].wf(),
{
    let mut v: Vec<Agent> = Vec::new();
    let mut i: usize = 0;
    while i < n
        invariant
            params.wf(),
            n <= MAX_AGENTS,
            0 <= i <= n,
            v@.len() == i,
            forall|k: int| 0 <= k < i ==> spawn_ok(#[trigger] v@[k], *params) && v@[k].wf(),
        decreases n - i,
    {
        let a: Agent = spawn_agent(params);
        v.push(a);
        i = i + 1;
    }
    v
}

} // verus!
