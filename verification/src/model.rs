//! The mathematical model of one simulation tick.
//!
//! Every quantity is an exact integer (fixed-point thousandths). For each
//! agent the tick applies, in order: cohesion (steer toward the centroid of
//! neighbors), separation (steer away from agents and walls closer than the
//! minimum distance), alignment (steer toward the neighbors' average
//! velocity), integration of position, reflection of velocity off the walls,
//! and clamping of position into the box and of velocity to the speed cap.
//! All rules read the start-of-tick snapshot of the flock; an agent counts as
//! its own neighbor, which is harmless and kept.

use vstd::prelude::*;

verus! {

use crate::agent::Agent;
use crate::params::SimulationParameters;
use crate::{BOUND, MAX_AGENTS, SCALE};

/// Absolute value.
pub open spec fn abs_i(x: int) -> int {
    if x < 0 {
        -x
    } else {
        x
    }
}

/// Division rounding toward zero, the rounding the engine uses for all
/// fixed-point products and averages. Meaningful for `b > 0`.
pub open spec fn div_tr(a: int, b: int) -> int
    recommends
        b > 0,
{
    if a >= 0 {
        a / b
    } else {
        -((-a) / b)
    }
}

/// `min(max(x, lo), hi)`.
pub open spec fn clamp_i(x: int, lo: int, hi: int) -> int {
    let m: int = if x > lo {
        x
    } else {
        lo
    };
    if m < hi {
        m
    } else {
        hi
    }
}

/// Component of a position selected by axis index (0, 1 or 2).
pub open spec fn pos_axis(a: Agent, ax: int) -> int {
    if ax == 0 {
        a.position.x as int
    } else if ax == 1 {
        a.position.y as int
    } else {
        a.position.z as int
    }
}

/// Component of a velocity selected by axis index (0, 1 or 2).
pub open spec fn vel_axis(a: Agent, ax: int) -> int {
    if ax == 0 {
        a.velocity.x as int
    } else if ax == 1 {
        a.velocity.y as int
    } else {
        a.velocity.z as int
    }
}

/// Squared Euclidean distance between the positions of two agents.
pub open spec fn dist2(a: Agent, b: Agent) -> int {
    let dx: int = pos_axis(a, 0) - pos_axis(b, 0);
    let dy: int = pos_axis(a, 1) - pos_axis(b, 1);
    let dz: int = pos_axis(a, 2) - pos_axis(b, 2);
    dx * dx + dy * dy + dz * dz
}

/// `b` is a neighbor of `a`: Euclidean distance strictly below the view
/// distance. An agent is its own neighbor whenever the view distance is
/// positive, since its distance to itself is zero.
pub open spec fn is_neighbor(a: Agent, b: Agent, vd: int) -> bool {
    vd > 0 && dist2(a, b) < vd * vd
}

/// `b` triggers separation on `a`: distance strictly positive (so an agent
/// never avoids itself, nor one exactly on top of it) and strictly below the
/// minimum distance.
pub open spec fn is_avoided(a: Agent, b: Agent, md: int) -> bool {
    md > 0 && 0 < dist2(a, b) && dist2(a, b) < md * md
}

/// How many agents of `s` are neighbors of `a`.
pub open spec fn nbr_count(s: Seq<Agent>, a: Agent, vd: int) -> int
    decreases s.len(),
{
    if s.len() == 0 {
        0
    } else {
        nbr_count(s.drop_last(), a, vd) + if is_neighbor(a, s.last(), vd) {
            1int
        } else {
            0int
        }
    }
}

/// Sum over the neighbors of `a` of one position component.
pub open spec fn nbr_pos_sum(s: Seq<Agent>, a: Agent, vd: int, ax: int) -> int
    decreases s.len(),
{
    if s.len() == 0 {
        0
    } else {
        nbr_pos_sum(s.drop_last(), a, vd, ax) + if is_neighbor(a, s.last(), vd) {
            pos_axis(s.last(), ax)
        } else {
            0int
        }
    }
}

/// Sum over the neighbors of `a` of one velocity component.
pub open spec fn nbr_vel_sum(s: Seq<Agent>, a: Agent, vd: int, ax: int) -> int
    decreases s.len(),
{
    if s.len() == 0 {
        0
    } else {
        nbr_vel_sum(s.drop_last(), a, vd, ax) + if is_neighbor(a, s.last(), vd) {
            vel_axis(s.last(), ax)
        } else {
            0int
        }
    }
}

/// Repulsion accumulated away from every avoided agent: the sum of
/// `a - other`, one position component at a time.
pub open spec fn rep_sum(s: Seq<Agent>, a: Agent, md: int, ax: int) -> int
    decreases s.len(),
{
    if s.len() == 0 {
        0
    } else {
        rep_sum(s.drop_last(), a, md, ax) + if is_avoided(a, s.last(), md) {
            pos_axis(a, ax) - pos_axis(s.last(), ax)
        } else {
            0int
        }
    }
}

/// Velocity component after the cohesion rule: if `a` has any neighbor, nudge
/// toward the centroid of the neighbors' positions, weighted by `centering`.
pub open spec fn vel_centered(s: Seq<Agent>, i: int, p: SimulationParameters, ax: int) -> int {
    let a = s[i];
    let c: int = nbr_count(s, a, p.view_distance as int);
    if c > 0 {
        vel_axis(a, ax) + div_tr(
            (div_tr(nbr_pos_sum(s, a, p.view_distance as int, ax), c) - pos_axis(a, ax))
                * p.centering,
            SCALE as int,
        )
    } else {
        vel_axis(a, ax)
    }
}

/// Velocity component after separation from other agents: the accumulated
/// repulsion, weighted by `avoidance`, is always added (it is zero when no
/// agent is close).
pub open spec fn vel_separated(s: Seq<Agent>, i: int, p: SimulationParameters, ax: int) -> int {
    vel_centered(s, i, p, ax) + div_tr(
        rep_sum(s, s[i], p.min_distance as int, ax) * p.avoidance,
        SCALE as int,
    )
}

/// Unweighted wall repulsion along one axis: each face (low at 0, high at
/// `box_size`) that the agent is strictly within `min_distance` of — but not
/// exactly on — pushes the agent away from that face.
pub open spec fn wall_push(a: Agent, p: SimulationParameters, ax: int) -> int {
    let q: int = pos_axis(a, ax);
    let b: int = p.box_size as int;
    let md: int = p.min_distance as int;
    (if 0 < abs_i(b - q) && abs_i(b - q) < md {
        q - b
    } else {
        0int
    }) + (if 0 < abs_i(q) && abs_i(q) < md {
        q
    } else {
        0int
    })
}

/// Velocity component after wall separation; the wall push carries a fixed
/// weight of 4, independent of the configurable agent-avoidance weight.
pub open spec fn vel_walled(s: Seq<Agent>, i: int, p: SimulationParameters, ax: int) -> int {
    vel_separated(s, i, p, ax) + 4 * wall_push(s[i], p, ax)
}

/// Velocity component after the alignment rule: if `a` has any neighbor,
/// nudge the accumulated velocity toward the neighbors' average start-of-tick
/// velocity, weighted by `matching`.
pub open spec fn vel_matched(s: Seq<Agent>, i: int, p: SimulationParameters, ax: int) -> int {
    let a = s[i];
    let c: int = nbr_count(s, a, p.view_distance as int);
    let v: int = vel_walled(s, i, p, ax);
    if c > 0 {
        v + div_tr(
            (div_tr(nbr_vel_sum(s, a, p.view_distance as int, ax), c) - v) * p.matching,
            SCALE as int,
        )
    } else {
        v
    }
}

/// Position component after integration (`position + velocity * dt`), before
/// reflection and clamping.
pub open spec fn pos_integrated(s: Seq<Agent>, i: int, p: SimulationParameters, dt: int, ax: int) -> int {
    pos_axis(s[i], ax) + div_tr(vel_matched(s, i, p, ax) * dt, SCALE as int)
}

/// Velocity component after bouncing: the sign flips once for each face the
/// integrated position overshot (past `box_size`, or below 0).
pub open spec fn vel_reflected(s: Seq<Agent>, i: int, p: SimulationParameters, dt: int, ax: int) -> int {
    let v: int = vel_matched(s, i, p, ax);
    let q: int = pos_integrated(s, i, p, dt, ax);
    let v1: int = if q > p.box_size as int {
        -v
    } else {
        v
    };
    if q < 0 {
        -v1
    } else {
        v1
    }
}

/// Final position component of the tick: the integrated position clamped
/// into `[0, box_size]`.
pub open spec fn step_pos(s: Seq<Agent>, i: int, p: SimulationParameters, dt: int, ax: int) -> int {
    clamp_i(pos_integrated(s, i, p, dt, ax), 0, p.box_size as int)
}

/// Final velocity component of the tick: the reflected velocity clamped into
/// `[-max_speed, max_speed]`.
pub open spec fn step_vel(s: Seq<Agent>, i: int, p: SimulationParameters, dt: int, ax: int) -> int {
    clamp_i(vel_reflected(s, i, p, dt, ax), -(p.max_speed as int), p.max_speed as int)
}

/// `r` is agent `i` of `s` advanced by one tick: position and velocity follow
/// the tick pipeline on every axis, and the color is carried over unchanged.
pub open spec fn is_stepped(s: Seq<Agent>, i: int, p: SimulationParameters, dt: int, r: Agent) -> bool {
    &&& r.position.x == step_pos(s, i, p, dt, 0)
    &&& r.position.y == step_pos(s, i, p, dt, 1)
    &&& r.position.z == step_pos(s, i, p, dt, 2)
    &&& r.velocity.x == step_vel(s, i, p, dt, 0)
    &&& r.velocity.y == step_vel(s, i, p, dt, 1)
    &&& r.velocity.z == step_vel(s, i, p, dt, 2)
    &&& r.color == s[i].color
}

/// A flock the engine accepts: not more than [`MAX_AGENTS`] agents, each
/// within the magnitude cap.
pub open spec fn flock_wf(s: Seq<Agent>) -> bool {
    &&& s.len() <= MAX_AGENTS
    &&& forall|i: int| 0 <= i < s.len() ==> (#[trigger] s[i]).wf()
}

/// Containment law: on every tick, for every agent and every axis, the
/// post-step position component lies in `[0, box_size]` — whatever the time
/// delta, the velocities, and the rest of the parameters — as long as the
/// box size itself is non-negative.
pub proof fn lemma_position_in_box(s: Seq<Agent>, i: int, p: SimulationParameters, dt: int, ax: int)
    requires
        p.box_size >= 0,
    ensures
        0 <= step_pos(s, i, p, dt, ax) <= p.box_size,
{
}

/// Speed-cap law: on every tick, for every agent and every axis, the
/// post-step velocity component lies in `[-max_speed, max_speed]`, as long
/// as the speed cap itself is non-negative.
pub proof fn lemma_velocity_bounded(s: Seq<Agent>, i: int, p: SimulationParameters, dt: int, ax: int)
    requires
        p.max_speed >= 0,
    ensures
        -p.max_speed <= step_vel(s, i, p, dt, ax) <= p.max_speed,
{
}

/// Determinism law: the tick is a function of the flock snapshot, the time
/// delta and the parameters alone — identical inputs give identical
/// post-step positions and velocities.
pub proof fn lemma_step_deterministic(
    s: Seq<Agent>,
    t: Seq<Agent>,
    p: SimulationParameters,
    q: SimulationParameters,
    dt1: int,
    dt2: int,
    i: int,
    ax: int,
)
    requires
        s == t,
        p == q,
        dt1 == dt2,
    ensures
        step_pos(s, i, p, dt1, ax) == step_pos(t, i, q, dt2, ax),
        step_vel(s, i, p, dt1, ax) == step_vel(t, i, q, dt2, ax),
{
}

/// Zero-distance law: two agents exactly on top of each other never trigger
/// mutual separation (`dist > 0` guards it), yet each still counts as the
/// other's neighbor for cohesion and alignment whenever the view distance is
/// positive (`dist < view_distance` admits distance zero).
pub proof fn lemma_zero_distance(a: Agent, b: Agent, vd: int, md: int)
    requires
        dist2(a, b) == 0,
    ensures
        !is_avoided(a, b, md),
        vd > 0 ==> is_neighbor(a, b, vd),
    {
    if vd > 0 {
        lemma_mul_abs_bound(vd, vd, vd, vd);
        vstd::arithmetic::mul::lemma_mul_strictly_positive(vd, vd);
    }
}

/// Bound on the product of two bounded factors.
pub proof fn lemma_mul_abs_bound(a: int, b: int, aa: int, bb: int)
    by (nonlinear_arith)
    requires
        -aa <= a <= aa,
        -bb <= b <= bb,
    ensures
        -(aa * bb) <= a * b <= aa * bb,
{
}

} // verus!
