//! The flock engine: owns the agents and advances them one tick at a time.
//!
//! Each tick reads the start-of-tick snapshot of the whole flock and writes
//! every agent's new state into a fresh buffer that replaces the old one, so
//! no agent ever observes another agent's already-updated state within the
//! same tick. All arithmetic runs in `i128` with proved bounds, then is
//! clamped back into `i64` range by the box and speed caps.

use vstd::prelude::*;

verus! {

use crate::agent::{Agent, Vec3};
use crate::model::{
    abs_i, clamp_i, dist2, div_tr, flock_wf, is_avoided, is_neighbor, is_stepped, lemma_mul_abs_bound,
    lemma_position_in_box, lemma_velocity_bounded,
    nbr_count, nbr_pos_sum, nbr_vel_sum, pos_axis, pos_integrated, rep_sum, step_pos, step_vel,
    vel_axis, vel_centered, vel_matched, vel_reflected, vel_separated, vel_walled, wall_push,
};
use crate::params::SimulationParameters;
use crate::rng::{spawn_flock, spawn_ok};
use crate::{BOUND, DEFAULT_AGENT_COUNT, MAX_AGENTS, SCALE};
use vstd::arithmetic::div_mod::{lemma_div_basics_4, lemma_div_basics_5, lemma_div_is_ordered};

/// Division rounding toward zero, exactly [`div_tr`].
fn div_tr_exec(a: i128, b: i128) -> (q: i128)
    requires
        1 <= b,
        -1000000000000000000000000000000000000 <= a <= 1000000000000000000000000000000000000,
    ensures
        q == div_tr(a as int, b as int),
        abs_i(q as int) == abs_i(a as int) / (b as int),
{
    if a >= 0 {
        let qa: u128 = (a as u128) / (b as u128);
        proof {
            lemma_div_basics_4(a as int, b as int);
            lemma_div_basics_5(a as int, b as int);
        }
        qa as i128
    } else {
        let na: u128 = (-a) as u128;
        let qa: u128 = na / (b as u128);
        proof {
            lemma_div_basics_4(-(a as int), b as int);
            lemma_div_basics_5(-(a as int), b as int);
        }
        -(qa as i128)
    }
}

/// `min(max(x, lo), hi)`, exactly [`clamp_i`].
fn clamp_exec(x: i128, lo: i128, hi: i128) -> (r: i128)
    ensures
        r == clamp_i(x as int, lo as int, hi as int),
{
    let m: i128 = if x > lo {
        x
    } else {
        lo
    };
    if m < hi {
        m
    } else {
        hi
    }
}

/// Finishes one axis of the per-agent pipeline from the neighbor sums:
/// cohesion, separation (agents then walls), alignment, integration,
/// reflection, and the two clamps. Returns the final (position, velocity)
/// component pair.
#[verifier::rlimit(60)]
fn finish_axis(
    apos: i64,
    avel: i64,
    cnt: i128,
    sp: i128,
    sv: i128,
    rp: i128,
    p: &SimulationParameters,
    dt: i64,
    Ghost(s): Ghost<Seq<Agent>>,
    Ghost(i): Ghost<int>,
    Ghost(ax): Ghost<int>,
) -> (r: (i64, i64))
    requires
        p.wf(),
        0 <= dt <= BOUND,
        0 <= i < s.len(),
        s[i].wf(),
        apos == pos_axis(s[i], ax),
        avel == vel_axis(s[i], ax),
        cnt == nbr_count(s, s[i], p.view_distance as int),
        0 <= cnt <= MAX_AGENTS,
        sp == nbr_pos_sum(s, s[i], p.view_distance as int, ax),
        abs_i(sp as int) <= 100_000_000_000_000,
        sv == nbr_vel_sum(s, s[i], p.view_distance as int, ax),
        abs_i(sv as int) <= 100_000_000_000_000,
        rp == rep_sum(s, s[i], p.min_distance as int, ax),
        abs_i(rp as int) <= 200_000_000_000_000,
    ensures
        r.0 == step_pos(s, i, *p, dt as int, ax),
        r.1 == step_vel(s, i, *p, dt as int, ax),
        -BOUND <= r.0 <= BOUND,
        -BOUND <= r.1 <= BOUND,
{
    let sc: i128 = SCALE as i128;
    let mut v: i128 = avel as i128;

    // Cohesion: steer toward the neighbors' centroid.
    if cnt > 0 {
        let centroid: i128 = div_tr_exec(sp, cnt);
        proof {
            lemma_div_basics_5(abs_i(sp as int), cnt as int);
        }
        let diff: i128 = centroid - (apos as i128);
        proof {
            lemma_mul_abs_bound(diff as int, p.centering as int, 200_000_000_000_000, 1_000_000_000);
        }
        let prod: i128 = diff * (p.centering as i128);
        let t: i128 = div_tr_exec(prod, sc);
        proof {
            lemma_div_is_ordered(abs_i(prod as int), 200_000_000_000_000_000_000_000, sc as int);
        }
        v = v + t;
    }
    assert(v == vel_centered(s, i, *p, ax));
    assert(abs_i(v as int) <= 300_000_000_000_000_000_000);

    // Separation from agents: the accumulated repulsion, weighted.
    proof {
        lemma_mul_abs_bound(rp as int, p.avoidance as int, 200_000_000_000_000, 1_000_000_000);
    }
    let prod2: i128 = rp * (p.avoidance as i128);
    let t2: i128 = div_tr_exec(prod2, sc);
    proof {
        lemma_div_is_ordered(abs_i(prod2 as int), 200_000_000_000_000_000_000_000, sc as int);
    }
    v = v + t2;
    assert(v == vel_separated(s, i, *p, ax));
    assert(abs_i(v as int) <= 500_000_000_000_000_000_000);

    // Separation from walls: fixed weight of 4 per overshot face.
    let b_: i128 = p.box_size as i128;
    let md: i128 = p.min_distance as i128;
    let q: i128 = apos as i128;
    let mut w: i128 = 0;
    let dhi: i128 = b_ - q;
    let hi: i128 = if dhi < 0 {
        -dhi
    } else {
        dhi
    };
    if 0 < hi && hi < md {
        w = w + (q - b_);
    }
    let lo: i128 = if q < 0 {
        -q
    } else {
        q
    };
    if 0 < lo && lo < md {
        w = w + q;
    }
    assert(w == wall_push(s[i], *p, ax));
    v = v + 4 * w;
    assert(v == vel_walled(s, i, *p, ax));
    assert(abs_i(v as int) <= 600_000_000_000_000_000_000);

    // Alignment: steer toward the neighbors' average start-of-tick velocity.
    if cnt > 0 {
        let avg: i128 = div_tr_exec(sv, cnt);
        proof {
            lemma_div_basics_5(abs_i(sv as int), cnt as int);
        }
        let diff2: i128 = avg - v;
        proof {
            lemma_mul_abs_bound(diff2 as int, p.matching as int, 700_000_000_000_000_000_000, 1_000_000_000);
        }
        let prod3: i128 = diff2 * (p.matching as i128);
        let t3: i128 = div_tr_exec(prod3, sc);
        proof {
            lemma_div_is_ordered(
                abs_i(prod3 as int),
                700_000_000_000_000_000_000_000_000_000,
                sc as int,
            );
        }
        v = v + t3;
    }
    assert(v == vel_matched(s, i, *p, ax));
    assert(abs_i(v as int) <= 800_000_000_000_000_000_000_000_000);

    // Integration: position advances by velocity times the elapsed time.
    proof {
        lemma_mul_abs_bound(v as int, dt as int, 800_000_000_000_000_000_000_000_000, 1_000_000_000);
    }
    let prod4: i128 = v * (dt as i128);
    let t4: i128 = div_tr_exec(prod4, sc);
    proof {
        lemma_div_is_ordered(
            abs_i(prod4 as int),
            800_000_000_000_000_000_000_000_000_000_000_000,
            sc as int,
        );
    }
    let q1: i128 = q + t4;
    assert(q1 == pos_integrated(s, i, *p, dt as int, ax));

    // Reflection: flip the velocity once per overshot face.
    let mut vr: i128 = v;
    if q1 > b_ {
        vr = -vr;
    }
    if q1 < 0 {
        vr = -vr;
    }
    assert(vr == vel_reflected(s, i, *p, dt as int, ax));

    // Clamp position into the box and velocity to the speed cap.
    let pf: i128 = clamp_exec(q1, 0, b_);
    let ms: i128 = p.max_speed as i128;
    let vf: i128 = clamp_exec(vr, -ms, ms);
    assert(pf == step_pos(s, i, *p, dt as int, ax));
    assert(vf == step_vel(s, i, *p, dt as int, ax));
    assert(-BOUND <= pf <= BOUND);
    assert(-BOUND <= vf <= BOUND);
    (pf as i64, vf as i64)
}

/// Advances one agent by one tick against the start-of-tick snapshot
/// `flock`, returning its full new state. One pairwise pass accumulates the
/// neighbor count, the neighbors' position and velocity sums, and the
/// repulsion, for all three axes at once; the per-axis pipeline then
/// finishes each component.
#[verifier::rlimit(60)]
pub fn step_agent(flock: &Vec<Agent>, i: usize, p: &SimulationParameters, dt: i64) -> (r: Agent)
    requires
        flock_wf(flock@),
        i < flock@.len(),
        p.wf(),
        0 <= dt <= BOUND,
    ensures
        is_stepped(flock@, i as int, *p, dt as int, r),
        r.wf(),
{
    let ghost s = flock@;
    let a: Agent = flock[i];
    let n: usize = flock.len();
    let vd: i128 = p.view_distance as i128;
    let md: i128 = p.min_distance as i128;
    proof {
        lemma_mul_abs_bound(vd as int, vd as int, 1_000_000_000, 1_000_000_000);
        lemma_mul_abs_bound(md as int, md as int, 1_000_000_000, 1_000_000_000);
    }
    let vd2: i128 = vd * vd;
    let md2: i128 = md * md;

    let mut cnt: i128 = 0;
    let mut spx: i128 = 0;
    let mut spy: i128 = 0;
    let mut spz: i128 = 0;
    let mut svx: i128 = 0;
    let mut svy: i128 = 0;
    let mut svz: i128 = 0;
    let mut rx: i128 = 0;
    let mut ry: i128 = 0;
    let mut rz: i128 = 0;
    let mut j: usize = 0;

    while j < n
        invariant
            flock@ == s,
            n == s.len(),
            flock_wf(s),
            p.wf(),
            i < n,
            a == s[i as int],
            a.wf(),
            vd == p.view_distance as int,
            md == p.min_distance as int,
            vd2 == (p.view_distance as int) * (p.view_distance as int),
            md2 == (p.min_distance as int) * (p.min_distance as int),
            0 <= j <= n,
            0 <= cnt <= j,
            cnt == nbr_count(s.take(j as int), a, p.view_distance as int),
            spx == nbr_pos_sum(s.take(j as int), a, p.view_distance as int, 0),
            spy == nbr_pos_sum(s.take(j as int), a, p.view_distance as int, 1),
            spz == nbr_pos_sum(s.take(j as int), a, p.view_distance as int, 2),
            svx == nbr_vel_sum(s.take(j as int), a, p.view_distance as int, 0),
            svy == nbr_vel_sum(s.take(j as int), a, p.view_distance as int, 1),
            svz == nbr_vel_sum(s.take(j as int), a, p.view_distance as int, 2),
            rx == rep_sum(s.take(j as int), a, p.min_distance as int, 0),
            ry == rep_sum(s.take(j as int), a, p.min_distance as int, 1),
            rz == rep_sum(s.take(j as int), a, p.min_distance as int, 2),
            abs_i(spx as int) <= j * 1_000_000_000,
            abs_i(spy as int) <= j * 1_000_000_000,
            abs_i(spz as int) <= j * 1_000_000_000,
            abs_i(svx as int) <= j * 1_000_000_000,
            abs_i(svy as int) <= j * 1_000_000_000,
            abs_i(svz as int) <= j * 1_000_000_000,
            abs_i(rx as int) <= j * 2_000_000_000,
            abs_i(ry as int) <= j * 2_000_000_000,
            abs_i(rz as int) <= j * 2_000_000_000,
        decreases n - j,
    {
        let b: Agent = flock[j];
        proof {
            assert(s[j as int].wf());
        }
        let dx: i128 = (a.position.x as i128) - (b.position.x as i128);
        let dy: i128 = (a.position.y as i128) - (b.position.y as i128);
        let dz: i128 = (a.position.z as i128) - (b.position.z as i128);
        proof {
            lemma_mul_abs_bound(dx as int, dx as int, 2_000_000_000, 2_000_000_000);
            lemma_mul_abs_bound(dy as int, dy as int, 2_000_000_000, 2_000_000_000);
            lemma_mul_abs_bound(dz as int, dz as int, 2_000_000_000, 2_000_000_000);
        }
        let d2: i128 = dx * dx + dy * dy + dz * dz;
        proof {
            assert(d2 == dist2(a, s[j as int]));
            assert(s.take(j as int + 1).drop_last() =~= s.take(j as int));
            assert(s.take(j as int + 1).last() == s[j as int]);
        }
        if vd > 0 && d2 < vd2 {
            proof {
                assert(is_neighbor(a, s[j as int], p.view_distance as int));
            }
            cnt = cnt + 1;
            spx = spx + (b.position.x as i128);
            spy = spy + (b.position.y as i128);
            spz = spz + (b.position.z as i128);
            svx = svx + (b.velocity.x as i128);
            svy = svy + (b.velocity.y as i128);
            svz = svz + (b.velocity.z as i128);
        } else {
            proof {
                assert(!is_neighbor(a, s[j as int], p.view_distance as int));
            }
        }
        if md > 0 && d2 > 0 && d2 < md2 {
            proof {
                assert(is_avoided(a, s[j as int], p.min_distance as int));
            }
            rx = rx + ((a.position.x as i128) - (b.position.x as i128));
            ry = ry + ((a.position.y as i128) - (b.position.y as i128));
            rz = rz + ((a.position.z as i128) - (b.position.z as i128));
        } else {
            proof {
                assert(!is_avoided(a, s[j as int], p.min_distance as int));
            }
        }
        j = j + 1;
    }
    proof {
        assert(s.take(n as int) =~= s);
    }

    let (px, vx) = finish_axis(
        a.position.x,
        a.velocity.x,
        cnt,
        spx,
        svx,
        rx,
        p,
        dt,
        Ghost(s),
        Ghost(i as int),
        Ghost(0),
    );
    let (py, vy) = finish_axis(
        a.position.y,
        a.velocity.y,
        cnt,
        spy,
        svy,
        ry,
        p,
        dt,
        Ghost(s),
        Ghost(i as int),
        Ghost(1),
    );
    let (pz, vz) = finish_axis(
        a.position.z,
        a.velocity.z,
        cnt,
        spz,
        svz,
        rz,
        p,
        dt,
        Ghost(s),
        Ghost(i as int),
        Ghost(2),
    );
    Agent {
        position: Vec3 { x: px, y: py, z: pz },
        velocity: Vec3 { x: vx, y: vy, z: vz },
        color: a.color,
    }
}

/// The flock: an ordered collection of agents and the size a reset restores.
pub struct FlockEngine {
    agents: Vec<Agent>,
    count: usize,
}

impl FlockEngine {
    /// The agents as a sequence; contracts speak of this snapshot.
    pub closed spec fn flock(self) -> Seq<Agent> {
        self.agents@
    }

    /// The configured flock size: how many agents a reset creates.
    pub closed spec fn target_count(self) -> int {
        self.count as int
    }

    /// A well-formed engine: a well-formed flock and a configured size the
    /// engine can spawn.
    pub open spec fn wf(self) -> bool {
        flock_wf(self.flock()) && self.target_count() <= MAX_AGENTS as int
    }

    /// Creates the standard flock: [`DEFAULT_AGENT_COUNT`] agents spawned
    /// at random inside the current box.
    pub fn new(params: &SimulationParameters) -> (r: Self)
        requires
            params.wf(),
        ensures
            r.flock().len() == DEFAULT_AGENT_COUNT,
            r.target_count() == DEFAULT_AGENT_COUNT as int,
            forall|i: int|
                0 <= i < r.flock().len() ==> spawn_ok(#[trigger] r.flock()[i], *params),
            r.wf(),
    {
        let agents: Vec<Agent> = spawn_flock(DEFAULT_AGENT_COUNT, params);
        FlockEngine { agents, count: DEFAULT_AGENT_COUNT }
    }

    /// Discards all agents and spawns a fresh random flock of exactly the
    /// configured size, inside the current box. The flock always holds
    /// exactly that many agents afterwards, regardless of its prior size.
    pub fn reset(&mut self, params: &SimulationParameters)
        requires
            old(self).wf(),
            params.wf(),
        ensures
            final(self).flock().len() == old(self).target_count(),
            final(self).target_count() == old(self).target_count(),
            forall|i: int|
                0 <= i < final(self).flock().len() ==> spawn_ok(
                    #[trigger] final(self).flock()[i],
                    *params,
                ),
            final(self).wf(),
    {
        let n: usize = self.count;
        self.agents = spawn_flock(n, params);
    }

    /// Builds an engine around a given flock; a later reset restores exactly
    /// this many agents.
    pub fn from_agents(agents: Vec<Agent>) -> (r: Self)
        requires
            flock_wf(agents@),
        ensures
            r.flock() == agents@,
            r.target_count() == agents@.len(),
            r.wf(),
    {
        let count: usize = agents.len();
        FlockEngine { agents, count }
    }

    /// Read access to the ordered agent list, for the renderer.
    pub fn agents(&self) -> (r: &Vec<Agent>)
        ensures
            r@ == self.flock(),
    {
        &self.agents
    }

    /// How many agents the flock currently holds.
    pub fn len(&self) -> (n: usize)
        ensures
            n == self.flock().len(),
    {
        self.agents.len()
    }

    /// Advances the whole flock by one tick: every agent's new state is
    /// computed from the same start-of-tick snapshot (no agent observes
    /// another's already-updated state), then the fresh buffer replaces the
    /// flock. Total: no error conditions for any well-formed input.
    pub fn step(&mut self, dt: i64, params: &SimulationParameters)
        requires
            old(self).wf(),
            params.wf(),
            0 <= dt <= BOUND,
        ensures
            final(self).flock().len() == old(self).flock().len(),
            forall|i: int|
                0 <= i < old(self).flock().len() ==> is_stepped(
                    old(self).flock(),
                    i,
                    *params,
                    dt as int,
                    #[trigger] final(self).flock()[i],
                ),
            final(self).target_count() == old(self).target_count(),
            final(self).wf(),
            params.box_size >= 0 ==> forall|i: int|
                0 <= i < final(self).flock().len() ==> {
                    let a = #[trigger] final(self).flock()[i];
                    &&& 0 <= a.position.x <= params.box_size
                    &&& 0 <= a.position.y <= params.box_size
                    &&& 0 <= a.position.z <= params.box_size
                },
            params.max_speed >= 0 ==> forall|i: int|
                0 <= i < final(self).flock().len() ==> {
                    let a = #[trigger] final(self).flock()[i];
                    &&& -params.max_speed <= a.velocity.x <= params.max_speed
                    &&& -params.max_speed <= a.velocity.y <= params.max_speed
                    &&& -params.max_speed <= a.velocity.z <= params.max_speed
                },
    {
        let ghost s = self.agents@;
        let n: usize = self.agents.len();
        let mut out: Vec<Agent> = Vec::new();
        let mut i: usize = 0;
        while i < n
            invariant
                *self == *old(self),
                self.agents@ == s,
                n == s.len(),
                flock_wf(s),
                params.wf(),
                0 <= dt <= BOUND,
                0 <= i <= n,
                out@.len() == i,
                forall|k: int|
                    0 <= k < i ==> is_stepped(s, k, *params, dt as int, #[trigger] out@[k])
                        && out@[k].wf(),
            decreases n - i,
        {
            let a2: Agent = step_agent(&self.agents, i, params, dt);
            out.push(a2);
            i = i + 1;
        }
        proof {
            if params.box_size >= 0 {
                assert forall|k: int| 0 <= k < n implies {
                    let a = #[trigger] out@[k];
                    &&& 0 <= a.position.x <= params.box_size
                    &&& 0 <= a.position.y <= params.box_size
                    &&& 0 <= a.position.z <= params.box_size
                } by {
                    lemma_position_in_box(s, k, *params, dt as int, 0);
                    lemma_position_in_box(s, k, *params, dt as int, 1);
                    lemma_position_in_box(s, k, *params, dt as int, 2);
                }
            }
            if params.max_speed >= 0 {
                assert forall|k: int| 0 <= k < n implies {
                    let a = #[trigger] out@[k];
                    &&& -params.max_speed <= a.velocity.x <= params.max_speed
                    &&& -params.max_speed <= a.velocity.y <= params.max_speed
                    &&& -params.max_speed <= a.velocity.z <= params.max_speed
                } by {
                    lemma_velocity_bounded(s, k, *params, dt as int, 0);
                    lemma_velocity_bounded(s, k, *params, dt as int, 1);
                    lemma_velocity_bounded(s, k, *params, dt as int, 2);
                }
            }
        }
        self.agents = out;
    }
}

} // verus!
