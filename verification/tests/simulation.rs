//! End-to-end tests of the flocking engine on concrete flocks.
//!
//! All quantities are fixed-point thousandths: 1000 stands for 1.0.

use boids::agent::{Agent, Color, Vec3};
use boids::engine::FlockEngine;
use boids::params::SimulationParameters;

fn agent(px: i64, py: i64, pz: i64, vx: i64, vy: i64, vz: i64) -> Agent {
    Agent {
        position: Vec3 { x: px, y: py, z: pz },
        velocity: Vec3 { x: vx, y: vy, z: vz },
        color: Color { red: 500, green: 500, blue: 500, alpha: 1000 },
    }
}

#[test]
fn default_parameters_have_expected_values() {
    let p = SimulationParameters::default();
    assert_eq!(p.max_speed, 500_000);
    assert_eq!(p.view_distance, 10_000);
    assert_eq!(p.min_distance, 5_000);
    assert_eq!(p.box_size, 100_000);
    assert_eq!(p.avoidance, 500);
    assert_eq!(p.centering, 75);
    assert_eq!(p.matching, 200);
}

#[test]
fn step_is_deterministic() {
    let p = SimulationParameters::default();
    let flock = vec![
        agent(10_000, 20_000, 30_000, 1_000, -2_000, 500),
        agent(12_000, 21_000, 29_000, -700, 300, 0),
        agent(90_000, 5_000, 50_000, 4_000, 4_000, -4_000),
        agent(100, 99_900, 50_000, -9_000, 9_000, 1),
    ];
    let mut e1 = FlockEngine::from_agents(flock.clone());
    let mut e2 = FlockEngine::from_agents(flock);
    e1.step(700, &p);
    e2.step(700, &p);
    assert_eq!(e1.agents(), e2.agents());
    e1.step(1_300, &p);
    e2.step(1_300, &p);
    assert_eq!(e1.agents(), e2.agents());
}

#[test]
fn new_flock_has_default_count_and_spawn_ranges() {
    let p = SimulationParameters::default();
    let e = FlockEngine::new(&p);
    assert_eq!(e.len(), 100);
    for a in e.agents() {
        for c in [a.position.x, a.position.y, a.position.z] {
            assert!((0..100_000).contains(&c));
        }
        for c in [a.velocity.x, a.velocity.y, a.velocity.z] {
            assert!((0..10_000).contains(&c));
        }
        for c in [a.color.red, a.color.green, a.color.blue] {
            assert!((0..1_000).contains(&c));
        }
        assert_eq!(a.color.alpha, 1_000);
    }
}

#[test]
fn reset_restores_configured_count() {
    let p = SimulationParameters::default();
    let mut e = FlockEngine::new(&p);
    e.step(1_000, &p);
    e.reset(&p);
    assert_eq!(e.len(), 100);
    e.reset(&p);
    assert_eq!(e.len(), 100);
}

#[test]
fn reset_keeps_small_flock_size() {
    let p = SimulationParameters::default();
    let mut e = FlockEngine::from_agents(vec![
        agent(10_000, 10_000, 10_000, 0, 0, 0),
        agent(20_000, 20_000, 20_000, 0, 0, 0),
        agent(30_000, 30_000, 30_000, 0, 0, 0),
    ]);
    e.reset(&p);
    assert_eq!(e.len(), 3);
}

#[test]
fn boundary_bounce_high_face() {
    // An agent 0.1 from the high wall, moving at +10 along x: the wall push
    // (fixed weight 4) and the alignment pull shape the velocity to 9.68;
    // integration overshoots the wall, so the x velocity flips sign and the
    // position clamps to the wall exactly.
    let p = SimulationParameters::default();
    let mut e = FlockEngine::from_agents(vec![agent(99_900, 50_000, 50_000, 10_000, 0, 0)]);
    e.step(1_000, &p);
    let a = e.agents()[0];
    assert_eq!((a.position.x, a.position.y, a.position.z), (100_000, 50_000, 50_000));
    assert_eq!((a.velocity.x, a.velocity.y, a.velocity.z), (-9_680, 0, 0));
}

#[test]
fn boundary_bounce_low_face() {
    let p = SimulationParameters::default();
    let mut e = FlockEngine::from_agents(vec![agent(100, 50_000, 50_000, -10_000, 0, 0)]);
    e.step(1_000, &p);
    let a = e.agents()[0];
    assert_eq!((a.position.x, a.position.y, a.position.z), (0, 50_000, 50_000));
    assert_eq!((a.velocity.x, a.velocity.y, a.velocity.z), (9_680, 0, 0));
}

#[test]
fn coincident_agents_drift_without_interaction() {
    // Two agents at the same position with the same velocity, one tick of
    // 1.0: separation is excluded at distance zero, the centroid equals the
    // shared position and the average velocity equals the shared velocity,
    // so the velocities stay unchanged and the positions advance by exactly
    // one velocity.
    let p = SimulationParameters::default();
    let mut e = FlockEngine::from_agents(vec![
        agent(50_000, 50_000, 50_000, 1_000, 2_000, 3_000),
        agent(50_000, 50_000, 50_000, 1_000, 2_000, 3_000),
    ]);
    e.step(1_000, &p);
    for a in e.agents() {
        assert_eq!((a.position.x, a.position.y, a.position.z), (51_000, 52_000, 53_000));
        assert_eq!((a.velocity.x, a.velocity.y, a.velocity.z), (1_000, 2_000, 3_000));
    }
}

#[test]
fn coincident_agents_no_separation_but_alignment() {
    // Two agents exactly on top of each other never repel (distance zero is
    // excluded from separation), yet each counts in the other's neighbor
    // averages: alignment pulls both velocities toward the mean of 2.0 and
    // 0.0 along x; nothing blows up.
    let p = SimulationParameters::default();
    let mut e = FlockEngine::from_agents(vec![
        agent(50_000, 50_000, 50_000, 2_000, 0, 0),
        agent(50_000, 50_000, 50_000, 0, 0, 0),
    ]);
    e.step(1_000, &p);
    let a0 = e.agents()[0];
    let a1 = e.agents()[1];
    assert_eq!(a0.velocity.x, 1_800);
    assert_eq!(a0.position.x, 51_800);
    assert_eq!(a1.velocity.x, 200);
    assert_eq!(a1.position.x, 50_200);
}

#[test]
fn separation_pushes_close_agents_apart() {
    // Two agents 3.0 apart (inside the 5.0 minimum distance) repel each
    // other symmetrically along x.
    let p = SimulationParameters::default();
    let mut e = FlockEngine::from_agents(vec![
        agent(50_000, 50_000, 50_000, 0, 0, 0),
        agent(53_000, 50_000, 50_000, 0, 0, 0),
    ]);
    e.step(1_000, &p);
    let a0 = e.agents()[0];
    let a1 = e.agents()[1];
    assert_eq!((a0.position.x, a0.velocity.x), (48_889, -1_111));
    assert_eq!((a1.position.x, a1.velocity.x), (54_111, 1_111));
}

#[test]
fn velocity_clamped_to_max_speed() {
    // With no neighbors and no nearby wall, a 5.0 velocity against a 1.0
    // speed cap comes out clamped to the cap; dt of zero leaves the
    // position alone.
    let p = SimulationParameters {
        max_speed: 1_000,
        view_distance: 0,
        min_distance: 0,
        box_size: 100_000,
        avoidance: 500,
        centering: 75,
        matching: 200,
    };
    let mut e = FlockEngine::from_agents(vec![agent(50_000, 50_000, 50_000, 5_000, 0, 0)]);
    e.step(0, &p);
    let a = e.agents()[0];
    assert_eq!(a.position.x, 50_000);
    assert_eq!(a.velocity.x, 1_000);
}

#[test]
fn overshoot_clamps_position_and_flips_velocity() {
    // A large dt sends the agent far past the wall in one tick: the x
    // velocity flips sign and the position clamps to the wall exactly.
    let p = SimulationParameters::default();
    let mut e = FlockEngine::from_agents(vec![agent(50_000, 50_000, 50_000, 10_000, 0, 0)]);
    e.step(100_000, &p);
    let a = e.agents()[0];
    assert_eq!(a.position.x, 100_000);
    assert_eq!(a.velocity.x, -10_000);
}

#[test]
fn step_preserves_colors_and_order() {
    let p = SimulationParameters::default();
    let mut red = agent(10_000, 10_000, 10_000, 0, 0, 0);
    red.color = Color { red: 900, green: 0, blue: 0, alpha: 1000 };
    let mut blue = agent(80_000, 80_000, 80_000, 0, 0, 0);
    blue.color = Color { red: 0, green: 0, blue: 900, alpha: 1000 };
    let mut e = FlockEngine::from_agents(vec![red, blue]);
    e.step(1_000, &p);
    assert_eq!(e.agents()[0].color, red.color);
    assert_eq!(e.agents()[1].color, blue.color);
}

#[test]
fn positions_and_velocities_stay_bounded_over_many_ticks() {
    // The containment and speed-cap invariants, observed over a run: after
    // every tick every component lies in the box and under the cap.
    let p = SimulationParameters::default();
    let mut e = FlockEngine::new(&p);
    for _ in 0..50 {
        e.step(16, &p);
        for a in e.agents() {
            for c in [a.position.x, a.position.y, a.position.z] {
                assert!((0..=100_000).contains(&c));
            }
            for c in [a.velocity.x, a.velocity.y, a.velocity.z] {
                assert!((-500_000..=500_000).contains(&c));
            }
        }
    }
}
