//! The RNG-facing layer: spawning and jitter drawing, checked through
//! what must hold of every draw.

use flocksim::config::SimConfig;
use flocksim::rng::{calc_movement, spawn_vehicles};
use flocksim::sim::update;
use flocksim::vec2::Vec2Fx;

#[test]
fn spawned_agents_rest_inside_bounds() {
    let cfg = SimConfig::standard();
    let bounds = Vec2Fx::new(540_000, 260_000);
    let agents = spawn_vehicles(200, bounds, &cfg);
    assert_eq!(agents.len(), 200);
    for a in &agents {
        assert!(a.position.x.abs() <= bounds.x);
        assert!(a.position.y.abs() <= bounds.y);
        assert_eq!((a.velocity.x, a.velocity.y), (0, 0));
        assert_eq!((a.acceleration.x, a.acceleration.y), (0, 0));
        assert_eq!(a.mass, cfg.mass);
        assert_eq!(a.wander_theta, 0);
    }
}

#[test]
fn spawn_spreads_agents_out() {
    let cfg = SimConfig::standard();
    let bounds = Vec2Fx::new(540_000, 260_000);
    let agents = spawn_vehicles(64, bounds, &cfg);
    let first = agents[0].position;
    assert!(agents.iter().any(|a| a.position != first));
}

#[test]
fn random_composition_touches_only_acceleration_and_heading() {
    let cfg = SimConfig::standard();
    let bounds = Vec2Fx::new(540_000, 260_000);
    let mut agents = spawn_vehicles(20, bounds, &cfg);
    let before = agents.clone();
    calc_movement(&mut agents, None, bounds, &cfg);
    assert_eq!(agents.len(), before.len());
    for (a, b) in agents.iter().zip(before.iter()) {
        assert_eq!(a.position, b.position);
        assert_eq!(a.velocity, b.velocity);
        assert_eq!(a.mass, b.mass);
        assert!(a.wander_theta >= 0);
        assert!(a.wander_theta < flocksim::trig::TWO_PI_FX);
    }
}

#[test]
fn a_full_random_tick_keeps_the_speed_cap() {
    let cfg = SimConfig::standard();
    let bounds = Vec2Fx::new(540_000, 260_000);
    let mut agents = spawn_vehicles(50, bounds, &cfg);
    for _ in 0..10 {
        calc_movement(&mut agents, None, bounds, &cfg);
        update(&mut agents, 16, &cfg);
        for a in &agents {
            assert!(a.velocity.x.abs() <= cfg.max_speed);
            assert!(a.velocity.y.abs() <= cfg.max_speed);
        }
    }
}
