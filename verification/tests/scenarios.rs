//! End-to-end scenarios of the steering engine on concrete agents.

use flocksim::config::{world_bounds, SimConfig};
use flocksim::flock::flock;
use flocksim::sim::{calc_movement_with, tick, update};
use flocksim::steering::{boundary_steer, seek_steer, steer_force};
use flocksim::vec2::Vec2Fx;
use flocksim::vehicle::Vehicle;

fn quiet_flock_config() -> SimConfig {
    let mut cfg = SimConfig::standard();
    cfg.separation_dist = 0;
    cfg.align_dist = 0;
    cfg.cohesion_dist = 0;
    cfg.view_dist = 0;
    cfg
}

#[test]
fn seek_far_target_desires_full_speed() {
    let cfg = SimConfig::standard();
    let desired = seek_steer(Vec2Fx::new(0, 0), Vec2Fx::new(100_000, 0), &cfg);
    assert_eq!((desired.x, desired.y), (-300_000, 0));
}

#[test]
fn seek_inside_arrival_radius_slows_linearly() {
    let cfg = SimConfig::standard();
    let desired = seek_steer(Vec2Fx::new(0, 0), Vec2Fx::new(25_000, 0), &cfg);
    assert_eq!((desired.x, desired.y), (-150_000, 0));
}

#[test]
fn seek_on_target_desires_nothing() {
    let cfg = SimConfig::standard();
    let p = Vec2Fx::new(42_000, -7_000);
    let desired = seek_steer(p, p, &cfg);
    assert_eq!((desired.x, desired.y), (0, 0));
}

#[test]
fn force_is_capped_per_component() {
    let cfg = SimConfig::standard();
    let desired = Vec2Fx::new(500_000, -500_000);
    let force = steer_force(desired, Vec2Fx::zero(), 1000, &cfg);
    assert_eq!((force.x, force.y), (120_000, -120_000));
}

#[test]
fn two_agent_separation_pushes_minus_x() {
    let mut cfg = quiet_flock_config();
    cfg.max_force = 80_000;
    cfg.separation_dist = 5_000;
    cfg.separation_weight = 1000;
    let a0 = Vehicle::spawn_at(Vec2Fx::new(0, 0), &cfg);
    let a1 = Vehicle::spawn_at(Vec2Fx::new(1000, 0), &cfg);
    let others = vec![a0, a1];
    let mut focal = a0;
    flock(&mut focal, &others, &cfg);
    assert_eq!((focal.acceleration.x, focal.acceleration.y), (-8000, 0));
    assert!(focal.acceleration.x < 0);
}

#[test]
fn flock_with_no_neighbor_in_range_adds_nothing() {
    let cfg = SimConfig::standard();
    let a0 = Vehicle::spawn_at(Vec2Fx::new(0, 0), &cfg);
    let a1 = Vehicle::spawn_at(Vec2Fx::new(10_000_000, 0), &cfg);
    let others = vec![a0, a1];
    let mut focal = a0;
    flock(&mut focal, &others, &cfg);
    assert_eq!((focal.acceleration.x, focal.acceleration.y), (0, 0));
}

#[test]
fn coincident_neighbor_is_skipped() {
    let cfg = SimConfig::standard();
    let a0 = Vehicle::spawn_at(Vec2Fx::new(500, 500), &cfg);
    let a1 = Vehicle::spawn_at(Vec2Fx::new(500, 500), &cfg);
    let others = vec![a0, a1];
    let mut focal = a0;
    flock(&mut focal, &others, &cfg);
    assert_eq!((focal.acceleration.x, focal.acceleration.y), (0, 0));
}

#[test]
fn view_cone_dodges_the_cheaper_way() {
    let mut cfg = quiet_flock_config();
    cfg.view_dist = 16_000;
    let mut focal = Vehicle::spawn_at(Vec2Fx::new(0, 0), &cfg);
    focal.velocity = Vec2Fx::new(1000, 0);
    let blocker = Vehicle::spawn_at(Vec2Fx::new(5000, 100), &cfg);
    let others = vec![focal, blocker];
    let mut a = focal;
    flock(&mut a, &others, &cfg);
    assert_eq!((a.acceleration.x, a.acceleration.y), (700, -16_800));
}

#[test]
fn neighbor_behind_is_not_in_view() {
    let mut cfg = quiet_flock_config();
    cfg.view_dist = 16_000;
    let mut focal = Vehicle::spawn_at(Vec2Fx::new(0, 0), &cfg);
    focal.velocity = Vec2Fx::new(1000, 0);
    let behind = Vehicle::spawn_at(Vec2Fx::new(-5000, 0), &cfg);
    let others = vec![focal, behind];
    let mut a = focal;
    flock(&mut a, &others, &cfg);
    assert_eq!((a.acceleration.x, a.acceleration.y), (0, 0));
}

#[test]
fn boundary_overrides_only_violated_axis() {
    let cfg = SimConfig::standard();
    let desired = boundary_steer(
        Vec2Fx::new(600_000, 0),
        Vec2Fx::new(5, 7),
        Vec2Fx::new(500_000, 500_000),
        &cfg,
    );
    assert_eq!((desired.x, desired.y), (-300_000, 7));
    let desired = boundary_steer(
        Vec2Fx::new(0, -600_000),
        Vec2Fx::new(5, 7),
        Vec2Fx::new(500_000, 500_000),
        &cfg,
    );
    assert_eq!((desired.x, desired.y), (5, 300_000));
}

#[test]
fn out_of_bounds_agent_turns_back_within_one_tick() {
    let cfg = SimConfig::standard();
    let bounds = Vec2Fx::new(500_000, 500_000);
    let agent = Vehicle::spawn_at(Vec2Fx::new(600_000, 0), &cfg);
    let mut agents = vec![agent];
    let jitters = vec![0i64];
    tick(&mut agents, None, bounds, &jitters, 16, &cfg);
    assert_eq!(agents[0].velocity.x, -19_200);
    assert_eq!(agents[0].velocity.y, 0);
    assert!(agents[0].velocity.x < 0);
}

#[test]
fn integration_round_trip_is_exact() {
    let cfg = SimConfig::standard();
    let mut agents = vec![Vehicle {
        position: Vec2Fx::new(1000, 2000),
        velocity: Vec2Fx::new(100, -50),
        acceleration: Vec2Fx::new(30, 40),
        mass: cfg.mass,
        wander_theta: 0,
    }];
    update(&mut agents, 16, &cfg);
    assert_eq!((agents[0].velocity.x, agents[0].velocity.y), (130, -10));
    assert_eq!((agents[0].position.x, agents[0].position.y), (1002, 2000));
    assert_eq!((agents[0].acceleration.x, agents[0].acceleration.y), (0, 0));
}

#[test]
fn velocity_is_capped_after_integration() {
    let cfg = SimConfig::standard();
    let mut agents = vec![Vehicle {
        position: Vec2Fx::new(0, 0),
        velocity: Vec2Fx::new(0, 0),
        acceleration: Vec2Fx::new(10_000_000, -10_000_000),
        mass: cfg.mass,
        wander_theta: 0,
    }];
    update(&mut agents, 16, &cfg);
    assert_eq!((agents[0].velocity.x, agents[0].velocity.y), (300_000, -300_000));
    assert!(agents[0].velocity.x.abs() <= cfg.max_speed);
    assert!(agents[0].velocity.y.abs() <= cfg.max_speed);
}

#[test]
fn speed_cap_holds_over_many_ticks() {
    let cfg = SimConfig::standard();
    let bounds = Vec2Fx::new(500_000, 500_000);
    let mut agents = vec![
        Vehicle::spawn_at(Vec2Fx::new(0, 0), &cfg),
        Vehicle::spawn_at(Vec2Fx::new(4000, 0), &cfg),
        Vehicle::spawn_at(Vec2Fx::new(0, 4000), &cfg),
    ];
    let jitters = vec![100i64, -200, 392];
    for _ in 0..50 {
        tick(&mut agents, None, bounds, &jitters, 16, &cfg);
        for a in &agents {
            assert!(a.velocity.x.abs() <= cfg.max_speed);
            assert!(a.velocity.y.abs() <= cfg.max_speed);
        }
    }
}

#[test]
fn wander_trajectories_repeat_under_equal_jitter() {
    let cfg = SimConfig::standard();
    let bounds = Vec2Fx::new(500_000, 500_000);
    let start = vec![
        Vehicle::spawn_at(Vec2Fx::new(1000, 2000), &cfg),
        Vehicle::spawn_at(Vec2Fx::new(-3000, 500), &cfg),
        Vehicle::spawn_at(Vec2Fx::new(0, -8000), &cfg),
    ];
    let jitter_plan = vec![
        vec![100i64, -50, 392],
        vec![-392i64, 0, 17],
        vec![5i64, 5, 5],
        vec![-100i64, 200, -300],
        vec![0i64, 0, 0],
    ];
    let mut run1 = start.clone();
    let mut run2 = start.clone();
    for js in &jitter_plan {
        tick(&mut run1, None, bounds, js, 16, &cfg);
    }
    for js in &jitter_plan {
        tick(&mut run2, None, bounds, js, 16, &cfg);
    }
    assert_eq!(run1, run2);
    assert_ne!(run1, start);
}

#[test]
fn seek_mode_still_applies_flocking() {
    let cfg = SimConfig::standard();
    let bounds = Vec2Fx::new(500_000, 500_000);
    let target = Some(Vec2Fx::new(200_000, 0));
    let mut solo = vec![Vehicle::spawn_at(Vec2Fx::new(0, 0), &cfg)];
    let mut pair = vec![
        Vehicle::spawn_at(Vec2Fx::new(0, 0), &cfg),
        Vehicle::spawn_at(Vec2Fx::new(1000, 0), &cfg),
    ];
    let js1 = vec![0i64];
    let js2 = vec![0i64, 0];
    calc_movement_with(&mut solo, target, bounds, &js1, &cfg);
    calc_movement_with(&mut pair, target, bounds, &js2, &cfg);
    // Alone, only the seek force acts; with a close neighbor the
    // separation force pushes the same agent differently.
    assert!(solo[0].acceleration.x > 0);
    assert_ne!(pair[0].acceleration.x, solo[0].acceleration.x);
}

#[test]
fn world_bounds_are_half_extents_minus_margin() {
    let b = world_bounds(1_280_000, 720_000, 100_000);
    assert_eq!((b.x, b.y), (540_000, 260_000));
}

#[test]
fn empty_population_is_a_valid_simulation() {
    let cfg = SimConfig::standard();
    let bounds = Vec2Fx::new(500_000, 500_000);
    let mut agents: Vec<flocksim::vehicle::Vehicle> = Vec::new();
    let jitters: Vec<i64> = Vec::new();
    tick(&mut agents, None, bounds, &jitters, 16, &cfg);
    assert!(agents.is_empty());
}

#[test]
fn zero_velocity_gives_no_view_bearing() {
    let mut cfg = quiet_flock_config();
    cfg.view_dist = 16_000;
    let focal = Vehicle::spawn_at(Vec2Fx::new(0, 0), &cfg);
    let blocker = Vehicle::spawn_at(Vec2Fx::new(5000, 0), &cfg);
    let others = vec![focal, blocker];
    let mut a = focal;
    flock(&mut a, &others, &cfg);
    assert_eq!((a.acceleration.x, a.acceleration.y), (0, 0));
}

#[test]
fn wander_step_is_exact_for_zero_jitter() {
    let cfg = SimConfig::standard();
    let bounds = Vec2Fx::new(500_000, 500_000);
    let mut agents = vec![Vehicle::spawn_at(Vec2Fx::new(0, 0), &cfg)];
    let jitters = vec![0i64];
    tick(&mut agents, None, bounds, &jitters, 16, &cfg);
    // Heading zero points along +x on the predict circle: the desired
    // velocity is wander speed forward, the force caps at max force, and
    // one tick of that force moves the agent a little along +x.
    assert_eq!((agents[0].velocity.x, agents[0].velocity.y), (9600, 0));
    assert_eq!((agents[0].position.x, agents[0].position.y), (153, 0));
    assert_eq!(agents[0].wander_theta, 0);
}

#[test]
fn heading_is_a_function_of_velocity() {
    let cfg = SimConfig::standard();
    let mut a = Vehicle::spawn_at(Vec2Fx::new(0, 0), &cfg);
    a.velocity = Vec2Fx::new(0, 300_000);
    assert_eq!(a.heading(), 0);
    a.velocity = Vec2Fx::new(300_000, 0);
    assert_eq!(a.heading(), -1570);
    a.velocity = Vec2Fx::new(-300_000, 0);
    assert_eq!(a.heading(), 1571);
}
