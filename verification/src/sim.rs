//! The per-tick drive of the simulation: force composition, then
//! integration.
//!
//! The composer reads a snapshot of all agents taken before any of them
//! changes, decides each agent's mode — seek toward an external target,
//! or autonomous wander with boundary containment — and writes only that
//! agent's acceleration (and wander heading). The integrator then turns
//! the accumulated acceleration into clamped velocity and new position,
//! and resets the accumulator. Both passes touch each agent exactly
//! once, and neither reads another agent's acceleration.

use vstd::prelude::*;

use crate::config::SimConfig;
use crate::flock::{flock, spec_accel_of, spec_flock_accel};
use crate::fx::{div_t, lemma_div_t_le, mul_div, spec_abs, spec_clamp, CFG_MAX, COUNT_MAX,
    POS_LIMIT, SCALE};
use crate::steering::{
    boundary_steer, seek_steer, spec_bound_axis, spec_out_of_bounds, spec_seek,
    spec_steer_force, spec_wander, steer_force, wander_steer,
};
use crate::trig::spec_wrap;
use crate::vec2::{in_box, pair_vec, Vec2Fx};
use crate::vehicle::Vehicle;

verus! {

/// The desired velocity of boundary containment, as a vector pair.
pub open spec fn spec_bound_des(f: Vehicle, bounds: Vec2Fx, cfg: SimConfig) -> (int, int) {
    (
        spec_bound_axis(f.position.x as int, f.velocity.x as int, bounds.x as int,
            cfg.max_speed as int),
        spec_bound_axis(f.position.y as int, f.velocity.y as int, bounds.y as int,
            cfg.max_speed as int),
    )
}

/// The acceleration the composer gives one agent in one tick. In seek
/// mode: the seek force toward the target, plus all flocking forces. In
/// autonomous mode: boundary containment alone for an agent outside the
/// bounds, else all flocking forces plus wander.
pub open spec fn spec_compose_accel(f: Vehicle, os: Seq<Vehicle>, target: Option<Vec2Fx>,
    bounds: Vec2Fx, jitter: int, cfg: SimConfig) -> (int, int) {
    match target {
        Option::Some(t) => {
            let sf = spec_accel_of(
                spec_steer_force(
                    pair_vec(spec_seek(t, f.position, cfg)),
                    f.velocity,
                    cfg.seek_weight as int,
                    cfg.max_force as int,
                ),
                cfg.mass as int,
            );
            let fa = spec_flock_accel(f, os, cfg);
            (sf.0 + fa.0, sf.1 + fa.1)
        },
        Option::None => {
            if spec_out_of_bounds(f.position, bounds) {
                spec_accel_of(
                    spec_steer_force(
                        pair_vec(spec_bound_des(f, bounds, cfg)),
                        f.velocity,
                        cfg.boundary_weight as int,
                        cfg.max_force as int,
                    ),
                    cfg.mass as int,
                )
            } else {
                let fa = spec_flock_accel(f, os, cfg);
                let wf = spec_accel_of(
                    spec_steer_force(
                        pair_vec(
                            spec_wander(f.position, f.velocity, f.wander_theta as int, jitter,
                                cfg),
                        ),
                        f.velocity,
                        cfg.wander_weight as int,
                        cfg.max_force as int,
                    ),
                    cfg.mass as int,
                );
                (fa.0 + wf.0, fa.1 + wf.1)
            }
        },
    }
}

/// The wander heading after one composition: jittered and wrapped only
/// for an in-bounds agent in autonomous mode, untouched otherwise.
pub open spec fn spec_compose_theta(f: Vehicle, target: Option<Vec2Fx>, bounds: Vec2Fx,
    jitter: int) -> int {
    match target {
        Option::Some(_) => f.wander_theta as int,
        Option::None => if spec_out_of_bounds(f.position, bounds) {
            f.wander_theta as int
        } else {
            spec_wrap(f.wander_theta + jitter)
        },
    }
}

/// A velocity component after integration: the acceleration added, then
/// clamped to the speed cap.
pub open spec fn spec_new_vel_axis(v: int, a: int, max_speed: int) -> int {
    spec_clamp(v + a, -max_speed, max_speed)
}

/// A position component after integration: advanced by the new velocity
/// for `dt` fixed-point seconds.
pub open spec fn spec_new_pos_axis(p: int, nv: int, dt: int) -> int {
    p + div_t(nv * dt, SCALE as int)
}

/// Compose the forces for every agent from one consistent snapshot, with
/// the wander jitter for each agent supplied explicitly: the whole pass
/// is a deterministic function of its arguments. Requires every
/// accumulator to be empty, as it is between ticks; afterwards each
/// agent's acceleration holds exactly its composed forces, and position,
/// velocity and mass are untouched.
pub fn calc_movement_with(agents: &mut Vec<Vehicle>, target: Option<Vec2Fx>, bounds: Vec2Fx,
    jitters: &Vec<i64>, cfg: &SimConfig)
    requires
        cfg.wf(),
        old(agents)@.len() <= COUNT_MAX,
        forall|k: int| 0 <= k < old(agents)@.len() ==> (#[trigger] old(agents)@[k]).wf(*cfg),
        forall|k: int| 0 <= k < old(agents)@.len() ==> (#[trigger] old(agents)@[k]).acceleration
            == (Vec2Fx { x: 0i64, y: 0i64 }),
        jitters@.len() == old(agents)@.len(),
        forall|k: int| 0 <= k < jitters@.len() ==> -cfg.jitter_range <= #[trigger] jitters@[k]
            <= cfg.jitter_range,
        0 <= bounds.x <= POS_LIMIT && 0 <= bounds.y <= POS_LIMIT,
        target is Some ==> in_box(target->Some_0, POS_LIMIT as int),
    ensures
        final(agents)@.len() == old(agents)@.len(),
        forall|i: int| 0 <= i < old(agents)@.len() ==> {
            let a0 = old(agents)@[i];
            let a1 = #[trigger] final(agents)@[i];
            &&& a1.position == a0.position
            &&& a1.velocity == a0.velocity
            &&& a1.mass == a0.mass
            &&& a1.acceleration.x == spec_compose_accel(a0, old(agents)@, target, bounds,
                jitters@[i] as int, *cfg).0
            &&& a1.acceleration.y == spec_compose_accel(a0, old(agents)@, target, bounds,
                jitters@[i] as int, *cfg).1
            &&& a1.wander_theta == spec_compose_theta(a0, target, bounds, jitters@[i] as int)
            &&& a1.wf(*cfg)
        },
{
    let n: usize = agents.len();
    let mut snap: Vec<Vehicle> = Vec::new();
    let mut i: usize = 0;
    while i < n
        invariant
            agents@.len() == n,
            i <= n,
            snap@.len() == i,
            forall|k: int| 0 <= k < i ==> snap@[k] == agents@[k],
        decreases n - i,
    {
        let v: Vehicle = agents[i];
        snap.push(v);
        i = i + 1;
    }
    proof {
        assert(snap@ =~= agents@);
    }

    let mut i: usize = 0;
    while i < n
        invariant
            cfg.wf(),
            agents@.len() == n,
            n <= COUNT_MAX,
            snap@ == old(agents)@,
            snap@.len() == n,
            forall|k: int| 0 <= k < n ==> (#[trigger] snap@[k]).wf(*cfg),
            forall|k: int| 0 <= k < n ==> (#[trigger] snap@[k]).acceleration == (Vec2Fx {
                x: 0i64,
                y: 0i64,
            }),
            jitters@.len() == n,
            forall|k: int| 0 <= k < n ==> -cfg.jitter_range <= #[trigger] jitters@[k]
                <= cfg.jitter_range,
            0 <= bounds.x <= POS_LIMIT && 0 <= bounds.y <= POS_LIMIT,
            target is Some ==> in_box(target->Some_0, POS_LIMIT as int),
            i <= n,
            forall|k: int| i <= k < n ==> agents@[k] == snap@[k],
            forall|k: int| 0 <= k < i ==> {
                let a0 = snap@[k];
                let a1 = #[trigger] agents@[k];
                &&& a1.position == a0.position
                &&& a1.velocity == a0.velocity
                &&& a1.mass == a0.mass
                &&& a1.acceleration.x == spec_compose_accel(a0, snap@, target, bounds,
                    jitters@[k] as int, *cfg).0
                &&& a1.acceleration.y == spec_compose_accel(a0, snap@, target, bounds,
                    jitters@[k] as int, *cfg).1
                &&& a1.wander_theta == spec_compose_theta(a0, target, bounds,
                    jitters@[k] as int)
                &&& a1.wf(*cfg)
            },
        decreases n - i,
    {
        let mut a: Vehicle = agents[i];
        let jitter: i64 = jitters[i];
        proof {
            assert(agents@[i as int] == snap@[i as int]);
            assert(a.wf(*cfg));
            assert(a.acceleration == (Vec2Fx { x: 0i64, y: 0i64 }));
            assert(in_box(a.velocity, CFG_MAX as int));
        }
        match target {
            Option::Some(t) => {
                flock(&mut a, &snap, cfg);
                let des: Vec2Fx = seek_steer(t, a.position, cfg);
                let force: Vec2Fx = steer_force(des, a.velocity, cfg.seek_weight, cfg);
                a.apply_force(force);
            },
            Option::None => {
                let out: bool = a.position.x > bounds.x || a.position.x < -bounds.x
                    || a.position.y > bounds.y || a.position.y < -bounds.y;
                if out {
                    let des: Vec2Fx = boundary_steer(a.position, a.velocity, bounds, cfg);
                    let force: Vec2Fx = steer_force(des, a.velocity, cfg.boundary_weight, cfg);
                    a.apply_force(force);
                } else {
                    flock(&mut a, &snap, cfg);
                    let dt: (Vec2Fx, i64) = wander_steer(a.position, a.velocity,
                        a.wander_theta, jitter, cfg);
                    let force: Vec2Fx = steer_force(dt.0, a.velocity, cfg.wander_weight, cfg);
                    a.apply_force(force);
                    a.wander_theta = dt.1;
                }
            },
        }
        agents[i] = a;
        i = i + 1;
    }
}

/// Integrate every agent: add the accumulated acceleration to the
/// velocity and clamp each component to the speed cap, advance the
/// position by the new velocity over `dt`, and empty the accumulator.
/// Afterwards every velocity component is within the speed cap.
pub fn update(agents: &mut Vec<Vehicle>, dt: i64, cfg: &SimConfig)
    requires
        cfg.wf(),
        0 <= dt <= CFG_MAX,
        forall|k: int| 0 <= k < old(agents)@.len() ==> (#[trigger] old(agents)@[k]).wf(*cfg),
    ensures
        final(agents)@.len() == old(agents)@.len(),
        forall|i: int| 0 <= i < old(agents)@.len() ==> {
            let a0 = old(agents)@[i];
            let a1 = #[trigger] final(agents)@[i];
            &&& a1.velocity.x == spec_new_vel_axis(a0.velocity.x as int,
                a0.acceleration.x as int, cfg.max_speed as int)
            &&& a1.velocity.y == spec_new_vel_axis(a0.velocity.y as int,
                a0.acceleration.y as int, cfg.max_speed as int)
            &&& a1.position.x == spec_new_pos_axis(a0.position.x as int, a1.velocity.x as int,
                dt as int)
            &&& a1.position.y == spec_new_pos_axis(a0.position.y as int, a1.velocity.y as int,
                dt as int)
            &&& a1.acceleration == (Vec2Fx { x: 0i64, y: 0i64 })
            &&& a1.mass == a0.mass
            &&& a1.wander_theta == a0.wander_theta
            &&& in_box(a1.velocity, cfg.max_speed as int)
        },
{
    let n: usize = agents.len();
    let mut i: usize = 0;
    while i < n
        invariant
            cfg.wf(),
            0 <= dt <= CFG_MAX,
            agents@.len() == n,
            i <= n,
            forall|k: int| i <= k < n ==> agents@[k] == old(agents)@[k],
            forall|k: int| 0 <= k < n ==> (#[trigger] old(agents)@[k]).wf(*cfg),
            forall|k: int| 0 <= k < i ==> {
                let a0 = old(agents)@[k];
                let a1 = #[trigger] agents@[k];
                &&& a1.velocity.x == spec_new_vel_axis(a0.velocity.x as int,
                    a0.acceleration.x as int, cfg.max_speed as int)
                &&& a1.velocity.y == spec_new_vel_axis(a0.velocity.y as int,
                    a0.acceleration.y as int, cfg.max_speed as int)
                &&& a1.position.x == spec_new_pos_axis(a0.position.x as int,
                    a1.velocity.x as int, dt as int)
                &&& a1.position.y == spec_new_pos_axis(a0.position.y as int,
                    a1.velocity.y as int, dt as int)
                &&& a1.acceleration == (Vec2Fx { x: 0i64, y: 0i64 })
                &&& a1.mass == a0.mass
                &&& a1.wander_theta == a0.wander_theta
                &&& in_box(a1.velocity, cfg.max_speed as int)
            },
        decreases n - i,
    {
        let mut a: Vehicle = agents[i];
        let nv: Vec2Fx = a.velocity.plus(a.acceleration).clamp_sym(cfg.max_speed);
        proof {
            assert(spec_abs(nv.x as int * dt as int) <= SCALE as int * i64::MAX as int
                && spec_abs(nv.y as int * dt as int) <= SCALE as int * i64::MAX as int
                && spec_abs(nv.x as int * dt as int) <= 0x100_0000_0000int * SCALE as int
                && spec_abs(nv.y as int * dt as int) <= 0x100_0000_0000int * SCALE as int)
                by (nonlinear_arith)
                requires
                    spec_abs(nv.x as int) <= CFG_MAX as int,
                    spec_abs(nv.y as int) <= CFG_MAX as int,
                    0 <= dt <= CFG_MAX,
            ;
        }
        let sx: i64 = mul_div(nv.x, dt, SCALE);
        let sy: i64 = mul_div(nv.y, dt, SCALE);
        proof {
            lemma_div_t_le(nv.x as int * dt as int, SCALE as int, 0x100_0000_0000int);
            lemma_div_t_le(nv.y as int * dt as int, SCALE as int, 0x100_0000_0000int);
        }
        a.velocity = nv;
        a.position = Vec2Fx { x: a.position.x + sx, y: a.position.y + sy };
        a.acceleration = Vec2Fx { x: 0, y: 0 };
        agents[i] = a;
        i = i + 1;
    }
}

/// One whole tick: compose the forces for every agent from the committed
/// snapshot, then integrate every agent. The two passes never overlap,
/// which is the design's answer to shared state: composition reads
/// positions and velocities that integration has not yet touched.
pub fn tick(agents: &mut Vec<Vehicle>, target: Option<Vec2Fx>, bounds: Vec2Fx, jitters: &Vec<
    i64>, dt: i64, cfg: &SimConfig)
    requires
        cfg.wf(),
        old(agents)@.len() <= COUNT_MAX,
        forall|k: int| 0 <= k < old(agents)@.len() ==> (#[trigger] old(agents)@[k]).wf(*cfg),
        forall|k: int| 0 <= k < old(agents)@.len() ==> (#[trigger] old(agents)@[k]).acceleration
            == (Vec2Fx { x: 0i64, y: 0i64 }),
        jitters@.len() == old(agents)@.len(),
        forall|k: int| 0 <= k < jitters@.len() ==> -cfg.jitter_range <= #[trigger] jitters@[k]
            <= cfg.jitter_range,
        0 <= bounds.x <= POS_LIMIT && 0 <= bounds.y <= POS_LIMIT,
        target is Some ==> in_box(target->Some_0, POS_LIMIT as int),
        0 <= dt <= CFG_MAX,
    ensures
        final(agents)@.len() == old(agents)@.len(),
        forall|i: int| 0 <= i < old(agents)@.len() ==> {
            let a0 = old(agents)@[i];
            let acc = spec_compose_accel(a0, old(agents)@, target, bounds, jitters@[i] as int,
                *cfg);
            let a1 = #[trigger] final(agents)@[i];
            &&& a1.velocity.x == spec_new_vel_axis(a0.velocity.x as int, acc.0,
                cfg.max_speed as int)
            &&& a1.velocity.y == spec_new_vel_axis(a0.velocity.y as int, acc.1,
                cfg.max_speed as int)
            &&& a1.position.x == spec_new_pos_axis(a0.position.x as int, a1.velocity.x as int,
                dt as int)
            &&& a1.position.y == spec_new_pos_axis(a0.position.y as int, a1.velocity.y as int,
                dt as int)
            &&& a1.acceleration == (Vec2Fx { x: 0i64, y: 0i64 })
            &&& a1.mass == a0.mass
            &&& a1.wander_theta == spec_compose_theta(a0, target, bounds, jitters@[i] as int)
            &&& in_box(a1.velocity, cfg.max_speed as int)
        },
{
    calc_movement_with(agents, target, bounds, jitters, cfg);
    update(agents, dt, cfg);
}

} // verus!
