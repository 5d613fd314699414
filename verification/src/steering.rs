//! Steering primitives: each computes a desired velocity from local
//! state, and one shared rule turns a desired velocity into a weighted
//! force.
//!
//! The force rule is deliberately component-wise: each axis of
//! `desired - velocity` is clamped to the force cap on its own, before
//! the weight is applied, so a diagonal desire can carry up to the cap on
//! both axes at once. The velocity cap in the integrator works the same
//! way.

use vstd::prelude::*;

use crate::config::SimConfig;
use crate::fx::{
    div_t, lemma_div_t_le, mul_div, spec_abs, spec_clamp, CFG_MAX, POS_LIMIT, SCALE,
};
use crate::trig::{cos_fx, sin_fx, spec_cos, spec_sin, spec_wrap, wrap_angle, TWO_PI_FX};
use crate::vec2::{in_box, spec_len, spec_normalize_to, Vec2Fx};
use crate::vehicle::FORCE_LIMIT;

verus! {

/// One component of the force rule: the desired change clamped to the
/// force cap, then weighted.
pub open spec fn spec_steer_force_axis(d: int, v: int, w: int, max_force: int) -> int {
    div_t(spec_clamp(d - v, -max_force, max_force) * w, SCALE as int)
}

/// The force a behavior applies for a desired velocity: both components
/// of `spec_steer_force_axis`.
pub open spec fn spec_steer_force(d: Vec2Fx, v: Vec2Fx, w: int, max_force: int) -> (int, int) {
    (
        spec_steer_force_axis(d.x as int, v.x as int, w, max_force),
        spec_steer_force_axis(d.y as int, v.y as int, w, max_force),
    )
}

/// Turn a desired velocity into a weighted force: clamp the velocity
/// change per axis to the force cap, then scale by the behavior weight.
pub fn steer_force(desired: Vec2Fx, velocity: Vec2Fx, weight: i64, cfg: &SimConfig) -> (r:
    Vec2Fx)
    requires
        cfg.wf(),
        0 <= weight <= CFG_MAX,
        in_box(desired, CFG_MAX as int),
        in_box(velocity, CFG_MAX as int),
    ensures
        r.x == spec_steer_force(desired, velocity, weight as int, cfg.max_force as int).0,
        r.y == spec_steer_force(desired, velocity, weight as int, cfg.max_force as int).1,
        in_box(r, FORCE_LIMIT as int),
{
    let c: Vec2Fx = desired.minus(velocity).clamp_sym(cfg.max_force);
    proof {
        assert(spec_abs(c.x as int * weight as int) <= SCALE as int * i64::MAX as int
            && spec_abs(c.y as int * weight as int) <= SCALE as int * i64::MAX as int
            && spec_abs(c.x as int * weight as int) <= FORCE_LIMIT as int * SCALE as int
            && spec_abs(c.y as int * weight as int) <= FORCE_LIMIT as int * SCALE as int)
            by (nonlinear_arith)
            requires
                spec_abs(c.x as int) <= CFG_MAX as int,
                spec_abs(c.y as int) <= CFG_MAX as int,
                0 <= weight <= CFG_MAX,
        ;
    }
    let rx: i64 = mul_div(c.x, weight, SCALE);
    let ry: i64 = mul_div(c.y, weight, SCALE);
    proof {
        lemma_div_t_le(c.x as int * weight as int, SCALE as int, FORCE_LIMIT as int);
        lemma_div_t_le(c.y as int * weight as int, SCALE as int, FORCE_LIMIT as int);
    }
    Vec2Fx { x: rx, y: ry }
}

/// The magnitude seek asks for: the full speed cap outside the arrival
/// radius, scaled down linearly with distance inside it.
pub open spec fn spec_seek_scale(dist: int, cfg: SimConfig) -> int {
    if dist < cfg.arrival_radius {
        div_t(dist * cfg.max_speed, cfg.arrival_radius as int)
    } else {
        cfg.max_speed as int
    }
}

/// What seek desires: the offset to the target, normalized to the seek
/// magnitude; the zero vector when the agent sits on the target.
pub open spec fn spec_seek(target: Vec2Fx, position: Vec2Fx, cfg: SimConfig) -> (int, int) {
    let diff = Vec2Fx { x: (target.x - position.x) as i64, y: (target.y - position.y) as i64 };
    spec_normalize_to(diff, spec_seek_scale(spec_len(diff), cfg))
}

/// Desired velocity for steering toward `target`: full speed far away,
/// arrival slow-down inside the arrival radius, zero on the target
/// itself. Never faster than the speed cap on either axis.
pub fn seek_steer(target: Vec2Fx, position: Vec2Fx, cfg: &SimConfig) -> (r: Vec2Fx)
    requires
        cfg.wf(),
        in_box(target, POS_LIMIT as int),
        in_box(position, POS_LIMIT as int),
    ensures
        r.x == spec_seek(target, position, *cfg).0,
        r.y == spec_seek(target, position, *cfg).1,
        in_box(r, cfg.max_speed as int),
{
    let diff: Vec2Fx = target.minus(position);
    let dist: i64 = diff.len_fx();
    let scale: i64 = if dist < cfg.arrival_radius {
        proof {
            assert(spec_abs(dist as int * cfg.max_speed as int) <= cfg.arrival_radius as int
                * i64::MAX as int && spec_abs(dist as int * cfg.max_speed as int)
                <= cfg.max_speed as int * cfg.arrival_radius as int) by (nonlinear_arith)
                requires
                    0 <= dist < cfg.arrival_radius,
                    1 <= cfg.arrival_radius <= CFG_MAX,
                    1 <= cfg.max_speed <= CFG_MAX,
            ;
        }
        let s: i64 = mul_div(dist, cfg.max_speed, cfg.arrival_radius);
        proof {
            lemma_div_t_le(
                dist as int * cfg.max_speed as int,
                cfg.arrival_radius as int,
                cfg.max_speed as int,
            );
            assert(div_t(dist as int * cfg.max_speed as int, cfg.arrival_radius as int) >= 0)
                by (nonlinear_arith)
                requires
                    dist >= 0,
                    cfg.arrival_radius >= 1,
                    cfg.max_speed >= 0,
            ;
        }
        s
    } else {
        cfg.max_speed
    };
    diff.normalize_to(scale)
}

/// One axis of boundary containment: past the bound, desire full speed
/// back toward the interior; inside it, leave the velocity alone.
pub open spec fn spec_bound_axis(p: int, v: int, b: int, max_speed: int) -> int {
    if p > b {
        -max_speed
    } else if p < -b {
        max_speed
    } else {
        v
    }
}

/// The agent sits outside the world bounds on at least one axis.
pub open spec fn spec_out_of_bounds(position: Vec2Fx, bounds: Vec2Fx) -> bool {
    spec_abs(position.x as int) > bounds.x || spec_abs(position.y as int) > bounds.y
}

/// Desired velocity for boundary containment: a partial override that
/// redirects only the violated axes toward the interior, at full speed.
pub fn boundary_steer(position: Vec2Fx, velocity: Vec2Fx, bounds: Vec2Fx, cfg: &SimConfig)
    -> (r: Vec2Fx)
    requires
        cfg.wf(),
        in_box(velocity, cfg.max_speed as int),
        0 <= bounds.x && 0 <= bounds.y,
    ensures
        r.x == spec_bound_axis(
            position.x as int,
            velocity.x as int,
            bounds.x as int,
            cfg.max_speed as int,
        ),
        r.y == spec_bound_axis(
            position.y as int,
            velocity.y as int,
            bounds.y as int,
            cfg.max_speed as int,
        ),
        in_box(r, cfg.max_speed as int),
{
    let dx: i64 = if position.x > bounds.x {
        -cfg.max_speed
    } else if position.x < -bounds.x {
        cfg.max_speed
    } else {
        velocity.x
    };
    let dy: i64 = if position.y > bounds.y {
        -cfg.max_speed
    } else if position.y < -bounds.y {
        cfg.max_speed
    } else {
        velocity.y
    };
    Vec2Fx { x: dx, y: dy }
}

/// Where the wander target sits for a given heading: a point ahead of
/// the agent by the predict distance, displaced around the predict circle.
pub open spec fn spec_wander_target(position: Vec2Fx, velocity: Vec2Fx, theta: int, cfg:
    SimConfig) -> (int, int) {
    let ahead = spec_normalize_to(velocity, cfg.predict_distance as int);
    let ox = div_t(spec_cos(theta) * cfg.predict_radius, SCALE as int);
    let oy = div_t(spec_sin(theta) * cfg.predict_radius, SCALE as int);
    (position.x + ahead.0 + ox, position.y + ahead.1 + oy)
}

/// What wander desires once the heading has been jittered: the offset
/// from the agent to the wander target, normalized to the wander speed.
pub open spec fn spec_wander(position: Vec2Fx, velocity: Vec2Fx, theta0: int, jitter: int,
    cfg: SimConfig) -> (int, int) {
    let theta = spec_wrap(theta0 + jitter);
    let t = spec_wander_target(position, velocity, theta, cfg);
    let diff = Vec2Fx { x: (t.0 - position.x) as i64, y: (t.1 - position.y) as i64 };
    spec_normalize_to(diff, cfg.wander_speed as int)
}

/// Desired velocity and new heading for the wander behavior: perturb the
/// persistent heading by `jitter`, aim at a point on a circle projected
/// ahead of the agent, and desire wander speed toward it. The heading
/// state, not the jitter alone, is what gives wander its smoothness.
pub fn wander_steer(position: Vec2Fx, velocity: Vec2Fx, theta0: i64, jitter: i64, cfg:
    &SimConfig) -> (r: (Vec2Fx, i64))
    requires
        cfg.wf(),
        in_box(position, POS_LIMIT as int),
        in_box(velocity, cfg.max_speed as int),
        0 <= theta0 < TWO_PI_FX,
        -cfg.jitter_range <= jitter <= cfg.jitter_range,
    ensures
        r.0.x == spec_wander(position, velocity, theta0 as int, jitter as int, *cfg).0,
        r.0.y == spec_wander(position, velocity, theta0 as int, jitter as int, *cfg).1,
        r.1 == spec_wrap(theta0 + jitter),
        in_box(r.0, cfg.wander_speed as int),
        0 <= r.1 < TWO_PI_FX,
{
    let theta: i64 = wrap_angle(theta0, jitter);
    let ahead: Vec2Fx = velocity.normalize_to(cfg.predict_distance);
    let c: i64 = cos_fx(theta);
    let s: i64 = sin_fx(theta);
    proof {
        assert(spec_abs(c as int * cfg.predict_radius as int) <= SCALE as int * i64::MAX as int
            && spec_abs(s as int * cfg.predict_radius as int) <= SCALE as int
            * i64::MAX as int && spec_abs(c as int * cfg.predict_radius as int)
            <= CFG_MAX as int * SCALE as int && spec_abs(s as int * cfg.predict_radius as int)
            <= CFG_MAX as int * SCALE as int) by (nonlinear_arith)
            requires
                -SCALE <= c <= SCALE,
                -SCALE <= s <= SCALE,
                0 <= cfg.predict_radius <= CFG_MAX,
        ;
    }
    let ox: i64 = mul_div(c, cfg.predict_radius, SCALE);
    let oy: i64 = mul_div(s, cfg.predict_radius, SCALE);
    proof {
        lemma_div_t_le(c as int * cfg.predict_radius as int, SCALE as int, CFG_MAX as int);
        lemma_div_t_le(s as int * cfg.predict_radius as int, SCALE as int, CFG_MAX as int);
    }
    let diff: Vec2Fx = Vec2Fx { x: ahead.x + ox, y: ahead.y + oy };
    let desired: Vec2Fx = diff.normalize_to(cfg.wander_speed);
    (desired, theta)
}

} // verus!
