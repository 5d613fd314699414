//! Randomness at the engine's edge: wander jitter and spawn placement.
//!
//! The engine itself is deterministic — `calc_movement_with` takes every
//! jitter as an argument. The functions here draw those values from the
//! process RNG and hand them in, stating of each draw only what holds of
//! every outcome: that it lies in the requested range.

use vstd::prelude::*;

use rand::Rng;

use crate::config::SimConfig;
use crate::fx::{COUNT_MAX, POS_LIMIT};
use crate::sim::{calc_movement_with, spec_compose_accel, spec_compose_theta};
use crate::vec2::{in_box, Vec2Fx};
use crate::vehicle::Vehicle;

verus! {

/// Relies on `rand::thread_rng` and `rand::Rng::gen_range` over an
/// inclusive range: the draw is uniform over `[lo, hi]` and in
/// particular always lies within it; the range is nonempty, so the call
/// does not panic.
#[verifier::external_body]
fn rand_range(lo: i64, hi: i64) -> (r: i64)
    requires
        lo <= hi,
    ensures
        lo <= r <= hi,
{
    rand::thread_rng().gen_range(lo..=hi)
}

/// Compose the forces for every agent, drawing each agent's wander
/// jitter from the process RNG. Whatever the draws, there is a jitter
/// sequence within the configured range under which this pass equals the
/// deterministic composition; position, velocity and mass are untouched
/// either way.
pub fn calc_movement(agents: &mut Vec<Vehicle>, target: Option<Vec2Fx>, bounds: Vec2Fx, cfg:
    &SimConfig)
    requires
        cfg.wf(),
        old(agents)@.len() <= COUNT_MAX,
        forall|k: int| 0 <= k < old(agents)@.len() ==> (#[trigger] old(agents)@[k]).wf(*cfg),
        forall|k: int| 0 <= k < old(agents)@.len() ==> (#[trigger] old(agents)@[k]).acceleration
            == (Vec2Fx { x: 0i64, y: 0i64 }),
        0 <= bounds.x <= POS_LIMIT && 0 <= bounds.y <= POS_LIMIT,
        target is Some ==> in_box(target->Some_0, POS_LIMIT as int),
    ensures
        final(agents)@.len() == old(agents)@.len(),
        forall|i: int| 0 <= i < old(agents)@.len() ==> {
            let a0 = old(agents)@[i];
            let a1 = #[trigger] final(agents)@[i];
            &&& a1.position == a0.position
            &&& a1.velocity == a0.velocity
            &&& a1.mass == a0.mass
            &&& a1.wf(*cfg)
        },
        exists|js: Seq<int>|
            {
                &&& #[trigger] js.len() == old(agents)@.len()
                &&& (forall|k: int| 0 <= k < js.len() ==> -cfg.jitter_range <= #[trigger] js[k]
                    <= cfg.jitter_range)
                &&& (forall|i: int| 0 <= i < old(agents)@.len() ==> {
                    let a0 = old(agents)@[i];
                    let a1 = #[trigger] final(agents)@[i];
                    &&& a1.acceleration.x == spec_compose_accel(a0, old(agents)@, target,
                        bounds, js[i], *cfg).0
                    &&& a1.acceleration.y == spec_compose_accel(a0, old(agents)@, target,
                        bounds, js[i], *cfg).1
                    &&& a1.wander_theta == spec_compose_theta(a0, target, bounds, js[i])
                })
            },
{
    let n: usize = agents.len();
    let mut jitters: Vec<i64> = Vec::new();
    let mut i: usize = 0;
    while i < n
        invariant
            cfg.wf(),
            i <= n,
            jitters@.len() == i,
            forall|k: int| 0 <= k < i ==> -cfg.jitter_range <= #[trigger] jitters@[k]
                <= cfg.jitter_range,
        decreases n - i,
    {
        let j: i64 = rand_range(-cfg.jitter_range, cfg.jitter_range);
        jitters.push(j);
        i = i + 1;
    }
    calc_movement_with(agents, target, bounds, &jitters, cfg);
    proof {
        let js = Seq::new(n as nat, |k: int| jitters@[k] as int);
        assert(js.len() == n);
        assert(forall|k: int| 0 <= k < js.len() ==> -cfg.jitter_range <= #[trigger] js[k]
            <= cfg.jitter_range);
        assert(forall|i2: int| 0 <= i2 < n ==> #[trigger] js[i2] == jitters@[i2] as int);
    }
}

/// Spawn a batch of agents at rest, each at a uniformly drawn position
/// inside the world bounds.
pub fn spawn_vehicles(count: usize, bounds: Vec2Fx, cfg: &SimConfig) -> (r: Vec<Vehicle>)
    requires
        cfg.wf(),
        0 <= bounds.x <= POS_LIMIT && 0 <= bounds.y <= POS_LIMIT,
    ensures
        r@.len() == count,
        forall|i: int| 0 <= i < count ==> {
            let a = #[trigger] r@[i];
            &&& a.wf(*cfg)
            &&& a.velocity == (Vec2Fx { x: 0i64, y: 0i64 })
            &&& a.acceleration == (Vec2Fx { x: 0i64, y: 0i64 })
            &&& a.mass == cfg.mass
            &&& a.wander_theta == 0
            &&& -bounds.x <= a.position.x <= bounds.x
            &&& -bounds.y <= a.position.y <= bounds.y
        },
{
    let mut r: Vec<Vehicle> = Vec::new();
    let mut i: usize = 0;
    while i < count
        invariant
            cfg.wf(),
            0 <= bounds.x <= POS_LIMIT && 0 <= bounds.y <= POS_LIMIT,
            i <= count,
            r@.len() == i,
            forall|k: int| 0 <= k < i ==> {
                let a = #[trigger] r@[k];
                &&& a.wf(*cfg)
                &&& a.velocity == (Vec2Fx { x: 0i64, y: 0i64 })
                &&& a.acceleration == (Vec2Fx { x: 0i64, y: 0i64 })
                &&& a.mass == cfg.mass
                &&& a.wander_theta == 0
                &&& -bounds.x <= a.position.x <= bounds.x
                &&& -bounds.y <= a.position.y <= bounds.y
            },
        decreases count - i,
    {
        let x: i64 = rand_range(-bounds.x, bounds.x);
        let y: i64 = rand_range(-bounds.y, bounds.y);
        let v: Vehicle = Vehicle::spawn_at(Vec2Fx { x, y }, cfg);
        r.push(v);
        i = i + 1;
    }
    r
}

} // verus!
