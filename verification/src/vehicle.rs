//! The agent: kinematic state and the force-to-acceleration rule.

use vstd::prelude::*;

use crate::config::SimConfig;
use crate::fx::{div_t, mul_div, POS_LIMIT, SCALE};
use crate::trig::{atan2_fx, spec_atan2, HALF_PI_FX, PI_FX, TWO_PI_FX};
use crate::vec2::{in_box, Vec2Fx, NORM_LIMIT};

verus! {

/// Cap on an acceleration component accumulated within one tick; the
/// composer never exceeds it, and the integrator requires it.
pub const ACC_LIMIT: i64 = 0x1000_0000_0000;

/// Cap on a single weighted force component handed to `apply_force`.
pub const FORCE_LIMIT: i64 = 0x8000_0000;

/// One simulated agent.
#[derive(Clone, Copy, PartialEq, Eq, Structural, Debug)]
pub struct Vehicle {
    /// World-space location; written only by the integrator.
    pub position: Vec2Fx,
    /// World-space velocity; written only by the integrator, which keeps
    /// each component within the configured speed cap.
    pub velocity: Vec2Fx,
    /// Per-tick force accumulator; zero between ticks.
    pub acceleration: Vec2Fx,
    /// Mass; converts force into acceleration.
    pub mass: i64,
    /// Persistent wander heading, fixed-point radians in a full turn.
    pub wander_theta: i64,
}

/// The heading an agent presents for display: the plane angle of its
/// velocity, turned back a quarter turn (agents render nose-up).
pub open spec fn spec_heading(v: Vehicle) -> int {
    spec_atan2(v.velocity.y as int, v.velocity.x as int) - HALF_PI_FX
}

impl Vehicle {
    /// The agent's state is inside the engine's working ranges for the
    /// given configuration: position in the supported world, velocity
    /// within the speed cap, acceleration within the per-tick cap, the
    /// configured mass, and a wander heading inside one turn.
    pub open spec fn wf(self, cfg: SimConfig) -> bool {
        &&& in_box(self.position, POS_LIMIT as int)
        &&& in_box(self.velocity, cfg.max_speed as int)
        &&& in_box(self.acceleration, ACC_LIMIT as int)
        &&& self.mass == cfg.mass
        &&& 0 <= self.wander_theta < TWO_PI_FX
    }

    /// A freshly spawned agent: at `position`, at rest, with the
    /// configured mass and a zero wander heading.
    pub fn spawn_at(position: Vec2Fx, cfg: &SimConfig) -> (r: Vehicle)
        requires
            cfg.wf(),
            in_box(position, POS_LIMIT as int),
        ensures
            r.wf(*cfg),
            r.position == position,
            r.velocity.x == 0 && r.velocity.y == 0,
            r.acceleration.x == 0 && r.acceleration.y == 0,
            r.mass == cfg.mass,
            r.wander_theta == 0,
    {
        Vehicle {
            position,
            velocity: Vec2Fx { x: 0, y: 0 },
            acceleration: Vec2Fx { x: 0, y: 0 },
            mass: cfg.mass,
            wander_theta: 0,
        }
    }

    /// Add a weighted steering force: the acceleration gains
    /// `force / mass`, component by component; nothing else moves.
    pub fn apply_force(&mut self, force: Vec2Fx)
        requires
            1 <= old(self).mass,
            in_box(force, FORCE_LIMIT as int),
            in_box(old(self).acceleration, 0x1000_0000_0000_0000int),
        ensures
            final(self).acceleration.x == old(self).acceleration.x + div_t(
                force.x as int * SCALE as int,
                old(self).mass as int,
            ),
            final(self).acceleration.y == old(self).acceleration.y + div_t(
                force.y as int * SCALE as int,
                old(self).mass as int,
            ),
            final(self).position == old(self).position,
            final(self).velocity == old(self).velocity,
            final(self).mass == old(self).mass,
            final(self).wander_theta == old(self).wander_theta,
            crate::fx::spec_abs(
                final(self).acceleration.x - old(self).acceleration.x,
            ) <= FORCE_LIMIT as int * SCALE as int,
            crate::fx::spec_abs(
                final(self).acceleration.y - old(self).acceleration.y,
            ) <= FORCE_LIMIT as int * SCALE as int,
    {
        proof {
            assert(crate::fx::spec_abs(force.x as int * SCALE as int) <= (FORCE_LIMIT as int
                * SCALE as int) * self.mass as int && crate::fx::spec_abs(
                force.y as int * SCALE as int,
            ) <= (FORCE_LIMIT as int * SCALE as int) * self.mass as int && crate::fx::spec_abs(
                force.x as int * SCALE as int,
            ) <= self.mass as int * i64::MAX as int && crate::fx::spec_abs(
                force.y as int * SCALE as int,
            ) <= self.mass as int * i64::MAX as int) by (nonlinear_arith)
                requires
                    1 <= self.mass,
                    crate::fx::spec_abs(force.x as int) <= FORCE_LIMIT as int,
                    crate::fx::spec_abs(force.y as int) <= FORCE_LIMIT as int,
            ;
            crate::fx::lemma_div_t_le(
                force.x as int * SCALE as int,
                self.mass as int,
                FORCE_LIMIT as int * SCALE as int,
            );
            crate::fx::lemma_div_t_le(
                force.y as int * SCALE as int,
                self.mass as int,
                FORCE_LIMIT as int * SCALE as int,
            );
        }
        let ax: i64 = mul_div(force.x, SCALE, self.mass);
        let ay: i64 = mul_div(force.y, SCALE, self.mass);
        self.acceleration = Vec2Fx { x: self.acceleration.x + ax, y: self.acceleration.y + ay };
    }

    /// The display heading, derived from the velocity alone; within a
    /// half turn either side of straight down.
    pub fn heading(&self) -> (r: i64)
        requires
            in_box(self.velocity, NORM_LIMIT as int),
        ensures
            r == spec_heading(*self),
            -PI_FX - HALF_PI_FX <= r <= PI_FX - HALF_PI_FX,
    {
        atan2_fx(self.velocity.y, self.velocity.x) - HALF_PI_FX
    }
}

} // verus!
