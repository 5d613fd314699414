//! The engine's tunables, fixed at construction.
//!
//! Every behavior's threshold and weight is a named field, never a magic
//! literal in the logic. All values are fixed-point: `SCALE` sub-units to
//! the world unit, and weights in `SCALE`-ths of one. A well-formed
//! configuration keeps each tunable within [`CFG_MAX`], which in turn
//! keeps all force arithmetic inside 64-bit words.

use vstd::prelude::*;

use crate::fx::{CFG_MAX, POS_LIMIT};
use crate::trig::TWO_PI_FX;
use crate::vec2::Vec2Fx;

verus! {

/// The world bounds a view of the given size yields: half the extent on
/// each axis, pulled in by the wall margin. A view narrower than twice
/// the margin leaves a negative bound, which the simulation entries
/// refuse; the caller keeps views larger than the margin.
pub fn world_bounds(width: i64, height: i64, margin: i64) -> (r: Vec2Fx)
    requires
        0 <= width <= POS_LIMIT,
        0 <= height <= POS_LIMIT,
        0 <= margin <= POS_LIMIT,
    ensures
        r.x == width / 2 - margin,
        r.y == height / 2 - margin,
{
    Vec2Fx { x: width / 2 - margin, y: height / 2 - margin }
}

/// The configuration of a simulation: caps, masses, behavior distances
/// and behavior weights.
#[derive(Clone, Copy, PartialEq, Eq, Structural, Debug)]
pub struct SimConfig {
    /// Per-axis cap on a velocity component after integration.
    pub max_speed: i64,
    /// Per-axis cap on a steering force component before weighting.
    pub max_force: i64,
    /// Mass of every agent; divides force into acceleration.
    pub mass: i64,
    /// Magnitude of the wander behavior's desired velocity.
    pub wander_speed: i64,
    /// How far ahead of the agent the wander circle sits.
    pub predict_distance: i64,
    /// Radius of the wander circle.
    pub predict_radius: i64,
    /// Wander jitter bound, fixed-point radians per tick.
    pub jitter_range: i64,
    /// Radius around a seek target inside which agents slow to arrive.
    pub arrival_radius: i64,
    /// Neighbors closer than this repel (separation).
    pub separation_dist: i64,
    /// Neighbors closer than this have their velocity matched (alignment).
    pub align_dist: i64,
    /// Neighbors closer than this attract toward their centroid (cohesion).
    pub cohesion_dist: i64,
    /// Neighbors closer than this can be avoided by the view cone.
    pub view_dist: i64,
    /// Tangent of the view cone's half angle, in fixed point.
    pub view_tan: i64,
    /// Weight of the separation force.
    pub separation_weight: i64,
    /// Weight of the alignment force.
    pub align_weight: i64,
    /// Weight of the cohesion force.
    pub cohesion_weight: i64,
    /// Weight of the view-avoidance force.
    pub view_weight: i64,
    /// Weight of the seek force.
    pub seek_weight: i64,
    /// Weight of the wander force.
    pub wander_weight: i64,
    /// Weight of the boundary-containment force.
    pub boundary_weight: i64,
}

impl SimConfig {
    /// Every tunable within the engine's working range: positive caps,
    /// a positive mass and arrival radius, and nothing above `CFG_MAX`.
    pub open spec fn wf(self) -> bool {
        &&& 1 <= self.max_speed <= CFG_MAX
        &&& 0 <= self.max_force <= CFG_MAX
        &&& 1 <= self.mass <= CFG_MAX
        &&& 0 <= self.wander_speed <= CFG_MAX
        &&& 0 <= self.predict_distance <= CFG_MAX
        &&& 0 <= self.predict_radius <= CFG_MAX
        &&& 0 <= self.jitter_range <= TWO_PI_FX
        &&& 1 <= self.arrival_radius <= CFG_MAX
        &&& 0 <= self.separation_dist <= CFG_MAX
        &&& 0 <= self.align_dist <= CFG_MAX
        &&& 0 <= self.cohesion_dist <= CFG_MAX
        &&& 0 <= self.view_dist <= CFG_MAX
        &&& 0 <= self.view_tan <= CFG_MAX
        &&& 0 <= self.separation_weight <= CFG_MAX
        &&& 0 <= self.align_weight <= CFG_MAX
        &&& 0 <= self.cohesion_weight <= CFG_MAX
        &&& 0 <= self.view_weight <= CFG_MAX
        &&& 0 <= self.seek_weight <= CFG_MAX
        &&& 0 <= self.wander_weight <= CFG_MAX
        &&& 0 <= self.boundary_weight <= CFG_MAX
    }

    /// The stock tuning: a 300-unit speed cap, a 120-unit force cap,
    /// mass 10, and the classic distance thresholds and weights sized for
    /// agents two units across.
    pub fn standard() -> (r: SimConfig)
        ensures
            r.wf(),
            r.max_speed == 300000,
            r.max_force == 120000,
            r.mass == 10000,
            r.wander_speed == 150000,
            r.predict_distance == 32000,
            r.predict_radius == 20000,
            r.jitter_range == 392,
            r.arrival_radius == 50000,
            r.separation_dist == 12000,
            r.align_dist == 30000,
            r.cohesion_dist == 24000,
            r.view_dist == 16000,
            r.view_tan == 414,
            r.separation_weight == 2000,
            r.align_weight == 1000,
            r.cohesion_weight == 1200,
            r.view_weight == 1400,
            r.seek_weight == 700,
            r.wander_weight == 800,
            r.boundary_weight == 1600,
    {
        SimConfig {
            max_speed: 300000,
            max_force: 120000,
            mass: 10000,
            wander_speed: 150000,
            predict_distance: 32000,
            predict_radius: 20000,
            jitter_range: 392,
            arrival_radius: 50000,
            separation_dist: 12000,
            align_dist: 30000,
            cohesion_dist: 24000,
            view_dist: 16000,
            view_tan: 414,
            separation_weight: 2000,
            align_weight: 1000,
            cohesion_weight: 1200,
            view_weight: 1400,
            seek_weight: 700,
            wander_weight: 800,
            boundary_weight: 1600,
        }
    }
}

} // verus!
