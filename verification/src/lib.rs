//! A steering-behavior flocking engine over fixed-point arithmetic.
//!
//! Agents ("vehicles") move under classic steering behaviors — seek with
//! arrival, wander, boundary containment, separation, alignment, cohesion
//! and view-cone avoidance — combined into one acceleration per agent per
//! tick, then integrated into velocity and position.
//!
//! All world quantities are fixed-point integers: a coordinate of
//! [`fx::SCALE`] sub-units stands for one world unit. The engine runs in
//! two phases per tick: a force-composition pass that reads a committed
//! snapshot of every agent and writes only each agent's own acceleration,
//! and an integration pass that consumes the acceleration. Random wander
//! jitter enters through an explicit argument so that the core is a
//! deterministic function of its inputs; a thin layer draws the jitter
//! from the process RNG.

pub mod config;
pub mod flock;
pub mod fx;
pub mod laws;
pub mod rng;
pub mod sim;
pub mod steering;
pub mod trig;
pub mod vec2;
pub mod vehicle;
