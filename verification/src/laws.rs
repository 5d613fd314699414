//! The engine's stated laws, proved once and for all inputs.
//!
//! Each proof function here is part of the library's contract: it pins a
//! property of the spec functions that the executable functions' own
//! `ensures` speak of, so the property holds of every run.

use vstd::prelude::*;

use crate::config::SimConfig;
use crate::flock::{
    align_cnt, align_ok, align_sum, coh_cnt, coh_ok, coh_sum, lemma_accel_of_zero, sep_cnt,
    sep_ok, sep_sum, spec_align_force, spec_coh_force, spec_flock_accel, spec_sep_force,
    spec_view_force, view_ok, view_pick,
};
use crate::fx::{div_t, lemma_isqrt_unique, spec_abs, spec_clamp, SCALE};
use crate::sim::{spec_new_pos_axis, spec_new_vel_axis};
use crate::steering::spec_bound_axis;
use crate::vec2::{spec_normalize_to, Vec2Fx};
use crate::vehicle::Vehicle;

verus! {

/// Speed cap: an integrated velocity component never exceeds the
/// configured cap in magnitude, whatever the accumulated acceleration.
pub proof fn lemma_speed_cap(v: int, a: int, max_speed: int)
    requires
        max_speed >= 0,
    ensures
        spec_abs(spec_new_vel_axis(v, a, max_speed)) <= max_speed,
{
}

/// Force cap: every component of the clamped velocity change lies within
/// the force cap, before the mass division and the weight factor.
pub proof fn lemma_force_cap(d: int, v: int, max_force: int)
    requires
        max_force >= 0,
    ensures
        -max_force <= spec_clamp(d - v, -max_force, max_force) <= max_force,
{
}

/// Normalize-or-zero: the zero vector normalizes to the zero vector, for
/// any requested magnitude — no division happens at all.
pub proof fn lemma_normalize_zero(s: int)
    ensures
        spec_normalize_to(Vec2Fx { x: 0i64, y: 0i64 }, s) == (0int, 0int),
{
    lemma_isqrt_unique(0, 0);
}

/// Seek on the target itself: the offset is the zero vector, so the
/// desired velocity is zero — arrival comes to a standstill rather than
/// dividing by a zero distance.
pub proof fn lemma_seek_on_target(t: Vec2Fx, cfg: SimConfig)
    ensures
        crate::steering::spec_seek(t, t, cfg) == (0int, 0int),
{
    lemma_isqrt_unique(0, 0);
}

/// Boundary containment: an agent past a bound is asked for a velocity
/// on that axis whose sign points back toward the interior.
pub proof fn lemma_boundary_sign(p: int, v: int, b: int, max_speed: int)
    requires
        max_speed >= 1,
        b >= 0,
    ensures
        p > b ==> spec_bound_axis(p, v, b, max_speed) < 0,
        p < -b ==> spec_bound_axis(p, v, b, max_speed) > 0,
{
}

/// Integration round trip: the next position is exactly the old position
/// plus the clamped new velocity times the tick length — nothing more
/// enters the position.
pub proof fn lemma_integration_round_trip(p: int, v: int, a: int, dt: int, max_speed: int)
    ensures
        spec_new_pos_axis(p, spec_new_vel_axis(v, a, max_speed), dt) == p + div_t(
            spec_clamp(v + a, -max_speed, max_speed) * dt,
            SCALE as int,
        ),
{
}

/// No agent among the first `n` scanned qualifies for any behavior, so
/// every count is zero and nothing blocks the view.
proof fn lemma_no_neighbor_prefix(f: Vehicle, os: Seq<Vehicle>, cfg: SimConfig, n: int)
    requires
        0 <= n <= os.len(),
        forall|k: int| 0 <= k < os.len() ==> !sep_ok(f, #[trigger] os[k], cfg) && !align_ok(
            f,
            os[k],
            cfg,
        ) && !coh_ok(f, os[k], cfg) && !view_ok(f, os[k], cfg),
    ensures
        sep_cnt(f, os, cfg, n) == 0,
        align_cnt(f, os, cfg, n) == 0,
        coh_cnt(f, os, cfg, n) == 0,
        view_pick(f, os, cfg, n) is None,
    decreases n,
{
    if n > 0 {
        lemma_no_neighbor_prefix(f, os, cfg, n - 1);
    }
}

/// Zero-neighbor idempotence: an agent with no other agent within any
/// flocking threshold gains no acceleration at all from the aggregator.
pub proof fn lemma_flock_no_neighbors(f: Vehicle, os: Seq<Vehicle>, cfg: SimConfig)
    requires
        cfg.mass >= 1,
        forall|k: int| 0 <= k < os.len() ==> !sep_ok(f, #[trigger] os[k], cfg) && !align_ok(
            f,
            os[k],
            cfg,
        ) && !coh_ok(f, os[k], cfg) && !view_ok(f, os[k], cfg),
    ensures
        spec_flock_accel(f, os, cfg) == (0int, 0int),
{
    lemma_no_neighbor_prefix(f, os, cfg, os.len() as int);
    assert(spec_sep_force(f, os, cfg) == (0int, 0int));
    assert(spec_align_force(f, os, cfg) == (0int, 0int));
    assert(spec_coh_force(f, os, cfg) == (0int, 0int));
    assert(spec_view_force(f, os, cfg) == (0int, 0int));
    lemma_accel_of_zero(cfg.mass as int);
}

/// The index a view pick returns always lies inside the scanned prefix.
proof fn lemma_view_pick_in_range(f: Vehicle, os: Seq<Vehicle>, cfg: SimConfig, n: int)
    requires
        0 <= n <= os.len(),
        view_pick(f, os, cfg, n) is Some,
    ensures
        0 <= view_pick(f, os, cfg, n)->Some_0 < n,
    decreases n,
{
    if n > 0 && view_pick(f, os, cfg, n - 1) is Some {
        lemma_view_pick_in_range(f, os, cfg, n - 1);
    }
}

/// Every partial scan result agrees between two snapshots that agree on
/// committed state — positions and velocities — whatever their
/// accumulators hold.
proof fn lemma_scan_committed_prefix(f1: Vehicle, f2: Vehicle, os1: Seq<Vehicle>, os2: Seq<
    Vehicle>, cfg: SimConfig, n: int)
    requires
        f1.position == f2.position,
        f1.velocity == f2.velocity,
        os1.len() == os2.len(),
        forall|k: int| 0 <= k < os1.len() ==> (#[trigger] os1[k]).position == os2[k].position
            && os1[k].velocity == os2[k].velocity,
        0 <= n <= os1.len(),
    ensures
        sep_sum(f1, os1, cfg, n) == sep_sum(f2, os2, cfg, n),
        sep_cnt(f1, os1, cfg, n) == sep_cnt(f2, os2, cfg, n),
        align_sum(f1, os1, cfg, n) == align_sum(f2, os2, cfg, n),
        align_cnt(f1, os1, cfg, n) == align_cnt(f2, os2, cfg, n),
        coh_sum(f1, os1, cfg, n) == coh_sum(f2, os2, cfg, n),
        coh_cnt(f1, os1, cfg, n) == coh_cnt(f2, os2, cfg, n),
        view_pick(f1, os1, cfg, n) == view_pick(f2, os2, cfg, n),
    decreases n,
{
    if n > 0 {
        lemma_scan_committed_prefix(f1, f2, os1, os2, cfg, n - 1);
    }
}

/// The aggregator reads only committed state: two snapshots that agree
/// on every agent's position and velocity — though not necessarily on
/// their mid-tick accumulators or wander headings — yield the same
/// flocking acceleration for a focal agent whose own committed state is
/// the same. This is what lets the composition phase run from a snapshot
/// while accumulators fill in.
pub proof fn lemma_flock_reads_committed_state(f1: Vehicle, f2: Vehicle, os1: Seq<Vehicle>,
    os2: Seq<Vehicle>, cfg: SimConfig)
    requires
        f1.position == f2.position,
        f1.velocity == f2.velocity,
        os1.len() == os2.len(),
        forall|k: int| 0 <= k < os1.len() ==> (#[trigger] os1[k]).position == os2[k].position
            && os1[k].velocity == os2[k].velocity,
    ensures
        spec_flock_accel(f1, os1, cfg) == spec_flock_accel(f2, os2, cfg),
{
    let n = os1.len() as int;
    lemma_scan_committed_prefix(f1, f2, os1, os2, cfg, n);
    assert(spec_sep_force(f1, os1, cfg) == spec_sep_force(f2, os2, cfg));
    assert(spec_align_force(f1, os1, cfg) == spec_align_force(f2, os2, cfg));
    assert(spec_coh_force(f1, os1, cfg) == spec_coh_force(f2, os2, cfg));
    if view_pick(f1, os1, cfg, n) is Some {
        let k = view_pick(f1, os1, cfg, n)->Some_0;
        lemma_view_pick_in_range(f1, os1, cfg, n);
        assert(os1[k].position == os2[k].position);
        assert(crate::flock::view_contrib(f1, os1[k]) == crate::flock::view_contrib(
            f2,
            os2[k],
        ));
    }
    assert(spec_view_force(f1, os1, cfg) == spec_view_force(f2, os2, cfg));
}

/// Wander determinism: with the random jitter made an explicit input,
/// one composition step is a function of its arguments alone — two
/// agents in the same state, fed the same jitter against the same
/// snapshot, are given the same acceleration and the same new heading.
/// Chained over `tick`, whose contract pins every field the same way,
/// equal starting states and equal jitter sequences give equal
/// trajectories.
pub proof fn lemma_compose_deterministic(a: Vehicle, b: Vehicle, os: Seq<Vehicle>, target:
    Option<Vec2Fx>, bounds: Vec2Fx, jitter: int, cfg: SimConfig)
    requires
        a == b,
    ensures
        crate::sim::spec_compose_accel(a, os, target, bounds, jitter, cfg)
            == crate::sim::spec_compose_accel(b, os, target, bounds, jitter, cfg),
        crate::sim::spec_compose_theta(a, target, bounds, jitter)
            == crate::sim::spec_compose_theta(b, target, bounds, jitter),
{
}

} // verus!
