//! The flocking aggregator: one pass over every other agent, yielding
//! separation, alignment, cohesion and view-cone avoidance forces.
//!
//! The scan reads only the committed `position` and `velocity` of the
//! others — never their accumulating `acceleration` — and writes nothing
//! but the focal agent's own acceleration, so a whole composition phase
//! can run from one immutable snapshot. A neighbor at distance exactly
//! zero (including the focal agent itself, which is part of the scanned
//! set) is skipped by the positive-distance guard. A behavior that finds
//! no neighbor contributes no force at all.

use vstd::prelude::*;

use crate::config::SimConfig;
use crate::fx::{
    div_t, lemma_div_t_bound, mul_div, spec_abs, CFG_MAX, COUNT_MAX, POS_LIMIT, SCALE,
};
use crate::steering::{seek_steer, spec_seek, spec_steer_force, steer_force};
use crate::vec2::{
    lemma_isqrt_sq, spec_dist_sq, spec_len, spec_len_sq, spec_normalize_to, Vec2Fx,
    NORM_LIMIT,
};
use crate::vehicle::{Vehicle, FORCE_LIMIT};

verus! {

/// The offset from `a` to `b`, as a vector.
pub open spec fn spec_offset(a: Vec2Fx, b: Vec2Fx) -> Vec2Fx {
    Vec2Fx { x: (b.x - a.x) as i64, y: (b.y - a.y) as i64 }
}

/// `o` is a separation neighbor of `f`: strictly closer than the
/// separation threshold, and not at distance zero.
pub open spec fn sep_ok(f: Vehicle, o: Vehicle, cfg: SimConfig) -> bool {
    0 < spec_dist_sq(f.position, o.position) <= cfg.separation_dist * cfg.separation_dist
}

/// `o` is an alignment neighbor of `f`.
pub open spec fn align_ok(f: Vehicle, o: Vehicle, cfg: SimConfig) -> bool {
    0 < spec_dist_sq(f.position, o.position) <= cfg.align_dist * cfg.align_dist
}

/// `o` is a cohesion neighbor of `f`.
pub open spec fn coh_ok(f: Vehicle, o: Vehicle, cfg: SimConfig) -> bool {
    0 < spec_dist_sq(f.position, o.position) <= cfg.cohesion_dist * cfg.cohesion_dist
}

/// The bearing from velocity `v` to the offset `path` lies inside the
/// view cone: ahead (positive projection), and off-axis by less than the
/// cone's half angle, stated through its tangent.
pub open spec fn in_cone(v: Vec2Fx, path: Vec2Fx, cfg: SimConfig) -> bool {
    let dot = v.x * path.x + v.y * path.y;
    let cross = v.x * path.y - v.y * path.x;
    dot > 0 && spec_abs(cross) * SCALE < cfg.view_tan * dot
}

/// `o` blocks the view of `f`: within the view distance, not at distance
/// zero, and inside the view cone of `f`'s velocity.
pub open spec fn view_ok(f: Vehicle, o: Vehicle, cfg: SimConfig) -> bool {
    &&& 0 < spec_dist_sq(f.position, o.position) <= cfg.view_dist * cfg.view_dist
    &&& in_cone(f.velocity, spec_offset(f.position, o.position), cfg)
}

/// What one separation neighbor adds: the unit vector away from it,
/// divided by the distance, so closer neighbors weigh more.
pub open spec fn sep_contrib(f: Vehicle, o: Vehicle) -> (int, int) {
    let away = spec_offset(o.position, f.position);
    let dist = spec_len(away);
    let unit = spec_normalize_to(away, SCALE as int);
    (div_t(unit.0 * SCALE, dist), div_t(unit.1 * SCALE, dist))
}

/// What the view neighbor adds: the unit perpendicular of the path to
/// it, on whichever side is the cheaper turn from the current velocity.
pub open spec fn view_contrib(f: Vehicle, o: Vehicle) -> (int, int) {
    let path = spec_offset(f.position, o.position);
    let val = Vec2Fx { x: (-path.y) as i64, y: path.x };
    let unit = spec_normalize_to(val, SCALE as int);
    let vdot = f.velocity.x * val.x + f.velocity.y * val.y;
    if vdot > 0 {
        (unit.0, unit.1)
    } else {
        (-unit.0, -unit.1)
    }
}

/// Sum of separation contributions over the first `n` scanned agents.
pub open spec fn sep_sum(f: Vehicle, os: Seq<Vehicle>, cfg: SimConfig, n: int) -> (int, int)
    decreases n,
{
    if n <= 0 {
        (0, 0)
    } else {
        let prev = sep_sum(f, os, cfg, n - 1);
        if sep_ok(f, os[n - 1], cfg) {
            (prev.0 + sep_contrib(f, os[n - 1]).0, prev.1 + sep_contrib(f, os[n - 1]).1)
        } else {
            prev
        }
    }
}

/// How many of the first `n` scanned agents are separation neighbors.
pub open spec fn sep_cnt(f: Vehicle, os: Seq<Vehicle>, cfg: SimConfig, n: int) -> int
    decreases n,
{
    if n <= 0 {
        0
    } else {
        sep_cnt(f, os, cfg, n - 1) + if sep_ok(f, os[n - 1], cfg) {
            1int
        } else {
            0int
        }
    }
}

/// Sum of alignment neighbors' velocities over the first `n` agents.
pub open spec fn align_sum(f: Vehicle, os: Seq<Vehicle>, cfg: SimConfig, n: int) -> (int, int)
    decreases n,
{
    if n <= 0 {
        (0, 0)
    } else {
        let prev = align_sum(f, os, cfg, n - 1);
        if align_ok(f, os[n - 1], cfg) {
            (prev.0 + os[n - 1].velocity.x, prev.1 + os[n - 1].velocity.y)
        } else {
            prev
        }
    }
}

/// How many of the first `n` scanned agents are alignment neighbors.
pub open spec fn align_cnt(f: Vehicle, os: Seq<Vehicle>, cfg: SimConfig, n: int) -> int
    decreases n,
{
    if n <= 0 {
        0
    } else {
        align_cnt(f, os, cfg, n - 1) + if align_ok(f, os[n - 1], cfg) {
            1int
        } else {
            0int
        }
    }
}

/// Sum of cohesion neighbors' positions over the first `n` agents.
pub open spec fn coh_sum(f: Vehicle, os: Seq<Vehicle>, cfg: SimConfig, n: int) -> (int, int)
    decreases n,
{
    if n <= 0 {
        (0, 0)
    } else {
        let prev = coh_sum(f, os, cfg, n - 1);
        if coh_ok(f, os[n - 1], cfg) {
            (prev.0 + os[n - 1].position.x, prev.1 + os[n - 1].position.y)
        } else {
            prev
        }
    }
}

/// How many of the first `n` scanned agents are cohesion neighbors.
pub open spec fn coh_cnt(f: Vehicle, os: Seq<Vehicle>, cfg: SimConfig, n: int) -> int
    decreases n,
{
    if n <= 0 {
        0
    } else {
        coh_cnt(f, os, cfg, n - 1) + if coh_ok(f, os[n - 1], cfg) {
            1int
        } else {
            0int
        }
    }
}

/// The first scanned agent that blocks the view, if any: only the first
/// qualifying neighbor is avoided, never an average of several.
pub open spec fn view_pick(f: Vehicle, os: Seq<Vehicle>, cfg: SimConfig, n: int) -> Option<
    int,
>
    decreases n,
{
    if n <= 0 {
        Option::None
    } else {
        match view_pick(f, os, cfg, n - 1) {
            Option::Some(k) => Option::Some(k),
            Option::None => if view_ok(f, os[n - 1], cfg) {
                Option::Some(n - 1)
            } else {
                Option::None
            },
        }
    }
}

/// Acceleration gained from a force: `force / mass`, per component.
pub open spec fn spec_accel_of(force: (int, int), mass: int) -> (int, int) {
    (div_t(force.0 * SCALE, mass), div_t(force.1 * SCALE, mass))
}

/// The separation force on `f` from the whole scan: the average
/// contribution, normalized to full speed, turned into a weighted force;
/// zero when no neighbor qualified.
pub open spec fn spec_sep_force(f: Vehicle, os: Seq<Vehicle>, cfg: SimConfig) -> (int, int) {
    let n = os.len() as int;
    let cnt = sep_cnt(f, os, cfg, n);
    if cnt > 0 {
        let sum = sep_sum(f, os, cfg, n);
        let avg = Vec2Fx { x: div_t(sum.0, cnt) as i64, y: div_t(sum.1, cnt) as i64 };
        let des = spec_normalize_to(avg, cfg.max_speed as int);
        spec_steer_force(
            Vec2Fx { x: des.0 as i64, y: des.1 as i64 },
            f.velocity,
            cfg.separation_weight as int,
            cfg.max_force as int,
        )
    } else {
        (0, 0)
    }
}

/// The alignment force on `f`: the neighbors' average velocity,
/// normalized to full speed, as a weighted force; zero without neighbors.
pub open spec fn spec_align_force(f: Vehicle, os: Seq<Vehicle>, cfg: SimConfig) -> (int, int) {
    let n = os.len() as int;
    let cnt = align_cnt(f, os, cfg, n);
    if cnt > 0 {
        let sum = align_sum(f, os, cfg, n);
        let avg = Vec2Fx { x: div_t(sum.0, cnt) as i64, y: div_t(sum.1, cnt) as i64 };
        let des = spec_normalize_to(avg, cfg.max_speed as int);
        spec_steer_force(
            Vec2Fx { x: des.0 as i64, y: des.1 as i64 },
            f.velocity,
            cfg.align_weight as int,
            cfg.max_force as int,
        )
    } else {
        (0, 0)
    }
}

/// The cohesion force on `f`: seek toward the neighbors' centroid, as a
/// weighted force; zero without neighbors.
pub open spec fn spec_coh_force(f: Vehicle, os: Seq<Vehicle>, cfg: SimConfig) -> (int, int) {
    let n = os.len() as int;
    let cnt = coh_cnt(f, os, cfg, n);
    if cnt > 0 {
        let sum = coh_sum(f, os, cfg, n);
        let centroid = Vec2Fx { x: div_t(sum.0, cnt) as i64, y: div_t(sum.1, cnt) as i64 };
        let des = spec_seek(centroid, f.position, cfg);
        spec_steer_force(
            Vec2Fx { x: des.0 as i64, y: des.1 as i64 },
            f.velocity,
            cfg.cohesion_weight as int,
            cfg.max_force as int,
        )
    } else {
        (0, 0)
    }
}

/// The view-avoidance force on `f`: the perpendicular dodge around the
/// first qualifying neighbor, normalized to full speed, as a weighted
/// force; zero when nothing blocks the view.
pub open spec fn spec_view_force(f: Vehicle, os: Seq<Vehicle>, cfg: SimConfig) -> (int, int) {
    match view_pick(f, os, cfg, os.len() as int) {
        Option::Some(k) => {
            let sum = view_contrib(f, os[k]);
            let des = spec_normalize_to(
                Vec2Fx { x: sum.0 as i64, y: sum.1 as i64 },
                cfg.max_speed as int,
            );
            spec_steer_force(
                Vec2Fx { x: des.0 as i64, y: des.1 as i64 },
                f.velocity,
                cfg.view_weight as int,
                cfg.max_force as int,
            )
        },
        Option::None => (0, 0),
    }
}

/// Everything the aggregator adds to the focal agent's acceleration in
/// one tick: the four flocking forces, each divided by the mass.
pub open spec fn spec_flock_accel(f: Vehicle, os: Seq<Vehicle>, cfg: SimConfig) -> (int, int) {
    let a = spec_accel_of(spec_sep_force(f, os, cfg), cfg.mass as int);
    let b = spec_accel_of(spec_align_force(f, os, cfg), cfg.mass as int);
    let c = spec_accel_of(spec_coh_force(f, os, cfg), cfg.mass as int);
    let d = spec_accel_of(spec_view_force(f, os, cfg), cfg.mass as int);
    (a.0 + b.0 + c.0 + d.0, a.1 + b.1 + c.1 + d.1)
}

/// A force of zero adds no acceleration, whatever the mass.
pub proof fn lemma_accel_of_zero(mass: int)
    requires
        mass >= 1,
    ensures
        spec_accel_of((0, 0), mass) == (0int, 0int),
{
    lemma_div_t_bound(0 * SCALE, mass, 0);
}

/// Scan every other agent once and add the four flocking forces —
/// separation, alignment, cohesion, view avoidance — to the focal
/// agent's acceleration. Nothing else about the agent changes, and a
/// behavior without qualifying neighbors adds nothing.
#[verifier::rlimit(100)]
pub fn flock(agent: &mut Vehicle, others: &Vec<Vehicle>, cfg: &SimConfig)
    requires
        cfg.wf(),
        old(agent).wf(*cfg),
        others@.len() <= COUNT_MAX,
        forall|k: int| 0 <= k < others@.len() ==> (#[trigger] others@[k]).wf(*cfg),
    ensures
        final(agent).acceleration.x == old(agent).acceleration.x + spec_flock_accel(
            *old(agent),
            others@,
            *cfg,
        ).0,
        final(agent).acceleration.y == old(agent).acceleration.y + spec_flock_accel(
            *old(agent),
            others@,
            *cfg,
        ).1,
        spec_abs(spec_flock_accel(*old(agent), others@, *cfg).0) <= 4 * FORCE_LIMIT
            * SCALE,
        spec_abs(spec_flock_accel(*old(agent), others@, *cfg).1) <= 4 * FORCE_LIMIT
            * SCALE,
        final(agent).position == old(agent).position,
        final(agent).velocity == old(agent).velocity,
        final(agent).mass == old(agent).mass,
        final(agent).wander_theta == old(agent).wander_theta,
{
    let f: Vehicle = *agent;
    let fpos: Vec2Fx = f.position;
    let fvel: Vec2Fx = f.velocity;
    proof {
        assert(0 <= cfg.separation_dist * cfg.separation_dist <= 0x100_0000_0000int && 0
            <= cfg.align_dist * cfg.align_dist <= 0x100_0000_0000int && 0 <= cfg.cohesion_dist
            * cfg.cohesion_dist <= 0x100_0000_0000int && 0 <= cfg.view_dist * cfg.view_dist
            <= 0x100_0000_0000int) by (nonlinear_arith)
            requires
                0 <= cfg.separation_dist <= CFG_MAX,
                0 <= cfg.align_dist <= CFG_MAX,
                0 <= cfg.cohesion_dist <= CFG_MAX,
                0 <= cfg.view_dist <= CFG_MAX,
        ;
    }
    let sep2: i64 = cfg.separation_dist * cfg.separation_dist;
    let align2: i64 = cfg.align_dist * cfg.align_dist;
    let coh2: i64 = cfg.cohesion_dist * cfg.cohesion_dist;
    let view2: i64 = cfg.view_dist * cfg.view_dist;

    let mut ssx: i64 = 0;
    let mut ssy: i64 = 0;
    let mut scnt: usize = 0;
    let mut asx: i64 = 0;
    let mut asy: i64 = 0;
    let mut acnt: usize = 0;
    let mut csx: i128 = 0;
    let mut csy: i128 = 0;
    let mut ccnt: usize = 0;
    let mut vsx: i64 = 0;
    let mut vsy: i64 = 0;
    let mut vcnt: usize = 0;

    let n: usize = others.len();
    let mut j: usize = 0;
    while j < n
        invariant
            cfg.wf(),
            f.wf(*cfg),
            fpos == f.position,
            fvel == f.velocity,
            others@.len() == n,
            n <= COUNT_MAX,
            forall|k: int| 0 <= k < others@.len() ==> (#[trigger] others@[k]).wf(*cfg),
            sep2 == cfg.separation_dist * cfg.separation_dist,
            align2 == cfg.align_dist * cfg.align_dist,
            coh2 == cfg.cohesion_dist * cfg.cohesion_dist,
            view2 == cfg.view_dist * cfg.view_dist,
            j <= n,
            ssx == sep_sum(f, others@, *cfg, j as int).0,
            ssy == sep_sum(f, others@, *cfg, j as int).1,
            scnt == sep_cnt(f, others@, *cfg, j as int),
            scnt <= j,
            spec_abs(ssx as int) <= scnt * 1000000,
            spec_abs(ssy as int) <= scnt * 1000000,
            asx == align_sum(f, others@, *cfg, j as int).0,
            asy == align_sum(f, others@, *cfg, j as int).1,
            acnt == align_cnt(f, others@, *cfg, j as int),
            acnt <= j,
            spec_abs(asx as int) <= acnt * CFG_MAX,
            spec_abs(asy as int) <= acnt * CFG_MAX,
            csx == coh_sum(f, others@, *cfg, j as int).0,
            csy == coh_sum(f, others@, *cfg, j as int).1,
            ccnt == coh_cnt(f, others@, *cfg, j as int),
            ccnt <= j,
            spec_abs(csx as int) <= ccnt * POS_LIMIT,
            spec_abs(csy as int) <= ccnt * POS_LIMIT,
            vcnt <= 1,
            view_pick(f, others@, *cfg, j as int) is Some ==> {
                let k = view_pick(f, others@, *cfg, j as int)->Some_0;
                vcnt == 1 && vsx == view_contrib(f, others@[k]).0 && vsy == view_contrib(
                    f,
                    others@[k],
                ).1
            },
            view_pick(f, others@, *cfg, j as int) is None ==> vcnt == 0 && vsx == 0 && vsy
                == 0,
            spec_abs(vsx as int) <= SCALE,
            spec_abs(vsy as int) <= SCALE,
        decreases n - j,
    {
        let o: Vehicle = others[j];
        let d2: u128 = fpos.dist_sq(o.position);
        if d2 > 0 {
            if d2 <= sep2 as u128 {
                let away: Vec2Fx = fpos.minus(o.position);
                proof {
                    lemma_isqrt_sq(away);
                    assert(spec_len_sq(away) == spec_dist_sq(fpos, o.position));
                }
                let dist: i64 = away.len_fx();
                proof {
                    assert(dist as int >= 1) by (nonlinear_arith)
                        requires
                            dist as int == spec_len(away),
                            spec_len(away) >= 0,
                            spec_len(away) * spec_len(away) <= spec_len_sq(away),
                            spec_len_sq(away) < (spec_len(away) + 1) * (spec_len(away) + 1),
                            spec_len_sq(away) >= 1,
                    ;
                }
                let unit: Vec2Fx = away.normalize_to(SCALE);
                proof {
                    assert(spec_abs(unit.x as int * SCALE as int) <= 1000000int && spec_abs(
                        unit.y as int * SCALE as int,
                    ) <= 1000000int) by (nonlinear_arith)
                        requires
                            spec_abs(unit.x as int) <= SCALE,
                            spec_abs(unit.y as int) <= SCALE,
                    ;
                    assert(1000000int <= dist as int * i64::MAX as int) by (nonlinear_arith)
                        requires
                            dist >= 1,
                    ;
                }
                let cx: i64 = mul_div(unit.x, SCALE, dist);
                let cy: i64 = mul_div(unit.y, SCALE, dist);
                proof {
                    lemma_div_t_bound(unit.x as int * SCALE as int, dist as int, 1000000);
                    lemma_div_t_bound(unit.y as int * SCALE as int, dist as int, 1000000);
                }
                ssx = ssx + cx;
                ssy = ssy + cy;
                scnt = scnt + 1;
            }
            if d2 <= align2 as u128 {
                asx = asx + o.velocity.x;
                asy = asy + o.velocity.y;
                acnt = acnt + 1;
            }
            if d2 <= coh2 as u128 {
                csx = csx + o.position.x as i128;
                csy = csy + o.position.y as i128;
                ccnt = ccnt + 1;
            }
            if d2 <= view2 as u128 && vcnt == 0 {
                let path: Vec2Fx = o.position.minus(fpos);
                proof {
                    assert(spec_abs(fvel.x as int * path.x as int) <= 0x8000_0000_0000_0000_0000int
                        && spec_abs(fvel.y as int * path.y as int)
                        <= 0x8000_0000_0000_0000_0000int && spec_abs(
                        fvel.x as int * path.y as int,
                    ) <= 0x8000_0000_0000_0000_0000int && spec_abs(fvel.y as int * path.x as int)
                        <= 0x8000_0000_0000_0000_0000int) by (nonlinear_arith)
                        requires
                            spec_abs(fvel.x as int) <= CFG_MAX as int,
                            spec_abs(fvel.y as int) <= CFG_MAX as int,
                            spec_abs(path.x as int) <= NORM_LIMIT as int,
                            spec_abs(path.y as int) <= NORM_LIMIT as int,
                    ;
                }
                let dot: i128 = (fvel.x as i128) * (path.x as i128) + (fvel.y as i128) * (
                path.y as i128);
                let cross: i128 = (fvel.x as i128) * (path.y as i128) - (fvel.y as i128) * (
                path.x as i128);
                let across: i128 = if cross < 0 {
                    -cross
                } else {
                    cross
                };
                proof {
                    assert(spec_abs(across as int * SCALE as int)
                        <= 0x8000_0000_0000_0000_0000_0000int && spec_abs(
                        cfg.view_tan as int * dot as int,
                    ) <= 0x8000_0000_0000_0000_0000_0000_0000int) by (nonlinear_arith)
                        requires
                            spec_abs(across as int) <= 0x1_0000_0000_0000_0000_0000int,
                            spec_abs(dot as int) <= 0x1_0000_0000_0000_0000_0000int,
                            0 <= cfg.view_tan <= CFG_MAX,
                    ;
                }
                if dot > 0 && across * (SCALE as i128) < (cfg.view_tan as i128) * dot {
                    let val: Vec2Fx = path.perp();
                    let unit: Vec2Fx = val.normalize_to(SCALE);
                    proof {
                        assert(spec_abs(fvel.x as int * val.x as int)
                            <= 0x8000_0000_0000_0000_0000int && spec_abs(
                            fvel.y as int * val.y as int,
                        ) <= 0x8000_0000_0000_0000_0000int) by (nonlinear_arith)
                            requires
                                spec_abs(fvel.x as int) <= CFG_MAX as int,
                                spec_abs(fvel.y as int) <= CFG_MAX as int,
                                spec_abs(val.x as int) <= NORM_LIMIT as int,
                                spec_abs(val.y as int) <= NORM_LIMIT as int,
                        ;
                    }
                    let vdot: i128 = (fvel.x as i128) * (val.x as i128) + (fvel.y as i128) * (
                    val.y as i128);
                    if vdot > 0 {
                        vsx = unit.x;
                        vsy = unit.y;
                    } else {
                        vsx = -unit.x;
                        vsy = -unit.y;
                    }
                    vcnt = 1;
                }
            }
        }
        j = j + 1;
    }

    // Separation: average, renormalize to full speed, convert to force.
    if scnt > 0 {
        let cnt: i64 = scnt as i64;
        let avx: i64 = ssx / cnt;
        let avy: i64 = ssy / cnt;
        proof {
            lemma_div_t_bound(ssx as int, cnt as int, scnt * 1000000);
            lemma_div_t_bound(ssy as int, cnt as int, scnt * 1000000);
        }
        let avg: Vec2Fx = Vec2Fx { x: avx, y: avy };
        let des: Vec2Fx = avg.normalize_to(cfg.max_speed);
        let force: Vec2Fx = steer_force(des, fvel, cfg.separation_weight, cfg);
        agent.apply_force(force);
    } else {
        proof {
            lemma_accel_of_zero(cfg.mass as int);
        }
    }

    // Alignment: average neighbor velocity, renormalized to full speed.
    if acnt > 0 {
        let cnt: i64 = acnt as i64;
        proof {
            crate::fx::lemma_div_t_le(asx as int, cnt as int, CFG_MAX as int);
            crate::fx::lemma_div_t_le(asy as int, cnt as int, CFG_MAX as int);
        }
        let avx: i64 = asx / cnt;
        let avy: i64 = asy / cnt;
        let avg: Vec2Fx = Vec2Fx { x: avx, y: avy };
        let des: Vec2Fx = avg.normalize_to(cfg.max_speed);
        let force: Vec2Fx = steer_force(des, fvel, cfg.align_weight, cfg);
        agent.apply_force(force);
    } else {
        proof {
            lemma_accel_of_zero(cfg.mass as int);
        }
    }

    // Cohesion: seek the neighbors' centroid.
    if ccnt > 0 {
        let cnt: i128 = ccnt as i128;
        proof {
            crate::fx::lemma_div_t_le(csx as int, cnt as int, POS_LIMIT as int);
            crate::fx::lemma_div_t_le(csy as int, cnt as int, POS_LIMIT as int);
        }
        let cenx: i128 = csx / cnt;
        let ceny: i128 = csy / cnt;
        let centroid: Vec2Fx = Vec2Fx { x: cenx as i64, y: ceny as i64 };
        let des: Vec2Fx = seek_steer(centroid, fpos, cfg);
        let force: Vec2Fx = steer_force(des, fvel, cfg.cohesion_weight, cfg);
        agent.apply_force(force);
    } else {
        proof {
            lemma_accel_of_zero(cfg.mass as int);
        }
    }

    // View avoidance: dodge the first qualifying neighbor.
    if vcnt > 0 {
        let sum: Vec2Fx = Vec2Fx { x: vsx, y: vsy };
        let des: Vec2Fx = sum.normalize_to(cfg.max_speed);
        let force: Vec2Fx = steer_force(des, fvel, cfg.view_weight, cfg);
        agent.apply_force(force);
    } else {
        proof {
            lemma_accel_of_zero(cfg.mass as int);
        }
    }
}

} // verus!
