//! Rules shared by the movement handlers: horizontal acceleration under a
//! speed cap, and turning the orientation toward a target direction.
use vstd::prelude::*;
use crate::fixed::{
    abs, clamp, clamp_spec, lemma_blend_between, min_spec, norm_sq3, tdiv, tdiv_exec,
    unit, unit_spec, Vec3, DIR_BOUND, SCALE, VEL_BOUND,
};

verus! {

/// Acceleration on the ground, in millimetres per second squared.
pub const HUMANOID_ACCEL: i64 = 50_000;
/// Horizontal speed cap on the ground, in millimetres per second.
pub const HUMANOID_SPEED: i64 = 120_000;
/// Acceleration in the air.
pub const HUMANOID_AIR_ACCEL: i64 = 10_000;
/// Horizontal speed cap in the air.
pub const HUMANOID_AIR_SPEED: i64 = 100_000;
/// Acceleration while climbing.
pub const HUMANOID_CLIMB_ACCEL: i64 = 5_000;
/// Horizontal speed cap while climbing.
pub const HUMANOID_CLIMB_SPEED: i64 = 20_000;
/// Turn rate on the ground, in thousandths of the remaining angle per millisecond.
pub const GROUND_TURN_RATE: i64 = 9;
/// Turn rate in the air or on a wall.
pub const AIR_TURN_RATE: i64 = 2;
/// A target direction with squared length at most this is ignored.
pub const TARGET_EPS_SQ: i64 = 100;
/// Orientations whose unit vectors are at most this far apart (squared) are aligned.
pub const ALIGN_EPS_SQ: i64 = 1000;
/// A wall direction with squared length above this gives the orientation.
pub const WALL_EPS_SQ: i64 = 1000;
/// Longest tick, in milliseconds: an hour. The largest fixed-point product
/// of a tick (the climbing-down drag) stays within `i64` up to about
/// thirteen hours; longer ticks are refused.
pub const MAX_DT: u64 = 3_600_000;

/// A valid tick length: positive and at most `MAX_DT` milliseconds.
pub open spec fn dt_ok(dt: u64) -> bool {
    0 < dt <= MAX_DT
}

/// Velocity after horizontal acceleration: `dt * dir * accel` is added only
/// while the squared horizontal speed is below `cap` squared; components
/// saturate at `VEL_BOUND`.
pub open spec fn accelerate_spec(v: Vec3, mx: int, my: int, dt: int, accel: int, cap: int) -> Vec3 {
    if v.x * v.x + v.y * v.y < cap * cap {
        Vec3 {
            x: clamp_spec(v.x + tdiv(dt * mx * accel, 1_000_000), VEL_BOUND as int) as i64,
            y: clamp_spec(v.y + tdiv(dt * my * accel, 1_000_000), VEL_BOUND as int) as i64,
            z: v.z,
        }
    } else {
        v
    }
}

pub fn accelerate(v: Vec3, mx: i64, my: i64, dt: u64, accel: i64, cap: i64) -> (r: Vec3)
    requires
        v.within(VEL_BOUND as int),
        abs(mx as int) <= DIR_BOUND,
        abs(my as int) <= DIR_BOUND,
        dt <= MAX_DT,
        0 <= accel <= 100_000,
        0 <= cap <= VEL_BOUND,
    ensures
        r == accelerate_spec(v, mx as int, my as int, dt as int, accel as int, cap as int),
        r.within(VEL_BOUND as int),
{
    let d = dt as i64;
    assert(v.x * v.x <= 1_000_000_000_000 && v.y * v.y <= 1_000_000_000_000) by (nonlinear_arith)
        requires abs(v.x as int) <= 1_000_000, abs(v.y as int) <= 1_000_000;
    assert(v.x * v.x >= 0 && v.y * v.y >= 0 && cap * cap <= 1_000_000_000_000) by (nonlinear_arith)
        requires 0 <= cap <= 1_000_000;
    if v.x * v.x + v.y * v.y < cap * cap {
        assert(abs(d * mx) <= 3_600_000_000_000 && abs(d * my) <= 3_600_000_000_000) by (nonlinear_arith)
            requires 0 <= d <= 3_600_000, abs(mx as int) <= 1_000_000, abs(my as int) <= 1_000_000;
        assert(abs(d * mx * accel) <= 360_000_000_000_000_000 && abs(d * my * accel)
            <= 360_000_000_000_000_000) by (nonlinear_arith)
            requires
                0 <= d <= 3_600_000,
                abs(mx as int) <= 1_000_000,
                abs(my as int) <= 1_000_000,
                0 <= accel <= 100_000,
        ;
        let ax = tdiv_exec(d * mx * accel, 1_000_000);
        let ay = tdiv_exec(d * my * accel, 1_000_000);
        proof {
            crate::fixed::lemma_tdiv_bounds(d * mx * accel, 1_000_000);
            crate::fixed::lemma_tdiv_bounds(d * my * accel, 1_000_000);
        }
        Vec3 { x: clamp(v.x + ax, VEL_BOUND), y: clamp(v.y + ay, VEL_BOUND), z: v.z }
    } else {
        v
    }
}

/// Squared distance between two triples.
pub open spec fn dist_sq(a: (int, int, int), b: (int, int, int)) -> int {
    (a.0 - b.0) * (a.0 - b.0) + (a.1 - b.1) * (a.1 - b.1) + (a.2 - b.2) * (a.2 - b.2)
}

/// One component moved `f` thousandths of the way from `o` to `n`.
pub open spec fn blend(o: int, n: int, f: int) -> int {
    o + tdiv((n - o) * f, 1000)
}

/// The orientation turned toward the horizontal target `(tx, ty)` at `rate`
/// thousandths per millisecond, the blend capped at a full turn. The turn is
/// a normalised linear blend, which approximates spherical interpolation:
/// the components move linearly toward the unit target and the result is
/// scaled back to unit length (a blend that cancels out exactly stays
/// zero). Nothing changes when the target is near zero or already aligned
/// with the orientation.
pub open spec fn orient_spec(ori: Vec3, tx: int, ty: int, rate: int, dt: int) -> Vec3 {
    let t = unit_spec(tx, ty, 0);
    let o = unit_spec(ori.x as int, ori.y as int, ori.z as int);
    if tx * tx + ty * ty > TARGET_EPS_SQ && dist_sq(o, t) > ALIGN_EPS_SQ {
        let f = min_spec(rate * dt, 1000);
        let u = unit_spec(blend(ori.x as int, t.0, f), blend(ori.y as int, t.1, f), blend(ori.z as int, t.2, f));
        Vec3 { x: u.0 as i64, y: u.1 as i64, z: u.2 as i64 }
    } else {
        ori
    }
}

fn blend_exec(o: i64, n: i64, f: i64) -> (r: i64)
    requires
        abs(o as int) <= DIR_BOUND,
        abs(n as int) <= SCALE,
        0 <= f <= 1000,
    ensures
        r == blend(o as int, n as int, f as int),
        abs(r as int) <= DIR_BOUND,
{
    proof {
        lemma_blend_between(n - o, f as int);
    }
    assert(abs((n - o) * f) <= 1_001_000_000) by (nonlinear_arith)
        requires abs(n - o) <= 1_001_000, 0 <= f <= 1000;
    o + tdiv_exec((n - o) * f, 1000)
}

/// Turns `ori` toward the horizontal target `(tx, ty)`.
pub fn orient(ori: Vec3, tx: i64, ty: i64, rate: i64, dt: u64) -> (r: Vec3)
    requires
        ori.within(DIR_BOUND as int),
        abs(tx as int) <= DIR_BOUND,
        abs(ty as int) <= DIR_BOUND,
        0 <= rate <= 1000,
        dt <= MAX_DT,
    ensures
        r == orient_spec(ori, tx as int, ty as int, rate as int, dt as int),
        r.within(DIR_BOUND as int),
        tx * tx + ty * ty <= TARGET_EPS_SQ ==> r == ori,
        dist_sq(
            unit_spec(ori.x as int, ori.y as int, ori.z as int),
            unit_spec(tx as int, ty as int, 0),
        ) <= ALIGN_EPS_SQ ==> r == ori,
{
    let t2 = norm_sq3(tx, ty, 0);
    let t = unit(tx, ty, 0);
    let o = unit(ori.x, ori.y, ori.z);
    let dx = o.0 - t.0;
    let dy = o.1 - t.1;
    let dz = o.2 - t.2;
    assert(dx * dx <= 4_000_000 && dy * dy <= 4_000_000 && dz * dz <= 4_000_000) by (nonlinear_arith)
        requires abs(dx as int) <= 2000, abs(dy as int) <= 2000, abs(dz as int) <= 2000;
    assert(dx * dx >= 0 && dy * dy >= 0 && dz * dz >= 0) by (nonlinear_arith);
    let d2 = dx * dx + dy * dy + dz * dz;
    assert(tx * tx + ty * ty == t2);
    if t2 > TARGET_EPS_SQ as u64 && d2 > ALIGN_EPS_SQ {
        let d = dt as i64;
        assert(0 <= rate * d <= 3_600_000_000) by (nonlinear_arith)
            requires 0 <= rate <= 1000, 0 <= d <= 3_600_000;
        let rd = rate * d;
        let f = if rd < 1000 { rd } else { 1000 };
        let u = unit(blend_exec(ori.x, t.0, f), blend_exec(ori.y, t.1, f), blend_exec(ori.z, t.2, f));
        Vec3 { x: u.0, y: u.1, z: u.2 }
    } else {
        ori
    }
}

} // verus!
