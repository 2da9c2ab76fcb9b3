//! The physics integrator: gravity, ground friction and the position update.
use vstd::prelude::*;
use crate::fixed::{abs, clamp, clamp_spec, lemma_tdiv_bounds, max_spec, tdiv, tdiv_exec, Vec3, POS_BOUND, VEL_BOUND};
use crate::movement::{dt_ok, MAX_DT};
use crate::state::{EntitySnapshot, PhysicsFacts};

verus! {

/// Gravity, in millimetres per second squared.
pub const GRAVITY: i64 = 39_240;
/// Ground friction, in thousandths of the speed per second.
pub const GROUND_FRICTION: i64 = 15_000;

/// How much ground friction takes off a speed `a` in one tick: a fixed share
/// of it, and at least one unit, so that a slow entity still comes to rest.
pub open spec fn friction_step(a: int, dt: int) -> int {
    max_spec((a * dt * GROUND_FRICTION) / 1_000_000, 1)
}

/// One horizontal component after ground friction: moved toward zero by
/// `friction_step`, never past it.
pub open spec fn friction_spec(v: int, dt: int) -> int {
    let s = friction_step(abs(v), dt);
    if abs(v) <= s {
        0
    } else if v > 0 {
        v - s
    } else {
        v + s
    }
}

/// The velocity drop that gravity causes in one tick.
pub open spec fn gravity_drop(dt: int) -> int {
    (dt * GRAVITY) / 1000
}

/// Velocity after world forces: on the ground, friction on the horizontal
/// components and gravity that stops at rest; in the air, gravity alone.
pub open spec fn forces_spec(v: Vec3, f: PhysicsFacts, dt: int) -> Vec3 {
    if f.on_ground {
        Vec3 {
            x: friction_spec(v.x as int, dt) as i64,
            y: friction_spec(v.y as int, dt) as i64,
            z: max_spec(v.z - gravity_drop(dt), 0) as i64,
        }
    } else {
        Vec3 { x: v.x, y: v.y, z: clamp_spec(v.z - gravity_drop(dt), VEL_BOUND as int) as i64 }
    }
}

pub open spec fn move_comp(p: int, v: int, dt: int) -> int {
    clamp_spec(p + tdiv(v * dt, 1000), POS_BOUND as int)
}

/// One integration step: forces first, then the position moves by the new
/// velocity; positions saturate at `POS_BOUND`.
pub open spec fn integrate_spec(e: EntitySnapshot, f: PhysicsFacts, dt: int) -> EntitySnapshot {
    let v = forces_spec(e.vel, f, dt);
    EntitySnapshot {
        pos: Vec3 {
            x: move_comp(e.pos.x as int, v.x as int, dt) as i64,
            y: move_comp(e.pos.y as int, v.y as int, dt) as i64,
            z: move_comp(e.pos.z as int, v.z as int, dt) as i64,
        },
        vel: v,
        ori: e.ori,
        character: e.character,
    }
}

fn friction(v: i64, dt: u64) -> (r: i64)
    requires
        abs(v as int) <= VEL_BOUND,
        dt <= MAX_DT,
    ensures
        r == friction_spec(v as int, dt as int),
        abs(r as int) <= abs(v as int),
        v != 0 ==> abs(r as int) < abs(v as int),
{
    let a: i64 = if v >= 0 { v } else { -v };
    let d = dt as i64;
    assert(0 <= a * d * GROUND_FRICTION <= 54_000_000_000_000_000) by (nonlinear_arith)
        requires 0 <= a <= 1_000_000, 0 <= d <= 3_600_000, GROUND_FRICTION == 15_000;
    let q = (a * d * GROUND_FRICTION) / 1_000_000;
    let s = if q > 1 { q } else { 1 };
    if a <= s {
        0
    } else if v > 0 {
        v - s
    } else {
        v + s
    }
}

fn move_comp_exec(p: i64, v: i64, dt: u64) -> (r: i64)
    requires
        abs(p as int) <= POS_BOUND,
        abs(v as int) <= VEL_BOUND,
        dt <= MAX_DT,
    ensures
        r == move_comp(p as int, v as int, dt as int),
        abs(r as int) <= POS_BOUND,
{
    let d = dt as i64;
    assert(abs(v * d) <= 3_600_000_000_000) by (nonlinear_arith)
        requires abs(v as int) <= 1_000_000, 0 <= d <= 3_600_000;
    proof {
        lemma_tdiv_bounds(v * d, 1000);
    }
    clamp(p + tdiv_exec(v * d, 1000), POS_BOUND)
}

/// Applies gravity, friction and the position update to one entity.
pub fn integrate(e: &EntitySnapshot, f: &PhysicsFacts, dt: u64) -> (r: EntitySnapshot)
    requires
        e.wf(),
        dt_ok(dt),
    ensures
        r == integrate_spec(*e, *f, dt as int),
        r.wf(),
{
    let d = dt as i64;
    let drop = (d * GRAVITY) / 1000;
    let v = e.vel;
    let nv = if f.on_ground {
        let z = v.z - drop;
        Vec3 { x: friction(v.x, dt), y: friction(v.y, dt), z: if z >= 0 { z } else { 0 } }
    } else {
        Vec3 { x: v.x, y: v.y, z: clamp(v.z - drop, VEL_BOUND) }
    };
    EntitySnapshot {
        pos: Vec3 {
            x: move_comp_exec(e.pos.x, nv.x, dt),
            y: move_comp_exec(e.pos.y, nv.y, dt),
            z: move_comp_exec(e.pos.z, nv.z, dt),
        },
        vel: nv,
        ori: e.ori,
        character: e.character,
    }
}

} // verus!
