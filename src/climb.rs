//! The climbing handler: horizontal movement along the wall, facing the
//! wall, the three vertical sub-behaviours and the mode transitions.
use vstd::prelude::*;
use crate::fixed::{
    abs, clamp, clamp_spec, isqrt, isqrt_spec, lemma_tdiv_bounds, max_spec, min_spec, norm_sq3,
    tdiv, tdiv_exec, unit, unit_spec, Vec3, VEL_BOUND,
};
use crate::movement::{
    accelerate, accelerate_spec, dt_ok, MAX_DT, orient, orient_spec, AIR_TURN_RATE, GROUND_TURN_RATE,
    HUMANOID_CLIMB_ACCEL, HUMANOID_CLIMB_SPEED, WALL_EPS_SQ,
};
use crate::state::{
    CharacterState, ClimbHandler, ControlCommand, EntitySnapshot, FallHandler,
    JumpHandler, MoveState, PhysicsFacts, StandHandler,
};

verus! {

/// Highest upward climbing speed, in millimetres per second.
pub const CLIMB_SPEED: i64 = 5_000;
/// Upward gain while climbing up: 1.25 times gravity, per second.
pub const CLIMB_UP_GAIN: i64 = 49_050;
/// Upward gain while sliding: 1.5 times gravity, per second.
pub const SLIDE_GAIN: i64 = 58_860;
/// Factor of the power-law drag while climbing down.
pub const CLIMB_DOWN_DRAG: i64 = 6;
/// Deceleration rate of the slide, per second.
pub const SLIDE_DECEL: i64 = 30;

/// The vertical sub-behaviour chosen by the two climbing buttons.
#[derive(Debug, PartialEq, Eq, Structural, Clone, Copy)]
pub enum ClimbMode {
    Down,
    Up,
    Slide,
}

pub open spec fn climb_mode_spec(up: bool, down: bool) -> ClimbMode {
    if down && !up {
        ClimbMode::Down
    } else if up && !down {
        ClimbMode::Up
    } else {
        ClimbMode::Slide
    }
}

/// Down only, up only, or neither / both held.
pub fn climb_mode(up: bool, down: bool) -> (r: ClimbMode)
    ensures
        r == climb_mode_spec(up, down),
{
    if down && !up {
        ClimbMode::Down
    } else if up && !down {
        ClimbMode::Up
    } else {
        ClimbMode::Slide
    }
}

/// Speed taken off a component of magnitude `a` while climbing down: the
/// power-law drag `6 * dt * a^1.5` in fixed point (`a^1.5` is
/// `a * sqrt(1000 a) / 10^6` in these units), rounded up so that a moving
/// climber always feels at least one unit of it.
pub open spec fn down_drag_step(a: int, dt: int) -> int {
    (CLIMB_DOWN_DRAG * dt * a * isqrt_spec(1000 * a) + 999_999) / 1_000_000
}

/// One component after the climbing-down drag `|v|^1.5 * sign(v) * 6 * dt`,
/// saturating at `VEL_BOUND`. A drag larger than the speed reverses it, as
/// the power law does.
pub open spec fn down_drag(v: int, dt: int) -> int {
    if v > 0 {
        clamp_spec(v - down_drag_step(v, dt), VEL_BOUND as int)
    } else if v < 0 {
        clamp_spec(v + down_drag_step(-v, dt), VEL_BOUND as int)
    } else {
        0
    }
}

/// Blend factor of the slide, in thousandths: `30 dt / (1 + 5 |min(vz, 0)|)`,
/// capped at a full stop.
pub open spec fn slide_factor(vz: int, dt: int) -> int {
    min_spec((SLIDE_DECEL * 1000 * dt) / (1000 + 5 * max_spec(-vz, 0)), 1000)
}

/// Velocity after the vertical climbing rule, components saturating at `VEL_BOUND`.
pub open spec fn climb_vertical_spec(v: Vec3, mode: ClimbMode, dt: int) -> Vec3 {
    let b = VEL_BOUND as int;
    match mode {
        ClimbMode::Down => Vec3 {
            x: down_drag(v.x as int, dt) as i64,
            y: down_drag(v.y as int, dt) as i64,
            z: down_drag(v.z as int, dt) as i64,
        },
        ClimbMode::Up => Vec3 {
            x: v.x,
            y: v.y,
            z: min_spec(v.z + (dt * CLIMB_UP_GAIN) / 1000, CLIMB_SPEED as int) as i64,
        },
        ClimbMode::Slide => {
            let z1 = v.z + (dt * SLIDE_GAIN) / 1000;
            let f = slide_factor(z1, dt);
            Vec3 {
                x: clamp_spec(v.x - tdiv(v.x * f, 1000), b) as i64,
                y: clamp_spec(v.y - tdiv(v.y * f, 1000), b) as i64,
                z: clamp_spec(z1 - tdiv(z1 * f, 1000), b) as i64,
            }
        },
    }
}

fn down_drag_exec(v: i64, dt: u64) -> (r: i64)
    requires
        abs(v as int) <= VEL_BOUND,
        1 <= dt <= MAX_DT,
    ensures
        r == down_drag(v as int, dt as int),
        abs(r as int) <= VEL_BOUND,
        v != 0 && down_drag_step(abs(v as int), dt as int) < 2 * abs(v as int) ==> abs(r as int) < abs(v as int),
{
    if v == 0 {
        return 0;
    }
    let a: i64 = if v >= 0 { v } else { -v };
    let s = isqrt(1000 * (a as u64)) as i64;
    let d = dt as i64;
    assert(6 <= CLIMB_DOWN_DRAG * d * a <= 21_600_000_000_000) by (nonlinear_arith)
        requires 1 <= d <= 3_600_000, 1 <= a <= 1_000_000, CLIMB_DOWN_DRAG == 6;
    assert(s <= 31_623) by (nonlinear_arith)
        requires s * s <= 1000 * a, a <= 1_000_000, s >= 0;
    assert(s >= 1) by (nonlinear_arith)
        requires 1000 * a < (s + 1) * (s + 1), a >= 1, s >= 0;
    assert(1 <= CLIMB_DOWN_DRAG * d * a * s <= 683_056_800_000_000_000) by (nonlinear_arith)
        requires 6 <= CLIMB_DOWN_DRAG * d * a <= 21_600_000_000_000, 1 <= s <= 31_623;
    let step = (CLIMB_DOWN_DRAG * d * a * s + 999_999) / 1_000_000;
    assert(step >= 1);
    if v > 0 {
        clamp(v - step, VEL_BOUND)
    } else {
        clamp(v + step, VEL_BOUND)
    }
}

fn slide_component(v: i64, f: i64) -> (r: i64)
    requires
        abs(v as int) <= 300 * VEL_BOUND,
        0 <= f <= 1000,
    ensures
        r == clamp_spec(v - tdiv(v * f, 1000), VEL_BOUND as int),
{
    assert(abs(v * f) <= 300_000_000_000) by (nonlinear_arith)
        requires abs(v as int) <= 300_000_000, 0 <= f <= 1000;
    proof {
        lemma_tdiv_bounds(v * f, 1000);
    }
    clamp(v - tdiv_exec(v * f, 1000), VEL_BOUND)
}

/// Applies the vertical climbing rule of `mode` to `v`.
pub fn climb_vertical(v: Vec3, mode: ClimbMode, dt: u64) -> (r: Vec3)
    requires
        v.within(VEL_BOUND as int),
        1 <= dt <= MAX_DT,
    ensures
        r == climb_vertical_spec(v, mode, dt as int),
        r.within(VEL_BOUND as int),
        mode == ClimbMode::Down && v.z != 0 && down_drag_step(abs(v.z as int), dt as int) < 2 * abs(v.z as int)
            ==> abs(r.z as int) < abs(v.z as int),
{
    let d = dt as i64;
    match mode {
        ClimbMode::Down => {
            Vec3 { x: down_drag_exec(v.x, dt), y: down_drag_exec(v.y, dt), z: down_drag_exec(v.z, dt) }
        },
        ClimbMode::Up => {
            let z = v.z + (d * CLIMB_UP_GAIN) / 1000;
            Vec3 { x: v.x, y: v.y, z: if z < CLIMB_SPEED { z } else { CLIMB_SPEED } }
        },
        ClimbMode::Slide => {
            let z1 = v.z + (d * SLIDE_GAIN) / 1000;
            let down: i64 = if -z1 > 0 { -z1 } else { 0 };
            assert(0 <= SLIDE_DECEL * 1000 * d <= 108_000_000_000) by (nonlinear_arith)
                requires 0 <= d <= 3_600_000, SLIDE_DECEL == 30;
            let num = SLIDE_DECEL * 1000 * d;
            let den = 1000 + 5 * down;
            let q = num / den;
            assert(q >= 0) by (nonlinear_arith)
                requires q == num / den, 0 <= num, 0 < den;
            let f = if q < 1000 { q } else { 1000 };
            Vec3 { x: slide_component(v.x, f), y: slide_component(v.y, f), z: slide_component(z1, f) }
        },
    }
}

/// The horizontal direction the climber turns toward: the wall when it is
/// given clearly, else the horizontal velocity.
pub open spec fn climb_target(v: Vec3, f: PhysicsFacts) -> (int, int) {
    match f.on_wall {
        Some(w) => if w.x * w.x + w.y * w.y > WALL_EPS_SQ {
            let u = unit_spec(w.x as int, w.y as int, 0);
            (u.0, u.1)
        } else {
            (v.x as int, v.y as int)
        },
        None => (v.x as int, v.y as int),
    }
}

pub open spec fn turn_rate(f: PhysicsFacts) -> int {
    if f.on_ground {
        GROUND_TURN_RATE as int
    } else {
        AIR_TURN_RATE as int
    }
}

/// The character state after a climbing tick. Losing the wall is looked at
/// before touching the ground; the action state is left to the action phase.
pub open spec fn climb_transition(ch: CharacterState, c: ControlCommand, f: PhysicsFacts) -> CharacterState {
    if f.on_wall is None {
        if c.jump.just_pressed() {
            CharacterState { move_state: MoveState::Jump(JumpHandler), action_state: ch.action_state }
        } else {
            CharacterState { move_state: MoveState::Fall(FallHandler), action_state: ch.action_state }
        }
    } else if f.on_ground {
        CharacterState { move_state: MoveState::Stand(StandHandler), action_state: ch.action_state }
    } else {
        ch
    }
}

/// Whether the vertical climbing rule applies: touching a wall and not
/// rising faster than `CLIMB_SPEED`. With no climbing button held the rule
/// is the slide.
pub open spec fn climbs_vertically(v: Vec3, f: PhysicsFacts) -> bool {
    v.z <= CLIMB_SPEED && f.on_wall is Some
}

/// One climbing tick of an entity.
pub open spec fn climb_spec(e: EntitySnapshot, c: ControlCommand, f: PhysicsFacts, dt: int) -> EntitySnapshot {
    let v1 = accelerate_spec(
        e.vel,
        c.move_x as int,
        c.move_y as int,
        dt,
        HUMANOID_CLIMB_ACCEL as int,
        HUMANOID_CLIMB_SPEED as int,
    );
    let t = climb_target(v1, f);
    let ori = orient_spec(e.ori, t.0, t.1, turn_rate(f), dt);
    let v2 = if climbs_vertically(v1, f) {
        climb_vertical_spec(v1, climb_mode_spec(c.climb.pressed(), c.climb_down.pressed()), dt)
    } else {
        v1
    };
    EntitySnapshot { pos: e.pos, vel: v2, ori, character: climb_transition(e.character, c, f) }
}

impl ClimbHandler {
    pub fn handle(&self, e: &EntitySnapshot, c: &ControlCommand, f: &PhysicsFacts, dt: u64) -> (r: EntitySnapshot)
        requires
            e.wf(),
            c.wf(),
            f.wf(),
            dt_ok(dt),
        ensures
            r == climb_spec(*e, *c, *f, dt as int),
            r.wf(),
            r.pos == e.pos,
            f.on_wall is None && c.jump.just_pressed() ==> r.character.move_state == MoveState::Jump(JumpHandler),
            f.on_wall is None && !c.jump.just_pressed() ==> r.character.move_state == MoveState::Fall(FallHandler),
            f.on_wall is Some && f.on_ground ==> r.character.move_state == MoveState::Stand(StandHandler),
            f.on_wall is Some && !f.on_ground ==> r.character == e.character,
            r.character.action_state == e.character.action_state,
            c.climb_down.pressed() && !c.climb.pressed() && f.on_wall is Some && e.vel.z <= CLIMB_SPEED
                && e.vel.z != 0 && down_drag_step(abs(e.vel.z as int), dt as int) < 2 * abs(e.vel.z as int)
                ==> abs(r.vel.z as int) < abs(e.vel.z as int),
            c.climb.pressed() && !c.climb_down.pressed() && f.on_wall is Some && e.vel.z <= CLIMB_SPEED
                ==> e.vel.z <= r.vel.z <= CLIMB_SPEED,
            c.climb.pressed() && !c.climb_down.pressed() && f.on_wall is Some && e.vel.z < CLIMB_SPEED
                ==> e.vel.z < r.vel.z,
    {
        let v1 = accelerate(e.vel, c.move_x, c.move_y, dt, HUMANOID_CLIMB_ACCEL, HUMANOID_CLIMB_SPEED);
        let t: (i64, i64) = match f.on_wall {
            Some(w) => {
                if norm_sq3(w.x, w.y, 0) > WALL_EPS_SQ as u64 {
                    let u = unit(w.x, w.y, 0);
                    (u.0, u.1)
                } else {
                    (v1.x, v1.y)
                }
            },
            None => (v1.x, v1.y),
        };
        let rate = if f.on_ground { GROUND_TURN_RATE } else { AIR_TURN_RATE };
        let ori = orient(e.ori, t.0, t.1, rate, dt);
        let up = c.climb.is_pressed();
        let down = c.climb_down.is_pressed();
        let v2 = if v1.z <= CLIMB_SPEED && f.on_wall.is_some() {
            climb_vertical(v1, climb_mode(up, down), dt)
        } else {
            v1
        };
        let character = match f.on_wall {
            None => {
                if c.jump.is_just_pressed() {
                    CharacterState { move_state: MoveState::Jump(JumpHandler), action_state: e.character.action_state }
                } else {
                    CharacterState { move_state: MoveState::Fall(FallHandler), action_state: e.character.action_state }
                }
            },
            Some(_) => {
                if f.on_ground {
                    CharacterState { move_state: MoveState::Stand(StandHandler), action_state: e.character.action_state }
                } else {
                    e.character
                }
            },
        };
        EntitySnapshot { pos: e.pos, vel: v2, ori, character }
    }
}

} // verus!
