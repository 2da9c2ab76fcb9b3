//! The standing, falling and jumping handlers, and the dispatch of one
//! movement step on the entity's mode.
use vstd::prelude::*;
use crate::climb::climb_spec;
use crate::fixed::Vec3;
use crate::movement::{
    accelerate, accelerate_spec, dt_ok, orient, orient_spec, AIR_TURN_RATE, GROUND_TURN_RATE,
    HUMANOID_ACCEL, HUMANOID_AIR_ACCEL, HUMANOID_AIR_SPEED, HUMANOID_SPEED,
};
use crate::state::{
    CharacterState, ClimbHandler, ControlCommand, EntitySnapshot, FallHandler, JumpHandler,
    MoveState, PhysicsFacts, StandHandler,
};

verus! {

/// Upward speed given by a jump, in millimetres per second.
pub const JUMP_SPEED: i64 = 16_000;

pub open spec fn with_move(ch: CharacterState, m: MoveState) -> CharacterState {
    CharacterState { move_state: m, action_state: ch.action_state }
}

/// Next mode from standing: leaving the ground falls, a fresh jump press
/// jumps, a climbing button at a wall climbs.
pub open spec fn stand_transition(c: ControlCommand, f: PhysicsFacts) -> MoveState {
    if !f.on_ground {
        MoveState::Fall(FallHandler)
    } else if c.jump.just_pressed() {
        MoveState::Jump(JumpHandler)
    } else if c.climb.pressed() && f.on_wall is Some {
        MoveState::Climb(ClimbHandler)
    } else {
        MoveState::Stand(StandHandler)
    }
}

/// Next mode from falling: the ground stands, a climbing button at a wall
/// climbs.
pub open spec fn fall_transition(c: ControlCommand, f: PhysicsFacts) -> MoveState {
    if f.on_ground {
        MoveState::Stand(StandHandler)
    } else if c.climb.pressed() && f.on_wall is Some {
        MoveState::Climb(ClimbHandler)
    } else {
        MoveState::Fall(FallHandler)
    }
}

pub open spec fn stand_spec(e: EntitySnapshot, c: ControlCommand, f: PhysicsFacts, dt: int) -> EntitySnapshot {
    let v = accelerate_spec(e.vel, c.move_x as int, c.move_y as int, dt, HUMANOID_ACCEL as int, HUMANOID_SPEED as int);
    EntitySnapshot {
        pos: e.pos,
        vel: v,
        ori: orient_spec(e.ori, v.x as int, v.y as int, GROUND_TURN_RATE as int, dt),
        character: with_move(e.character, stand_transition(c, f)),
    }
}

pub open spec fn fall_spec(e: EntitySnapshot, c: ControlCommand, f: PhysicsFacts, dt: int) -> EntitySnapshot {
    let v = accelerate_spec(e.vel, c.move_x as int, c.move_y as int, dt, HUMANOID_AIR_ACCEL as int, HUMANOID_AIR_SPEED as int);
    EntitySnapshot {
        pos: e.pos,
        vel: v,
        ori: orient_spec(e.ori, v.x as int, v.y as int, AIR_TURN_RATE as int, dt),
        character: with_move(e.character, fall_transition(c, f)),
    }
}

/// A jump sets the upward speed and goes on falling.
pub open spec fn jump_spec(e: EntitySnapshot) -> EntitySnapshot {
    EntitySnapshot {
        vel: Vec3 { x: e.vel.x, y: e.vel.y, z: JUMP_SPEED },
        character: with_move(e.character, MoveState::Fall(FallHandler)),
        ..e
    }
}

/// One movement step of an entity, by its mode.
pub open spec fn movement_spec(e: EntitySnapshot, c: ControlCommand, f: PhysicsFacts, dt: int) -> EntitySnapshot {
    match e.character.move_state {
        MoveState::Stand(_) => stand_spec(e, c, f, dt),
        MoveState::Fall(_) => fall_spec(e, c, f, dt),
        MoveState::Jump(_) => jump_spec(e),
        MoveState::Climb(_) => climb_spec(e, c, f, dt),
    }
}

impl StandHandler {
    pub fn handle(&self, e: &EntitySnapshot, c: &ControlCommand, f: &PhysicsFacts, dt: u64) -> (r: EntitySnapshot)
        requires
            e.wf(),
            c.wf(),
            f.wf(),
            dt_ok(dt),
        ensures
            r == stand_spec(*e, *c, *f, dt as int),
            r.wf(),
    {
        let v = accelerate(e.vel, c.move_x, c.move_y, dt, HUMANOID_ACCEL, HUMANOID_SPEED);
        let ori = orient(e.ori, v.x, v.y, GROUND_TURN_RATE, dt);
        let m = if !f.on_ground {
            MoveState::Fall(FallHandler)
        } else if c.jump.is_just_pressed() {
            MoveState::Jump(JumpHandler)
        } else if c.climb.is_pressed() && f.on_wall.is_some() {
            MoveState::Climb(ClimbHandler)
        } else {
            MoveState::Stand(StandHandler)
        };
        EntitySnapshot {
            pos: e.pos,
            vel: v,
            ori,
            character: CharacterState { move_state: m, action_state: e.character.action_state },
        }
    }
}

impl FallHandler {
    pub fn handle(&self, e: &EntitySnapshot, c: &ControlCommand, f: &PhysicsFacts, dt: u64) -> (r: EntitySnapshot)
        requires
            e.wf(),
            c.wf(),
            f.wf(),
            dt_ok(dt),
        ensures
            r == fall_spec(*e, *c, *f, dt as int),
            r.wf(),
    {
        let v = accelerate(e.vel, c.move_x, c.move_y, dt, HUMANOID_AIR_ACCEL, HUMANOID_AIR_SPEED);
        let ori = orient(e.ori, v.x, v.y, AIR_TURN_RATE, dt);
        let m = if f.on_ground {
            MoveState::Stand(StandHandler)
        } else if c.climb.is_pressed() && f.on_wall.is_some() {
            MoveState::Climb(ClimbHandler)
        } else {
            MoveState::Fall(FallHandler)
        };
        EntitySnapshot {
            pos: e.pos,
            vel: v,
            ori,
            character: CharacterState { move_state: m, action_state: e.character.action_state },
        }
    }
}

impl JumpHandler {
    pub fn handle(&self, e: &EntitySnapshot) -> (r: EntitySnapshot)
        requires
            e.wf(),
        ensures
            r == jump_spec(*e),
            r.wf(),
    {
        EntitySnapshot {
            pos: e.pos,
            vel: Vec3 { x: e.vel.x, y: e.vel.y, z: JUMP_SPEED },
            ori: e.ori,
            character: CharacterState {
                move_state: MoveState::Fall(FallHandler),
                action_state: e.character.action_state,
            },
        }
    }
}

/// Runs the handler of the entity's current mode.
pub fn movement_step(e: &EntitySnapshot, c: &ControlCommand, f: &PhysicsFacts, dt: u64) -> (r: EntitySnapshot)
    requires
        e.wf(),
        c.wf(),
        f.wf(),
        dt_ok(dt),
    ensures
        r == movement_spec(*e, *c, *f, dt as int),
        r.wf(),
{
    match e.character.move_state {
        MoveState::Stand(h) => h.handle(e, c, f, dt),
        MoveState::Fall(h) => h.handle(e, c, f, dt),
        MoveState::Jump(h) => h.handle(e),
        MoveState::Climb(h) => h.handle(e, c, f, dt),
    }
}

} // verus!
