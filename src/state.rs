//! The data that one tick reads and writes: buttons, control commands,
//! contact facts, the two orthogonal state machines and the entity snapshot.
use vstd::prelude::*;
use crate::fixed::{abs, Vec3, DIR_BOUND, POS_BOUND, VEL_BOUND};

verus! {

/// An edge-triggerable button: held and "just pressed" are told apart.
#[derive(Debug, PartialEq, Eq, Structural, Clone, Copy)]
pub enum ButtonState {
    Released,
    JustPressed,
    Held,
}

impl ButtonState {
    pub open spec fn pressed(self) -> bool {
        self != ButtonState::Released
    }

    pub open spec fn just_pressed(self) -> bool {
        self == ButtonState::JustPressed
    }

    /// The state of a button from its level on the previous tick and now.
    pub fn from_levels(was_down: bool, is_down: bool) -> (r: ButtonState)
        ensures
            !is_down ==> r == ButtonState::Released,
            is_down && !was_down ==> r == ButtonState::JustPressed,
            is_down && was_down ==> r == ButtonState::Held,
    {
        if !is_down {
            ButtonState::Released
        } else if was_down {
            ButtonState::Held
        } else {
            ButtonState::JustPressed
        }
    }

    pub fn is_pressed(&self) -> (r: bool)
        ensures
            r == self.pressed(),
    {
        match self {
            ButtonState::Released => false,
            _ => true,
        }
    }

    pub fn is_just_pressed(&self) -> (r: bool)
        ensures
            r == self.just_pressed(),
    {
        match self {
            ButtonState::JustPressed => true,
            _ => false,
        }
    }
}

/// The per-tick input of one entity. The movement direction is in
/// thousandths of a unit and need not be normalised.
#[derive(Debug, PartialEq, Eq, Structural, Clone, Copy)]
pub struct ControlCommand {
    pub move_x: i64,
    pub move_y: i64,
    pub jump: ButtonState,
    pub climb: ButtonState,
    pub climb_down: ButtonState,
    pub attack: ButtonState,
    pub block: ButtonState,
}

impl ControlCommand {
    pub open spec fn wf(self) -> bool {
        abs(self.move_x as int) <= DIR_BOUND && abs(self.move_y as int) <= DIR_BOUND
    }

    /// No movement and no button down.
    pub fn idle() -> (r: ControlCommand)
        ensures
            r == (ControlCommand {
                move_x: 0,
                move_y: 0,
                jump: ButtonState::Released,
                climb: ButtonState::Released,
                climb_down: ButtonState::Released,
                attack: ButtonState::Released,
                block: ButtonState::Released,
            }),
    {
        ControlCommand {
            move_x: 0,
            move_y: 0,
            jump: ButtonState::Released,
            climb: ButtonState::Released,
            climb_down: ButtonState::Released,
            attack: ButtonState::Released,
            block: ButtonState::Released,
        }
    }
}

/// A horizontal direction, in thousandths of a unit.
#[derive(Debug, PartialEq, Eq, Structural, Clone, Copy)]
pub struct Dir2 {
    pub x: i64,
    pub y: i64,
}

/// Contact facts of one entity, from the previous tick's collision pass.
#[derive(Debug, PartialEq, Eq, Structural, Clone, Copy)]
pub struct PhysicsFacts {
    pub on_ground: bool,
    pub on_wall: Option<Dir2>,
}

impl PhysicsFacts {
    pub open spec fn wf(self) -> bool {
        match self.on_wall {
            Some(w) => abs(w.x as int) <= DIR_BOUND && abs(w.y as int) <= DIR_BOUND,
            None => true,
        }
    }

    /// No contact at all: what an entity without facts is treated as.
    pub fn airborne() -> (r: PhysicsFacts)
        ensures
            r == (PhysicsFacts { on_ground: false, on_wall: None }),
    {
        PhysicsFacts { on_ground: false, on_wall: None }
    }
}

#[derive(Debug, PartialEq, Eq, Structural, Clone, Copy, Hash)]
pub struct StandHandler;

#[derive(Debug, PartialEq, Eq, Structural, Clone, Copy, Hash)]
pub struct FallHandler;

#[derive(Debug, PartialEq, Eq, Structural, Clone, Copy, Hash)]
pub struct JumpHandler;

#[derive(Debug, PartialEq, Eq, Structural, Clone, Copy, Hash)]
pub struct ClimbHandler;

/// The locomotion mode.
#[derive(Debug, PartialEq, Eq, Structural, Clone, Copy)]
pub enum MoveState {
    Stand(StandHandler),
    Fall(FallHandler),
    Jump(JumpHandler),
    Climb(ClimbHandler),
}

/// The non-locomotion activity; an attack carries its remaining time in
/// milliseconds.
#[derive(Debug, PartialEq, Eq, Structural, Clone, Copy)]
pub enum ActionState {
    Idle,
    Attack(u64),
    Block,
}

#[derive(Debug, PartialEq, Eq, Structural, Clone, Copy)]
pub struct CharacterState {
    pub move_state: MoveState,
    pub action_state: ActionState,
}

impl CharacterState {
    /// The state of a freshly spawned entity.
    pub fn spawn() -> (r: CharacterState)
        ensures
            r == (CharacterState {
                move_state: MoveState::Stand(StandHandler),
                action_state: ActionState::Idle,
            }),
    {
        CharacterState { move_state: MoveState::Stand(StandHandler), action_state: ActionState::Idle }
    }
}

/// One entity: position in millimetres, velocity in millimetres per second,
/// orientation in thousandths of a unit, and its character state.
#[derive(Debug, PartialEq, Eq, Structural, Clone, Copy)]
pub struct EntitySnapshot {
    pub pos: Vec3,
    pub vel: Vec3,
    pub ori: Vec3,
    pub character: CharacterState,
}

impl EntitySnapshot {
    pub open spec fn wf(self) -> bool {
        self.pos.within(POS_BOUND as int) && self.vel.within(VEL_BOUND as int) && self.ori.within(
            DIR_BOUND as int,
        )
    }

    /// Whether every component is within its bound.
    pub fn is_valid(&self) -> (r: bool)
        ensures
            r == self.wf(),
    {
        let p = self.pos;
        let v = self.vel;
        let o = self.ori;
        -POS_BOUND <= p.x && p.x <= POS_BOUND && -POS_BOUND <= p.y && p.y <= POS_BOUND
            && -POS_BOUND <= p.z && p.z <= POS_BOUND && -VEL_BOUND <= v.x && v.x <= VEL_BOUND
            && -VEL_BOUND <= v.y && v.y <= VEL_BOUND && -VEL_BOUND <= v.z && v.z <= VEL_BOUND
            && -DIR_BOUND <= o.x && o.x <= DIR_BOUND && -DIR_BOUND <= o.y && o.y <= DIR_BOUND
            && -DIR_BOUND <= o.z && o.z <= DIR_BOUND
    }

    /// A standing, idle entity at rest at `pos`, facing along +y.
    pub fn spawn(pos: Vec3) -> (r: EntitySnapshot)
        ensures
            r == (EntitySnapshot {
                pos,
                vel: Vec3 { x: 0, y: 0, z: 0 },
                ori: Vec3 { x: 0, y: 1000, z: 0 },
                character: CharacterState {
                    move_state: MoveState::Stand(StandHandler),
                    action_state: ActionState::Idle,
                },
            }),
    {
        EntitySnapshot {
            pos,
            vel: Vec3 { x: 0, y: 0, z: 0 },
            ori: Vec3 { x: 0, y: 1000, z: 0 },
            character: CharacterState::spawn(),
        }
    }
}

} // verus!
