//! The action state machine, orthogonal to the movement mode.
use vstd::prelude::*;
use crate::state::{ActionState, ControlCommand};

verus! {

/// Length of an attack, in milliseconds.
pub const ATTACK_DURATION: u64 = 500;

/// Next action state. Blocking has priority over everything: while the
/// block button is down the entity blocks. Otherwise a block ends, an idle
/// entity starts an attack on a fresh attack press, and an attack counts
/// down by `dt` and ends once its remaining time is at most `dt`.
pub open spec fn action_spec(a: ActionState, c: ControlCommand, dt: int) -> ActionState {
    if c.block.pressed() {
        ActionState::Block
    } else {
        match a {
            ActionState::Block => ActionState::Idle,
            ActionState::Idle => if c.attack.just_pressed() {
                ActionState::Attack(ATTACK_DURATION)
            } else {
                ActionState::Idle
            },
            ActionState::Attack(r) => if r <= dt {
                ActionState::Idle
            } else {
                ActionState::Attack((r - dt) as u64)
            },
        }
    }
}

pub fn action_step(a: ActionState, c: &ControlCommand, dt: u64) -> (r: ActionState)
    ensures
        r == action_spec(a, *c, dt as int),
{
    if c.block.is_pressed() {
        ActionState::Block
    } else {
        match a {
            ActionState::Block => ActionState::Idle,
            ActionState::Idle => {
                if c.attack.is_just_pressed() {
                    ActionState::Attack(ATTACK_DURATION)
                } else {
                    ActionState::Idle
                }
            },
            ActionState::Attack(r) => {
                if r <= dt {
                    ActionState::Idle
                } else {
                    ActionState::Attack(r - dt)
                }
            },
        }
    }
}

} // verus!
