//! Properties that hold across ticks and across handlers.
use vstd::prelude::*;
use vstd::arithmetic::div_mod::{lemma_fundamental_div_mod, lemma_mod_pos_bound};
use crate::action::action_spec;
use crate::climb::{climb_spec, CLIMB_SPEED};
use crate::fixed::{abs, unit_spec, Vec3, VEL_BOUND};
use crate::movement::{dist_sq, dt_ok, MAX_DT, orient_spec, ALIGN_EPS_SQ, TARGET_EPS_SQ};
use crate::physics::{friction_spec, friction_step};
use crate::state::{
    ActionState, ButtonState, ControlCommand, EntitySnapshot, MoveState, PhysicsFacts,
    StandHandler,
};
use crate::handlers::movement_spec;
use crate::tick::{facts_of, tick_entity_spec, TickInput};

verus! {

/// An input that leaves a standing entity alone on flat ground: no
/// movement direction, no fresh jump press, ground contact and no wall.
/// Other buttons may be in any state. A fresh jump press is left out because
/// it takes the entity out of standing and gives it an upward speed.
pub open spec fn leaves_at_rest(i: TickInput) -> bool {
    &&& i.control.move_x == 0
    &&& i.control.move_y == 0
    &&& !i.control.jump.just_pressed()
    &&& facts_of(i) == (PhysicsFacts { on_ground: true, on_wall: None })
}

/// `e` after `n` ticks of `i` at a fixed `dt`.
pub open spec fn ticks(e: EntitySnapshot, i: TickInput, dt: int, n: nat) -> EntitySnapshot
    decreases n,
{
    if n == 0 {
        e
    } else {
        tick_entity_spec(ticks(e, i, dt, (n - 1) as nat), i, dt)
    }
}

/// An action state after `n` action steps at a fixed `dt`.
pub open spec fn action_ticks(a: ActionState, c: ControlCommand, dt: int, n: nat) -> ActionState
    decreases n,
{
    if n == 0 {
        a
    } else {
        action_spec(action_ticks(a, c, dt, (n - 1) as nat), c, dt)
    }
}

/// The sum of the magnitudes of a velocity's components.
pub open spec fn speed_sum(v: Vec3) -> int {
    abs(v.x as int) + abs(v.y as int) + abs(v.z as int)
}

pub open spec fn is_standing(e: EntitySnapshot) -> bool {
    e.character.move_state == MoveState::Stand(StandHandler)
}

proof fn lemma_friction_shrinks(v: int, dt: int)
    ensures
        abs(friction_spec(v, dt)) <= abs(v),
        v != 0 ==> abs(friction_spec(v, dt)) < abs(v),
{
    assert(friction_step(abs(v), dt) >= 1);
}

/// Whether `n` lies between zero and `v`, inclusive: a component that
/// moved toward zero without crossing it.
pub open spec fn toward_zero(v: int, n: int) -> bool {
    if v >= 0 {
        0 <= n <= v
    } else {
        v <= n <= 0
    }
}

/// One tick of a standing entity left alone on flat ground: it stays
/// standing, every velocity component moves toward zero without changing
/// sign, and the sum of the speed components drops by at least one unit
/// unless it is zero already.
pub proof fn lemma_rest_tick(e: EntitySnapshot, i: TickInput, dt: u64)
    requires
        e.wf(),
        is_standing(e),
        dt_ok(dt),
        leaves_at_rest(i),
    ensures
        ({
            let n = tick_entity_spec(e, i, dt as int);
            &&& n.vel.within(VEL_BOUND as int)
            &&& is_standing(n)
            &&& toward_zero(e.vel.x as int, n.vel.x as int)
            &&& toward_zero(e.vel.y as int, n.vel.y as int)
            &&& toward_zero(e.vel.z as int, n.vel.z as int)
            &&& speed_sum(n.vel) <= speed_sum(e.vel)
            &&& speed_sum(e.vel) > 0 ==> speed_sum(n.vel) < speed_sum(e.vel)
        }),
{
    lemma_rest_step(e, i, dt as int);
}

proof fn lemma_rest_step(e: EntitySnapshot, i: TickInput, dt: int)
    requires
        e.vel.within(VEL_BOUND as int),
        is_standing(e),
        1 <= dt <= MAX_DT,
        leaves_at_rest(i),
    ensures
        ({
            let n = tick_entity_spec(e, i, dt);
            &&& n.vel.within(VEL_BOUND as int)
            &&& is_standing(n)
            &&& toward_zero(e.vel.x as int, n.vel.x as int)
            &&& toward_zero(e.vel.y as int, n.vel.y as int)
            &&& toward_zero(e.vel.z as int, n.vel.z as int)
            &&& speed_sum(n.vel) <= speed_sum(e.vel)
            &&& speed_sum(e.vel) > 0 ==> speed_sum(n.vel) < speed_sum(e.vel)
        }),
{
    let v = e.vel;
    assert(dt * 0 * 50_000int == 0);
    lemma_friction_shrinks(v.x as int, dt);
    lemma_friction_shrinks(v.y as int, dt);
    assert((dt * 39_240) / 1000 >= 39) by (nonlinear_arith)
        requires dt >= 1;
}

/// A standing entity left alone on flat ground comes to rest: after as many
/// ticks as the sum of its speed components, and any number more, its
/// velocity is zero. That sum is at most three times `VEL_BOUND`.
pub proof fn lemma_standing_entity_comes_to_rest(e: EntitySnapshot, i: TickInput, dt: u64, n: nat)
    requires
        e.wf(),
        is_standing(e),
        dt_ok(dt),
        leaves_at_rest(i),
        n >= speed_sum(e.vel),
    ensures
        ticks(e, i, dt as int, n).vel == (Vec3 { x: 0, y: 0, z: 0 }),
        speed_sum(e.vel) <= 3 * VEL_BOUND,
{
    lemma_rest_progress(e, i, dt as int, n);
}

proof fn lemma_rest_progress(e: EntitySnapshot, i: TickInput, dt: int, k: nat)
    requires
        e.vel.within(VEL_BOUND as int),
        is_standing(e),
        1 <= dt <= MAX_DT,
        leaves_at_rest(i),
    ensures
        ({
            let m = ticks(e, i, dt, k);
            &&& m.vel.within(VEL_BOUND as int)
            &&& is_standing(m)
            &&& speed_sum(m.vel) <= if speed_sum(e.vel) >= k { speed_sum(e.vel) - k } else { 0 }
        }),
    decreases k,
{
    if k > 0 {
        lemma_rest_progress(e, i, dt, (k - 1) as nat);
        lemma_rest_step(ticks(e, i, dt, (k - 1) as nat), i, dt);
    }
}

/// Within a whole tick the action state follows the action machine alone:
/// no movement handler and no physics step changes it.
pub proof fn lemma_tick_advances_action(e: EntitySnapshot, i: TickInput, dt: int)
    ensures
        tick_entity_spec(e, i, dt).character.action_state == action_spec(
            e.character.action_state,
            i.control,
            dt,
        ),
{
}

/// Over any number of whole ticks with the same input, the action state is
/// the action machine run that many times: timers are neither cut short nor
/// restarted by mode changes.
pub proof fn lemma_ticks_follow_action_machine(e: EntitySnapshot, i: TickInput, dt: int, n: nat)
    ensures
        ticks(e, i, dt, n).character.action_state == action_ticks(
            e.character.action_state,
            i.control,
            dt,
            n,
        ),
    decreases n,
{
    if n > 0 {
        lemma_ticks_follow_action_machine(e, i, dt, (n - 1) as nat);
        lemma_tick_advances_action(ticks(e, i, dt, (n - 1) as nat), i, dt);
    }
}

/// An attack of remaining time `t` at a fixed tick length `dt`, with the
/// block button up, is still an attack after every number of ticks below
/// `ceil(t / dt)` and is over after exactly that many.
pub proof fn lemma_attack_lasts_ceil_ticks(t: u64, c: ControlCommand, dt: u64)
    requires
        t > 0,
        dt > 0,
        !c.block.pressed(),
    ensures
        ({
            let n = ((t + dt - 1) / (dt as int)) as nat;
            &&& forall|k: nat| k < n ==> #[trigger] action_ticks(ActionState::Attack(t), c, dt as int, k) is Attack
            &&& action_ticks(ActionState::Attack(t), c, dt as int, n) == ActionState::Idle
        }),
{
    let d = dt as int;
    let x = t + d - 1;
    let n = x / d;
    lemma_fundamental_div_mod(x, d);
    lemma_mod_pos_bound(x, d);
    assert(n * d >= t);
    assert((n - 1) * d < t) by (nonlinear_arith)
        requires x == d * n + x % d, x % d >= 0, x == t + d - 1;
    assert(n >= 1) by (nonlinear_arith)
        requires n * d >= t, t > 0, d > 0;
    assert forall|k: nat| k < n implies #[trigger] action_ticks(ActionState::Attack(t), c, d, k) is Attack by {
        assert(k * d <= (n - 1) * d) by (nonlinear_arith)
            requires k <= n - 1, d > 0;
        lemma_attack_countdown(t, c, d, k);
    }
    lemma_attack_countdown(t, c, d, (n - 1) as nat);
    assert(t - (n - 1) * d <= d) by (nonlinear_arith)
        requires n * d >= t;
}

/// The same over whole ticks: an entity attacking with remaining time `t`,
/// given the same input each tick with the block button up, is still
/// attacking after every number of ticks below `ceil(t / dt)`, whatever its
/// movement mode does, and is idle after exactly that many.
pub proof fn lemma_attack_lasts_ceil_whole_ticks(e: EntitySnapshot, t: u64, i: TickInput, dt: u64)
    requires
        e.character.action_state == ActionState::Attack(t),
        t > 0,
        dt > 0,
        !i.control.block.pressed(),
    ensures
        ({
            let n = ((t + dt - 1) / (dt as int)) as nat;
            &&& forall|k: nat| k < n ==> #[trigger] ticks(e, i, dt as int, k).character.action_state is Attack
            &&& ticks(e, i, dt as int, n).character.action_state == ActionState::Idle
        }),
{
    lemma_attack_lasts_ceil_ticks(t, i.control, dt);
    let n = ((t + dt - 1) / (dt as int)) as nat;
    assert forall|k: nat| k < n implies #[trigger] ticks(e, i, dt as int, k).character.action_state is Attack by {
        lemma_ticks_follow_action_machine(e, i, dt as int, k);
        assert(action_ticks(ActionState::Attack(t), i.control, dt as int, k) is Attack);
    }
    lemma_ticks_follow_action_machine(e, i, dt as int, n);
}

proof fn lemma_attack_countdown(t: u64, c: ControlCommand, dt: int, k: nat)
    requires
        dt > 0,
        k * dt < t,
        !c.block.pressed(),
    ensures
        action_ticks(ActionState::Attack(t), c, dt, k) == ActionState::Attack((t - k * dt) as u64),
    decreases k,
{
    if k > 0 {
        let j = (k - 1) as nat;
        assert(j * dt + dt == k * dt) by (nonlinear_arith)
            requires j == k - 1;
        assert(j * dt < k * dt) by (nonlinear_arith)
            requires dt > 0, j == k - 1;
        lemma_attack_countdown(t, c, dt, j);
        let r = (t - j * dt) as u64;
        assert(r > dt);
        assert(action_ticks(ActionState::Attack(t), c, dt, k) == action_spec(ActionState::Attack(r), c, dt));
    } else {
        assert(k * dt == 0) by (nonlinear_arith)
            requires k == 0;
    }
}

/// Climbing up with the down button released at a wall never lifts the
/// vertical speed past `CLIMB_SPEED` and never lowers it.
pub proof fn lemma_climb_up_is_capped(e: EntitySnapshot, c: ControlCommand, f: PhysicsFacts, dt: u64)
    requires
        e.wf(),
        c.wf(),
        dt_ok(dt),
        c.climb.pressed(),
        !c.climb_down.pressed(),
        f.on_wall is Some,
        e.vel.z <= CLIMB_SPEED,
    ensures
        e.vel.z <= climb_spec(e, c, f, dt as int).vel.z <= CLIMB_SPEED,
        e.vel.z < CLIMB_SPEED ==> e.vel.z < climb_spec(e, c, f, dt as int).vel.z,
{
    assert((dt * 49_050) / 1000 >= 49) by (nonlinear_arith)
        requires dt >= 1;
}

/// Turning toward a target leaves the orientation as it is when the target
/// is near zero or already aligned with it.
pub proof fn lemma_orient_noop(ori: Vec3, tx: int, ty: int, rate: int, dt: int)
    requires
        tx * tx + ty * ty <= TARGET_EPS_SQ || dist_sq(
            unit_spec(ori.x as int, ori.y as int, ori.z as int),
            unit_spec(tx, ty, 0),
        ) <= ALIGN_EPS_SQ,
    ensures
        orient_spec(ori, tx, ty, rate, dt) == ori,
{
}

/// The action phase does not undo the movement phase: the mode after a
/// whole tick is the mode the movement handler chose.
pub proof fn lemma_actions_keep_move_state(e: EntitySnapshot, i: TickInput, dt: int)
    ensures
        tick_entity_spec(e, i, dt).character.move_state == movement_spec(
            e,
            i.control,
            facts_of(i),
            dt,
        ).character.move_state,
{
}

/// A tick is a function of its inputs: the same entity, input and tick
/// length give the same snapshot.
pub proof fn lemma_tick_is_deterministic(e1: EntitySnapshot, e2: EntitySnapshot, i1: TickInput, i2: TickInput, dt: int)
    requires
        e1 == e2,
        i1 == i2,
    ensures
        tick_entity_spec(e1, i1, dt) == tick_entity_spec(e2, i2, dt),
{
}

} // verus!
