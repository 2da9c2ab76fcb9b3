//! One simulation tick over all entities, in ordered phases: movement,
//! physics, then actions. Each phase reads the previous phase's snapshots
//! and writes a fresh vector of them.
use vstd::prelude::*;
use crate::action::{action_spec, action_step};
use crate::fixed::DIR_BOUND;
use crate::handlers::{movement_spec, movement_step};
use crate::movement::{dt_ok, MAX_DT};
use crate::physics::{integrate, integrate_spec};
use crate::state::{CharacterState, ControlCommand, EntitySnapshot, PhysicsFacts};

verus! {

/// What one entity gets in a tick: its control command and, if the
/// collision layer supplied them, its contact facts.
#[derive(Debug, PartialEq, Eq, Structural, Clone, Copy)]
pub struct TickInput {
    pub control: ControlCommand,
    pub facts: Option<PhysicsFacts>,
}

/// Why a whole tick failed; no entity is updated then.
#[derive(Debug, PartialEq, Eq, Structural, Clone, Copy)]
pub enum TickError {
    /// The tick length is zero or longer than `MAX_DT`.
    InvalidDt,
    /// There is not exactly one input per entity.
    LengthMismatch,
    /// The entity or input at this index is out of bounds; it is the first such.
    CorruptEntity(usize),
}

/// Facts to use: missing facts count as no contact at all.
pub open spec fn facts_of(i: TickInput) -> PhysicsFacts {
    match i.facts {
        Some(f) => f,
        None => PhysicsFacts { on_ground: false, on_wall: None },
    }
}

/// Whether an entity and its input can be simulated.
pub open spec fn entry_ok(e: EntitySnapshot, i: TickInput) -> bool {
    e.wf() && i.control.wf() && facts_of(i).wf()
}

/// The action phase on one entity.
pub open spec fn act_spec(e: EntitySnapshot, c: ControlCommand, dt: int) -> EntitySnapshot {
    EntitySnapshot {
        character: CharacterState {
            move_state: e.character.move_state,
            action_state: action_spec(e.character.action_state, c, dt),
        },
        ..e
    }
}

/// The whole tick of one entity: movement, physics, then actions.
pub open spec fn tick_entity_spec(e: EntitySnapshot, i: TickInput, dt: int) -> EntitySnapshot {
    let f = facts_of(i);
    let m = movement_spec(e, i.control, f, dt);
    let p = integrate_spec(m, f, dt);
    act_spec(p, i.control, dt)
}

pub fn facts_or_airborne(i: &TickInput) -> (r: PhysicsFacts)
    ensures
        r == facts_of(*i),
{
    match i.facts {
        Some(f) => f,
        None => PhysicsFacts::airborne(),
    }
}

/// Whether an entity and its input can be simulated.
pub fn entry_valid(e: &EntitySnapshot, i: &TickInput) -> (r: bool)
    ensures
        r == entry_ok(*e, *i),
{
    let f = facts_or_airborne(i);
    let wall_ok = match f.on_wall {
        Some(w) => -DIR_BOUND <= w.x && w.x <= DIR_BOUND
            && -DIR_BOUND <= w.y && w.y <= DIR_BOUND,
        None => true,
    };
    let c = i.control;
    e.is_valid() && -DIR_BOUND <= c.move_x && c.move_x <= DIR_BOUND
        && -DIR_BOUND <= c.move_y && c.move_y <= DIR_BOUND && wall_ok
}

fn movement_phase(es: &Vec<EntitySnapshot>, ins: &Vec<TickInput>, dt: u64) -> (r: Vec<EntitySnapshot>)
    requires
        dt_ok(dt),
        es.len() == ins.len(),
        forall|k: int| 0 <= k < es.len() ==> entry_ok(#[trigger] es@[k], ins@[k]),
    ensures
        r.len() == es.len(),
        forall|k: int| 0 <= k < es.len() ==> r@[k] == movement_spec(es@[k], ins@[k].control, facts_of(ins@[k]), dt as int),
        forall|k: int| 0 <= k < es.len() ==> (#[trigger] r@[k]).wf(),
{
    let mut r: Vec<EntitySnapshot> = Vec::new();
    let mut k: usize = 0;
    while k < es.len()
        invariant
            dt_ok(dt),
            es.len() == ins.len(),
            forall|j: int| 0 <= j < es.len() ==> entry_ok(#[trigger] es@[j], ins@[j]),
            k <= es.len(),
            r.len() == k,
            forall|j: int| 0 <= j < k ==> r@[j] == movement_spec(es@[j], ins@[j].control, facts_of(ins@[j]), dt as int),
            forall|j: int| 0 <= j < k ==> (#[trigger] r@[j]).wf(),
        decreases es.len() - k,
    {
        assert(entry_ok(es@[k as int], ins@[k as int]));
        let f = facts_or_airborne(&ins[k]);
        let m = movement_step(&es[k], &ins[k].control, &f, dt);
        r.push(m);
        k = k + 1;
    }
    r
}

fn physics_phase(ms: &Vec<EntitySnapshot>, ins: &Vec<TickInput>, dt: u64) -> (r: Vec<EntitySnapshot>)
    requires
        dt_ok(dt),
        ms.len() == ins.len(),
        forall|k: int| 0 <= k < ms.len() ==> (#[trigger] ms@[k]).wf(),
    ensures
        r.len() == ms.len(),
        forall|k: int| 0 <= k < ms.len() ==> r@[k] == integrate_spec(ms@[k], facts_of(ins@[k]), dt as int),
        forall|k: int| 0 <= k < ms.len() ==> (#[trigger] r@[k]).wf(),
{
    let mut r: Vec<EntitySnapshot> = Vec::new();
    let mut k: usize = 0;
    while k < ms.len()
        invariant
            dt_ok(dt),
            ms.len() == ins.len(),
            forall|j: int| 0 <= j < ms.len() ==> (#[trigger] ms@[j]).wf(),
            k <= ms.len(),
            r.len() == k,
            forall|j: int| 0 <= j < k ==> r@[j] == integrate_spec(ms@[j], facts_of(ins@[j]), dt as int),
            forall|j: int| 0 <= j < k ==> (#[trigger] r@[j]).wf(),
        decreases ms.len() - k,
    {
        assert(ms@[k as int].wf());
        let f = facts_or_airborne(&ins[k]);
        let p = integrate(&ms[k], &f, dt);
        r.push(p);
        k = k + 1;
    }
    r
}

fn action_phase(ps: &Vec<EntitySnapshot>, ins: &Vec<TickInput>, dt: u64) -> (r: Vec<EntitySnapshot>)
    requires
        ps.len() == ins.len(),
    ensures
        r.len() == ps.len(),
        forall|k: int| 0 <= k < ps.len() ==> r@[k] == act_spec(ps@[k], ins@[k].control, dt as int),
{
    let mut r: Vec<EntitySnapshot> = Vec::new();
    let mut k: usize = 0;
    while k < ps.len()
        invariant
            ps.len() == ins.len(),
            k <= ps.len(),
            r.len() == k,
            forall|j: int| 0 <= j < k ==> r@[j] == act_spec(ps@[j], ins@[j].control, dt as int),
        decreases ps.len() - k,
    {
        let e = ps[k];
        let a = action_step(e.character.action_state, &ins[k].control, dt);
        r.push(EntitySnapshot {
            pos: e.pos,
            vel: e.vel,
            ori: e.ori,
            character: CharacterState { move_state: e.character.move_state, action_state: a },
        });
        k = k + 1;
    }
    r
}

/// Runs one tick over all entities. On success the `k`-th output is the
/// `k`-th entity advanced by its own input; on failure nothing is advanced.
pub fn run_tick(es: &Vec<EntitySnapshot>, ins: &Vec<TickInput>, dt: u64) -> (r: Result<Vec<EntitySnapshot>, TickError>)
    ensures
        !dt_ok(dt) ==> r == Err::<Vec<EntitySnapshot>, TickError>(TickError::InvalidDt),
        dt_ok(dt) && es.len() != ins.len() ==> r == Err::<Vec<EntitySnapshot>, TickError>(TickError::LengthMismatch),
        dt_ok(dt) && es.len() == ins.len() ==> (r is Ok <==> forall|k: int|
            0 <= k < es.len() ==> #[trigger] entry_ok(es@[k], ins@[k])),
        dt_ok(dt) && es.len() == ins.len() ==> (r is Ok || r matches Err(TickError::CorruptEntity(_))),
        r matches Err(TickError::CorruptEntity(i)) ==> i < es.len() && i < ins.len() && !entry_ok(es@[i as int], ins@[i as int])
            && forall|k: int| 0 <= k < i ==> #[trigger] entry_ok(es@[k], ins@[k]),
        r matches Ok(out) ==> out.len() == es.len() && forall|k: int|
            0 <= k < es.len() ==> #[trigger] out@[k] == tick_entity_spec(es@[k], ins@[k], dt as int),
        r matches Ok(out) ==> forall|k: int| 0 <= k < out.len() ==> (#[trigger] out@[k]).wf(),
{
    if dt == 0 || dt > MAX_DT {
        return Err(TickError::InvalidDt);
    }
    if es.len() != ins.len() {
        return Err(TickError::LengthMismatch);
    }
    let mut k: usize = 0;
    while k < es.len()
        invariant
            dt_ok(dt),
            es.len() == ins.len(),
            k <= es.len(),
            forall|j: int| 0 <= j < k ==> #[trigger] entry_ok(es@[j], ins@[j]),
        decreases es.len() - k,
    {
        if !entry_valid(&es[k], &ins[k]) {
            return Err(TickError::CorruptEntity(k));
        }
        k = k + 1;
    }
    let ms = movement_phase(es, ins, dt);
    let ps = physics_phase(&ms, ins, dt);
    let out = action_phase(&ps, ins, dt);
    assert forall|k: int| 0 <= k < es.len() implies #[trigger] out@[k] == tick_entity_spec(es@[k], ins@[k], dt as int) by {
        assert(ms@[k] == movement_spec(es@[k], ins@[k].control, facts_of(ins@[k]), dt as int));
        assert(ps@[k] == integrate_spec(ms@[k], facts_of(ins@[k]), dt as int));
    }
    assert forall|k: int| 0 <= k < out.len() implies (#[trigger] out@[k]).wf() by {
        assert(ps@[k].wf());
    }
    Ok(out)
}

} // verus!
