use charsim::action::{action_step, ATTACK_DURATION};
use charsim::climb::{climb_mode, climb_vertical, ClimbMode, CLIMB_SPEED};
use charsim::fixed::{isqrt, tdiv_exec, unit, Vec3};
use charsim::handlers::{movement_step, JUMP_SPEED};
use charsim::movement::orient;
use charsim::physics::integrate;
use charsim::settings::SettingsTab;
use charsim::state::{
    ActionState, ButtonState, CharacterState, ClimbHandler, ControlCommand, Dir2, EntitySnapshot,
    FallHandler, JumpHandler, MoveState, PhysicsFacts, StandHandler,
};
use charsim::tick::{run_tick, TickError, TickInput};

fn climber(vel: Vec3) -> EntitySnapshot {
    EntitySnapshot {
        pos: Vec3::zero(),
        vel,
        ori: Vec3::new(0, 1000, 0),
        character: CharacterState {
            move_state: MoveState::Climb(ClimbHandler),
            action_state: ActionState::Idle,
        },
    }
}

fn wall_north() -> PhysicsFacts {
    PhysicsFacts { on_ground: false, on_wall: Some(Dir2 { x: 0, y: 1000 }) }
}

#[test]
fn settings_tab_keys() {
    assert_eq!(SettingsTab::Interface.name_key(), "common.interface");
    assert_eq!(SettingsTab::Lang.name_key(), "common.languages");
    assert_eq!(SettingsTab::Video.title_key(), "common.video_settings");
    assert_eq!(SettingsTab::Lang.title_key(), "common.language_settings");
    let all = SettingsTab::all();
    assert_eq!(all.len(), 6);
    assert_eq!(all[0], SettingsTab::Interface);
    assert_eq!(all[5], SettingsTab::Lang);
}

#[test]
fn buttons_tell_press_from_hold() {
    assert_eq!(ButtonState::from_levels(false, true), ButtonState::JustPressed);
    assert_eq!(ButtonState::from_levels(true, true), ButtonState::Held);
    assert_eq!(ButtonState::from_levels(true, false), ButtonState::Released);
    assert!(ButtonState::Held.is_pressed());
    assert!(!ButtonState::Held.is_just_pressed());
    assert!(ButtonState::JustPressed.is_just_pressed());
}

#[test]
fn fixed_point_helpers() {
    assert_eq!(isqrt(5_000_000), 2236);
    assert_eq!(isqrt(0), 0);
    assert_eq!(isqrt(1_000_000), 1000);
    assert_eq!(tdiv_exec(-7, 2), -3);
    assert_eq!(unit(3000, 4000, 0), (600, 800, 0));
    assert_eq!(unit(0, 0, 0), (0, 0, 0));
}

#[test]
fn climb_without_wall_and_fresh_jump_jumps() {
    let mut c = ControlCommand::idle();
    c.jump = ButtonState::JustPressed;
    let f = PhysicsFacts { on_ground: false, on_wall: None };
    let r = ClimbHandler.handle(&climber(Vec3::zero()), &c, &f, 100);
    assert_eq!(r.character.move_state, MoveState::Jump(JumpHandler));
    assert_eq!(r.character.action_state, ActionState::Idle);
}

#[test]
fn climb_without_wall_and_no_jump_falls() {
    let f = PhysicsFacts { on_ground: false, on_wall: None };
    let r = ClimbHandler.handle(&climber(Vec3::zero()), &ControlCommand::idle(), &f, 100);
    assert_eq!(r.character.move_state, MoveState::Fall(FallHandler));
    let mut c = ControlCommand::idle();
    c.jump = ButtonState::Held;
    let r = ClimbHandler.handle(&climber(Vec3::zero()), &c, &f, 100);
    assert_eq!(r.character.move_state, MoveState::Fall(FallHandler));
}

#[test]
fn climb_losing_wall_on_ground_falls_first() {
    let f = PhysicsFacts { on_ground: true, on_wall: None };
    let r = ClimbHandler.handle(&climber(Vec3::zero()), &ControlCommand::idle(), &f, 100);
    assert_eq!(r.character.move_state, MoveState::Fall(FallHandler));
    let f = PhysicsFacts { on_ground: true, on_wall: Some(Dir2 { x: 0, y: 1000 }) };
    let r = ClimbHandler.handle(&climber(Vec3::zero()), &ControlCommand::idle(), &f, 100);
    assert_eq!(r.character.move_state, MoveState::Stand(StandHandler));
}

#[test]
fn climb_down_drag_slows_descent() {
    let mut c = ControlCommand::idle();
    c.climb_down = ButtonState::Held;
    let r = ClimbHandler.handle(&climber(Vec3::new(0, 0, -5000)), &c, &wall_north(), 100);
    // drag = 6 * 100 * 5000 * isqrt(5_000_000) / 10^6 = 6708
    assert_eq!(r.vel.z, 1708);
    assert!(r.vel.z.abs() < 5000);
    assert_eq!(r.character.move_state, MoveState::Climb(ClimbHandler));
}

#[test]
fn climb_up_approaches_cap() {
    let mut c = ControlCommand::idle();
    c.climb = ButtonState::Held;
    let r1 = ClimbHandler.handle(&climber(Vec3::zero()), &c, &wall_north(), 100);
    assert_eq!(r1.vel.z, 4905);
    let r2 = ClimbHandler.handle(&r1, &c, &wall_north(), 100);
    assert_eq!(r2.vel.z, CLIMB_SPEED);
    let r3 = ClimbHandler.handle(&r2, &c, &wall_north(), 100);
    assert_eq!(r3.vel.z, CLIMB_SPEED);
}

#[test]
fn climb_modes_from_buttons() {
    assert_eq!(climb_mode(true, false), ClimbMode::Up);
    assert_eq!(climb_mode(false, true), ClimbMode::Down);
    assert_eq!(climb_mode(true, true), ClimbMode::Slide);
    assert_eq!(climb_mode(false, false), ClimbMode::Slide);
}

#[test]
fn slide_decelerates_softly() {
    let r = climb_vertical(Vec3::new(0, 0, -10_000), ClimbMode::Slide, 10);
    // z1 = -10000 + 588; factor = 300000 / (1000 + 5 * 9412) = 6
    assert_eq!(r.z, -9356);
    let r = climb_vertical(Vec3::new(2000, 0, -1000), ClimbMode::Slide, 100);
    assert_eq!(r, Vec3::new(0, 0, 0));
}

#[test]
fn orientation_unchanged_for_tiny_or_aligned_target() {
    let ori = Vec3::new(0, 1000, 0);
    assert_eq!(orient(ori, 10, 0, 9, 100), ori);
    assert_eq!(orient(ori, 0, 0, 9, 100), ori);
    assert_eq!(orient(ori, 0, 5000, 9, 100), ori);
    assert_eq!(orient(ori, 10, 1000, 9, 100), ori);
}

#[test]
fn orientation_turns_toward_target() {
    let ori = Vec3::new(0, 1000, 0);
    // blends (900, 100, 0) and (200, 800, 0), scaled back to unit length
    assert_eq!(orient(ori, 1000, 0, 9, 100), Vec3::new(994, 110, 0));
    assert_eq!(orient(ori, 1000, 0, 2, 100), Vec3::new(242, 970, 0));
    assert_eq!(orient(ori, 1000, 0, 9, 1000), Vec3::new(1000, 0, 0));
}

#[test]
fn attack_lasts_ceil_ticks() {
    let c = ControlCommand::idle();
    let mut a = ActionState::Attack(250);
    let mut n = 0;
    while a != ActionState::Idle {
        a = action_step(a, &c, 100);
        n += 1;
    }
    assert_eq!(n, 3);
    let mut a = ActionState::Attack(200);
    a = action_step(a, &c, 100);
    assert_eq!(a, ActionState::Attack(100));
    a = action_step(a, &c, 100);
    assert_eq!(a, ActionState::Idle);
}

#[test]
fn attack_starts_on_press_and_block_interrupts() {
    let mut c = ControlCommand::idle();
    c.attack = ButtonState::JustPressed;
    assert_eq!(action_step(ActionState::Idle, &c, 100), ActionState::Attack(ATTACK_DURATION));
    c.attack = ButtonState::Held;
    assert_eq!(action_step(ActionState::Idle, &c, 100), ActionState::Idle);
    c.block = ButtonState::JustPressed;
    assert_eq!(action_step(ActionState::Attack(400), &c, 100), ActionState::Block);
    assert_eq!(action_step(ActionState::Block, &ControlCommand::idle(), 100), ActionState::Idle);
}

#[test]
fn jump_sets_upward_speed() {
    let mut e = EntitySnapshot::spawn(Vec3::zero());
    e.character.move_state = MoveState::Jump(JumpHandler);
    let f = PhysicsFacts { on_ground: true, on_wall: None };
    let r = movement_step(&e, &ControlCommand::idle(), &f, 100);
    assert_eq!(r.vel.z, JUMP_SPEED);
    assert_eq!(r.character.move_state, MoveState::Fall(FallHandler));
}

#[test]
fn stand_accelerates_and_jumps_on_press() {
    let e = EntitySnapshot::spawn(Vec3::zero());
    let f = PhysicsFacts { on_ground: true, on_wall: None };
    let mut c = ControlCommand::idle();
    c.move_x = 1000;
    let r = movement_step(&e, &c, &f, 100);
    assert_eq!(r.vel.x, 5000);
    c.jump = ButtonState::JustPressed;
    let r = movement_step(&e, &c, &f, 100);
    assert_eq!(r.character.move_state, MoveState::Jump(JumpHandler));
}

#[test]
fn airborne_physics_applies_gravity() {
    let e = EntitySnapshot::spawn(Vec3::zero());
    let r = integrate(&e, &PhysicsFacts::airborne(), 100);
    assert_eq!(r.vel.z, -3924);
    assert_eq!(r.pos.z, -392);
}

#[test]
fn ground_friction_stops_slow_entity() {
    let mut e = EntitySnapshot::spawn(Vec3::zero());
    e.vel = Vec3::new(1, -1, -50);
    let f = PhysicsFacts { on_ground: true, on_wall: None };
    let r = integrate(&e, &f, 10);
    assert_eq!(r.vel, Vec3::zero());
}

fn rest_input() -> TickInput {
    TickInput {
        control: ControlCommand::idle(),
        facts: Some(PhysicsFacts { on_ground: true, on_wall: None }),
    }
}

#[test]
fn standing_entity_comes_to_rest() {
    let mut e = EntitySnapshot::spawn(Vec3::zero());
    e.vel = Vec3::new(5000, -3000, 2000);
    let bound = 5000 + 3000 + 2000;
    let mut es = vec![e];
    let ins = vec![rest_input()];
    let mut n = 0;
    while es[0].vel != Vec3::zero() {
        es = run_tick(&es, &ins, 100).unwrap();
        n += 1;
        assert!(n <= bound);
    }
    assert_eq!(es[0].character.move_state, MoveState::Stand(StandHandler));
    es = run_tick(&es, &ins, 100).unwrap();
    assert_eq!(es[0].vel, Vec3::zero());
}

#[test]
fn tick_is_deterministic() {
    let mut e = climber(Vec3::new(300, -200, -4000));
    e.pos = Vec3::new(10, 20, 30);
    let mut c = ControlCommand::idle();
    c.climb_down = ButtonState::Held;
    c.move_x = 700;
    let ins = vec![TickInput { control: c, facts: Some(wall_north()) }];
    let a = run_tick(&vec![e], &ins, 33).unwrap();
    let b = run_tick(&vec![e], &ins, 33).unwrap();
    assert_eq!(a, b);
}

#[test]
fn tick_errors() {
    let e = EntitySnapshot::spawn(Vec3::zero());
    let ins = vec![rest_input()];
    assert_eq!(run_tick(&vec![e], &ins, 0), Err(TickError::InvalidDt));
    assert_eq!(run_tick(&vec![e], &ins, 3_600_001), Err(TickError::InvalidDt));
    assert!(run_tick(&vec![e], &ins, 3_600_000).is_ok());
    assert_eq!(run_tick(&vec![e, e], &ins, 100), Err(TickError::LengthMismatch));
    let mut bad = e;
    bad.vel.x = 2_000_000;
    let ins2 = vec![rest_input(), rest_input()];
    assert_eq!(run_tick(&vec![e, bad], &ins2, 100), Err(TickError::CorruptEntity(1)));
    assert_eq!(run_tick(&vec![], &vec![], 100), Ok(vec![]));
}

#[test]
fn missing_facts_mean_airborne() {
    let e = EntitySnapshot::spawn(Vec3::zero());
    let ins = vec![TickInput { control: ControlCommand::idle(), facts: None }];
    let r = run_tick(&vec![e], &ins, 100).unwrap();
    assert_eq!(r[0].character.move_state, MoveState::Fall(FallHandler));
    assert_eq!(r[0].vel.z, -3924);
}

#[test]
fn full_tick_on_wall_descends_slower() {
    let mut c = ControlCommand::idle();
    c.climb_down = ButtonState::JustPressed;
    let ins = vec![TickInput { control: c, facts: Some(wall_north()) }];
    let r = run_tick(&vec![climber(Vec3::new(0, 0, -5000))], &ins, 100).unwrap();
    assert_eq!(r[0].vel.z, 1708 - 3924);
    assert!(r[0].vel.z.abs() < 5000);
}

#[test]
fn climber_turns_toward_wall() {
    let mut e = climber(Vec3::zero());
    e.ori = Vec3::new(1000, 0, 0);
    let r = ClimbHandler.handle(&e, &ControlCommand::idle(), &wall_north(), 100);
    // airborne turn rate: 2 per second over 100 ms, blend (800, 200, 0)
    assert_eq!(r.ori, Vec3::new(970, 242, 0));
}

#[test]
fn tiny_wall_direction_falls_back_to_velocity() {
    let mut e = climber(Vec3::new(2000, 0, 0));
    e.ori = Vec3::new(0, 1000, 0);
    let f = PhysicsFacts { on_ground: false, on_wall: Some(Dir2 { x: 0, y: 10 }) };
    let r = ClimbHandler.handle(&e, &ControlCommand::idle(), &f, 100);
    assert_eq!(r.ori, Vec3::new(242, 970, 0));
}

#[test]
fn climb_horizontal_movement_is_capped() {
    let mut c = ControlCommand::idle();
    c.climb = ButtonState::Held;
    c.move_x = 1000;
    let f = wall_north();
    let r = ClimbHandler.handle(&climber(Vec3::zero()), &c, &f, 100);
    assert_eq!(r.vel.x, 500);
    let r = ClimbHandler.handle(&climber(Vec3::new(20_000, 0, 0)), &c, &f, 100);
    assert_eq!(r.vel.x, 20_000);
}

#[test]
fn stand_and_fall_start_climbing_at_wall() {
    let e = EntitySnapshot::spawn(Vec3::zero());
    let mut c = ControlCommand::idle();
    c.climb = ButtonState::Held;
    let f = PhysicsFacts { on_ground: true, on_wall: Some(Dir2 { x: 0, y: 1000 }) };
    let r = movement_step(&e, &c, &f, 100);
    assert_eq!(r.character.move_state, MoveState::Climb(ClimbHandler));
    let mut falling = e;
    falling.character.move_state = MoveState::Fall(FallHandler);
    let r = movement_step(&falling, &c, &wall_north(), 100);
    assert_eq!(r.character.move_state, MoveState::Climb(ClimbHandler));
    let r = movement_step(&falling, &ControlCommand::idle(), &PhysicsFacts { on_ground: true, on_wall: None }, 100);
    assert_eq!(r.character.move_state, MoveState::Stand(StandHandler));
}

#[test]
fn climb_down_drag_slows_slow_descent() {
    let mut c = ControlCommand::idle();
    c.climb_down = ButtonState::Held;
    let r = ClimbHandler.handle(&climber(Vec3::new(0, 0, -40)), &c, &wall_north(), 16);
    // 6 * 16 * 40 * isqrt(40_000) / 10^6 = 0.768, rounded up to one unit
    assert_eq!(r.vel.z, -39);
    let r = ClimbHandler.handle(&climber(Vec3::new(30, 0, -2000)), &c, &wall_north(), 10);
    // 6 * 10 * 2000 * isqrt(2_000_000) / 10^6 = 169.7, rounded up
    assert_eq!(r.vel.z, -1830);
    assert_eq!(r.vel.x, 29);
}

#[test]
fn climb_with_no_button_slides() {
    let r = ClimbHandler.handle(&climber(Vec3::zero()), &ControlCommand::idle(), &wall_north(), 10);
    // z1 = 0 + 588; factor = 300_000 / 1000 = 300 thousandths
    assert_eq!(r.vel.z, 412);
    let r = ClimbHandler.handle(&climber(Vec3::new(0, 0, -10_000)), &ControlCommand::idle(), &wall_north(), 10);
    assert_eq!(r.vel.z, -9356);
}

#[test]
fn climb_keeps_attack_timer() {
    let mut e = climber(Vec3::zero());
    e.character.action_state = ActionState::Attack(500);
    let f = PhysicsFacts { on_ground: false, on_wall: None };
    let r = ClimbHandler.handle(&e, &ControlCommand::idle(), &f, 100);
    assert_eq!(r.character.move_state, MoveState::Fall(FallHandler));
    assert_eq!(r.character.action_state, ActionState::Attack(500));
    let ins = vec![TickInput { control: ControlCommand::idle(), facts: None }];
    let out = run_tick(&vec![e], &ins, 100).unwrap();
    assert_eq!(out[0].character.action_state, ActionState::Attack(400));
}

#[test]
fn standing_entity_with_buttons_held_comes_to_rest() {
    let mut e = EntitySnapshot::spawn(Vec3::zero());
    e.vel = Vec3::new(-700, 400, 0);
    let mut c = ControlCommand::idle();
    c.jump = ButtonState::Held;
    c.climb = ButtonState::Held;
    let ins = vec![TickInput { control: c, facts: Some(PhysicsFacts { on_ground: true, on_wall: None }) }];
    let mut es = vec![e];
    for _ in 0..1100 {
        let prev = es[0].vel;
        es = run_tick(&es, &ins, 50).unwrap();
        let v = es[0].vel;
        assert!(v.x.abs() <= prev.x.abs() && v.x * prev.x >= 0);
        assert!(v.y.abs() <= prev.y.abs() && v.y * prev.y >= 0);
    }
    assert_eq!(es[0].vel, Vec3::zero());
    assert_eq!(es[0].character.move_state, MoveState::Stand(StandHandler));
}

#[test]
fn climb_down_drag_reverses_when_larger_than_speed() {
    let mut c = ControlCommand::idle();
    c.climb_down = ButtonState::Held;
    // 6 * 1000 * 5000 * isqrt(5_000_000) / 10^6 = 67_080
    let r = ClimbHandler.handle(&climber(Vec3::new(0, 0, -5000)), &c, &wall_north(), 1000);
    assert_eq!(r.vel.z, 62_080);
}
