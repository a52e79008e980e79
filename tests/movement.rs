use celeste_like::animation::AnimationKind;
use celeste_like::input::{Button, Controls, Gamepad, Keyboard};
use celeste_like::movement::{
    check_for_ground, jump, jump_buffer, jump_release, remove_buffer, rise, strafe,
    update_direction, Jump, JumpBuffer,
};
use celeste_like::player::{Direction, Player, PlayerEntity, PlayerState, Velocity};
use celeste_like::schedule::{update, Frame};

fn held() -> Button {
    Button { pressed: true, just_pressed: false, just_released: false }
}

fn pressed_now() -> Button {
    Button { pressed: true, just_pressed: true, just_released: false }
}

fn released_now() -> Button {
    Button { pressed: false, just_pressed: false, just_released: true }
}

fn entity() -> PlayerEntity {
    PlayerEntity::new(Player::default())
}

fn grounded_entity() -> PlayerEntity {
    let mut e = entity();
    e.player.grounded = true;
    e
}

fn keys(k: Keyboard) -> Controls {
    Controls { keyboard: k, gamepads: vec![] }
}

fn frame(dt: u64, controls: Controls, ground_hit: bool) -> Frame {
    Frame { dt, controls, ground_hit, cycle_ends: vec![] }
}

#[test]
fn player_defaults() {
    let p = Player::default();
    assert_eq!(p.speed, 20_000);
    assert!(!p.grounded);
    assert_eq!(p.jump_force, 20_000);
    assert_eq!(p.max_jump_height, 200);
    assert_eq!(p.dash_speed, 250);
    assert_eq!(p.dash_max_time, 200_000);
    assert_eq!(p.dash_reset_time, 1_000_000);
    let e = entity();
    assert_eq!(e.state, PlayerState::Idle);
    assert_eq!(e.facing, Direction::Right);
    assert_eq!(e.animation, AnimationKind::Idle);
    assert!(e.custom_gravity);
}

#[test]
fn ground_sensor_sets_grounded() {
    let mut e = entity();
    check_for_ground(&mut e, true);
    assert!(e.player.grounded);
    check_for_ground(&mut e, false);
    assert!(!e.player.grounded);
}

#[test]
fn grounded_without_input_becomes_idle() {
    let mut e = grounded_entity();
    e.state = PlayerState::Run;
    e.velocity = Velocity { x: 5, y: 7 };
    strafe(&mut e, &Controls::default(), 16_000);
    assert_eq!(e.state, PlayerState::Idle);
    assert_eq!(e.velocity, Velocity { x: 0, y: 7 });
}

#[test]
fn grounded_with_input_becomes_run() {
    let mut e = grounded_entity();
    let k = Keyboard { key_d: held(), ..Default::default() };
    strafe(&mut e, &keys(k), 16_000);
    assert_eq!(e.state, PlayerState::Run);
    // 0.016 s at 20000 units/s is 320 units.
    assert_eq!(e.velocity.x, 320_000_000_000);
    let k = Keyboard { arrow_left: held(), ..Default::default() };
    strafe(&mut e, &keys(k), 16_000);
    assert_eq!(e.velocity.x, -320_000_000_000);
}

#[test]
fn landing_is_not_overridden_by_movement() {
    let mut e = grounded_entity();
    e.state = PlayerState::Land;
    let k = Keyboard { key_d: held(), ..Default::default() };
    strafe(&mut e, &keys(k), 16_000);
    assert_eq!(e.state, PlayerState::Land);
    assert_eq!(e.velocity.x, 320_000_000_000);
    strafe(&mut e, &Controls::default(), 16_000);
    assert_eq!(e.state, PlayerState::Land);
}

#[test]
fn air_control_is_damped_and_clamped() {
    let mut e = entity();
    let k = Keyboard { key_d: held(), ..Default::default() };
    strafe(&mut e, &keys(k), 16_000);
    // 320 units divided by the air friction of 50.
    assert_eq!(e.velocity.x, 6_400_000_000);
    assert_eq!(e.state, PlayerState::Idle);
    e.velocity.x = 114_000_000_000;
    strafe(&mut e, &keys(k), 16_000);
    // 20000 / 175 units per second.
    assert_eq!(e.velocity.x, 114_285_714_285);
    e.velocity.x = -900_000_000_000;
    let k = Keyboard { key_a: held(), ..Default::default() };
    strafe(&mut e, &keys(k), 16_000);
    assert_eq!(e.velocity.x, -114_285_714_285);
    e.velocity.x = 42;
    strafe(&mut e, &Controls::default(), 16_000);
    assert_eq!(e.velocity.x, 42);
}

#[test]
fn keyboard_takes_priority_over_gamepads() {
    let mut e = grounded_entity();
    let pad = Gamepad { dpad_right: held(), left_stick_x: 1000, ..Default::default() };
    let k = Keyboard { key_d: held(), arrow_left: held(), ..Default::default() };
    strafe(&mut e, &Controls { keyboard: k, gamepads: vec![pad] }, 16_000);
    assert_eq!(e.velocity.x, 0);
    assert_eq!(e.state, PlayerState::Idle);
}

#[test]
fn gamepads_are_summed_outside_the_deadzone() {
    let mut e = grounded_entity();
    let weak = Gamepad { left_stick_x: 400, ..Default::default() };
    strafe(&mut e, &Controls { keyboard: Keyboard::default(), gamepads: vec![weak] }, 16_000);
    assert_eq!(e.velocity.x, 0);
    let strong = Gamepad { left_stick_x: 800, ..Default::default() };
    let dpad = Gamepad { dpad_right: held(), ..Default::default() };
    let controls = Controls { keyboard: Keyboard::default(), gamepads: vec![strong, dpad] };
    strafe(&mut e, &controls, 16_000);
    // 0.8 of 320 units from the stick plus 320 units from the d-pad.
    assert_eq!(e.velocity.x, 576_000_000_000);
    let left = Gamepad { left_stick_x: -1000, dpad_left: held(), ..Default::default() };
    let controls = Controls { keyboard: Keyboard::default(), gamepads: vec![left] };
    strafe(&mut e, &controls, 16_000);
    assert_eq!(e.velocity.x, -640_000_000_000);
}

#[test]
fn jump_from_the_ground_starts_an_arc() {
    let mut e = grounded_entity();
    let k = Keyboard { space: pressed_now(), ..Default::default() };
    jump(&mut e, &keys(k));
    assert_eq!(e.jump, Some(Jump { height: 0 }));
    assert_eq!(e.state, PlayerState::Jump);
    assert_eq!(e.jump_buffer, None);
}

#[test]
fn gamepad_jump_from_the_ground() {
    let mut e = grounded_entity();
    let pad = Gamepad { south: pressed_now(), ..Default::default() };
    jump(&mut e, &Controls { keyboard: Keyboard::default(), gamepads: vec![Gamepad::default(), pad] });
    assert_eq!(e.jump, Some(Jump { height: 0 }));
}

#[test]
fn held_jump_key_does_not_jump_again() {
    let mut e = grounded_entity();
    let k = Keyboard { space: held(), ..Default::default() };
    jump(&mut e, &keys(k));
    assert_eq!(e.jump, None);
    assert_eq!(e.state, PlayerState::Idle);
}

#[test]
fn jump_press_in_the_air_is_buffered() {
    let mut e = entity();
    let k = Keyboard { key_w: pressed_now(), ..Default::default() };
    jump(&mut e, &keys(k));
    assert_eq!(e.jump, None);
    assert_eq!(e.jump_buffer, Some(JumpBuffer { elapsed: 0 }));
}

#[test]
fn buffered_jump_fires_on_landing_within_the_window() {
    let mut e = entity();
    let press = Keyboard { space: pressed_now(), ..Default::default() };
    update(&mut e, &frame(16_000, keys(press), false));
    assert_eq!(e.jump_buffer, Some(JumpBuffer { elapsed: 16_000 }));
    assert_eq!(e.jump, None);
    let hold = Keyboard { space: held(), ..Default::default() };
    update(&mut e, &frame(5_000, keys(hold), true));
    // The buffer became one arc, which took its first rise of 100 units.
    assert_eq!(e.jump_buffer, None);
    assert_eq!(e.jump, Some(Jump { height: 100_000_000_000 }));
    assert_eq!(e.state, PlayerState::Jump);
    // The buffer is consumed: the next tick only continues the same arc.
    update(&mut e, &frame(5_000, keys(hold), true));
    assert_eq!(e.jump, None);
    assert_eq!(e.velocity.y, 100_000_000_000);
}

#[test]
fn quick_tap_in_the_air_still_jumps_on_landing() {
    let mut e = entity();
    let press = Keyboard { space: pressed_now(), ..Default::default() };
    update(&mut e, &frame(16_000, keys(press), false));
    let release = Keyboard { space: released_now(), ..Default::default() };
    update(&mut e, &frame(16_000, keys(release), false));
    assert_eq!(e.jump_buffer, Some(JumpBuffer { elapsed: 32_000 }));
    update(&mut e, &frame(5_000, Controls::default(), true));
    assert_eq!(e.jump, Some(Jump { height: 100_000_000_000 }));
    assert_eq!(e.jump_buffer, None);
}

#[test]
fn buffered_jump_expires_without_a_jump() {
    let mut e = entity();
    let press = Keyboard { space: pressed_now(), ..Default::default() };
    update(&mut e, &frame(16_000, keys(press), false));
    let hold = Keyboard { space: held(), ..Default::default() };
    for _ in 0..5 {
        update(&mut e, &frame(16_000, keys(hold), false));
    }
    assert_eq!(e.jump_buffer, Some(JumpBuffer { elapsed: 96_000 }));
    update(&mut e, &frame(16_000, keys(hold), false));
    assert_eq!(e.jump_buffer, None);
    update(&mut e, &frame(16_000, keys(hold), true));
    assert_eq!(e.jump, None);
    assert_ne!(e.state, PlayerState::Jump);
}

#[test]
fn buffer_boundary_is_inclusive() {
    let mut e = entity();
    e.jump_buffer = Some(JumpBuffer { elapsed: 84_000 });
    remove_buffer(&mut e, 16_000);
    assert_eq!(e.jump_buffer, Some(JumpBuffer { elapsed: 100_000 }));
    remove_buffer(&mut e, 1);
    assert_eq!(e.jump_buffer, None);
}

#[test]
fn buffered_jump_ends_a_dash() {
    let mut e = grounded_entity();
    e.jump_buffer = Some(JumpBuffer { elapsed: 0 });
    e.dash = Some(celeste_like::dash::Dash::new(celeste_like::dash::DashDirection::South));
    jump_buffer(&mut e);
    assert_eq!(e.dash, None);
    assert_eq!(e.jump, Some(Jump { height: 0 }));
}

#[test]
fn releasing_jump_in_the_air_cuts_the_arc() {
    let mut e = entity();
    e.jump = Some(Jump { height: 50 });
    e.jump_buffer = Some(JumpBuffer { elapsed: 10 });
    let k = Keyboard { arrow_up: released_now(), ..Default::default() };
    jump_release(&mut e, &keys(k));
    assert_eq!(e.jump, None);
    assert_eq!(e.jump_buffer, Some(JumpBuffer { elapsed: 10 }));

    let mut e = entity();
    e.jump = Some(Jump { height: 50 });
    let pad = Gamepad { south: released_now(), ..Default::default() };
    jump_release(&mut e, &Controls { keyboard: Keyboard::default(), gamepads: vec![pad] });
    assert_eq!(e.jump, None);

    let mut e = grounded_entity();
    e.jump = Some(Jump { height: 50 });
    jump_release(&mut e, &keys(k));
    assert_eq!(e.jump, Some(Jump { height: 50 }));

    let mut e = entity();
    e.jump = Some(Jump { height: 50 });
    jump_release(&mut e, &keys(Keyboard { space: held(), ..Default::default() }));
    assert_eq!(e.jump, Some(Jump { height: 50 }));
}

#[test]
fn jump_rise_is_clamped_to_the_full_height() {
    let mut e = grounded_entity();
    e.jump = Some(Jump { height: 0 });
    rise(&mut e, 5_000);
    assert_eq!(e.jump, Some(Jump { height: 100_000_000_000 }));
    assert_eq!(e.velocity.y, 100_000_000_000);
    rise(&mut e, 3_000);
    assert_eq!(e.jump, Some(Jump { height: 160_000_000_000 }));
    assert_eq!(e.velocity.y, 60_000_000_000);
    // 60 more units would pass 200: the rise is cut to 40 and the arc ends.
    rise(&mut e, 3_000);
    assert_eq!(e.jump, None);
    assert_eq!(e.velocity.y, 40_000_000_000);
    rise(&mut e, 3_000);
    assert_eq!(e.velocity.y, 40_000_000_000);
}

#[test]
fn long_tick_reaches_the_full_height_at_once() {
    let mut e = grounded_entity();
    e.jump = Some(Jump { height: 0 });
    rise(&mut e, 16_000);
    assert_eq!(e.jump, None);
    assert_eq!(e.velocity.y, 200_000_000_000);
}

#[test]
fn facing_follows_horizontal_velocity() {
    let mut e = entity();
    e.velocity.x = -3;
    update_direction(&mut e);
    assert_eq!(e.facing, Direction::Left);
    e.velocity.x = 0;
    update_direction(&mut e);
    assert_eq!(e.facing, Direction::Left);
    e.velocity.x = 9;
    update_direction(&mut e);
    assert_eq!(e.facing, Direction::Right);
    e.dash = Some(celeste_like::dash::Dash::new(celeste_like::dash::DashDirection::West));
    e.velocity.x = -9;
    update_direction(&mut e);
    assert_eq!(e.facing, Direction::Right);
}
