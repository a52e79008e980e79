use celeste_like::dash::{
    dash, dash_cooldown, dashing, fade_out_trail, fade_out_trails, spawn_dash_trail, Dash,
    DashCooldown, DashDirection, DashTrail,
};
use celeste_like::input::{dash_vector, Button, Controls, Gamepad, Keyboard};
use celeste_like::movement::Jump;
use celeste_like::player::{Direction, Player, PlayerEntity, PlayerState, Velocity};
use celeste_like::schedule::{update, Frame};

fn held() -> Button {
    Button { pressed: true, just_pressed: false, just_released: false }
}

fn pressed_now() -> Button {
    Button { pressed: true, just_pressed: true, just_released: false }
}

fn entity() -> PlayerEntity {
    PlayerEntity::new(Player::default())
}

fn keys(k: Keyboard) -> Controls {
    Controls { keyboard: k, gamepads: vec![] }
}

#[test]
fn dash_direction_classification() {
    assert_eq!(DashDirection::from_vector(1, 1), Some(DashDirection::NorthEast));
    assert_eq!(DashDirection::from_vector(0, 0), None);
    assert_eq!(DashDirection::from_vector(3, 0), Some(DashDirection::East));
    assert_eq!(DashDirection::from_vector(-1, 0), Some(DashDirection::West));
    assert_eq!(DashDirection::from_vector(0, 2), Some(DashDirection::North));
    assert_eq!(DashDirection::from_vector(0, -1), Some(DashDirection::South));
    assert_eq!(DashDirection::from_vector(2, -1), Some(DashDirection::SouthEast));
    assert_eq!(DashDirection::from_vector(-1, 4), Some(DashDirection::NorthWest));
    assert_eq!(DashDirection::from_vector(-1, -1), Some(DashDirection::SouthWest));
}

#[test]
fn dash_direction_to_facing() {
    assert_eq!(DashDirection::NorthEast.get_direction(), Some(Direction::Right));
    assert_eq!(DashDirection::East.get_direction(), Some(Direction::Right));
    assert_eq!(DashDirection::SouthEast.get_direction(), Some(Direction::Right));
    assert_eq!(DashDirection::West.get_direction(), Some(Direction::Left));
    assert_eq!(DashDirection::NorthWest.get_direction(), Some(Direction::Left));
    assert_eq!(DashDirection::SouthWest.get_direction(), Some(Direction::Left));
    assert_eq!(DashDirection::North.get_direction(), None);
    assert_eq!(DashDirection::South.get_direction(), None);
}

#[test]
fn dash_north_east_faces_right() {
    let mut e = entity();
    e.facing = Direction::Left;
    e.jump = Some(Jump { height: 5 });
    let k = Keyboard { key_w: held(), key_d: held(), shift_left: pressed_now(), ..Default::default() };
    assert_eq!(dash_vector(&keys(k)), (1, 1));
    dash(&mut e, &keys(k));
    assert_eq!(e.facing, Direction::Right);
    assert_eq!(e.state, PlayerState::Dash);
    assert_eq!(e.dash, Some(Dash { elapsed: 0, direction: DashDirection::NorthEast }));
    assert_eq!(e.jump, None);
    assert!(!e.custom_gravity);
}

#[test]
fn dash_with_zero_vector_is_aborted() {
    let mut e = entity();
    let before = e;
    let k = Keyboard { enter: pressed_now(), ..Default::default() };
    dash(&mut e, &keys(k));
    assert_eq!(e, before);
    // Opposite keys cancel out too.
    let k = Keyboard { key_a: held(), key_d: held(), enter: pressed_now(), ..Default::default() };
    assert_eq!(dash_vector(&keys(k)), (0, 0));
    dash(&mut e, &keys(k));
    assert_eq!(e, before);
}

#[test]
fn vertical_dash_keeps_facing() {
    let mut e = entity();
    e.facing = Direction::Left;
    let k = Keyboard { arrow_down: held(), shift_left: pressed_now(), ..Default::default() };
    dash(&mut e, &keys(k));
    assert_eq!(e.facing, Direction::Left);
    assert_eq!(e.dash, Some(Dash::new(DashDirection::South)));
}

#[test]
fn dash_needs_a_fresh_press() {
    let mut e = entity();
    let k = Keyboard { key_d: held(), shift_left: held(), ..Default::default() };
    dash(&mut e, &keys(k));
    assert_eq!(e.dash, None);
}

#[test]
fn gamepad_dash_sums_every_source() {
    let mut e = entity();
    let pad = Gamepad {
        west: pressed_now(),
        left_stick_x: -700,
        left_stick_y: 300,
        dpad_up: held(),
        ..Default::default()
    };
    let controls = Controls { keyboard: Keyboard::default(), gamepads: vec![pad] };
    assert_eq!(dash_vector(&controls), (-1, 1));
    dash(&mut e, &controls);
    assert_eq!(e.dash, Some(Dash::new(DashDirection::NorthWest)));
    assert_eq!(e.facing, Direction::Left);
}

#[test]
fn dash_vector_counts_every_held_key() {
    let k = Keyboard {
        key_w: held(),
        arrow_up: held(),
        key_s: held(),
        arrow_right: held(),
        ..Default::default()
    };
    let pad = Gamepad { dpad_down: held(), left_stick_y: -900, ..Default::default() };
    assert_eq!(dash_vector(&Controls { keyboard: k, gamepads: vec![pad] }), (1, -1));
}

#[test]
fn dash_east_ends_into_cooldown() {
    let mut e = entity();
    e.custom_gravity = false;
    e.dash = Some(Dash::new(DashDirection::East));
    e.state = PlayerState::Dash;
    dashing(&mut e, 70_000);
    assert_eq!(e.velocity, Velocity { x: 250_000_000_000, y: 0 });
    assert_eq!(e.dash, Some(Dash { elapsed: 70_000, direction: DashDirection::East }));
    dashing(&mut e, 70_000);
    assert_eq!(e.dash, Some(Dash { elapsed: 140_000, direction: DashDirection::East }));
    assert_eq!(e.dash_cooldown, None);
    assert!(!e.custom_gravity);
    // This tick takes the dash past 0.2 s: it still drives, then ends.
    e.velocity = Velocity { x: 0, y: -5 };
    dashing(&mut e, 70_000);
    assert_eq!(e.dash, None);
    assert_eq!(e.dash_cooldown, Some(DashCooldown { elapsed: 0 }));
    assert!(e.custom_gravity);
    assert_eq!(e.velocity, Velocity { x: 250_000_000_000, y: 0 });
}

#[test]
fn dash_lasts_while_elapsed_is_at_most_the_duration() {
    let mut e = entity();
    e.dash = Some(Dash { elapsed: 190_000, direction: DashDirection::West });
    dashing(&mut e, 10_000);
    assert_eq!(e.dash, Some(Dash { elapsed: 200_000, direction: DashDirection::West }));
    assert_eq!(e.velocity, Velocity { x: -250_000_000_000, y: 0 });
    dashing(&mut e, 1);
    assert_eq!(e.dash, None);
    assert_eq!(e.dash_cooldown, Some(DashCooldown { elapsed: 0 }));
}

#[test]
fn diagonal_dash_is_normalised() {
    let mut e = entity();
    e.dash = Some(Dash::new(DashDirection::NorthEast));
    dashing(&mut e, 10_000);
    assert_eq!(e.velocity, Velocity { x: 176_776_695_250, y: 176_776_695_250 });
    e.dash = Some(Dash::new(DashDirection::SouthWest));
    dashing(&mut e, 10_000);
    assert_eq!(e.velocity, Velocity { x: -176_776_695_250, y: -176_776_695_250 });
}

#[test]
fn cooldown_blocks_dash_for_the_reset_time() {
    let mut e = entity();
    e.dash_cooldown = Some(DashCooldown { elapsed: 0 });
    let k = Keyboard { key_d: held(), shift_left: pressed_now(), ..Default::default() };
    for i in 1..=10u64 {
        let f = Frame { dt: 100_000, controls: keys(k), ground_hit: false, cycle_ends: vec![] };
        update(&mut e, &f);
        assert_eq!(e.dash, None);
        assert_eq!(e.dash_cooldown, Some(DashCooldown { elapsed: i * 100_000 }));
    }
    // 1.1 s: the press is still blocked, and the cooldown ends with this tick.
    let f = Frame { dt: 100_000, controls: keys(k), ground_hit: false, cycle_ends: vec![] };
    update(&mut e, &f);
    assert_eq!(e.dash, None);
    assert_eq!(e.dash_cooldown, None);
    let f = Frame { dt: 100_000, controls: keys(k), ground_hit: false, cycle_ends: vec![] };
    update(&mut e, &f);
    assert_eq!(e.dash, Some(Dash { elapsed: 100_000, direction: DashDirection::East }));
}

#[test]
fn cooldown_ages_and_ends() {
    let mut e = entity();
    e.dash_cooldown = Some(DashCooldown { elapsed: 999_999 });
    dash_cooldown(&mut e, 1);
    assert_eq!(e.dash_cooldown, Some(DashCooldown { elapsed: 1_000_000 }));
    dash_cooldown(&mut e, 1);
    assert_eq!(e.dash_cooldown, None);
}

#[test]
fn jump_cancels_a_dash() {
    let mut e = entity();
    e.player.grounded = true;
    e.dash = Some(Dash::new(DashDirection::East));
    let k = Keyboard { space: pressed_now(), ..Default::default() };
    celeste_like::movement::jump(&mut e, &keys(k));
    assert_eq!(e.dash, None);
    assert_eq!(e.jump, Some(Jump { height: 0 }));
    assert_eq!(e.state, PlayerState::Jump);
}

#[test]
fn trail_fades_out_after_twenty_five_ticks() {
    let mut t = DashTrail { alpha: 100, facing: Direction::Left };
    for _ in 0..24 {
        t = fade_out_trail(&t).unwrap();
    }
    assert_eq!(t, DashTrail { alpha: 4, facing: Direction::Left });
    assert_eq!(fade_out_trail(&t), None);
}

#[test]
fn trails_fade_together_and_vanish_in_place() {
    let mut trails = vec![
        DashTrail { alpha: 100, facing: Direction::Left },
        DashTrail { alpha: 4, facing: Direction::Right },
        DashTrail { alpha: 9, facing: Direction::Right },
        DashTrail { alpha: 3, facing: Direction::Left },
    ];
    fade_out_trails(&mut trails);
    assert_eq!(
        trails,
        vec![
            DashTrail { alpha: 96, facing: Direction::Left },
            DashTrail { alpha: 5, facing: Direction::Right },
        ]
    );
    let mut none: Vec<DashTrail> = vec![];
    fade_out_trails(&mut none);
    assert!(none.is_empty());
}

#[test]
fn trail_spawns_on_the_sampling_cadence() {
    let mut e = entity();
    e.facing = Direction::Left;
    assert_eq!(spawn_dash_trail(&e), None);
    e.dash = Some(Dash { elapsed: 0, direction: DashDirection::West });
    assert_eq!(spawn_dash_trail(&e), Some(DashTrail { alpha: 100, facing: Direction::Left }));
    e.dash = Some(Dash { elapsed: 10_000, direction: DashDirection::West });
    assert_eq!(spawn_dash_trail(&e), None);
    e.dash = Some(Dash { elapsed: 69_999, direction: DashDirection::West });
    assert_eq!(spawn_dash_trail(&e), None);
    e.dash = Some(Dash { elapsed: 70_000, direction: DashDirection::West });
    assert_eq!(spawn_dash_trail(&e), Some(DashTrail { alpha: 100, facing: Direction::Left }));
    e.dash = Some(Dash { elapsed: 149_999, direction: DashDirection::West });
    assert_eq!(spawn_dash_trail(&e), Some(DashTrail { alpha: 100, facing: Direction::Left }));
}
