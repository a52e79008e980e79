use vstd::prelude::*;

use crate::animation::{
    AnimationKind, animation_for, jump_to_air, jump_to_air_next, land, land_next, land_to_idle, land_to_idle_next,
    post_dash, post_dash_next, reset_dash_color, reset_dash_color_next, update_animation,
    update_animation_next, update_dash_color, update_dash_color_next,
};
use crate::dash::{
    DashTrail, dash, dash_cooldown, dash_cooldown_next, dash_next, dashing, dashing_next,
    fade_out_trails, faded_all, spawn_dash_trail, trail_of,
};
use crate::input::{
    Controls, dash_pressed_of, dash_vector_of, jump_pressed_of, jump_released_of, movement_of,
};
use crate::movement::{
    check_for_ground, ground_next, jump, jump_buffer, jump_buffer_next, jump_next, jump_release,
    jump_release_next, remove_buffer, remove_buffer_next, rise, rise_next, strafe, strafe_next,
    update_direction, update_direction_next,
};
use crate::player::{MAX_TICK_MICROS, PlayerEntity};

verus! {

/// What the world hands the controller for one tick.
#[derive(Clone, Debug, Default)]
pub struct Frame {
    /// Length of the tick, in microseconds.
    pub dt: u64,
    pub controls: Controls,
    /// Whether the downward ground probe hit something.
    pub ground_hit: bool,
    /// The animations whose cycle ended since the previous tick.
    pub cycle_ends: Vec<AnimationKind>,
}

impl Frame {
    /// The tick is no longer than `MAX_TICK_MICROS` and the sticks lie in range.
    pub open spec fn wf(&self) -> bool {
        &&& self.dt <= MAX_TICK_MICROS
        &&& self.controls.wf()
    }
}

/// The jump stage of a tick, in order: press, buffer ageing, buffered
/// jump, release, rise.
pub open spec fn jump_stage_next(e: PlayerEntity, c: Controls, dt: u64) -> PlayerEntity {
    let e1 = jump_next(e, jump_pressed_of(c));
    let e2 = jump_buffer_next(remove_buffer_next(e1, dt));
    rise_next(jump_release_next(e2, jump_released_of(c)), dt)
}

/// The dash stage of a tick, in order: trigger, dash, cooldown.
pub open spec fn dash_stage_next(e: PlayerEntity, c: Controls, dt: u64) -> PlayerEntity {
    dash_cooldown_next(dashing_next(dash_next(e, dash_pressed_of(c), dash_vector_of(c)), dt), dt)
}

/// The physics chain of one tick, in order: ground sensor, horizontal
/// movement, jump stage, dash stage, facing.
pub open spec fn update_next(e: PlayerEntity, f: Frame) -> PlayerEntity {
    let c = f.controls;
    let e1 = ground_next(e, f.ground_hit);
    let e2 = strafe_next(e1, movement_of(c, f.dt, e1.player.speed));
    let e3 = jump_stage_next(e2, c, f.dt);
    let e4 = dash_stage_next(e3, c, f.dt);
    update_direction_next(e4)
}

/// The state rules of one tick, in order: landing, jump end, land end,
/// dash end.
pub open spec fn state_rules_next(e: PlayerEntity, ended: Seq<AnimationKind>) -> PlayerEntity {
    post_dash_next(land_to_idle_next(jump_to_air_next(land_next(e), ended), ended), ended)
}

/// The animation chain of one tick, in order: the state rules, then the
/// binding of the animation to the resulting state, then the tint.
pub open spec fn post_update_next(e: PlayerEntity, ended: Seq<AnimationKind>) -> PlayerEntity {
    let e1 = update_animation_next(state_rules_next(e, ended));
    reset_dash_color_next(update_dash_color_next(e1))
}

/// The trails after a tick that ended with the player in state `e`: the new
/// one, if any, joins the others, then every trail fades.
pub open spec fn trails_next(trails: Seq<DashTrail>, e: PlayerEntity) -> Seq<DashTrail> {
    faded_all(
        match trail_of(e) {
            Some(t) => trails.push(t),
            None => trails,
        },
    )
}

/// The physics chain of one tick (see `update_next`).
pub fn update(e: &mut PlayerEntity, frame: &Frame)
    requires
        old(e).wf(),
        frame.wf(),
    ensures
        final(e).wf(),
        *final(e) == update_next(*old(e), *frame),
{
    check_for_ground(e, frame.ground_hit);
    strafe(e, &frame.controls, frame.dt);
    jump(e, &frame.controls);
    remove_buffer(e, frame.dt);
    jump_buffer(e);
    jump_release(e, &frame.controls);
    rise(e, frame.dt);
    dash(e, &frame.controls);
    dashing(e, frame.dt);
    dash_cooldown(e, frame.dt);
    update_direction(e);
}

/// The animation chain of one tick (see `post_update_next`).
pub fn post_update(e: &mut PlayerEntity, ended: &Vec<AnimationKind>)
    requires
        old(e).wf(),
    ensures
        final(e).wf(),
        *final(e) == post_update_next(*old(e), ended@),
        final(e).animation == animation_for(final(e).state),
{
    land(e);
    jump_to_air(e, ended);
    land_to_idle(e, ended);
    post_dash(e, ended);
    update_animation(e);
    update_dash_color(e);
    reset_dash_color(e);
}

/// One whole tick: the physics chain, the animation chain, then the trail
/// lifecycle.
pub fn tick(e: &mut PlayerEntity, trails: &mut Vec<DashTrail>, frame: &Frame)
    requires
        old(e).wf(),
        frame.wf(),
    ensures
        final(e).wf(),
        *final(e) == post_update_next(update_next(*old(e), *frame), frame.cycle_ends@),
        final(e).animation == animation_for(final(e).state),
        final(trails)@ == trails_next(old(trails)@, *final(e)),
{
    update(e, frame);
    post_update(e, &frame.cycle_ends);
    match spawn_dash_trail(e) {
        Some(t) => trails.push(t),
        None => {},
    }
    fade_out_trails(trails);
}

} // verus!
