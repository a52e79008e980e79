use vstd::prelude::*;

use crate::animation::{
    AnimationKind, animation_for, reset_dash_color_next, update_animation_next, update_dash_color_next,
};
use crate::dash::{
    ALPHA_DECREMENT, DashCooldown, DashTrail, classify, dash_cooldown_next, dash_next, dashing_next,
    faded, unit_of,
};
use crate::input::{Controls, dash_pressed_of, jump_pressed_of, jump_released_of, movement_of};
use crate::movement::{
    BUFFER_TIME, Jump, JumpBuffer, ground_next, jump_buffer_next, jump_next, jump_release_next,
    remove_buffer_next, rise_next, rise_step, strafe_next, update_direction_next,
};
use crate::player::{MAX_TICK_MICROS, PlayerEntity, PlayerState};
use crate::schedule::{
    Frame, dash_stage_next, jump_stage_next, post_update_next, state_rules_next, update_next,
};

verus! {

/// The player after one whole tick.
pub open spec fn tick_next(e: PlayerEntity, f: Frame) -> PlayerEntity {
    post_update_next(update_next(e, f), f.cycle_ends@)
}

/// The player after a run of ticks, one per frame, in order.
pub open spec fn run_ticks(e: PlayerEntity, frames: Seq<Frame>) -> PlayerEntity
    decreases frames.len(),
{
    if frames.len() == 0 {
        e
    } else {
        tick_next(run_ticks(e, frames.drop_last()), frames.last())
    }
}

/// Total duration of a run of frames, in microseconds.
pub open spec fn total_time(frames: Seq<Frame>) -> int
    decreases frames.len(),
{
    if frames.len() == 0 {
        0
    } else {
        total_time(frames.drop_last()) + frames.last().dt
    }
}

/// A trail after `n` ticks, or none once it has vanished.
pub open spec fn faded_times(t: DashTrail, n: nat) -> Option<DashTrail>
    decreases n,
{
    if n == 0 {
        Some(t)
    } else {
        match faded_times(t, (n - 1) as nat) {
            Some(u) => faded(u),
            None => None,
        }
    }
}

/// The states that only movement systems to come may enter.
pub open spec fn reserved(s: PlayerState) -> bool {
    s == PlayerState::Climb || s == PlayerState::Wall
}

/// On the ground and outside a dash and a landing, horizontal movement
/// makes the state Idle with no input and Run with some, and sets the
/// horizontal velocity to the input, whatever it was before.
pub proof fn lemma_grounded_idle_or_run(e: PlayerEntity, c: Controls, dt: u64)
    requires
        e.player.grounded,
        e.dash.is_none(),
        e.state != PlayerState::Land,
    ensures
        ({
            let m = movement_of(c, dt, e.player.speed);
            let r = strafe_next(e, m);
            &&& m == 0 ==> r.state == PlayerState::Idle && r.velocity.x == 0
            &&& m != 0 ==> r.state == PlayerState::Run
            &&& i128::MIN <= m <= i128::MAX ==> r.velocity.x == m
        }),
{
}

/// A jump press in the air, with no arc in progress, buffers the press and
/// starts no arc.
pub proof fn lemma_jump_press_in_air_buffers(e: PlayerEntity)
    requires
        !e.player.grounded,
        e.jump.is_none(),
    ensures
        jump_next(e, true).jump_buffer == Some(JumpBuffer { elapsed: 0 }),
        jump_next(e, true).jump.is_none(),
{
}

/// A buffered press that the tick takes past `BUFFER_TIME` is dropped and
/// attaches no jump arc.
pub proof fn lemma_buffer_expires(e: PlayerEntity, dt: u64)
    requires
        e.jump_buffer.is_some(),
        e.jump_buffer.unwrap().elapsed + dt > BUFFER_TIME,
    ensures
        remove_buffer_next(e, dt).jump_buffer.is_none(),
        jump_buffer_next(remove_buffer_next(e, dt)) == remove_buffer_next(e, dt),
        remove_buffer_next(e, dt) == (PlayerEntity { jump_buffer: None, ..e }),
{
}

/// On the ground, a buffered press at most `BUFFER_TIME` old becomes exactly
/// one fresh jump arc in the jump stage, whatever the input of the tick: the
/// buffer is consumed, any dash ends, the state becomes Jump and the new arc
/// takes its first rise.
pub proof fn lemma_buffered_jump_on_landing(e: PlayerEntity, c: Controls, dt: u64)
    requires
        e.player.grounded,
        e.jump_buffer.is_some(),
        e.jump_buffer.unwrap().elapsed + dt <= BUFFER_TIME,
    ensures
        jump_stage_next(e, c, dt) == rise_next(
            PlayerEntity {
                jump: Some(Jump { height: 0 }),
                jump_buffer: None,
                state: PlayerState::Jump,
                dash: None,
                ..e
            },
            dt,
        ),
{
}

/// With no jump press, a buffered press that the tick takes past
/// `BUFFER_TIME` ends the jump stage dropped, and no new jump arc starts.
pub proof fn lemma_buffered_jump_expires(e: PlayerEntity, c: Controls, dt: u64)
    requires
        e.jump_buffer.is_some(),
        e.jump_buffer.unwrap().elapsed + dt > BUFFER_TIME,
        !jump_pressed_of(c),
    ensures
        jump_stage_next(e, c, dt).jump_buffer.is_none(),
        jump_stage_next(e, c, dt).jump.is_some() ==> e.jump.is_some(),
{
}

/// In the air, with no new jump press, a buffered press ages by each tick as
/// long as it stays within `BUFFER_TIME`, whatever else is pressed or
/// released, and no jump arc starts.
pub proof fn lemma_buffer_ages_in_the_air(e: PlayerEntity, frames: Seq<Frame>)
    requires
        e.jump_buffer.is_some(),
        e.jump.is_none(),
        e.jump_buffer.unwrap().elapsed + total_time(frames) <= BUFFER_TIME,
        forall|i: int|
            0 <= i < frames.len() ==> !(#[trigger] frames[i]).ground_hit && !jump_pressed_of(
                frames[i].controls,
            ),
    ensures
        run_ticks(e, frames).jump_buffer == Some(
            JumpBuffer { elapsed: (e.jump_buffer.unwrap().elapsed + total_time(frames)) as u64 },
        ),
        run_ticks(e, frames).jump.is_none(),
    decreases frames.len(),
{
    if frames.len() > 0 {
        let rest = frames.drop_last();
        let f = frames.last();
        assert(f == frames[frames.len() - 1]);
        assert forall|i: int| 0 <= i < rest.len() implies !(#[trigger] rest[i]).ground_hit
            && !jump_pressed_of(rest[i].controls) by {
            assert(rest[i] == frames[i]);
        }
        lemma_total_time_nonnegative(rest);
        assert(total_time(frames) == total_time(rest) + f.dt);
        lemma_buffer_ages_in_the_air(e, rest);
        lemma_buffer_tick_in_the_air(run_ticks(e, rest), f);
    }
}

proof fn lemma_buffer_tick_in_the_air(e: PlayerEntity, f: Frame)
    requires
        e.jump_buffer.is_some(),
        e.jump.is_none(),
        e.jump_buffer.unwrap().elapsed + f.dt <= BUFFER_TIME,
        !f.ground_hit,
        !jump_pressed_of(f.controls),
    ensures
        tick_next(e, f).jump_buffer == Some(
            JumpBuffer { elapsed: (e.jump_buffer.unwrap().elapsed + f.dt) as u64 },
        ),
        tick_next(e, f).jump.is_none(),
{
    let c = f.controls;
    let e1 = ground_next(e, f.ground_hit);
    let e2 = strafe_next(e1, movement_of(c, f.dt, e1.player.speed));
    assert(e2.jump_buffer == e.jump_buffer && !e2.player.grounded && e2.jump.is_none());
    let e3 = jump_stage_next(e2, c, f.dt);
    assert(e3.jump_buffer == Some(
        JumpBuffer { elapsed: (e.jump_buffer.unwrap().elapsed + f.dt) as u64 },
    ) && e3.jump.is_none());
    let e4 = dash_stage_next(e3, c, f.dt);
    assert(e4.jump_buffer == e3.jump_buffer && e4.jump.is_none());
}

/// The rise of a jump arc is clamped: the arc ends exactly on the tick whose
/// rise would reach the full height, and that tick rises by the remainder
/// only; before that the height grows by the full rise and stays below the
/// full height.
pub proof fn lemma_rise_is_clamped(e: PlayerEntity, dt: u64)
    requires
        e.wf(),
        e.jump.is_some(),
    ensures
        ({
            let h = e.jump.unwrap().height;
            let c = rise_step(dt, e.player.jump_force);
            let r = rise_next(e, dt);
            &&& r.jump.is_none() <==> h + c >= e.player.max_height_nanos()
            &&& r.jump.is_none() ==> h + r.velocity.y == e.player.max_height_nanos()
            &&& r.jump matches Some(j) ==> j.height == h + c && j.height
                < e.player.max_height_nanos() && r.velocity.y == c
        }),
{
    assert(dt * e.player.jump_force >= 0) by (nonlinear_arith);
}

/// A zero dash vector aborts the dash: nothing changes, no marker is attached.
pub proof fn lemma_zero_dash_vector_aborts(e: PlayerEntity, pressed: bool)
    ensures
        dash_next(e, pressed, (0, 0)) == e,
{
    assert(classify(0, 0).is_none());
}

/// A dash drives the velocity at `dash_speed` along its direction on every
/// tick; the tick that takes its elapsed time past `dash_max_time` ends it,
/// attaches a fresh cooldown and restores the custom gravity.
pub proof fn lemma_dash_ends(e: PlayerEntity, dt: u64)
    requires
        e.dash.is_some(),
    ensures
        ({
            let d = e.dash.unwrap();
            let r = dashing_next(e, dt);
            &&& r.velocity.x == unit_of(d.direction).0 * e.player.dash_speed
            &&& r.velocity.y == unit_of(d.direction).1 * e.player.dash_speed
            &&& d.elapsed + dt > e.player.dash_max_time ==> r.dash.is_none() && r.dash_cooldown
                == Some(DashCooldown { elapsed: 0 }) && r.custom_gravity
            &&& d.elapsed + dt <= e.player.dash_max_time ==> r.dash == Some(
                crate::dash::Dash { elapsed: (d.elapsed + dt) as u64, direction: d.direction },
            )
        }),
{
    let d = e.dash.unwrap();
    let s = e.player.dash_speed as int;
    let (ux, uy) = unit_of(d.direction);
    assert(-1_000_000_000 <= ux <= 1_000_000_000 && -1_000_000_000 <= uy <= 1_000_000_000);
    assert(-1_000_000_000 * 18_446_744_073_709_551_615 <= ux * s <= 1_000_000_000
        * 18_446_744_073_709_551_615) by (nonlinear_arith)
        requires
            -1_000_000_000 <= ux <= 1_000_000_000,
            0 <= s <= 18_446_744_073_709_551_615,
    ;
    assert(-1_000_000_000 * 18_446_744_073_709_551_615 <= uy * s <= 1_000_000_000
        * 18_446_744_073_709_551_615) by (nonlinear_arith)
        requires
            -1_000_000_000 <= uy <= 1_000_000_000,
            0 <= s <= 18_446_744_073_709_551_615,
    ;
}

/// While the cooldown is on, a dash press changes nothing.
pub proof fn lemma_no_dash_during_cooldown(e: PlayerEntity, pressed: bool, v: (int, int))
    requires
        e.dash_cooldown.is_some(),
    ensures
        dash_next(e, pressed, v) == e,
{
}

/// A cooldown ends only on a tick that takes its elapsed time past
/// `dash_reset_time`; until then it ages by each tick.
pub proof fn lemma_cooldown_step(e: PlayerEntity, dt: u64)
    requires
        e.dash.is_none(),
        e.dash_cooldown.is_some(),
    ensures
        ({
            let c = e.dash_cooldown.unwrap().elapsed;
            let r = dash_cooldown_next(e, dt);
            &&& r.dash_cooldown.is_none() <==> c + dt > e.player.dash_reset_time
            &&& c + dt <= e.player.dash_reset_time ==> r.dash_cooldown == Some(
                DashCooldown { elapsed: (c + dt) as u64 },
            )
        }),
{
}

/// After a dash ends, however the player is steered, no new dash starts in
/// any run of ticks whose total length keeps the cooldown's elapsed time
/// within `dash_reset_time`: the cooldown is still on and has aged by
/// exactly that total.
pub proof fn lemma_no_dash_until_reset(e: PlayerEntity, frames: Seq<Frame>)
    requires
        e.dash.is_none(),
        e.dash_cooldown.is_some(),
        e.dash_cooldown.unwrap().elapsed + total_time(frames) <= e.player.dash_reset_time,
    ensures
        run_ticks(e, frames).dash.is_none(),
        run_ticks(e, frames).dash_cooldown == Some(
            DashCooldown { elapsed: (e.dash_cooldown.unwrap().elapsed + total_time(frames)) as u64 },
        ),
        run_ticks(e, frames).player.dash_reset_time == e.player.dash_reset_time,
    decreases frames.len(),
{
    if frames.len() > 0 {
        let rest = frames.drop_last();
        assert(total_time(frames) == total_time(rest) + frames.last().dt);
        lemma_no_dash_until_reset(e, rest);
        lemma_total_time_nonnegative(rest);
        let before = run_ticks(e, rest);
        assert(before.dash_cooldown.unwrap().elapsed == e.dash_cooldown.unwrap().elapsed
            + total_time(rest));
        lemma_cooldown_tick(before, frames.last());
    }
}

proof fn lemma_total_time_nonnegative(frames: Seq<Frame>)
    ensures
        total_time(frames) >= 0,
    decreases frames.len(),
{
    if frames.len() > 0 {
        lemma_total_time_nonnegative(frames.drop_last());
    }
}

proof fn lemma_cooldown_tick(e: PlayerEntity, f: Frame)
    requires
        e.dash.is_none(),
        e.dash_cooldown.is_some(),
        e.dash_cooldown.unwrap().elapsed + f.dt <= e.player.dash_reset_time,
    ensures
        tick_next(e, f).dash.is_none(),
        tick_next(e, f).dash_cooldown == Some(
            DashCooldown { elapsed: (e.dash_cooldown.unwrap().elapsed + f.dt) as u64 },
        ),
        tick_next(e, f).player.dash_reset_time == e.player.dash_reset_time,
{
    let c = f.controls;
    let e1 = ground_next(e, f.ground_hit);
    let e2 = strafe_next(e1, movement_of(c, f.dt, e1.player.speed));
    let e3 = jump_stage_next(e2, c, f.dt);
    assert(e3.dash.is_none() && e3.dash_cooldown == e.dash_cooldown);
    let e4 = dash_next(e3, crate::input::dash_pressed_of(c), crate::input::dash_vector_of(c));
    assert(e4 == e3);
    assert(dashing_next(e4, f.dt) == e4);
}

/// A whole tick keeps the controller's invariant: Jump and Dash never
/// coexist, nor Dash and its cooldown, the jump height stays within the
/// full arc and every timer within its range.
pub proof fn lemma_tick_keeps_invariant(e: PlayerEntity, f: Frame)
    requires
        e.wf(),
        f.wf(),
    ensures
        tick_next(e, f).wf(),
{
    lemma_update_keeps_invariant(e, f);
    lemma_post_update_keeps_invariant(update_next(e, f), f.cycle_ends@);
}

proof fn lemma_update_keeps_invariant(e: PlayerEntity, f: Frame)
    requires
        e.wf(),
        f.wf(),
    ensures
        update_next(e, f).wf(),
{
    let c = f.controls;
    let e1 = ground_next(e, f.ground_hit);
    assert(e1.wf());
    let e2 = strafe_next(e1, movement_of(c, f.dt, e1.player.speed));
    lemma_strafe_keeps_invariant(e1, movement_of(c, f.dt, e1.player.speed));
    lemma_jump_stage_keeps_invariant(e2, c, f.dt);
    let e3 = jump_stage_next(e2, c, f.dt);
    lemma_dash_stage_keeps_invariant(e3, c, f.dt);
    assert(update_direction_next(dash_stage_next(e3, c, f.dt)).wf());
}

proof fn lemma_strafe_keeps_invariant(e: PlayerEntity, m: int)
    requires
        e.wf(),
    ensures
        strafe_next(e, m).wf(),
{
}

proof fn lemma_jump_stage_keeps_invariant(e: PlayerEntity, c: Controls, dt: u64)
    requires
        e.wf(),
        dt <= MAX_TICK_MICROS,
    ensures
        jump_stage_next(e, c, dt).wf(),
{
    let e1 = jump_next(e, jump_pressed_of(c));
    assert(e1.wf());
    let e2 = jump_buffer_next(remove_buffer_next(e1, dt));
    assert(e2.wf());
    let e3 = jump_release_next(e2, jump_released_of(c));
    assert(e3.wf());
    assert(0 <= dt * e3.player.jump_force <= 1_000_000_000_000) by (nonlinear_arith)
        requires
            dt <= 1_000_000,
            e3.player.jump_force <= 1_000_000,
    ;
}

proof fn lemma_dash_stage_keeps_invariant(e: PlayerEntity, c: Controls, dt: u64)
    requires
        e.wf(),
        dt <= MAX_TICK_MICROS,
    ensures
        dash_stage_next(e, c, dt).wf(),
{
    let e1 = dash_next(e, crate::input::dash_pressed_of(c), crate::input::dash_vector_of(c));
    assert(e1.wf());
    let e2 = dashing_next(e1, dt);
    assert(e2.wf());
}

proof fn lemma_post_update_keeps_invariant(e: PlayerEntity, ended: Seq<AnimationKind>)
    requires
        e.wf(),
    ensures
        post_update_next(e, ended).wf(),
{
    let e1 = update_animation_next(state_rules_next(e, ended));
    assert(e1.wf());
    assert(reset_dash_color_next(update_dash_color_next(e1)).wf());
}

/// The invariant holds at every state that a run of ticks reaches; in
/// particular the height of a jump arc never exceeds `max_jump_height`.
pub proof fn lemma_invariant_always_holds(e: PlayerEntity, frames: Seq<Frame>)
    requires
        e.wf(),
        forall|i: int| 0 <= i < frames.len() ==> (#[trigger] frames[i]).wf(),
    ensures
        run_ticks(e, frames).wf(),
        run_ticks(e, frames).jump matches Some(j) ==> j.height
            <= run_ticks(e, frames).player.max_height_nanos(),
    decreases frames.len(),
{
    if frames.len() > 0 {
        let rest = frames.drop_last();
        assert forall|i: int| 0 <= i < rest.len() implies (#[trigger] rest[i]).wf() by {
            assert(rest[i] == frames[i]);
        }
        lemma_invariant_always_holds(e, rest);
        lemma_tick_keeps_invariant(run_ticks(e, rest), frames.last());
    }
}

/// No tick ever enters Climb or Wall: no rule of the controller leads there.
pub proof fn lemma_no_reserved_state(e: PlayerEntity, f: Frame)
    requires
        !reserved(e.state),
    ensures
        !reserved(tick_next(e, f).state),
{
    let c = f.controls;
    let e1 = ground_next(e, f.ground_hit);
    let e2 = strafe_next(e1, movement_of(c, f.dt, e1.player.speed));
    assert(!reserved(e2.state));
    let e3 = jump_stage_next(e2, c, f.dt);
    assert(!reserved(e3.state));
    let e4 = dash_stage_next(e3, c, f.dt);
    assert(!reserved(e4.state));
    let u = update_next(e, f);
    assert(!reserved(u.state));
    assert(!reserved(state_rules_next(u, f.cycle_ends@).state));
}

pub proof fn lemma_trail_fades(t: DashTrail, n: nat)
    ensures
        faded_times(t, n).is_some() <==> n == 0 || t.alpha - n * ALPHA_DECREMENT > 0,
        faded_times(t, n) matches Some(u) ==> u.alpha == t.alpha - n * ALPHA_DECREMENT && u.facing
            == t.facing,
    decreases n,
{
    if n > 0 {
        lemma_trail_fades(t, (n - 1) as nat);
        if t.alpha - n * ALPHA_DECREMENT > 0 {
            assert(t.alpha - (n - 1) * ALPHA_DECREMENT > 0);
        }
    }
}

/// Touchdown: a player who begins a tick in Air, with the Air animation
/// bound, and whose ground probe hits, ends the tick in Land with the Land
/// animation bound, unless a jump or dash starts or the land animation's
/// cycle already ends in that tick.
pub proof fn lemma_touchdown_lands(e: PlayerEntity, f: Frame)
    requires
        e.state == PlayerState::Air,
        e.animation == AnimationKind::Air,
        e.dash.is_none(),
        e.jump_buffer.is_none(),
        f.ground_hit,
        !jump_pressed_of(f.controls),
        !dash_pressed_of(f.controls),
        !f.cycle_ends@.contains(AnimationKind::Land),
    ensures
        tick_next(e, f).state == PlayerState::Land,
        tick_next(e, f).animation == AnimationKind::Land,
{
    let c = f.controls;
    let e1 = ground_next(e, f.ground_hit);
    let e2 = strafe_next(e1, movement_of(c, f.dt, e1.player.speed));
    assert(e2.state != PlayerState::Jump && e2.state != PlayerState::Dash && e2.dash.is_none());
    let e3 = jump_stage_next(e2, c, f.dt);
    assert(e3.state == e2.state && e3.dash.is_none() && e3.jump_buffer.is_none());
    let e4 = dash_stage_next(e3, c, f.dt);
    assert(e4.state == e2.state && e4.animation == AnimationKind::Air && e4.player.grounded);
    let u = update_next(e, f);
    assert(u.state == e2.state && u.animation == AnimationKind::Air && u.player.grounded);
    assert(state_rules_next(u, f.cycle_ends@).state == PlayerState::Land);
}

/// Takeoff: a jump pressed on the ground ends the tick in Jump with the Jump
/// animation bound, unless a dash starts or the jump animation's cycle
/// already ends in that tick.
pub proof fn lemma_takeoff_stays_jump(e: PlayerEntity, f: Frame)
    requires
        e.state == PlayerState::Idle || e.state == PlayerState::Run,
        e.animation == animation_for(e.state),
        e.jump.is_none(),
        f.ground_hit,
        jump_pressed_of(f.controls),
        !dash_pressed_of(f.controls),
        !f.cycle_ends@.contains(AnimationKind::Jump),
    ensures
        tick_next(e, f).state == PlayerState::Jump,
        tick_next(e, f).animation == AnimationKind::Jump,
{
    let c = f.controls;
    let e1 = ground_next(e, f.ground_hit);
    let e2 = strafe_next(e1, movement_of(c, f.dt, e1.player.speed));
    let e3 = jump_stage_next(e2, c, f.dt);
    assert(e3.state == PlayerState::Jump && e3.dash.is_none());
    let e4 = dash_stage_next(e3, c, f.dt);
    assert(e4.state == PlayerState::Jump);
    let u = update_next(e, f);
    assert(u.state == PlayerState::Jump);
    assert(state_rules_next(u, f.cycle_ends@).state == PlayerState::Jump);
}

} // verus!
