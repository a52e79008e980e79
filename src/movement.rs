use vstd::prelude::*;

use crate::input::{
    Controls, jump_pressed, jump_pressed_of, jump_released, jump_released_of, movement_intent,
    movement_of,
};
use crate::player::{
    Direction, MAX_TICK_MICROS, NANOS_PER_UNIT, Player, PlayerEntity, PlayerState, Velocity,
};

verus! {

/// How long a jump press made in the air is remembered, in microseconds.
pub const BUFFER_TIME: u64 = 100_000;

/// Marker of a jump arc in progress: the height risen so far, in nano-units.
#[derive(Clone, Copy, Debug, PartialEq, Eq, Structural)]
pub struct Jump {
    pub height: u64,
}

/// Marker of a buffered jump press: the time since the press, in microseconds.
#[derive(Clone, Copy, Debug, PartialEq, Eq, Structural)]
pub struct JumpBuffer {
    pub elapsed: u64,
}

/// Divisor applied to the movement intent while airborne.
pub const AIR_FRICTION: i128 = 50;

/// Air speed is held within the horizontal speed divided by this.
pub const AIR_SPEED_DIVISOR: i128 = 175;

/// Any velocity of larger magnitude is clipped to this before air control,
/// which changes nothing after the clamp to the air speed.
pub const VELOCITY_CLIP: i128 = 1_329_227_995_784_915_872_903_807_060_280_344_576;

/// Integer division rounding toward zero.
pub open spec fn div_toward_zero(a: int, d: int) -> int {
    if a >= 0 {
        a / d
    } else {
        -((-a) / d)
    }
}

/// `v` held within `lo` and `hi`.
pub open spec fn clamp(v: int, lo: int, hi: int) -> int {
    if v < lo {
        lo
    } else if v > hi {
        hi
    } else {
        v
    }
}

/// Largest horizontal air speed, in nano-units per second.
pub open spec fn air_limit(speed: u64) -> int {
    (speed * NANOS_PER_UNIT) / (AIR_SPEED_DIVISOR as int)
}

/// Horizontal velocity after one tick of air control.
pub open spec fn air_velocity(vx: int, m: int, speed: u64) -> int {
    clamp(vx + div_toward_zero(m, AIR_FRICTION as int), -air_limit(speed), air_limit(speed))
}

/// Horizontal movement: on the ground the velocity becomes the intent and the
/// state becomes Run or Idle (unless landing); in the air a non-zero intent
/// steers the velocity within the air speed. A dash suspends it.
pub open spec fn strafe_next(e: PlayerEntity, m: int) -> PlayerEntity {
    if e.dash.is_some() {
        e
    } else if e.player.grounded {
        PlayerEntity {
            state: if e.state == PlayerState::Land {
                PlayerState::Land
            } else if m == 0 {
                PlayerState::Idle
            } else {
                PlayerState::Run
            },
            velocity: Velocity { x: m as i128, y: e.velocity.y },
            ..e
        }
    } else if m != 0 {
        PlayerEntity {
            velocity: Velocity {
                x: air_velocity(e.velocity.x as int, m, e.player.speed) as i128,
                y: e.velocity.y,
            },
            ..e
        }
    } else {
        e
    }
}

/// A jump press: from the ground it starts a jump arc (ending any dash);
/// in the air it is buffered. Nothing happens while an arc is in progress.
pub open spec fn jump_next(e: PlayerEntity, pressed: bool) -> PlayerEntity {
    if e.jump.is_some() || !pressed {
        e
    } else if e.player.grounded {
        PlayerEntity {
            jump: Some(Jump { height: 0 }),
            state: PlayerState::Jump,
            dash: None,
            ..e
        }
    } else {
        PlayerEntity { jump_buffer: Some(JumpBuffer { elapsed: 0 }), ..e }
    }
}

/// Releasing a jump button in the air ends the arc early; a buffered press
/// stays. On the ground a release does nothing.
pub open spec fn jump_release_next(e: PlayerEntity, released: bool) -> PlayerEntity {
    if !e.player.grounded && released {
        PlayerEntity { jump: None, ..e }
    } else {
        e
    }
}

/// Rise of one tick during a jump arc, in nano-units.
pub open spec fn rise_step(dt: u64, jump_force: u64) -> int {
    dt * jump_force * 1000
}

/// One tick of a jump arc: the rise becomes the vertical velocity; a rise
/// that would reach the full height is cut to the remainder and ends the arc.
pub open spec fn rise_next(e: PlayerEntity, dt: u64) -> PlayerEntity {
    match e.jump {
        None => e,
        Some(j) => {
            let c = rise_step(dt, e.player.jump_force);
            if j.height + c >= e.player.max_height_nanos() {
                PlayerEntity {
                    velocity: Velocity {
                        x: e.velocity.x,
                        y: (e.player.max_height_nanos() - j.height) as i128,
                    },
                    jump: None,
                    ..e
                }
            } else {
                PlayerEntity {
                    velocity: Velocity { x: e.velocity.x, y: c as i128 },
                    jump: Some(Jump { height: (j.height + c) as u64 }),
                    ..e
                }
            }
        },
    }
}

/// Facing follows the sign of the horizontal velocity, except during a dash.
pub open spec fn update_direction_next(e: PlayerEntity) -> PlayerEntity {
    if e.dash.is_some() {
        e
    } else if e.velocity.x > 0 {
        PlayerEntity { facing: Direction::Right, ..e }
    } else if e.velocity.x < 0 {
        PlayerEntity { facing: Direction::Left, ..e }
    } else {
        e
    }
}

/// A buffered press ages by the tick and is dropped once older than `BUFFER_TIME`.
pub open spec fn remove_buffer_next(e: PlayerEntity, dt: u64) -> PlayerEntity {
    match e.jump_buffer {
        None => e,
        Some(b) => if b.elapsed + dt > BUFFER_TIME {
            PlayerEntity { jump_buffer: None, ..e }
        } else {
            PlayerEntity { jump_buffer: Some(JumpBuffer { elapsed: (b.elapsed + dt) as u64 }), ..e }
        },
    }
}

/// On the ground a buffered press is consumed and starts a jump arc,
/// ending any dash.
pub open spec fn jump_buffer_next(e: PlayerEntity) -> PlayerEntity {
    if e.jump_buffer.is_some() && e.player.grounded {
        PlayerEntity {
            jump_buffer: None,
            jump: Some(Jump { height: 0 }),
            state: PlayerState::Jump,
            dash: None,
            ..e
        }
    } else {
        e
    }
}

/// The ground sensor's reading: grounded exactly when the downward probe hit.
pub open spec fn ground_next(e: PlayerEntity, hit: bool) -> PlayerEntity {
    PlayerEntity { player: Player { grounded: hit, ..e.player }, ..e }
}

/// Recording of the ground sensor's reading (see `ground_next`).
pub fn check_for_ground(e: &mut PlayerEntity, hit: bool)
    requires
        old(e).wf(),
    ensures
        final(e).wf(),
        *final(e) == ground_next(*old(e), hit),
{
    e.player.grounded = hit;
}

/// Horizontal movement of one tick (see `strafe_next`).
pub fn strafe(e: &mut PlayerEntity, controls: &Controls, dt: u64)
    requires
        old(e).wf(),
        controls.wf(),
        dt <= MAX_TICK_MICROS,
    ensures
        final(e).wf(),
        *final(e) == strafe_next(*old(e), movement_of(*controls, dt, old(e).player.speed)),
        old(e).dash.is_none() && old(e).player.grounded && old(e).state != PlayerState::Land
            ==> final(e).state == if movement_of(*controls, dt, old(e).player.speed) == 0 {
            PlayerState::Idle
        } else {
            PlayerState::Run
        },
{
    if e.dash.is_some() {
        return ;
    }
    let m = movement_intent(controls, dt, e.player.speed);
    if e.player.grounded {
        if e.state != PlayerState::Land {
            if m == 0 {
                e.state = PlayerState::Idle;
            } else {
                e.state = PlayerState::Run;
            }
        }
        e.velocity.x = m;
    } else if m != 0 {
        let d: i128 = if m >= 0 {
            m / AIR_FRICTION
        } else {
            -((-m) / AIR_FRICTION)
        };
        let v0 = e.velocity.x;
        let v: i128 = if v0 > VELOCITY_CLIP {
            VELOCITY_CLIP
        } else if v0 < -VELOCITY_CLIP {
            -VELOCITY_CLIP
        } else {
            v0
        };
        let limit: i128 = (e.player.speed as i128) * (NANOS_PER_UNIT as i128) / AIR_SPEED_DIVISOR;
        assert(limit <= 1_000_000_000_000_000);
        let s = v + d;
        e.velocity.x = if s < -limit {
            -limit
        } else if s > limit {
            limit
        } else {
            s
        };
    }
}

/// A jump press of this frame (see `jump_next`).
pub fn jump(e: &mut PlayerEntity, controls: &Controls)
    requires
        old(e).wf(),
    ensures
        final(e).wf(),
        *final(e) == jump_next(*old(e), jump_pressed_of(*controls)),
{
    if e.jump.is_some() {
        return ;
    }
    if jump_pressed(controls) {
        if e.player.grounded {
            e.jump = Some(Jump { height: 0 });
            e.state = PlayerState::Jump;
            e.dash = None;
        } else {
            e.jump_buffer = Some(JumpBuffer { elapsed: 0 });
        }
    }
}

/// A jump release of this frame (see `jump_release_next`).
pub fn jump_release(e: &mut PlayerEntity, controls: &Controls)
    requires
        old(e).wf(),
    ensures
        final(e).wf(),
        *final(e) == jump_release_next(*old(e), jump_released_of(*controls)),
{
    if !e.player.grounded && jump_released(controls) {
        e.jump = None;
    }
}

/// One tick of a jump arc (see `rise_next`).
pub fn rise(e: &mut PlayerEntity, dt: u64)
    requires
        old(e).wf(),
        dt <= MAX_TICK_MICROS,
    ensures
        final(e).wf(),
        *final(e) == rise_next(*old(e), dt),
{
    match e.jump {
        None => {},
        Some(j) => {
            proof {
                assert(0 <= dt * e.player.jump_force <= 1_000_000_000_000) by (nonlinear_arith)
                    requires
                        dt <= 1_000_000,
                        e.player.jump_force <= 1_000_000,
                ;
            }
            let c: u64 = dt * e.player.jump_force * 1000;
            let max_height: u64 = e.player.max_jump_height * NANOS_PER_UNIT;
            if j.height + c >= max_height {
                e.velocity.y = (max_height - j.height) as i128;
                e.jump = None;
            } else {
                e.velocity.y = c as i128;
                e.jump = Some(Jump { height: j.height + c });
            }
        },
    }
}

/// Facing update of one tick (see `update_direction_next`).
pub fn update_direction(e: &mut PlayerEntity)
    requires
        old(e).wf(),
    ensures
        final(e).wf(),
        *final(e) == update_direction_next(*old(e)),
{
    if e.dash.is_some() {
        return ;
    }
    if e.velocity.x > 0 {
        e.facing = Direction::Right;
    } else if e.velocity.x < 0 {
        e.facing = Direction::Left;
    }
}

/// Ageing of a buffered jump press (see `remove_buffer_next`).
pub fn remove_buffer(e: &mut PlayerEntity, dt: u64)
    requires
        old(e).wf(),
        dt <= MAX_TICK_MICROS,
    ensures
        final(e).wf(),
        *final(e) == remove_buffer_next(*old(e), dt),
{
    match e.jump_buffer {
        None => {},
        Some(b) => {
            if b.elapsed + dt > BUFFER_TIME {
                e.jump_buffer = None;
            } else {
                e.jump_buffer = Some(JumpBuffer { elapsed: b.elapsed + dt });
            }
        },
    }
}

/// Conversion of a buffered press on touchdown (see `jump_buffer_next`).
pub fn jump_buffer(e: &mut PlayerEntity)
    requires
        old(e).wf(),
    ensures
        final(e).wf(),
        *final(e) == jump_buffer_next(*old(e)),
{
    if e.jump_buffer.is_some() && e.player.grounded {
        e.jump_buffer = None;
        e.jump = Some(Jump { height: 0 });
        e.state = PlayerState::Jump;
        e.dash = None;
    }
}

} // verus!
