use vstd::prelude::*;

use crate::animation::{AnimationKind, Tint};
use crate::dash::{Dash, DashCooldown};
use crate::movement::{Jump, JumpBuffer, BUFFER_TIME};

verus! {

/// Fine units in one world unit.
pub const NANOS_PER_UNIT: u64 = 1_000_000_000;

/// Microseconds in one second.
pub const MICROS_PER_SECOND: u64 = 1_000_000;

/// The longest tick the controller accepts, in microseconds.
pub const MAX_TICK_MICROS: u64 = 1_000_000;

/// Upper bound of every rate parameter (units per second).
pub const MAX_RATE: u64 = 1_000_000;

/// Upper bound of the jump height parameter (units).
pub const MAX_JUMP_HEIGHT: u64 = 1_000_000;

/// Upper bound of the dash duration and cooldown parameters (microseconds).
pub const MAX_DURATION_MICROS: u64 = 1_000_000_000_000;

/// Tuning of the player, fixed at startup, and the ground sensor's reading.
#[derive(Clone, Copy, Debug, PartialEq, Eq, Structural)]
pub struct Player {
    /// Horizontal speed, units per second.
    pub speed: u64,
    /// Whether the ground sensor found ground under the player this tick.
    pub grounded: bool,
    /// Rise rate of a jump, units per second.
    pub jump_force: u64,
    /// Height of a full jump arc, units.
    pub max_jump_height: u64,
    /// Dash speed, units per second.
    pub dash_speed: u64,
    /// Duration of a dash, microseconds.
    pub dash_max_time: u64,
    /// Cooldown after a dash, microseconds.
    pub dash_reset_time: u64,
}

impl Player {
    /// The parameters lie within the bounds under which no computation overflows.
    pub open spec fn wf(&self) -> bool {
        &&& self.speed <= MAX_RATE
        &&& self.jump_force <= MAX_RATE
        &&& self.dash_speed <= MAX_RATE
        &&& self.max_jump_height <= MAX_JUMP_HEIGHT
        &&& self.dash_max_time <= MAX_DURATION_MICROS
        &&& self.dash_reset_time <= MAX_DURATION_MICROS
    }

    /// Height of a full jump arc in nano-units.
    pub open spec fn max_height_nanos(&self) -> int {
        self.max_jump_height * NANOS_PER_UNIT
    }
}

impl Default for Player {
    fn default() -> (p: Player)
        ensures
            p.speed == 20_000,
            !p.grounded,
            p.jump_force == 20_000,
            p.max_jump_height == 200,
            p.dash_speed == 250,
            p.dash_max_time == 200_000,
            p.dash_reset_time == 1_000_000,
            p.wf(),
    {
        Player {
            speed: 20_000,
            grounded: false,
            max_jump_height: 200,
            jump_force: 20_000,
            dash_speed: 250,
            dash_max_time: 200_000,
            dash_reset_time: 1_000_000,
        }
    }
}

/// The way the player's sprite faces.
#[derive(Clone, Copy, Debug, PartialEq, Eq, Structural)]
pub enum Direction {
    Right,
    Left,
}

/// The one discrete state of the player at any tick.
#[derive(Clone, Copy, Debug, PartialEq, Eq, Structural)]
pub enum PlayerState {
    Idle,
    Run,
    Dash,
    Jump,
    Air,
    Land,
    /// Reserved for movement systems to come: no rule here enters it.
    Climb,
    /// Reserved for movement systems to come: no rule here enters it.
    Wall,
}

/// Linear velocity in nano-units per second.
#[derive(Clone, Copy, Debug, PartialEq, Eq, Structural)]
pub struct Velocity {
    pub x: i128,
    pub y: i128,
}

/// The player entity: its tuning, discrete state and the transient markers
/// that the systems attach and remove.
#[derive(Clone, Copy, Debug, PartialEq, Eq, Structural)]
pub struct PlayerEntity {
    pub player: Player,
    pub state: PlayerState,
    pub facing: Direction,
    pub velocity: Velocity,
    /// Present while a jump arc is in progress.
    pub jump: Option<Jump>,
    /// Present while a jump press made in the air waits for the ground.
    pub jump_buffer: Option<JumpBuffer>,
    /// Present during the dash window.
    pub dash: Option<Dash>,
    /// Present after a dash ends, until a new dash may start.
    pub dash_cooldown: Option<DashCooldown>,
    /// Whether the player's own gravity scale applies; a dash lifts it and
    /// the end of a dash restores it.
    pub custom_gravity: bool,
    /// The animation bound to the sprite.
    pub animation: AnimationKind,
    pub tint: Tint,
}

impl PlayerEntity {
    /// The markers exclude one another as the controller requires, and each
    /// elapsed time lies in the range its rule keeps it in.
    pub open spec fn wf(&self) -> bool {
        &&& self.player.wf()
        &&& self.jump.is_some() ==> self.dash.is_none()
        &&& self.dash.is_some() ==> self.dash_cooldown.is_none()
        &&& self.jump matches Some(j) ==> j.height <= self.player.max_height_nanos()
        &&& self.jump_buffer matches Some(b) ==> b.elapsed <= BUFFER_TIME
        &&& self.dash matches Some(d) ==> d.elapsed <= self.player.dash_max_time
        &&& self.dash_cooldown matches Some(c) ==> c.elapsed <= self.player.dash_reset_time
    }

    /// The entity as it is spawned: idle, facing right, at rest, with no marker.
    pub fn new(player: Player) -> (e: PlayerEntity)
        requires
            player.wf(),
        ensures
            e.wf(),
            e.player == player,
            e.state == PlayerState::Idle,
            e.facing == Direction::Right,
            e.velocity == (Velocity { x: 0, y: 0 }),
            e.jump.is_none(),
            e.jump_buffer.is_none(),
            e.dash.is_none(),
            e.dash_cooldown.is_none(),
            e.custom_gravity,
            e.animation == AnimationKind::Idle,
            e.tint == Tint::White,
    {
        PlayerEntity {
            player,
            state: PlayerState::Idle,
            facing: Direction::Right,
            velocity: Velocity { x: 0, y: 0 },
            jump: None,
            jump_buffer: None,
            dash: None,
            dash_cooldown: None,
            custom_gravity: true,
            animation: AnimationKind::Idle,
            tint: Tint::White,
        }
    }
}

} // verus!
