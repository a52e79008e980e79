use vstd::prelude::*;

use crate::input::{Controls, dash_pressed, dash_pressed_of, dash_vector, dash_vector_of};
use crate::player::{Direction, MAX_TICK_MICROS, PlayerEntity, PlayerState, Velocity};

verus! {

/// The eight snapped dash directions.
#[derive(Clone, Copy, Debug, PartialEq, Eq, Structural)]
pub enum DashDirection {
    North,
    South,
    West,
    East,
    NorthWest,
    NorthEast,
    SouthWest,
    SouthEast,
}

/// Marker of an active dash: its elapsed time (microseconds) and locked direction.
#[derive(Clone, Copy, Debug, PartialEq, Eq, Structural)]
pub struct Dash {
    pub elapsed: u64,
    pub direction: DashDirection,
}

/// Marker of the cooldown after a dash: its elapsed time (microseconds).
#[derive(Clone, Copy, Debug, PartialEq, Eq, Structural)]
pub struct DashCooldown {
    pub elapsed: u64,
}

/// Dash time per step of the trail clock, in microseconds (a hundredth of a second).
pub const TRAIL_CLOCK_MICROS: u64 = 10_000;

/// A trail is left on every this many steps of the trail clock.
pub const TRAIL_FREQUENCY: u64 = 7;

/// Opacity of a new trail, in hundredths.
pub const FULL_ALPHA: u32 = 100;

/// Opacity a trail loses on every tick, in hundredths.
pub const ALPHA_DECREMENT: u32 = 4;

/// A unit vector component along an axis, in billionths.
pub const AXIS_COMPONENT: i128 = 1_000_000_000;

/// A unit vector component along a diagonal (one over the square root of
/// two), in billionths, rounded down.
pub const DIAGONAL_COMPONENT: i128 = 707_106_781;

/// A fading silhouette left behind by a dash.
#[derive(Clone, Copy, Debug, PartialEq, Eq, Structural)]
pub struct DashTrail {
    /// Opacity in hundredths.
    pub alpha: u32,
    pub facing: Direction,
}

/// The facing that a dash direction imposes: none for the vertical ones.
pub open spec fn facing_of(d: DashDirection) -> Option<Direction> {
    match d {
        DashDirection::North | DashDirection::South => None,
        DashDirection::West | DashDirection::NorthWest | DashDirection::SouthWest => Some(
            Direction::Left,
        ),
        DashDirection::East | DashDirection::NorthEast | DashDirection::SouthEast => Some(
            Direction::Right,
        ),
    }
}

/// Snapping of a dash vector by the signs of its components; none for the zero vector.
pub open spec fn classify(x: int, y: int) -> Option<DashDirection> {
    if x > 0 && y == 0 {
        Some(DashDirection::East)
    } else if x < 0 && y == 0 {
        Some(DashDirection::West)
    } else if x == 0 && y > 0 {
        Some(DashDirection::North)
    } else if x == 0 && y < 0 {
        Some(DashDirection::South)
    } else if x > 0 && y > 0 {
        Some(DashDirection::NorthEast)
    } else if x > 0 && y < 0 {
        Some(DashDirection::SouthEast)
    } else if x < 0 && y > 0 {
        Some(DashDirection::NorthWest)
    } else if x < 0 && y < 0 {
        Some(DashDirection::SouthWest)
    } else {
        None
    }
}

/// The unit vector of a direction, components in billionths.
pub open spec fn unit_of(d: DashDirection) -> (int, int) {
    match d {
        DashDirection::North => (0, AXIS_COMPONENT as int),
        DashDirection::South => (0, -AXIS_COMPONENT),
        DashDirection::West => (-AXIS_COMPONENT, 0),
        DashDirection::East => (AXIS_COMPONENT as int, 0),
        DashDirection::NorthWest => (-DIAGONAL_COMPONENT, DIAGONAL_COMPONENT as int),
        DashDirection::NorthEast => (DIAGONAL_COMPONENT as int, DIAGONAL_COMPONENT as int),
        DashDirection::SouthWest => (-DIAGONAL_COMPONENT, -DIAGONAL_COMPONENT),
        DashDirection::SouthEast => (DIAGONAL_COMPONENT as int, -DIAGONAL_COMPONENT),
    }
}

impl DashDirection {
    /// The facing this direction imposes (see `facing_of`).
    pub fn get_direction(&self) -> (r: Option<Direction>)
        ensures
            r == facing_of(*self),
    {
        match self {
            DashDirection::North | DashDirection::South => None,
            DashDirection::West | DashDirection::NorthWest | DashDirection::SouthWest => Some(
                Direction::Left,
            ),
            DashDirection::East | DashDirection::NorthEast | DashDirection::SouthEast => Some(
                Direction::Right,
            ),
        }
    }

    /// Snapping of a dash vector (see `classify`).
    pub fn from_vector(x: i128, y: i128) -> (r: Option<DashDirection>)
        ensures
            r == classify(x as int, y as int),
    {
        if x > 0 && y == 0 {
            Some(DashDirection::East)
        } else if x < 0 && y == 0 {
            Some(DashDirection::West)
        } else if x == 0 && y > 0 {
            Some(DashDirection::North)
        } else if x == 0 && y < 0 {
            Some(DashDirection::South)
        } else if x > 0 && y > 0 {
            Some(DashDirection::NorthEast)
        } else if x > 0 && y < 0 {
            Some(DashDirection::SouthEast)
        } else if x < 0 && y > 0 {
            Some(DashDirection::NorthWest)
        } else if x < 0 && y < 0 {
            Some(DashDirection::SouthWest)
        } else {
            None
        }
    }

    /// The unit vector of this direction (see `unit_of`).
    pub fn unit_vector(&self) -> (r: (i128, i128))
        ensures
            r.0 == unit_of(*self).0,
            r.1 == unit_of(*self).1,
    {
        match self {
            DashDirection::North => (0, AXIS_COMPONENT),
            DashDirection::South => (0, -AXIS_COMPONENT),
            DashDirection::West => (-AXIS_COMPONENT, 0),
            DashDirection::East => (AXIS_COMPONENT, 0),
            DashDirection::NorthWest => (-DIAGONAL_COMPONENT, DIAGONAL_COMPONENT),
            DashDirection::NorthEast => (DIAGONAL_COMPONENT, DIAGONAL_COMPONENT),
            DashDirection::SouthWest => (-DIAGONAL_COMPONENT, -DIAGONAL_COMPONENT),
            DashDirection::SouthEast => (DIAGONAL_COMPONENT, -DIAGONAL_COMPONENT),
        }
    }
}

impl Dash {
    /// A dash that starts now in the given direction.
    pub fn new(direction: DashDirection) -> (d: Dash)
        ensures
            d == (Dash { elapsed: 0, direction }),
    {
        Dash { elapsed: 0, direction }
    }
}

/// A dash press: when no dash or cooldown is on and the dash vector snaps to
/// a direction, the facing follows the direction, any jump arc and the custom
/// gravity are lifted, and the dash starts. A zero vector changes nothing.
pub open spec fn dash_next(e: PlayerEntity, pressed: bool, v: (int, int)) -> PlayerEntity {
    if e.dash.is_some() || e.dash_cooldown.is_some() || !pressed {
        e
    } else {
        match classify(v.0, v.1) {
            None => e,
            Some(d) => PlayerEntity {
                facing: match facing_of(d) {
                    Some(f) => f,
                    None => e.facing,
                },
                jump: None,
                custom_gravity: false,
                state: PlayerState::Dash,
                dash: Some(Dash { elapsed: 0, direction: d }),
                ..e
            },
        }
    }
}

/// One tick of a dash: the dash drives the velocity at `dash_speed` along
/// its direction and ages by the tick; once its elapsed time exceeds
/// `dash_max_time` it ends, the cooldown starts and the custom gravity
/// returns.
pub open spec fn dashing_next(e: PlayerEntity, dt: u64) -> PlayerEntity {
    match e.dash {
        None => e,
        Some(d) => {
            let driven = PlayerEntity {
                velocity: Velocity {
                    x: (unit_of(d.direction).0 * e.player.dash_speed) as i128,
                    y: (unit_of(d.direction).1 * e.player.dash_speed) as i128,
                },
                ..e
            };
            if d.elapsed + dt > e.player.dash_max_time {
                PlayerEntity {
                    dash: None,
                    dash_cooldown: Some(DashCooldown { elapsed: 0 }),
                    custom_gravity: true,
                    ..driven
                }
            } else {
                PlayerEntity {
                    dash: Some(Dash { elapsed: (d.elapsed + dt) as u64, direction: d.direction }),
                    ..driven
                }
            }
        },
    }
}

/// One tick of the cooldown: it ages and ends once longer than `dash_reset_time`.
pub open spec fn dash_cooldown_next(e: PlayerEntity, dt: u64) -> PlayerEntity {
    if e.dash.is_some() {
        e
    } else {
        match e.dash_cooldown {
            None => e,
            Some(c) => if c.elapsed + dt > e.player.dash_reset_time {
                PlayerEntity { dash_cooldown: None, ..e }
            } else {
                PlayerEntity { dash_cooldown: Some(DashCooldown { elapsed: (c.elapsed + dt) as u64 }), ..e }
            },
        }
    }
}

/// The trail left this tick: one at full opacity with the player's facing
/// while dashing, on the ticks where the trail clock is a multiple of
/// `TRAIL_FREQUENCY`.
pub open spec fn trail_of(e: PlayerEntity) -> Option<DashTrail> {
    match e.dash {
        Some(d) => if (d.elapsed / TRAIL_CLOCK_MICROS) % TRAIL_FREQUENCY == 0 {
            Some(DashTrail { alpha: FULL_ALPHA, facing: e.facing })
        } else {
            None
        },
        None => None,
    }
}

/// A trail after one tick: dimmer by `ALPHA_DECREMENT`, or gone once its
/// opacity would reach zero.
pub open spec fn faded(t: DashTrail) -> Option<DashTrail> {
    if t.alpha - ALPHA_DECREMENT <= 0 {
        None
    } else {
        Some(DashTrail { alpha: (t.alpha - ALPHA_DECREMENT) as u32, ..t })
    }
}

/// Every trail after one tick, in order, without those that vanished.
pub open spec fn faded_all(s: Seq<DashTrail>) -> Seq<DashTrail>
    decreases s.len(),
{
    if s.len() == 0 {
        s
    } else {
        let rest = faded_all(s.drop_last());
        match faded(s.last()) {
            Some(t) => rest.push(t),
            None => rest,
        }
    }
}

/// A dash press of this frame (see `dash_next`).
pub fn dash(e: &mut PlayerEntity, controls: &Controls)
    requires
        old(e).wf(),
    ensures
        final(e).wf(),
        *final(e) == dash_next(*old(e), dash_pressed_of(*controls), dash_vector_of(*controls)),
{
    if e.dash.is_some() || e.dash_cooldown.is_some() || !dash_pressed(controls) {
        return ;
    }
    let (x, y) = dash_vector(controls);
    match DashDirection::from_vector(x, y) {
        None => {},
        Some(d) => {
            match d.get_direction() {
                Some(f) => {
                    e.facing = f;
                },
                None => {},
            }
            e.jump = None;
            e.custom_gravity = false;
            e.state = PlayerState::Dash;
            e.dash = Some(Dash::new(d));
        },
    }
}

/// One tick of a dash (see `dashing_next`).
pub fn dashing(e: &mut PlayerEntity, dt: u64)
    requires
        old(e).wf(),
        dt <= MAX_TICK_MICROS,
    ensures
        final(e).wf(),
        *final(e) == dashing_next(*old(e), dt),
{
    match e.dash {
        None => {},
        Some(d) => {
            let (ux, uy) = d.direction.unit_vector();
            let speed = e.player.dash_speed as i128;
            assert(-1_000_000_000 <= ux <= 1_000_000_000 && -1_000_000_000 <= uy
                <= 1_000_000_000);
            proof {
                assert(-1_000_000_000_000_000 <= ux * speed <= 1_000_000_000_000_000)
                    by (nonlinear_arith)
                    requires
                        -1_000_000_000 <= ux <= 1_000_000_000,
                        0 <= speed <= 1_000_000,
                ;
                assert(-1_000_000_000_000_000 <= uy * speed <= 1_000_000_000_000_000)
                    by (nonlinear_arith)
                    requires
                        -1_000_000_000 <= uy <= 1_000_000_000,
                        0 <= speed <= 1_000_000,
                ;
            }
            e.velocity = Velocity { x: ux * speed, y: uy * speed };
            let elapsed = d.elapsed + dt;
            if elapsed > e.player.dash_max_time {
                e.dash = None;
                e.dash_cooldown = Some(DashCooldown { elapsed: 0 });
                e.custom_gravity = true;
            } else {
                e.dash = Some(Dash { elapsed, direction: d.direction });
            }
        },
    }
}

/// One tick of the cooldown (see `dash_cooldown_next`).
pub fn dash_cooldown(e: &mut PlayerEntity, dt: u64)
    requires
        old(e).wf(),
        dt <= MAX_TICK_MICROS,
    ensures
        final(e).wf(),
        *final(e) == dash_cooldown_next(*old(e), dt),
{
    if e.dash.is_some() {
        return ;
    }
    match e.dash_cooldown {
        None => {},
        Some(c) => {
            if c.elapsed + dt > e.player.dash_reset_time {
                e.dash_cooldown = None;
            } else {
                e.dash_cooldown = Some(DashCooldown { elapsed: c.elapsed + dt });
            }
        },
    }
}

/// The trail to leave this tick, if any (see `trail_of`).
pub fn spawn_dash_trail(e: &PlayerEntity) -> (r: Option<DashTrail>)
    ensures
        r == trail_of(*e),
{
    match e.dash {
        Some(d) => {
            if (d.elapsed / TRAIL_CLOCK_MICROS) % TRAIL_FREQUENCY == 0 {
                Some(DashTrail { alpha: FULL_ALPHA, facing: e.facing })
            } else {
                None
            }
        },
        None => None,
    }
}

/// One trail after one tick (see `faded`).
pub fn fade_out_trail(t: &DashTrail) -> (r: Option<DashTrail>)
    ensures
        r == faded(*t),
{
    if t.alpha <= ALPHA_DECREMENT {
        None
    } else {
        Some(DashTrail { alpha: t.alpha - ALPHA_DECREMENT, facing: t.facing })
    }
}

/// Every trail after one tick (see `faded_all`).
pub fn fade_out_trails(trails: &mut Vec<DashTrail>)
    ensures
        final(trails)@ == faded_all(old(trails)@),
{
    let mut kept: Vec<DashTrail> = Vec::new();
    let mut i: usize = 0;
    while i < trails.len()
        invariant
            i <= trails@.len(),
            trails@ == old(trails)@,
            kept@ == faded_all(trails@.subrange(0, i as int)),
        decreases trails@.len() - i,
    {
        proof {
            let next = trails@.subrange(0, i + 1);
            assert(next.drop_last() =~= trails@.subrange(0, i as int));
            assert(next.last() == trails@[i as int]);
        }
        match fade_out_trail(&trails[i]) {
            Some(t) => kept.push(t),
            None => {},
        }
        i = i + 1;
    }
    assert(trails@.subrange(0, i as int) =~= trails@);
    *trails = kept;
}

} // verus!
