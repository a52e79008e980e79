use vstd::prelude::*;

use crate::player::{Direction, PlayerEntity, PlayerState};

verus! {

/// The eight named animations of the player's sprite sheet.
#[derive(Clone, Copy, Debug, PartialEq, Eq, Hash, Structural)]
pub enum AnimationKind {
    Idle,
    Run,
    Dash,
    Climb,
    Wall,
    Jump,
    Air,
    Land,
}

/// Colour of the player's sprite.
#[derive(Clone, Copy, Debug, PartialEq, Eq, Structural)]
pub enum Tint {
    White,
    Blue,
}

/// The animation bound to each state.
pub open spec fn animation_for(s: PlayerState) -> AnimationKind {
    match s {
        PlayerState::Idle => AnimationKind::Idle,
        PlayerState::Run => AnimationKind::Run,
        PlayerState::Dash => AnimationKind::Dash,
        PlayerState::Climb => AnimationKind::Climb,
        PlayerState::Wall => AnimationKind::Wall,
        PlayerState::Jump => AnimationKind::Jump,
        PlayerState::Air => AnimationKind::Air,
        PlayerState::Land => AnimationKind::Land,
    }
}

/// The name under which each animation is registered.
pub open spec fn name_of(k: AnimationKind) -> Seq<char> {
    match k {
        AnimationKind::Idle => "player_idle"@,
        AnimationKind::Run => "player_run"@,
        AnimationKind::Dash => "player_dash"@,
        AnimationKind::Climb => "player_climb"@,
        AnimationKind::Wall => "player_wall"@,
        AnimationKind::Jump => "player_jump"@,
        AnimationKind::Air => "player_air"@,
        AnimationKind::Land => "player_land"@,
    }
}

impl AnimationKind {
    /// The animation bound to a state (see `animation_for`).
    pub fn for_state(s: PlayerState) -> (r: AnimationKind)
        ensures
            r == animation_for(s),
    {
        match s {
            PlayerState::Idle => AnimationKind::Idle,
            PlayerState::Run => AnimationKind::Run,
            PlayerState::Dash => AnimationKind::Dash,
            PlayerState::Climb => AnimationKind::Climb,
            PlayerState::Wall => AnimationKind::Wall,
            PlayerState::Jump => AnimationKind::Jump,
            PlayerState::Air => AnimationKind::Air,
            PlayerState::Land => AnimationKind::Land,
        }
    }

    /// The registered name of this animation (see `name_of`).
    pub fn name(&self) -> (r: &'static str)
        ensures
            r@ == name_of(*self),
    {
        match self {
            AnimationKind::Idle => "player_idle",
            AnimationKind::Run => "player_run",
            AnimationKind::Dash => "player_dash",
            AnimationKind::Climb => "player_climb",
            AnimationKind::Wall => "player_wall",
            AnimationKind::Jump => "player_jump",
            AnimationKind::Air => "player_air",
            AnimationKind::Land => "player_land",
        }
    }
}

/// Whether the player was in Jump or Air when the tick began: the bound
/// animation is still the one of the state the previous tick ended in.
pub open spec fn began_airborne(e: PlayerEntity) -> bool {
    e.animation == AnimationKind::Jump || e.animation == AnimationKind::Air
}

/// Landing: a player who began the tick in Jump or Air and has ground
/// contact enters Land, unless a jump or a dash started in this tick, which
/// take priority.
pub open spec fn land_next(e: PlayerEntity) -> PlayerEntity {
    if began_airborne(e) && e.player.grounded && e.state != PlayerState::Jump && e.state
        != PlayerState::Dash {
        PlayerEntity { state: PlayerState::Land, ..e }
    } else {
        e
    }
}

/// Binding: the animation follows the state.
pub open spec fn update_animation_next(e: PlayerEntity) -> PlayerEntity {
    PlayerEntity { animation: animation_for(e.state), ..e }
}

/// In Jump, the end of a cycle of the jump animation makes the state Air.
pub open spec fn jump_to_air_next(e: PlayerEntity, ended: Seq<AnimationKind>) -> PlayerEntity {
    if e.state == PlayerState::Jump && ended.contains(AnimationKind::Jump) {
        PlayerEntity { state: PlayerState::Air, ..e }
    } else {
        e
    }
}

/// In Land, the end of a cycle of the land animation makes the state Idle.
pub open spec fn land_to_idle_next(e: PlayerEntity, ended: Seq<AnimationKind>) -> PlayerEntity {
    if e.state == PlayerState::Land && ended.contains(AnimationKind::Land) {
        PlayerEntity { state: PlayerState::Idle, ..e }
    } else {
        e
    }
}

/// The sprite turns blue during a dash.
pub open spec fn update_dash_color_next(e: PlayerEntity) -> PlayerEntity {
    if e.dash.is_some() {
        PlayerEntity { tint: Tint::Blue, ..e }
    } else {
        e
    }
}

/// The sprite turns white again once neither dash nor cooldown is on.
pub open spec fn reset_dash_color_next(e: PlayerEntity) -> PlayerEntity {
    if e.dash.is_none() && e.dash_cooldown.is_none() {
        PlayerEntity { tint: Tint::White, ..e }
    } else {
        e
    }
}

/// In Dash, the end of a cycle of the dash animation, once the dash itself
/// has ended, makes the state Air.
pub open spec fn post_dash_next(e: PlayerEntity, ended: Seq<AnimationKind>) -> PlayerEntity {
    if e.state == PlayerState::Dash && e.dash.is_none() && ended.contains(
        AnimationKind::Dash,
    ) {
        PlayerEntity { state: PlayerState::Air, ..e }
    } else {
        e
    }
}

/// Whether the animation-cycle-completion events of this tick include one of `k`.
pub fn cycle_ended(ended: &Vec<AnimationKind>, k: AnimationKind) -> (r: bool)
    ensures
        r == ended@.contains(k),
{
    let mut i: usize = 0;
    while i < ended.len()
        invariant
            i <= ended@.len(),
            forall|j: int| 0 <= j < i ==> ended@[j] != k,
        decreases ended@.len() - i,
    {
        if ended[i] == k {
            assert(ended@[i as int] == k);
            return true;
        }
        i = i + 1;
    }
    false
}

/// Landing (see `land_next`).
pub fn land(e: &mut PlayerEntity)
    requires
        old(e).wf(),
    ensures
        final(e).wf(),
        *final(e) == land_next(*old(e)),
{
    if (e.animation == AnimationKind::Jump || e.animation == AnimationKind::Air)
        && e.player.grounded && e.state != PlayerState::Jump && e.state != PlayerState::Dash {
        e.state = PlayerState::Land;
    }
}

/// Whether the sprite is drawn mirrored: facing right it is, facing left it is not.
pub fn update_sprite_direction(facing: Direction) -> (flip_x: bool)
    ensures
        flip_x == (facing == Direction::Right),
{
    match facing {
        Direction::Right => true,
        Direction::Left => false,
    }
}

/// Binding of the animation to the state (see `update_animation_next`).
pub fn update_animation(e: &mut PlayerEntity)
    requires
        old(e).wf(),
    ensures
        final(e).wf(),
        *final(e) == update_animation_next(*old(e)),
{
    e.animation = AnimationKind::for_state(e.state);
}

/// Jump animation finished (see `jump_to_air_next`).
pub fn jump_to_air(e: &mut PlayerEntity, ended: &Vec<AnimationKind>)
    requires
        old(e).wf(),
    ensures
        final(e).wf(),
        *final(e) == jump_to_air_next(*old(e), ended@),
{
    if e.state == PlayerState::Jump && cycle_ended(ended, AnimationKind::Jump) {
        e.state = PlayerState::Air;
    }
}

/// Land animation finished (see `land_to_idle_next`).
pub fn land_to_idle(e: &mut PlayerEntity, ended: &Vec<AnimationKind>)
    requires
        old(e).wf(),
    ensures
        final(e).wf(),
        *final(e) == land_to_idle_next(*old(e), ended@),
{
    if e.state == PlayerState::Land && cycle_ended(ended, AnimationKind::Land) {
        e.state = PlayerState::Idle;
    }
}

/// Dash tint (see `update_dash_color_next`).
pub fn update_dash_color(e: &mut PlayerEntity)
    requires
        old(e).wf(),
    ensures
        final(e).wf(),
        *final(e) == update_dash_color_next(*old(e)),
{
    if e.dash.is_some() {
        e.tint = Tint::Blue;
    }
}

/// Tint reset (see `reset_dash_color_next`).
pub fn reset_dash_color(e: &mut PlayerEntity)
    requires
        old(e).wf(),
    ensures
        final(e).wf(),
        *final(e) == reset_dash_color_next(*old(e)),
{
    if e.dash.is_none() && e.dash_cooldown.is_none() {
        e.tint = Tint::White;
    }
}

/// Dash animation finished after the dash (see `post_dash_next`).
pub fn post_dash(e: &mut PlayerEntity, ended: &Vec<AnimationKind>)
    requires
        old(e).wf(),
    ensures
        final(e).wf(),
        *final(e) == post_dash_next(*old(e), ended@),
{
    if e.state == PlayerState::Dash && e.dash.is_none() && cycle_ended(
        ended,
        AnimationKind::Dash,
    ) {
        e.state = PlayerState::Air;
    }
}

} // verus!
