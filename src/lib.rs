//! Player movement-and-state controller of a 2D platformer.
//!
//! Once per tick the controller turns polled input and a ground-contact
//! reading into the player's velocity, transient markers (jump arc, jump
//! buffer, dash, dash cooldown), discrete state and bound animation, and
//! manages the fading trails a dash leaves behind.
//!
//! - `input`: the polled devices and what they ask for (movement, dash
//!   vector, jump and dash presses).
//! - `player`: the player's tuning, state and the entity's invariant.
//! - `movement`: ground sensor, horizontal movement, jump, jump buffer.
//! - `dash`: dash trigger, dash, cooldown and trails.
//! - `animation`: animation binding and the transitions that animation
//!   cycle ends drive.
//! - `schedule`: the ordered chain of one tick.
//! - `laws`: properties of the controller over whole ticks and runs of ticks.
//!
//! Every quantity is an integer: durations in microseconds, lengths and
//! velocities in nano-units (one world unit is `NANOS_PER_UNIT`), analog
//! stick values in thousandths and trail opacity in hundredths.
pub mod animation;
pub mod dash;
pub mod input;
pub mod laws;
pub mod movement;
pub mod player;
pub mod schedule;
