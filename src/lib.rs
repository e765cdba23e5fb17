//! Game-state rules for a two-player paddle-and-ball arcade game.
//!
//! Lengths are measured in micro-units (millionths of a world unit) and
//! times in microseconds, so that every rule is exact integer arithmetic.
//! The physics engine, rendering and input devices live outside this crate:
//! they hand the rules plain values and apply the values handed back.

pub mod ball;
pub mod events;
pub mod input;
pub mod layout;
pub mod paddle;
pub mod player;
pub mod score;
