use vstd::prelude::*;

verus! {

/// Number of micro-units in one world unit.
pub const UNIT: i64 = 1_000_000;

/// Horizontal speed of a served ball, in micro-units per second.
pub const SERVE_SPEED: i64 = 100 * UNIT;

/// One of the two players; tags paddles, goal sensors and score displays.
#[derive(Clone, Copy, Debug, PartialEq, Eq, Structural, Hash)]
pub enum Player {
    Player1,
    Player2,
}

/// The display colours the game uses.
#[derive(Clone, Copy, Debug, PartialEq, Eq, Structural, Hash)]
pub enum Colour {
    Red,
    Green,
    White,
}

/// A planar velocity, in micro-units per second.
#[derive(Clone, Copy, Debug, PartialEq, Eq, Structural, Hash)]
pub struct Velocity {
    pub x: i64,
    pub y: i64,
}

/// A position in the world, in micro-units.
#[derive(Clone, Copy, Debug, PartialEq, Eq, Structural, Hash)]
pub struct Position {
    pub x: i64,
    pub y: i64,
    pub z: i64,
}

/// The serve vector of a player: towards the right for the first player,
/// towards the left for the second.
pub open spec fn serve_velocity(p: Player) -> Velocity {
    match p {
        Player::Player1 => Velocity { x: SERVE_SPEED, y: 0 },
        Player::Player2 => Velocity { x: (-SERVE_SPEED) as i64, y: 0 },
    }
}

/// The colour in which a player's paddle is drawn.
pub open spec fn player_colour(p: Player) -> Colour {
    match p {
        Player::Player1 => Colour::Red,
        Player::Player2 => Colour::Green,
    }
}

impl Player {
    /// The velocity the ball takes when this player serves.
    pub fn start_speed(&self) -> (r: Velocity)
        ensures
            r == serve_velocity(*self),
    {
        match self {
            Player::Player1 => Velocity { x: SERVE_SPEED, y: 0 },
            Player::Player2 => Velocity { x: -SERVE_SPEED, y: 0 },
        }
    }

    /// The colour of this player's paddle.
    pub fn get_colour(&self) -> (r: Colour)
        ensures
            r == player_colour(*self),
    {
        match self {
            Player::Player1 => Colour::Red,
            Player::Player2 => Colour::Green,
        }
    }
}

} // verus!
