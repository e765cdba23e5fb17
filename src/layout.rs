use vstd::prelude::*;
use crate::ball::BallState;
use crate::input::Key;
use crate::paddle::{Paddle, HALF_FIELD_HEIGHT, PADDLE_HALF_HEIGHT};
use crate::player::{player_colour, serve_velocity, Colour, Player, Position, UNIT};

verus! {

/// Half the width of the playfield, in micro-units.
pub const HALF_FIELD_WIDTH: i64 = 640 * UNIT;

/// Half the thickness of a wall or goal sensor, in micro-units.
pub const BORDER_HALF_THICKNESS: i64 = 3 * UNIT;

/// Half the width of a paddle, in micro-units.
pub const PADDLE_HALF_WIDTH: i64 = 5 * UNIT;

/// How far a paddle's centre stands in from its side of the field.
pub const PADDLE_INSET: i64 = 20 * UNIT;

/// Where the ball's centre starts across the field, left of the middle.
pub const BALL_START_X: i64 = -300 * UNIT;

/// Radius of the ball, in micro-units.
pub const BALL_RADIUS: i64 = 25 * UNIT;

/// A fixed box at the edge of the field: a wall that blocks the ball, or,
/// when it carries a player, that player's goal sensor, which only reports
/// the ball entering it.
#[derive(Clone, Copy, Debug, PartialEq, Eq, Structural, Hash)]
pub struct Border {
    pub centre: Position,
    pub half_width: i64,
    pub half_height: i64,
    pub goal: Option<Player>,
}

/// How a paddle is placed when the game starts.
#[derive(Clone, Copy, Debug, PartialEq, Eq, Structural, Hash)]
pub struct PaddleSpawn {
    pub owner: Player,
    pub paddle: Paddle,
    pub centre: Position,
    pub half_width: i64,
    pub half_height: i64,
    pub colour: Colour,
}

/// How the ball is placed when the game starts.
#[derive(Clone, Copy, Debug, PartialEq, Eq, Structural, Hash)]
pub struct BallSpawn {
    pub state: BallState,
    pub radius: i64,
    pub colour: Colour,
}

/// The walls along the top and bottom edges, then the goal sensors on the
/// right edge, tagged with the first player, and on the left edge, tagged
/// with the second.
pub open spec fn border_pieces() -> Seq<Border> {
    seq![
        Border {
            centre: Position { x: 0, y: HALF_FIELD_HEIGHT, z: 0 },
            half_width: HALF_FIELD_WIDTH,
            half_height: BORDER_HALF_THICKNESS,
            goal: None,
        },
        Border {
            centre: Position { x: 0, y: (-HALF_FIELD_HEIGHT) as i64, z: 0 },
            half_width: HALF_FIELD_WIDTH,
            half_height: BORDER_HALF_THICKNESS,
            goal: None,
        },
        Border {
            centre: Position { x: HALF_FIELD_WIDTH, y: 0, z: 0 },
            half_width: BORDER_HALF_THICKNESS,
            half_height: HALF_FIELD_HEIGHT,
            goal: Some(Player::Player1),
        },
        Border {
            centre: Position { x: (-HALF_FIELD_WIDTH) as i64, y: 0, z: 0 },
            half_width: BORDER_HALF_THICKNESS,
            half_height: HALF_FIELD_HEIGHT,
            goal: Some(Player::Player2),
        },
    ]
}

/// The first player's paddle stands near the left edge and is steered with
/// W and S; the second player's stands near the right edge and is steered
/// with the arrow keys. Both start at mid-height in their player's colour.
pub open spec fn paddle_placement(p: Player) -> PaddleSpawn {
    PaddleSpawn {
        owner: p,
        paddle: match p {
            Player::Player1 => Paddle { move_up: Key::KeyW, move_down: Key::KeyS },
            Player::Player2 => Paddle { move_up: Key::ArrowUp, move_down: Key::ArrowDown },
        },
        centre: Position {
            x: match p {
                Player::Player1 => (PADDLE_INSET - HALF_FIELD_WIDTH) as i64,
                Player::Player2 => (HALF_FIELD_WIDTH - PADDLE_INSET) as i64,
            },
            y: 0,
            z: 0,
        },
        half_width: PADDLE_HALF_WIDTH,
        half_height: PADDLE_HALF_HEIGHT,
        colour: player_colour(p),
    }
}

/// The ball starts white, left of centre and in front of the field, moving
/// with the first player's serve vector.
pub open spec fn ball_placement() -> BallSpawn {
    BallSpawn {
        state: BallState {
            position: Position { x: BALL_START_X, y: 0, z: UNIT },
            velocity: serve_velocity(Player::Player1),
        },
        radius: BALL_RADIUS,
        colour: Colour::White,
    }
}

/// The four fixed boxes around the field.
pub fn borders() -> (r: Vec<Border>)
    ensures
        r@ == border_pieces(),
{
    let bottom: i64 = -HALF_FIELD_HEIGHT;
    let left: i64 = -HALF_FIELD_WIDTH;
    let r = vec![
        Border {
            centre: Position { x: 0, y: HALF_FIELD_HEIGHT, z: 0 },
            half_width: HALF_FIELD_WIDTH,
            half_height: BORDER_HALF_THICKNESS,
            goal: None,
        },
        Border {
            centre: Position { x: 0, y: bottom, z: 0 },
            half_width: HALF_FIELD_WIDTH,
            half_height: BORDER_HALF_THICKNESS,
            goal: None,
        },
        Border {
            centre: Position { x: HALF_FIELD_WIDTH, y: 0, z: 0 },
            half_width: BORDER_HALF_THICKNESS,
            half_height: HALF_FIELD_HEIGHT,
            goal: Some(Player::Player1),
        },
        Border {
            centre: Position { x: left, y: 0, z: 0 },
            half_width: BORDER_HALF_THICKNESS,
            half_height: HALF_FIELD_HEIGHT,
            goal: Some(Player::Player2),
        },
    ];
    assert(r@ =~= border_pieces());
    r
}

impl Player {
    /// Where and how this player's paddle starts.
    pub fn paddle_spawn(&self) -> (r: PaddleSpawn)
        ensures
            r == paddle_placement(*self),
    {
        let (paddle, x) = match self {
            Player::Player1 => (
                Paddle { move_up: Key::KeyW, move_down: Key::KeyS },
                PADDLE_INSET - HALF_FIELD_WIDTH,
            ),
            Player::Player2 => (
                Paddle { move_up: Key::ArrowUp, move_down: Key::ArrowDown },
                HALF_FIELD_WIDTH - PADDLE_INSET,
            ),
        };
        PaddleSpawn {
            owner: *self,
            paddle,
            centre: Position { x, y: 0, z: 0 },
            half_width: PADDLE_HALF_WIDTH,
            half_height: PADDLE_HALF_HEIGHT,
            colour: self.get_colour(),
        }
    }
}

/// Where and how the ball starts.
pub fn ball_spawn() -> (r: BallSpawn)
    ensures
        r == ball_placement(),
{
    BallSpawn {
        state: BallState {
            position: Position { x: BALL_START_X, y: 0, z: UNIT },
            velocity: Player::Player1.start_speed(),
        },
        radius: BALL_RADIUS,
        colour: Colour::White,
    }
}

} // verus!
