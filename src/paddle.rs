use vstd::prelude::*;
use crate::input::{Input, Key};
use crate::player::UNIT;

verus! {

/// Half the height of the playfield, in micro-units.
pub const HALF_FIELD_HEIGHT: i64 = 360 * UNIT;

/// Half the height of a paddle, in micro-units.
pub const PADDLE_HALF_HEIGHT: i64 = 75 * UNIT;

/// Paddle speed: 100 world units per second, which is 100 micro-units per
/// microsecond.
pub const PADDLE_SPEED: i64 = 100;

/// The highest a paddle's centre may stand.
pub const PADDLE_MAX_Y: i64 = HALF_FIELD_HEIGHT - PADDLE_HALF_HEIGHT;

/// The lowest a paddle's centre may stand.
pub const PADDLE_MIN_Y: i64 = PADDLE_HALF_HEIGHT - HALF_FIELD_HEIGHT;

/// The keys that steer one paddle.
#[derive(Clone, Copy, Debug, PartialEq, Eq, Structural, Hash)]
pub struct Paddle {
    pub move_up: Key,
    pub move_down: Key,
}

/// A paddle together with the height of its centre, in micro-units.
#[derive(Clone, Copy, Debug, PartialEq, Eq, Structural, Hash)]
pub struct PaddleState {
    pub paddle: Paddle,
    pub y: i64,
}

/// `y` brought into the band a paddle's centre may occupy.
pub open spec fn clamp_to_field(y: int) -> int {
    if y < PADDLE_MIN_Y {
        PADDLE_MIN_Y as int
    } else if y > PADDLE_MAX_Y {
        PADDLE_MAX_Y as int
    } else {
        y
    }
}

/// One frame of paddle motion lasting `dt` microseconds: first the upward
/// move and its clamp, then the downward move and its clamp.
pub open spec fn paddle_step(y: int, up: bool, down: bool, dt: int) -> int {
    let d = PADDLE_SPEED * dt;
    let y1 = if up {
        clamp_to_field(y + d)
    } else {
        y
    };
    if down {
        clamp_to_field(y1 - d)
    } else {
        y1
    }
}

/// Where a paddle stands after holding only "move up" for the given frames.
pub open spec fn hold_up(y: int, frames: Seq<nat>) -> int
    decreases frames.len(),
{
    if frames.len() == 0 {
        y
    } else {
        paddle_step(hold_up(y, frames.drop_last()), true, false, frames.last() as int)
    }
}

/// Where a paddle stands after holding only "move down" for the given frames.
pub open spec fn hold_down(y: int, frames: Seq<nat>) -> int
    decreases frames.len(),
{
    if frames.len() == 0 {
        y
    } else {
        paddle_step(hold_down(y, frames.drop_last()), false, true, frames.last() as int)
    }
}

fn clamp_field(y: i128) -> (r: i64)
    ensures
        r == clamp_to_field(y as int),
{
    if y < PADDLE_MIN_Y as i128 {
        PADDLE_MIN_Y
    } else if y > PADDLE_MAX_Y as i128 {
        PADDLE_MAX_Y
    } else {
        y as i64
    }
}

impl Paddle {
    /// Where this paddle's centre moves from `y` in a frame of `dt`
    /// microseconds under the given keys.
    pub open spec fn next_y(&self, y: int, input: &Input, dt: int) -> int {
        paddle_step(y, input.is_held(self.move_up), input.is_held(self.move_down), dt)
    }

    /// Moves a paddle whose centre stands at `y` through one frame of
    /// `dt_us` microseconds.
    pub fn moved(&self, y: i64, input: &Input, dt_us: u32) -> (r: i64)
        ensures
            r == self.next_y(y as int, input, dt_us as int),
    {
        let d: i128 = PADDLE_SPEED as i128 * dt_us as i128;
        let mut pos: i64 = y;
        if input.pressed(self.move_up) {
            pos = clamp_field(pos as i128 + d);
        }
        if input.pressed(self.move_down) {
            pos = clamp_field(pos as i128 - d);
        }
        pos
    }
}

/// Moves every paddle through one frame of `dt_us` microseconds.
pub fn move_paddle(paddles: &mut Vec<PaddleState>, input: &Input, dt_us: u32)
    ensures
        final(paddles)@.len() == old(paddles)@.len(),
        forall|i: int|
            0 <= i < old(paddles)@.len() ==> {
                &&& (#[trigger] final(paddles)@[i]).paddle == old(paddles)@[i].paddle
                &&& final(paddles)@[i].y == old(paddles)@[i].paddle.next_y(
                    old(paddles)@[i].y as int,
                    input,
                    dt_us as int,
                )
            },
{
    let n = paddles.len();
    let mut i: usize = 0;
    while i < n
        invariant
            n == old(paddles)@.len(),
            paddles@.len() == n,
            i <= n,
            forall|j: int|
                0 <= j < i ==> {
                    &&& (#[trigger] paddles@[j]).paddle == old(paddles)@[j].paddle
                    &&& paddles@[j].y == old(paddles)@[j].paddle.next_y(
                        old(paddles)@[j].y as int,
                        input,
                        dt_us as int,
                    )
                },
            forall|j: int| i <= j < n ==> #[trigger] paddles@[j] == old(paddles)@[j],
        decreases n - i,
    {
        let state = paddles[i];
        let y = state.paddle.moved(state.y, input, dt_us);
        paddles.set(i, PaddleState { paddle: state.paddle, y });
        i += 1;
    }
}

/// A frame in which a key is held always leaves the paddle on the field, and
/// a frame that starts on the field ends there too.
pub proof fn lemma_step_stays_on_field(y: int, up: bool, down: bool, dt: nat)
    requires
        up || down || PADDLE_MIN_Y <= y <= PADDLE_MAX_Y,
    ensures
        PADDLE_MIN_Y <= paddle_step(y, up, down, dt as int) <= PADDLE_MAX_Y,
{
}

/// However many frames "move up" is held, a paddle that starts no higher than
/// the top limit never rises above it.
pub proof fn lemma_hold_up_never_above_top(y: int, frames: Seq<nat>)
    requires
        y <= PADDLE_MAX_Y,
    ensures
        hold_up(y, frames) <= PADDLE_MAX_Y,
    decreases frames.len(),
{
    if frames.len() > 0 {
        lemma_hold_up_never_above_top(y, frames.drop_last());
    }
}

/// However many frames "move down" is held, a paddle that starts no lower
/// than the bottom limit never sinks below it.
pub proof fn lemma_hold_down_never_below_bottom(y: int, frames: Seq<nat>)
    requires
        y >= PADDLE_MIN_Y,
    ensures
        hold_down(y, frames) >= PADDLE_MIN_Y,
    decreases frames.len(),
{
    if frames.len() > 0 {
        lemma_hold_down_never_below_bottom(y, frames.drop_last());
    }
}

} // verus!
