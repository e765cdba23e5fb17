use vstd::prelude::*;
use crate::events::GameEvent;
use crate::player::{serve_velocity, Player, Position, Velocity, SERVE_SPEED};

verus! {

/// Where the ball stands and how it moves.
#[derive(Clone, Copy, Debug, PartialEq, Eq, Structural, Hash)]
pub struct BallState {
    pub position: Position,
    pub velocity: Velocity,
}

/// The ball at the centre of the field, served by `p`.
pub open spec fn served(p: Player) -> BallState {
    BallState { position: Position { x: 0, y: 0, z: 0 }, velocity: serve_velocity(p) }
}

/// The player of the last reset among `events`, if any.
pub open spec fn last_reset(events: Seq<GameEvent>) -> Option<Player>
    decreases events.len(),
{
    if events.len() == 0 {
        None
    } else {
        match events.last() {
            GameEvent::ResetBall(p) => Some(p),
            _ => last_reset(events.drop_last()),
        }
    }
}

/// The state the resets among `events` leave the ball in, or `None` when
/// there is no reset and the ball keeps its state.
pub open spec fn reset_outcome(events: Seq<GameEvent>) -> Option<BallState> {
    match last_reset(events) {
        Some(p) => Some(served(p)),
        None => None,
    }
}

/// Drains the resets of one frame in order: each puts the ball at the
/// centre with its player's serve vector, so the last one decides. Returns
/// the state the ball must take, or `None` when no reset came.
pub fn reset_ball(events: &Vec<GameEvent>) -> (r: Option<BallState>)
    ensures
        r == reset_outcome(events@),
{
    let mut out: Option<BallState> = None;
    let mut i: usize = 0;
    while i < events.len()
        invariant
            i <= events@.len(),
            out == reset_outcome(events@.subrange(0, i as int)),
        decreases events.len() - i,
    {
        assert(events@.subrange(0, i + 1).drop_last() =~= events@.subrange(0, i as int));
        if let GameEvent::ResetBall(p) = events[i] {
            out = Some(BallState { position: Position { x: 0, y: 0, z: 0 }, velocity: p.start_speed() });
        }
        i += 1;
    }
    assert(events@.subrange(0, events@.len() as int) =~= events@);
    out
}

/// A reset puts the ball at the origin with its player's serve vector,
/// `(100, 0)` world units per second for the first player and `(-100, 0)`
/// for the second, whatever came before it; repeating it changes nothing.
pub proof fn lemma_reset_serves(before: Seq<GameEvent>, p: Player)
    ensures
        reset_outcome(before.push(GameEvent::ResetBall(p))) == Some(served(p)),
        reset_outcome(before.push(GameEvent::ResetBall(p)).push(GameEvent::ResetBall(p)))
            == reset_outcome(before.push(GameEvent::ResetBall(p))),
        served(p).position == (Position { x: 0, y: 0, z: 0 }),
        p == Player::Player1 ==> served(p).velocity == (Velocity { x: SERVE_SPEED, y: 0 }),
        p == Player::Player2 ==> served(p).velocity == (Velocity { x: (-SERVE_SPEED) as i64, y: 0 }),
{
    assert(before.push(GameEvent::ResetBall(p)).drop_last() =~= before);
}

/// Of several resets in one frame the last wins: events after it that are
/// not resets leave the ball as that reset put it.
pub proof fn lemma_last_reset_wins(before: Seq<GameEvent>, p: Player, after: Seq<GameEvent>)
    requires
        forall|i: int| 0 <= i < after.len() ==> !(#[trigger] after[i] is ResetBall),
    ensures
        reset_outcome(before.push(GameEvent::ResetBall(p)) + after) == Some(served(p)),
    decreases after.len(),
{
    let s = before.push(GameEvent::ResetBall(p));
    if after.len() == 0 {
        assert(s + after =~= s);
        assert(s.drop_last() =~= before);
    } else {
        let shorter = after.drop_last();
        assert((s + after).drop_last() =~= s + shorter);
        assert(!(after[after.len() - 1] is ResetBall));
        lemma_last_reset_wins(before, p, shorter);
    }
}

} // verus!
