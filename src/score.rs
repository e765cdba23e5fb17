use vstd::prelude::*;
use crate::events::GameEvent;
use crate::player::Player;

verus! {

/// Points scored by each player during a session.
#[derive(Clone, Copy, Debug, PartialEq, Eq, Structural, Hash)]
pub struct Score {
    pub player1: u64,
    pub player2: u64,
}

/// A new value for the score display of `player`.
#[derive(Clone, Copy, Debug, PartialEq, Eq, Structural, Hash)]
pub struct ScoreUpdate {
    pub player: Player,
    pub value: u64,
}

/// How many points for `p` are among `events`.
pub open spec fn gain_count(events: Seq<GameEvent>, p: Player) -> nat
    decreases events.len(),
{
    if events.len() == 0 {
        0
    } else {
        gain_count(events.drop_last(), p) + if events.last() == GameEvent::GainPoint(p) {
            1nat
        } else {
            0nat
        }
    }
}

/// The display writes that draining `events` from the score `start` makes:
/// one per point, in order, carrying the scorer's new total.
pub open spec fn display_updates(start: Score, events: Seq<GameEvent>) -> Seq<ScoreUpdate>
    decreases events.len(),
{
    if events.len() == 0 {
        Seq::empty()
    } else {
        let prefix = display_updates(start, events.drop_last());
        match events.last() {
            GameEvent::GainPoint(p) => prefix.push(
                ScoreUpdate { player: p, value: (start.count(p) + gain_count(events, p)) as u64 },
            ),
            _ => prefix,
        }
    }
}

/// The score of each player after each frame in turn, from a new score.
pub open spec fn points_over_frames(frames: Seq<Seq<GameEvent>>, p: Player) -> nat
    decreases frames.len(),
{
    if frames.len() == 0 {
        0
    } else {
        points_over_frames(frames.drop_last(), p) + gain_count(frames.last(), p)
    }
}

impl Score {
    /// The points of `p`, as a number.
    pub open spec fn count(&self, p: Player) -> int {
        match p {
            Player::Player1 => self.player1 as int,
            Player::Player2 => self.player2 as int,
        }
    }

    /// Both players at zero.
    pub fn new() -> (r: Score)
        ensures
            r.count(Player::Player1) == 0,
            r.count(Player::Player2) == 0,
    {
        Score { player1: 0, player2: 0 }
    }

    /// The points of `p`.
    pub fn get(&self, p: Player) -> (r: u64)
        ensures
            r == self.count(p),
    {
        match p {
            Player::Player1 => self.player1,
            Player::Player2 => self.player2,
        }
    }
}

proof fn lemma_gain_count_prefix(events: Seq<GameEvent>, i: int, p: Player)
    requires
        0 <= i <= events.len(),
    ensures
        gain_count(events.subrange(0, i), p) <= gain_count(events, p),
    decreases events.len(),
{
    if i < events.len() {
        assert(events.drop_last().subrange(0, i) =~= events.subrange(0, i));
        lemma_gain_count_prefix(events.drop_last(), i, p);
    } else {
        assert(events.subrange(0, i) =~= events);
    }
}

/// Drains the points of one frame in order: each adds exactly one to its
/// player's score and yields the new total for that player's display.
pub fn score(totals: &mut Score, events: &Vec<GameEvent>) -> (updates: Vec<ScoreUpdate>)
    requires
        old(totals).count(Player::Player1) + gain_count(events@, Player::Player1) <= u64::MAX,
        old(totals).count(Player::Player2) + gain_count(events@, Player::Player2) <= u64::MAX,
    ensures
        final(totals).count(Player::Player1) == old(totals).count(Player::Player1) + gain_count(
            events@,
            Player::Player1,
        ),
        final(totals).count(Player::Player2) == old(totals).count(Player::Player2) + gain_count(
            events@,
            Player::Player2,
        ),
        updates@ == display_updates(*old(totals), events@),
{
    let ghost start = *totals;
    let mut updates: Vec<ScoreUpdate> = Vec::new();
    let mut i: usize = 0;
    while i < events.len()
        invariant
            i <= events@.len(),
            start == *old(totals),
            start.count(Player::Player1) + gain_count(events@, Player::Player1) <= u64::MAX,
            start.count(Player::Player2) + gain_count(events@, Player::Player2) <= u64::MAX,
            forall|p: Player|
                #[trigger] totals.count(p) == start.count(p) + gain_count(
                    events@.subrange(0, i as int),
                    p,
                ),
            updates@ == display_updates(start, events@.subrange(0, i as int)),
        decreases events.len() - i,
    {
        let ghost next = events@.subrange(0, i + 1);
        assert(next.drop_last() =~= events@.subrange(0, i as int));
        proof {
            lemma_gain_count_prefix(events@, i + 1, Player::Player1);
            lemma_gain_count_prefix(events@, i + 1, Player::Player2);
            assert(totals.count(Player::Player1) == start.count(Player::Player1) + gain_count(
                events@.subrange(0, i as int),
                Player::Player1,
            ));
            assert(totals.count(Player::Player2) == start.count(Player::Player2) + gain_count(
                events@.subrange(0, i as int),
                Player::Player2,
            ));
        }
        if let GameEvent::GainPoint(p) = events[i] {
            match p {
                Player::Player1 => totals.player1 = totals.player1 + 1,
                Player::Player2 => totals.player2 = totals.player2 + 1,
            }
            updates.push(ScoreUpdate { player: p, value: totals.get(p) });
        }
        assert(totals.count(Player::Player1) == start.count(Player::Player1) + gain_count(
            next,
            Player::Player1,
        ));
        assert(totals.count(Player::Player2) == start.count(Player::Player2) + gain_count(
            next,
            Player::Player2,
        ));
        i += 1;
    }
    assert(events@.subrange(0, events@.len() as int) =~= events@);
    updates
}

proof fn lemma_gain_count_concat(a: Seq<GameEvent>, b: Seq<GameEvent>, p: Player)
    ensures
        gain_count(a + b, p) == gain_count(a, p) + gain_count(b, p),
    decreases b.len(),
{
    if b.len() == 0 {
        assert(a + b =~= a);
    } else {
        assert((a + b).drop_last() =~= a + b.drop_last());
        lemma_gain_count_concat(a, b.drop_last(), p);
    }
}

/// Over any run of frames starting from a new score, each player's score is
/// the number of that player's points processed so far.
pub proof fn lemma_score_counts_points(frames: Seq<Seq<GameEvent>>, p: Player)
    ensures
        points_over_frames(frames, p) == gain_count(frames.flatten(), p),
    decreases frames.len(),
{
    frames.lemma_flatten_and_flatten_alt_are_equivalent();
    if frames.len() > 0 {
        let rest = frames.drop_last();
        rest.lemma_flatten_and_flatten_alt_are_equivalent();
        lemma_score_counts_points(rest, p);
        lemma_gain_count_concat(rest.flatten(), frames.last(), p);
    }
}

} // verus!
