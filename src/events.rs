use vstd::prelude::*;
use crate::input::{Input, Key};
use crate::player::{player_colour, Colour, Player};

verus! {

/// A semantic event of one frame.
#[derive(Clone, Copy, Debug, PartialEq, Eq, Structural, Hash)]
pub enum GameEvent {
    /// Put the ball back at the centre, served by this player.
    ResetBall(Player),
    /// This player scored a point.
    GainPoint(Player),
}

/// What the ball is touching, as the physics engine reports it.
#[derive(Clone, Copy, Debug, PartialEq, Eq, Structural, Hash)]
pub enum Contact {
    /// The paddle of this player.
    Paddle(Player),
    /// The goal sensor tagged with this player.
    Goal(Player),
    /// A wall or anything else without a role in the rules.
    Other,
}

/// The owner of the first paddle in the touching list, if any.
pub open spec fn first_paddle(touching: Seq<Contact>) -> Option<Player>
    decreases touching.len(),
{
    if touching.len() == 0 {
        None
    } else {
        match touching[0] {
            Contact::Paddle(p) => Some(p),
            _ => first_paddle(touching.drop_first()),
        }
    }
}

/// The events that the goal sensors in the touching list raise: for each
/// sensor, in order, a reset served by the sensor's player and a point for
/// that player.
pub open spec fn goal_events(touching: Seq<Contact>) -> Seq<GameEvent>
    decreases touching.len(),
{
    if touching.len() == 0 {
        Seq::empty()
    } else {
        let prefix = goal_events(touching.drop_last());
        match touching.last() {
            Contact::Goal(p) => prefix.push(GameEvent::ResetBall(p)).push(GameEvent::GainPoint(p)),
            _ => prefix,
        }
    }
}

/// The events the classifier raises in one frame: a manual reset served by
/// the first player overrides every goal sensor.
pub open spec fn frame_events(input: &Input, touching: Seq<Contact>) -> Seq<GameEvent> {
    if input.is_just_pressed(Key::Space) {
        seq![GameEvent::ResetBall(Player::Player1)]
    } else {
        goal_events(touching)
    }
}

/// The colour the ball takes from the paddles it touches this frame, or
/// `None` when it touches no paddle.
pub fn ball_hit(touching: &Vec<Contact>) -> (r: Option<Colour>)
    ensures
        r == match first_paddle(touching@) {
            Some(p) => Some(player_colour(p)),
            None => None::<Colour>,
        },
{
    let mut i: usize = 0;
    assert(touching@.subrange(0, touching@.len() as int) =~= touching@);
    while i < touching.len()
        invariant
            i <= touching@.len(),
            first_paddle(touching@) == first_paddle(touching@.subrange(i as int, touching@.len() as int)),
        decreases touching.len() - i,
    {
        let ghost rest = touching@.subrange(i as int, touching@.len() as int);
        assert(rest.drop_first() =~= touching@.subrange(i + 1, touching@.len() as int));
        if let Contact::Paddle(p) = touching[i] {
            return Some(p.get_colour());
        }
        i += 1;
    }
    assert(touching@.subrange(i as int, touching@.len() as int) =~= Seq::<Contact>::empty());
    None
}

/// Classifies one frame: appends to `events` a manual reset when the reset
/// key went down, and otherwise the reset and the point of every goal sensor
/// the ball touches.
pub fn detect_reset(input: &Input, touching: &Vec<Contact>, events: &mut Vec<GameEvent>)
    ensures
        final(events)@ == old(events)@ + frame_events(input, touching@),
{
    if input.just_pressed(Key::Space) {
        events.push(GameEvent::ResetBall(Player::Player1));
        return;
    }
    let mut i: usize = 0;
    while i < touching.len()
        invariant
            i <= touching@.len(),
            events@ == old(events)@ + goal_events(touching@.subrange(0, i as int)),
        decreases touching.len() - i,
    {
        assert(touching@.subrange(0, i + 1).drop_last() =~= touching@.subrange(0, i as int));
        if let Contact::Goal(p) = touching[i] {
            events.push(GameEvent::ResetBall(p));
            events.push(GameEvent::GainPoint(p));
        }
        i += 1;
    }
    assert(touching@.subrange(0, touching@.len() as int) =~= touching@);
}

} // verus!
