use pong::ball::{reset_ball, BallState};
use pong::events::{ball_hit, detect_reset, Contact, GameEvent};
use pong::input::{Input, Key};
use pong::layout::{ball_spawn, borders, Border};
use pong::paddle::{move_paddle, Paddle, PaddleState, PADDLE_MAX_Y, PADDLE_MIN_Y};
use pong::player::{Colour, Player, Position, Velocity, UNIT};
use pong::score::{score, Score, ScoreUpdate};

fn keys(held: &[Key], just: &[Key]) -> Input {
    Input { held: held.to_vec(), just_pressed: just.to_vec() }
}

fn left_paddle() -> Paddle {
    Paddle { move_up: Key::KeyW, move_down: Key::KeyS }
}

const ORIGIN: Position = Position { x: 0, y: 0, z: 0 };

#[test]
fn paddle_moves_at_speed() {
    let p = left_paddle();
    // 100 units per second for a sixtieth of a second (16_667 us).
    assert_eq!(p.moved(0, &keys(&[Key::KeyW], &[]), 16_667), 1_666_700);
    assert_eq!(p.moved(0, &keys(&[Key::KeyS], &[]), 16_667), -1_666_700);
    assert_eq!(p.moved(5 * UNIT, &keys(&[], &[]), 16_667), 5 * UNIT);
    // Keys of the other paddle do not move this one.
    assert_eq!(p.moved(0, &keys(&[Key::ArrowUp, Key::ArrowDown], &[]), 16_667), 0);
}

#[test]
fn paddle_up_is_clamped_at_top() {
    let p = left_paddle();
    let input = keys(&[Key::KeyW], &[]);
    let mut y: i64 = 0;
    for _ in 0..400 {
        y = p.moved(y, &input, 16_667);
        assert!(y <= 285 * UNIT);
    }
    assert_eq!(y, PADDLE_MAX_Y);
    assert_eq!(PADDLE_MAX_Y, 285 * UNIT);
}

#[test]
fn paddle_down_is_clamped_at_bottom() {
    let p = left_paddle();
    let input = keys(&[Key::KeyS], &[]);
    let mut y: i64 = 0;
    for _ in 0..400 {
        y = p.moved(y, &input, 16_667);
        assert!(y >= -285 * UNIT);
    }
    assert_eq!(y, PADDLE_MIN_Y);
    assert_eq!(PADDLE_MIN_Y, -285 * UNIT);
}

#[test]
fn paddle_both_keys_clamp_in_order() {
    let p = left_paddle();
    let input = keys(&[Key::KeyS, Key::KeyW], &[]);
    // Up to 290, clamped to 285, then down by 10 to 275.
    assert_eq!(p.moved(280 * UNIT, &input, 100_000), 275 * UNIT);
    // Away from the edges the two moves cancel.
    assert_eq!(p.moved(0, &input, 100_000), 0);
}

#[test]
fn paddle_long_frame_does_not_overflow() {
    let p = left_paddle();
    assert_eq!(p.moved(i64::MAX, &keys(&[Key::KeyW], &[]), u32::MAX), PADDLE_MAX_Y);
    assert_eq!(p.moved(i64::MIN, &keys(&[Key::KeyS], &[]), u32::MAX), PADDLE_MIN_Y);
}

#[test]
fn move_paddle_moves_each_paddle_by_its_keys() {
    let right = Paddle { move_up: Key::ArrowUp, move_down: Key::ArrowDown };
    let mut paddles = vec![
        PaddleState { paddle: left_paddle(), y: 0 },
        PaddleState { paddle: right, y: 10 * UNIT },
    ];
    move_paddle(&mut paddles, &keys(&[Key::KeyW, Key::ArrowDown], &[]), 500_000);
    assert_eq!(paddles[0], PaddleState { paddle: left_paddle(), y: 50 * UNIT });
    assert_eq!(paddles[1], PaddleState { paddle: right, y: -40 * UNIT });
}

#[test]
fn input_reports_keys() {
    let input = keys(&[Key::KeyW], &[Key::Space]);
    assert!(input.pressed(Key::KeyW));
    assert!(!input.pressed(Key::KeyS));
    assert!(input.just_pressed(Key::Space));
    assert!(!input.just_pressed(Key::KeyW));
}

#[test]
fn serve_vectors_and_colours() {
    assert_eq!(Player::Player1.start_speed(), Velocity { x: 100 * UNIT, y: 0 });
    assert_eq!(Player::Player2.start_speed(), Velocity { x: -100 * UNIT, y: 0 });
    assert_eq!(Player::Player1.get_colour(), Colour::Red);
    assert_eq!(Player::Player2.get_colour(), Colour::Green);
}

#[test]
fn reset_serves_from_origin() {
    let one = reset_ball(&vec![GameEvent::ResetBall(Player::Player1)]);
    assert_eq!(one, Some(BallState { position: ORIGIN, velocity: Velocity { x: 100 * UNIT, y: 0 } }));
    let two = reset_ball(&vec![GameEvent::ResetBall(Player::Player2)]);
    assert_eq!(two, Some(BallState { position: ORIGIN, velocity: Velocity { x: -100 * UNIT, y: 0 } }));
    let twice = reset_ball(&vec![GameEvent::ResetBall(Player::Player1), GameEvent::ResetBall(Player::Player1)]);
    assert_eq!(twice, one);
}

#[test]
fn last_reset_wins() {
    let events = vec![GameEvent::ResetBall(Player::Player1), GameEvent::ResetBall(Player::Player2)];
    let r = reset_ball(&events).unwrap();
    assert_eq!(r.velocity, Velocity { x: -100 * UNIT, y: 0 });
    assert_eq!(r.position, ORIGIN);
    let with_point = vec![
        GameEvent::ResetBall(Player::Player2),
        GameEvent::ResetBall(Player::Player1),
        GameEvent::GainPoint(Player::Player2),
    ];
    assert_eq!(reset_ball(&with_point).unwrap().velocity, Velocity { x: 100 * UNIT, y: 0 });
}

#[test]
fn no_reset_leaves_ball() {
    assert_eq!(reset_ball(&vec![]), None);
    assert_eq!(reset_ball(&vec![GameEvent::GainPoint(Player::Player1)]), None);
}

#[test]
fn score_counts_points_per_player() {
    let mut s = Score::new();
    assert_eq!((s.get(Player::Player1), s.get(Player::Player2)), (0, 0));
    let frames = vec![
        vec![GameEvent::ResetBall(Player::Player1), GameEvent::GainPoint(Player::Player1)],
        vec![],
        vec![GameEvent::GainPoint(Player::Player2), GameEvent::GainPoint(Player::Player1)],
        vec![GameEvent::ResetBall(Player::Player2)],
        vec![GameEvent::GainPoint(Player::Player1)],
    ];
    let mut expected = (0u64, 0u64);
    for frame in &frames {
        score(&mut s, frame);
        for e in frame {
            match e {
                GameEvent::GainPoint(Player::Player1) => expected.0 += 1,
                GameEvent::GainPoint(Player::Player2) => expected.1 += 1,
                _ => {}
            }
        }
        assert_eq!((s.get(Player::Player1), s.get(Player::Player2)), expected);
    }
    assert_eq!(expected, (3, 1));
}

#[test]
fn score_yields_display_values() {
    let mut s = Score { player1: 4, player2: 7 };
    let events = vec![
        GameEvent::GainPoint(Player::Player2),
        GameEvent::ResetBall(Player::Player2),
        GameEvent::GainPoint(Player::Player2),
        GameEvent::GainPoint(Player::Player1),
    ];
    let updates = score(&mut s, &events);
    assert_eq!(
        updates,
        vec![
            ScoreUpdate { player: Player::Player2, value: 8 },
            ScoreUpdate { player: Player::Player2, value: 9 },
            ScoreUpdate { player: Player::Player1, value: 5 },
        ]
    );
    assert_eq!(s, Score { player1: 5, player2: 9 });
}

#[test]
fn goal_sensor_scores_and_resets() {
    let mut events = Vec::new();
    detect_reset(&keys(&[], &[]), &vec![Contact::Other, Contact::Goal(Player::Player1)], &mut events);
    assert_eq!(events, vec![GameEvent::ResetBall(Player::Player1), GameEvent::GainPoint(Player::Player1)]);
    let mut s = Score::new();
    score(&mut s, &events);
    assert_eq!(s.get(Player::Player1), 1);
    assert_eq!(s.get(Player::Player2), 0);
    let ball = reset_ball(&events).unwrap();
    assert_eq!(ball.position, ORIGIN);
    assert_eq!(ball.velocity, Velocity { x: 100 * UNIT, y: 0 });
}

#[test]
fn manual_reset_suppresses_goals() {
    let mut events = Vec::new();
    detect_reset(
        &keys(&[], &[Key::Space]),
        &vec![Contact::Goal(Player::Player2), Contact::Paddle(Player::Player1)],
        &mut events,
    );
    assert_eq!(events, vec![GameEvent::ResetBall(Player::Player1)]);
    let mut s = Score::new();
    assert!(score(&mut s, &events).is_empty());
    assert_eq!(s, Score::new());
    // A held, not freshly pressed, reset key does nothing.
    let mut held = Vec::new();
    detect_reset(&keys(&[Key::Space], &[]), &vec![], &mut held);
    assert!(held.is_empty());
}

#[test]
fn every_touching_sensor_raises_events() {
    let mut events = vec![GameEvent::GainPoint(Player::Player2)];
    let touching = vec![Contact::Goal(Player::Player2), Contact::Other, Contact::Goal(Player::Player1)];
    detect_reset(&keys(&[], &[]), &touching, &mut events);
    assert_eq!(
        events,
        vec![
            GameEvent::GainPoint(Player::Player2),
            GameEvent::ResetBall(Player::Player2),
            GameEvent::GainPoint(Player::Player2),
            GameEvent::ResetBall(Player::Player1),
            GameEvent::GainPoint(Player::Player1),
        ]
    );
    assert_eq!(reset_ball(&events).unwrap().velocity, Velocity { x: 100 * UNIT, y: 0 });
}

#[test]
fn paddle_hit_recolours_without_events() {
    let touching = vec![Contact::Paddle(Player::Player2)];
    assert_eq!(ball_hit(&touching), Some(Colour::Green));
    let mut events = Vec::new();
    detect_reset(&keys(&[], &[]), &touching, &mut events);
    assert!(events.is_empty());
    let first_wins = vec![Contact::Other, Contact::Paddle(Player::Player1), Contact::Paddle(Player::Player2)];
    assert_eq!(ball_hit(&first_wins), Some(Colour::Red));
    assert_eq!(ball_hit(&vec![Contact::Other, Contact::Goal(Player::Player1)]), None);
    assert_eq!(ball_hit(&vec![]), None);
}

#[test]
fn field_layout() {
    let b = borders();
    assert_eq!(b.len(), 4);
    assert_eq!(
        b[0],
        Border { centre: Position { x: 0, y: 360 * UNIT, z: 0 }, half_width: 640 * UNIT, half_height: 3 * UNIT, goal: None }
    );
    assert_eq!(b[1].centre, Position { x: 0, y: -360 * UNIT, z: 0 });
    assert_eq!(b[1].goal, None);
    assert_eq!(
        b[2],
        Border {
            centre: Position { x: 640 * UNIT, y: 0, z: 0 },
            half_width: 3 * UNIT,
            half_height: 360 * UNIT,
            goal: Some(Player::Player1),
        }
    );
    assert_eq!(b[3].centre, Position { x: -640 * UNIT, y: 0, z: 0 });
    assert_eq!(b[3].goal, Some(Player::Player2));
}

#[test]
fn start_positions() {
    let one = Player::Player1.paddle_spawn();
    assert_eq!(one.paddle, left_paddle());
    assert_eq!(one.centre, Position { x: -620 * UNIT, y: 0, z: 0 });
    assert_eq!((one.half_width, one.half_height), (5 * UNIT, 75 * UNIT));
    assert_eq!(one.colour, Colour::Red);
    let two = Player::Player2.paddle_spawn();
    assert_eq!(two.paddle, Paddle { move_up: Key::ArrowUp, move_down: Key::ArrowDown });
    assert_eq!(two.centre, Position { x: 620 * UNIT, y: 0, z: 0 });
    assert_eq!(two.colour, Colour::Green);
    assert_eq!(two.owner, Player::Player2);
    let ball = ball_spawn();
    assert_eq!(ball.state.position, Position { x: -300 * UNIT, y: 0, z: UNIT });
    assert_eq!(ball.state.velocity, Velocity { x: 100 * UNIT, y: 0 });
    assert_eq!(ball.radius, 25 * UNIT);
    assert_eq!(ball.colour, Colour::White);
}
