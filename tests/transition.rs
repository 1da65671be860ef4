use pong_logic::{
    chaos, draw_offset, perturb, Jitter, ReplayError, SpecialEvent, State, ThreadJitter, BASE_BALL_SPEED, BASE_HEIGHT,
    BASE_WIDTH, MAX_LIVES, PADDLE_WIDTH,
};

/// Always draws no offset.
struct ZeroJitter;

impl Jitter for ZeroJitter {
    fn offset(&mut self, _bound: i32) -> i32 {
        0
    }
}

/// Always draws the largest offset allowed.
struct HighJitter;

impl Jitter for HighJitter {
    fn offset(&mut self, bound: i32) -> i32 {
        bound
    }
}

/// Always draws the smallest offset allowed.
struct LowJitter;

impl Jitter for LowJitter {
    fn offset(&mut self, bound: i32) -> i32 {
        -bound
    }
}

fn state(ball_x: i32, ball_y: i32, ball_x_speed: i32, ball_y_speed: i32) -> State {
    State {
        p1_paddle: 300,
        p2_paddle: 300,
        p1_lives: 5,
        p2_lives: 5,
        ball_x_speed,
        ball_y_speed,
        ball_x,
        ball_y,
        step: 10,
        last_special_event: None,
    }
}

#[test]
fn initial_state_is_centred() {
    for _ in 0..50 {
        let s = State::new();
        assert_eq!(s.p1_lives, 5);
        assert_eq!(s.p2_lives, 5);
        assert_eq!(s.step, 0);
        assert_eq!(s.ball_x, BASE_WIDTH / 2);
        assert_eq!(s.ball_y, BASE_HEIGHT / 2);
        assert_eq!(s.ball_x_speed, 6);
        assert_eq!(s.ball_y_speed, 6);
        assert_eq!(s.last_special_event, None);
        assert!(240 <= s.p1_paddle && s.p1_paddle <= 360);
        assert!(240 <= s.p2_paddle && s.p2_paddle <= 360);
    }
}

#[test]
fn initial_state_with_extreme_jitter() {
    let high = State::new_with(&mut HighJitter);
    assert_eq!(high.p1_paddle, 360);
    assert_eq!(high.p2_paddle, 360);
    let low = State::new_with(&mut LowJitter);
    assert_eq!(low.p1_paddle, 240);
    assert_eq!(low.p2_paddle, 240);
    assert_eq!(low.p1_lives, MAX_LIVES);
}

#[test]
fn base_speed_is_six() {
    assert_eq!(State::base_ball_speed(), 6);
    assert_eq!(BASE_BALL_SPEED, 6);
}

#[test]
fn chaos_keeps_small_values() {
    for v in -2..=2 {
        assert_eq!(chaos(&mut HighJitter, v), v);
        assert_eq!(chaos(&mut LowJitter, v), v);
    }
    assert_eq!(chaos(&mut HighJitter, 4), 4);
    assert_eq!(chaos(&mut HighJitter, -4), -4);
}

#[test]
fn chaos_moves_by_a_fifth_at_most() {
    assert_eq!(chaos(&mut ZeroJitter, 100), 100);
    assert_eq!(chaos(&mut HighJitter, 100), 120);
    assert_eq!(chaos(&mut LowJitter, 100), 80);
    assert_eq!(chaos(&mut HighJitter, -100), -80);
    assert_eq!(chaos(&mut LowJitter, -100), -120);
    assert_eq!(chaos(&mut HighJitter, 9), 10);
    assert_eq!(chaos(&mut HighJitter, 6), 7);
    for _ in 0..200 {
        let r = chaos(&mut ThreadJitter, 300);
        assert!(240 <= r && r <= 360);
        let r = chaos(&mut ThreadJitter, -6);
        assert!(-7 <= r && r <= -5);
    }
}

#[test]
fn thread_jitter_varies() {
    let mut seen_other = false;
    for _ in 0..100 {
        let r = ThreadJitter.offset(10);
        assert!(-10 <= r && r <= 10);
        if r != 10 {
            seen_other = true;
        }
    }
    assert!(seen_other);
}

#[test]
fn paddles_stay_on_field() {
    let s = state(600, 300, 6, 6);
    let up = s.next_state(i32::MIN, i32::MIN);
    assert_eq!(up.p1_paddle, 0);
    assert_eq!(up.p2_paddle, 0);
    let down = s.next_state(i32::MAX, 250);
    assert_eq!(down.p1_paddle, BASE_HEIGHT);
    assert_eq!(down.p2_paddle, 550);
    let near = s.next_state(-40, 301);
    assert_eq!(near.p1_paddle, 260);
    assert_eq!(near.p2_paddle, BASE_HEIGHT);
}

#[test]
fn step_counts_up() {
    let s = state(600, 300, 6, 6);
    let t = s.next_state(0, 0);
    assert_eq!(t.step, 11);
    let u = t.next_state(5, -5);
    assert_eq!(u.step, 12);
    assert_eq!(s.step, 10);
}

#[test]
fn quiet_step_moves_the_ball() {
    let s = State {
        last_special_event: Some(SpecialEvent::EdgeCollision),
        ..state(600, 300, 6, -4)
    };
    let t = s.next_state(3, -3);
    assert_eq!(t.last_special_event, None);
    assert_eq!(t.ball_x, 606);
    assert_eq!(t.ball_y, 296);
    assert_eq!(t.ball_x_speed, 6);
    assert_eq!(t.ball_y_speed, -4);
    assert_eq!(t.p1_lives, 5);
    assert_eq!(t.p2_lives, 5);
    assert_eq!(t.p1_paddle, 303);
    assert_eq!(t.p2_paddle, 297);
}

#[test]
fn top_edge_bounce() {
    let s = state(600, 5, 6, -6);
    let t = s.next_state_with(&mut ZeroJitter, 0, 0);
    assert_eq!(t.last_special_event, Some(SpecialEvent::EdgeCollision));
    assert_eq!(t.ball_y, 0);
    assert_eq!(t.ball_x, 606);
    assert_eq!(t.ball_y_speed, 6);
    assert_eq!(t.ball_x_speed, 6);
    for _ in 0..50 {
        let r = s.next_state(0, 0);
        assert_eq!(r.last_special_event, Some(SpecialEvent::EdgeCollision));
        assert_eq!(r.ball_y, 0);
        assert!(5 <= r.ball_y_speed && r.ball_y_speed <= 7);
        assert!(5 <= r.ball_x_speed && r.ball_x_speed <= 7);
    }
}

#[test]
fn bottom_edge_bounce() {
    let s = state(600, 598, 6, 6);
    let t = s.next_state_with(&mut HighJitter, 0, 0);
    assert_eq!(t.last_special_event, Some(SpecialEvent::EdgeCollision));
    assert_eq!(t.ball_y, BASE_HEIGHT);
    assert_eq!(t.ball_y_speed, -5);
    assert_eq!(t.ball_x_speed, 7);
}

#[test]
fn left_exit_costs_player_one() {
    let s = State {
        p1_paddle: 0,
        ..state(8, 300, -6, 6)
    };
    for _ in 0..50 {
        let t = s.next_state(0, 0);
        assert_eq!(t.last_special_event, Some(SpecialEvent::PlayerDie));
        assert_eq!(t.p1_lives, 4);
        assert_eq!(t.p2_lives, 5);
        assert!(480 <= t.ball_x && t.ball_x <= 720);
        assert!(240 <= t.ball_y && t.ball_y <= 360);
        assert_eq!(t.ball_x_speed, 6);
        assert_eq!(t.ball_y_speed, 6);
    }
    let exact = s.next_state_with(&mut LowJitter, 0, 0);
    assert_eq!(exact.ball_x, 480);
    assert_eq!(exact.ball_y, 240);
}

#[test]
fn right_exit_costs_player_two() {
    let s = State {
        p2_paddle: 0,
        ..state(1198, 300, 6, 6)
    };
    let t = s.next_state_with(&mut ZeroJitter, 0, 0);
    assert_eq!(t.last_special_event, Some(SpecialEvent::PlayerDie));
    assert_eq!(t.p1_lives, 5);
    assert_eq!(t.p2_lives, 4);
    assert_eq!(t.ball_x, 600);
    assert_eq!(t.ball_y, 300);
}

#[test]
fn lives_may_go_negative() {
    let s = State {
        p1_paddle: 0,
        p1_lives: 0,
        ..state(8, 300, -6, 6)
    };
    let t = s.next_state(0, 0);
    assert_eq!(t.p1_lives, -1);
}

#[test]
fn right_paddle_saves_the_ball() {
    let s = state(1175, 300, 6, 6);
    let t = s.next_state_with(&mut ZeroJitter, 0, 0);
    assert_eq!(t.last_special_event, Some(SpecialEvent::PaddleCollision));
    assert_eq!(t.ball_x, BASE_WIDTH - 2 * PADDLE_WIDTH);
    assert_eq!(t.ball_x_speed, -6);
    assert_eq!(t.ball_y_speed, 6);
    assert_eq!(t.ball_y, 306);
    for _ in 0..50 {
        let r = s.next_state(0, 0);
        assert_eq!(r.last_special_event, Some(SpecialEvent::PaddleCollision));
        assert_eq!(r.ball_x, 1180);
        assert!(-7 <= r.ball_x_speed && r.ball_x_speed <= -5);
    }
}

#[test]
fn left_paddle_saves_the_ball() {
    let s = state(25, 280, -6, 6);
    let t = s.next_state_with(&mut HighJitter, 0, 0);
    assert_eq!(t.last_special_event, Some(SpecialEvent::PaddleCollision));
    assert_eq!(t.ball_x, 2 * PADDLE_WIDTH);
    assert_eq!(t.ball_x_speed, 7);
    assert_eq!(t.ball_y_speed, 7);
}

#[test]
fn paddle_takes_priority_over_edge() {
    let s = State {
        p2_paddle: 0,
        ..state(1175, 3, 6, -6)
    };
    let t = s.next_state_with(&mut ZeroJitter, 0, 0);
    assert_eq!(t.last_special_event, Some(SpecialEvent::PaddleCollision));
    assert_eq!(t.ball_y, -3);
}

#[test]
fn single_replay_matches_one_step() {
    let s = state(1175, 300, 6, 6);
    let replayed = s.final_state_with(&mut ZeroJitter, vec![4], vec![-7]);
    let direct = s.next_state_with(&mut ZeroJitter, 4, -7);
    assert_eq!(replayed, Ok(direct));
}

#[test]
fn replay_folds_every_step() {
    let s = state(600, 300, 6, 6);
    let moves_a = vec![1, 2, 3, -4, 100];
    let moves_b = vec![0, -1, 50, 7, -600];
    let mut expected = s;
    for i in 0..moves_a.len() {
        expected = expected.next_state_with(&mut ZeroJitter, moves_a[i], moves_b[i]);
    }
    let replayed = s.final_state_with(&mut ZeroJitter, moves_a, moves_b);
    assert_eq!(replayed, Ok(expected));
    assert_eq!(expected.step, 15);
    let empty = s.final_state(vec![], vec![]);
    assert_eq!(empty, Ok(s));
}

#[test]
fn replay_rejects_unequal_lengths() {
    let s = State::new();
    let before = s;
    assert_eq!(s.final_state(vec![1, 2], vec![1]), Err(ReplayError::LengthMismatch));
    assert_eq!(s.final_state(vec![], vec![3]), Err(ReplayError::LengthMismatch));
    assert_eq!(s, before);
}

#[test]
fn replay_stops_before_overflow() {
    let s = State {
        step: i32::MAX,
        ..state(600, 300, 6, 6)
    };
    assert!(!s.fits_next_step());
    assert_eq!(s.final_state(vec![0], vec![0]), Err(ReplayError::Overflow));
    let fine = state(600, 300, 6, 6);
    assert!(fine.fits_next_step());
    let fast = state(600, 300, i32::MAX, 6);
    assert!(!fast.fits_next_step());
}

#[test]
fn perturb_adds_the_offset() {
    assert_eq!(perturb(100, 20), 120);
    assert_eq!(perturb(100, -3), 97);
    assert_eq!(perturb(-6, 1), -5);
    assert_eq!(perturb(2, 0), 2);
    assert_eq!(perturb(-2, 0), -2);
}

#[test]
fn draw_offset_uses_a_fifth() {
    assert_eq!(draw_offset(&mut HighJitter, 100), 20);
    assert_eq!(draw_offset(&mut LowJitter, -100), -20);
    assert_eq!(draw_offset(&mut HighJitter, 2), 0);
    assert_eq!(draw_offset(&mut HighJitter, 4), 0);
}

#[test]
fn initial_state_from_offsets() {
    let s = State::new_from_offsets(-60, 17);
    assert_eq!(s.p1_paddle, 240);
    assert_eq!(s.p2_paddle, 317);
    assert_eq!(s.step, 0);
    assert_eq!(s.ball_x, 600);
}
