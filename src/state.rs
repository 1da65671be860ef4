//! The state of a match and its single-step transition.

use vstd::prelude::*;

use crate::jitter::{
    chaos, chaos_fits, chaos_ok, draw_offset, magnitude, perturb, Jitter, ThreadJitter,
};

verus! {

/// Scale from a ball speed to its displacement over one step.
pub const BALL_DELTA_PER_STEP: i32 = 1;

/// Height of a paddle.
pub const PADDLE_HEIGHT: i32 = 100;

/// Width of a paddle.
pub const PADDLE_WIDTH: i32 = 10;

/// Width of the field.
pub const BASE_WIDTH: i32 = 1200;

/// Height of the field.
pub const BASE_HEIGHT: i32 = 600;

/// Radius of the ball.
pub const BALL_RADIUS: i32 = 10;

/// Lives each player starts with.
pub const MAX_LIVES: i32 = 5;

/// Delay between two steps, for the loop that drives the match.
pub const TICK_DELAY: i32 = 10;

/// Speed of the ball on both axes at the start and after a player loses a life.
pub const BASE_BALL_SPEED: i32 = 6;

/// A ball whose x-position is at most this value has left the field on the left.
pub const LEFT_EXIT: i32 = 5;

/// The event that marked a step.
#[derive(Clone, Copy, Debug, PartialEq, Eq)]
pub enum SpecialEvent {
    /// The ball was saved by a paddle.
    PaddleCollision,
    /// The ball bounced off the top or the bottom of the field.
    EdgeCollision,
    /// The ball left the field on one side, and that side's player lost a life.
    PlayerDie,
}

/// One instant of a match.
#[derive(Clone, Copy, Debug, PartialEq, Eq)]
pub struct State {
    pub p1_paddle: i32,
    pub p2_paddle: i32,
    pub p1_lives: i32,
    pub p2_lives: i32,
    pub ball_x_speed: i32,
    pub ball_y_speed: i32,
    pub ball_x: i32,
    pub ball_y: i32,
    pub step: i32,
    pub last_special_event: Option<SpecialEvent>,
}

/// `x` brought into `[lo, hi]`.
pub open spec fn clamp(x: int, lo: int, hi: int) -> int {
    if x < lo {
        lo
    } else if x > hi {
        hi
    } else {
        x
    }
}

/// `x` lies in the range of `i32`.
pub open spec fn fits_i32(x: int) -> bool {
    i32::MIN <= x <= i32::MAX
}

impl State {
    /// Player one's paddle after moving by `d1`.
    pub open spec fn moved_p1(self, d1: int) -> int {
        clamp(self.p1_paddle + d1, 0, BASE_HEIGHT as int)
    }

    /// Player two's paddle after moving by `d2`.
    pub open spec fn moved_p2(self, d2: int) -> int {
        clamp(self.p2_paddle + d2, 0, BASE_HEIGHT as int)
    }

    /// The ball's x-position after one step of its speed.
    pub open spec fn moved_x(self) -> int {
        self.ball_x + self.ball_x_speed * BALL_DELTA_PER_STEP
    }

    /// The ball's y-position after one step of its speed.
    pub open spec fn moved_y(self) -> int {
        self.ball_y + self.ball_y_speed * BALL_DELTA_PER_STEP
    }

    /// The moved ball reaches player one's paddle.
    pub open spec fn hits_left(self, d1: int) -> bool {
        self.moved_x() - BALL_RADIUS < PADDLE_WIDTH
            && magnitude(self.moved_y() - self.moved_p1(d1)) * 2 < PADDLE_HEIGHT
    }

    /// The moved ball reaches player two's paddle.
    pub open spec fn hits_right(self, d2: int) -> bool {
        self.moved_x() + BALL_RADIUS > BASE_WIDTH - PADDLE_WIDTH
            && magnitude(self.moved_y() - self.moved_p2(d2)) * 2 < PADDLE_HEIGHT
    }

    /// The moved ball is above the top of the field.
    pub open spec fn hits_top(self) -> bool {
        self.moved_y() < 0
    }

    /// The moved ball is below the bottom of the field.
    pub open spec fn hits_bottom(self) -> bool {
        self.moved_y() > BASE_HEIGHT
    }

    /// The moved ball has left the field on player one's side.
    pub open spec fn exits_left(self) -> bool {
        self.moved_x() <= LEFT_EXIT
    }

    /// The moved ball has left the field on player two's side.
    pub open spec fn exits_right(self) -> bool {
        self.moved_x() > BASE_WIDTH
    }

    /// The event of the step from `self` with moves `d1` and `d2`; the rules
    /// are tried in order and the first that applies decides.
    pub open spec fn event_of(self, d1: int, d2: int) -> Option<SpecialEvent> {
        if self.hits_left(d1) || self.hits_right(d2) {
            Some(SpecialEvent::PaddleCollision)
        } else if self.hits_top() || self.hits_bottom() {
            Some(SpecialEvent::EdgeCollision)
        } else if self.exits_left() || self.exits_right() {
            Some(SpecialEvent::PlayerDie)
        } else {
            None
        }
    }

    /// `t` is a possible outcome of the step from `self` with paddle moves
    /// `d1` and `d2`.
    pub open spec fn is_next(self, d1: int, d2: int, t: State) -> bool {
        &&& t.step == self.step + 1
        &&& t.p1_paddle == self.moved_p1(d1)
        &&& t.p2_paddle == self.moved_p2(d2)
        &&& t.last_special_event == self.event_of(d1, d2)
        &&& match self.event_of(d1, d2) {
            Some(SpecialEvent::PaddleCollision) => {
                &&& t.ball_x == (if self.hits_left(d1) {
                    2 * PADDLE_WIDTH
                } else {
                    BASE_WIDTH - 2 * PADDLE_WIDTH
                })
                &&& t.ball_y == self.moved_y()
                &&& chaos_ok(-self.ball_x_speed, t.ball_x_speed as int)
                &&& chaos_ok(self.ball_y_speed as int, t.ball_y_speed as int)
                &&& t.p1_lives == self.p1_lives
                &&& t.p2_lives == self.p2_lives
            },
            Some(SpecialEvent::EdgeCollision) => {
                &&& t.ball_x == self.moved_x()
                &&& t.ball_y == (if self.hits_top() {
                    0
                } else {
                    BASE_HEIGHT
                })
                &&& chaos_ok(self.ball_x_speed as int, t.ball_x_speed as int)
                &&& chaos_ok(-self.ball_y_speed, t.ball_y_speed as int)
                &&& t.p1_lives == self.p1_lives
                &&& t.p2_lives == self.p2_lives
            },
            Some(SpecialEvent::PlayerDie) => {
                &&& chaos_ok(BASE_WIDTH / 2, t.ball_x as int)
                &&& chaos_ok(BASE_HEIGHT / 2, t.ball_y as int)
                &&& t.ball_x_speed == BASE_BALL_SPEED
                &&& t.ball_y_speed == BASE_BALL_SPEED
                &&& t.p1_lives == (if self.exits_left() {
                    self.p1_lives - 1
                } else {
                    self.p1_lives as int
                })
                &&& t.p2_lives == (if self.exits_left() {
                    self.p2_lives as int
                } else {
                    self.p2_lives - 1
                })
            },
            None => {
                &&& t.ball_x == self.moved_x()
                &&& t.ball_y == self.moved_y()
                &&& t.ball_x_speed == self.ball_x_speed
                &&& t.ball_y_speed == self.ball_y_speed
                &&& t.p1_lives == self.p1_lives
                &&& t.p2_lives == self.p2_lives
            },
        }
    }

    /// Every outcome of a step from `self` fits the `i32` fields.
    pub open spec fn advance_fits(self) -> bool {
        &&& self.step < i32::MAX
        &&& self.p1_lives > i32::MIN
        &&& self.p2_lives > i32::MIN
        &&& fits_i32(self.moved_x())
        &&& fits_i32(self.moved_y())
        &&& chaos_fits(self.ball_x_speed as int)
        &&& chaos_fits(self.ball_y_speed as int)
    }

    /// `s` is a possible starting state of a match.
    pub open spec fn is_initial(s: State) -> bool {
        &&& chaos_ok(BASE_HEIGHT / 2, s.p1_paddle as int)
        &&& chaos_ok(BASE_HEIGHT / 2, s.p2_paddle as int)
        &&& s.p1_lives == MAX_LIVES
        &&& s.p2_lives == MAX_LIVES
        &&& s.ball_x_speed == BASE_BALL_SPEED
        &&& s.ball_y_speed == BASE_BALL_SPEED
        &&& s.ball_x == BASE_WIDTH / 2
        &&& s.ball_y == BASE_HEIGHT / 2
        &&& s.step == 0
        &&& s.last_special_event == None::<SpecialEvent>
    }
}

impl State {
    /// Speed of the ball on both axes at the start and after a player loses
    /// a life.
    pub fn base_ball_speed() -> (r: i32)
        ensures
            r == BASE_BALL_SPEED,
    {
        BASE_BALL_SPEED
    }

    /// The starting state of a match, with each paddle moved from the middle
    /// of the field by its drawn offset.
    pub fn new_from_offsets(p1_offset: i32, p2_offset: i32) -> (r: State)
        requires
            magnitude(p1_offset as int) <= (BASE_HEIGHT / 2) / 5,
            magnitude(p2_offset as int) <= (BASE_HEIGHT / 2) / 5,
        ensures
            r.p1_paddle == BASE_HEIGHT / 2 + p1_offset,
            r.p2_paddle == BASE_HEIGHT / 2 + p2_offset,
            State::is_initial(r),
    {
        State {
            p1_paddle: perturb(BASE_HEIGHT / 2, p1_offset),
            p2_paddle: perturb(BASE_HEIGHT / 2, p2_offset),
            p1_lives: MAX_LIVES,
            p2_lives: MAX_LIVES,
            ball_x_speed: State::base_ball_speed(),
            ball_y_speed: State::base_ball_speed(),
            ball_x: BASE_WIDTH / 2,
            ball_y: BASE_HEIGHT / 2,
            step: 0,
            last_special_event: None,
        }
    }

    /// The starting state of a match, with each paddle jittered around the
    /// middle of the field by one draw from `jitter`.
    pub fn new_with<J: Jitter>(jitter: &mut J) -> (r: State)
        ensures
            State::is_initial(r),
    {
        let p1_offset = draw_offset(jitter, BASE_HEIGHT / 2);
        let p2_offset = draw_offset(jitter, BASE_HEIGHT / 2);
        State::new_from_offsets(p1_offset, p2_offset)
    }

    /// The starting state of a match, jittered by the thread-local generator.
    pub fn new() -> (r: State)
        ensures
            State::is_initial(r),
    {
        State::new_with(&mut ThreadJitter)
    }

    /// Whether every outcome of a step from this state fits the `i32` fields.
    pub fn fits_next_step(&self) -> (r: bool)
        ensures
            r == self.advance_fits(),
    {
        let unit: i64 = BALL_DELTA_PER_STEP as i64;
        assert(unit == 1);
        let mx: i64 = self.ball_x as i64 + self.ball_x_speed as i64 * unit;
        let my: i64 = self.ball_y as i64 + self.ball_y_speed as i64 * unit;
        let vx: i64 = if self.ball_x_speed < 0 {
            -(self.ball_x_speed as i64)
        } else {
            self.ball_x_speed as i64
        };
        let vy: i64 = if self.ball_y_speed < 0 {
            -(self.ball_y_speed as i64)
        } else {
            self.ball_y_speed as i64
        };
        self.step < i32::MAX && self.p1_lives > i32::MIN && self.p2_lives > i32::MIN
            && i32::MIN as i64 <= mx && mx <= i32::MAX as i64
            && i32::MIN as i64 <= my && my <= i32::MAX as i64
            && vx + vx / 5 <= i32::MAX as i64 && vy + vy / 5 <= i32::MAX as i64
    }

    /// The state one step after this one, given the paddle moves of both
    /// players, with every perturbation drawn from `jitter`.
    pub fn next_state_with<J: Jitter>(&self, jitter: &mut J, p1_paddle_delta: i32, p2_paddle_delta: i32) -> (r: State)
        requires
            self.advance_fits(),
        ensures
            self.is_next(p1_paddle_delta as int, p2_paddle_delta as int, r),
    {
        let s0 = *self;
        let mut s1 = s0;
        s1.step = s0.step + 1;

        s1.p1_paddle = clamp_paddle(s0.p1_paddle, p1_paddle_delta);
        s1.p2_paddle = clamp_paddle(s0.p2_paddle, p2_paddle_delta);

        s1.ball_x = s0.ball_x + s0.ball_x_speed * BALL_DELTA_PER_STEP;
        s1.ball_y = s0.ball_y + s0.ball_y_speed * BALL_DELTA_PER_STEP;

        let left_collision = (s1.ball_x as i64) - (BALL_RADIUS as i64) < PADDLE_WIDTH as i64
            && distance(s1.ball_y, s1.p1_paddle) * 2 < PADDLE_HEIGHT as i64;
        let right_collision = (s1.ball_x as i64) + (BALL_RADIUS as i64) > (BASE_WIDTH - PADDLE_WIDTH) as i64
            && distance(s1.ball_y, s1.p2_paddle) * 2 < PADDLE_HEIGHT as i64;

        let top_collision = s1.ball_y < 0;
        let bottom_collision = s1.ball_y > BASE_HEIGHT;

        if left_collision || right_collision {
            s1.ball_x_speed = chaos(jitter, -s0.ball_x_speed);
            s1.ball_y_speed = chaos(jitter, s0.ball_y_speed);
            s1.last_special_event = Some(SpecialEvent::PaddleCollision);
            if left_collision {
                s1.ball_x = PADDLE_WIDTH * 2;
            } else {
                s1.ball_x = BASE_WIDTH - PADDLE_WIDTH * 2;
            }
        } else if top_collision || bottom_collision {
            s1.ball_y_speed = chaos(jitter, -s0.ball_y_speed);
            s1.ball_x_speed = chaos(jitter, s0.ball_x_speed);
            s1.last_special_event = Some(SpecialEvent::EdgeCollision);
            if top_collision {
                s1.ball_y = 0;
            } else {
                s1.ball_y = BASE_HEIGHT;
            }
        } else if s1.ball_x <= LEFT_EXIT || s1.ball_x > BASE_WIDTH {
            if s1.ball_x <= LEFT_EXIT {
                s1.p1_lives = s0.p1_lives - 1;
            } else {
                s1.p2_lives = s0.p2_lives - 1;
            }
            s1.ball_x = chaos(jitter, BASE_WIDTH / 2);
            s1.ball_y = chaos(jitter, BASE_HEIGHT / 2);
            s1.ball_x_speed = State::base_ball_speed();
            s1.ball_y_speed = State::base_ball_speed();
            s1.last_special_event = Some(SpecialEvent::PlayerDie);
        } else {
            s1.last_special_event = None;
        }
        s1
    }

    /// The state one step after this one, given the paddle moves of both
    /// players, perturbed by the thread-local generator.
    pub fn next_state(&self, p1_paddle_delta: i32, p2_paddle_delta: i32) -> (r: State)
        requires
            self.advance_fits(),
        ensures
            self.is_next(p1_paddle_delta as int, p2_paddle_delta as int, r),
    {
        self.next_state_with(&mut ThreadJitter, p1_paddle_delta, p2_paddle_delta)
    }
}

/// A paddle at `paddle` moved by `delta` and kept on the field.
fn clamp_paddle(paddle: i32, delta: i32) -> (r: i32)
    ensures
        r == clamp(paddle + delta, 0, BASE_HEIGHT as int),
{
    let moved: i64 = paddle as i64 + delta as i64;
    if moved < 0 {
        0
    } else if moved > BASE_HEIGHT as i64 {
        BASE_HEIGHT
    } else {
        moved as i32
    }
}

/// The distance between two coordinates.
fn distance(a: i32, b: i32) -> (r: i64)
    ensures
        r == magnitude(a - b),
{
    let d: i64 = a as i64 - b as i64;
    if d < 0 {
        -d
    } else {
        d
    }
}

} // verus!
