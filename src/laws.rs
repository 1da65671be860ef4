//! Properties that every step and every replay of a match satisfies.

use vstd::prelude::*;

use crate::jitter::magnitude;
use crate::replay::{is_run, is_trace, link, stalls};
use crate::state::{SpecialEvent, State, BASE_BALL_SPEED, BASE_HEIGHT, BASE_WIDTH};

verus! {

/// After any step, both paddles lie within `[0, BASE_HEIGHT]`, whatever the
/// moves were.
pub proof fn lemma_paddles_stay_on_field(s: State, d1: int, d2: int, t: State)
    requires
        s.is_next(d1, d2, t),
    ensures
        0 <= t.p1_paddle <= BASE_HEIGHT,
        0 <= t.p2_paddle <= BASE_HEIGHT,
{
}

/// Every step advances the step counter by exactly one.
pub proof fn lemma_step_counts_up(s: State, d1: int, d2: int, t: State)
    requires
        s.is_next(d1, d2, t),
    ensures
        t.step == s.step + 1,
{
}

/// A step in which the ball meets no paddle, no edge and no side exit marks
/// no event and leaves both players' lives as they were.
pub proof fn lemma_quiet_step(s: State, d1: int, d2: int, t: State)
    requires
        s.is_next(d1, d2, t),
        !s.hits_left(d1),
        !s.hits_right(d2),
        !s.hits_top(),
        !s.hits_bottom(),
        !s.exits_left(),
        !s.exits_right(),
    ensures
        t.last_special_event == None::<SpecialEvent>,
        t.p1_lives == s.p1_lives,
        t.p2_lives == s.p2_lives,
{
}

/// A ball that moves to one unit above the field, with no paddle in reach,
/// bounces off the top edge and is put back on it.
pub proof fn lemma_top_bounce(s: State, d1: int, d2: int, t: State)
    requires
        s.is_next(d1, d2, t),
        s.moved_y() == -1,
        !s.hits_left(d1),
        !s.hits_right(d2),
    ensures
        t.last_special_event == Some(SpecialEvent::EdgeCollision),
        t.ball_y == 0,
{
}

/// A ball that leaves the field on the left, with no paddle in reach and
/// within the top and bottom edges, costs player one a life, comes back
/// within a fifth of the centre on both axes, and moves at base speed.
pub proof fn lemma_left_exit(s: State, d1: int, d2: int, t: State)
    requires
        s.is_next(d1, d2, t),
        s.exits_left(),
        !s.hits_left(d1),
        !s.hits_right(d2),
        !s.hits_top(),
        !s.hits_bottom(),
    ensures
        t.last_special_event == Some(SpecialEvent::PlayerDie),
        t.p1_lives == s.p1_lives - 1,
        t.p2_lives == s.p2_lives,
        magnitude(t.ball_x - BASE_WIDTH / 2) <= (BASE_WIDTH / 2) / 5,
        magnitude(t.ball_y - BASE_HEIGHT / 2) <= (BASE_HEIGHT / 2) / 5,
        t.ball_x_speed == BASE_BALL_SPEED,
        t.ball_y_speed == BASE_BALL_SPEED,
{
}

/// Replaying a single pair of moves has exactly the outcomes of one step.
pub proof fn lemma_single_replay(s: State, d1: i32, d2: i32, t: State)
    ensures
        is_run(s, seq![d1], seq![d2], t) <==> s.is_next(d1 as int, d2 as int, t),
{
    let xs = seq![d1];
    let ys = seq![d2];
    assert(xs[0] == d1 && ys[0] == d2 && xs.len() == 1);
    if is_run(s, xs, ys, t) {
        let tr = choose|tr: Seq<State>|
            #[trigger] is_trace(tr, s, xs, ys, xs.len() as int) && tr.last() == t;
        assert(link(tr, xs, ys, 0));
    }
    if s.is_next(d1 as int, d2 as int, t) {
        let tr = seq![s, t];
        assert(link(tr, xs, ys, 0));
        assert(is_trace(tr, s, xs, ys, xs.len() as int) && tr.last() == t);
    }
}

/// Along a replay, the state after `k` steps has counted `k` steps, and the
/// players have lost, between them, at most `k` lives and gained none.
pub proof fn lemma_trace_counts(tr: Seq<State>, s: State, xs: Seq<i32>, ys: Seq<i32>, n: int, k: int)
    requires
        is_trace(tr, s, xs, ys, n),
        0 <= k <= n,
    ensures
        tr[k].step == s.step + k,
        tr[k].p1_lives <= s.p1_lives,
        tr[k].p2_lives <= s.p2_lives,
        (s.p1_lives - tr[k].p1_lives) + (s.p2_lives - tr[k].p2_lives) <= k,
    decreases k,
{
    if k > 0 {
        lemma_trace_counts(tr, s, xs, ys, n, k - 1);
        assert(link(tr, xs, ys, k - 1));
    }
}

/// A replay of `n` pairs of moves counts exactly `n` more steps, and the
/// players lose, between them, at most `n` lives and gain none.
pub proof fn lemma_replay_counts(s: State, xs: Seq<i32>, ys: Seq<i32>, t: State)
    requires
        is_run(s, xs, ys, t),
    ensures
        t.step == s.step + xs.len(),
        t.p1_lives <= s.p1_lives,
        t.p2_lives <= s.p2_lives,
        (s.p1_lives - t.p1_lives) + (s.p2_lives - t.p2_lives) <= xs.len(),
{
    let tr = choose|tr: Seq<State>|
        #[trigger] is_trace(tr, s, xs, ys, xs.len() as int) && tr.last() == t;
    lemma_trace_counts(tr, s, xs, ys, xs.len() as int, xs.len() as int);
}

/// An empty replay, or one whose single step starts from a state that fits,
/// cannot stall.
pub proof fn lemma_short_replay_does_not_stall(s: State, xs: Seq<i32>, ys: Seq<i32>)
    requires
        xs.len() == 0 || (xs.len() == 1 && s.advance_fits()),
    ensures
        !stalls(s, xs, ys),
{
    if stalls(s, xs, ys) {
        let tr = choose|tr: Seq<State>|
            #[trigger] is_trace(tr, s, xs, ys, tr.len() - 1) && 1 <= tr.len() <= xs.len()
                && !tr.last().advance_fits();
        assert(tr.len() == 1 && tr.last() == tr[0]);
    }
}

/// An empty replay can only end where it started.
pub proof fn lemma_empty_replay(s: State, t: State)
    ensures
        is_run(s, Seq::<i32>::empty(), Seq::<i32>::empty(), t) <==> t == s,
{
    let xs = Seq::<i32>::empty();
    if t == s {
        let tr = seq![s];
        assert(is_trace(tr, s, xs, xs, xs.len() as int) && tr.last() == t);
    }
}
} // verus!
