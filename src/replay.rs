//! Replaying a recorded sequence of paddle moves.

use vstd::prelude::*;

use crate::jitter::{Jitter, ThreadJitter};
use crate::state::State;

verus! {

/// Why a replay produced no state.
#[derive(Clone, Copy, Debug, PartialEq, Eq)]
pub enum ReplayError {
    /// The two players' move sequences differ in length.
    LengthMismatch,
    /// A state was reached whose next step would not fit the `i32` fields.
    Overflow,
}

/// The step from `tr[i]` with the `i`-th moves leads to `tr[i + 1]`.
pub open spec fn link(tr: Seq<State>, xs: Seq<i32>, ys: Seq<i32>, i: int) -> bool {
    tr[i].is_next(xs[i] as int, ys[i] as int, tr[i + 1])
}

/// `tr` lists the states of a match that starts at `s` and takes its first `n`
/// steps with the moves `xs` and `ys`.
pub open spec fn is_trace(tr: Seq<State>, s: State, xs: Seq<i32>, ys: Seq<i32>, n: int) -> bool {
    &&& tr.len() == n + 1
    &&& tr[0] == s
    &&& forall|i: int| 0 <= i < n ==> #[trigger] link(tr, xs, ys, i)
}

/// `t` is a possible outcome of replaying the moves `xs` and `ys` from `s`.
pub open spec fn is_run(s: State, xs: Seq<i32>, ys: Seq<i32>, t: State) -> bool {
    &&& xs.len() == ys.len()
    &&& exists|tr: Seq<State>| #[trigger] is_trace(tr, s, xs, ys, xs.len() as int) && tr.last() == t
}

/// Some replay of the moves `xs` and `ys` from `s` can reach, before its last
/// step, a state whose next step would not fit the `i32` fields.
pub open spec fn stalls(s: State, xs: Seq<i32>, ys: Seq<i32>) -> bool {
    exists|tr: Seq<State>|
        #[trigger] is_trace(tr, s, xs, ys, tr.len() - 1) && 1 <= tr.len() <= xs.len()
            && !tr.last().advance_fits()
}

impl State {
    /// The state reached from this one by applying, in order, the `i`-th
    /// moves of both players for each `i`, with every perturbation drawn from
    /// `jitter`. The two sequences must have the same length.
    pub fn final_state_with<J: Jitter>(
        &self,
        jitter: &mut J,
        p1_paddle_deltas: Vec<i32>,
        p2_paddle_deltas: Vec<i32>,
    ) -> (r: Result<State, ReplayError>)
        ensures
            p1_paddle_deltas@.len() != p2_paddle_deltas@.len() <==> r == Err::<State, ReplayError>(
                ReplayError::LengthMismatch,
            ),
            r matches Ok(t) ==> is_run(*self, p1_paddle_deltas@, p2_paddle_deltas@, t),
            r == Err::<State, ReplayError>(ReplayError::Overflow) ==> stalls(
                *self,
                p1_paddle_deltas@,
                p2_paddle_deltas@,
            ),
    {
        if p1_paddle_deltas.len() != p2_paddle_deltas.len() {
            return Err(ReplayError::LengthMismatch);
        }
        let iterations = p1_paddle_deltas.len();
        let mut s = *self;
        let ghost mut tr: Seq<State> = seq![*self];
        let mut i: usize = 0;
        while i < iterations
            invariant
                iterations == p1_paddle_deltas@.len(),
                iterations == p2_paddle_deltas@.len(),
                0 <= i <= iterations,
                is_trace(tr, *self, p1_paddle_deltas@, p2_paddle_deltas@, i as int),
                tr.last() == s,
            decreases iterations - i,
        {
            if !s.fits_next_step() {
                assert(is_trace(tr, *self, p1_paddle_deltas@, p2_paddle_deltas@, tr.len() - 1));
                return Err(ReplayError::Overflow);
            }
            let next = s.next_state_with(jitter, p1_paddle_deltas[i], p2_paddle_deltas[i]);
            proof {
                let before = tr;
                tr = tr.push(next);
                assert forall|j: int| 0 <= j < i + 1 implies #[trigger] link(
                    tr,
                    p1_paddle_deltas@,
                    p2_paddle_deltas@,
                    j,
                ) by {
                    if j < i {
                        assert(link(before, p1_paddle_deltas@, p2_paddle_deltas@, j));
                    }
                }
            }
            s = next;
            i = i + 1;
        }
        assert(is_trace(tr, *self, p1_paddle_deltas@, p2_paddle_deltas@, iterations as int));
        Ok(s)
    }

    /// The state reached from this one by applying, in order, the `i`-th
    /// moves of both players for each `i`, perturbed by the thread-local
    /// generator. The two sequences must have the same length.
    pub fn final_state(&self, p1_paddle_deltas: Vec<i32>, p2_paddle_deltas: Vec<i32>) -> (r: Result<
        State,
        ReplayError,
    >)
        ensures
            p1_paddle_deltas@.len() != p2_paddle_deltas@.len() <==> r == Err::<State, ReplayError>(
                ReplayError::LengthMismatch,
            ),
            r matches Ok(t) ==> is_run(*self, p1_paddle_deltas@, p2_paddle_deltas@, t),
            r == Err::<State, ReplayError>(ReplayError::Overflow) ==> stalls(
                *self,
                p1_paddle_deltas@,
                p2_paddle_deltas@,
            ),
    {
        self.final_state_with(&mut ThreadJitter, p1_paddle_deltas, p2_paddle_deltas)
    }
}

} // verus!
