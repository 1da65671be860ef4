//! Discrete-time evolution of a two-player Pong match.
//!
//! A [`State`] describes one instant of the match. [`State::next_state`]
//! computes the instant that follows from both players' paddle moves, and
//! [`State::final_state`] replays a recorded sequence of moves. Ball
//! trajectories are perturbed by a bounded random jitter, drawn from an
//! injectable [`Jitter`] source.

mod jitter;
mod laws;
mod replay;
mod state;

pub use jitter::{
    chaos, chaos_fits, chaos_ok, draw_offset, magnitude, perturb, perturbed, Jitter, ThreadJitter,
};
pub use laws::{
    lemma_empty_replay, lemma_left_exit, lemma_paddles_stay_on_field, lemma_replay_counts,
    lemma_short_replay_does_not_stall, lemma_trace_counts, lemma_quiet_step, lemma_single_replay,
    lemma_step_counts_up, lemma_top_bounce,
};
pub use replay::{is_run, is_trace, link, stalls, ReplayError};
pub use state::{
    clamp, fits_i32, SpecialEvent, State, BALL_DELTA_PER_STEP, BALL_RADIUS, BASE_BALL_SPEED,
    BASE_HEIGHT, BASE_WIDTH, LEFT_EXIT, MAX_LIVES, PADDLE_HEIGHT, PADDLE_WIDTH, TICK_DELAY,
};
