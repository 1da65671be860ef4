//! Bounded random perturbation of integer values.

use vstd::prelude::*;

verus! {

/// The absolute value of `x`.
pub open spec fn magnitude(x: int) -> int {
    if x < 0 {
        -x
    } else {
        x
    }
}

/// `r` is a possible outcome of perturbing `v`: values of magnitude at most
/// two are kept as they are, larger ones move by at most a fifth of their
/// magnitude, rounded down.
pub open spec fn chaos_ok(v: int, r: int) -> bool {
    if magnitude(v) <= 2 {
        r == v
    } else {
        v - magnitude(v) / 5 <= r <= v + magnitude(v) / 5
    }
}

/// `v` perturbed by the drawn offset `o`: values of magnitude at most two
/// are kept as they are.
pub open spec fn perturbed(v: int, o: int) -> int {
    if magnitude(v) <= 2 {
        v
    } else {
        v + o
    }
}

/// Every outcome of perturbing `v` fits in an `i32`.
pub open spec fn chaos_fits(v: int) -> bool {
    magnitude(v) + magnitude(v) / 5 <= i32::MAX
}

/// A source of uniformly drawn offsets.
///
/// The match draws all of its randomness through this interface, so a caller
/// may substitute a deterministic source.
pub trait Jitter {
    /// Draws an offset in `[-bound, bound]`.
    fn offset(&mut self, bound: i32) -> (r: i32)
        requires
            0 <= bound < i32::MAX,
        ensures
            -bound <= r <= bound,
    ;
}

/// The thread-local generator of the `rand` crate.
pub struct ThreadJitter;

/// Relies on `rand::thread_rng` and `Rng::gen_range(low, high)`: a value
/// drawn from `low` inclusive to `high` exclusive, for `low < high`.
#[verifier::external_body]
fn uniform_offset(bound: i32) -> (r: i32)
    requires
        0 <= bound < i32::MAX,
    ensures
        -bound <= r <= bound,
{
    rand::Rng::gen_range(&mut rand::thread_rng(), -bound, bound + 1)
}

impl Jitter for ThreadJitter {
    fn offset(&mut self, bound: i32) -> (r: i32) {
        uniform_offset(bound)
    }
}

/// `num` perturbed by the drawn offset `offset`.
pub fn perturb(num: i32, offset: i32) -> (r: i32)
    requires
        chaos_fits(num as int),
        magnitude(offset as int) <= magnitude(num as int) / 5,
    ensures
        r == perturbed(num as int, offset as int),
        chaos_ok(num as int, r as int),
{
    if -2 <= num && num <= 2 {
        num
    } else {
        num + offset
    }
}

/// Draws from `jitter` the offset that perturbs `num`: one draw in
/// `[-|num| / 5, |num| / 5]`, or none, giving zero, where `|num|` is at most two.
pub fn draw_offset<J: Jitter>(jitter: &mut J, num: i32) -> (r: i32)
    requires
        chaos_fits(num as int),
    ensures
        magnitude(r as int) <= magnitude(num as int) / 5,
        magnitude(num as int) <= 2 ==> r == 0,
{
    if -2 <= num && num <= 2 {
        return 0;
    }
    let mag: i32 = if num < 0 {
        -num
    } else {
        num
    };
    jitter.offset(mag / 5)
}

/// Perturbs `num` by an offset of at most a fifth of its magnitude, drawn
/// once from `jitter`; magnitudes of at most two are returned unchanged.
pub fn chaos<J: Jitter>(jitter: &mut J, num: i32) -> (r: i32)
    requires
        chaos_fits(num as int),
    ensures
        chaos_ok(num as int, r as int),
{
    let offset = draw_offset(jitter, num);
    perturb(num, offset)
}

} // verus!
