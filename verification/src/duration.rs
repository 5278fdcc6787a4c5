//! Synthetic per-iteration sleep durations.
//!
//! Each iteration of the main loop sleeps for a pseudo-random number of
//! milliseconds drawn uniformly from the half-open range
//! `[MIN_DURATION, MAX_DURATION)`. The raw randomness comes from the system
//! generator; everything done with it is verified, for every raw value.

use vstd::prelude::*;

verus! {

/// Smallest sleep duration, in milliseconds, that an iteration may draw.
pub const MIN_DURATION: u64 = 10;

/// One past the largest sleep duration, in milliseconds, that an iteration may draw.
pub const MAX_DURATION: u64 = 55;

/// The duration, in milliseconds, that a raw random word maps to.
pub open spec fn duration_from(entropy: u64) -> u64 {
    (MIN_DURATION + entropy % ((MAX_DURATION - MIN_DURATION) as u64)) as u64
}

/// Maps a raw random word into the configured duration range.
///
/// The range width `MAX_DURATION - MIN_DURATION` is a positive constant, so
/// the reduction cannot fault on a zero modulus and the result cannot leave
/// the range: a degenerate range is ruled out before the program runs.
pub fn bound_duration(entropy: u64) -> (d: u64)
    ensures
        d == duration_from(entropy),
        MIN_DURATION <= d < MAX_DURATION,
{
    MIN_DURATION + entropy % (MAX_DURATION - MIN_DURATION)
}

/// Relies on `rand::random::<u64>()` for a raw word from the thread-local
/// generator; nothing is assumed of the value that comes back.
#[verifier::external_body]
fn random_u64() -> u64 {
    rand::random::<u64>()
}

/// Draws the synthetic duration of one iteration: a pseudo-random number of
/// milliseconds, always in `[MIN_DURATION, MAX_DURATION)` whatever the
/// generator returns.
pub fn compute_loop_duration() -> (d: u64)
    ensures
        MIN_DURATION <= d < MAX_DURATION,
{
    bound_duration(random_u64())
}

} // verus!
