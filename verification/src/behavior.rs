//! Loop continuation policy and loading-trigger configuration.
//!
//! The main loop is either unbounded or bounded by an exact iteration count,
//! decided once from the signed `nb_loop` configuration value before the loop
//! starts. The loading simulation fires at one configurable trigger point per
//! run, or not at all.

use vstd::prelude::*;

verus! {

/// Whether the main loop runs forever or for a fixed number of iterations.
#[derive(Clone, Copy, PartialEq, Eq, Structural, Debug)]
pub enum LoopBehavior {
    Unlimited,
    Limited(u32),
}

/// At which trigger point, if any, the loading simulation fires during a run.
/// The variants are mutually exclusive by construction: a run is configured
/// with a single value, so exactly one trigger policy is active.
#[derive(Clone, Copy, PartialEq, Eq, Structural, Debug)]
pub enum LoadingBehavior {
    NoLoading,
    PreLoop,
    FirstLoop,
    Threaded,
}

impl Default for LoadingBehavior {
    /// The default configuration performs no loading at all.
    fn default() -> (r: Self)
        ensures
            r is NoLoading,
    {
        LoadingBehavior::NoLoading
    }
}

/// The loop behavior that a signed `nb_loop` configuration value selects:
/// negative means unbounded, non-negative means exactly that many iterations.
pub open spec fn loop_behavior_of(nb_loop: i32) -> LoopBehavior {
    if nb_loop < 0 {
        LoopBehavior::Unlimited
    } else {
        LoopBehavior::Limited(nb_loop as u32)
    }
}

/// Whether an iteration may start when `loop_count` iterations have already run.
pub open spec fn continues(loop_behavior: LoopBehavior, loop_count: u32) -> bool {
    match loop_behavior {
        LoopBehavior::Unlimited => true,
        LoopBehavior::Limited(limit) => loop_count < limit,
    }
}

/// Decides the loop behavior once, from the signed configuration value.
pub fn compute_loop_behavior(nb_loop: i32) -> (b: LoopBehavior)
    ensures
        b == loop_behavior_of(nb_loop),
        nb_loop < 0 ==> b is Unlimited,
        nb_loop >= 0 ==> b == LoopBehavior::Limited(nb_loop as u32),
{
    if nb_loop < 0 {
        LoopBehavior::Unlimited
    } else {
        LoopBehavior::Limited(nb_loop as u32)
    }
}

/// The continuation predicate of the main loop: true exactly when another
/// iteration may start after `loop_count` completed ones.
pub fn continue_loop(loop_behavior: LoopBehavior, loop_count: u32) -> (r: bool)
    ensures
        r == continues(loop_behavior, loop_count),
{
    match loop_behavior {
        LoopBehavior::Unlimited => true,
        LoopBehavior::Limited(limit) => loop_count < limit,
    }
}

/// For every negative configuration value the loop behavior is `Unlimited`,
/// and iteration continues at every count.
pub proof fn lemma_negative_nb_loop_unlimited(nb_loop: i32, loop_count: u32)
    requires
        nb_loop < 0,
    ensures
        loop_behavior_of(nb_loop) is Unlimited,
        continues(loop_behavior_of(nb_loop), loop_count),
{
}

/// For every non-negative configuration value `N` the loop behavior is
/// `Limited(N)`, and iteration continues exactly at counts below `N`; in
/// particular, with `N == 0` no iteration ever starts.
pub proof fn lemma_nonnegative_nb_loop_bounded(nb_loop: i32, loop_count: u32)
    requires
        nb_loop >= 0,
    ensures
        loop_behavior_of(nb_loop) == LoopBehavior::Limited(nb_loop as u32),
        continues(loop_behavior_of(nb_loop), loop_count) <==> (loop_count as int) < (
        nb_loop as int),
        nb_loop == 0 ==> !continues(loop_behavior_of(nb_loop), loop_count),
{
}

} // verus!
