//! The orchestration state machine.
//!
//! The orchestrator is the core of the workload generator: it decides, one
//! step at a time, which externally visible actions a run performs — enabling
//! profiler capture, running or spawning the loading simulation, opening frame
//! and scope boundaries, sleeping, logging, and joining the background task.
//! It performs none of them itself: each call to [`Orchestrator::step`]
//! returns the exact, ordered list of actions for the caller to carry out
//! before stepping again. The control flow is decided — and verified — here,
//! while the clock, the threads, the logger and the profiler stay with the
//! caller.

use vstd::prelude::*;
use crate::behavior::{LoopBehavior, LoadingBehavior, loop_behavior_of, continues,
    compute_loop_behavior, continue_loop};
use crate::duration::{duration_from, bound_duration};

verus! {

/// Seconds that the synchronous (pre-loop or first-loop) loading step blocks.
pub const SYNC_LOADING_SECS: u64 = 5;

/// Seconds that the background loading task runs. The two loading durations
/// differ on purpose, so a short bounded run still ends by waiting for the
/// background task in the draining phase rather than finding it finished.
pub const THREADED_LOADING_SECS: u64 = 7;

/// The phases a run passes through, in order: configuration and profiler
/// capture, the optional loading work before the loop, the main loop, the
/// wait for the background task, and the terminal phase.
#[derive(Clone, Copy, PartialEq, Eq, Structural, Debug)]
pub enum Phase {
    Init,
    PreLoading,
    Iterating,
    Draining,
    Done,
}

/// One externally visible effect that the caller must perform.
#[derive(Clone, Copy, PartialEq, Eq, Structural, Debug)]
pub enum Action {
    /// Enable profiler capture; emitted exactly once, before any frame.
    EnableCapture,
    /// Block in the scripted loading routine for the given number of seconds.
    RunLoading(u64),
    /// Start the background loading task for the given number of seconds.
    SpawnBackground(u64),
    /// Open a profiling frame boundary.
    BeginFrame,
    /// Open the named profiling scope of the given iteration.
    BeginScope(u32),
    /// Sleep for the given number of milliseconds.
    SleepMs(u64),
    /// Log the given iteration's sampled duration in milliseconds.
    LogDuration(u32, u64),
    /// Join the background loading task, reporting the time spent waiting.
    JoinBackground,
}

/// Whether `phase` lies past the pre-loading work, so that iterations may
/// have started.
pub open spec fn phase_started(phase: Phase) -> bool {
    !(phase is Init || phase is PreLoading)
}

/// The loop counter after one more iteration starts; it sticks at the top of
/// its type instead of wrapping, which an unbounded run would otherwise reach.
pub open spec fn next_count(count: u32) -> u32 {
    if count < u32::MAX {
        (count + 1) as u32
    } else {
        count
    }
}

/// The ordered actions of one main-loop iteration, starting from `count`
/// finished iterations: a frame boundary and the iteration's scope, the
/// loading routine when first-loop loading is configured and this is the very
/// first iteration, then the sampled sleep and its log line.
pub open spec fn iteration_actions(loading: LoadingBehavior, count: u32, entropy: u64) -> Seq<
    Action,
> {
    let n = next_count(count);
    let d = duration_from(entropy);
    if loading is FirstLoop && count == 0 {
        seq![
            Action::BeginFrame,
            Action::BeginScope(n),
            Action::RunLoading(SYNC_LOADING_SECS),
            Action::SleepMs(d),
            Action::LogDuration(n, d),
        ]
    } else {
        seq![
            Action::BeginFrame,
            Action::BeginScope(n),
            Action::SleepMs(d),
            Action::LogDuration(n, d),
        ]
    }
}

/// Whether some action in `acts` runs the blocking loading routine.
pub open spec fn has_loading_action(acts: Seq<Action>) -> bool {
    exists|i: int| 0 <= i < acts.len() && acts[i] is RunLoading
}

/// The driver of a whole run: the loop bound and loading policy it was
/// configured with, the phase it is in, and what it has done so far.
pub struct Orchestrator {
    /// Current phase of the run.
    pub phase: Phase,
    /// Configured loading-trigger policy; fixed at construction.
    pub loading: LoadingBehavior,
    /// Loop bound, decided once at construction and never re-evaluated.
    pub behavior: LoopBehavior,
    /// Iterations started so far.
    pub count: u32,
    /// How many times the blocking loading routine has run.
    pub loading_runs: u32,
    /// Whether the background loading task has been spawned.
    pub bg_spawned: bool,
    /// Whether the background loading task has been joined.
    pub bg_joined: bool,
}

impl Orchestrator {
    /// How often the blocking loading routine must have run in a state: once
    /// after pre-loading under `PreLoop`, once after the first iteration has
    /// started under `FirstLoop`, and never otherwise.
    pub open spec fn expected_loading_runs(self) -> u32 {
        match self.loading {
            LoadingBehavior::PreLoop => if phase_started(self.phase) {
                1u32
            } else {
                0u32
            },
            LoadingBehavior::FirstLoop => if self.count >= 1 {
                1u32
            } else {
                0u32
            },
            _ => 0u32,
        }
    }

    /// Well-formedness of a state: `new` establishes it and `step` preserves
    /// it, so it holds of every reachable state.
    pub open spec fn inv(self) -> bool {
        &&& !phase_started(self.phase) ==> self.count == 0
        &&& (self.behavior matches LoopBehavior::Limited(limit) ==> self.count <= limit)
        &&& self.loading_runs == self.expected_loading_runs()
        &&& (self.bg_spawned <==> self.loading is Threaded && phase_started(self.phase))
        &&& (self.bg_joined <==> self.loading is Threaded && self.phase is Done)
        &&& (self.phase is Draining || self.phase is Done) ==> !continues(
            self.behavior,
            self.count,
        )
    }

    /// An upper bound on the steps a bounded run still takes to reach the
    /// terminal phase; each step strictly decreases it.
    pub open spec fn remaining_steps(self) -> int {
        match self.behavior {
            LoopBehavior::Limited(limit) => match self.phase {
                Phase::Init => limit - self.count + 4,
                Phase::PreLoading => limit - self.count + 3,
                Phase::Iterating => limit - self.count + 2,
                Phase::Draining => 1,
                Phase::Done => 0,
            },
            LoopBehavior::Unlimited => 0,
        }
    }

    /// The state one step leads to. It never depends on the drawn randomness.
    pub open spec fn step_state(self) -> Orchestrator {
        match self.phase {
            Phase::Init => Orchestrator { phase: Phase::PreLoading, ..self },
            Phase::PreLoading => Orchestrator {
                phase: Phase::Iterating,
                loading_runs: if self.loading is PreLoop {
                    1u32
                } else {
                    self.loading_runs
                },
                bg_spawned: self.loading is Threaded || self.bg_spawned,
                ..self
            },
            Phase::Iterating => if continues(self.behavior, self.count) {
                Orchestrator {
                    count: next_count(self.count),
                    loading_runs: if self.loading is FirstLoop && self.count == 0 {
                        1u32
                    } else {
                        self.loading_runs
                    },
                    ..self
                }
            } else {
                Orchestrator { phase: Phase::Draining, ..self }
            },
            Phase::Draining => Orchestrator {
                phase: Phase::Done,
                bg_joined: self.loading is Threaded || self.bg_joined,
                ..self
            },
            Phase::Done => self,
        }
    }

    /// The ordered actions one step emits from this state, with `entropy` the
    /// raw random word the iteration's sleep duration is drawn from.
    pub open spec fn step_actions(self, entropy: u64) -> Seq<Action> {
        match self.phase {
            Phase::Init => seq![Action::EnableCapture],
            Phase::PreLoading => match self.loading {
                LoadingBehavior::PreLoop => seq![Action::RunLoading(SYNC_LOADING_SECS)],
                LoadingBehavior::Threaded => seq![Action::SpawnBackground(THREADED_LOADING_SECS)],
                _ => Seq::<Action>::empty(),
            },
            Phase::Iterating => if continues(self.behavior, self.count) {
                iteration_actions(self.loading, self.count, entropy)
            } else {
                Seq::<Action>::empty()
            },
            Phase::Draining => if self.loading is Threaded {
                seq![Action::JoinBackground, Action::BeginFrame]
            } else {
                seq![Action::BeginFrame]
            },
            Phase::Done => Seq::<Action>::empty(),
        }
    }

    /// Builds the initial state from the two configuration inputs: the signed
    /// iteration bound and the loading-trigger policy.
    pub fn new(nb_loop: i32, loading: LoadingBehavior) -> (s: Orchestrator)
        ensures
            s.inv(),
            s.phase is Init,
            s.loading == loading,
            s.behavior == loop_behavior_of(nb_loop),
            s.count == 0,
            s.loading_runs == 0,
            !s.bg_spawned,
            !s.bg_joined,
    {
        Orchestrator {
            phase: Phase::Init,
            loading,
            behavior: compute_loop_behavior(nb_loop),
            count: 0,
            loading_runs: 0,
            bg_spawned: false,
            bg_joined: false,
        }
    }

    /// Runtime mirror of [`Self::inv`], so an unverified caller can test a
    /// state before handing it to [`Self::step`].
    pub fn well_formed(&self) -> (r: bool)
        ensures
            r == self.inv(),
    {
        let started: bool = !(self.phase == Phase::Init || self.phase == Phase::PreLoading);
        let count_ok: bool = (started || self.count == 0) && (match self.behavior {
            LoopBehavior::Unlimited => true,
            LoopBehavior::Limited(limit) => self.count <= limit,
        });
        let expected: u32 = match self.loading {
            LoadingBehavior::PreLoop => if started {
                1
            } else {
                0
            },
            LoadingBehavior::FirstLoop => if self.count >= 1 {
                1
            } else {
                0
            },
            _ => 0,
        };
        let drained: bool = self.phase == Phase::Draining || self.phase == Phase::Done;
        count_ok && self.loading_runs == expected && self.bg_spawned == (self.loading
            == LoadingBehavior::Threaded && started) && self.bg_joined == (self.loading
            == LoadingBehavior::Threaded && self.phase == Phase::Done) && (!drained
            || !continue_loop(self.behavior, self.count))
    }

    /// Whether the run has reached its terminal phase.
    pub fn is_done(&self) -> (r: bool)
        ensures
            r == (self.phase is Done),
    {
        self.phase == Phase::Done
    }

    /// Advances the run by one step and returns, in order, the actions the
    /// caller must perform before stepping again. `entropy` is the raw random
    /// word the iteration's sleep duration is drawn from; the successor state
    /// is the same for every value of it.
    pub fn step(&mut self, entropy: u64) -> (actions: Vec<Action>)
        requires
            old(self).inv(),
        ensures
            final(self).inv(),
            *final(self) == old(self).step_state(),
            actions@ == old(self).step_actions(entropy),
    {
        let mut actions: Vec<Action> = Vec::new();
        match self.phase {
            Phase::Init => {
                actions.push(Action::EnableCapture);
                self.phase = Phase::PreLoading;
            },
            Phase::PreLoading => {
                match self.loading {
                    LoadingBehavior::PreLoop => {
                        actions.push(Action::RunLoading(SYNC_LOADING_SECS));
                        self.loading_runs = 1;
                    },
                    LoadingBehavior::Threaded => {
                        actions.push(Action::SpawnBackground(THREADED_LOADING_SECS));
                        self.bg_spawned = true;
                    },
                    _ => {},
                }
                self.phase = Phase::Iterating;
            },
            Phase::Iterating => {
                if continue_loop(self.behavior, self.count) {
                    let first_iteration: bool = self.count == 0;
                    let n: u32 = if self.count < u32::MAX {
                        self.count + 1
                    } else {
                        self.count
                    };
                    self.count = n;
                    actions.push(Action::BeginFrame);
                    actions.push(Action::BeginScope(n));
                    if self.loading == LoadingBehavior::FirstLoop && first_iteration {
                        actions.push(Action::RunLoading(SYNC_LOADING_SECS));
                        self.loading_runs = 1;
                    }
                    let d: u64 = bound_duration(entropy);
                    actions.push(Action::SleepMs(d));
                    actions.push(Action::LogDuration(n, d));
                } else {
                    self.phase = Phase::Draining;
                }
            },
            Phase::Draining => {
                if self.loading == LoadingBehavior::Threaded {
                    actions.push(Action::JoinBackground);
                    self.bg_joined = true;
                }
                actions.push(Action::BeginFrame);
                self.phase = Phase::Done;
            },
            Phase::Done => {},
        }
        proof {
            assert(actions@ =~= old(self).step_actions(entropy));
        }
        actions
    }
}

/// With pre-loop loading, the blocking loading routine runs exactly once per
/// run, before the first iteration begins, and never again: it has run once
/// in every state past the pre-loading phase and in no earlier one, and the
/// only step that emits it is the one leaving the pre-loading phase.
pub proof fn lemma_pre_loop_loading_once(s: Orchestrator, entropy: u64)
    requires
        s.inv(),
        s.loading is PreLoop,
    ensures
        phase_started(s.phase) ==> s.loading_runs == 1,
        !phase_started(s.phase) ==> s.loading_runs == 0,
        has_loading_action(s.step_actions(entropy)) <==> s.phase is PreLoading,
{
    let acts = s.step_actions(entropy);
    if s.phase is PreLoading {
        assert(acts[0] is RunLoading);
    } else {
        assert forall|i: int| 0 <= i < acts.len() implies !((#[trigger] acts[i]) is RunLoading) by {
            if s.phase is Iterating && continues(s.behavior, s.count) {
                assert(acts =~= iteration_actions(s.loading, s.count, entropy));
            }
        }
    }
}

/// With first-loop loading, the blocking loading routine runs exactly once
/// per run, during the very first iteration: it has run once in every state
/// where an iteration has started and in no other, and the only step that
/// emits it is the first iteration step — never the pre-loading phase, never
/// a later iteration.
pub proof fn lemma_first_loop_loading_once(s: Orchestrator, entropy: u64)
    requires
        s.inv(),
        s.loading is FirstLoop,
    ensures
        s.count >= 1 ==> s.loading_runs == 1,
        s.count == 0 ==> s.loading_runs == 0,
        has_loading_action(s.step_actions(entropy)) <==> (s.phase is Iterating && s.count == 0
            && continues(s.behavior, 0)),
{
    let acts = s.step_actions(entropy);
    if s.phase is Iterating && s.count == 0 && continues(s.behavior, 0) {
        assert(acts[2] is RunLoading);
    } else {
        assert forall|i: int| 0 <= i < acts.len() implies !((#[trigger] acts[i]) is RunLoading) by {
        }
    }
}

/// With threaded loading, the background task is spawned by the step that
/// leaves the pre-loading phase — so before any iteration begins — and is
/// joined by the draining step, ahead of the final frame boundary, whatever
/// the loop bound (a bound of zero included): every state past pre-loading
/// has the task spawned, exactly the terminal state has it joined, and the
/// blocking loading routine never runs.
pub proof fn lemma_threaded_background_lifecycle(s: Orchestrator, entropy: u64)
    requires
        s.inv(),
        s.loading is Threaded,
    ensures
        s.bg_spawned <==> phase_started(s.phase),
        s.bg_joined <==> s.phase is Done,
        s.phase is PreLoading ==> s.step_actions(entropy) == seq![
            Action::SpawnBackground(THREADED_LOADING_SECS),
        ],
        s.phase is Draining ==> s.step_actions(entropy) == seq![
            Action::JoinBackground,
            Action::BeginFrame,
        ],
        s.loading_runs == 0,
        !has_loading_action(s.step_actions(entropy)),
{
    let acts = s.step_actions(entropy);
    assert forall|i: int| 0 <= i < acts.len() implies !((#[trigger] acts[i]) is RunLoading) by {}
}

/// With no loading configured, no reachable state has run the loading routine,
/// spawned a background task or joined one, and no step ever emits a loading,
/// spawn or join action.
pub proof fn lemma_no_loading_is_silent(s: Orchestrator, entropy: u64)
    requires
        s.inv(),
        s.loading is NoLoading,
    ensures
        s.loading_runs == 0,
        !s.bg_spawned,
        !s.bg_joined,
        forall|i: int|
            0 <= i < s.step_actions(entropy).len() ==> !((#[trigger] s.step_actions(entropy)[i])
                is RunLoading) && !(s.step_actions(entropy)[i] is SpawnBackground) && !(
            s.step_actions(entropy)[i] is JoinBackground),
{
    let acts = s.step_actions(entropy);
    assert forall|i: int|
        0 <= i < acts.len() implies !((#[trigger] acts[i]) is RunLoading) && !(acts[i]
        is SpawnBackground) && !(acts[i] is JoinBackground) by {}
}

/// Stepping preserves well-formedness in the mathematical model as well, so
/// every state reachable from a well-formed one is well-formed.
pub proof fn lemma_step_preserves_inv(s: Orchestrator)
    requires
        s.inv(),
    ensures
        s.step_state().inv(),
{
}

/// A bounded run performs exactly its configured number of iterations — the
/// loop is only ever left when the continuation predicate fails, so in the
/// draining and terminal phases the counter equals the bound — and an
/// unbounded run never reaches those phases.
pub proof fn lemma_bounded_run_iteration_count(s: Orchestrator)
    requires
        s.inv(),
        s.phase is Draining || s.phase is Done,
    ensures
        s.behavior matches LoopBehavior::Limited(limit) ==> s.count == limit,
        !(s.behavior is Unlimited),
{
}

/// Every bounded run terminates: outside the terminal phase each step
/// strictly decreases the number of steps left, which never goes negative.
pub proof fn lemma_bounded_run_terminates(s: Orchestrator)
    requires
        s.inv(),
        s.behavior is Limited,
    ensures
        s.remaining_steps() >= 0,
        !(s.phase is Done) ==> s.step_state().remaining_steps() < s.remaining_steps(),
{
}

/// Profiler capture is enabled exactly once per run, by the very first step
/// and before any other action: the only step that emits `EnableCapture` is
/// the one leaving the initial phase, and it emits nothing else.
pub proof fn lemma_capture_enabled_once_first(s: Orchestrator, entropy: u64)
    requires
        s.inv(),
    ensures
        s.phase is Init ==> s.step_actions(entropy) == seq![Action::EnableCapture],
        !(s.phase is Init) ==> forall|i: int|
            0 <= i < s.step_actions(entropy).len() ==> !((#[trigger] s.step_actions(entropy)[i])
                is EnableCapture),
{
    let acts = s.step_actions(entropy);
    assert forall|i: int|
        !(s.phase is Init) && 0 <= i < acts.len() implies !((#[trigger] acts[i])
        is EnableCapture) by {}
}

/// A profiling frame boundary opens exactly once per iteration — at the head
/// of each iteration step — plus once more at the tail of the draining step,
/// which finalises the last iteration's frame; no other step opens one.
pub proof fn lemma_one_frame_per_iteration(s: Orchestrator, entropy: u64)
    requires
        s.inv(),
    ensures
        s.phase is Iterating && continues(s.behavior, s.count) ==> (s.step_actions(entropy)[0]
            is BeginFrame && forall|i: int|
            1 <= i < s.step_actions(entropy).len() ==> !((#[trigger] s.step_actions(entropy)[i])
                is BeginFrame)),
        s.phase is Draining ==> (s.step_actions(entropy).last() is BeginFrame && forall|i: int|
            0 <= i < s.step_actions(entropy).len() - 1 ==> !((#[trigger] s.step_actions(
                entropy,
            )[i]) is BeginFrame)),
        s.phase is Init || s.phase is PreLoading || s.phase is Done ==> forall|i: int|
            0 <= i < s.step_actions(entropy).len() ==> !((#[trigger] s.step_actions(entropy)[i])
                is BeginFrame),
{
    let acts = s.step_actions(entropy);
    if s.phase is Iterating && continues(s.behavior, s.count) {
        assert forall|i: int| 1 <= i < acts.len() implies !((#[trigger] acts[i]) is BeginFrame) by {}
    }
    if s.phase is Draining {
        assert forall|i: int|
            0 <= i < acts.len() - 1 implies !((#[trigger] acts[i]) is BeginFrame) by {}
    }
    if s.phase is Init || s.phase is PreLoading || s.phase is Done {
        assert forall|i: int| 0 <= i < acts.len() implies !((#[trigger] acts[i]) is BeginFrame) by {}
    }
}

/// Every run ends with one trailing frame boundary: the draining step's
/// action list always ends with `BeginFrame`, and the terminal phase neither
/// emits anything nor moves — there is nothing after the final boundary.
pub proof fn lemma_final_frame(s: Orchestrator, entropy: u64)
    requires
        s.inv(),
    ensures
        s.phase is Draining ==> s.step_actions(entropy).last() == Action::BeginFrame,
        s.phase is Done ==> s.step_actions(entropy) == Seq::<Action>::empty(),
        s.phase is Done ==> s.step_state() == s,
{
}

} // verus!
