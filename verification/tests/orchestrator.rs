use puffin_test_app::behavior::LoadingBehavior;
use puffin_test_app::orchestrator::{
    Action, Orchestrator, Phase, SYNC_LOADING_SECS, THREADED_LOADING_SECS,
};

/// Drives a run to its terminal phase, feeding deterministic entropy, and
/// returns every emitted action in order.
fn run_to_completion(orchestrator: &mut Orchestrator, mut entropy: u64) -> Vec<Action> {
    let mut all: Vec<Action> = Vec::new();
    let mut steps: u32 = 0;
    while !orchestrator.is_done() {
        assert!(steps < 1_000, "bounded run did not reach the terminal phase");
        all.extend(orchestrator.step(entropy));
        entropy = entropy
            .wrapping_mul(6364136223846793005)
            .wrapping_add(1442695040888963407);
        steps += 1;
    }
    all
}

fn count_loading(actions: &[Action]) -> usize {
    actions
        .iter()
        .filter(|a| matches!(a, Action::RunLoading(_)))
        .count()
}

fn first_frame_index(actions: &[Action]) -> Option<usize> {
    actions.iter().position(|a| matches!(a, Action::BeginFrame))
}

#[test]
fn three_iterations_no_loading_end_to_end() {
    let mut orchestrator = Orchestrator::new(3, LoadingBehavior::NoLoading);
    let actions = run_to_completion(&mut orchestrator, 12345);

    assert_eq!(orchestrator.count, 3);
    assert_eq!(actions[0], Action::EnableCapture);

    let sleeps: Vec<u64> = actions
        .iter()
        .filter_map(|a| match a {
            Action::SleepMs(ms) => Some(*ms),
            _ => None,
        })
        .collect();
    assert_eq!(sleeps.len(), 3);
    for ms in &sleeps {
        assert!((10..55).contains(ms), "sleep of {} ms out of range", ms);
    }

    let logged: Vec<(u32, u64)> = actions
        .iter()
        .filter_map(|a| match a {
            Action::LogDuration(iteration, ms) => Some((*iteration, *ms)),
            _ => None,
        })
        .collect();
    assert_eq!(logged.len(), 3);
    for (i, (iteration, ms)) in logged.iter().enumerate() {
        assert_eq!(*iteration as usize, i + 1);
        assert!((10..55).contains(ms));
    }

    // Three iteration frames plus the trailing boundary that finalises the
    // last frame; nothing comes after it.
    let frames = actions
        .iter()
        .filter(|a| matches!(a, Action::BeginFrame))
        .count();
    assert_eq!(frames, 4);
    assert_eq!(actions.last(), Some(&Action::BeginFrame));

    assert_eq!(count_loading(&actions), 0);
    assert!(orchestrator.is_done());
    // Stepping a finished run does nothing.
    assert!(orchestrator.step(7).is_empty());
    assert!(orchestrator.is_done());
}

#[test]
fn zero_iterations_pre_loop_end_to_end() {
    let mut orchestrator = Orchestrator::new(0, LoadingBehavior::PreLoop);
    let actions = run_to_completion(&mut orchestrator, 99);

    assert_eq!(
        actions,
        vec![
            Action::EnableCapture,
            Action::RunLoading(SYNC_LOADING_SECS),
            Action::BeginFrame,
        ]
    );
    assert_eq!(orchestrator.count, 0);
    assert_eq!(orchestrator.loading_runs, 1);
    assert!(!orchestrator.bg_spawned);
}

#[test]
fn pre_loop_loading_runs_once_before_first_iteration() {
    let mut orchestrator = Orchestrator::new(2, LoadingBehavior::PreLoop);
    let actions = run_to_completion(&mut orchestrator, 4242);

    assert_eq!(count_loading(&actions), 1);
    let loading_at = actions
        .iter()
        .position(|a| matches!(a, Action::RunLoading(_)))
        .unwrap();
    assert_eq!(actions[loading_at], Action::RunLoading(SYNC_LOADING_SECS));
    // The loading step precedes the first frame of the first iteration.
    assert!(loading_at < first_frame_index(&actions).unwrap());
    assert_eq!(orchestrator.loading_runs, 1);
}

#[test]
fn first_loop_loading_runs_once_during_first_iteration() {
    let mut orchestrator = Orchestrator::new(3, LoadingBehavior::FirstLoop);
    let actions = run_to_completion(&mut orchestrator, 31337);

    assert_eq!(count_loading(&actions), 1);
    let loading_at = actions
        .iter()
        .position(|a| matches!(a, Action::RunLoading(_)))
        .unwrap();
    assert_eq!(actions[loading_at], Action::RunLoading(SYNC_LOADING_SECS));
    // The loading step happens inside the first iteration: after that
    // iteration's scope opens and before its sleep.
    assert_eq!(actions[loading_at - 1], Action::BeginScope(1));
    assert!(matches!(actions[loading_at + 1], Action::SleepMs(_)));
    // Later iterations happen, and none of them loads again.
    assert_eq!(orchestrator.count, 3);
    assert_eq!(orchestrator.loading_runs, 1);
}

#[test]
fn threaded_loading_spans_the_whole_run() {
    let mut orchestrator = Orchestrator::new(2, LoadingBehavior::Threaded);
    let actions = run_to_completion(&mut orchestrator, 2024);

    // Spawned exactly once, before the first iteration's frame.
    let spawn_at = actions
        .iter()
        .position(|a| matches!(a, Action::SpawnBackground(_)))
        .unwrap();
    assert_eq!(
        actions[spawn_at],
        Action::SpawnBackground(THREADED_LOADING_SECS)
    );
    assert!(spawn_at < first_frame_index(&actions).unwrap());

    // Joined exactly once, after the loop and before the trailing frame.
    let joins: Vec<usize> = actions
        .iter()
        .enumerate()
        .filter_map(|(i, a)| matches!(a, Action::JoinBackground).then_some(i))
        .collect();
    assert_eq!(joins.len(), 1);
    assert_eq!(joins[0], actions.len() - 2);
    assert_eq!(actions.last(), Some(&Action::BeginFrame));

    // The blocking loading routine itself never runs.
    assert_eq!(count_loading(&actions), 0);
    assert!(orchestrator.bg_spawned);
    assert!(orchestrator.bg_joined);
}

#[test]
fn threaded_loading_joined_even_with_zero_iterations() {
    let mut orchestrator = Orchestrator::new(0, LoadingBehavior::Threaded);
    let actions = run_to_completion(&mut orchestrator, 1);

    assert_eq!(
        actions,
        vec![
            Action::EnableCapture,
            Action::SpawnBackground(THREADED_LOADING_SECS),
            Action::JoinBackground,
            Action::BeginFrame,
        ]
    );
    assert!(orchestrator.bg_spawned);
    assert!(orchestrator.bg_joined);
}

#[test]
fn no_loading_never_loads_nor_spawns() {
    let mut orchestrator = Orchestrator::new(2, LoadingBehavior::NoLoading);
    let actions = run_to_completion(&mut orchestrator, 777);

    assert_eq!(count_loading(&actions), 0);
    assert!(!actions
        .iter()
        .any(|a| matches!(a, Action::SpawnBackground(_) | Action::JoinBackground)));
    assert_eq!(orchestrator.loading_runs, 0);
    assert!(!orchestrator.bg_spawned);
    assert!(!orchestrator.bg_joined);
}

#[test]
fn unlimited_run_never_drains() {
    let mut orchestrator = Orchestrator::new(-1, LoadingBehavior::NoLoading);
    assert!(orchestrator.step(0).contains(&Action::EnableCapture));
    assert!(orchestrator.step(0).is_empty());
    for iteration in 1..=50u32 {
        let actions = orchestrator.step(iteration as u64);
        assert_eq!(actions.len(), 4);
        assert_eq!(actions[0], Action::BeginFrame);
        assert_eq!(actions[1], Action::BeginScope(iteration));
        assert!(!orchestrator.is_done());
    }
    assert_eq!(orchestrator.count, 50);
    assert_eq!(orchestrator.phase, Phase::Iterating);
}
