use ralph::checkpoint::{Checkpoint, CheckpointStore, PauseReason, StoryCheckpoint};
use ralph::execution::ParallelExecutionState;
use ralph::parallel::{
    admit_next, footprint, record_outcome, ParallelAction, ParallelRunnerConfig, ParallelScheduler, ParallelStep,
};
use ralph::runner::{
    error_to_pause_reason, CheckpointOp, ExecutionResult, ExecutorError, RunResult, RunStatus, Runner,
    RunnerConfig, SchedulerAction, SequentialScheduler,
};
use ralph::story::{count_passing, find_next_story, WorkItem};
use ralph::vcs::{parse_status_output, status_line_path};

fn item(id: &str, priority: u32, passes: bool, resources: &[&str]) -> WorkItem {
    WorkItem {
        id: id.to_string(),
        title: format!("Story {}", id),
        priority,
        passes,
        resources: resources.iter().map(|r| r.to_string()).collect(),
    }
}

fn ok(success: bool, iterations: u32) -> Result<ExecutionResult, ExecutorError> {
    Ok(ExecutionResult {
        success,
        iterations_used: iterations,
        commit_hash: None,
        error: if success { None } else { Some("tests failed".to_string()) },
    })
}

fn apply(store: &mut CheckpointStore, op: CheckpointOp) {
    match op {
        CheckpointOp::Keep => {}
        CheckpointOp::Clear => store.clear(),
        CheckpointOp::Save(story, reason) => store.save(Checkpoint::new(Some(story), reason, vec![], 0)),
    }
}

/// Drive the sequential scheduler over `items`, asking `exec` for each
/// dispatched item's outcome and marking successes as passing.
fn run_sequential(
    items: &mut Vec<WorkItem>,
    config: &RunnerConfig,
    store: &mut CheckpointStore,
    mut exec: impl FnMut(&str) -> Result<ExecutionResult, ExecutorError>,
) -> (RunResult, Vec<String>, SequentialScheduler) {
    let mut scheduler = SequentialScheduler::new(config);
    let mut order = Vec::new();
    loop {
        let decision = scheduler.select(items);
        apply(store, decision.checkpoint);
        match decision.action {
            SchedulerAction::Finish(result) => return (result, order, scheduler),
            SchedulerAction::Dispatch { index, .. } => {
                assert!(scheduler.in_flight.is_some());
                let id = items[index].id.clone();
                order.push(id.clone());
                let outcome = exec(&id);
                let passed = matches!(&outcome, Ok(r) if r.success);
                let op = scheduler.record(outcome);
                apply(store, op);
                if passed {
                    items[index].passes = true;
                }
            }
        }
    }
}

#[test]
fn all_passing_items_finish_immediately() {
    let mut items = vec![item("A", 1, true, &[]), item("B", 2, true, &[])];
    let mut store = CheckpointStore::new();
    store.save(Checkpoint::new(None, PauseReason::Timeout, vec![], 1));
    let (result, order, _) = run_sequential(&mut items, &RunnerConfig::default(), &mut store, |_| ok(true, 1));
    assert_eq!(result.status, RunStatus::Done);
    assert!(result.all_passed);
    assert_eq!(result.stories_passed, 2);
    assert_eq!(result.total_stories, 2);
    assert_eq!(result.total_iterations, 0);
    assert!(order.is_empty());
    assert!(store.load().is_none());
}

#[test]
fn empty_item_set_is_done() {
    let mut items: Vec<WorkItem> = vec![];
    let mut store = CheckpointStore::new();
    let (result, _, _) = run_sequential(&mut items, &RunnerConfig::default(), &mut store, |_| ok(true, 1));
    assert_eq!(result.status, RunStatus::Done);
    assert_eq!(result.total_stories, 0);
}

#[test]
fn sequential_runs_in_priority_order() {
    let mut items = vec![item("B", 2, false, &[]), item("A", 1, false, &[])];
    let mut store = CheckpointStore::new();
    let (result, order, _) = run_sequential(&mut items, &RunnerConfig::default(), &mut store, |_| ok(true, 2));
    assert_eq!(order, vec!["A".to_string(), "B".to_string()]);
    assert_eq!(result.status, RunStatus::Done);
    assert_eq!(result.stories_passed, 2);
    assert_eq!(result.total_iterations, 4);
    assert!(store.load().is_none());
}

#[test]
fn higher_priority_item_runs_first() {
    let mut items = vec![item("A", 1, false, &[]), item("B", 2, false, &[])];
    let config = RunnerConfig { max_total_iterations: 0, ..RunnerConfig::default() };
    let mut store = CheckpointStore::new();
    let (result, order, _) = run_sequential(&mut items, &config, &mut store, |_| ok(true, 1));
    assert_eq!(order, vec!["A".to_string(), "B".to_string()]);
    assert_eq!(result.status, RunStatus::Done);
    assert!(result.all_passed);
    assert_eq!(result.stories_passed, 2);
}

#[test]
fn priority_ties_go_to_source_order() {
    let items = vec![item("X", 3, false, &[]), item("Y", 1, false, &[]), item("Z", 1, false, &[])];
    assert_eq!(find_next_story(&items, &vec![]), Some(1));
    assert_eq!(find_next_story(&items, &vec!["Y".to_string()]), Some(2));
    assert_eq!(find_next_story(&items, &vec!["Y".to_string(), "Z".to_string(), "X".to_string()]), None);
    assert_eq!(count_passing(&items), 0);
}

#[test]
fn global_cap_blocks_after_one_attempt() {
    let mut items = vec![item("A", 1, false, &[]), item("B", 2, false, &[])];
    let config = RunnerConfig { max_total_iterations: 1, ..RunnerConfig::default() };
    let mut store = CheckpointStore::new();
    let (result, order, _) = run_sequential(&mut items, &config, &mut store, |_| ok(false, 1));
    assert_eq!(order, vec!["A".to_string()]);
    assert_eq!(result.status, RunStatus::Blocked);
    assert!(!result.all_passed);
    assert_eq!(result.error, Some("Max total iterations (1) reached".to_string()));
    let cp = store.load().expect("checkpoint present");
    assert!(matches!(cp.pause_reason, PauseReason::IterationLimit));
    assert_eq!(cp.story.as_ref().unwrap().story_id, "B");
    assert_eq!(cp.story.as_ref().unwrap().iteration, 1);
    assert_eq!(cp.story.as_ref().unwrap().max_iterations, 10);
}

#[test]
fn failed_item_is_recorded_and_others_continue() {
    let mut items = vec![item("A", 1, false, &[]), item("B", 2, false, &[])];
    let mut store = CheckpointStore::new();
    let (result, order, scheduler) = run_sequential(&mut items, &RunnerConfig::default(), &mut store, |id| {
        if id == "A" { ok(false, 3) } else { ok(true, 1) }
    });
    assert_eq!(order, vec!["A".to_string(), "B".to_string()]);
    assert_eq!(result.stories_passed, 1);
    assert!(!result.all_passed);
    assert_eq!(result.status, RunStatus::Incomplete);
    assert_eq!(scheduler.failed, vec!["A".to_string()]);
    assert_eq!(result.total_iterations, 4);
    // B succeeded last, which cleared the checkpoint A's failure had written.
    assert!(store.load().is_none());
}

#[test]
fn failure_checkpoint_carries_the_error() {
    let config = RunnerConfig::default();
    let mut scheduler = SequentialScheduler::new(&config);
    let items = vec![item("A", 1, false, &[])];
    let d = scheduler.select(&items);
    match d.checkpoint {
        CheckpointOp::Save(sc, PauseReason::UserRequested) => {
            assert_eq!(sc.story_id, "A");
            assert_eq!(sc.iteration, 1);
        }
        _ => panic!("dispatch must save a resumable checkpoint"),
    }
    let op = scheduler.record(Ok(ExecutionResult { success: false, iterations_used: 4, commit_hash: None, error: None }));
    match op {
        CheckpointOp::Save(sc, PauseReason::Error(msg)) => {
            assert_eq!(sc.iteration, 4);
            assert_eq!(msg, "Quality gates failed");
        }
        _ => panic!("failure must save a checkpoint"),
    }
    assert!(scheduler.in_flight.is_none());
}

#[test]
fn executor_errors_are_classified() {
    assert!(matches!(error_to_pause_reason(&ExecutorError::Timeout("slow".to_string())), PauseReason::Timeout));
    assert!(matches!(error_to_pause_reason(&ExecutorError::Cancelled), PauseReason::UserRequested));
    match error_to_pause_reason(&ExecutorError::Failed("spawn failed".to_string())) {
        PauseReason::Error(m) => assert_eq!(m, "spawn failed"),
        _ => panic!("other errors keep their text"),
    }
}

#[test]
fn cancelled_attempt_keeps_the_run_going() {
    let mut items = vec![item("A", 1, false, &[]), item("B", 2, false, &[])];
    let mut store = CheckpointStore::new();
    let mut attempts = 0;
    let (result, order, scheduler) = run_sequential(&mut items, &RunnerConfig::default(), &mut store, |id| {
        attempts += 1;
        if id == "A" && attempts == 1 { Err(ExecutorError::Cancelled) } else { ok(true, 1) }
    });
    assert_eq!(order, vec!["A".to_string(), "A".to_string(), "B".to_string()]);
    assert_eq!(result.status, RunStatus::Done);
    assert!(scheduler.failed.is_empty());
    assert_eq!(result.total_iterations, 3);
}

#[test]
fn cancelled_attempt_saves_user_requested_checkpoint() {
    let mut scheduler = SequentialScheduler::new(&RunnerConfig::default());
    let items = vec![item("A", 1, false, &[])];
    let _ = scheduler.select(&items);
    match scheduler.record(Err(ExecutorError::Cancelled)) {
        CheckpointOp::Save(sc, PauseReason::UserRequested) => assert_eq!(sc.story_id, "A"),
        _ => panic!("a cancelled attempt saves a user-requested checkpoint"),
    }
    assert!(!scheduler.cancelled);
    assert!(scheduler.failed.is_empty());
}

#[test]
fn cancel_signal_ends_the_run() {
    let mut scheduler = SequentialScheduler::new(&RunnerConfig::default());
    let items = vec![item("A", 1, false, &[]), item("B", 2, false, &[])];
    let _ = scheduler.select(&items);
    scheduler.cancel();
    let _ = scheduler.record(Err(ExecutorError::Cancelled));
    let d = scheduler.select(&items);
    match d.action {
        SchedulerAction::Finish(r) => {
            assert_eq!(r.status, RunStatus::Cancelled);
            assert!(!r.all_passed);
        }
        _ => panic!("a cancelled run must end"),
    }
    assert!(matches!(d.checkpoint, CheckpointOp::Keep));
}

#[test]
fn operational_error_moves_on_to_next_item() {
    let mut items = vec![item("A", 1, false, &[]), item("B", 2, false, &[])];
    let mut store = CheckpointStore::new();
    let (result, order, _) = run_sequential(&mut items, &RunnerConfig::default(), &mut store, |id| {
        if id == "A" { Err(ExecutorError::Timeout("agent timed out".to_string())) } else { ok(true, 2) }
    });
    assert_eq!(order, vec!["A".to_string(), "B".to_string()]);
    assert_eq!(result.stories_passed, 1);
    assert_eq!(result.total_iterations, 3);
}

#[test]
fn iteration_total_saturates() {
    let config = RunnerConfig::default();
    let mut scheduler = SequentialScheduler::new(&config);
    scheduler.total_iterations = u32::MAX - 1;
    let items = vec![item("A", 1, false, &[])];
    let _ = scheduler.select(&items);
    let _ = scheduler.record(ok(true, 5));
    assert_eq!(scheduler.total_iterations, u32::MAX);
}

#[test]
fn runner_builds_scheduler_from_config() {
    let config = RunnerConfig { max_iterations_per_story: 7, max_total_iterations: 20, ..RunnerConfig::default() };
    let runner = Runner::new(config);
    let s = runner.scheduler();
    assert_eq!(s.max_iterations_per_story, 7);
    assert_eq!(s.max_total_iterations, 20);
    assert_eq!(runner.config().prd_path, "prd.json");
}

#[test]
fn checkpoint_round_trip() {
    let mut store = CheckpointStore::new();
    assert!(store.load().is_none());
    let cp = Checkpoint::new(
        Some(StoryCheckpoint::new(&"US-001".to_string(), 2, 10)),
        PauseReason::Error("boom".to_string()),
        vec!["src/lib.rs".to_string()],
        1700000000,
    );
    store.save(cp);
    let loaded = store.load().unwrap();
    assert_eq!(loaded.story.as_ref().unwrap().story_id, "US-001");
    assert_eq!(loaded.story.as_ref().unwrap().iteration, 2);
    assert_eq!(loaded.uncommitted_files, vec!["src/lib.rs".to_string()]);
    assert_eq!(loaded.created_at, 1700000000);
    assert!(store.has_checkpoint());
    store.save(Checkpoint::new(None, PauseReason::Timeout, vec![], 5));
    assert!(store.load().unwrap().story.is_none());
    store.clear();
    assert!(store.load().is_none());
    store.clear();
    assert!(!store.has_checkpoint());
}

fn config(n: u32) -> ParallelRunnerConfig {
    ParallelRunnerConfig { max_concurrency: n, infer_dependencies: true, fallback_to_sequential: true }
}

#[test]
fn parallel_respects_concurrency_limit() {
    let items = vec![
        item("A", 1, false, &["a.rs"]),
        item("B", 2, false, &["b.rs"]),
        item("C", 3, false, &["c.rs"]),
    ];
    let mut state = ParallelExecutionState::new();
    assert!(matches!(admit_next(&mut state, &items, &config(2)), ParallelStep::Admitted { index: 0 }));
    assert!(matches!(admit_next(&mut state, &items, &config(2)), ParallelStep::Admitted { index: 1 }));
    assert!(matches!(admit_next(&mut state, &items, &config(2)), ParallelStep::Wait));
    assert_eq!(state.in_flight.len(), 2);
    let _ = record_outcome(&mut state, &"A".to_string(), 10, ok(true, 1));
    assert!(matches!(admit_next(&mut state, &items, &config(2)), ParallelStep::Admitted { index: 2 }));
    let _ = record_outcome(&mut state, &"B".to_string(), 10, ok(true, 1));
    let _ = record_outcome(&mut state, &"C".to_string(), 10, ok(true, 1));
    assert!(matches!(admit_next(&mut state, &items, &config(2)), ParallelStep::Finished));
    assert_eq!(state.completed, vec!["A".to_string(), "B".to_string(), "C".to_string()]);
    assert!(state.locked_files.is_empty());
}

#[test]
fn overlapping_footprints_are_serialized() {
    let items = vec![item("A", 1, false, &["src/x.rs", "src/y.rs"]), item("B", 2, false, &["src/y.rs"])];
    let mut state = ParallelExecutionState::new();
    let mut events = Vec::new();
    loop {
        match admit_next(&mut state, &items, &config(2)) {
            ParallelStep::Admitted { index } => {
                events.push(format!("start {}", items[index].id));
                assert!(state.in_flight.len() <= 1, "A and B must never run together");
            }
            ParallelStep::Wait => {
                let id = state.in_flight[0].clone();
                events.push(format!("end {}", id));
                let _ = record_outcome(&mut state, &id, 10, ok(true, 1));
            }
            ParallelStep::Finished => break,
            ParallelStep::Stalled => panic!("no stall expected"),
        }
    }
    assert_eq!(events, vec!["start A", "end A", "start B", "end B"]);
}

#[test]
fn non_conflicting_lower_priority_item_runs_alongside() {
    let items = vec![
        item("A", 1, false, &["shared"]),
        item("B", 2, false, &["shared"]),
        item("C", 3, false, &["other"]),
    ];
    let mut state = ParallelExecutionState::new();
    assert!(matches!(admit_next(&mut state, &items, &config(3)), ParallelStep::Admitted { index: 0 }));
    assert!(matches!(admit_next(&mut state, &items, &config(3)), ParallelStep::Admitted { index: 2 }));
    assert!(matches!(admit_next(&mut state, &items, &config(3)), ParallelStep::Wait));
}

#[test]
fn unscoped_items_serialize_against_each_other() {
    let items = vec![item("A", 1, false, &[]), item("B", 1, false, &[])];
    assert_eq!(footprint(&items[0]), vec!["<unscoped>".to_string()]);
    let mut state = ParallelExecutionState::new();
    assert!(matches!(admit_next(&mut state, &items, &config(4)), ParallelStep::Admitted { index: 0 }));
    assert!(matches!(admit_next(&mut state, &items, &config(4)), ParallelStep::Wait));
}

#[test]
fn zero_capacity_stalls() {
    let items = vec![item("A", 1, false, &[])];
    let mut state = ParallelExecutionState::new();
    assert!(matches!(admit_next(&mut state, &items, &config(0)), ParallelStep::Stalled));
}

#[test]
fn parallel_failure_and_cancellation() {
    let items = vec![item("A", 1, false, &["a"]), item("B", 2, false, &["b"])];
    let mut state = ParallelExecutionState::new();
    let _ = admit_next(&mut state, &items, &config(2));
    let _ = admit_next(&mut state, &items, &config(2));
    match record_outcome(&mut state, &"A".to_string(), 10, ok(false, 2)) {
        CheckpointOp::Save(sc, PauseReason::Error(m)) => {
            assert_eq!(sc.story_id, "A");
            assert_eq!(m, "tests failed");
        }
        _ => panic!("failure saves a checkpoint"),
    }
    assert_eq!(state.failed, vec![("A".to_string(), "tests failed".to_string())]);
    let op = record_outcome(&mut state, &"B".to_string(), 10, Err(ExecutorError::Cancelled));
    assert!(matches!(op, CheckpointOp::Save(_, PauseReason::UserRequested)));
    assert!(state.completed.is_empty());
    assert_eq!(state.failed.len(), 1);
    assert!(state.in_flight.is_empty());
    assert!(state.locked_files.is_empty());
}

#[test]
fn try_admit_is_all_or_nothing() {
    let mut state = ParallelExecutionState::new();
    assert!(state.try_admit(&"A".to_string(), &vec!["x".to_string(), "y".to_string()]));
    assert!(!state.try_admit(&"B".to_string(), &vec!["z".to_string(), "y".to_string()]));
    assert_eq!(state.locked_files.len(), 2);
    assert!(!state.knows(&"B".to_string()));
    assert!(state.try_admit(&"C".to_string(), &vec!["z".to_string(), "z".to_string()]));
    assert_eq!(state.locked_files.len(), 3);
    state.release(&"A".to_string());
    assert_eq!(state.locked_files, vec![("z".to_string(), "C".to_string())]);
    assert_eq!(state.in_flight, vec!["A".to_string(), "C".to_string()]);
}

#[test]
fn parallel_config_default() {
    let c = ParallelRunnerConfig::default();
    assert_eq!(c.max_concurrency, 3);
    assert!(c.infer_dependencies);
    assert!(c.fallback_to_sequential);
}

#[test]
fn status_listing_yields_paths() {
    let out = " M src/lib.rs\n?? notes.txt\nA  a b.rs\r\n\n M \n";
    assert_eq!(
        parse_status_output(out),
        vec!["src/lib.rs".to_string(), "notes.txt".to_string(), "a b.rs".to_string()]
    );
    assert_eq!(parse_status_output("?? last"), vec!["last".to_string()]);
    assert!(parse_status_output("").is_empty());
    assert_eq!(status_line_path("MM  x  "), Some(" x".to_string()));
    assert_eq!(status_line_path(" M "), None);
}

fn run_parallel_scheduler(
    items: &mut Vec<WorkItem>,
    runner: &RunnerConfig,
    limit: u32,
    store: &mut CheckpointStore,
    mut exec: impl FnMut(&str) -> Result<ExecutionResult, ExecutorError>,
) -> (RunResult, Vec<String>) {
    let mut scheduler = ParallelScheduler::new(runner, config(limit));
    let mut events = Vec::new();
    let mut running: Vec<String> = Vec::new();
    loop {
        let decision = scheduler.step(items);
        apply(store, decision.checkpoint);
        match decision.action {
            ParallelAction::Dispatch { index, .. } => {
                assert!(scheduler.state.in_flight.len() <= limit as usize);
                events.push(format!("start {}", items[index].id));
                running.push(items[index].id.clone());
            }
            ParallelAction::Wait => {
                let id = running.remove(0);
                events.push(format!("end {}", id));
                let outcome = exec(&id);
                let passed = matches!(&outcome, Ok(r) if r.success);
                let op = scheduler.record(&id, outcome);
                apply(store, op);
                if passed {
                    items.iter_mut().filter(|i| i.id == id).for_each(|i| i.passes = true);
                }
            }
            ParallelAction::Finish(result) => return (result, events),
            ParallelAction::Stall => panic!("unexpected stall"),
        }
    }
}

#[test]
fn parallel_scheduler_runs_everything() {
    let mut items = vec![item("A", 1, false, &["a"]), item("B", 2, false, &["a"]), item("C", 3, false, &["c"])];
    let mut store = CheckpointStore::new();
    let (result, events) = run_parallel_scheduler(&mut items, &RunnerConfig::default(), 2, &mut store, |_| ok(true, 2));
    assert_eq!(result.status, RunStatus::Done);
    assert!(result.all_passed);
    assert_eq!(result.stories_passed, 3);
    assert_eq!(result.total_iterations, 6);
    assert_eq!(events, vec!["start A", "start C", "end A", "start B", "end C", "end B"]);
    assert!(store.load().is_none());
}

#[test]
fn parallel_scheduler_blocks_on_spent_budget() {
    let mut items = vec![item("A", 1, false, &["a"]), item("B", 2, false, &["b"]), item("C", 3, false, &["c"])];
    let runner = RunnerConfig { max_total_iterations: 2, ..RunnerConfig::default() };
    let mut store = CheckpointStore::new();
    let (result, events) = run_parallel_scheduler(&mut items, &runner, 2, &mut store, |_| ok(true, 2));
    assert_eq!(events, vec!["start A", "start B", "end A", "end B"]);
    assert_eq!(result.status, RunStatus::Blocked);
    assert_eq!(result.error, Some("Max total iterations (2) reached".to_string()));
    assert_eq!(result.stories_passed, 2);
    assert_eq!(result.total_iterations, 4);
    let cp = store.load().unwrap();
    assert!(matches!(cp.pause_reason, PauseReason::IterationLimit));
    assert_eq!(cp.story.as_ref().unwrap().story_id, "C");
}

#[test]
fn parallel_scheduler_reports_failures() {
    let mut items = vec![item("A", 1, false, &["a"]), item("B", 2, false, &["b"])];
    let mut store = CheckpointStore::new();
    let (result, _) = run_parallel_scheduler(&mut items, &RunnerConfig::default(), 2, &mut store, |id| {
        if id == "A" { ok(false, 1) } else { ok(true, 1) }
    });
    assert_eq!(result.status, RunStatus::Incomplete);
    assert!(!result.all_passed);
    assert_eq!(result.stories_passed, 1);
    assert!(store.load().is_some());
}

#[test]
fn parallel_scheduler_stops_admitting_after_cancellation() {
    let items = vec![item("A", 1, false, &["a"]), item("B", 2, false, &["b"]), item("C", 3, false, &["c"])];
    let mut scheduler = ParallelScheduler::new(&RunnerConfig::default(), config(2));
    assert!(matches!(scheduler.step(&items).action, ParallelAction::Dispatch { index: 0, .. }));
    assert!(matches!(scheduler.step(&items).action, ParallelAction::Dispatch { index: 1, .. }));
    scheduler.cancel();
    let op = scheduler.record(&"A".to_string(), Err(ExecutorError::Cancelled));
    assert!(matches!(op, CheckpointOp::Save(_, PauseReason::UserRequested)));
    assert!(matches!(scheduler.step(&items).action, ParallelAction::Wait));
    let _ = scheduler.record(&"B".to_string(), ok(true, 1));
    match scheduler.step(&items).action {
        ParallelAction::Finish(r) => {
            assert_eq!(r.status, RunStatus::Cancelled);
            assert!(!r.all_passed);
        }
        _ => panic!("the run must end after a cancellation"),
    }
    assert!(scheduler.state.failed.is_empty());
    assert_eq!(scheduler.state.completed, vec!["B".to_string()]);
}

#[test]
fn parallel_cancelled_attempt_is_readmitted() {
    let items = vec![item("A", 1, false, &["a"])];
    let mut scheduler = ParallelScheduler::new(&RunnerConfig::default(), config(2));
    assert!(matches!(scheduler.step(&items).action, ParallelAction::Dispatch { index: 0, .. }));
    let _ = scheduler.record(&"A".to_string(), Err(ExecutorError::Cancelled));
    assert!(!scheduler.cancelled);
    assert!(matches!(scheduler.step(&items).action, ParallelAction::Dispatch { index: 0, .. }));
}

#[test]
fn result_constructors() {
    let r = RunResult::source_error("Failed to load PRD: missing".to_string(), 4);
    assert_eq!(r.status, RunStatus::SourceError);
    assert_eq!(r.total_iterations, 4);
    let items = vec![item("A", 1, true, &[]), item("B", 2, false, &[])];
    let n = RunResult::no_executor(&items, 0);
    assert_eq!(n.status, RunStatus::NoExecutor);
    assert_eq!(n.stories_passed, 1);
    assert_eq!(n.total_stories, 2);
    assert_eq!(n.error, Some("No agent command found".to_string()));
}
