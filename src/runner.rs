//! The sequential scheduler: one item at a time, in priority order.
//!
//! The scheduler is a state machine. Its caller reads the work items, runs
//! the executor and applies checkpoint operations; the scheduler decides
//! what comes next from what it is told.

use vstd::prelude::*;
use crate::checkpoint::{PauseReason, StoryCheckpoint};
use crate::parallel::ParallelRunnerConfig;
use crate::story::{
    all_pass, count_passing, find_next_story, is_next_item, lemma_passing_count, none_eligible,
    passing_count, WorkItem,
};
use crate::text::{decimal, decimal_string};
use crate::ui::{DisplayOptions, UiMode};

verus! {

/// What the user chose when an earlier checkpoint was found.
#[derive(Clone, Copy, Debug, PartialEq, Eq, Structural)]
pub enum ResumeChoice {
    /// Resume execution from the checkpoint.
    Resume,
    /// Discard the checkpoint and start fresh.
    Discard,
    /// Show the checkpoint in detail.
    ViewDetails,
}

/// Configuration for a run.
pub struct RunnerConfig {
    /// Path of the requirements document.
    pub prd_path: String,
    /// Working directory of the run.
    pub working_dir: String,
    /// Iteration cap for each item.
    pub max_iterations_per_story: u32,
    /// Iteration cap for the whole run; 0 means unlimited.
    pub max_total_iterations: u32,
    /// Executor command; detected when absent.
    pub agent_command: Option<String>,
    /// How the run is displayed.
    pub display_options: DisplayOptions,
    /// Run items concurrently.
    pub parallel: bool,
    /// Settings for concurrent runs.
    pub parallel_config: Option<ParallelRunnerConfig>,
    /// Resume from a checkpoint if one exists.
    pub resume: bool,
    /// Never offer to resume.
    pub no_resume: bool,
    /// Executor timeout in seconds, when overridden.
    pub timeout_seconds: Option<u64>,
    /// Do not write checkpoints.
    pub no_checkpoint: bool,
}

impl Default for RunnerConfig {
    fn default() -> (r: Self)
        ensures
            r.prd_path@ == "prd.json"@,
            r.working_dir@ == "."@,
            r.max_iterations_per_story == 10,
            r.max_total_iterations == 0,
            r.agent_command is None,
            r.display_options.ui_mode == UiMode::Auto,
            r.display_options.color,
            !r.display_options.quiet,
            !r.parallel,
            r.parallel_config is None,
            !r.resume,
            !r.no_resume,
            r.timeout_seconds is None,
            !r.no_checkpoint,
    {
        RunnerConfig {
            prd_path: String::from_str("prd.json"),
            working_dir: String::from_str("."),
            max_iterations_per_story: 10,
            max_total_iterations: 0,
            agent_command: None,
            display_options: DisplayOptions::new(),
            parallel: false,
            parallel_config: None,
            resume: false,
            no_resume: false,
            timeout_seconds: None,
            no_checkpoint: false,
        }
    }
}

/// How a run ended.
#[derive(Clone, Copy, Debug, PartialEq, Eq, Structural)]
pub enum RunStatus {
    /// Every item is satisfied.
    Done,
    /// The global iteration cap is spent.
    Blocked,
    /// Nothing is left to try, but some items failed during this run.
    Incomplete,
    /// The run was cancelled.
    Cancelled,
    /// The work-item source could not be read.
    SourceError,
    /// No executor command is available to run the unfinished items.
    NoExecutor,
}

/// Summary of a run.
pub struct RunResult {
    pub status: RunStatus,
    /// Whether every item is satisfied.
    pub all_passed: bool,
    /// Number of satisfied items.
    pub stories_passed: usize,
    /// Number of items.
    pub total_stories: usize,
    /// Iterations used by the executor over the run.
    pub total_iterations: u32,
    /// Why the run stopped, when it did not finish.
    pub error: Option<String>,
}

impl RunResult {
    /// The summary of a run stopped because the work-item source could not
    /// be read.
    pub fn source_error(message: String, total_iterations: u32) -> (r: Self)
        ensures
            r.status == RunStatus::SourceError,
            !r.all_passed,
            r.stories_passed == 0,
            r.total_stories == 0,
            r.total_iterations == total_iterations,
            r.error == Some(message),
    {
        RunResult {
            status: RunStatus::SourceError,
            all_passed: false,
            stories_passed: 0,
            total_stories: 0,
            total_iterations,
            error: Some(message),
        }
    }

    /// The summary of a run that found unfinished items but no executor
    /// command to run them.
    pub fn no_executor(items: &Vec<WorkItem>, total_iterations: u32) -> (r: Self)
        ensures
            r.status == RunStatus::NoExecutor,
            !r.all_passed,
            r.stories_passed == passing_count(items@),
            r.total_stories == items.len(),
            r.total_iterations == total_iterations,
            r.error matches Some(m) && m@ == "No agent command found"@,
    {
        RunResult {
            status: RunStatus::NoExecutor,
            all_passed: false,
            stories_passed: count_passing(items),
            total_stories: items.len(),
            total_iterations,
            error: Some(String::from_str("No agent command found")),
        }
    }
}

/// What the executor reports after running one item to its end.
pub struct ExecutionResult {
    /// The item met its quality bar.
    pub success: bool,
    /// Iterations the executor used.
    pub iterations_used: u32,
    /// Reference of the commit made, if any.
    pub commit_hash: Option<String>,
    /// Why the item failed, if it did.
    pub error: Option<String>,
}

/// An operational failure of the executor, distinct from a failed attempt.
pub enum ExecutorError {
    /// The executor ran out of time; the message says where.
    Timeout(String),
    /// The run was cancelled.
    Cancelled,
    /// Anything else, with its message.
    Failed(String),
}

/// The pause reason that an executor error is recorded under.
pub open spec fn pause_reason_of(e: ExecutorError) -> PauseReason {
    match e {
        ExecutorError::Timeout(_) => PauseReason::Timeout,
        ExecutorError::Cancelled => PauseReason::UserRequested,
        ExecutorError::Failed(msg) => PauseReason::Error(msg),
    }
}

/// Classify an executor error as a pause reason.
pub fn error_to_pause_reason(e: &ExecutorError) -> (r: PauseReason)
    ensures
        r == pause_reason_of(*e),
{
    match e {
        ExecutorError::Timeout(_) => PauseReason::Timeout,
        ExecutorError::Cancelled => PauseReason::UserRequested,
        ExecutorError::Failed(msg) => PauseReason::Error(msg.clone()),
    }
}

/// What the caller must do with the checkpoint store.
pub enum CheckpointOp {
    /// Leave it as it is.
    Keep,
    /// Save a checkpoint for this item and reason.
    Save(StoryCheckpoint, PauseReason),
    /// Remove the checkpoint.
    Clear,
}

/// What the caller must do next.
pub enum SchedulerAction {
    /// Run the executor on `items[index]` with this iteration cap.
    Dispatch { index: usize, max_iterations: u32 },
    /// The run is over.
    Finish(RunResult),
}

/// A decision: the next action and the checkpoint operation that goes with it.
pub struct Decision {
    pub action: SchedulerAction,
    pub checkpoint: CheckpointOp,
}

/// The text that reports an exhausted global iteration cap.
pub open spec fn cap_message(cap: u32) -> Seq<char> {
    "Max total iterations ("@ + decimal(cap as nat) + ") reached"@
}

/// The text that reports an exhausted global iteration cap.
pub fn cap_reached_message(cap: u32) -> (r: String)
    ensures
        r@ == cap_message(cap),
{
    let mut msg = String::from_str("Max total iterations (");
    let n = decimal_string(cap as u64);
    msg.append(n.as_str());
    msg.append(") reached");
    msg
}

/// `a + b`, or `u32::MAX` when that does not fit.
pub open spec fn saturating_sum(a: u32, b: u32) -> u32 {
    if a + b > u32::MAX {
        u32::MAX
    } else {
        (a + b) as u32
    }
}

/// Iterations charged for one executor outcome: those reported, or one for
/// an operational error.
pub open spec fn charged_iterations(outcome: Result<ExecutionResult, ExecutorError>) -> u32 {
    match outcome {
        Ok(r) => r.iterations_used,
        Err(_) => 1,
    }
}

/// The single-worker scheduler.
pub struct SequentialScheduler {
    /// Iteration cap for each item.
    pub max_iterations_per_story: u32,
    /// Iteration cap for the run; 0 means unlimited.
    pub max_total_iterations: u32,
    /// Iterations used so far.
    pub total_iterations: u32,
    /// Items that failed during this run; they are not selected again.
    pub failed: Vec<String>,
    /// The item handed to the executor and not yet reported back.
    pub in_flight: Option<String>,
    /// The caller signalled cancellation; the run ends at the next selection.
    pub cancelled: bool,
}

impl SequentialScheduler {
    /// The identifiers currently in flight.
    pub open spec fn in_flight_ids(&self) -> Set<Seq<char>> {
        match self.in_flight {
            Some(id) => set![id@],
            None => Set::empty(),
        }
    }

    /// A fresh scheduler for the given configuration.
    pub fn new(config: &RunnerConfig) -> (r: Self)
        ensures
            r.max_iterations_per_story == config.max_iterations_per_story,
            r.max_total_iterations == config.max_total_iterations,
            r.total_iterations == 0,
            r.failed@.len() == 0,
            r.in_flight is None,
            !r.cancelled,
    {
        SequentialScheduler {
            max_iterations_per_story: config.max_iterations_per_story,
            max_total_iterations: config.max_total_iterations,
            total_iterations: 0,
            failed: Vec::new(),
            in_flight: None,
            cancelled: false,
        }
    }

    /// The global iteration cap is set and spent.
    pub open spec fn cap_spent(&self) -> bool {
        self.max_total_iterations > 0 && self.total_iterations >= self.max_total_iterations
    }

    /// Decide the next step from the freshly read work items.
    ///
    /// All items satisfied: the run is done and the checkpoint is cleared.
    /// Otherwise, after a cancellation, the run stops. Otherwise, with no
    /// eligible item left (every unfinished one failed in this run), the run
    /// ends incomplete. Otherwise, with the global cap spent, the run is
    /// blocked and a checkpoint for the next item is saved. Otherwise the next
    /// item is dispatched, after a checkpoint that resumes exactly there.
    pub fn select(&mut self, items: &Vec<WorkItem>) -> (d: Decision)
        requires
            old(self).in_flight is None,
        ensures
            final(self).max_iterations_per_story == old(self).max_iterations_per_story,
            final(self).max_total_iterations == old(self).max_total_iterations,
            final(self).total_iterations == old(self).total_iterations,
            final(self).failed == old(self).failed,
            final(self).cancelled == old(self).cancelled,
            all_pass(items@) ==> {
                &&& d.action matches SchedulerAction::Finish(r)
                &&& r.status == RunStatus::Done
                &&& r.all_passed
                &&& r.stories_passed == items.len()
                &&& r.total_stories == items.len()
                &&& r.total_iterations == old(self).total_iterations
                &&& r.error is None
                &&& d.checkpoint is Clear
                &&& final(self).in_flight is None
            },
            !all_pass(items@) && old(self).cancelled ==> {
                &&& d.action matches SchedulerAction::Finish(r)
                &&& r.status == RunStatus::Cancelled
                &&& !r.all_passed
                &&& r.stories_passed == passing_count(items@)
                &&& r.total_stories == items.len()
                &&& r.total_iterations == old(self).total_iterations
                &&& r.error is Some
                &&& d.checkpoint is Keep
                &&& final(self).in_flight is None
            },
            !all_pass(items@) && !old(self).cancelled && none_eligible(items@, old(self).failed@)
                ==> {
                &&& d.action matches SchedulerAction::Finish(r)
                &&& r.status == RunStatus::Incomplete
                &&& !r.all_passed
                &&& r.stories_passed == passing_count(items@)
                &&& r.total_stories == items.len()
                &&& r.total_iterations == old(self).total_iterations
                &&& r.error is Some
                &&& d.checkpoint is Keep
                &&& final(self).in_flight is None
            },
            !all_pass(items@) && !old(self).cancelled && !none_eligible(items@, old(self).failed@)
                && old(self).cap_spent() ==> {
                &&& d.action matches SchedulerAction::Finish(r)
                &&& r.status == RunStatus::Blocked
                &&& !r.all_passed
                &&& r.stories_passed == passing_count(items@)
                &&& r.total_stories == items.len()
                &&& r.total_iterations == old(self).total_iterations
                &&& r.error matches Some(msg) && msg@ == cap_message(old(self).max_total_iterations)
                &&& d.checkpoint matches CheckpointOp::Save(sc, reason)
                &&& reason == PauseReason::IterationLimit
                &&& sc.iteration == 1
                &&& sc.max_iterations == old(self).max_iterations_per_story
                &&& exists|k: int| is_next_item(items@, old(self).failed@, k)
                    && sc.story_id@ == (#[trigger] items@[k]).id@
                &&& final(self).in_flight is None
            },
            !all_pass(items@) && !old(self).cancelled && !none_eligible(items@, old(self).failed@)
                && !old(self).cap_spent() ==> {
                &&& d.action matches SchedulerAction::Dispatch { index, max_iterations }
                &&& is_next_item(items@, old(self).failed@, index as int)
                &&& max_iterations == old(self).max_iterations_per_story
                &&& d.checkpoint matches CheckpointOp::Save(sc, reason)
                &&& reason == PauseReason::UserRequested
                &&& sc.story_id@ == items@[index as int].id@
                &&& sc.iteration == 1
                &&& sc.max_iterations == old(self).max_iterations_per_story
                &&& final(self).in_flight matches Some(id) && id@ == items@[index as int].id@
            },
    {
        let passed = count_passing(items);
        let total = items.len();
        proof {
            lemma_passing_count(items@);
        }
        if passed == total {
            return Decision {
                action: SchedulerAction::Finish(
                    RunResult {
                        status: RunStatus::Done,
                        all_passed: true,
                        stories_passed: total,
                        total_stories: total,
                        total_iterations: self.total_iterations,
                        error: None,
                    },
                ),
                checkpoint: CheckpointOp::Clear,
            };
        }
        if self.cancelled {
            return Decision {
                action: SchedulerAction::Finish(
                    RunResult {
                        status: RunStatus::Cancelled,
                        all_passed: false,
                        stories_passed: passed,
                        total_stories: total,
                        total_iterations: self.total_iterations,
                        error: Some(String::from_str("Run cancelled")),
                    },
                ),
                checkpoint: CheckpointOp::Keep,
            };
        }
        match find_next_story(items, &self.failed) {
            None => Decision {
                action: SchedulerAction::Finish(
                    RunResult {
                        status: RunStatus::Incomplete,
                        all_passed: false,
                        stories_passed: passed,
                        total_stories: total,
                        total_iterations: self.total_iterations,
                        error: Some(String::from_str("Some stories failed during this run")),
                    },
                ),
                checkpoint: CheckpointOp::Keep,
            },
            Some(k) => {
                let story_id = &items[k].id;
                if self.max_total_iterations > 0 && self.total_iterations
                    >= self.max_total_iterations {
                    let msg = cap_reached_message(self.max_total_iterations);
                    Decision {
                        action: SchedulerAction::Finish(
                            RunResult {
                                status: RunStatus::Blocked,
                                all_passed: false,
                                stories_passed: passed,
                                total_stories: total,
                                total_iterations: self.total_iterations,
                                error: Some(msg),
                            },
                        ),
                        checkpoint: CheckpointOp::Save(
                            StoryCheckpoint::new(story_id, 1, self.max_iterations_per_story),
                            PauseReason::IterationLimit,
                        ),
                    }
                } else {
                    self.in_flight = Some(story_id.clone());
                    Decision {
                        action: SchedulerAction::Dispatch {
                            index: k,
                            max_iterations: self.max_iterations_per_story,
                        },
                        checkpoint: CheckpointOp::Save(
                            StoryCheckpoint::new(story_id, 1, self.max_iterations_per_story),
                            PauseReason::UserRequested,
                        ),
                    }
                }
            },
        }
    }

    /// Take in the executor's report on the item in flight.
    ///
    /// Success clears the checkpoint. A failed attempt saves a checkpoint with
    /// the failure and records the item as failed for this run. An operational
    /// error saves a checkpoint with its classified reason and scheduling goes
    /// on: a cancelled attempt leaves the item eligible, any other error marks
    /// it failed. The iterations used (one for an operational error) are added to
    /// the total, saturating at `u32::MAX`.
    pub fn record(&mut self, outcome: Result<ExecutionResult, ExecutorError>) -> (op: CheckpointOp)
        requires
            old(self).in_flight is Some,
        ensures
            final(self).in_flight is None,
            final(self).max_iterations_per_story == old(self).max_iterations_per_story,
            final(self).max_total_iterations == old(self).max_total_iterations,
            final(self).total_iterations == saturating_sum(
                old(self).total_iterations,
                charged_iterations(outcome),
            ),
            ({
                let id = old(self).in_flight->0;
                let max = old(self).max_iterations_per_story;
                match outcome {
                    Ok(r) => if r.success {
                        &&& op is Clear
                        &&& final(self).failed == old(self).failed
                        &&& final(self).cancelled == old(self).cancelled
                    } else {
                        &&& op matches CheckpointOp::Save(sc, reason)
                        &&& sc.story_id@ == id@
                        &&& sc.iteration == r.iterations_used
                        &&& sc.max_iterations == max
                        &&& reason matches PauseReason::Error(msg) && match r.error {
                            Some(e) => msg@ == e@,
                            None => msg@ == "Quality gates failed"@,
                        }
                        &&& final(self).failed@ == old(self).failed@.push(id)
                        &&& final(self).cancelled == old(self).cancelled
                    },
                    Err(e) => {
                        &&& op matches CheckpointOp::Save(sc, reason)
                        &&& sc.story_id@ == id@
                        &&& sc.iteration == 1
                        &&& sc.max_iterations == max
                        &&& reason == pause_reason_of(e)
                        &&& final(self).cancelled == old(self).cancelled
                        &&& if e is Cancelled {
                            final(self).failed == old(self).failed
                        } else {
                            final(self).failed@ == old(self).failed@.push(id)
                        }
                    },
                }
            }),
    {
        let id = match self.in_flight.take() {
            Some(id) => id,
            None => String::new(),
        };
        let charged: u32 = match &outcome {
            Ok(r) => r.iterations_used,
            Err(_) => 1,
        };
        self.total_iterations = self.total_iterations.saturating_add(charged);
        let max = self.max_iterations_per_story;
        match outcome {
            Ok(r) => {
                if r.success {
                    CheckpointOp::Clear
                } else {
                    let msg = match r.error {
                        Some(e) => e,
                        None => String::from_str("Quality gates failed"),
                    };
                    let sc = StoryCheckpoint::new(&id, r.iterations_used, max);
                    self.failed.push(id);
                    CheckpointOp::Save(sc, PauseReason::Error(msg))
                }
            },
            Err(e) => {
                let reason = error_to_pause_reason(&e);
                let sc = StoryCheckpoint::new(&id, 1, max);
                match e {
                    ExecutorError::Cancelled => {},
                    _ => {
                        self.failed.push(id);
                    },
                }
                CheckpointOp::Save(sc, reason)
            },
        }
    }

    /// The caller's cancellation signal: the next selection ends the run as
    /// cancelled, leaving the checkpoint as it is.
    pub fn cancel(&mut self)
        ensures
            final(self).cancelled,
            final(self).in_flight == old(self).in_flight,
            final(self).failed == old(self).failed,
            final(self).total_iterations == old(self).total_iterations,
            final(self).max_iterations_per_story == old(self).max_iterations_per_story,
            final(self).max_total_iterations == old(self).max_total_iterations,
    {
        self.cancelled = true;
    }
}

/// A run's configuration, from which its scheduler is made.
pub struct Runner {
    config: RunnerConfig,
}

impl Runner {
    /// The configuration of the run.
    pub closed spec fn spec_config(&self) -> RunnerConfig {
        self.config
    }

    pub fn new(config: RunnerConfig) -> (r: Self)
        ensures
            r.spec_config() == config,
    {
        Runner { config }
    }

    /// The configuration of the run.
    pub fn config(&self) -> (r: &RunnerConfig)
        ensures
            *r == self.spec_config(),
    {
        &self.config
    }

    /// A fresh sequential scheduler for this run.
    pub fn scheduler(&self) -> (r: SequentialScheduler)
        ensures
            r.max_iterations_per_story == self.spec_config().max_iterations_per_story,
            r.max_total_iterations == self.spec_config().max_total_iterations,
            r.total_iterations == 0,
            r.failed@.len() == 0,
            r.in_flight is None,
            !r.cancelled,
    {
        SequentialScheduler::new(&self.config)
    }
}

/// The sequential scheduler never has more than one item in flight.
pub proof fn lemma_sequential_single_in_flight(s: SequentialScheduler)
    ensures
        s.in_flight_ids().finite(),
        s.in_flight_ids().len() <= 1,
{
    match s.in_flight {
        Some(id) => {
            assert(s.in_flight_ids() == Set::<Seq<char>>::empty().insert(id@));
        },
        None => {},
    }
}

} // verus!
