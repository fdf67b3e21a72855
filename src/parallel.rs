//! The parallel scheduler: bounded concurrency with resource-conflict
//! avoidance.

use vstd::prelude::*;
use crate::checkpoint::{PauseReason, StoryCheckpoint};
use crate::execution::{
    first_ids, lemma_first_ids_push, lemma_listed_push, views, ParallelExecutionState,
};
use crate::runner::{
    cap_message, cap_reached_message, charged_iterations, pause_reason_of, saturating_sum,
    CheckpointOp, ExecutionResult, ExecutorError, RunResult, RunStatus, RunnerConfig,
};
use crate::story::{all_pass, contains_id, count_passing, lemma_passing_count, passing_count, WorkItem};

verus! {

/// Configuration options for parallel execution.
pub struct ParallelRunnerConfig {
    /// Maximum number of items executing at once.
    pub max_concurrency: u32,
    /// Whether to infer resource footprints for items that declare none.
    pub infer_dependencies: bool,
    /// Whether to fall back to sequential execution on a systemic error.
    pub fallback_to_sequential: bool,
}

impl Clone for ParallelRunnerConfig {
    fn clone(&self) -> (r: Self)
        ensures
            r == *self,
    {
        ParallelRunnerConfig {
            max_concurrency: self.max_concurrency,
            infer_dependencies: self.infer_dependencies,
            fallback_to_sequential: self.fallback_to_sequential,
        }
    }
}

impl Default for ParallelRunnerConfig {
    fn default() -> (r: Self)
        ensures
            r.max_concurrency == 3,
            r.infer_dependencies,
            r.fallback_to_sequential,
    {
        ParallelRunnerConfig {
            max_concurrency: 3,
            infer_dependencies: true,
            fallback_to_sequential: true,
        }
    }
}


/// The resource that every item without a declared footprint claims, so that
/// such items never run alongside each other.
pub open spec fn unscoped_resource() -> Seq<char> {
    "<unscoped>"@
}

/// The resources an item claims: those it declares, or the unscoped sentinel
/// when it declares none.
pub open spec fn footprint_of(item: WorkItem) -> Seq<Seq<char>> {
    if item.resources@.len() == 0 {
        seq![unscoped_resource()]
    } else {
        views(item.resources@)
    }
}

/// The resources `item` claims while it runs.
pub fn footprint(item: &WorkItem) -> (r: Vec<String>)
    ensures
        views(r@) == footprint_of(*item),
{
    let mut r: Vec<String> = Vec::new();
    if item.resources.len() == 0 {
        r.push(String::from_str("<unscoped>"));
        proof {
            assert(views(r@) =~= seq![unscoped_resource()]);
        }
        return r;
    }
    let mut k: usize = 0;
    while k < item.resources.len()
        invariant
            k <= item.resources@.len(),
            views(r@) =~= views(item.resources@.subrange(0, k as int)),
        decreases item.resources.len() - k,
    {
        let ghost before = r@;
        r.push(item.resources[k].clone());
        proof {
            assert(views(r@) =~= views(before).push(item.resources@[k as int]@));
            assert(views(item.resources@.subrange(0, k as int + 1)) =~= views(
                item.resources@.subrange(0, k as int),
            ).push(item.resources@[k as int]@));
        }
        k += 1;
    }
    proof {
        assert(item.resources@.subrange(0, item.resources@.len() as int) =~= item.resources@);
    }
    r
}

/// The item is unfinished and not yet taken up in this run.
pub open spec fn parallel_eligible(state: ParallelExecutionState, item: WorkItem) -> bool {
    !item.passes && !state.is_known(item.id@)
}

/// The item is eligible and none of its resources is claimed.
pub open spec fn admissible(state: ParallelExecutionState, item: WorkItem) -> bool {
    &&& parallel_eligible(state, item)
    &&& forall|p: int|
        0 <= p < footprint_of(item).len() ==> !state.is_locked(#[trigger] footprint_of(item)[p])
}

/// `k` is the admissible item with the lowest priority value, the first in
/// source order among equals.
pub open spec fn is_best_admissible(
    state: ParallelExecutionState,
    items: Seq<WorkItem>,
    k: int,
) -> bool {
    &&& 0 <= k < items.len()
    &&& admissible(state, items[k])
    &&& forall|j: int|
        0 <= j < items.len() && admissible(state, #[trigger] items[j]) ==> items[k].priority
            <= items[j].priority
    &&& forall|j: int|
        0 <= j < k && admissible(state, #[trigger] items[j]) ==> items[k].priority
            < items[j].priority
}

/// Some item is still to be taken up.
pub open spec fn any_eligible(state: ParallelExecutionState, items: Seq<WorkItem>) -> bool {
    exists|j: int| 0 <= j < items.len() && parallel_eligible(state, #[trigger] items[j])
}

/// Some item could be admitted now, capacity aside.
pub open spec fn any_admissible(state: ParallelExecutionState, items: Seq<WorkItem>) -> bool {
    exists|j: int| 0 <= j < items.len() && admissible(state, #[trigger] items[j])
}

/// One admission step of the parallel scheduler.
pub enum ParallelStep {
    /// `items[index]` was admitted and must be dispatched.
    Admitted { index: usize },
    /// Nothing can be admitted until an item in flight finishes.
    Wait,
    /// No item is left to take up and none is in flight.
    Finished,
    /// Items remain but none can ever be admitted (no capacity): a systemic
    /// error, on which the caller may fall back to sequential execution.
    Stalled,
}

impl ParallelExecutionState {
    /// Whether `id` is in flight, completed or failed.
    pub fn knows(&self, id: &String) -> (r: bool)
        ensures
            r == self.is_known(id@),
    {
        if contains_id(&self.in_flight, id) || contains_id(&self.completed, id) {
            return true;
        }
        let mut k: usize = 0;
        while k < self.failed.len()
            invariant
                k <= self.failed@.len(),
                forall|j: int| 0 <= j < k ==> (#[trigger] self.failed@[j]).0@ != id@,
            decreases self.failed.len() - k,
        {
            if self.failed[k].0 == *id {
                proof {
                    assert(crate::execution::first_ids(self.failed@)[k as int] == self.failed@[k as int].0);
                }
                return true;
            }
            k += 1;
        }
        proof {
            if self.is_failed(id@) {
                let j = choose|j: int|
                    0 <= j < crate::execution::first_ids(self.failed@).len()
                        && (#[trigger] crate::execution::first_ids(self.failed@)[j])@ == id@;
                assert(crate::execution::first_ids(self.failed@)[j] == self.failed@[j].0);
            }
        }
        false
    }

    /// Whether any of `resources` is claimed.
    pub fn any_locked(&self, resources: &Vec<String>) -> (r: bool)
        ensures
            r == exists|p: int| 0 <= p < resources@.len() && self.is_locked(#[trigger] resources@[p]@),
    {
        let mut p: usize = 0;
        while p < resources.len()
            invariant
                p <= resources@.len(),
                forall|q: int| 0 <= q < p ==> !self.is_locked(#[trigger] resources@[q]@),
            decreases resources.len() - p,
        {
            let mut i: usize = 0;
            while i < self.locked_files.len()
                invariant
                    i <= self.locked_files@.len(),
                    p < resources@.len(),
                    forall|j: int|
                        0 <= j < i ==> (#[trigger] self.locked_files@[j]).0@ != resources@[p as int]@,
                decreases self.locked_files.len() - i,
            {
                if self.locked_files[i].0 == resources[p] {
                    return true;
                }
                i += 1;
            }
            p += 1;
        }
        false
    }

    /// Take `id`, in flight, out of the run without marking it completed or
    /// failed, and release its claims (an interrupted item).
    pub fn interrupt(&mut self, id: &String)
        requires
            old(self).wf(),
            old(self).is_in_flight(id@),
        ensures
            final(self).wf(),
            final(self).in_flight@.len() == old(self).in_flight@.len() - 1,
            forall|x: Seq<char>| #[trigger]
                final(self).is_in_flight(x) <==> old(self).is_in_flight(x) && x != id@,
            final(self).completed == old(self).completed,
            final(self).failed == old(self).failed,
            forall|x: Seq<char>, path: Seq<char>|
                #[trigger] final(self).holds(x, path) <==> old(self).holds(x, path) && x != id@,
    {
        self.withdraw(id);
    }
}

/// Whether `item` can be admitted now, capacity aside.
fn is_admissible_now(state: &ParallelExecutionState, item: &WorkItem) -> (r: bool)
    ensures
        r == admissible(*state, *item),
{
    if item.passes || state.knows(&item.id) {
        return false;
    }
    let fp = footprint(item);
    let locked = state.any_locked(&fp);
    proof {
        if !locked {
            assert forall|p: int| 0 <= p < footprint_of(*item).len() implies !state.is_locked(
                #[trigger] footprint_of(*item)[p],
            ) by {
                assert(views(fp@)[p] == fp@[p]@);
            }
        } else {
            let p = choose|p: int| 0 <= p < fp@.len() && state.is_locked(#[trigger] fp@[p]@);
            assert(views(fp@)[p] == fp@[p]@);
        }
    }
    !locked
}

/// The admissible item to take up next, if any.
pub fn best_admissible(state: &ParallelExecutionState, items: &Vec<WorkItem>) -> (r: Option<usize>)
    ensures
        r matches Some(k) ==> is_best_admissible(*state, items@, k as int),
        r is None <==> !any_admissible(*state, items@),
{
    let mut best: Option<usize> = None;
    let mut k: usize = 0;
    while k < items.len()
        invariant
            k <= items.len(),
            best is None ==> forall|j: int| 0 <= j < k ==> !admissible(*state, #[trigger] items@[j]),
            best matches Some(b) ==> {
                &&& b < k
                &&& admissible(*state, items@[b as int])
                &&& forall|j: int|
                    0 <= j < k && admissible(*state, #[trigger] items@[j])
                        ==> items@[b as int].priority <= items@[j].priority
                &&& forall|j: int|
                    0 <= j < b && admissible(*state, #[trigger] items@[j])
                        ==> items@[b as int].priority < items@[j].priority
            },
        decreases items.len() - k,
    {
        if is_admissible_now(state, &items[k]) {
            match best {
                None => {
                    best = Some(k);
                },
                Some(b) => {
                    if items[k].priority < items[b].priority {
                        best = Some(k);
                    }
                },
            }
        }
        k += 1;
    }
    best
}

/// Whether some item is still to be taken up.
fn has_eligible(state: &ParallelExecutionState, items: &Vec<WorkItem>) -> (r: bool)
    ensures
        r == any_eligible(*state, items@),
{
    let mut k: usize = 0;
    while k < items.len()
        invariant
            k <= items.len(),
            forall|j: int| 0 <= j < k ==> !parallel_eligible(*state, #[trigger] items@[j]),
        decreases items.len() - k,
    {
        if !items[k].passes && !state.knows(&items[k].id) {
            return true;
        }
        k += 1;
    }
    false
}

/// One admission step: admit the best admissible item while fewer than
/// `max_concurrency` items are in flight; otherwise wait for an item in
/// flight, finish when nothing is left, or report a stall.
///
/// An admitted item claims its whole footprint at once, so two items with
/// overlapping footprints are never in flight together, and the number in
/// flight never rises above the limit.
pub fn admit_next(
    state: &mut ParallelExecutionState,
    items: &Vec<WorkItem>,
    config: &ParallelRunnerConfig,
) -> (step: ParallelStep)
    requires
        old(state).wf(),
    ensures
        final(state).wf(),
        old(state).in_flight@.len() <= config.max_concurrency ==> final(state).in_flight@.len()
            <= config.max_concurrency,
        match step {
            ParallelStep::Admitted { index } => {
                &&& old(state).in_flight@.len() < config.max_concurrency
                &&& is_best_admissible(*old(state), items@, index as int)
                &&& final(state).in_flight@ == old(state).in_flight@.push(items@[index as int].id)
                &&& final(state).completed == old(state).completed
                &&& final(state).failed == old(state).failed
                &&& forall|x: Seq<char>, path: Seq<char>|
                    #[trigger] final(state).holds(x, path) <==> old(state).holds(x, path) || (x
                        == items@[index as int].id@ && footprint_of(items@[index as int]).contains(
                        path,
                    ))
            },
            ParallelStep::Wait => {
                &&& *final(state) == *old(state)
                &&& old(state).in_flight@.len() > 0
                &&& (old(state).in_flight@.len() >= config.max_concurrency || !any_admissible(
                    *old(state),
                    items@,
                ))
            },
            ParallelStep::Finished => {
                &&& *final(state) == *old(state)
                &&& old(state).in_flight@.len() == 0
                &&& !any_eligible(*old(state), items@)
            },
            ParallelStep::Stalled => {
                &&& *final(state) == *old(state)
                &&& old(state).in_flight@.len() == 0
                &&& any_eligible(*old(state), items@)
                &&& config.max_concurrency == 0
            },
        },
{
    if state.in_flight.len() < config.max_concurrency as usize {
        match best_admissible(state, items) {
            Some(k) => {
                let fp = footprint(&items[k]);
                let ok = state.try_admit(&items[k].id, &fp);
                proof {
                    assert forall|p: int| 0 <= p < fp@.len() implies !old(state).is_locked(
                        #[trigger] fp@[p]@,
                    ) by {
                        assert(views(fp@)[p] == fp@[p]@);
                        assert(footprint_of(items@[k as int])[p] == fp@[p]@);
                    }
                }
                assert(ok);
                return ParallelStep::Admitted { index: k };
            },
            None => {},
        }
    }
    if state.in_flight.len() > 0 {
        return ParallelStep::Wait;
    }
    if !has_eligible(state, items) {
        return ParallelStep::Finished;
    }
    proof {
        if config.max_concurrency > 0 {
            let j = choose|j: int| 0 <= j < items@.len() && parallel_eligible(*state, #[trigger] items@[j]);
            lemma_idle_state_admits(*state, items@[j]);
        }
    }
    ParallelStep::Stalled
}

/// With nothing in flight, nothing is claimed, so every eligible item is
/// admissible: a run with capacity never stalls.
pub proof fn lemma_idle_state_admits(state: ParallelExecutionState, item: WorkItem)
    requires
        state.wf(),
        state.in_flight@.len() == 0,
        parallel_eligible(state, item),
    ensures
        admissible(state, item),
{
    assert forall|p: int| 0 <= p < footprint_of(item).len() implies !state.is_locked(
        #[trigger] footprint_of(item)[p],
    ) by {
        if state.is_locked(footprint_of(item)[p]) {
            let i = choose|i: int|
                0 <= i < state.locked_files@.len() && (#[trigger] state.locked_files@[i]).0@
                    == footprint_of(item)[p];
            assert(crate::story::id_listed(state.in_flight@, state.locked_files@[i].1@));
        }
    }
}

/// The text recorded for an executor error.
pub open spec fn executor_error_text(e: ExecutorError) -> Seq<char> {
    match e {
        ExecutorError::Timeout(msg) => msg@,
        ExecutorError::Cancelled => "Cancelled"@,
        ExecutorError::Failed(msg) => msg@,
    }
}

/// How recording `outcome` for `id` changes the completed and failed lists,
/// and the checkpoint operation it calls for.
pub open spec fn outcome_recorded(
    pre: ParallelExecutionState,
    post: ParallelExecutionState,
    id: String,
    max_iterations: u32,
    outcome: Result<ExecutionResult, ExecutorError>,
    op: CheckpointOp,
) -> bool {
    match outcome {
        Ok(r) => if r.success {
            &&& post.completed@ == pre.completed@.push(id)
            &&& post.failed == pre.failed
            &&& op is Keep
        } else {
            &&& post.completed == pre.completed
            &&& post.failed@.len() == pre.failed@.len() + 1
            &&& post.failed@.drop_last() == pre.failed@
            &&& post.failed@.last().0 == id
            &&& op matches CheckpointOp::Save(sc, reason)
            &&& sc.story_id@ == id@
            &&& sc.iteration == r.iterations_used
            &&& sc.max_iterations == max_iterations
            &&& reason matches PauseReason::Error(msg) && msg@ == post.failed@.last().1@
                && match r.error {
                Some(e) => msg@ == e@,
                None => msg@ == "Quality gates failed"@,
            }
        },
        Err(e) => {
            &&& post.completed == pre.completed
            &&& op matches CheckpointOp::Save(sc, reason)
            &&& sc.story_id@ == id@
            &&& sc.iteration == 1
            &&& sc.max_iterations == max_iterations
            &&& reason == pause_reason_of(e)
            &&& if e is Cancelled {
                post.failed == pre.failed
            } else {
                &&& post.failed@.len() == pre.failed@.len() + 1
                &&& post.failed@.drop_last() == pre.failed@
                &&& post.failed@.last().0 == id
                &&& post.failed@.last().1@ == executor_error_text(e)
            }
        },
    }
}

/// Record the executor's report for `id`, in flight.
///
/// Success moves the item to completed. A failed attempt or an operational
/// error moves it to failed and saves a checkpoint with the reason. A
/// cancellation takes it out of flight without marking it failed and saves a
/// user-requested checkpoint. Its claims are released in every case.
pub fn record_outcome(
    state: &mut ParallelExecutionState,
    id: &String,
    max_iterations: u32,
    outcome: Result<ExecutionResult, ExecutorError>,
) -> (op: CheckpointOp)
    requires
        old(state).wf(),
        old(state).is_in_flight(id@),
    ensures
        final(state).wf(),
        final(state).in_flight@.len() == old(state).in_flight@.len() - 1,
        forall|x: Seq<char>| #[trigger]
            final(state).is_in_flight(x) <==> old(state).is_in_flight(x) && x != id@,
        forall|x: Seq<char>, path: Seq<char>|
            #[trigger] final(state).holds(x, path) <==> old(state).holds(x, path) && x != id@,
        outcome_recorded(*old(state), *final(state), *id, max_iterations, outcome, op),
{
    match outcome {
        Ok(r) => {
            if r.success {
                state.complete(id);
                CheckpointOp::Keep
            } else {
                let msg = match r.error {
                    Some(e) => e,
                    None => String::from_str("Quality gates failed"),
                };
                let sc = StoryCheckpoint::new(id, r.iterations_used, max_iterations);
                let reason = PauseReason::Error(msg.clone());
                state.fail(id, msg);
                proof {
                    assert(state.failed@.drop_last() =~= old(state).failed@);
                }
                CheckpointOp::Save(sc, reason)
            }
        },
        Err(e) => {
            let reason = crate::runner::error_to_pause_reason(&e);
            let sc = StoryCheckpoint::new(id, 1, max_iterations);
            match e {
                ExecutorError::Cancelled => {
                    state.interrupt(id);
                },
                ExecutorError::Timeout(msg) => {
                    state.fail(id, msg);
                    proof {
                        assert(state.failed@.drop_last() =~= old(state).failed@);
                    }
                },
                ExecutorError::Failed(msg) => {
                    state.fail(id, msg);
                    proof {
                        assert(state.failed@.drop_last() =~= old(state).failed@);
                    }
                },
            }
            CheckpointOp::Save(sc, reason)
        },
    }
}

/// Number of items still to be taken up.
pub open spec fn count_eligible(state: ParallelExecutionState, items: Seq<WorkItem>) -> nat
    decreases items.len(),
{
    if items.len() == 0 {
        0
    } else {
        count_eligible(state, items.drop_last()) + if parallel_eligible(state, items.last()) {
            1nat
        } else {
            0nat
        }
    }
}

/// What remains of a run over `items`: items still to be taken up count
/// twice, items in flight once.
pub open spec fn remaining_work(state: ParallelExecutionState, items: Seq<WorkItem>) -> nat {
    2 * count_eligible(state, items) + state.in_flight@.len()
}

/// Learning of more identifiers never adds eligible items, and learning of
/// an eligible item's identifier removes at least one.
pub proof fn lemma_count_eligible_mono(
    s: ParallelExecutionState,
    t: ParallelExecutionState,
    items: Seq<WorkItem>,
    k: int,
)
    requires
        forall|x: Seq<char>| s.is_known(x) ==> #[trigger] t.is_known(x),
    ensures
        count_eligible(t, items) <= count_eligible(s, items),
        0 <= k < items.len() && parallel_eligible(s, items[k]) && t.is_known(items[k].id@)
            ==> count_eligible(t, items) < count_eligible(s, items),
    decreases items.len(),
{
    if items.len() > 0 {
        let rest = items.drop_last();
        if 0 <= k < items.len() - 1 {
            assert(rest[k] == items[k]);
        }
        lemma_count_eligible_mono(s, t, rest, k);
        if parallel_eligible(t, items.last()) {
            assert(!t.is_known(items.last().id@));
        }
    }
}

/// With the same identifiers known, the same items are eligible.
pub proof fn lemma_count_eligible_same(
    s: ParallelExecutionState,
    t: ParallelExecutionState,
    items: Seq<WorkItem>,
)
    requires
        forall|x: Seq<char>| #[trigger] t.is_known(x) == s.is_known(x),
    ensures
        count_eligible(t, items) == count_eligible(s, items),
    decreases items.len(),
{
    if items.len() > 0 {
        lemma_count_eligible_same(s, t, items.drop_last());
        assert(t.is_known(items.last().id@) == s.is_known(items.last().id@));
    }
}

/// Recording an outcome other than a cancelled attempt keeps the known
/// identifiers (the item moves from flight to completed or failed) and
/// lowers the remaining work of any item list.
pub proof fn lemma_record_progress(
    pre: ParallelExecutionState,
    post: ParallelExecutionState,
    id: String,
    max_iterations: u32,
    outcome: Result<ExecutionResult, ExecutorError>,
    op: CheckpointOp,
    items: Seq<WorkItem>,
)
    requires
        pre.is_in_flight(id@),
        pre.in_flight@.len() > 0,
        post.in_flight@.len() == pre.in_flight@.len() - 1,
        forall|x: Seq<char>| #[trigger] post.is_in_flight(x) <==> pre.is_in_flight(x) && x != id@,
        outcome_recorded(pre, post, id, max_iterations, outcome, op),
        !(outcome matches Err(ExecutorError::Cancelled)),
    ensures
        forall|x: Seq<char>| #[trigger] post.is_known(x) == pre.is_known(x),
        remaining_work(post, items) < remaining_work(pre, items),
{
    let moved_to_completed = outcome matches Ok(r) && r.success;
    if !moved_to_completed {
        assert(post.failed@ == pre.failed@.push(post.failed@.last()));
        lemma_first_ids_push(pre.failed@, post.failed@.last());
    }
    assert forall|x: Seq<char>| #[trigger] post.is_known(x) == pre.is_known(x) by {
        if moved_to_completed {
            lemma_listed_push(pre.completed@, id, x);
        } else {
            lemma_listed_push(first_ids(pre.failed@), post.failed@.last().0, x);
        }
    }
    lemma_count_eligible_same(pre, post, items);
}

/// The summary of a parallel run that has nothing left to take up: done
/// when every item is satisfied, incomplete otherwise.
pub fn finished_result(items: &Vec<WorkItem>, total_iterations: u32) -> (r: RunResult)
    ensures
        r.all_passed == all_pass(items@),
        r.status == if all_pass(items@) {
            RunStatus::Done
        } else {
            RunStatus::Incomplete
        },
        r.stories_passed == passing_count(items@),
        r.total_stories == items.len(),
        r.total_iterations == total_iterations,
        r.error is None <==> all_pass(items@),
{
    let passed = count_passing(items);
    proof {
        lemma_passing_count(items@);
    }
    if passed == items.len() {
        RunResult {
            status: RunStatus::Done,
            all_passed: true,
            stories_passed: passed,
            total_stories: items.len(),
            total_iterations,
            error: None,
        }
    } else {
        RunResult {
            status: RunStatus::Incomplete,
            all_passed: false,
            stories_passed: passed,
            total_stories: items.len(),
            total_iterations,
            error: Some(String::from_str("Some stories failed during this run")),
        }
    }
}

/// What the caller of the parallel scheduler must do next.
pub enum ParallelAction {
    /// Start the executor on `items[index]` with this iteration cap.
    Dispatch { index: usize, max_iterations: u32 },
    /// Wait for an item in flight to report back.
    Wait,
    /// The run is over.
    Finish(RunResult),
    /// Nothing can ever be admitted; fall back to sequential execution when
    /// so configured.
    Stall,
}

/// A decision of the parallel scheduler and its checkpoint operation.
pub struct ParallelDecision {
    pub action: ParallelAction,
    pub checkpoint: CheckpointOp,
}

/// The bounded-concurrency scheduler: the shared execution state, the
/// configuration, and the iteration budget of the run.
pub struct ParallelScheduler {
    pub state: ParallelExecutionState,
    pub config: ParallelRunnerConfig,
    /// Iteration cap for each item.
    pub max_iterations_per_story: u32,
    /// Iteration cap for the run; 0 means unlimited.
    pub max_total_iterations: u32,
    /// Iterations reported so far.
    pub total_iterations: u32,
    /// The caller signalled cancellation; nothing more is admitted.
    pub cancelled: bool,
}

impl ParallelScheduler {
    /// The state is well formed and within the concurrency limit.
    pub open spec fn wf(&self) -> bool {
        self.state.wf() && self.state.in_flight@.len() <= self.config.max_concurrency
    }

    /// The global iteration cap is set and spent.
    pub open spec fn cap_spent(&self) -> bool {
        self.max_total_iterations > 0 && self.total_iterations >= self.max_total_iterations
    }

    /// A fresh scheduler.
    pub fn new(config: &RunnerConfig, parallel: ParallelRunnerConfig) -> (r: Self)
        ensures
            r.wf(),
            r.state.in_flight@.len() == 0,
            r.state.completed@.len() == 0,
            r.state.failed@.len() == 0,
            r.config == parallel,
            r.max_iterations_per_story == config.max_iterations_per_story,
            r.max_total_iterations == config.max_total_iterations,
            r.total_iterations == 0,
            !r.cancelled,
    {
        ParallelScheduler {
            state: ParallelExecutionState::new(),
            config: parallel,
            max_iterations_per_story: config.max_iterations_per_story,
            max_total_iterations: config.max_total_iterations,
            total_iterations: 0,
            cancelled: false,
        }
    }

    /// Decide the next step from the freshly read work items.
    ///
    /// After the caller's cancellation signal nothing more is admitted: the items in flight
    /// are awaited, then the run ends as cancelled. With the iteration budget
    /// spent nothing more is admitted either: the items in
    /// flight are awaited, then the run is blocked (with a checkpoint for the
    /// next item) or finished. Otherwise the best admissible item is
    /// dispatched after a resumable checkpoint, or the scheduler waits,
    /// finishes (clearing the checkpoint when every item is satisfied), or
    /// reports a stall.
    pub fn step(&mut self, items: &Vec<WorkItem>) -> (d: ParallelDecision)
        requires
            old(self).wf(),
        ensures
            final(self).wf(),
            final(self).config == old(self).config,
            final(self).max_iterations_per_story == old(self).max_iterations_per_story,
            final(self).max_total_iterations == old(self).max_total_iterations,
            final(self).total_iterations == old(self).total_iterations,
            final(self).cancelled == old(self).cancelled,
            final(self).state.completed == old(self).state.completed,
            final(self).state.failed == old(self).state.failed,
            old(self).cancelled && old(self).state.in_flight@.len() == 0 ==> {
                &&& d.action matches ParallelAction::Finish(r)
                &&& r.status == RunStatus::Cancelled
                &&& !r.all_passed
                &&& r.stories_passed == passing_count(items@)
                &&& r.total_stories == items.len()
                &&& r.total_iterations == old(self).total_iterations
                &&& r.error is Some
                &&& d.checkpoint is Keep
            },
            match d.action {
                ParallelAction::Dispatch { index, max_iterations } => {
                    &&& !old(self).cancelled
                    &&& !old(self).cap_spent()
                    &&& old(self).state.in_flight@.len() < old(self).config.max_concurrency
                    &&& is_best_admissible(old(self).state, items@, index as int)
                    &&& max_iterations == old(self).max_iterations_per_story
                    &&& final(self).state.in_flight@ == old(self).state.in_flight@.push(
                        items@[index as int].id,
                    )
                    &&& forall|x: Seq<char>, path: Seq<char>|
                        #[trigger] final(self).state.holds(x, path) <==> old(self).state.holds(
                            x,
                            path,
                        ) || (x == items@[index as int].id@ && footprint_of(
                            items@[index as int],
                        ).contains(path))
                    &&& remaining_work(final(self).state, items@) < remaining_work(
                        old(self).state,
                        items@,
                    )
                    &&& d.checkpoint matches CheckpointOp::Save(sc, reason)
                    &&& reason == PauseReason::UserRequested
                    &&& sc.story_id@ == items@[index as int].id@
                    &&& sc.iteration == 1
                    &&& sc.max_iterations == old(self).max_iterations_per_story
                },
                ParallelAction::Wait => {
                    &&& final(self).state == old(self).state
                    &&& old(self).state.in_flight@.len() > 0
                    &&& (old(self).cancelled || old(self).cap_spent()
                        || old(self).state.in_flight@.len() >= old(self).config.max_concurrency
                        || !any_admissible(old(self).state, items@))
                    &&& d.checkpoint is Keep
                },
                ParallelAction::Finish(r) => {
                    &&& final(self).state == old(self).state
                    &&& old(self).state.in_flight@.len() == 0
                    &&& r.total_stories == items.len()
                    &&& r.stories_passed == passing_count(items@)
                    &&& r.total_iterations == old(self).total_iterations
                    &&& old(self).cancelled || if any_eligible(old(self).state, items@) {
                        &&& old(self).cap_spent()
                        &&& r.status == RunStatus::Blocked
                        &&& !r.all_passed
                        &&& r.error matches Some(m) && m@ == cap_message(
                            old(self).max_total_iterations,
                        )
                        &&& d.checkpoint matches CheckpointOp::Save(sc, reason)
                        &&& reason == PauseReason::IterationLimit
                        &&& sc.iteration == 1
                        &&& sc.max_iterations == old(self).max_iterations_per_story
                        &&& exists|k: int|
                            is_best_admissible(old(self).state, items@, k) && sc.story_id@ == (
                            #[trigger] items@[k]).id@
                    } else {
                        &&& r.all_passed == all_pass(items@)
                        &&& r.status == if all_pass(items@) {
                            RunStatus::Done
                        } else {
                            RunStatus::Incomplete
                        }
                        &&& if all_pass(items@) {
                            d.checkpoint is Clear
                        } else {
                            d.checkpoint is Keep
                        }
                    }
                },
                ParallelAction::Stall => {
                    &&& !old(self).cancelled
                    &&& final(self).state == old(self).state
                    &&& old(self).state.in_flight@.len() == 0
                    &&& any_eligible(old(self).state, items@)
                    &&& old(self).config.max_concurrency == 0
                    &&& d.checkpoint is Keep
                },
            },
    {
        if self.cancelled {
            if self.state.in_flight.len() > 0 {
                return ParallelDecision { action: ParallelAction::Wait, checkpoint: CheckpointOp::Keep };
            }
            let passed = count_passing(items);
            let result = RunResult {
                status: RunStatus::Cancelled,
                all_passed: false,
                stories_passed: passed,
                total_stories: items.len(),
                total_iterations: self.total_iterations,
                error: Some(String::from_str("Run cancelled")),
            };
            return ParallelDecision { action: ParallelAction::Finish(result), checkpoint: CheckpointOp::Keep };
        }
        let spent = self.max_total_iterations > 0 && self.total_iterations >= self.max_total_iterations;
        if spent {
            if self.state.in_flight.len() > 0 {
                return ParallelDecision { action: ParallelAction::Wait, checkpoint: CheckpointOp::Keep };
            }
            if has_eligible(&self.state, items) {
                let best = best_admissible(&self.state, items);
                proof {
                    let j = choose|j: int|
                        0 <= j < items@.len() && parallel_eligible(self.state, #[trigger] items@[j]);
                    lemma_idle_state_admits(self.state, items@[j]);
                }
                let k = best.unwrap();
                let passed = count_passing(items);
                proof {
                    lemma_passing_count(items@);
                    assert(!items@[k as int].passes);
                }
                let result = RunResult {
                    status: RunStatus::Blocked,
                    all_passed: false,
                    stories_passed: passed,
                    total_stories: items.len(),
                    total_iterations: self.total_iterations,
                    error: Some(cap_reached_message(self.max_total_iterations)),
                };
                return ParallelDecision {
                    action: ParallelAction::Finish(result),
                    checkpoint: CheckpointOp::Save(
                        StoryCheckpoint::new(&items[k].id, 1, self.max_iterations_per_story),
                        PauseReason::IterationLimit,
                    ),
                };
            }
            let result = finished_result(items, self.total_iterations);
            let op = if result.all_passed {
                CheckpointOp::Clear
            } else {
                CheckpointOp::Keep
            };
            return ParallelDecision { action: ParallelAction::Finish(result), checkpoint: op };
        }
        let ghost pre = self.state;
        match admit_next(&mut self.state, items, &self.config) {
            ParallelStep::Admitted { index } => {
                proof {
                    let id = items@[index as int].id;
                    assert forall|x: Seq<char>| pre.is_known(x) implies #[trigger] self.state.is_known(
                        x,
                    ) by {
                        lemma_listed_push(pre.in_flight@, id, x);
                    }
                    lemma_listed_push(pre.in_flight@, id, id@);
                    lemma_count_eligible_mono(pre, self.state, items@, index as int);
                }
                ParallelDecision {
                    action: ParallelAction::Dispatch {
                        index,
                        max_iterations: self.max_iterations_per_story,
                    },
                    checkpoint: CheckpointOp::Save(
                        StoryCheckpoint::new(&items[index].id, 1, self.max_iterations_per_story),
                        PauseReason::UserRequested,
                    ),
                }
            },
            ParallelStep::Wait => ParallelDecision {
                action: ParallelAction::Wait,
                checkpoint: CheckpointOp::Keep,
            },
            ParallelStep::Finished => {
                let result = finished_result(items, self.total_iterations);
                let op = if result.all_passed {
                    CheckpointOp::Clear
                } else {
                    CheckpointOp::Keep
                };
                ParallelDecision { action: ParallelAction::Finish(result), checkpoint: op }
            },
            ParallelStep::Stalled => ParallelDecision {
                action: ParallelAction::Stall,
                checkpoint: CheckpointOp::Keep,
            },
        }
    }

    /// The caller's cancellation signal: nothing more is admitted, and once
    /// the items in flight have reported back the run ends as cancelled.
    pub fn cancel(&mut self)
        requires
            old(self).wf(),
        ensures
            final(self).wf(),
            final(self).cancelled,
            final(self).state == old(self).state,
            final(self).config == old(self).config,
            final(self).total_iterations == old(self).total_iterations,
            final(self).max_iterations_per_story == old(self).max_iterations_per_story,
            final(self).max_total_iterations == old(self).max_total_iterations,
    {
        self.cancelled = true;
    }

    /// Take in the executor's report on `id`, in flight, as `record_outcome`
    /// does: success moves it to completed, a failed attempt or an operational
    /// error to failed with a checkpoint, and a cancelled attempt takes it out
    /// of flight, eligible again, with a user-requested checkpoint. The
    /// iterations used (one for an operational error) are added to the total,
    /// saturating at `u32::MAX`.
    pub fn record(&mut self, id: &String, outcome: Result<ExecutionResult, ExecutorError>) -> (op:
        CheckpointOp)
        requires
            old(self).wf(),
            old(self).state.is_in_flight(id@),
        ensures
            final(self).wf(),
            final(self).config == old(self).config,
            final(self).total_iterations == saturating_sum(
                old(self).total_iterations,
                charged_iterations(outcome),
            ),
            final(self).cancelled == old(self).cancelled,
            final(self).max_iterations_per_story == old(self).max_iterations_per_story,
            final(self).max_total_iterations == old(self).max_total_iterations,
            outcome_recorded(
                old(self).state,
                final(self).state,
                *id,
                old(self).max_iterations_per_story,
                outcome,
                op,
            ),
            final(self).state.in_flight@.len() == old(self).state.in_flight@.len() - 1,
            forall|x: Seq<char>| #[trigger]
                final(self).state.is_in_flight(x) <==> old(self).state.is_in_flight(x) && x != id@,
            forall|x: Seq<char>, path: Seq<char>|
                #[trigger] final(self).state.holds(x, path) <==> old(self).state.holds(x, path) && x
                    != id@,
            !(outcome matches Err(ExecutorError::Cancelled)) ==> forall|items: Seq<WorkItem>|
                #[trigger] remaining_work(final(self).state, items) < remaining_work(
                    old(self).state,
                    items,
                ),
    {
        let charged: u32 = match &outcome {
            Ok(r) => r.iterations_used,
            Err(_) => 1,
        };
        self.total_iterations = self.total_iterations.saturating_add(charged);
        let ghost pre = self.state;
        let ghost cancelled_attempt = outcome matches Err(ExecutorError::Cancelled);
        let ghost out = outcome;
        proof {
            assert(pre.in_flight@.len() > 0) by {
                let k = choose|k: int| 0 <= k < pre.in_flight@.len() && (#[trigger] pre.in_flight@[k])@ == id@;
            }
        }
        let op = record_outcome(&mut self.state, id, self.max_iterations_per_story, outcome);
        proof {
            if !cancelled_attempt {
                assert forall|items: Seq<WorkItem>|
                    #[trigger] remaining_work(self.state, items) < remaining_work(pre, items) by {
                    lemma_record_progress(pre, self.state, *id, self.max_iterations_per_story, out, op, items);
                }
            }
        }
        op
    }
}

} // verus!
