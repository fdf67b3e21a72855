//! Checkpoints: where a run paused, kept in a single-slot store.

use vstd::prelude::*;

verus! {

/// Why a run paused.
pub enum PauseReason {
    /// The user asked to stop, or an interruption may come at any moment.
    UserRequested,
    /// The executor gave up on time.
    Timeout,
    /// The global iteration budget is spent.
    IterationLimit,
    /// Any other error, with its message.
    Error(String),
}

/// The item in progress when the checkpoint was taken.
pub struct StoryCheckpoint {
    pub story_id: String,
    pub iteration: u32,
    pub max_iterations: u32,
}

impl StoryCheckpoint {
    pub fn new(story_id: &String, iteration: u32, max_iterations: u32) -> (r: Self)
        ensures
            r.story_id@ == story_id@,
            r.iteration == iteration,
            r.max_iterations == max_iterations,
    {
        StoryCheckpoint { story_id: story_id.clone(), iteration, max_iterations }
    }
}

/// A snapshot of where execution paused.
pub struct Checkpoint {
    /// Absent only when no item is in progress.
    pub story: Option<StoryCheckpoint>,
    pub pause_reason: PauseReason,
    /// Paths with pending local changes when the checkpoint was taken.
    pub uncommitted_files: Vec<String>,
    /// Creation time, in seconds since the Unix epoch.
    pub created_at: u64,
}

impl Checkpoint {
    pub fn new(
        story: Option<StoryCheckpoint>,
        pause_reason: PauseReason,
        uncommitted_files: Vec<String>,
        created_at: u64,
    ) -> (r: Self)
        ensures
            r.story == story,
            r.pause_reason == pause_reason,
            r.uncommitted_files == uncommitted_files,
            r.created_at == created_at,
    {
        Checkpoint { story, pause_reason, uncommitted_files, created_at }
    }
}

/// The slot after `save(c)`.
pub open spec fn slot_after_save(slot: Option<Checkpoint>, c: Checkpoint) -> Option<Checkpoint> {
    Some(c)
}

/// The slot after `clear()`.
pub open spec fn slot_after_clear(slot: Option<Checkpoint>) -> Option<Checkpoint> {
    None
}

/// A single-slot register holding the most recent checkpoint.
pub struct CheckpointStore {
    slot: Option<Checkpoint>,
}

impl CheckpointStore {
    /// What the store holds.
    pub closed spec fn view(&self) -> Option<Checkpoint> {
        self.slot
    }

    /// An empty store.
    pub fn new() -> (r: Self)
        ensures
            r.view() is None,
    {
        CheckpointStore { slot: None }
    }

    /// Replace whatever the store held by `checkpoint`.
    pub fn save(&mut self, checkpoint: Checkpoint)
        ensures
            final(self).view() == slot_after_save(old(self).view(), checkpoint),
    {
        self.slot = Some(checkpoint);
    }

    /// The checkpoint held, if any.
    pub fn load(&self) -> (r: Option<&Checkpoint>)
        ensures
            match r {
                Some(c) => self.view() == Some(*c),
                None => self.view() is None,
            },
    {
        match &self.slot {
            Some(c) => Some(c),
            None => None,
        }
    }

    /// Remove the checkpoint; succeeds whether or not one was held.
    pub fn clear(&mut self)
        ensures
            final(self).view() == slot_after_clear(old(self).view()),
    {
        self.slot = None;
    }

    /// Whether a checkpoint is held.
    pub fn has_checkpoint(&self) -> (r: bool)
        ensures
            r == self.view() is Some,
    {
        self.slot.is_some()
    }
}

/// Saving then loading gives back the checkpoint that was saved; clearing
/// then loading gives nothing; a second save replaces the first.
pub proof fn lemma_checkpoint_round_trip(slot: Option<Checkpoint>, c: Checkpoint, d: Checkpoint)
    ensures
        slot_after_save(slot, c) == Some(c),
        slot_after_clear(slot) is None,
        slot_after_save(slot_after_save(slot, c), d) == Some(d),
        slot_after_clear(slot_after_clear(slot)) is None,
{
}

} // verus!
