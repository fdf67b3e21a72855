//! Work items and the selection policy shared by both schedulers.

use vstd::prelude::*;

verus! {

/// One unit of schedulable work, as read from the work-item source.
pub struct WorkItem {
    /// Unique identifier.
    pub id: String,
    /// Human-readable title.
    pub title: String,
    /// Lower value means more urgent.
    pub priority: u32,
    /// Already satisfied; such items are never scheduled.
    pub passes: bool,
    /// Declared resource paths the item touches (empty when undeclared).
    pub resources: Vec<String>,
}

/// `id` occurs in `ids`.
pub open spec fn id_listed(ids: Seq<String>, id: Seq<char>) -> bool {
    exists|k: int| 0 <= k < ids.len() && (#[trigger] ids[k])@ == id
}

/// The item may be selected: it is unfinished and not excluded.
pub open spec fn eligible(item: WorkItem, excluded: Seq<String>) -> bool {
    !item.passes && !id_listed(excluded, item.id@)
}

/// `k` is the eligible item with the numerically lowest priority, the first
/// in source order among equals.
pub open spec fn is_next_item(items: Seq<WorkItem>, excluded: Seq<String>, k: int) -> bool {
    &&& 0 <= k < items.len()
    &&& eligible(items[k], excluded)
    &&& forall|j: int|
        0 <= j < items.len() && eligible(#[trigger] items[j], excluded) ==> items[k].priority
            <= items[j].priority
    &&& forall|j: int|
        0 <= j < k && eligible(#[trigger] items[j], excluded) ==> items[k].priority
            < items[j].priority
}

/// No item is eligible.
pub open spec fn none_eligible(items: Seq<WorkItem>, excluded: Seq<String>) -> bool {
    forall|j: int| 0 <= j < items.len() ==> !eligible(#[trigger] items[j], excluded)
}

/// Number of items already satisfied.
pub open spec fn passing_count(items: Seq<WorkItem>) -> nat
    decreases items.len(),
{
    if items.len() == 0 {
        0
    } else {
        passing_count(items.drop_last()) + if items.last().passes {
            1nat
        } else {
            0nat
        }
    }
}

/// Every item is already satisfied.
pub open spec fn all_pass(items: Seq<WorkItem>) -> bool {
    forall|j: int| 0 <= j < items.len() ==> (#[trigger] items[j]).passes
}

/// The count of satisfied items never exceeds the number of items, and
/// reaches it exactly when every item is satisfied.
pub proof fn lemma_passing_count(items: Seq<WorkItem>)
    ensures
        passing_count(items) <= items.len(),
        passing_count(items) == items.len() <==> all_pass(items),
    decreases items.len(),
{
    if items.len() > 0 {
        let rest = items.drop_last();
        lemma_passing_count(rest);
        if all_pass(items) {
            assert forall|j: int| 0 <= j < rest.len() implies (#[trigger] rest[j]).passes by {
                assert(rest[j] == items[j]);
            }
        }
        if passing_count(items) == items.len() {
            assert forall|j: int| 0 <= j < items.len() implies (#[trigger] items[j]).passes by {
                if j < items.len() - 1 {
                    assert(rest[j] == items[j]);
                }
            }
        }
    }
}

/// Whether `id` occurs in `ids`.
pub fn contains_id(ids: &Vec<String>, id: &String) -> (r: bool)
    ensures
        r == id_listed(ids@, id@),
{
    let mut k: usize = 0;
    while k < ids.len()
        invariant
            k <= ids.len(),
            forall|j: int| 0 <= j < k ==> (#[trigger] ids@[j])@ != id@,
        decreases ids.len() - k,
    {
        if ids[k] == *id {
            return true;
        }
        k += 1;
    }
    false
}

/// Index of the next item to work on: the eligible item with the lowest
/// priority value, ties going to the earliest; `None` when nothing is
/// eligible.
pub fn find_next_story(items: &Vec<WorkItem>, excluded: &Vec<String>) -> (r: Option<usize>)
    ensures
        r matches Some(k) ==> is_next_item(items@, excluded@, k as int),
        r is None <==> none_eligible(items@, excluded@),
{
    let mut best: Option<usize> = None;
    let mut k: usize = 0;
    while k < items.len()
        invariant
            k <= items.len(),
            best is None ==> forall|j: int| 0 <= j < k ==> !eligible(#[trigger] items@[j], excluded@),
            best matches Some(b) ==> {
                &&& b < k
                &&& eligible(items@[b as int], excluded@)
                &&& forall|j: int|
                    0 <= j < k && eligible(#[trigger] items@[j], excluded@)
                        ==> items@[b as int].priority <= items@[j].priority
                &&& forall|j: int|
                    0 <= j < b && eligible(#[trigger] items@[j], excluded@)
                        ==> items@[b as int].priority < items@[j].priority
            },
        decreases items.len() - k,
    {
        let item = &items[k];
        if !item.passes && !contains_id(excluded, &item.id) {
            match best {
                None => {
                    best = Some(k);
                },
                Some(b) => {
                    if item.priority < items[b].priority {
                        best = Some(k);
                    }
                },
            }
        }
        k += 1;
    }
    best
}

/// Number of items already satisfied.
pub fn count_passing(items: &Vec<WorkItem>) -> (r: usize)
    ensures
        r == passing_count(items@),
{
    let mut n: usize = 0;
    let mut k: usize = 0;
    while k < items.len()
        invariant
            k <= items.len(),
            n == passing_count(items@.subrange(0, k as int)),
            n <= k,
        decreases items.len() - k,
    {
        proof {
            let s = items@.subrange(0, k as int + 1);
            assert(s.drop_last() =~= items@.subrange(0, k as int));
        }
        if items[k].passes {
            n += 1;
        }
        k += 1;
    }
    proof {
        assert(items@.subrange(0, items.len() as int) =~= items@);
    }
    n
}

} // verus!
