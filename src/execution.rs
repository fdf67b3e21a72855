//! Shared execution state of the parallel scheduler: which items run, which
//! finished, which failed, and which resources are claimed by whom.

use vstd::prelude::*;
use crate::story::{contains_id, id_listed};

verus! {

/// The identifiers of a list of (identifier, message) pairs.
pub open spec fn first_ids(pairs: Seq<(String, String)>) -> Seq<String> {
    pairs.map_values(|p: (String, String)| p.0)
}

/// No identifier occurs twice.
pub open spec fn unique_ids(ids: Seq<String>) -> bool {
    forall|i: int, j: int|
        0 <= i < ids.len() && 0 <= j < ids.len() && i != j ==> (#[trigger] ids[i])@
            != (#[trigger] ids[j])@
}

/// The views of a list of strings.
pub open spec fn views(v: Seq<String>) -> Seq<Seq<char>> {
    v.map_values(|s: String| s@)
}

/// An identifier is in at most one of the three lists.
pub open spec fn roles_disjoint(
    in_flight: Seq<String>,
    completed: Seq<String>,
    failed: Seq<(String, String)>,
) -> bool {
    &&& forall|id: Seq<char>| #[trigger]
        id_listed(in_flight, id) ==> !id_listed(completed, id) && !id_listed(
            first_ids(failed),
            id,
        )
    &&& forall|id: Seq<char>| #[trigger]
        id_listed(completed, id) ==> !id_listed(first_ids(failed), id)
}

/// Each path has at most one entry.
pub open spec fn paths_unique(locked: Seq<(String, String)>) -> bool {
    forall|i: int, j: int|
        0 <= i < locked.len() && 0 <= j < locked.len() && i != j ==> (#[trigger] locked[i]).0@
            != (#[trigger] locked[j]).0@
}

/// Every holder of a path is in flight.
pub open spec fn holders_in_flight(locked: Seq<(String, String)>, in_flight: Seq<String>) -> bool {
    forall|i: int| 0 <= i < locked.len() ==> id_listed(in_flight, (#[trigger] locked[i]).1@)
}

/// Runtime state of a parallel run.
pub struct ParallelExecutionState {
    /// Items dispatched and not yet reported back.
    pub in_flight: Vec<String>,
    /// Items that finished successfully during this run.
    pub completed: Vec<String>,
    /// Items that failed during this run, with their error message.
    pub failed: Vec<(String, String)>,
    /// Claimed resources: (path, identifier of the holder).
    pub locked_files: Vec<(String, String)>,
}

impl ParallelExecutionState {
    /// `id` holds the resource `path`.
    pub open spec fn holds(&self, id: Seq<char>, path: Seq<char>) -> bool {
        exists|i: int|
            0 <= i < self.locked_files@.len() && (#[trigger] self.locked_files@[i]).0@ == path
                && self.locked_files@[i].1@ == id
    }

    /// Some item holds the resource `path`.
    pub open spec fn is_locked(&self, path: Seq<char>) -> bool {
        exists|i: int|
            0 <= i < self.locked_files@.len() && (#[trigger] self.locked_files@[i]).0@ == path
    }

    /// `id` is in flight.
    pub open spec fn is_in_flight(&self, id: Seq<char>) -> bool {
        id_listed(self.in_flight@, id)
    }

    /// `id` completed during this run.
    pub open spec fn is_completed(&self, id: Seq<char>) -> bool {
        id_listed(self.completed@, id)
    }

    /// `id` failed during this run.
    pub open spec fn is_failed(&self, id: Seq<char>) -> bool {
        id_listed(first_ids(self.failed@), id)
    }

    /// `id` is known to this run in any of the three roles.
    pub open spec fn is_known(&self, id: Seq<char>) -> bool {
        self.is_in_flight(id) || self.is_completed(id) || self.is_failed(id)
    }

    /// Well-formedness: each identifier is in at most one of in-flight,
    /// completed and failed, and at most once there; each resource has at
    /// most one holder, and every holder is in flight.
    pub open spec fn wf(&self) -> bool {
        &&& unique_ids(self.in_flight@)
        &&& unique_ids(self.completed@)
        &&& unique_ids(first_ids(self.failed@))
        &&& roles_disjoint(self.in_flight@, self.completed@, self.failed@)
        &&& paths_unique(self.locked_files@)
        &&& holders_in_flight(self.locked_files@, self.in_flight@)
    }

    /// A state with nothing in flight, finished, failed or claimed.
    pub fn new() -> (r: Self)
        ensures
            r.wf(),
            r.in_flight@.len() == 0,
            r.completed@.len() == 0,
            r.failed@.len() == 0,
            r.locked_files@.len() == 0,
    {
        ParallelExecutionState {
            in_flight: Vec::new(),
            completed: Vec::new(),
            failed: Vec::new(),
            locked_files: Vec::new(),
        }
    }

    /// Whether `path` is claimed by an item other than `id`.
    pub fn locked_by_other(&self, path: &String, id: &String) -> (r: bool)
        ensures
            r == exists|i: int|
                0 <= i < self.locked_files@.len() && (#[trigger] self.locked_files@[i]).0@
                    == path@ && self.locked_files@[i].1@ != id@,
    {
        let mut k: usize = 0;
        while k < self.locked_files.len()
            invariant
                k <= self.locked_files@.len(),
                forall|i: int|
                    0 <= i < k ==> !((#[trigger] self.locked_files@[i]).0@ == path@
                        && self.locked_files@[i].1@ != id@),
            decreases self.locked_files.len() - k,
        {
            let entry = &self.locked_files[k];
            if entry.0 == *path && !(entry.1 == *id) {
                return true;
            }
            k += 1;
        }
        false
    }

    /// Whether any of `resources` is claimed by an item other than `id`.
    pub fn conflicts(&self, id: &String, resources: &Vec<String>) -> (r: bool)
        ensures
            r == exists|p: int, i: int|
                0 <= p < resources@.len() && 0 <= i < self.locked_files@.len()
                    && (#[trigger] self.locked_files@[i]).0@ == (#[trigger] resources@[p])@
                    && self.locked_files@[i].1@ != id@,
    {
        let mut k: usize = 0;
        while k < resources.len()
            invariant
                k <= resources@.len(),
                forall|p: int, i: int|
                    0 <= p < k && 0 <= i < self.locked_files@.len() ==> !(
                    (#[trigger] self.locked_files@[i]).0@ == (#[trigger] resources@[p])@
                        && self.locked_files@[i].1@ != id@),
            decreases resources.len() - k,
        {
            if self.locked_by_other(&resources[k], id) {
                return true;
            }
            k += 1;
        }
        false
    }

    /// Claim every path of `resources` for `id`, which is in flight and meets
    /// no conflict.
    fn lock_all(&mut self, id: &String, resources: &Vec<String>)
        requires
            old(self).wf(),
            old(self).is_in_flight(id@),
            forall|p: int, i: int|
                0 <= p < resources@.len() && 0 <= i < old(self).locked_files@.len() ==> !(
                (#[trigger] old(self).locked_files@[i]).0@ == (#[trigger] resources@[p])@
                    && old(self).locked_files@[i].1@ != id@),
        ensures
            final(self).wf(),
            final(self).in_flight == old(self).in_flight,
            final(self).completed == old(self).completed,
            final(self).failed == old(self).failed,
            forall|x: Seq<char>, path: Seq<char>|
                #[trigger] final(self).holds(x, path) <==> old(self).holds(x, path) || (x == id@
                    && views(resources@).contains(path)),
    {
        let mut k: usize = 0;
        while k < resources.len()
            invariant
                k <= resources@.len(),
                self.wf(),
                self.is_in_flight(id@),
                self.in_flight == old(self).in_flight,
                self.completed == old(self).completed,
                self.failed == old(self).failed,
                forall|p: int, i: int|
                    0 <= p < resources@.len() && 0 <= i < self.locked_files@.len() ==> !(
                    (#[trigger] self.locked_files@[i]).0@ == (#[trigger] resources@[p])@
                        && self.locked_files@[i].1@ != id@),
                forall|x: Seq<char>, path: Seq<char>|
                    #[trigger] self.holds(x, path) <==> old(self).holds(x, path) || (x == id@
                        && views(resources@.subrange(0, k as int)).contains(path)),
            decreases resources.len() - k,
        {
            let path = &resources[k];
            let ghost before = *self;
            if !self.holds_exec(path, id) {
                self.locked_files.push((path.clone(), id.clone()));
                proof {
                    let n = before.locked_files@.len() as int;
                    assert(self.locked_files@[n].0@ == path@);
                    assert forall|i: int, j: int|
                        0 <= i < self.locked_files@.len() && 0 <= j < self.locked_files@.len()
                            && i != j implies (#[trigger] self.locked_files@[i]).0@
                        != (#[trigger] self.locked_files@[j]).0@ by {
                        if i == n {
                            assert(before.locked_files@[j] == self.locked_files@[j]);
                            assert(resources@[k as int] == *path);
                        } else if j == n {
                            assert(before.locked_files@[i] == self.locked_files@[i]);
                            assert(resources@[k as int] == *path);
                        } else {
                            assert(before.locked_files@[i] == self.locked_files@[i]);
                            assert(before.locked_files@[j] == self.locked_files@[j]);
                        }
                    }
                    assert forall|i: int|
                        0 <= i < self.locked_files@.len() implies self.is_in_flight(
                        (#[trigger] self.locked_files@[i]).1@,
                    ) by {
                        if i < n {
                            assert(before.locked_files@[i] == self.locked_files@[i]);
                        }
                    }
                    assert forall|p: int, i: int|
                        0 <= p < resources@.len() && 0 <= i < self.locked_files@.len() implies !(
                        (#[trigger] self.locked_files@[i]).0@ == (#[trigger] resources@[p])@
                            && self.locked_files@[i].1@ != id@) by {
                        if i < n {
                            assert(before.locked_files@[i] == self.locked_files@[i]);
                        }
                    }
                    assert(self.locked_files@[n].1@ == id@);
                    assert forall|x: Seq<char>, q: Seq<char>|
                        #[trigger] self.holds(x, q) <==> old(self).holds(x, q) || (x == id@
                            && views(resources@.subrange(0, k as int + 1)).contains(q)) by {
                        lemma_prefix_contains(resources@, k as int, q);
                        if self.holds(x, q) {
                            let i = choose|i: int|
                                0 <= i < self.locked_files@.len()
                                    && (#[trigger] self.locked_files@[i]).0@ == q
                                    && self.locked_files@[i].1@ == x;
                            if i < n {
                                assert(before.locked_files@[i] == self.locked_files@[i]);
                                assert(before.holds(x, q));
                            }
                        }
                        if before.holds(x, q) {
                            let i = choose|i: int|
                                0 <= i < before.locked_files@.len()
                                    && (#[trigger] before.locked_files@[i]).0@ == q
                                    && before.locked_files@[i].1@ == x;
                            assert(self.locked_files@[i] == before.locked_files@[i]);
                        }
                        if x == id@ && q == path@ {
                            assert(self.locked_files@[n].0@ == q);
                        }
                    }
                }
            } else {
                proof {
                    assert forall|x: Seq<char>, q: Seq<char>|
                        #[trigger] self.holds(x, q) <==> old(self).holds(x, q) || (x == id@
                            && views(resources@.subrange(0, k as int + 1)).contains(q)) by {
                        lemma_prefix_contains(resources@, k as int, q);
                    }
                }
            }
            k += 1;
        }
        proof {
            assert(resources@.subrange(0, resources@.len() as int) =~= resources@);
        }
    }

    /// Position of `id` among the items in flight.
    pub fn in_flight_index(&self, id: &String) -> (r: Option<usize>)
        ensures
            match r {
                Some(k) => k < self.in_flight@.len() && self.in_flight@[k as int]@ == id@,
                None => !self.is_in_flight(id@),
            },
    {
        let mut k: usize = 0;
        while k < self.in_flight.len()
            invariant
                k <= self.in_flight@.len(),
                forall|j: int| 0 <= j < k ==> (#[trigger] self.in_flight@[j])@ != id@,
            decreases self.in_flight.len() - k,
        {
            if self.in_flight[k] == *id {
                return Some(k);
            }
            k += 1;
        }
        None
    }

    /// Drop every claim held by `id`.
    pub fn release(&mut self, id: &String)
        requires
            old(self).wf(),
        ensures
            final(self).wf(),
            final(self).in_flight == old(self).in_flight,
            final(self).completed == old(self).completed,
            final(self).failed == old(self).failed,
            forall|x: Seq<char>, path: Seq<char>|
                #[trigger] final(self).holds(x, path) <==> old(self).holds(x, path) && x != id@,
    {
        let ghost locked = self.locked_files@;
        let ghost mut idx: Seq<int> = Seq::empty();
        let ghost mut pos: Seq<int> = Seq::empty();
        let mut kept: Vec<(String, String)> = Vec::new();
        let mut k: usize = 0;
        while k < self.locked_files.len()
            invariant
                k <= locked.len(),
                self.locked_files@ == locked,
                idx.len() == kept@.len(),
                pos.len() == k,
                forall|j: int|
                    0 <= j < kept@.len() ==> 0 <= #[trigger] idx[j] < k && kept@[j]
                        == locked[idx[j]] && locked[idx[j]].1@ != id@,
                forall|a: int, b: int| 0 <= a < b < idx.len() ==> #[trigger] idx[a] < #[trigger] idx[b],
                forall|i: int|
                    0 <= i < k && (#[trigger] locked[i]).1@ != id@ ==> 0 <= pos[i] < kept@.len()
                        && kept@[pos[i]] == locked[i],
            decreases locked.len() - k,
        {
            let entry = &self.locked_files[k];
            if !(entry.1 == *id) {
                let ghost n = kept@.len() as int;
                kept.push((entry.0.clone(), entry.1.clone()));
                proof {
                    assert(kept@[n] == locked[k as int]);
                    idx = idx.push(k as int);
                    pos = pos.push(n);
                }
            } else {
                proof {
                    pos = pos.push(0);
                }
            }
            k += 1;
        }
        let ghost old_state = *self;
        self.locked_files = kept;
        proof {
            assert forall|a: int, b: int|
                0 <= a < kept@.len() && 0 <= b < kept@.len() && a != b implies (
                #[trigger] kept@[a]).0@ != (#[trigger] kept@[b]).0@ by {
                assert(idx[a] != idx[b]) by {
                    if a < b {
                        assert(idx[a] < idx[b]);
                    } else {
                        assert(idx[b] < idx[a]);
                    }
                }
                assert(locked[idx[a]].0@ != locked[idx[b]].0@);
            }
            assert forall|i: int|
                0 <= i < self.locked_files@.len() implies id_listed(
                self.in_flight@,
                (#[trigger] self.locked_files@[i]).1@,
            ) by {
                let m = idx[i];
                assert(old_state.locked_files@[m] == locked[m]);
                assert(id_listed(old_state.in_flight@, locked[m].1@));
            }
            assert forall|x: Seq<char>, path: Seq<char>|
                #[trigger] self.holds(x, path) <==> old_state.holds(x, path) && x != id@ by {
                if self.holds(x, path) {
                    let j = choose|j: int|
                        0 <= j < self.locked_files@.len() && (#[trigger] self.locked_files@[j]).0@
                            == path && self.locked_files@[j].1@ == x;
                    let m = idx[j];
                    assert(old_state.locked_files@[m] == locked[m]);
                }
                if old_state.holds(x, path) && x != id@ {
                    let m = choose|m: int|
                        0 <= m < old_state.locked_files@.len()
                            && (#[trigger] old_state.locked_files@[m]).0@ == path
                            && old_state.locked_files@[m].1@ == x;
                    assert(locked[m] == old_state.locked_files@[m]);
                    let j = pos[m];
                    assert(self.locked_files@[j] == kept@[j]);
                }
            }
        }
    }

    /// Remove `id`, which holds nothing, from the items in flight.
    fn drop_in_flight(&mut self, id: &String)
        requires
            old(self).wf(),
            old(self).is_in_flight(id@),
            forall|path: Seq<char>| !old(self).holds(id@, path),
        ensures
            final(self).in_flight@.len() == old(self).in_flight@.len() - 1,
            forall|x: Seq<char>| #[trigger]
                final(self).is_in_flight(x) <==> old(self).is_in_flight(x) && x != id@,
            unique_ids(final(self).in_flight@),
            final(self).completed == old(self).completed,
            final(self).failed == old(self).failed,
            final(self).locked_files == old(self).locked_files,
            holders_in_flight(final(self).locked_files@, final(self).in_flight@),
    {
        let ghost s = self.in_flight@;
        let k = match self.in_flight_index(id) {
            Some(k) => k,
            None => {
                return;
            },
        };
        self.in_flight.remove(k);
        proof {
            let t = self.in_flight@;
            s.remove_ensures(k as int);
            assert forall|x: Seq<char>| #[trigger]
                self.is_in_flight(x) <==> id_listed(s, x) && x != id@ by {
                if id_listed(t, x) {
                    let j = choose|j: int| 0 <= j < t.len() && (#[trigger] t[j])@ == x;
                    if j < k {
                        assert(t[j] == s[j]);
                    } else {
                        assert(t[j] == s[j + 1]);
                    }
                }
                if id_listed(s, x) && x != id@ {
                    let j = choose|j: int| 0 <= j < s.len() && (#[trigger] s[j])@ == x;
                    if j < k {
                        assert(t[j] == s[j]);
                    } else {
                        assert(t[j - 1] == s[j]);
                    }
                }
            }
            assert forall|a: int, b: int|
                0 <= a < t.len() && 0 <= b < t.len() && a != b implies (#[trigger] t[a])@
                != (#[trigger] t[b])@ by {
                let a2 = if a < k { a } else { a + 1 };
                let b2 = if b < k { b } else { b + 1 };
                assert(t[a] == s[a2] && t[b] == s[b2]);
            }
            assert forall|i: int|
                0 <= i < self.locked_files@.len() implies id_listed(
                t,
                (#[trigger] self.locked_files@[i]).1@,
            ) by {
                let e = self.locked_files@[i];
                assert(id_listed(s, e.1@));
                if e.1@ == id@ {
                    assert(old(self).holds(id@, e.0@));
                }
                assert(self.is_in_flight(e.1@));
            }
        }
    }

    /// Release the claims of `id`, in flight, and take it out of flight.
    pub(crate) fn withdraw(&mut self, id: &String)
        requires
            old(self).wf(),
            old(self).is_in_flight(id@),
        ensures
            final(self).wf(),
            final(self).in_flight@.len() == old(self).in_flight@.len() - 1,
            forall|x: Seq<char>| #[trigger]
                final(self).is_in_flight(x) <==> old(self).is_in_flight(x) && x != id@,
            final(self).completed == old(self).completed,
            final(self).failed == old(self).failed,
            forall|x: Seq<char>, path: Seq<char>|
                #[trigger] final(self).holds(x, path) <==> old(self).holds(x, path) && x != id@,
    {
        self.release(id);
        let ghost released = *self;
        self.drop_in_flight(id);
        proof {
            assert forall|x: Seq<char>| #[trigger]
                id_listed(self.in_flight@, x) implies !id_listed(self.completed@, x) && !id_listed(
                first_ids(self.failed@),
                x,
            ) by {
                assert(self.is_in_flight(x));
                assert(released.is_in_flight(x));
            }
            assert forall|x: Seq<char>| #[trigger]
                self.is_in_flight(x) <==> old(self).is_in_flight(x) && x != id@ by {
                assert(released.is_in_flight(x) <==> old(self).is_in_flight(x));
            }
            assert forall|x: Seq<char>, path: Seq<char>|
                #[trigger] self.holds(x, path) <==> old(self).holds(x, path) && x != id@ by {
                assert(self.locked_files == released.locked_files);
                assert(released.holds(x, path) <==> old(self).holds(x, path) && x != id@);
            }
        }
    }

    /// Admit `id`, unknown so far, with all of `resources` at once, or nothing
    /// at all when any of them is claimed.
    pub fn try_admit(&mut self, id: &String, resources: &Vec<String>) -> (r: bool)
        requires
            old(self).wf(),
            !old(self).is_known(id@),
        ensures
            final(self).wf(),
            r <==> forall|p: int|
                0 <= p < resources@.len() ==> !old(self).is_locked(#[trigger] resources@[p]@),
            r ==> {
                &&& final(self).in_flight@ == old(self).in_flight@.push(*id)
                &&& final(self).completed == old(self).completed
                &&& final(self).failed == old(self).failed
                &&& forall|x: Seq<char>, path: Seq<char>|
                    #[trigger] final(self).holds(x, path) <==> old(self).holds(x, path) || (x
                        == id@ && views(resources@).contains(path))
            },
            !r ==> *final(self) == *old(self),
    {
        let conflict = self.conflicts(id, resources);
        proof {
            assert forall|p: int, i: int|
                0 <= p < resources@.len() && 0 <= i < self.locked_files@.len()
                    && (#[trigger] self.locked_files@[i]).0@ == (#[trigger] resources@[p])@
                    implies self.locked_files@[i].1@ != id@ by {
                assert(id_listed(self.in_flight@, self.locked_files@[i].1@));
            }
            if !conflict {
                assert forall|p: int|
                    0 <= p < resources@.len() implies !self.is_locked(
                    #[trigger] resources@[p]@,
                ) by {
                    if self.is_locked(resources@[p]@) {
                        let i = choose|i: int|
                            0 <= i < self.locked_files@.len()
                                && (#[trigger] self.locked_files@[i]).0@ == resources@[p]@;
                        assert(id_listed(self.in_flight@, self.locked_files@[i].1@));
                    }
                }
            } else {
                let (p, i) = choose|p: int, i: int|
                    0 <= p < resources@.len() && 0 <= i < self.locked_files@.len()
                        && (#[trigger] self.locked_files@[i]).0@ == (#[trigger] resources@[p])@
                        && self.locked_files@[i].1@ != id@;
                assert(self.is_locked(resources@[p]@));
            }
        }
        if conflict {
            return false;
        }
        let ghost before = *self;
        self.in_flight.push(id.clone());
        proof {
            lemma_unique_push(before.in_flight@, *id);
            assert forall|x: Seq<char>| #[trigger]
                id_listed(self.in_flight@, x) implies !id_listed(self.completed@, x) && !id_listed(
                first_ids(self.failed@),
                x,
            ) by {
                lemma_listed_push(before.in_flight@, *id, x);
            }
            assert forall|i: int|
                0 <= i < self.locked_files@.len() implies id_listed(
                self.in_flight@,
                (#[trigger] self.locked_files@[i]).1@,
            ) by {
                lemma_listed_push(before.in_flight@, *id, self.locked_files@[i].1@);
            }
            lemma_listed_push(before.in_flight@, *id, id@);
        }
        self.lock_all(id, resources);
        true
    }

    /// `id`, in flight, finished successfully: it moves to completed and its
    /// claims are released.
    pub fn complete(&mut self, id: &String)
        requires
            old(self).wf(),
            old(self).is_in_flight(id@),
        ensures
            final(self).wf(),
            final(self).in_flight@.len() == old(self).in_flight@.len() - 1,
            forall|x: Seq<char>| #[trigger]
                final(self).is_in_flight(x) <==> old(self).is_in_flight(x) && x != id@,
            final(self).completed@ == old(self).completed@.push(*id),
            final(self).failed == old(self).failed,
            forall|x: Seq<char>, path: Seq<char>|
                #[trigger] final(self).holds(x, path) <==> old(self).holds(x, path) && x != id@,
    {
        self.release(id);
        let ghost released = *self;
        self.drop_in_flight(id);
        let ghost before = *self;
        self.completed.push(id.clone());
        proof {
            assert(!id_listed(before.completed@, id@));
            lemma_unique_push(before.completed@, *id);
            assert forall|x: Seq<char>| #[trigger]
                id_listed(self.in_flight@, x) implies !id_listed(self.completed@, x) && !id_listed(
                first_ids(self.failed@),
                x,
            ) by {
                lemma_listed_push(before.completed@, *id, x);
                assert(before.is_in_flight(x));
                assert(released.is_in_flight(x));
            }
            assert forall|x: Seq<char>| #[trigger]
                id_listed(self.completed@, x) implies !id_listed(first_ids(self.failed@), x) by {
                lemma_listed_push(before.completed@, *id, x);
            }
            assert forall|x: Seq<char>| #[trigger]
                self.is_in_flight(x) <==> old(self).is_in_flight(x) && x != id@ by {
                assert(self.in_flight == before.in_flight);
                assert(before.is_in_flight(x) <==> released.is_in_flight(x) && x != id@);
            }
            assert forall|x: Seq<char>, path: Seq<char>|
                #[trigger] self.holds(x, path) <==> old(self).holds(x, path) && x != id@ by {
                assert(self.locked_files == released.locked_files);
                assert(released.holds(x, path) <==> old(self).holds(x, path) && x != id@);
            }
        }
    }

    /// `id`, in flight, failed with `message`: it moves to failed and its
    /// claims are released.
    pub fn fail(&mut self, id: &String, message: String)
        requires
            old(self).wf(),
            old(self).is_in_flight(id@),
        ensures
            final(self).wf(),
            final(self).in_flight@.len() == old(self).in_flight@.len() - 1,
            forall|x: Seq<char>| #[trigger]
                final(self).is_in_flight(x) <==> old(self).is_in_flight(x) && x != id@,
            final(self).completed == old(self).completed,
            final(self).failed@ == old(self).failed@.push((*id, message)),
            forall|x: Seq<char>, path: Seq<char>|
                #[trigger] final(self).holds(x, path) <==> old(self).holds(x, path) && x != id@,
    {
        self.release(id);
        let ghost released = *self;
        self.drop_in_flight(id);
        let ghost before = *self;
        let entry = (id.clone(), message);
        self.failed.push(entry);
        proof {
            lemma_first_ids_push(before.failed@, entry);
            assert(!id_listed(first_ids(before.failed@), id@));
            lemma_unique_push(first_ids(before.failed@), *id);
            assert forall|x: Seq<char>| #[trigger]
                id_listed(self.in_flight@, x) implies !id_listed(self.completed@, x) && !id_listed(
                first_ids(self.failed@),
                x,
            ) by {
                lemma_listed_push(first_ids(before.failed@), *id, x);
                assert(before.is_in_flight(x));
                assert(released.is_in_flight(x));
            }
            assert forall|x: Seq<char>| #[trigger]
                id_listed(self.completed@, x) implies !id_listed(first_ids(self.failed@), x) by {
                lemma_listed_push(first_ids(before.failed@), *id, x);
                assert(old(self).is_completed(x));
            }
            assert forall|x: Seq<char>| #[trigger]
                self.is_in_flight(x) <==> old(self).is_in_flight(x) && x != id@ by {
                assert(self.in_flight == before.in_flight);
                assert(before.is_in_flight(x) <==> released.is_in_flight(x) && x != id@);
            }
            assert forall|x: Seq<char>, path: Seq<char>|
                #[trigger] self.holds(x, path) <==> old(self).holds(x, path) && x != id@ by {
                assert(self.locked_files == released.locked_files);
                assert(released.holds(x, path) <==> old(self).holds(x, path) && x != id@);
            }
        }
    }

    /// Whether `id` holds `path`.
    pub fn holds_exec(&self, path: &String, id: &String) -> (r: bool)
        ensures
            r == self.holds(id@, path@),
    {
        let mut k: usize = 0;
        while k < self.locked_files.len()
            invariant
                k <= self.locked_files@.len(),
                forall|i: int|
                    0 <= i < k ==> !((#[trigger] self.locked_files@[i]).0@ == path@
                        && self.locked_files@[i].1@ == id@),
            decreases self.locked_files.len() - k,
        {
            let entry = &self.locked_files[k];
            if entry.0 == *path && entry.1 == *id {
                return true;
            }
            k += 1;
        }
        false
    }
}

/// A path occurs among the first `k + 1` resources exactly when it occurs
/// among the first `k` or is the resource at `k`.
proof fn lemma_prefix_contains(resources: Seq<String>, k: int, q: Seq<char>)
    requires
        0 <= k < resources.len(),
    ensures
        views(resources.subrange(0, k + 1)).contains(q) <==> views(
            resources.subrange(0, k),
        ).contains(q) || q == resources[k]@,
{
    let pre = views(resources.subrange(0, k));
    let post = views(resources.subrange(0, k + 1));
    assert(post =~= pre.push(resources[k]@));
    if post.contains(q) {
        let m = choose|m: int| 0 <= m < post.len() && post[m] == q;
        if m < k {
            assert(pre[m] == q);
        }
    }
    if pre.contains(q) {
        let m = choose|m: int| 0 <= m < pre.len() && pre[m] == q;
        assert(post[m] == q);
    }
    if q == resources[k]@ {
        assert(post[k] == q);
    }
}

/// Membership after appending one identifier.
pub proof fn lemma_listed_push(ids: Seq<String>, s: String, x: Seq<char>)
    ensures
        id_listed(ids.push(s), x) <==> id_listed(ids, x) || s@ == x,
{
    let post = ids.push(s);
    if id_listed(post, x) {
        let k = choose|k: int| 0 <= k < post.len() && (#[trigger] post[k])@ == x;
        if k < ids.len() {
            assert(ids[k] == post[k]);
        }
    }
    if id_listed(ids, x) {
        let k = choose|k: int| 0 <= k < ids.len() && (#[trigger] ids[k])@ == x;
        assert(post[k] == ids[k]);
    }
    if s@ == x {
        assert(post[ids.len() as int] == s);
    }
}

/// Appending an identifier that is not listed keeps the identifiers unique.
proof fn lemma_unique_push(ids: Seq<String>, s: String)
    requires
        unique_ids(ids),
        !id_listed(ids, s@),
    ensures
        unique_ids(ids.push(s)),
{
    let post = ids.push(s);
    assert forall|i: int, j: int|
        0 <= i < post.len() && 0 <= j < post.len() && i != j implies (#[trigger] post[i])@
        != (#[trigger] post[j])@ by {
        if i < ids.len() && j < ids.len() {
            assert(post[i] == ids[i] && post[j] == ids[j]);
        } else if i < ids.len() {
            assert(post[i] == ids[i]);
        } else {
            assert(post[j] == ids[j]);
        }
    }
}

/// The identifiers of failures after appending one failure.
pub proof fn lemma_first_ids_push(pairs: Seq<(String, String)>, p: (String, String))
    ensures
        first_ids(pairs.push(p)) == first_ids(pairs).push(p.0),
{
    assert(first_ids(pairs.push(p)) =~= first_ids(pairs).push(p.0));
}

/// Two items never hold the same resource at once.
pub proof fn lemma_no_shared_resource(
    s: ParallelExecutionState,
    a: Seq<char>,
    b: Seq<char>,
    path: Seq<char>,
)
    requires
        s.wf(),
        s.holds(a, path),
        s.holds(b, path),
    ensures
        a == b,
{
    let i = choose|i: int|
        0 <= i < s.locked_files@.len() && (#[trigger] s.locked_files@[i]).0@ == path
            && s.locked_files@[i].1@ == a;
    let j = choose|j: int|
        0 <= j < s.locked_files@.len() && (#[trigger] s.locked_files@[j]).0@ == path
            && s.locked_files@[j].1@ == b;
    if i != j {
        assert(s.locked_files@[i].0@ != s.locked_files@[j].0@);
    }
}


/// Footprints held in full by two different items in flight share no
/// resource.
pub proof fn lemma_in_flight_footprints_disjoint(
    s: ParallelExecutionState,
    a: Seq<char>,
    b: Seq<char>,
    footprint_a: Seq<Seq<char>>,
    footprint_b: Seq<Seq<char>>,
)
    requires
        s.wf(),
        a != b,
        forall|p: Seq<char>| #[trigger] footprint_a.contains(p) ==> s.holds(a, p),
        forall|p: Seq<char>| #[trigger] footprint_b.contains(p) ==> s.holds(b, p),
    ensures
        forall|p: Seq<char>| !(#[trigger] footprint_a.contains(p) && footprint_b.contains(p)),
{
    assert forall|p: Seq<char>| !(#[trigger] footprint_a.contains(p) && footprint_b.contains(p)) by {
        if footprint_a.contains(p) && footprint_b.contains(p) {
            lemma_no_shared_resource(s, a, b, p);
        }
    }
}

} // verus!
