//! The pending transition store: suspended transitions, each under the
//! correlation id that was handed to the caller.
//!
//! Every id maps to at most one transition, and taking one out (`consume`)
//! removes it in the same step, so an id can be redeemed once. Callers that
//! share a store between tasks hold it behind one lock; a single `&mut` call
//! is then one critical section.

use vstd::prelude::*;
use crate::prompt::UiFieldPrompt;

verus! {

/// A transition suspended until the caller supplies field values.
pub struct PendingTransition {
    pub work_item_id: i32,
    pub target_state: String,
    pub reason: Option<String>,
    pub current_rev: i32,
    pub required_fields: Vec<UiFieldPrompt>,
}

/// Suspended transitions by correlation id.
pub struct PendingStore {
    entries: Vec<(String, PendingTransition)>,
    contents: Ghost<Map<Seq<char>, PendingTransition>>,
}

impl View for PendingStore {
    type V = Map<Seq<char>, PendingTransition>;

    closed spec fn view(&self) -> Map<Seq<char>, PendingTransition> {
        self.contents@
    }
}

impl PendingStore {
    /// Each entry's id is a key of the contents, mapped to that entry's
    /// transition; each key has an entry; no two entries share an id.
    pub closed spec fn well_formed(&self) -> bool {
        &&& forall|i: int|
            0 <= i < self.entries.len() ==> #[trigger] self.contents@.contains_key(
                self.entries[i].0@,
            ) && self.contents@[self.entries[i].0@] == self.entries[i].1
        &&& forall|k: Seq<char>|
            #[trigger] self.contents@.contains_key(k) ==> exists|i: int|
                0 <= i < self.entries.len() && #[trigger] self.entries[i].0@ == k
        &&& forall|i: int, j: int|
            0 <= i < j < self.entries.len() ==> #[trigger] self.entries[i].0@
                != #[trigger] self.entries[j].0@
    }

    /// An empty store.
    pub fn new() -> (r: PendingStore)
        ensures
            r.well_formed(),
            r@ == Map::<Seq<char>, PendingTransition>::empty(),
    {
        PendingStore { entries: Vec::new(), contents: Ghost(Map::empty()) }
    }

    /// The number of suspended transitions.
    pub fn len(&self) -> (r: usize)
        requires
            self.well_formed(),
        ensures
            r == self@.len(),
    {
        proof {
            self.lemma_len();
        }
        self.entries.len()
    }

    proof fn lemma_len(&self)
        requires
            self.well_formed(),
        ensures
            self.contents@.dom().finite(),
            self.contents@.len() == self.entries.len(),
    {
        let keys = Seq::new(self.entries.len() as nat, |i: int| self.entries[i].0@);
        assert(keys.no_duplicates());
        assert(self.contents@.dom() =~= keys.to_set()) by {
            assert forall|k: Seq<char>| self.contents@.dom().contains(k) implies keys.to_set().contains(k) by {
                let i = choose|i: int| 0 <= i < self.entries.len() && #[trigger] self.entries[i].0@ == k;
                assert(keys[i] == k);
            }
            assert forall|k: Seq<char>| keys.to_set().contains(k) implies self.contents@.dom().contains(k) by {
                let i = choose|i: int| 0 <= i < keys.len() && keys[i] == k;
                assert(self.contents@.contains_key(self.entries[i].0@));
            }
        }
        keys.unique_seq_to_set();
    }

    fn index_of(&self, id: &str) -> (r: Option<usize>)
        requires
            self.well_formed(),
        ensures
            match r {
                Some(i) => i < self.entries.len() && self.entries[i as int].0@ == id@,
                None => forall|i: int| 0 <= i < self.entries.len() ==> self.entries[i].0@ != id@,
            },
    {
        let key = String::from_str(id);
        let mut i: usize = 0;
        while i < self.entries.len()
            invariant
                i <= self.entries.len(),
                key@ == id@,
                forall|j: int| 0 <= j < i ==> self.entries[j].0@ != id@,
            decreases self.entries.len() - i,
        {
            if self.entries[i].0 == key {
                return Some(i);
            }
            i = i + 1;
        }
        None
    }

    /// Whether a transition is suspended under `id`.
    pub fn contains(&self, id: &str) -> (r: bool)
        requires
            self.well_formed(),
        ensures
            r == self@.contains_key(id@),
    {
        match self.index_of(id) {
            Some(_) => true,
            None => {
                proof {
                    if self.contents@.contains_key(id@) {
                        let i = choose|i: int|
                            0 <= i < self.entries.len() && #[trigger] self.entries[i].0@ == id@;
                    }
                }
                false
            },
        }
    }

    /// Suspends `pending` under `id`, unless `id` is already taken: then the
    /// store is left as it was and the result is false.
    pub fn insert(&mut self, id: String, pending: PendingTransition) -> (r: bool)
        requires
            old(self).well_formed(),
        ensures
            final(self).well_formed(),
            r == !old(self)@.contains_key(id@),
            r ==> final(self)@ == old(self)@.insert(id@, pending),
            !r ==> final(self)@ == old(self)@,
    {
        if self.contains(id.as_str()) {
            return false;
        }
        let ghost key = id@;
        let ghost new_contents = self.contents@.insert(key, pending);
        let ghost old_entries = self.entries@;
        self.entries.push((id, pending));
        proof {
            let n = old_entries.len() as int;
            assert(self.entries[n].0@ == key);
            assert forall|i: int| 0 <= i < self.entries.len() implies #[trigger] new_contents.contains_key(
                self.entries[i].0@,
            ) && new_contents[self.entries[i].0@] == self.entries[i].1 by {
                if i < n {
                    assert(self.entries[i] == old_entries[i]);
                    assert(self.contents@.contains_key(old_entries[i].0@));
                }
            }
            assert forall|k: Seq<char>| #[trigger] new_contents.contains_key(k) implies exists|i: int|
                0 <= i < self.entries.len() && #[trigger] self.entries[i].0@ == k by {
                if k != key {
                    assert(self.contents@.contains_key(k));
                    let i = choose|i: int| 0 <= i < old_entries.len() && #[trigger] old_entries[i].0@ == k;
                    assert(self.entries[i] == old_entries[i]);
                }
            }
            assert forall|a: int, b: int| 0 <= a < b < self.entries.len() implies #[trigger] self.entries[a].0@
                != #[trigger] self.entries[b].0@ by {
                assert(self.entries[a] == old_entries[a]);
                if b < n {
                    assert(self.entries[b] == old_entries[b]);
                } else {
                    assert(self.contents@.contains_key(old_entries[a].0@));
                }
            }
        }
        self.contents = Ghost(new_contents);
        assert(self.well_formed());
        true
    }

    /// Takes the transition suspended under `id` out of the store, if there
    /// is one; the store then no longer holds `id`. When there is none the
    /// store is left as it was.
    pub fn consume(&mut self, id: &str) -> (r: Option<PendingTransition>)
        requires
            old(self).well_formed(),
        ensures
            final(self).well_formed(),
            match r {
                Some(p) => old(self)@.contains_key(id@) && p == old(self)@[id@] && final(self)@
                    == old(self)@.remove(id@),
                None => !old(self)@.contains_key(id@) && final(self)@ == old(self)@,
            },
    {
        match self.index_of(id) {
            None => {
                proof {
                    if self.contents@.contains_key(id@) {
                        let i = choose|i: int|
                            0 <= i < self.entries.len() && #[trigger] self.entries[i].0@ == id@;
                    }
                }
                None
            },
            Some(i) => {
                let ghost old_entries = self.entries@;
                let ghost new_contents = self.contents@.remove(id@);
                let (_, pending) = self.entries.remove(i);
                proof {
                    assert(old_entries[i as int].1 == pending);
                    assert(self.contents@.contains_key(old_entries[i as int].0@));
                    assert(self.contents@[id@] == pending);
                    assert forall|j: int| 0 <= j < self.entries.len() implies #[trigger] new_contents.contains_key(
                        self.entries[j].0@,
                    ) && new_contents[self.entries[j].0@] == self.entries[j].1 by {
                        if j < i {
                            assert(self.entries[j] == old_entries[j]);
                        } else {
                            assert(self.entries[j] == old_entries[j + 1]);
                        }
                    }
                    assert forall|k: Seq<char>| #[trigger] new_contents.contains_key(k) implies exists|j: int|
                        0 <= j < self.entries.len() && #[trigger] self.entries[j].0@ == k by {
                        let m = choose|m: int|
                            0 <= m < old_entries.len() && #[trigger] old_entries[m].0@ == k;
                        if m < i {
                            assert(self.entries[m].0@ == k);
                        } else {
                            assert(m != i);
                            assert(self.entries[m - 1].0@ == k);
                        }
                    }
                    assert forall|a: int, b: int| 0 <= a < b < self.entries.len() implies #[trigger] self.entries[a].0@
                        != #[trigger] self.entries[b].0@ by {
                        let a0 = if a < i { a } else { a + 1 };
                        let b0 = if b < i { b } else { b + 1 };
                        assert(self.entries[a] == old_entries[a0]);
                        assert(self.entries[b] == old_entries[b0]);
                    }
                }
                self.contents = Ghost(new_contents);
                assert(self.well_formed());
                Some(pending)
            },
        }
    }
}

} // verus!
