//! The operation registry: the one piece of state shared between the
//! code that starts operations and the code that cancels them.
//!
//! The registry maps each running operation's identifier to its
//! cancellation flag.  An entry is inserted by [`Registry::begin`]
//! before the subprocess is spawned (so a cancel request can never
//! target an id that exists but is not yet registered) and removed
//! unconditionally by [`Registry::end`] when the operation reaches a
//! terminal state.  Identifiers increase monotonically and are never
//! reused within the registry's lifetime.

use vstd::prelude::*;

verus! {

/// The mapping described by a sequence of `(id, flag)` entries, later
/// entries winning.  With unique ids (the registry's invariant) this is
/// simply "the flag stored beside each id".
pub open spec fn map_of(entries: Seq<(u32, bool)>) -> Map<u32, bool>
    decreases entries.len(),
{
    if entries.len() == 0 {
        Map::empty()
    } else {
        map_of(entries.drop_last()).insert(entries.last().0, entries.last().1)
    }
}

/// No two entries carry the same id.
pub open spec fn unique_ids(entries: Seq<(u32, bool)>) -> bool {
    forall|i: int, j: int|
        0 <= i < j < entries.len() ==> entries[i].0 != entries[j].0
}

proof fn lemma_map_of_contains(entries: Seq<(u32, bool)>, k: u32)
    ensures
        map_of(entries).contains_key(k) <==> exists|i: int|
            0 <= i < entries.len() && entries[i].0 == k,
    decreases entries.len(),
{
    if entries.len() > 0 {
        lemma_map_of_contains(entries.drop_last(), k);
        if entries.last().0 == k {
            assert(entries[entries.len() - 1].0 == k);
        } else if map_of(entries).contains_key(k) {
            let i = choose|i: int| 0 <= i < entries.drop_last().len() && entries.drop_last()[i].0 == k;
            assert(entries[i].0 == k);
        } else if exists|i: int| 0 <= i < entries.len() && entries[i].0 == k {
            let i = choose|i: int| 0 <= i < entries.len() && entries[i].0 == k;
            assert(i < entries.len() - 1);
            assert(entries.drop_last()[i].0 == k);
        }
    }
}

proof fn lemma_map_of_index(entries: Seq<(u32, bool)>, i: int)
    requires
        unique_ids(entries),
        0 <= i < entries.len(),
    ensures
        map_of(entries).contains_key(entries[i].0),
        map_of(entries)[entries[i].0] == entries[i].1,
    decreases entries.len(),
{
    if i == entries.len() - 1 {
    } else {
        assert(unique_ids(entries.drop_last()));
        lemma_map_of_index(entries.drop_last(), i);
        assert(entries.drop_last()[i] == entries[i]);
        assert(entries.last().0 != entries[i].0);
    }
}

proof fn lemma_map_of_update(entries: Seq<(u32, bool)>, i: int, v: bool)
    requires
        unique_ids(entries),
        0 <= i < entries.len(),
    ensures
        map_of(entries.update(i, (entries[i].0, v))) == map_of(entries).insert(entries[i].0, v),
    decreases entries.len(),
{
    let k = entries[i].0;
    let updated = entries.update(i, (k, v));
    if i == entries.len() - 1 {
        assert(updated.drop_last() =~= entries.drop_last());
        assert(map_of(updated) == map_of(entries.drop_last()).insert(k, v));
        assert(map_of(entries).insert(k, v) =~= map_of(entries.drop_last()).insert(k, v));
    } else {
        assert(unique_ids(entries.drop_last()));
        lemma_map_of_update(entries.drop_last(), i, v);
        assert(updated.drop_last() =~= entries.drop_last().update(i, (k, v)));
        assert(updated.last() == entries.last());
        assert(entries.last().0 != k);
        assert(map_of(updated) == map_of(entries.drop_last()).insert(k, v).insert(
            entries.last().0,
            entries.last().1,
        ));
        assert(map_of(entries.drop_last()).insert(k, v).insert(entries.last().0, entries.last().1)
            =~= map_of(entries.drop_last()).insert(entries.last().0, entries.last().1).insert(
            k,
            v,
        ));
    }
}

proof fn lemma_map_of_remove(entries: Seq<(u32, bool)>, i: int)
    requires
        unique_ids(entries),
        0 <= i < entries.len(),
    ensures
        map_of(entries.remove(i)) == map_of(entries).remove(entries[i].0),
    decreases entries.len(),
{
    let k = entries[i].0;
    let shorter = entries.remove(i);
    if i == entries.len() - 1 {
        assert(shorter =~= entries.drop_last());
        lemma_map_of_contains(entries.drop_last(), k);
        assert(forall|j: int|
            0 <= j < entries.drop_last().len() ==> entries.drop_last()[j] == entries[j]);
        assert(!map_of(entries.drop_last()).contains_key(k));
        assert(map_of(entries.drop_last()).insert(k, entries[i].1).remove(k) =~= map_of(
            entries.drop_last(),
        ));
    } else {
        assert(unique_ids(entries.drop_last()));
        lemma_map_of_remove(entries.drop_last(), i);
        assert(shorter.drop_last() =~= entries.drop_last().remove(i));
        assert(shorter.last() == entries.last());
        assert(entries.last().0 != k);
        assert(map_of(shorter) == map_of(entries.drop_last()).remove(k).insert(
            entries.last().0,
            entries.last().1,
        ));
        assert(map_of(entries.drop_last()).remove(k).insert(entries.last().0, entries.last().1)
            =~= map_of(entries.drop_last()).insert(entries.last().0, entries.last().1).remove(k));
    }
}

proof fn lemma_map_of_len(entries: Seq<(u32, bool)>)
    requires
        unique_ids(entries),
    ensures
        map_of(entries).dom().finite(),
        map_of(entries).dom().len() == entries.len(),
    decreases entries.len(),
{
    if entries.len() > 0 {
        assert(unique_ids(entries.drop_last()));
        lemma_map_of_len(entries.drop_last());
        lemma_map_of_contains(entries.drop_last(), entries.last().0);
        assert(forall|j: int|
            0 <= j < entries.drop_last().len() ==> entries.drop_last()[j] == entries[j]);
        assert(!map_of(entries.drop_last()).contains_key(entries.last().0));
    }
}

/// Shared state: operation id -> cancellation flag, plus the counter
/// from which fresh ids are drawn.
pub struct Registry {
    next_id: u32,
    entries: Vec<(u32, bool)>,
}

impl View for Registry {
    type V = Map<u32, bool>;

    closed spec fn view(&self) -> Map<u32, bool> {
        map_of(self.entries@)
    }
}

impl Registry {
    /// The id the next call of [`Registry::begin`] will hand out.
    pub closed spec fn spec_next_id(self) -> u32 {
        self.next_id
    }

    /// Well-formedness: ids are unique, and every registered id was
    /// drawn from the counter.
    pub closed spec fn wf(self) -> bool {
        &&& unique_ids(self.entries@)
        &&& 1 <= self.next_id
        &&& forall|i: int| 0 <= i < self.entries@.len() ==> self.entries@[i].0 < self.next_id
    }

    /// An empty registry; ids start at 1.
    pub fn new() -> (r: Registry)
        ensures
            r.wf(),
            r@ == Map::<u32, bool>::empty(),
            r.spec_next_id() == 1,
    {
        let r = Registry { next_id: 1, entries: Vec::new() };
        proof {
            assert(r@ =~= Map::<u32, bool>::empty());
        }
        r
    }

    /// Registers a new operation: allocates a fresh id and stores a
    /// cancellation flag initialised to false under it.  The fresh id
    /// is never one that is (or ever was) registered.
    pub fn begin(&mut self) -> (id: u32)
        requires
            old(self).wf(),
            old(self).spec_next_id() < u32::MAX,
        ensures
            final(self).wf(),
            id == old(self).spec_next_id(),
            !old(self)@.contains_key(id),
            final(self)@ == old(self)@.insert(id, false),
            final(self).spec_next_id() == id + 1,
    {
        let id = self.next_id;
        self.next_id = self.next_id + 1;
        self.entries.push((id, false));
        proof {
            let prior = old(self).entries@;
            lemma_map_of_contains(prior, id);
            assert(self.entries@.drop_last() =~= prior);
            assert(self@ == map_of(prior).insert(id, false));
        }
        id
    }

    /// Sets the cancellation flag of a registered operation and reports
    /// whether one was registered under this id.  Cancelling an unknown
    /// or already-finished id changes nothing and returns false.
    pub fn cancel(&mut self, id: u32) -> (r: bool)
        requires
            old(self).wf(),
        ensures
            final(self).wf(),
            r == old(self)@.contains_key(id),
            final(self)@ == (if old(self)@.contains_key(id) {
                old(self)@.insert(id, true)
            } else {
                old(self)@
            }),
            final(self).spec_next_id() == old(self).spec_next_id(),
    {
        let n = self.entries.len();
        let mut i: usize = 0;
        while i < n
            invariant
                n == self.entries.len(),
                i <= n,
                old(self).wf(),
                *self == *old(self),
                forall|j: int| 0 <= j < i ==> self.entries@[j].0 != id,
            decreases n - i,
        {
            if self.entries[i].0 == id {
                proof {
                    lemma_map_of_contains(self.entries@, id);
                    lemma_map_of_update(self.entries@, i as int, true);
                }
                self.entries[i] = (id, true);
                return true;
            }
            i = i + 1;
        }
        proof {
            lemma_map_of_contains(self.entries@, id);
        }
        false
    }

    /// Sets every registered operation's cancellation flag and returns
    /// how many operations were signalled: exactly the number registered
    /// at the moment of the call.  No entry is inserted or removed.
    pub fn cancel_all(&mut self) -> (count: usize)
        requires
            old(self).wf(),
        ensures
            final(self).wf(),
            count == old(self)@.dom().len(),
            final(self)@.dom() == old(self)@.dom(),
            forall|k: u32| old(self)@.contains_key(k) ==> final(self)@[k] == true,
            final(self).spec_next_id() == old(self).spec_next_id(),
    {
        let n = self.entries.len();
        let mut i: usize = 0;
        while i < n
            invariant
                n == self.entries.len(),
                i <= n,
                self.next_id == old(self).next_id,
                old(self).wf(),
                unique_ids(self.entries@),
                forall|j: int| 0 <= j < n ==> self.entries@[j].0 == old(self).entries@[j].0,
                forall|j: int| 0 <= j < i ==> self.entries@[j].1 == true,
                forall|j: int| i <= j < n ==> self.entries@[j] == old(self).entries@[j],
            decreases n - i,
        {
            let k = self.entries[i].0;
            self.entries[i] = (k, true);
            i = i + 1;
        }
        proof {
            let before = old(self).entries@;
            let after = self.entries@;
            assert forall|k: u32| map_of(after).contains_key(k) <==> map_of(
                before,
            ).contains_key(k) by {
                lemma_map_of_contains(before, k);
                lemma_map_of_contains(after, k);
            }
            assert(self@.dom() =~= old(self)@.dom());
            assert forall|k: u32| old(self)@.contains_key(k) implies self@[k] == true by {
                lemma_map_of_contains(before, k);
                let j = choose|j: int| 0 <= j < before.len() && before[j].0 == k;
                assert(after[j] == (k, true));
                lemma_map_of_index(after, j);
            }
            lemma_map_of_len(before);
        }
        n
    }

    /// Removes an operation's entry once it has reached a terminal
    /// state.  Removing an id that is not registered changes nothing.
    pub fn end(&mut self, id: u32)
        requires
            old(self).wf(),
        ensures
            final(self).wf(),
            final(self)@ == old(self)@.remove(id),
            final(self).spec_next_id() == old(self).spec_next_id(),
    {
        let n = self.entries.len();
        let mut i: usize = 0;
        while i < n
            invariant
                n == self.entries.len(),
                i <= n,
                old(self).wf(),
                *self == *old(self),
                forall|j: int| 0 <= j < i ==> self.entries@[j].0 != id,
            decreases n - i,
        {
            if self.entries[i].0 == id {
                proof {
                    lemma_map_of_remove(self.entries@, i as int);
                }
                self.entries.remove(i);
                return ;
            }
            i = i + 1;
        }
        proof {
            lemma_map_of_contains(self.entries@, id);
            assert(self@.remove(id) =~= self@);
        }
    }

    /// Reads the cancellation flag registered under an id, or `None`
    /// when no operation is registered under it.
    pub fn is_cancelled(&self, id: u32) -> (r: Option<bool>)
        requires
            self.wf(),
        ensures
            r == (if self@.contains_key(id) {
                Some(self@[id])
            } else {
                None::<bool>
            }),
    {
        let n = self.entries.len();
        let mut i: usize = 0;
        while i < n
            invariant
                n == self.entries.len(),
                i <= n,
                self.wf(),
                forall|j: int| 0 <= j < i ==> self.entries@[j].0 != id,
            decreases n - i,
        {
            if self.entries[i].0 == id {
                proof {
                    lemma_map_of_index(self.entries@, i as int);
                }
                return Some(self.entries[i].1);
            }
            i = i + 1;
        }
        proof {
            lemma_map_of_contains(self.entries@, id);
        }
        None
    }

    /// The id the next registered operation will receive; callers that
    /// must not wrap the id space check it before registering.
    pub fn next_id(&self) -> (id: u32)
        ensures
            id == self.spec_next_id(),
    {
        self.next_id
    }

    /// How many operations are currently registered.
    pub fn len(&self) -> (n: usize)
        requires
            self.wf(),
        ensures
            n == self@.dom().len(),
    {
        proof {
            lemma_map_of_len(self.entries@);
        }
        self.entries.len()
    }
}

} // verus!
