//! The supervision tree's bookkeeping: a tracker mapping each child
//! identity to its relation — group key and identity — inserted on
//! spawn and removed exactly once when the child's runtime terminates.

use vstd::prelude::*;

verus! {

/// What the parent keeps about one child: the identity the tracker
/// knows it under and the group key it was spawned with. The live
/// handles of the child belong to the scheduler that runs it.
pub struct Relation<G> {
    pub id: u64,
    pub group: G,
}

/// Whether an entry with this identity is in the model.
pub open spec fn has_entry<G>(s: Seq<(u64, G)>, id: u64) -> bool {
    exists|i: int| 0 <= i < s.len() && (#[trigger] s[i]).0 == id
}

/// The position of the entry with this identity; meaningful only under
/// distinct identities, where it is the one position.
pub open spec fn entry_index<G>(s: Seq<(u64, G)>, id: u64) -> int {
    choose|i: int| 0 <= i < s.len() && (#[trigger] s[i]).0 == id
}

/// The model after removing the entry with this identity, if any.
pub open spec fn remove_entry<G>(s: Seq<(u64, G)>, id: u64) -> Seq<(u64, G)> {
    if has_entry(s, id) {
        s.remove(entry_index(s, id))
    } else {
        s
    }
}

/// No two entries share an identity.
pub open spec fn distinct_ids<G>(s: Seq<(u64, G)>) -> bool {
    forall|i: int, j: int| 0 <= i < s.len() && 0 <= j < s.len() && i != j ==> (#[trigger] s[i]).0
        != (#[trigger] s[j]).0
}

/// Removing a present child shrinks the tracker by exactly one entry;
/// removing an absent one changes nothing. The size never goes below
/// zero: it is the length of the model.
pub proof fn lemma_remove_entry_len<G>(s: Seq<(u64, G)>, id: u64)
    ensures
        has_entry(s, id) ==> remove_entry(s, id).len() == s.len() - 1,
        !has_entry(s, id) ==> remove_entry(s, id) == s,
{
}

/// Removing one child neither disturbs the other children nor lets two
/// entries collapse into one: every other identity stays exactly as
/// present as it was, and identities stay distinct.
pub proof fn lemma_remove_entry_others<G>(s: Seq<(u64, G)>, id: u64, other: u64)
    requires
        distinct_ids(s),
        other != id,
    ensures
        has_entry(remove_entry(s, id), other) == has_entry(s, other),
{
    if has_entry(s, id) {
        let k = entry_index(s, id);
        let r = s.remove(k);
        assert(forall|j: int|
            0 <= j < r.len() ==> (#[trigger] r[j]) == (if j < k {
                s[j]
            } else {
                s[j + 1]
            }));
        if has_entry(s, other) {
            let j = entry_index(s, other);
            assert(0 <= j < s.len() && s[j].0 == other);
            if j < k {
                assert(r[j].0 == other);
            } else {
                assert(j != k);
                assert(r[j - 1].0 == other);
            }
        }
        if has_entry(r, other) {
            let j = choose|j: int| 0 <= j < r.len() && (#[trigger] r[j]).0 == other;
            if j < k {
                assert(s[j].0 == other);
            } else {
                assert(s[j + 1].0 == other);
            }
        }
    }
}

/// Removing a child keeps the remaining identities distinct.
pub proof fn lemma_remove_entry_distinct<G>(s: Seq<(u64, G)>, id: u64)
    requires
        distinct_ids(s),
    ensures
        distinct_ids(remove_entry(s, id)),
{
    if has_entry(s, id) {
        let k = entry_index(s, id);
        let r = s.remove(k);
        assert(forall|j: int|
            0 <= j < r.len() ==> (#[trigger] r[j]) == (if j < k {
                s[j]
            } else {
                s[j + 1]
            }));
    }
}

/// The model after reporting a sequence of terminated children, one
/// `finished` delivery per identity.
pub open spec fn drain<G>(s: Seq<(u64, G)>, ids: Seq<u64>) -> Seq<(u64, G)>
    decreases ids.len(),
{
    if ids.len() == 0 {
        s
    } else {
        drain(remove_entry(s, ids[0]), ids.drop_first())
    }
}

/// For N spawned children and no respawns, exactly N terminations — one
/// `finished` delivery per child, each shrinking the tracker by exactly
/// one — leave the tracker empty.
pub proof fn lemma_tracker_drains<G>(s: Seq<(u64, G)>, ids: Seq<u64>)
    requires
        distinct_ids(s),
        ids.no_duplicates(),
        ids.len() == s.len(),
        forall|i: int| 0 <= i < ids.len() ==> has_entry(s, #[trigger] ids[i]),
    ensures
        drain(s, ids).len() == 0,
    decreases ids.len(),
{
    if ids.len() > 0 {
        let s1 = remove_entry(s, ids[0]);
        lemma_remove_entry_len(s, ids[0]);
        lemma_remove_entry_distinct(s, ids[0]);
        assert forall|i: int| 0 <= i < ids.drop_first().len() implies has_entry(
            s1,
            #[trigger] ids.drop_first()[i],
        ) by {
            assert(ids.drop_first()[i] == ids[i + 1]);
            assert(ids[i + 1] != ids[0]);
            lemma_remove_entry_others(s, ids[0], ids[i + 1]);
        }
        assert(ids.drop_first().no_duplicates());
        lemma_tracker_drains(s1, ids.drop_first());
    }
}

/// The parent's map from child identity to relation. Entries are
/// inserted when a child is spawned and removed exactly once when its
/// runtime terminates; the size decreases by exactly one per removal
/// and is never negative.
pub struct Tracker<G> {
    relations: Vec<Relation<G>>,
    next_id: u64,
}

impl<G> Tracker<G> {
    /// The tracked children: identity and group key, in spawn order.
    pub closed spec fn model(&self) -> Seq<(u64, G)> {
        self.relations@.map_values(|r: Relation<G>| (r.id, r.group))
    }

    /// How many identities were handed out so far.
    pub closed spec fn spawned(&self) -> u64 {
        self.next_id
    }

    /// Identities are distinct and below the next fresh one.
    pub open spec fn wf(&self) -> bool {
        &&& distinct_ids(self.model())
        &&& forall|i: int| 0 <= i < self.model().len() ==> (#[trigger] self.model()[i]).0
            < self.spawned()
    }

    /// An empty tracker.
    pub fn new() -> (t: Tracker<G>)
        ensures
            t.model() == Seq::<(u64, G)>::empty(),
            t.wf(),
            t.spawned() == 0,
    {
        let t = Tracker { relations: Vec::new(), next_id: 0 };
        proof {
            assert(t.model() =~= Seq::<(u64, G)>::empty());
        }
        t
    }

    /// How many identities were handed out so far; each spawn needs
    /// one fresh identity left.
    pub fn spawn_count(&self) -> (n: u64)
        ensures
            n == self.spawned(),
    {
        self.next_id
    }

    /// How many children are currently tracked.
    pub fn len(&self) -> (n: usize)
        ensures
            n == self.model().len(),
    {
        self.relations.len()
    }

    /// Whether no child is tracked; queryable at any time.
    pub fn is_empty(&self) -> (b: bool)
        ensures
            b == (self.model().len() == 0),
    {
        self.relations.len() == 0
    }

    /// Registers a spawned child under a fresh identity and its group
    /// key, and returns that identity.
    pub fn insert(&mut self, group: G) -> (id: u64)
        requires
            old(self).wf(),
            old(self).spawned() < u64::MAX,
        ensures
            final (self).wf(),
            id == old(self).spawned(),
            !has_entry(old(self).model(), id),
            final (self).model() == old(self).model().push((id, group)),
            final (self).spawned() == old(self).spawned() + 1,
    {
        let id = self.next_id;
        self.relations.push(Relation { id, group });
        self.next_id = self.next_id + 1;
        proof {
            let prior = old(self).model();
            assert(self.model() =~= prior.push((id, group)));
        }
        id
    }

    /// Removes the relation of a terminated child. A present identity
    /// is removed exactly once — the size shrinks by exactly one — and
    /// an absent one leaves the tracker untouched and yields nothing,
    /// so a second report for the same child cannot fire twice.
    pub fn remove(&mut self, id: u64) -> (r: Option<Relation<G>>)
        requires
            old(self).wf(),
        ensures
            final (self).wf(),
            final (self).spawned() == old(self).spawned(),
            final (self).model() == remove_entry(old(self).model(), id),
            has_entry(old(self).model(), id) ==> (r matches Some(rel) && rel.id == id && final (
            self).model().len() == old(self).model().len() - 1),
            !has_entry(old(self).model(), id) ==> (r matches None && final (self).model() == old(
                self,
            ).model()),
    {
        let ghost s0 = self.model();
        let n = self.relations.len();
        let mut i: usize = 0;
        while i < n
            invariant
                n == self.relations.len(),
                i <= n,
                *self == *old(self),
                old(self).wf(),
                s0 == self.model(),
                forall|j: int| 0 <= j < i ==> (#[trigger] s0[j]).0 != id,
            decreases n - i,
        {
            if self.relations[i].id == id {
                proof {
                    assert(s0[i as int].0 == id);
                    assert(has_entry(s0, id));
                    let k = entry_index(s0, id);
                    assert(0 <= k < s0.len() && s0[k].0 == id);
                    assert(k == i as int);
                    lemma_remove_entry_distinct(s0, id);
                }
                let rel = self.relations.remove(i);
                proof {
                    assert(self.model() =~= s0.remove(i as int));
                    assert forall|k: int| 0 <= k < self.model().len() implies (
                    #[trigger] self.model()[k]).0 < self.next_id by {
                        assert(self.model()[k] == (if k < i as int {
                            s0[k]
                        } else {
                            s0[k + 1]
                        }));
                    }
                }
                return Some(rel);
            }
            i = i + 1;
        }
        proof {
            assert(!has_entry(s0, id));
        }
        None
    }
}

} // verus!
