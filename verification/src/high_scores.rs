//! The high-score store: a map from a level key to the best score ever
//! reported for that key, updated only through a monotonic
//! "set if greater" operation.

use vstd::prelude::*;

verus! {

/// One recorded best score, keyed by an opaque level identifier.
pub struct ScoreEntry {
    pub key: String,
    pub value: u64,
}

/// The effect of one "set if greater" call on the abstract score map:
/// an absent key is inserted, a present key keeps the larger value.
pub open spec fn spec_update_if_greater(
    scores: Map<Seq<char>, u64>,
    key: Seq<char>,
    candidate: u64,
) -> Map<Seq<char>, u64> {
    if scores.contains_key(key) && scores[key] >= candidate {
        scores
    } else {
        scores.insert(key, candidate)
    }
}

/// A best score never decreases, and after an update it is at least the
/// candidate just reported.
pub proof fn lemma_update_if_greater_monotonic(
    scores: Map<Seq<char>, u64>,
    key: Seq<char>,
    candidate: u64,
)
    ensures
        spec_update_if_greater(scores, key, candidate).contains_key(key),
        spec_update_if_greater(scores, key, candidate)[key] >= candidate,
        scores.contains_key(key) ==> spec_update_if_greater(scores, key, candidate)[key]
            >= scores[key],
{
}

/// Reporting the same score twice leaves the store exactly as one report
/// leaves it.
pub proof fn lemma_update_if_greater_idempotent(
    scores: Map<Seq<char>, u64>,
    key: Seq<char>,
    candidate: u64,
)
    ensures
        spec_update_if_greater(spec_update_if_greater(scores, key, candidate), key, candidate)
            == spec_update_if_greater(scores, key, candidate),
{
    let once = spec_update_if_greater(scores, key, candidate);
    assert(once.contains_key(key) && once[key] >= candidate);
}

/// The abstract content of a list of score entries: later entries shadow
/// earlier ones, though with distinct keys nothing is shadowed.
pub open spec fn entries_map(entries: Seq<ScoreEntry>) -> Map<Seq<char>, u64>
    decreases entries.len(),
{
    if entries.len() == 0 {
        Map::empty()
    } else {
        entries_map(entries.drop_last()).insert(entries.last().key@, entries.last().value)
    }
}

/// No entry of `entries` carries the key `key`.
pub open spec fn key_fresh(entries: Seq<ScoreEntry>, key: Seq<char>) -> bool {
    forall|i: int| 0 <= i < entries.len() ==> entries[i].key@ != key
}

/// All entries carry pairwise distinct keys.
pub open spec fn keys_distinct(entries: Seq<ScoreEntry>) -> bool {
    forall|i: int, j: int|
        0 <= i < j < entries.len() ==> entries[i].key@ != entries[j].key@
}

proof fn lemma_entries_map_domain(entries: Seq<ScoreEntry>, key: Seq<char>)
    ensures
        entries_map(entries).contains_key(key) <==> !key_fresh(entries, key),
    decreases entries.len(),
{
    if entries.len() > 0 {
        lemma_entries_map_domain(entries.drop_last(), key);
        if !key_fresh(entries, key) {
            let i = choose|i: int| 0 <= i < entries.len() && entries[i].key@ == key;
            if i < entries.len() - 1 {
                assert(entries.drop_last()[i].key@ == key);
            }
        }
    }
}

proof fn lemma_entries_map_index(entries: Seq<ScoreEntry>, i: int)
    requires
        keys_distinct(entries),
        0 <= i < entries.len(),
    ensures
        entries_map(entries).contains_key(entries[i].key@),
        entries_map(entries)[entries[i].key@] == entries[i].value,
    decreases entries.len(),
{
    if i < entries.len() - 1 {
        lemma_entries_map_index(entries.drop_last(), i);
        assert(entries[entries.len() - 1].key@ != entries[i].key@);
    }
}

proof fn lemma_entries_map_update(entries: Seq<ScoreEntry>, i: int, entry: ScoreEntry)
    requires
        keys_distinct(entries),
        0 <= i < entries.len(),
        entry.key@ == entries[i].key@,
    ensures
        entries_map(entries.update(i, entry)) == entries_map(entries).insert(
            entry.key@,
            entry.value,
        ),
    decreases entries.len(),
{
    let updated = entries.update(i, entry);
    if i == entries.len() - 1 {
        assert(updated.drop_last() =~= entries.drop_last());
        assert(entries_map(updated) =~= entries_map(entries).insert(entry.key@, entry.value));
    } else {
        assert(updated.drop_last() =~= entries.drop_last().update(i, entry));
        lemma_entries_map_update(entries.drop_last(), i, entry);
        assert(entries[entries.len() - 1].key@ != entry.key@);
        assert(entries_map(updated) =~= entries_map(entries).insert(entry.key@, entry.value));
    }
}

/// The high-score store. The key set of its entries is kept duplicate
/// free, so the list is a faithful representation of a map.
pub struct HighScores {
    entries: Vec<ScoreEntry>,
}

impl View for HighScores {
    type V = Map<Seq<char>, u64>;

    closed spec fn view(&self) -> Map<Seq<char>, u64> {
        entries_map(self.entries@)
    }
}

impl HighScores {
    /// The store's internal invariant: one entry per key.
    pub closed spec fn wf(&self) -> bool {
        keys_distinct(self.entries@)
    }

    /// An empty store: no key has a recorded score.
    pub fn new() -> (scores: HighScores)
        ensures
            scores.wf(),
            scores@ == Map::<Seq<char>, u64>::empty(),
    {
        let scores = HighScores { entries: Vec::new() };
        proof {
            assert(scores@ =~= Map::<Seq<char>, u64>::empty());
        }
        scores
    }

    /// The best score recorded for `key`, if any.
    pub fn get(&self, key: &String) -> (score: Option<u64>)
        requires
            self.wf(),
        ensures
            score == if self@.contains_key(key@) {
                Some(self@[key@])
            } else {
                Option::<u64>::None
            },
    {
        let n = self.entries.len();
        let mut i: usize = 0;
        while i < n
            invariant
                n == self.entries@.len(),
                0 <= i <= n,
                self.wf(),
                key_fresh(self.entries@.take(i as int), key@),
            decreases n - i,
        {
            if self.entries[i].key == *key {
                proof {
                    lemma_entries_map_index(self.entries@, i as int);
                }
                return Some(self.entries[i].value);
            }
            proof {
                assert(self.entries@.take(i + 1) =~= self.entries@.take(i as int).push(
                    self.entries@[i as int],
                ));
            }
            i += 1;
        }
        proof {
            assert(self.entries@.take(n as int) =~= self.entries@);
            lemma_entries_map_domain(self.entries@, key@);
        }
        None
    }

    /// Records `candidate` for `key` when it beats the stored best score
    /// (or when the key has no score yet); otherwise leaves the store
    /// untouched.
    pub fn update_if_greater(&mut self, key: &String, candidate: u64)
        requires
            old(self).wf(),
        ensures
            final(self).wf(),
            final(self)@ == spec_update_if_greater(old(self)@, key@, candidate),
    {
        let n = self.entries.len();
        let mut i: usize = 0;
        while i < n
            invariant
                n == self.entries@.len(),
                0 <= i <= n,
                self.wf(),
                self == old(self),
                key_fresh(self.entries@.take(i as int), key@),
            decreases n - i,
        {
            if self.entries[i].key == *key {
                proof {
                    lemma_entries_map_index(self.entries@, i as int);
                }
                if candidate > self.entries[i].value {
                    let ghost before = self.entries@;
                    let entry = ScoreEntry { key: key.clone(), value: candidate };
                    self.entries[i] = entry;
                    proof {
                        assert(self.entries@ =~= before.update(
                            i as int,
                            ScoreEntry { key: self.entries@[i as int].key, value: candidate },
                        ));
                        lemma_entries_map_update(
                            before,
                            i as int,
                            self.entries@[i as int],
                        );
                    }
                }
                return;
            }
            proof {
                assert(self.entries@.take(i + 1) =~= self.entries@.take(i as int).push(
                    self.entries@[i as int],
                ));
            }
            i += 1;
        }
        proof {
            assert(self.entries@.take(n as int) =~= self.entries@);
            lemma_entries_map_domain(self.entries@, key@);
        }
        let ghost before = self.entries@;
        self.entries.push(ScoreEntry { key: key.clone(), value: candidate });
        proof {
            assert(self.entries@.drop_last() =~= before);
            assert forall|i: int, j: int|
                0 <= i < j < self.entries@.len() implies self.entries@[i].key@
                != self.entries@[j].key@ by {
                if j == self.entries@.len() - 1 {
                    assert(before[i].key@ != key@);
                }
            }
        }
    }
}

} // verus!
