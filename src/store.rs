//! The result store: one episode and its classification per episode
//! identifier, a resubmission replacing the earlier entry.
use vstd::prelude::*;
use crate::model::{DrgResult, Patient};

verus! {

/// A stored episode with its classification.
pub struct StoreEntry {
    pub patient: Patient,
    pub result: DrgResult,
}

/// Position of the first entry at or after `i` for episode `vid`.
pub open spec fn find_vid(s: Seq<StoreEntry>, vid: Seq<char>, i: int) -> Option<int>
    decreases s.len() - i,
{
    if i < 0 || i >= s.len() {
        None
    } else if s[i].result.vid@ == vid {
        Some(i)
    } else {
        find_vid(s, vid, i + 1)
    }
}

proof fn lemma_find_vid_in_range(s: Seq<StoreEntry>, vid: Seq<char>, i: int)
    ensures
        find_vid(s, vid, i) matches Some(k) ==> 0 <= i <= k < s.len() && s[k].result.vid@ == vid,
    decreases s.len() - i,
{
    if 0 <= i < s.len() {
        lemma_find_vid_in_range(s, vid, i + 1);
    }
}

/// Replacing an entry whose key is not `vid` by another such entry does not
/// move the first entry for `vid`.
proof fn lemma_find_vid_update_other(s: Seq<StoreEntry>, at: int, e: StoreEntry, vid: Seq<char>, i: int)
    requires
        0 <= at < s.len(),
        s[at].result.vid@ != vid,
        e.result.vid@ != vid,
    ensures
        find_vid(s.update(at, e), vid, i) == find_vid(s, vid, i),
    decreases s.len() - i,
{
    if 0 <= i < s.len() {
        lemma_find_vid_update_other(s, at, e, vid, i + 1);
    }
}

/// Replacing the first entry for `vid` by another for `vid` keeps it first.
proof fn lemma_find_vid_update_same(s: Seq<StoreEntry>, at: int, e: StoreEntry, vid: Seq<char>, i: int)
    requires
        0 <= i <= at < s.len(),
        find_vid(s, vid, i) == Some(at),
        e.result.vid@ == vid,
    ensures
        find_vid(s.update(at, e), vid, i) == Some(at),
    decreases at - i,
{
    if i < at {
        lemma_find_vid_update_same(s, at, e, vid, i + 1);
    }
}

/// Appending an entry only matters to a key absent before.
proof fn lemma_find_vid_push(s: Seq<StoreEntry>, e: StoreEntry, vid: Seq<char>, i: int)
    requires
        0 <= i <= s.len(),
    ensures
        find_vid(s, vid, i) is Some ==> find_vid(s.push(e), vid, i) == find_vid(s, vid, i),
        find_vid(s, vid, i) is None ==> find_vid(s.push(e), vid, i) == (if e.result.vid@ == vid {
            Some(s.len() as int)
        } else {
            None
        }),
    decreases s.len() - i,
{
    if i < s.len() {
        assert(s.push(e)[i] == s[i]);
        lemma_find_vid_push(s, e, vid, i + 1);
    } else {
        assert(s.push(e)[i] == e);
        assert(find_vid(s.push(e), vid, i + 1) is None);
    }
}

pub open spec fn entries_map(s: Seq<StoreEntry>) -> Map<Seq<char>, StoreEntry> {
    Map::new(|vid: Seq<char>| find_vid(s, vid, 0) is Some, |vid: Seq<char>| s[find_vid(s, vid, 0).unwrap()])
}

/// The store. Its view maps each episode identifier to its entry.
pub struct ResultStore {
    entries: Vec<StoreEntry>,
}

impl View for ResultStore {
    type V = Map<Seq<char>, StoreEntry>;

    closed spec fn view(&self) -> Map<Seq<char>, StoreEntry> {
        entries_map(self.entries@)
    }
}

impl ResultStore {
    pub fn new() -> (r: ResultStore)
        ensures
            r@ == Map::<Seq<char>, StoreEntry>::empty(),
    {
        let r = ResultStore { entries: Vec::new() };
        assert(r@ =~= Map::<Seq<char>, StoreEntry>::empty());
        r
    }

    fn position(&self, vid: &String) -> (r: Option<usize>)
        ensures
            r is Some <==> find_vid(self.entries@, vid@, 0) is Some,
            r matches Some(j) ==> find_vid(self.entries@, vid@, 0) == Some(j as int) && j
                < self.entries@.len(),
    {
        let mut i: usize = 0;
        while i < self.entries.len()
            invariant
                0 <= i <= self.entries@.len(),
                find_vid(self.entries@, vid@, 0) == find_vid(self.entries@, vid@, i as int),
            decreases self.entries@.len() - i,
        {
            if self.entries[i].result.vid == *vid {
                return Some(i);
            }
            i = i + 1;
        }
        None
    }

    /// Records `result` and its episode under `result.vid`, replacing any
    /// earlier entry for that identifier.
    pub fn put(&mut self, patient: Patient, result: DrgResult)
        ensures
            final(self)@ == old(self)@.insert(
                result.vid@,
                StoreEntry { patient, result },
            ),
    {
        let ghost key = result.vid@;
        let ghost e = StoreEntry { patient, result };
        let ghost before = self.entries@;
        match self.position(&result.vid) {
            Some(k) => {
                proof {
                    lemma_find_vid_in_range(before, key, 0);
                }
                self.entries.set(k, StoreEntry { patient, result });
                proof {
                    assert forall|vid: Seq<char>| vid != key implies #[trigger] find_vid(self.entries@, vid, 0)
                        == find_vid(before, vid, 0) && (find_vid(before, vid, 0) is Some
                        ==> self.entries@[find_vid(before, vid, 0).unwrap()] == before[find_vid(before, vid, 0).unwrap()]) by {
                        lemma_find_vid_update_other(before, k as int, e, vid, 0);
                        lemma_find_vid_in_range(before, vid, 0);
                    }
                    lemma_find_vid_update_same(before, k as int, e, key, 0);
                    assert(self@ =~= entries_map(before).insert(key, e));
                }
            },
            None => {
                self.entries.push(StoreEntry { patient, result });
                proof {
                    assert forall|vid: Seq<char>| #[trigger] find_vid(self.entries@, vid, 0) == (if find_vid(before, vid, 0) is Some {
                        find_vid(before, vid, 0)
                    } else if e.result.vid@ == vid {
                        Some(before.len() as int)
                    } else {
                        None
                    }) && (find_vid(before, vid, 0) is Some ==> self.entries@[find_vid(before, vid, 0).unwrap()]
                        == before[find_vid(before, vid, 0).unwrap()]) by {
                        lemma_find_vid_push(before, e, vid, 0);
                        lemma_find_vid_in_range(before, vid, 0);
                    }
                    assert(self.entries@[before.len() as int] == e);
                    assert(self@ =~= entries_map(before).insert(key, e));
                }
            },
        }
    }

    /// The stored result for episode `vid`.
    pub fn get(&self, vid: &String) -> (r: Option<&DrgResult>)
        ensures
            r is Some <==> self@.contains_key(vid@),
            r matches Some(x) ==> *x == self@[vid@].result,
    {
        match self.position(vid) {
            Some(k) => Some(&self.entries[k].result),
            None => None,
        }
    }

    /// The stored episode for identifier `vid`.
    pub fn get_patient(&self, vid: &String) -> (r: Option<&Patient>)
        ensures
            r is Some <==> self@.contains_key(vid@),
            r matches Some(x) ==> *x == self@[vid@].patient,
    {
        match self.position(vid) {
            Some(k) => Some(&self.entries[k].patient),
            None => None,
        }
    }
}

} // verus!
