//! Submission and retrieval: classify episodes against one rule set and
//! record each successful classification in the store.
use vstd::prelude::*;
use crate::grouping::{classification, classify, outcome_matches};
use crate::model::{DrgResult, GroupingError, Patient};
use crate::rules::RuleSet;
use crate::store::{ResultStore, StoreEntry};

verus! {

/// Classifies one episode and, when that succeeds, stores the episode with
/// its result. A failed classification leaves the store as it was.
pub fn process_patient(rs: &RuleSet, store: &mut ResultStore, patient: Patient) -> (r: Result<
    DrgResult,
    GroupingError,
>)
    ensures
        outcome_matches(r, patient, classification(*rs, patient)),
        r matches Ok(res) ==> final(store)@ == old(store)@.insert(
            patient.vid@,
            StoreEntry { patient, result: res },
        ),
        r is Err ==> final(store)@ == old(store)@,
{
    match classify(rs, &patient) {
        Ok(res) => {
            let kept = res.duplicate();
            store.put(patient, kept);
            Ok(res)
        },
        Err(e) => Err(e),
    }
}

/// Position of the last of the first `n` episodes that has identifier `vid`
/// and classifies successfully.
pub open spec fn last_success(rs: RuleSet, ps: Seq<Patient>, vid: Seq<char>, n: int) -> Option<int>
    decreases n,
{
    if n <= 0 {
        None
    } else if ps[n - 1].vid@ == vid && classification(rs, ps[n - 1]) is Ok {
        Some(n - 1)
    } else {
        last_success(rs, ps, vid, n - 1)
    }
}

/// The store after the first `n` episodes of a batch, as seen from
/// identifier `vid`: the entry of the last of them that succeeded, else what
/// was there before.
pub open spec fn batch_entry_ok(
    rs: RuleSet,
    ps: Seq<Patient>,
    n: int,
    before: Map<Seq<char>, StoreEntry>,
    after: Map<Seq<char>, StoreEntry>,
    vid: Seq<char>,
) -> bool {
    match last_success(rs, ps, vid, n) {
        Some(k) => after.contains_key(vid) && after[vid].patient == ps[k] && (
        classification(rs, ps[k]) matches Ok(g) && after[vid].result.reports(vid, g)),
        None => after.contains_key(vid) == before.contains_key(vid) && (before.contains_key(vid)
            ==> after[vid] == before[vid]),
    }
}

/// Classifies each episode of a batch on its own, in order. One episode's
/// failure does not stop the others; each outcome is reported at its
/// episode's position, and only successes are stored.
pub fn process_patients(rs: &RuleSet, store: &mut ResultStore, patients: Vec<Patient>) -> (r: Vec<
    Result<DrgResult, GroupingError>,
>)
    ensures
        r@.len() == patients@.len(),
        forall|i: int|
            0 <= i < r@.len() ==> outcome_matches(
                #[trigger] r@[i],
                patients@[i],
                classification(*rs, patients@[i]),
            ),
        forall|vid: Seq<char>|
            #[trigger] batch_entry_ok(
                *rs,
                patients@,
                patients@.len() as int,
                old(store)@,
                final(store)@,
                vid,
            ),
{
    let ghost ps = patients@;
    let ghost before = store@;
    let n: usize = patients.len();
    let mut rest = patients;
    let mut out: Vec<Result<DrgResult, GroupingError>> = Vec::new();
    let mut i: usize = 0;
    while rest.len() > 0
        invariant
            i <= ps.len(),
            ps.len() == n,
            rest@ == ps.subrange(i as int, ps.len() as int),
            out@.len() == i,
            forall|j: int|
                0 <= j < i ==> outcome_matches(#[trigger] out@[j], ps[j], classification(*rs, ps[j])),
            forall|vid: Seq<char>| #[trigger] batch_entry_ok(*rs, ps, i as int, before, store@, vid),
        decreases rest@.len(),
    {
        let ghost mid = store@;
        let patient = rest.remove(0);
        assert(patient == ps[i as int]);
        let outcome = process_patient(rs, store, patient);
        proof {
            assert forall|vid: Seq<char>| #[trigger] batch_entry_ok(*rs, ps, i + 1, before, store@, vid) by {
                assert(batch_entry_ok(*rs, ps, i as int, before, mid, vid));
            }
        }
        out.push(outcome);
        i = i + 1;
    }
    out
}

/// The stored result for episode `vid`, if there is one.
pub fn get_patient_result(store: &ResultStore, vid: &String) -> (r: Option<DrgResult>)
    ensures
        r is Some <==> store@.contains_key(vid@),
        r matches Some(x) ==> x == store@[vid@].result,
{
    match store.get(vid) {
        Some(x) => Some(x.duplicate()),
        None => None,
    }
}

} // verus!
