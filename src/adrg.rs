//! Adjacent DRG resolution within an MDC: surgical when a qualifying
//! procedure is present, medical otherwise.
use vstd::prelude::*;
use crate::mdc::{find_surgical, is_qualifying, qualifies, surgical_rule};
use crate::model::Surgery;
use crate::rules::{same_index, CodeInfo, MedicalRule, RuleSet};

verus! {

/// Procedure `a` outranks procedure `b`: a higher surgical weight, or an
/// equal weight and an earlier sequence tag.
pub open spec fn outranks(procs: Seq<CodeInfo>, ids: Seq<u8>, a: int, b: int) -> bool {
    procs[a].surgical_weight > procs[b].surgical_weight || (procs[a].surgical_weight
        == procs[b].surgical_weight && ids[a] < ids[b])
}

/// Among the first `n` procedures, the earliest qualifying one that no other
/// qualifying one outranks.
pub open spec fn best_procedure(
    rs: RuleSet,
    mdc: u32,
    procs: Seq<CodeInfo>,
    ids: Seq<u8>,
    n: int,
) -> Option<int>
    decreases n,
{
    if n <= 0 {
        None
    } else {
        let b = best_procedure(rs, mdc, procs, ids, n - 1);
        if qualifies(rs, mdc, procs[n - 1]) && (b is None || outranks(procs, ids, n - 1, b.unwrap())) {
            Some(n - 1)
        } else {
            b
        }
    }
}

/// Position of the first medical rule at or after `i` for `mdc` and `cat`.
pub open spec fn find_medical(rules: Seq<MedicalRule>, mdc: u32, cat: u32, i: int) -> Option<int>
    decreases rules.len() - i,
{
    if i < 0 || i >= rules.len() {
        None
    } else if rules[i].mdc == mdc && rules[i].diagnosis_category == cat {
        Some(i)
    } else {
        find_medical(rules, mdc, cat, i + 1)
    }
}

/// The ADRG within `mdc`: the surgical group of the best qualifying
/// procedure, else the medical group of the principal diagnosis.
pub open spec fn resolve_adrg(
    rs: RuleSet,
    mdc: u32,
    principal: CodeInfo,
    procs: Seq<CodeInfo>,
    ids: Seq<u8>,
) -> Option<Seq<char>> {
    match best_procedure(rs, mdc, procs, ids, procs.len() as int) {
        Some(k) => Some(
            rs.surgical@[find_surgical(rs.surgical@, mdc, procs[k].category, 0).unwrap()].adrg_code@,
        ),
        None => match find_medical(rs.medical@, mdc, principal.category, 0) {
            Some(j) => Some(rs.medical@[j].adrg_code@),
            None => None,
        },
    }
}

fn pick_procedure(rs: &RuleSet, mdc: u32, procs: &Vec<CodeInfo>, surgery: &Vec<Surgery>) -> (r: Option<usize>)
    requires
        procs@.len() == surgery@.len(),
    ensures
        same_index(r, best_procedure(*rs, mdc, procs@, surgery@.map_values(|s: Surgery| s.id), procs@.len() as int)),
        r matches Some(k) ==> k < procs@.len() && qualifies(*rs, mdc, procs@[k as int]),
{
    let ghost ids = surgery@.map_values(|s: Surgery| s.id);
    let mut best: Option<usize> = None;
    let mut i: usize = 0;
    while i < procs.len()
        invariant
            0 <= i <= procs@.len(),
            procs@.len() == surgery@.len(),
            ids == surgery@.map_values(|s: Surgery| s.id),
            same_index(best, best_procedure(*rs, mdc, procs@, ids, i as int)),
            best matches Some(k) ==> k < i && qualifies(*rs, mdc, procs@[k as int]),
        decreases procs@.len() - i,
    {
        if is_qualifying(rs, mdc, procs[i]) {
            let better = match best {
                None => true,
                Some(b) => procs[i].surgical_weight > procs[b].surgical_weight || (
                procs[i].surgical_weight == procs[b].surgical_weight && surgery[i].id
                    < surgery[b].id),
            };
            if better {
                best = Some(i);
            }
        }
        i = i + 1;
    }
    best
}

fn medical_rule(rules: &Vec<MedicalRule>, mdc: u32, cat: u32) -> (r: Option<usize>)
    ensures
        same_index(r, find_medical(rules@, mdc, cat, 0)),
        r matches Some(j) ==> j < rules@.len(),
{
    let mut i: usize = 0;
    while i < rules.len()
        invariant
            0 <= i <= rules@.len(),
            find_medical(rules@, mdc, cat, 0) == find_medical(rules@, mdc, cat, i as int),
        decreases rules@.len() - i,
    {
        if rules[i].mdc == mdc && rules[i].diagnosis_category == cat {
            return Some(i);
        }
        i = i + 1;
    }
    None
}

pub fn adrg_of(
    rs: &RuleSet,
    mdc: u32,
    principal: CodeInfo,
    procs: &Vec<CodeInfo>,
    surgery: &Vec<Surgery>,
) -> (r: Option<String>)
    requires
        procs@.len() == surgery@.len(),
    ensures
        match resolve_adrg(*rs, mdc, principal, procs@, surgery@.map_values(|s: Surgery| s.id)) {
            Some(c) => r matches Some(rc) && rc@ == c,
            None => r is None,
        },
{
    match pick_procedure(rs, mdc, procs, surgery) {
        Some(k) => {
            let j = surgical_rule(&rs.surgical, mdc, procs[k].category);
            match j {
                Some(j) => Some(rs.surgical[j].adrg_code.clone()),
                None => None,
            }
        },
        None => match medical_rule(&rs.medical, mdc, principal.category) {
            Some(j) => Some(rs.medical[j].adrg_code.clone()),
            None => None,
        },
    }
}

} // verus!
