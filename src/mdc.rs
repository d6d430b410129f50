//! Major Diagnostic Category resolution: pre-MDC procedures first, then the
//! principal diagnosis's body system, ties broken by anchoring procedures and
//! then by the lowest MDC number.
use vstd::prelude::*;
use crate::rules::{same_index, CodeInfo, PreMdcRule, RuleSet, SurgicalRule};

verus! {

pub open spec fn has_category(procs: Seq<CodeInfo>, cat: u32) -> bool {
    exists|k: int| 0 <= k < procs.len() && #[trigger] procs[k].category == cat
}

fn contains_category(procs: &Vec<CodeInfo>, cat: u32) -> (r: bool)
    ensures
        r == has_category(procs@, cat),
{
    let mut k: usize = 0;
    while k < procs.len()
        invariant
            0 <= k <= procs@.len(),
            forall|j: int| 0 <= j < k ==> procs@[j].category != cat,
        decreases procs@.len() - k,
    {
        if procs[k].category == cat {
            assert(procs@[k as int].category == cat);
            return true;
        }
        k = k + 1;
    }
    false
}

/// Position of the first pre-MDC rule at or after `i` that a procedure meets.
pub open spec fn find_pre_mdc(rules: Seq<PreMdcRule>, procs: Seq<CodeInfo>, i: int) -> Option<int>
    decreases rules.len() - i,
{
    if i < 0 || i >= rules.len() {
        None
    } else if has_category(procs, rules[i].procedure_category) {
        Some(i)
    } else {
        find_pre_mdc(rules, procs, i + 1)
    }
}

/// Position of the first surgical rule at or after `i` for `mdc` and `cat`.
pub open spec fn find_surgical(rules: Seq<SurgicalRule>, mdc: u32, cat: u32, i: int) -> Option<int>
    decreases rules.len() - i,
{
    if i < 0 || i >= rules.len() {
        None
    } else if rules[i].mdc == mdc && rules[i].procedure_category == cat {
        Some(i)
    } else {
        find_surgical(rules, mdc, cat, i + 1)
    }
}

pub fn surgical_rule(rules: &Vec<SurgicalRule>, mdc: u32, cat: u32) -> (r: Option<usize>)
    ensures
        same_index(r, find_surgical(rules@, mdc, cat, 0)),
        r matches Some(j) ==> j < rules@.len(),
{
    let mut i: usize = 0;
    while i < rules.len()
        invariant
            0 <= i <= rules@.len(),
            find_surgical(rules@, mdc, cat, 0) == find_surgical(rules@, mdc, cat, i as int),
        decreases rules@.len() - i,
    {
        if rules[i].mdc == mdc && rules[i].procedure_category == cat {
            return Some(i);
        }
        i = i + 1;
    }
    None
}

/// A surgical procedure whose category is valid for `mdc`.
pub open spec fn qualifies(rs: RuleSet, mdc: u32, p: CodeInfo) -> bool {
    p.surgical_weight > 0 && find_surgical(rs.surgical@, mdc, p.category, 0) is Some
}

pub fn is_qualifying(rs: &RuleSet, mdc: u32, p: CodeInfo) -> (r: bool)
    ensures
        r == qualifies(*rs, mdc, p),
{
    p.surgical_weight > 0 && surgical_rule(&rs.surgical, mdc, p.category).is_some()
}

/// Some procedure anchors the episode to `mdc`.
pub open spec fn anchors(rs: RuleSet, mdc: u32, procs: Seq<CodeInfo>) -> bool {
    exists|k: int| 0 <= k < procs.len() && qualifies(rs, mdc, #[trigger] procs[k])
}

fn is_anchored(rs: &RuleSet, mdc: u32, procs: &Vec<CodeInfo>) -> (r: bool)
    ensures
        r == anchors(*rs, mdc, procs@),
{
    let mut k: usize = 0;
    while k < procs.len()
        invariant
            0 <= k <= procs@.len(),
            forall|j: int| 0 <= j < k ==> !qualifies(*rs, mdc, #[trigger] procs@[j]),
        decreases procs@.len() - k,
    {
        if is_qualifying(rs, mdc, procs[k]) {
            return true;
        }
        k = k + 1;
    }
    false
}

pub open spec fn mdc_candidate(
    rs: RuleSet,
    principal: CodeInfo,
    procs: Seq<CodeInfo>,
    anchored_only: bool,
    j: int,
) -> bool {
    &&& rs.mdc@[j].body_system == principal.body_system
    &&& anchored_only ==> anchors(rs, rs.mdc@[j].mdc, procs)
}

/// Among the first `n` MDC rules, the earliest of the lowest-numbered
/// candidates.
pub open spec fn lowest_mdc(
    rs: RuleSet,
    principal: CodeInfo,
    procs: Seq<CodeInfo>,
    anchored_only: bool,
    n: int,
) -> Option<int>
    decreases n,
{
    if n <= 0 {
        None
    } else {
        let b = lowest_mdc(rs, principal, procs, anchored_only, n - 1);
        if mdc_candidate(rs, principal, procs, anchored_only, n - 1) && (b is None
            || rs.mdc@[n - 1].mdc < rs.mdc@[b.unwrap()].mdc) {
            Some(n - 1)
        } else {
            b
        }
    }
}

fn pick_lowest_mdc(rs: &RuleSet, principal: CodeInfo, procs: &Vec<CodeInfo>, anchored_only: bool) -> (r: Option<usize>)
    ensures
        same_index(r, lowest_mdc(*rs, principal, procs@, anchored_only, rs.mdc@.len() as int)),
        r matches Some(j) ==> j < rs.mdc@.len(),
{
    let mut best: Option<usize> = None;
    let mut i: usize = 0;
    while i < rs.mdc.len()
        invariant
            0 <= i <= rs.mdc@.len(),
            same_index(best, lowest_mdc(*rs, principal, procs@, anchored_only, i as int)),
            best matches Some(j) ==> j < i,
        decreases rs.mdc@.len() - i,
    {
        let rule = &rs.mdc[i];
        if rule.body_system == principal.body_system {
            let ok = !anchored_only || is_anchored(rs, rule.mdc, procs);
            if ok {
                let lower = match best {
                    None => true,
                    Some(b) => rule.mdc < rs.mdc[b].mdc,
                };
                if lower {
                    best = Some(i);
                }
            }
        }
        i = i + 1;
    }
    best
}

/// The MDC of the episode, as number and code: a pre-MDC rule first, else the
/// lowest-numbered candidate that a procedure anchors, else the
/// lowest-numbered candidate.
pub open spec fn resolve_mdc(rs: RuleSet, principal: CodeInfo, procs: Seq<CodeInfo>) -> Option<(u32, Seq<char>)> {
    match find_pre_mdc(rs.pre_mdc@, procs, 0) {
        Some(k) => Some((rs.pre_mdc@[k].mdc, rs.pre_mdc@[k].mdc_code@)),
        None => match lowest_mdc(rs, principal, procs, true, rs.mdc@.len() as int) {
            Some(j) => Some((rs.mdc@[j].mdc, rs.mdc@[j].mdc_code@)),
            None => match lowest_mdc(rs, principal, procs, false, rs.mdc@.len() as int) {
                Some(j) => Some((rs.mdc@[j].mdc, rs.mdc@[j].mdc_code@)),
                None => None,
            },
        },
    }
}

pub fn mdc_of(rs: &RuleSet, principal: CodeInfo, procs: &Vec<CodeInfo>) -> (r: Option<(u32, String)>)
    ensures
        match resolve_mdc(*rs, principal, procs@) {
            Some((m, c)) => r matches Some((rm, rc)) && rm == m && rc@ == c,
            None => r is None,
        },
{
    let mut i: usize = 0;
    while i < rs.pre_mdc.len()
        invariant
            0 <= i <= rs.pre_mdc@.len(),
            find_pre_mdc(rs.pre_mdc@, procs@, 0) == find_pre_mdc(rs.pre_mdc@, procs@, i as int),
        decreases rs.pre_mdc@.len() - i,
    {
        if contains_category(procs, rs.pre_mdc[i].procedure_category) {
            return Some((rs.pre_mdc[i].mdc, rs.pre_mdc[i].mdc_code.clone()));
        }
        i = i + 1;
    }
    let anchored = pick_lowest_mdc(rs, principal, procs, true);
    let plain = pick_lowest_mdc(rs, principal, procs, false);
    assert(find_pre_mdc(rs.pre_mdc@, procs@, 0) is None);
    match anchored {
        Some(j) => Some((rs.mdc[j].mdc, rs.mdc[j].mdc_code.clone())),
        None => match plain {
            Some(j) => Some((rs.mdc[j].mdc, rs.mdc[j].mdc_code.clone())),
            None => None,
        },
    }
}

} // verus!
