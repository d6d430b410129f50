//! DRG refinement: the ADRG plus a severity suffix, and the cost-outlier
//! flag.
use vstd::prelude::*;
use crate::rules::{CodeInfo, DrgRule, RuleSet};

verus! {

/// Position of the first DRG rule at or after `i` for `adrg`.
pub open spec fn find_drg(rules: Seq<DrgRule>, adrg: Seq<char>, i: int) -> Option<int>
    decreases rules.len() - i,
{
    if i < 0 || i >= rules.len() {
        None
    } else if rules[i].adrg_code@ == adrg {
        Some(i)
    } else {
        find_drg(rules, adrg, i + 1)
    }
}

/// A secondary diagnosis counts toward severity unless it repeats the
/// category of the principal one.
pub open spec fn counted_rank(diags: Seq<CodeInfo>, k: int) -> nat {
    if diags[k].category == diags[0].category {
        0
    } else {
        diags[k].severity.spec_rank()
    }
}

/// Highest counted severity rank among the secondary diagnoses of the first
/// `n` diagnoses.
pub open spec fn comorbidity_level(diags: Seq<CodeInfo>, n: int) -> nat
    decreases n,
{
    if n <= 1 {
        0
    } else {
        let prev = comorbidity_level(diags, n - 1);
        let here = counted_rank(diags, n - 1);
        if here > prev {
            here
        } else {
            prev
        }
    }
}

/// Severity rank of a neonate by birth-weight bracket.
pub open spec fn birth_weight_level(rs: RuleSet, weight: u32) -> nat {
    if weight < rs.very_low_birth_weight {
        2
    } else if weight < rs.low_birth_weight {
        1
    } else {
        0
    }
}

pub open spec fn is_neonatal(rs: RuleSet, mdc: u32, weight: u32) -> bool {
    weight > 0 && mdc == rs.neonatal_mdc
}

/// The severity rank of an episode: birth weight for a neonate, secondary
/// diagnoses otherwise, unless the rule's age exception applies.
pub open spec fn severity_level(
    rs: RuleSet,
    rule: DrgRule,
    mdc: u32,
    diags: Seq<CodeInfo>,
    age: u8,
    weight: u32,
) -> nat {
    let base = if is_neonatal(rs, mdc, weight) {
        birth_weight_level(rs, weight)
    } else {
        comorbidity_level(diags, diags.len() as int)
    };
    match rule.age_override {
        Some(o) => if age >= o.min_age {
            o.severity.spec_rank()
        } else {
            base
        },
        None => base,
    }
}

/// The DRG suffix of a severity rank: 1 with a major complication, 3 with a
/// complication, 5 without.
pub open spec fn severity_suffix(level: nat) -> Seq<char> {
    if level >= 2 {
        seq!['1']
    } else if level == 1 {
        seq!['3']
    } else {
        seq!['5']
    }
}

fn suffix_for(level: u8) -> (r: &'static str)
    ensures
        r@ == severity_suffix(level as nat),
{
    proof {
        reveal_strlit("1");
        reveal_strlit("3");
        reveal_strlit("5");
    }
    if level >= 2 {
        "1"
    } else if level == 1 {
        "3"
    } else {
        "5"
    }
}

pub open spec fn refine_drg(
    rs: RuleSet,
    adrg: Seq<char>,
    mdc: u32,
    diags: Seq<CodeInfo>,
    age: u8,
    weight: u32,
    cost: u64,
) -> Option<(Seq<char>, bool)> {
    match find_drg(rs.drg@, adrg, 0) {
        Some(k) => Some(
            (
                adrg + severity_suffix(severity_level(rs, rs.drg@[k], mdc, diags, age, weight)),
                cost > rs.drg@[k].outlier_threshold,
            ),
        ),
        None => None,
    }
}

fn comorbidities(diags: &Vec<CodeInfo>) -> (r: u8)
    requires
        diags@.len() > 0,
    ensures
        r == comorbidity_level(diags@, diags@.len() as int),
{
    let principal = diags[0].category;
    let mut level: u8 = 0;
    let mut i: usize = 1;
    while i < diags.len()
        invariant
            1 <= i <= diags@.len(),
            principal == diags@[0].category,
            level == comorbidity_level(diags@, i as int),
            level <= 2,
        decreases diags@.len() - i,
    {
        let here: u8 = if diags[i].category == principal {
            0
        } else {
            diags[i].severity.rank()
        };
        if here > level {
            level = here;
        }
        i = i + 1;
    }
    level
}

pub fn drg_of(
    rs: &RuleSet,
    adrg: &String,
    mdc: u32,
    diags: &Vec<CodeInfo>,
    age: u8,
    weight: u32,
    cost: u64,
) -> (r: Option<(String, bool)>)
    requires
        diags@.len() > 0,
    ensures
        match refine_drg(*rs, adrg@, mdc, diags@, age, weight, cost) {
            Some((c, o)) => r matches Some((rc, ro)) && rc@ == c && ro == o,
            None => r is None,
        },
{
    let mut i: usize = 0;
    while i < rs.drg.len()
        invariant
            0 <= i <= rs.drg@.len(),
            diags@.len() > 0,
            find_drg(rs.drg@, adrg@, 0) == find_drg(rs.drg@, adrg@, i as int),
        decreases rs.drg@.len() - i,
    {
        let rule = &rs.drg[i];
        if rule.adrg_code == *adrg {
            let base: u8 = if weight > 0 && mdc == rs.neonatal_mdc {
                if weight < rs.very_low_birth_weight {
                    2
                } else if weight < rs.low_birth_weight {
                    1
                } else {
                    0
                }
            } else {
                comorbidities(diags)
            };
            let level: u8 = match rule.age_override {
                Some(o) => if age >= o.min_age {
                    o.severity.rank()
                } else {
                    base
                },
                None => base,
            };
            let code = adrg.clone().concat(suffix_for(level));
            return Some((code, cost > rule.outlier_threshold));
        }
        i = i + 1;
    }
    None
}

} // verus!
