//! Properties of the pipeline and the store, proved from their contracts.
use vstd::prelude::*;
use crate::drg::{
    comorbidity_level, counted_rank, find_drg, is_neonatal, refine_drg, severity_suffix,
};
use crate::grouping::{classification, outcome_matches};
use crate::adrg::resolve_adrg;
use crate::mdc::resolve_mdc;
use crate::validation::{diagnosis_codes, procedure_codes};
use crate::model::{DrgResult, Grouping, GroupingError, Patient, Surgery, ValidationIssue};
use crate::rules::{lookup, normalized, CodeInfo, DrgRule, RuleSet};
use crate::store::StoreEntry;

verus! {

/// Classifying the same episode twice under the same rule set gives the
/// same outcome: both succeed with results that report the same codes and
/// outlier flag, or both fail with the same error.
pub proof fn repeated_classification_agrees(
    rs: RuleSet,
    p: Patient,
    r1: Result<DrgResult, GroupingError>,
    r2: Result<DrgResult, GroupingError>,
)
    requires
        outcome_matches(r1, p, classification(rs, p)),
        outcome_matches(r2, p, classification(rs, p)),
    ensures
        r1 is Ok <==> r2 is Ok,
        r1 matches Ok(a) ==> r2 matches Ok(b) && a.vid@ == b.vid@ && a.mdc_code@ == b.mdc_code@
            && a.adrg_code@ == b.adrg_code@ && a.drg_code@ == b.drg_code@ && a.cost_outlier
            == b.cost_outlier,
        r1 is Err ==> r1 == r2,
{
}

/// Right after a result is put, getting its identifier yields exactly that
/// result and its episode.
pub proof fn put_then_get(
    before: Map<Seq<char>, StoreEntry>,
    after: Map<Seq<char>, StoreEntry>,
    patient: Patient,
    result: DrgResult,
)
    requires
        after == before.insert(result.vid@, StoreEntry { patient, result }),
    ensures
        after.contains_key(result.vid@),
        after[result.vid@].result == result,
        after[result.vid@].patient == patient,
{
}

/// An episode without diagnoses is rejected by validation, whatever the rule
/// set holds.
pub proof fn empty_diagnoses_rejected(rs: RuleSet, p: Patient)
    requires
        p.diagnosis@.len() == 0,
    ensures
        classification(rs, p) == Err::<Grouping, GroupingError>(
            GroupingError::Validation(ValidationIssue::EmptyDiagnoses),
        ),
{
}

/// For a neonate of the neonatal MDC the refined DRG does not depend on the
/// diagnoses: birth weight sets the severity.
pub proof fn neonate_ignores_comorbidities(
    rs: RuleSet,
    adrg: Seq<char>,
    mdc: u32,
    d1: Seq<CodeInfo>,
    d2: Seq<CodeInfo>,
    age: u8,
    weight: u32,
    cost: u64,
)
    requires
        is_neonatal(rs, mdc, weight),
    ensures
        refine_drg(rs, adrg, mdc, d1, age, weight, cost) == refine_drg(
            rs,
            adrg,
            mdc,
            d2,
            age,
            weight,
            cost,
        ),
{
}

proof fn lemma_comorbidity_level_bounded(diags: Seq<CodeInfo>, n: int)
    ensures
        comorbidity_level(diags, n) <= 2,
    decreases n,
{
    if n > 1 {
        lemma_comorbidity_level_bounded(diags, n - 1);
        assert(counted_rank(diags, n - 1) <= 2);
    }
}

/// For an episode outside the neonatal rule and below the ADRG's age
/// exception, diagnoses of a different comorbidity level give a different
/// DRG code.
pub proof fn comorbidity_level_sets_suffix(
    rs: RuleSet,
    adrg: Seq<char>,
    mdc: u32,
    d1: Seq<CodeInfo>,
    d2: Seq<CodeInfo>,
    age: u8,
    weight: u32,
    cost: u64,
)
    requires
        !is_neonatal(rs, mdc, weight),
        find_drg(rs.drg@, adrg, 0) matches Some(k) && (rs.drg@[k].age_override matches Some(o)
            ==> age < o.min_age),
        comorbidity_level(d1, d1.len() as int) != comorbidity_level(d2, d2.len() as int),
    ensures
        refine_drg(rs, adrg, mdc, d1, age, weight, cost) matches Some((c1, _)) && refine_drg(
            rs,
            adrg,
            mdc,
            d2,
            age,
            weight,
            cost,
        ) matches Some((c2, _)) && c1 != c2,
{
    let l1 = comorbidity_level(d1, d1.len() as int);
    let l2 = comorbidity_level(d2, d2.len() as int);
    lemma_comorbidity_level_bounded(d1, d1.len() as int);
    lemma_comorbidity_level_bounded(d2, d2.len() as int);
    let c1 = adrg + severity_suffix(l1);
    let c2 = adrg + severity_suffix(l2);
    assert(c1[adrg.len() as int] == severity_suffix(l1)[0]);
    assert(c2[adrg.len() as int] == severity_suffix(l2)[0]);
    assert(c1 != c2);
}

/// The MDC number that episode `p` resolves to, when its codes are known.
pub open spec fn resolved_mdc(rs: RuleSet, p: Patient) -> u32 {
    resolve_mdc(
        rs,
        lookup(rs.diagnoses@, p.diagnosis@[0].icd_code@).unwrap(),
        normalized(rs.procedures@, procedure_codes(p)),
    ).unwrap().0
}

/// Two neonates of the neonatal MDC with the same principal diagnosis,
/// procedures, age, cost and birth weight classify alike, whatever their
/// secondary diagnoses.
pub proof fn neonate_classification_ignores_secondary_diagnoses(rs: RuleSet, p1: Patient, p2: Patient)
    requires
        p1.diagnosis@.len() > 0,
        p2.diagnosis@.len() > 0,
        p1.diagnosis@[0].icd_code@ == p2.diagnosis@[0].icd_code@,
        p1.surgery@ == p2.surgery@,
        p1.age == p2.age,
        p1.total_cost == p2.total_cost,
        p1.birth_weight == p2.birth_weight,
        p1.birth_weight > 0,
        classification(rs, p1) is Ok,
        classification(rs, p2) is Ok,
        resolved_mdc(rs, p1) == rs.neonatal_mdc,
    ensures
        classification(rs, p1) == classification(rs, p2),
{
    let d1 = normalized(rs.diagnoses@, diagnosis_codes(p1));
    let d2 = normalized(rs.diagnoses@, diagnosis_codes(p2));
    assert(d1[0] == d2[0]);
    assert(procedure_codes(p1) == procedure_codes(p2));
    let procs = normalized(rs.procedures@, procedure_codes(p1));
    let (mdc, _) = resolve_mdc(rs, d1[0], procs).unwrap();
    let ids = p1.surgery@.map_values(|s: Surgery| s.id);
    let adrg = resolve_adrg(rs, mdc, d1[0], procs, ids).unwrap();
    neonate_ignores_comorbidities(rs, adrg, mdc, d1, d2, p1.age, p1.birth_weight, p1.total_cost);
}

/// Two episodes outside the neonatal rule with the same principal
/// diagnosis, procedures, age, cost and birth weight, below every age
/// exception, get different DRG codes when their secondary diagnoses reach
/// different comorbidity levels.
pub proof fn comorbidities_change_non_neonate_classification(rs: RuleSet, p1: Patient, p2: Patient)
    requires
        p1.diagnosis@.len() > 0,
        p2.diagnosis@.len() > 0,
        p1.diagnosis@[0].icd_code@ == p2.diagnosis@[0].icd_code@,
        p1.surgery@ == p2.surgery@,
        p1.age == p2.age,
        p1.total_cost == p2.total_cost,
        p1.birth_weight == p2.birth_weight,
        p1.birth_weight == 0 || resolved_mdc(rs, p1) != rs.neonatal_mdc,
        forall|k: int|
            0 <= k < rs.drg@.len() ==> ((#[trigger] rs.drg@[k]).age_override matches Some(o)
                ==> p1.age < o.min_age),
        classification(rs, p1) is Ok,
        classification(rs, p2) is Ok,
        comorbidity_level(
            normalized(rs.diagnoses@, diagnosis_codes(p1)),
            p1.diagnosis@.len() as int,
        ) != comorbidity_level(
            normalized(rs.diagnoses@, diagnosis_codes(p2)),
            p2.diagnosis@.len() as int,
        ),
    ensures
        classification(rs, p1) matches Ok(g1) && classification(rs, p2) matches Ok(g2)
            && g1.drg_code != g2.drg_code,
{
    let d1 = normalized(rs.diagnoses@, diagnosis_codes(p1));
    let d2 = normalized(rs.diagnoses@, diagnosis_codes(p2));
    assert(d1[0] == d2[0]);
    assert(procedure_codes(p1) == procedure_codes(p2));
    let procs = normalized(rs.procedures@, procedure_codes(p1));
    let (mdc, _) = resolve_mdc(rs, d1[0], procs).unwrap();
    let ids = p1.surgery@.map_values(|s: Surgery| s.id);
    let adrg = resolve_adrg(rs, mdc, d1[0], procs, ids).unwrap();
    lemma_find_drg_in_range(rs.drg@, adrg, 0);
    comorbidity_level_sets_suffix(rs, adrg, mdc, d1, d2, p1.age, p1.birth_weight, p1.total_cost);
}

proof fn lemma_find_drg_in_range(rules: Seq<DrgRule>, adrg: Seq<char>, i: int)
    ensures
        find_drg(rules, adrg, i) matches Some(k) ==> 0 <= i <= k < rules.len(),
    decreases rules.len() - i,
{
    if 0 <= i < rules.len() {
        lemma_find_drg_in_range(rules, adrg, i + 1);
    }
}

} // verus!
