//! The grouping pipeline: validation, code normalization, MDC resolution,
//! ADRG resolution and DRG refinement, run in that order on one episode.
use vstd::prelude::*;
use crate::adrg::{adrg_of, resolve_adrg};
use crate::drg::{drg_of, refine_drg};
use crate::mdc::{mdc_of, resolve_mdc};
use crate::model::{CodeRef, DrgResult, Grouping, GroupingError, Patient, Surgery};
use crate::rules::{first_unknown, normalize_diagnoses, normalize_procedures, normalized, RuleSet};
use crate::validation::{diagnosis_codes, procedure_codes, validate, validation_issue};

verus! {

/// The classification of episode `p` under rule set `rs`: validation, then
/// the diagnosis and procedure dictionaries, then MDC, ADRG and DRG, each
/// stage's failure ending the run.
pub open spec fn classification(rs: RuleSet, p: Patient) -> Result<Grouping, GroupingError> {
    if let Some(v) = validation_issue(p) {
        Err(GroupingError::Validation(v))
    } else if let Some(k) = first_unknown(rs.diagnoses@, diagnosis_codes(p), 0) {
        Err(GroupingError::DictionaryLookupFailure(CodeRef::Diagnosis(k as usize)))
    } else if let Some(k) = first_unknown(rs.procedures@, procedure_codes(p), 0) {
        Err(GroupingError::DictionaryLookupFailure(CodeRef::Procedure(k as usize)))
    } else {
        let diags = normalized(rs.diagnoses@, diagnosis_codes(p));
        let procs = normalized(rs.procedures@, procedure_codes(p));
        let ids = p.surgery@.map_values(|s: Surgery| s.id);
        match resolve_mdc(rs, diags[0], procs) {
            None => Err(GroupingError::UnclassifiableDiagnosis),
            Some((mdc, mdc_code)) => match resolve_adrg(rs, mdc, diags[0], procs, ids) {
                None => Err(GroupingError::NoMatchingAdrg),
                Some(adrg) => match refine_drg(
                    rs,
                    adrg,
                    mdc,
                    diags,
                    p.age,
                    p.birth_weight,
                    p.total_cost,
                ) {
                    None => Err(GroupingError::NoMatchingDrg),
                    Some((drg, outlier)) => Ok(
                        Grouping {
                            mdc_code,
                            adrg_code: adrg,
                            drg_code: drg,
                            cost_outlier: outlier,
                        },
                    ),
                },
            },
        }
    }
}

/// `r` is the executable form of the classification `c` of episode `p`.
pub open spec fn outcome_matches(
    r: Result<DrgResult, GroupingError>,
    p: Patient,
    c: Result<Grouping, GroupingError>,
) -> bool {
    match c {
        Ok(g) => r matches Ok(res) && res.reports(p.vid@, g),
        Err(e) => r == Err::<DrgResult, GroupingError>(e),
    }
}

/// Classifies one episode. Nothing is stored.
pub fn classify(rs: &RuleSet, p: &Patient) -> (r: Result<DrgResult, GroupingError>)
    ensures
        outcome_matches(r, *p, classification(*rs, *p)),
{
    if let Some(v) = validate(p) {
        return Err(GroupingError::Validation(v));
    }
    let diags = match normalize_diagnoses(&rs.diagnoses, &p.diagnosis) {
        Err(k) => {
            return Err(GroupingError::DictionaryLookupFailure(CodeRef::Diagnosis(k)));
        },
        Ok(v) => v,
    };
    let procs = match normalize_procedures(&rs.procedures, &p.surgery) {
        Err(k) => {
            return Err(GroupingError::DictionaryLookupFailure(CodeRef::Procedure(k)));
        },
        Ok(v) => v,
    };
    assert(diags@.len() == p.diagnosis@.len());
    assert(procs@.len() == p.surgery@.len());
    let (mdc, mdc_code) = match mdc_of(rs, diags[0], &procs) {
        None => {
            return Err(GroupingError::UnclassifiableDiagnosis);
        },
        Some(m) => m,
    };
    let adrg = match adrg_of(rs, mdc, diags[0], &procs, &p.surgery) {
        None => {
            return Err(GroupingError::NoMatchingAdrg);
        },
        Some(a) => a,
    };
    let (drg_code, cost_outlier) = match drg_of(
        rs,
        &adrg,
        mdc,
        &diags,
        p.age,
        p.birth_weight,
        p.total_cost,
    ) {
        None => {
            return Err(GroupingError::NoMatchingDrg);
        },
        Some(d) => d,
    };
    Ok(DrgResult { vid: p.vid.clone(), mdc_code, adrg_code: adrg, drg_code, cost_outlier })
}

} // verus!
