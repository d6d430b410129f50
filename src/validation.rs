//! Checks that reject an episode before any resolution stage runs.
use vstd::prelude::*;
use crate::model::{Diagnosis, Patient, Surgery, ValidationIssue};

verus! {

pub open spec fn diagnosis_codes(p: Patient) -> Seq<Seq<char>> {
    p.diagnosis@.map_values(|d: Diagnosis| d.icd_code@)
}

pub open spec fn procedure_codes(p: Patient) -> Seq<Seq<char>> {
    p.surgery@.map_values(|s: Surgery| s.icd_code@)
}

/// Position of the first empty code at or after `i`.
pub open spec fn first_empty_code(codes: Seq<Seq<char>>, i: int) -> Option<int>
    decreases codes.len() - i,
{
    if i < 0 || i >= codes.len() {
        None
    } else if codes[i].len() == 0 {
        Some(i)
    } else {
        first_empty_code(codes, i + 1)
    }
}

/// Position of the first procedure at or after `i` dated before admission.
pub open spec fn first_early_procedure(p: Patient, i: int) -> Option<int>
    decreases p.surgery@.len() - i,
{
    if i < 0 || i >= p.surgery@.len() {
        None
    } else if !p.admit_date.spec_le(p.surgery@[i].date) {
        Some(i)
    } else {
        first_early_procedure(p, i + 1)
    }
}

/// The first reason, if any, to reject the episode outright.
pub open spec fn validation_issue(p: Patient) -> Option<ValidationIssue> {
    if p.diagnosis@.len() == 0 {
        Some(ValidationIssue::EmptyDiagnoses)
    } else if let Some(k) = first_empty_code(diagnosis_codes(p), 0) {
        Some(ValidationIssue::MalformedDiagnosisCode(k as usize))
    } else if let Some(k) = first_empty_code(procedure_codes(p), 0) {
        Some(ValidationIssue::MalformedProcedureCode(k as usize))
    } else if let Some(k) = first_early_procedure(p, 0) {
        Some(ValidationIssue::ProcedureBeforeAdmission(k as usize))
    } else {
        None
    }
}

pub fn validate(p: &Patient) -> (r: Option<ValidationIssue>)
    ensures
        r == validation_issue(*p),
{
    if p.diagnosis.len() == 0 {
        return Some(ValidationIssue::EmptyDiagnoses);
    }
    let mut i: usize = 0;
    while i < p.diagnosis.len()
        invariant
            0 <= i <= p.diagnosis@.len(),
            first_empty_code(diagnosis_codes(*p), 0) == first_empty_code(diagnosis_codes(*p), i as int),
        decreases p.diagnosis@.len() - i,
    {
        if p.diagnosis[i].icd_code.as_str().is_empty() {
            return Some(ValidationIssue::MalformedDiagnosisCode(i));
        }
        i = i + 1;
    }
    let mut i: usize = 0;
    while i < p.surgery.len()
        invariant
            0 <= i <= p.surgery@.len(),
            p.diagnosis@.len() > 0,
            first_empty_code(diagnosis_codes(*p), 0) is None,
            first_empty_code(procedure_codes(*p), 0) == first_empty_code(procedure_codes(*p), i as int),
        decreases p.surgery@.len() - i,
    {
        if p.surgery[i].icd_code.as_str().is_empty() {
            return Some(ValidationIssue::MalformedProcedureCode(i));
        }
        i = i + 1;
    }
    let mut i: usize = 0;
    while i < p.surgery.len()
        invariant
            0 <= i <= p.surgery@.len(),
            p.diagnosis@.len() > 0,
            first_empty_code(diagnosis_codes(*p), 0) is None,
            first_empty_code(procedure_codes(*p), 0) is None,
            first_early_procedure(*p, 0) == first_early_procedure(*p, i as int),
        decreases p.surgery@.len() - i,
    {
        if !p.admit_date.is_on_or_before(&p.surgery[i].date) {
            return Some(ValidationIssue::ProcedureBeforeAdmission(i));
        }
        i = i + 1;
    }
    None
}

} // verus!
