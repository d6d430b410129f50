//! Reference data: the code dictionaries and the MDC, ADRG and DRG rule
//! tables, held as one immutable rule set.
use vstd::prelude::*;
use crate::model::{Diagnosis, Surgery};

verus! {

/// Complication/comorbidity severity tier.
#[derive(Clone, Copy, Debug, PartialEq, Eq, Structural)]
pub enum Severity {
    NoCc,
    Cc,
    Mcc,
}

impl Severity {
    pub open spec fn spec_rank(self) -> nat {
        match self {
            Severity::NoCc => 0,
            Severity::Cc => 1,
            Severity::Mcc => 2,
        }
    }

    pub fn rank(&self) -> (r: u8)
        ensures
            r == self.spec_rank(),
    {
        match self {
            Severity::NoCc => 0,
            Severity::Cc => 1,
            Severity::Mcc => 2,
        }
    }
}

/// What the dictionary knows of a code. A `surgical_weight` of zero marks a
/// procedure that does not make a case surgical.
#[derive(Clone, Copy, Debug, PartialEq, Eq, Structural)]
pub struct CodeInfo {
    pub category: u32,
    pub body_system: u32,
    pub surgical_weight: u32,
    pub severity: Severity,
}

#[derive(Clone, Debug)]
pub struct DictEntry {
    pub code: String,
    pub info: CodeInfo,
}

/// A procedure category that assigns an MDC ahead of the diagnosis.
#[derive(Clone, Debug)]
pub struct PreMdcRule {
    pub procedure_category: u32,
    pub mdc: u32,
    pub mdc_code: String,
}

/// A body system that maps to an MDC.
#[derive(Clone, Debug)]
pub struct MdcRule {
    pub body_system: u32,
    pub mdc: u32,
    pub mdc_code: String,
}

/// A procedure category valid for an MDC, with its surgical ADRG.
#[derive(Clone, Debug)]
pub struct SurgicalRule {
    pub mdc: u32,
    pub procedure_category: u32,
    pub adrg_code: String,
}

/// A principal-diagnosis category within an MDC, with its medical ADRG.
#[derive(Clone, Debug)]
pub struct MedicalRule {
    pub mdc: u32,
    pub diagnosis_category: u32,
    pub adrg_code: String,
}

/// From `min_age` years on, the severity is forced to `severity`.
#[derive(Clone, Copy, Debug, PartialEq, Eq, Structural)]
pub struct AgeOverride {
    pub min_age: u8,
    pub severity: Severity,
}

/// How an ADRG is refined: its cost-outlier threshold in cents and an
/// optional age exception.
#[derive(Clone, Debug)]
pub struct DrgRule {
    pub adrg_code: String,
    pub outlier_threshold: u64,
    pub age_override: Option<AgeOverride>,
}

/// One version of the reference data. In every table the first matching row
/// wins. Neonates below `very_low_birth_weight` grams take the most severe
/// tier, below `low_birth_weight` the middle one.
#[derive(Clone, Debug)]
pub struct RuleSet {
    pub version: u64,
    pub diagnoses: Vec<DictEntry>,
    pub procedures: Vec<DictEntry>,
    pub pre_mdc: Vec<PreMdcRule>,
    pub mdc: Vec<MdcRule>,
    pub surgical: Vec<SurgicalRule>,
    pub medical: Vec<MedicalRule>,
    pub drg: Vec<DrgRule>,
    pub neonatal_mdc: u32,
    pub very_low_birth_weight: u32,
    pub low_birth_weight: u32,
}

/// Position of the first entry at or after `i` whose code is `code`.
pub open spec fn find_code(d: Seq<DictEntry>, code: Seq<char>, i: int) -> Option<int>
    decreases d.len() - i,
{
    if i < 0 || i >= d.len() {
        None
    } else if d[i].code@ == code {
        Some(i)
    } else {
        find_code(d, code, i + 1)
    }
}

/// What the dictionary `d` says of `code`, if it holds it.
pub open spec fn lookup(d: Seq<DictEntry>, code: Seq<char>) -> Option<CodeInfo> {
    match find_code(d, code, 0) {
        Some(k) => Some(d[k].info),
        None => None,
    }
}

/// Normalizes a raw code against a dictionary; `None` where it is unknown.
pub fn normalize(d: &Vec<DictEntry>, code: &String) -> (r: Option<CodeInfo>)
    ensures
        r == lookup(d@, code@),
{
    let mut i: usize = 0;
    while i < d.len()
        invariant
            0 <= i <= d@.len(),
            find_code(d@, code@, 0) == find_code(d@, code@, i as int),
        decreases d@.len() - i,
    {
        if d[i].code == *code {
            return Some(d[i].info);
        }
        i = i + 1;
    }
    None
}

/// `r` is the executable form of the position `s`.
pub open spec fn same_index(r: Option<usize>, s: Option<int>) -> bool {
    &&& (r is Some <==> s is Some)
    &&& (r matches Some(j) ==> s == Some(j as int))
}

// Normalization of an episode's codes.

/// Position of the first code at or after `i` that `d` does not hold.
pub open spec fn first_unknown(d: Seq<DictEntry>, codes: Seq<Seq<char>>, i: int) -> Option<int>
    decreases codes.len() - i,
{
    if i < 0 || i >= codes.len() {
        None
    } else if lookup(d, codes[i]) is None {
        Some(i)
    } else {
        first_unknown(d, codes, i + 1)
    }
}

/// The dictionary's view of each code.
pub open spec fn normalized(d: Seq<DictEntry>, codes: Seq<Seq<char>>) -> Seq<CodeInfo> {
    codes.map_values(|c: Seq<char>| lookup(d, c).unwrap())
}

pub fn normalize_diagnoses(d: &Vec<DictEntry>, diags: &Vec<Diagnosis>) -> (r: Result<
    Vec<CodeInfo>,
    usize,
>)
    ensures
        ({
            let codes = diags@.map_values(|x: Diagnosis| x.icd_code@);
            match first_unknown(d@, codes, 0) {
                Some(k) => r == Err::<Vec<CodeInfo>, usize>(k as usize),
                None => r matches Ok(v) && v@ == normalized(d@, codes),
            }
        }),
{
    let ghost codes = diags@.map_values(|x: Diagnosis| x.icd_code@);
    let mut out: Vec<CodeInfo> = Vec::new();
    let mut i: usize = 0;
    while i < diags.len()
        invariant
            0 <= i <= diags@.len(),
            codes == diags@.map_values(|x: Diagnosis| x.icd_code@),
            first_unknown(d@, codes, 0) == first_unknown(d@, codes, i as int),
            out@ == normalized(d@, codes.take(i as int)),
        decreases diags@.len() - i,
    {
        match normalize(d, &diags[i].icd_code) {
            None => {
                return Err(i);
            },
            Some(info) => {
                out.push(info);
                proof {
                    assert(codes.take(i + 1) == codes.take(i as int).push(codes[i as int]));
                    assert(out@ =~= normalized(d@, codes.take(i + 1)));
                }
            },
        }
        i = i + 1;
    }
    assert(codes.take(i as int) == codes);
    Ok(out)
}

pub fn normalize_procedures(d: &Vec<DictEntry>, procs: &Vec<Surgery>) -> (r: Result<
    Vec<CodeInfo>,
    usize,
>)
    ensures
        ({
            let codes = procs@.map_values(|x: Surgery| x.icd_code@);
            match first_unknown(d@, codes, 0) {
                Some(k) => r == Err::<Vec<CodeInfo>, usize>(k as usize),
                None => r matches Ok(v) && v@ == normalized(d@, codes),
            }
        }),
{
    let ghost codes = procs@.map_values(|x: Surgery| x.icd_code@);
    let mut out: Vec<CodeInfo> = Vec::new();
    let mut i: usize = 0;
    while i < procs.len()
        invariant
            0 <= i <= procs@.len(),
            codes == procs@.map_values(|x: Surgery| x.icd_code@),
            first_unknown(d@, codes, 0) == first_unknown(d@, codes, i as int),
            out@ == normalized(d@, codes.take(i as int)),
        decreases procs@.len() - i,
    {
        match normalize(d, &procs[i].icd_code) {
            None => {
                return Err(i);
            },
            Some(info) => {
                out.push(info);
                proof {
                    assert(codes.take(i + 1) == codes.take(i as int).push(codes[i as int]));
                    assert(out@ =~= normalized(d@, codes.take(i + 1)));
                }
            },
        }
        i = i + 1;
    }
    assert(codes.take(i as int) == codes);
    Ok(out)
}

} // verus!
