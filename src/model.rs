//! Episodes, classification results and the errors of the grouping pipeline.
use vstd::prelude::*;
use crate::date::Date;

verus! {

#[derive(Clone, Copy, Debug, PartialEq, Eq, Structural)]
pub enum Gender {
    Male,
    Female,
    Unknown,
}

/// A diagnosis of an episode; `id` is its positional tag.
#[derive(Clone, Debug)]
pub struct Diagnosis {
    pub id: u8,
    pub icd_code: String,
    pub icd_name: String,
}

/// A procedure of an episode; `id` is its positional tag.
#[derive(Clone, Debug)]
pub struct Surgery {
    pub id: u8,
    pub icd_code: String,
    pub icd_name: String,
    pub date: Date,
}

/// One clinical episode. The first diagnosis is the principal one.
/// `total_cost` is in cents; a `birth_weight` of zero marks a non-neonate.
#[derive(Clone, Debug)]
pub struct Patient {
    pub vid: String,
    pub gender: Gender,
    pub age: u8,
    pub admit_date: Date,
    pub total_cost: u64,
    pub birth_weight: u32,
    pub diagnosis: Vec<Diagnosis>,
    pub surgery: Vec<Surgery>,
}

/// The classification of one episode. `cost_outlier` is set when the
/// episode's cost exceeds the outlier threshold of its ADRG.
#[derive(Clone, Debug)]
pub struct DrgResult {
    pub vid: String,
    pub mdc_code: String,
    pub adrg_code: String,
    pub drg_code: String,
    pub cost_outlier: bool,
}

/// What a classification yields, as mathematical values.
pub struct Grouping {
    pub mdc_code: Seq<char>,
    pub adrg_code: Seq<char>,
    pub drg_code: Seq<char>,
    pub cost_outlier: bool,
}

impl DrgResult {
    /// An equal copy of the result.
    pub fn duplicate(&self) -> (r: DrgResult)
        ensures
            r == *self,
    {
        DrgResult {
            vid: self.vid.clone(),
            mdc_code: self.mdc_code.clone(),
            adrg_code: self.adrg_code.clone(),
            drg_code: self.drg_code.clone(),
            cost_outlier: self.cost_outlier,
        }
    }

    /// The result reports `g` for the episode `vid`.
    pub open spec fn reports(self, vid: Seq<char>, g: Grouping) -> bool {
        &&& self.vid@ == vid
        &&& self.mdc_code@ == g.mdc_code
        &&& self.adrg_code@ == g.adrg_code
        &&& self.drg_code@ == g.drg_code
        &&& self.cost_outlier == g.cost_outlier
    }
}

/// Why an episode was rejected before any resolution stage ran.
#[derive(Clone, Copy, Debug, PartialEq, Eq, Structural)]
pub enum ValidationIssue {
    EmptyDiagnoses,
    /// The diagnosis at this position has an empty code.
    MalformedDiagnosisCode(usize),
    /// The procedure at this position has an empty code.
    MalformedProcedureCode(usize),
    /// The procedure at this position is dated before admission.
    ProcedureBeforeAdmission(usize),
}

/// Which code of an episode a failure refers to, by position.
#[derive(Clone, Copy, Debug, PartialEq, Eq, Structural)]
pub enum CodeRef {
    Diagnosis(usize),
    Procedure(usize),
}

#[derive(Clone, Copy, Debug, PartialEq, Eq, Structural)]
pub enum GroupingError {
    Validation(ValidationIssue),
    /// The code is absent from the code dictionary.
    DictionaryLookupFailure(CodeRef),
    /// The principal diagnosis maps to no MDC.
    UnclassifiableDiagnosis,
    /// Neither a qualifying procedure nor a medical rule gives an ADRG.
    NoMatchingAdrg,
    /// The ADRG has no DRG rule.
    NoMatchingDrg,
}

} // verus!
