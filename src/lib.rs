//! Diagnosis-Related-Group classification of clinical episodes: a rules
//! pipeline from diagnosis and procedure codes to an MDC, an ADRG and a final
//! DRG code, and a store that keeps one result per episode.
pub mod date;
pub mod model;
pub mod rules;
pub mod validation;
pub mod mdc;
pub mod adrg;
pub mod drg;
pub mod grouping;
pub mod store;
pub mod service;
pub mod laws;

pub use date::Date;
pub use grouping::classify;
pub use validation::validate;
pub use model::{
    CodeRef, Diagnosis, DrgResult, Gender, GroupingError, Patient, Surgery, ValidationIssue,
};
pub use rules::{
    normalize, AgeOverride, CodeInfo, DictEntry, DrgRule, MdcRule, MedicalRule, PreMdcRule,
    RuleSet, Severity, SurgicalRule,
};
pub use service::{get_patient_result, process_patient, process_patients};
pub use store::{ResultStore, StoreEntry};
