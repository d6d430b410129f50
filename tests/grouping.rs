use drg_chs10::{
    classify, get_patient_result, process_patient, process_patients, AgeOverride, CodeInfo,
    CodeRef, Date, Diagnosis, DictEntry, DrgResult, DrgRule, Gender, GroupingError, MdcRule,
    MedicalRule, Patient, PreMdcRule, ResultStore, RuleSet, Severity, Surgery, SurgicalRule,
    ValidationIssue,
};

fn entry(code: &str, category: u32, body_system: u32, surgical_weight: u32, severity: Severity) -> DictEntry {
    DictEntry {
        code: code.to_string(),
        info: CodeInfo { category, body_system, surgical_weight, severity },
    }
}

fn mdc(body_system: u32, number: u32, code: &str) -> MdcRule {
    MdcRule { body_system, mdc: number, mdc_code: code.to_string() }
}

fn surgical(number: u32, procedure_category: u32, adrg: &str) -> SurgicalRule {
    SurgicalRule { mdc: number, procedure_category, adrg_code: adrg.to_string() }
}

fn medical(number: u32, diagnosis_category: u32, adrg: &str) -> MedicalRule {
    MedicalRule { mdc: number, diagnosis_category, adrg_code: adrg.to_string() }
}

fn drg(adrg: &str, outlier_threshold: u64, age_override: Option<AgeOverride>) -> DrgRule {
    DrgRule { adrg_code: adrg.to_string(), outlier_threshold, age_override }
}

fn rules() -> RuleSet {
    RuleSet {
        version: 1,
        diagnoses: vec![
            entry("I21.0", 100, 5, 0, Severity::NoCc),
            entry("I21.9", 100, 5, 0, Severity::Mcc),
            entry("I50.0", 101, 5, 0, Severity::Cc),
            entry("J18.9", 200, 4, 0, Severity::Mcc),
            entry("E11.9", 300, 10, 0, Severity::Cc),
            entry("P07.1", 900, 15, 0, Severity::NoCc),
            entry("Z99.9", 950, 99, 0, Severity::NoCc),
            entry("R69", 960, 5, 0, Severity::NoCc),
            entry("K35.8", 400, 6, 0, Severity::NoCc),
        ],
        procedures: vec![
            entry("36.06", 10, 5, 30, Severity::NoCc),
            entry("36.07", 10, 5, 30, Severity::NoCc),
            entry("36.10", 11, 5, 50, Severity::NoCc),
            entry("33.50", 1, 4, 80, Severity::NoCc),
            entry("88.72", 12, 5, 0, Severity::NoCc),
            entry("55.01", 13, 10, 20, Severity::NoCc),
            entry("47.09", 14, 6, 25, Severity::NoCc),
        ],
        pre_mdc: vec![PreMdcRule { procedure_category: 1, mdc: 0, mdc_code: "MDCA".to_string() }],
        mdc: vec![
            mdc(5, 5, "MDCF"),
            mdc(4, 4, "MDCE"),
            mdc(10, 11, "MDCL"),
            mdc(10, 10, "MDCK"),
            mdc(15, 15, "MDCP"),
            mdc(6, 6, "MDCG"),
        ],
        surgical: vec![
            surgical(5, 10, "FM1"),
            surgical(5, 11, "FC1"),
            surgical(0, 1, "AG1"),
            surgical(11, 13, "LA1"),
        ],
        medical: vec![
            medical(5, 100, "FR1"),
            medical(5, 101, "FT1"),
            medical(4, 200, "ES1"),
            medical(10, 300, "KS1"),
            medical(11, 300, "LS1"),
            medical(15, 900, "PS1"),
            medical(6, 400, "GS1"),
        ],
        drg: vec![
            drg("FM1", 5_000_000, None),
            drg("FC1", 8_000_000, None),
            drg("FR1", 2_000_000, Some(AgeOverride { min_age: 85, severity: Severity::Mcc })),
            drg("FT1", 2_000_000, None),
            drg("AG1", 50_000_000, None),
            drg("ES1", 3_000_000, None),
            drg("KS1", 3_000_000, None),
            drg("LS1", 3_000_000, None),
            drg("LA1", 3_000_000, None),
            drg("PS1", 3_000_000, None),
        ],
        neonatal_mdc: 15,
        very_low_birth_weight: 1500,
        low_birth_weight: 2500,
    }
}

fn day(y: i32, m: u32, d: u32) -> Date {
    Date::from_ymd(y, m, d).unwrap()
}

fn dx(id: u8, code: &str) -> Diagnosis {
    Diagnosis { id, icd_code: code.to_string(), icd_name: String::new() }
}

fn px(id: u8, code: &str, date: Date) -> Surgery {
    Surgery { id, icd_code: code.to_string(), icd_name: String::new(), date }
}

fn episode(vid: &str, diagnoses: &[&str], procedures: &[&str]) -> Patient {
    Patient {
        vid: vid.to_string(),
        gender: Gender::Male,
        age: 45,
        admit_date: day(2024, 4, 2),
        total_cost: 1_234_567,
        birth_weight: 0,
        diagnosis: diagnoses.iter().enumerate().map(|(i, c)| dx(i as u8 + 1, c)).collect(),
        surgery: procedures.iter().enumerate().map(|(i, c)| px(i as u8 + 1, c, day(2024, 4, 3))).collect(),
    }
}

fn codes(r: &DrgResult) -> (String, String, String, bool) {
    (r.mdc_code.clone(), r.adrg_code.clone(), r.drg_code.clone(), r.cost_outlier)
}

fn expect(r: &Result<DrgResult, GroupingError>, m: &str, a: &str, d: &str) {
    let res = r.as_ref().expect("classification should succeed");
    assert_eq!(codes(res), (m.to_string(), a.to_string(), d.to_string(), false));
}

#[test]
fn stent_episode_groups_to_coronary_intervention() {
    let r = classify(&rules(), &episode("123456", &["I21.0"], &["36.06"]));
    expect(&r, "MDCF", "FM1", "FM15");
    assert_eq!(r.unwrap().vid, "123456");
}

#[test]
fn empty_diagnosis_list_is_a_validation_error() {
    let r = classify(&rules(), &episode("e1", &[], &["36.06"]));
    assert_eq!(r.unwrap_err(), GroupingError::Validation(ValidationIssue::EmptyDiagnoses));
}

#[test]
fn batch_reports_each_outcome_in_order() {
    let rs = rules();
    let mut store = ResultStore::new();
    let batch = vec![
        episode("b1", &["I21.0"], &["36.06"]),
        episode("b2", &["X00.0"], &[]),
        episode("b3", &["J18.9"], &[]),
    ];
    let out = process_patients(&rs, &mut store, batch);
    assert_eq!(out.len(), 3);
    expect(&out[0], "MDCF", "FM1", "FM15");
    assert_eq!(out[1].as_ref().unwrap_err(), &GroupingError::DictionaryLookupFailure(CodeRef::Diagnosis(0)));
    expect(&out[2], "MDCE", "ES1", "ES15");
    assert!(get_patient_result(&store, &"b1".to_string()).is_some());
    assert!(get_patient_result(&store, &"b2".to_string()).is_none());
    assert!(get_patient_result(&store, &"b3".to_string()).is_some());
}

#[test]
fn repeated_classification_is_identical() {
    let rs = rules();
    let e = episode("r1", &["I21.0", "I50.0", "E11.9"], &["36.06", "88.72"]);
    let a = classify(&rs, &e).unwrap();
    let b = classify(&rs, &e).unwrap();
    assert_eq!(codes(&a), codes(&b));
    assert_eq!(a.drg_code, "FM13");
}

#[test]
fn put_then_get_returns_stored_result() {
    let rs = rules();
    let mut store = ResultStore::new();
    let r = process_patient(&rs, &mut store, episode("g1", &["I21.0"], &["36.10"])).unwrap();
    let got = get_patient_result(&store, &"g1".to_string()).unwrap();
    assert_eq!(codes(&got), codes(&r));
    assert_eq!(got.drg_code, "FC15");
    assert_eq!(store.get_patient(&"g1".to_string()).unwrap().surgery.len(), 1);
}

#[test]
fn resubmission_replaces_the_stored_result() {
    let rs = rules();
    let mut store = ResultStore::new();
    process_patient(&rs, &mut store, episode("s1", &["I21.0"], &[])).unwrap();
    assert_eq!(get_patient_result(&store, &"s1".to_string()).unwrap().drg_code, "FR15");
    process_patient(&rs, &mut store, episode("s1", &["I21.0"], &["36.06"])).unwrap();
    assert_eq!(get_patient_result(&store, &"s1".to_string()).unwrap().drg_code, "FM15");
}

#[test]
fn failed_classification_is_not_stored() {
    let rs = rules();
    let mut store = ResultStore::new();
    let r = process_patient(&rs, &mut store, episode("f1", &["I21.0"], &["99.99"]));
    assert_eq!(r.unwrap_err(), GroupingError::DictionaryLookupFailure(CodeRef::Procedure(0)));
    assert!(get_patient_result(&store, &"f1".to_string()).is_none());
}

#[test]
fn neonate_severity_follows_birth_weight() {
    let rs = rules();
    let mut light = episode("n1", &["P07.1"], &[]);
    light.birth_weight = 1200;
    let mut sick = light.clone();
    sick.diagnosis.push(dx(2, "J18.9"));
    expect(&classify(&rs, &light), "MDCP", "PS1", "PS11");
    expect(&classify(&rs, &sick), "MDCP", "PS1", "PS11");
    let mut middle = light.clone();
    middle.birth_weight = 2000;
    expect(&classify(&rs, &middle), "MDCP", "PS1", "PS13");
    let mut normal = sick.clone();
    normal.birth_weight = 3400;
    expect(&classify(&rs, &normal), "MDCP", "PS1", "PS15");
}

#[test]
fn non_neonate_severity_follows_comorbidities() {
    let rs = rules();
    expect(&classify(&rs, &episode("c0", &["I21.0"], &[])), "MDCF", "FR1", "FR15");
    expect(&classify(&rs, &episode("c1", &["I21.0", "I50.0"], &[])), "MDCF", "FR1", "FR13");
    expect(&classify(&rs, &episode("c2", &["I21.0", "I50.0", "J18.9"], &[])), "MDCF", "FR1", "FR11");
}

#[test]
fn secondary_repeating_principal_category_does_not_count() {
    let rs = rules();
    expect(&classify(&rs, &episode("d1", &["I21.0", "I21.9"], &[])), "MDCF", "FR1", "FR15");
}

#[test]
fn age_exception_forces_severity() {
    let rs = rules();
    let mut old = episode("a1", &["I21.0"], &[]);
    old.age = 90;
    expect(&classify(&rs, &old), "MDCF", "FR1", "FR11");
}

#[test]
fn cost_above_threshold_is_flagged() {
    let rs = rules();
    let mut e = episode("o1", &["I21.0"], &["36.06"]);
    e.total_cost = 5_000_001;
    let r = classify(&rs, &e).unwrap();
    assert!(r.cost_outlier);
    assert_eq!(r.drg_code, "FM15");
    e.total_cost = 5_000_000;
    assert!(!classify(&rs, &e).unwrap().cost_outlier);
}

#[test]
fn pre_mdc_procedure_takes_precedence() {
    let rs = rules();
    expect(&classify(&rs, &episode("t1", &["J18.9"], &["33.50"])), "MDCA", "AG1", "AG15");
}

#[test]
fn heaviest_qualifying_procedure_wins() {
    let rs = rules();
    expect(&classify(&rs, &episode("w1", &["I21.0"], &["36.06", "36.10"])), "MDCF", "FC1", "FC15");
}

#[test]
fn equal_weights_prefer_earlier_sequence_id() {
    let mut rs = rules();
    rs.surgical.push(surgical(5, 15, "FN1"));
    rs.procedures.push(entry("36.99", 15, 5, 30, Severity::NoCc));
    rs.drg.push(drg("FN1", 3_000_000, None));
    let mut e = episode("q1", &["I21.0"], &["36.06", "36.99"]);
    e.surgery[0].id = 7;
    e.surgery[1].id = 3;
    expect(&classify(&rs, &e), "MDCF", "FN1", "FN15");
    e.surgery[0].id = 2;
    expect(&classify(&rs, &e), "MDCF", "FM1", "FM15");
}

#[test]
fn procedure_unrelated_to_mdc_is_excluded() {
    let rs = rules();
    expect(&classify(&rs, &episode("x1", &["J18.9"], &["36.06"])), "MDCE", "ES1", "ES15");
}

#[test]
fn ambiguous_body_system_prefers_anchored_mdc() {
    let rs = rules();
    expect(&classify(&rs, &episode("m1", &["E11.9"], &[])), "MDCK", "KS1", "KS15");
    expect(&classify(&rs, &episode("m2", &["E11.9"], &["55.01"])), "MDCL", "LA1", "LA15");
}

#[test]
fn unmapped_body_system_is_unclassifiable() {
    let r = classify(&rules(), &episode("u1", &["Z99.9"], &[]));
    assert_eq!(r.unwrap_err(), GroupingError::UnclassifiableDiagnosis);
}

#[test]
fn no_medical_rule_and_no_procedure_is_no_matching_adrg() {
    let r = classify(&rules(), &episode("u2", &["R69"], &["88.72"]));
    assert_eq!(r.unwrap_err(), GroupingError::NoMatchingAdrg);
}

#[test]
fn adrg_without_drg_rule_is_no_matching_drg() {
    let r = classify(&rules(), &episode("u3", &["K35.8"], &[]));
    assert_eq!(r.unwrap_err(), GroupingError::NoMatchingDrg);
}

#[test]
fn malformed_codes_are_validation_errors() {
    let rs = rules();
    let r = classify(&rs, &episode("v1", &["I21.0", ""], &[]));
    assert_eq!(r.unwrap_err(), GroupingError::Validation(ValidationIssue::MalformedDiagnosisCode(1)));
    let r = classify(&rs, &episode("v2", &["I21.0"], &["36.06", ""]));
    assert_eq!(r.unwrap_err(), GroupingError::Validation(ValidationIssue::MalformedProcedureCode(1)));
}

#[test]
fn procedure_before_admission_is_a_validation_error() {
    let rs = rules();
    let mut e = episode("v3", &["I21.0"], &["36.06", "88.72"]);
    e.surgery[1].date = day(2024, 4, 1);
    let r = classify(&rs, &e);
    assert_eq!(r.unwrap_err(), GroupingError::Validation(ValidationIssue::ProcedureBeforeAdmission(1)));
    e.surgery[1].date = day(2024, 4, 2);
    assert!(classify(&rs, &e).is_ok());
}

#[test]
fn unknown_store_identifier_is_not_found() {
    let store = ResultStore::new();
    assert!(get_patient_result(&store, &"nobody".to_string()).is_none());
}
