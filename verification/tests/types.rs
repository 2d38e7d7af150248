//! Tests for filing status, dependents and taxpayer facts.

use honest_tax_core::types::{
    Dependent, DependentRelationship, FilingStatus, InputFormType, OutputFormType, TaxpayerInfo,
};

fn daughter(age: u8) -> Dependent {
    Dependent {
        first_name: "Jane".to_string(),
        last_name: "Doe".to_string(),
        ssn: "987-65-4321".to_string(),
        relationship: DependentRelationship::Daughter,
        age,
        months_lived_with_taxpayer: 12,
        is_disabled: false,
        is_student: false,
    }
}

#[test]
fn test_ctc_eligibility_by_age() {
    // A 16-year-old daughter living with the taxpayer all year, with an
    // SSN, qualifies for the CTC; at 17 she qualifies for the ODC instead.
    let sixteen = daughter(16);
    assert!(sixteen.qualifies_for_ctc());
    assert!(!sixteen.qualifies_for_odc());

    let seventeen = daughter(17);
    assert!(!seventeen.qualifies_for_ctc());
    assert!(seventeen.qualifies_for_odc());
}

#[test]
fn test_ctc_needs_ssn_and_residency() {
    let mut no_ssn = daughter(10);
    no_ssn.ssn = String::new();
    assert!(!no_ssn.qualifies_for_ctc());

    let mut moved_out = daughter(10);
    moved_out.months_lived_with_taxpayer = 5;
    assert!(!moved_out.qualifies_for_ctc());
}

#[test]
fn test_ctc_needs_qualifying_relationship() {
    let mut parent = daughter(16);
    parent.relationship = DependentRelationship::Parent;
    assert!(!parent.qualifies_for_ctc());
    assert!(parent.qualifies_for_odc());
    let mut nephew = daughter(16);
    nephew.relationship = DependentRelationship::Nephew;
    assert!(nephew.qualifies_for_ctc());
}

fn taxpayer(dob: &str) -> TaxpayerInfo {
    TaxpayerInfo {
        first_name: "John".to_string(),
        last_name: "Doe".to_string(),
        ssn: "123-45-6789".to_string(),
        date_of_birth: dob.to_string(),
        is_blind: false,
    }
}

#[test]
fn test_age_at_year_end() {
    assert_eq!(taxpayer("1960-03-15").age_at_year_end(2025), Some(65));
    assert_eq!(taxpayer("1961-07-04").age_at_year_end(2025), Some(64));
    assert_eq!(taxpayer("2025-12-31").age_at_year_end(2025), Some(0));
}

#[test]
fn test_age_at_year_end_rejects_malformed_dates() {
    assert_eq!(taxpayer("196O-03-15").age_at_year_end(2025), None);
    assert_eq!(taxpayer("1960-13-15").age_at_year_end(2025), None);
    assert_eq!(taxpayer("1960").age_at_year_end(2025), None);
}

#[test]
fn test_is_65_or_older() {
    assert!(taxpayer("1960-03-15").is_65_or_older(2025));
    assert!(!taxpayer("1961-07-04").is_65_or_older(2025));
    assert!(!taxpayer("not-a-date!").is_65_or_older(2025));
}

#[test]
fn test_is_65_day_before_birthday_convention() {
    // Born January 1, 1961: the 65th birthday is January 1, 2026, so the
    // taxpayer is treated as 65 on December 31, 2025 - within tax year 2025
    // - even though the year-end age is 64.
    let new_years = taxpayer("1961-01-01");
    assert_eq!(new_years.age_at_year_end(2025), Some(64));
    assert!(new_years.is_65_or_older(2025));
    // One day later the convention no longer helps.
    assert!(!taxpayer("1961-01-02").is_65_or_older(2025));
}

#[test]
fn test_filing_status_codes() {
    assert_eq!(FilingStatus::Single.code(), "S");
    assert_eq!(FilingStatus::MarriedFilingJointly.code(), "MFJ");
    assert_eq!(FilingStatus::MarriedFilingSeparately.code(), "MFS");
    assert_eq!(FilingStatus::HeadOfHousehold.code(), "HOH");
    assert_eq!(FilingStatus::QualifyingSurvivingSpouse.code(), "QSS");
}

#[test]
fn test_filing_status_all() {
    let all = FilingStatus::all();
    assert_eq!(all.len(), 5);
    assert_eq!(all[0], FilingStatus::Single);
    assert_eq!(all[4], FilingStatus::QualifyingSurvivingSpouse);
}

#[test]
fn test_form_type_labels() {
    assert_eq!(InputFormType::W2.label(), "W-2");
    assert_eq!(InputFormType::Ssa1099.label(), "SSA-1099");
    assert_eq!(OutputFormType::Form1040.label(), "Form 1040");
    assert_eq!(OutputFormType::Schedule8812.label(), "Schedule 8812");
}
