//! Tests for the wage statement: validation, extraction and aggregation.

use honest_tax_core::error::TaxError;
use honest_tax_core::input::{InputForm, InputFormCollection};
use honest_tax_core::types::InputFormType;
use honest_tax_core::usd_amount::UsdAmount;
use honest_tax_core::w2::{W2, W2Box12, W2LocalInfo, W2StateInfo};

fn sample_w2() -> W2 {
    W2 {
        id: "w2-001".to_string(),
        tax_year: 2025,
        employer_ein: "12-3456789".to_string(),
        employer_name: "Acme Corp".to_string(),
        employee_ssn: "123-45-6789".to_string(),
        employee_first_name: "John".to_string(),
        employee_last_name: "Doe".to_string(),
        box_1_wages: UsdAmount::from_dollars(75000),
        box_2_federal_tax_withheld: UsdAmount::from_dollars(10000),
        box_3_social_security_wages: UsdAmount::from_dollars(75000),
        box_4_social_security_tax_withheld: UsdAmount::from_cents(465000), // 6.2%
        box_5_medicare_wages: UsdAmount::from_dollars(75000),
        box_6_medicare_tax_withheld: UsdAmount::from_cents(108750), // 1.45%
        box_7_social_security_tips: UsdAmount::zero(),
        box_8_allocated_tips: UsdAmount::zero(),
        box_10_dependent_care_benefits: UsdAmount::zero(),
        box_11_nonqualified_plans: UsdAmount::zero(),
        box_12: vec![],
        box_13_statutory_employee: false,
        box_13_retirement_plan: true,
        box_13_third_party_sick_pay: false,
        state_info: vec![W2StateInfo {
            state: "CA".to_string(),
            employer_state_id: "123456789".to_string(),
            state_wages: UsdAmount::from_dollars(75000),
            state_tax_withheld: UsdAmount::from_dollars(5000),
        }],
        local_info: vec![],
    }
}

#[test]
fn test_w2_validation_valid() {
    let w2 = sample_w2();
    assert!(w2.validate().is_ok());
}

#[test]
fn test_w2_validation_invalid_ssn() {
    let mut w2 = sample_w2();
    w2.employee_ssn = "invalid".to_string();
    assert!(w2.validate().is_err());
}

#[test]
fn test_w2_validation_invalid_ein() {
    let mut w2 = sample_w2();
    w2.employer_ein = "invalid".to_string();
    assert!(w2.validate().is_err());
}

#[test]
fn test_w2_input_form_trait() {
    let w2 = sample_w2();
    assert_eq!(w2.form_type(), InputFormType::W2);
    assert_eq!(w2.tax_year(), 2025);
    assert_eq!(w2.wages(), Some(UsdAmount::from_dollars(75000)));
    assert_eq!(w2.federal_withholding(), Some(UsdAmount::from_dollars(10000)));
}

#[test]
fn test_w2_default() {
    let w2 = W2::default();
    assert_eq!(w2.tax_year, 2025);
    assert_eq!(w2.box_1_wages, UsdAmount::zero());
}

#[test]
fn test_w2_validation_lists_every_problem() {
    // An invalid SSN and a negative wage are both reported, not just the
    // first one found.
    let mut w2 = sample_w2();
    w2.employee_ssn = "12345".to_string();
    w2.box_1_wages = UsdAmount::from_dollars(-1);
    match w2.validate() {
        Err(TaxError::InvalidValue { field, reason }) => {
            assert_eq!(field, "multiple");
            assert_eq!(
                reason,
                "Invalid SSN format (expected XXX-XX-XXXX); Wages cannot be negative"
            );
        }
        other => panic!("expected a combined validation failure, got {:?}", other),
    }
}

#[test]
fn test_w2_validation_invalid_box_12_code() {
    let mut w2 = sample_w2();
    w2.box_12 = vec![
        W2Box12 { code: "D".to_string(), amount: UsdAmount::from_dollars(1000) },
        W2Box12 { code: "XX".to_string(), amount: UsdAmount::from_dollars(5) },
    ];
    match w2.validate() {
        Err(TaxError::InvalidValue { reason, .. }) => {
            assert_eq!(reason, "Invalid Box 12 code: XX");
        }
        other => panic!("expected a validation failure, got {:?}", other),
    }
}

#[test]
fn test_w2_box_12_codes() {
    assert!(W2::is_valid_box_12_code("A"));
    assert!(W2::is_valid_box_12_code("DD"));
    assert!(W2::is_valid_box_12_code("Z"));
    assert!(!W2::is_valid_box_12_code("I"));
    assert!(!W2::is_valid_box_12_code("ZZ"));
    assert!(!W2::is_valid_box_12_code(""));
    assert!(!W2::is_valid_box_12_code("ABC"));
}

#[test]
fn test_w2_ssn_and_ein_shapes() {
    assert!(W2::is_valid_ssn("123-45-6789"));
    assert!(!W2::is_valid_ssn("123456789"));
    assert!(!W2::is_valid_ssn("123-45-678"));
    assert!(!W2::is_valid_ssn("abc-de-fghi"));
    assert!(W2::is_valid_ein("12-3456789"));
    assert!(!W2::is_valid_ein("123-456789"));
    assert!(!W2::is_valid_ein("1-23456789"));
}

#[test]
fn test_w2_box_12_amount_lookup() {
    let mut w2 = sample_w2();
    w2.box_12 = vec![
        W2Box12 { code: "D".to_string(), amount: UsdAmount::from_dollars(1000) },
        W2Box12 { code: "DD".to_string(), amount: UsdAmount::from_dollars(250) },
    ];
    assert_eq!(w2.box_12_amount("D"), Some(UsdAmount::from_dollars(1000)));
    assert_eq!(w2.box_12_amount("DD"), Some(UsdAmount::from_dollars(250)));
    assert_eq!(w2.box_12_amount("W"), None);
}

#[test]
fn test_w2_state_and_local_totals() {
    let mut w2 = sample_w2();
    w2.state_info.push(W2StateInfo {
        state: "OR".to_string(),
        employer_state_id: "987".to_string(),
        state_wages: UsdAmount::from_dollars(1000),
        state_tax_withheld: UsdAmount::from_dollars(90),
    });
    w2.local_info = vec![W2LocalInfo {
        local_wages: UsdAmount::from_dollars(75000),
        local_tax_withheld: UsdAmount::from_dollars(750),
        locality_name: "Springfield".to_string(),
    }];
    assert_eq!(w2.total_state_tax_withheld().as_cents(), 509000);
    assert_eq!(w2.total_local_tax_withheld().as_cents(), 75000);
    assert_eq!(w2.state_withholding(), Some(UsdAmount::from_dollars(5090)));
    assert_eq!(w2.local_withholding().map(|a| a.as_cents()), Some(75000));
}

#[test]
fn test_w2_absent_concepts() {
    let w2 = sample_w2();
    assert_eq!(w2.taxable_interest(), None);
    assert_eq!(w2.ordinary_dividends(), None);
    assert_eq!(w2.payer_name(), None);
    assert_eq!(w2.employer_ein(), Some("12-3456789"));
    assert!(w2.has_retirement_plan());
    assert!(!w2.is_statutory_employee());
    let empty = W2::default();
    assert_eq!(empty.state_withholding(), None);
    assert_eq!(empty.local_withholding(), None);
}

#[test]
fn test_collection_totals() {
    let mut second = sample_w2();
    second.id = "w2-002".to_string();
    second.box_1_wages = UsdAmount::from_dollars(25000);
    second.box_2_federal_tax_withheld = UsdAmount::from_dollars(3000);
    let forms: Vec<W2> = vec![sample_w2(), second];
    assert_eq!(forms.total_wages(), UsdAmount::from_dollars(100000));
    assert_eq!(forms.total_federal_withholding(), UsdAmount::from_dollars(13000));
    assert_eq!(forms.total_taxable_interest(), UsdAmount::zero());
    assert_eq!(forms.total_ordinary_dividends().as_cents(), 0);
    assert_eq!(forms.total_qualified_dividends().as_cents(), 0);
    assert_eq!(forms.total_state_withholding(), UsdAmount::from_dollars(10000));
}
