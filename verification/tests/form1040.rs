//! Tests for the Form 1040 line derivations and the output-form contract.

use honest_tax_core::form1040::Form1040;
use honest_tax_core::output::{FormValue, OutputForm};
use honest_tax_core::rules::TaxRules;
use honest_tax_core::types::{FilingStatus, OutputFormType};
use honest_tax_core::usd_amount::UsdAmount;
use honest_tax_core::y2025::Rules2025;

#[test]
fn test_new_form_is_zeroed() {
    let form = Form1040::new(2025);
    assert_eq!(form.tax_year, 2025);
    assert!(form.line_12_standard_deduction);
    assert_eq!(form.line_1a, UsdAmount::zero());
    assert_eq!(form.line_37, UsdAmount::zero());
}

#[test]
fn test_line_derivations() {
    let mut form = Form1040::new(2025);
    form.line_1a = UsdAmount::from_dollars(50_000);
    form.line_1c = UsdAmount::from_dollars(2_000);
    form.calculate_line_1z();
    assert_eq!(form.line_1z, UsdAmount::from_dollars(52_000));

    form.line_2b = UsdAmount::from_dollars(500);
    form.line_7 = UsdAmount::from_dollars(1_500);
    form.calculate_line_9();
    assert_eq!(form.line_9, UsdAmount::from_dollars(54_000));

    form.line_10 = UsdAmount::from_dollars(4_000);
    form.calculate_line_11();
    assert_eq!(form.line_11, UsdAmount::from_dollars(50_000));

    form.line_12 = UsdAmount::from_dollars(15_750);
    form.line_13a = UsdAmount::from_dollars(250);
    form.calculate_line_14();
    assert_eq!(form.line_14, UsdAmount::from_dollars(16_000));

    form.calculate_line_15();
    assert_eq!(form.line_15, UsdAmount::from_dollars(34_000));
}

#[test]
fn test_taxable_income_floors_at_zero() {
    let mut form = Form1040::new(2025);
    form.line_11 = UsdAmount::from_dollars(10_000);
    form.line_14 = UsdAmount::from_dollars(15_750);
    form.calculate_line_15();
    assert_eq!(form.line_15.as_cents(), 0);
    assert!(!form.line_15.is_negative());
}

#[test]
fn test_refund_branch() {
    // Payments above the total tax: the refund branch sets the overpayment,
    // the refund is the overpayment less the amount applied forward, and
    // nothing is owed.
    let mut form = Form1040::new(2025);
    form.line_24 = UsdAmount::from_dollars(5_000);
    form.line_33 = UsdAmount::from_dollars(6_000);
    form.line_36 = UsdAmount::from_dollars(200);
    form.calculate_refund_or_owed();
    assert_eq!(form.line_34, UsdAmount::from_dollars(1_000));
    assert_eq!(form.line_35a, UsdAmount::from_dollars(800));
    assert_eq!(form.line_37.as_cents(), 0);
    assert!(form.is_refund());
    assert_eq!(form.net_result(), UsdAmount::from_dollars(800));
}

#[test]
fn test_owed_branch() {
    let mut form = Form1040::new(2025);
    form.line_24 = UsdAmount::from_dollars(6_000);
    form.line_33 = UsdAmount::from_dollars(5_000);
    form.line_38 = UsdAmount::from_dollars(50);
    form.calculate_refund_or_owed();
    assert_eq!(form.line_34.as_cents(), 0);
    assert_eq!(form.line_35a.as_cents(), 0);
    assert_eq!(form.line_37, UsdAmount::from_dollars(1_050));
    assert!(!form.is_refund());
    assert_eq!(form.net_result().as_cents(), -105_000);
}

#[test]
fn test_full_return_single_filer() {
    // A whole return: $75,000 of wages, the standard deduction, $10,000
    // withheld, 2025 rules.
    let rules = Rules2025::new();
    let mut form = Form1040::new(2025);
    form.line_1a = UsdAmount::from_dollars(75_000);
    form.calculate_line_1z();
    form.calculate_line_9();
    form.line_10 = UsdAmount::zero();
    form.calculate_line_11();
    form.line_12 = rules.standard_deduction(
        FilingStatus::Single,
        false,
        false,
        false,
        false,
        form.line_11,
    );
    form.calculate_line_14();
    form.calculate_line_15();
    assert_eq!(form.line_15, UsdAmount::from_dollars(59_250));

    form.line_16 = rules.calculate_tax(FilingStatus::Single, form.line_15).round_to_cents();
    // 1,192.50 + 4,386.00 + 22% x 10,775 = 1,192.50 + 4,386.00 + 2,370.50
    assert_eq!(form.line_16.as_cents(), 794_900);

    form.calculate_line_18();
    form.calculate_line_21();
    form.calculate_line_22();
    form.calculate_line_24();
    form.line_25a = UsdAmount::from_dollars(10_000);
    form.calculate_line_25d();
    form.calculate_line_32();
    form.calculate_line_33();
    form.calculate_refund_or_owed();
    assert!(form.is_refund());
    assert_eq!(form.line_34.as_cents(), 205_100);
}

#[test]
fn test_line_lookup() {
    let mut form = Form1040::new(2025);
    form.line_9 = UsdAmount::from_dollars(54_000);
    assert_eq!(form.line("9"), Some(FormValue::Currency(UsdAmount::from_dollars(54_000))));
    assert_eq!(form.line("35a"), Some(FormValue::Currency(UsdAmount::zero())));
    assert_eq!(form.line("99"), None);
    assert_eq!(form.form_type(), OutputFormType::Form1040);
    assert_eq!(OutputForm::tax_year(&form), 2025);
}

#[test]
fn test_lines_enumeration() {
    let mut form = Form1040::new(2025);
    form.line_1a = UsdAmount::from_dollars(1_234);
    let lines = form.lines();
    assert_eq!(lines.len(), 18);
    assert_eq!(lines[0].line_id, "1a");
    assert_eq!(lines[0].label, "Wages from W-2");
    assert_eq!(lines[0].value, FormValue::Currency(UsdAmount::from_dollars(1_234)));
    assert_eq!(lines[17].line_id, "37");
}
