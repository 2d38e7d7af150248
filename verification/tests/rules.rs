//! Tests for the rules table, the loader, the bracket tax and the standard
//! deduction.

use honest_tax_core::error::TaxError;
use honest_tax_core::loader::RulesLoader;
use honest_tax_core::rules::TaxRules;
use honest_tax_core::types::FilingStatus;
use honest_tax_core::usd_amount::{Rate, UsdAmount};
use honest_tax_core::y2025::Rules2025;

#[test]
fn test_load_2025() {
    let loader = RulesLoader::new();
    let rules = loader.load(2025).unwrap();
    assert_eq!(rules.year(), 2025);
}

#[test]
fn test_unsupported_year() {
    let loader = RulesLoader::new();
    assert!(loader.load(2020).is_err());
}

#[test]
fn test_is_supported() {
    let loader = RulesLoader::new();
    assert!(loader.is_supported(2025));
    assert!(!loader.is_supported(2020));
}

#[test]
fn test_unsupported_year_names_range() {
    // The failure names both the requested year and the supported bounds.
    let loader = RulesLoader::new();
    match loader.load(2020) {
        Err(e) => assert_eq!(e, TaxError::UnsupportedTaxYear(2020, 2025, 2025)),
        Ok(_) => panic!("expected an unsupported-year failure"),
    }
    assert_eq!(loader.supported_years(), (2025, 2025));
}

#[test]
fn test_standard_deduction_single() {
    let rules = Rules2025::new();
    assert_eq!(
        rules.standard_deduction_base(FilingStatus::Single),
        UsdAmount::from_dollars(15_750)
    );
}

#[test]
fn test_standard_deduction_mfj() {
    let rules = Rules2025::new();
    assert_eq!(
        rules.standard_deduction_base(FilingStatus::MarriedFilingJointly),
        UsdAmount::from_dollars(31_500)
    );
}

#[test]
fn test_tax_calculation_single() {
    let rules = Rules2025::new();

    // $50,000 taxable income (single)
    // 10% on first $11,925 = $1,192.50
    // 12% on $11,925 to $48,475 = $4,386.00
    // 22% on $48,475 to $50,000 = $335.50
    // Total = $5,914.00
    let tax = rules.calculate_tax(FilingStatus::Single, UsdAmount::from_dollars(50_000));

    let bracket_1 = UsdAmount::from_dollars(11_925).multiply_rate(Rate::from_basis_points(1000));
    let bracket_2 =
        UsdAmount::from_dollars(48_475 - 11_925).multiply_rate(Rate::from_basis_points(1200));
    let bracket_3 =
        UsdAmount::from_dollars(50_000 - 48_475).multiply_rate(Rate::from_basis_points(2200));
    let expected = bracket_1.add(&bracket_2).add(&bracket_3);

    assert_eq!(tax.round_to_cents(), expected.round_to_cents());
}

#[test]
fn test_tax_calculation_exact_cents() {
    let rules = Rules2025::new();
    let tax = rules.calculate_tax(FilingStatus::Single, UsdAmount::from_dollars(50_000));
    assert_eq!(tax.round_to_cents().as_cents(), 591_400);
}

#[test]
fn test_child_tax_credit_max() {
    let rules = Rules2025::new();
    assert_eq!(rules.child_tax_credit_max(), UsdAmount::from_dollars(2_200));
}

#[test]
fn test_senior_bonus_deduction() {
    let rules = Rules2025::new();
    let bonus = rules.senior_bonus_deduction().unwrap();
    assert_eq!(bonus.amount_per_person, 6_000);
    assert_eq!(bonus.phase_out.single_threshold, UsdAmount::from_dollars(75_000));
}

#[test]
fn test_tax_zero_income() {
    let rules = Rules2025::new();
    let tax = rules.calculate_tax(FilingStatus::Single, UsdAmount::zero());
    assert_eq!(tax.as_cents(), 0);
}

#[test]
fn test_tax_continuous_at_bracket_boundary() {
    // The tax on exactly a bracket boundary equals the sum of the full
    // contributions of the brackets up to it.
    let rules = Rules2025::new();
    let at_first = rules.calculate_tax(FilingStatus::Single, UsdAmount::from_dollars(11_925));
    assert_eq!(at_first.round_to_cents().as_cents(), 119_250);
    let at_second = rules.calculate_tax(FilingStatus::Single, UsdAmount::from_dollars(48_475));
    // 1,192.50 + 12% x 36,550 = 1,192.50 + 4,386.00 = 5,578.50
    assert_eq!(at_second.round_to_cents().as_cents(), 557_850);
}

#[test]
fn test_tax_monotonic_in_income() {
    let rules = Rules2025::new();
    let mut previous = rules.calculate_tax(FilingStatus::Single, UsdAmount::zero());
    for dollars in [1i64, 11_924, 11_925, 11_926, 48_475, 100_000, 700_000] {
        let tax = rules.calculate_tax(FilingStatus::Single, UsdAmount::from_dollars(dollars));
        assert!(previous.le(&tax));
        previous = tax;
    }
}

#[test]
fn test_tax_top_bracket() {
    // $700,000 single: the open-ended 37% bracket applies above $626,350.
    let rules = Rules2025::new();
    let tax = rules.calculate_tax(FilingStatus::Single, UsdAmount::from_dollars(700_000));
    // 1192.50 + 4386.00 + 12072.50 + 22548.00 + 17032.00 + 131538.75
    // + 37% x 73,650 = 27250.50 -> total 216,020.25
    assert_eq!(tax.round_to_cents().as_cents(), 21_602_025);
}

#[test]
fn test_standard_deduction_senior_below_threshold() {
    // Single, 65+, AGI below the senior-bonus threshold: base + age-65
    // increment + the full senior bonus.
    let rules = Rules2025::new();
    let deduction = rules.standard_deduction(
        FilingStatus::Single,
        true,
        false,
        false,
        false,
        UsdAmount::from_dollars(50_000),
    );
    // 15,750 + 2,000 + 6,000
    assert_eq!(deduction.as_cents(), 2_375_000);
}

#[test]
fn test_standard_deduction_senior_phase_out() {
    // Single, 65+, AGI $100,000: the bonus shrinks by 6% of the $25,000
    // excess, so 6,000 - 1,500 = 4,500 remains.
    let rules = Rules2025::new();
    let deduction = rules.standard_deduction(
        FilingStatus::Single,
        true,
        false,
        false,
        false,
        UsdAmount::from_dollars(100_000),
    );
    // 15,750 + 2,000 + 4,500
    assert_eq!(deduction.as_cents(), 2_225_000);
}

#[test]
fn test_standard_deduction_senior_bonus_floors_at_zero() {
    // Single, 65+, AGI $300,000: the reduction exceeds the bonus, which
    // floors at zero and never turns negative.
    let rules = Rules2025::new();
    let deduction = rules.standard_deduction(
        FilingStatus::Single,
        true,
        false,
        false,
        false,
        UsdAmount::from_dollars(300_000),
    );
    // 15,750 + 2,000 + 0
    assert_eq!(deduction.as_cents(), 1_775_000);
}

#[test]
fn test_standard_deduction_mfj_spouse_increments() {
    // MFJ: the spouse's age and blind increments count too, and both
    // spouses' senior bonuses apply below the joint threshold.
    let rules = Rules2025::new();
    let deduction = rules.standard_deduction(
        FilingStatus::MarriedFilingJointly,
        true,
        true,
        true,
        false,
        UsdAmount::from_dollars(100_000),
    );
    // 31,500 + 1,600 + 1,600 + 1,600 + 2 x 6,000
    assert_eq!(deduction.as_cents(), 4_830_000);
}

#[test]
fn test_standard_deduction_spouse_ignored_when_not_joint() {
    let rules = Rules2025::new();
    let deduction = rules.standard_deduction(
        FilingStatus::Single,
        false,
        false,
        true,
        true,
        UsdAmount::from_dollars(10_000),
    );
    assert_eq!(deduction.as_cents(), 1_575_000);
}

#[test]
fn test_phase_out_reduction() {
    let rules = Rules2025::new();
    let phase_out = rules.child_tax_credit_phase_out();
    // Below the threshold: no reduction.
    let below = phase_out.reduction(FilingStatus::Single, UsdAmount::from_dollars(150_000));
    assert_eq!(below.as_cents(), 0);
    // $10,000 over the threshold at 5%: a $500 reduction.
    let above = phase_out.reduction(FilingStatus::Single, UsdAmount::from_dollars(210_000));
    assert_eq!(above.as_cents(), 50_000);
    assert_eq!(
        phase_out.threshold_for(FilingStatus::MarriedFilingJointly),
        UsdAmount::from_dollars(400_000)
    );
}

#[test]
fn test_other_rule_amounts() {
    let rules = Rules2025::new();
    assert_eq!(rules.additional_child_tax_credit_max(), UsdAmount::from_dollars(1_700));
    assert_eq!(rules.actc_earned_income_threshold(), UsdAmount::from_dollars(2_500));
    assert_eq!(rules.credit_for_other_dependents(), UsdAmount::from_dollars(500));
    assert_eq!(rules.personal_exemption(), UsdAmount::from_dollars(0));
    assert_eq!(rules.qbi_deduction_rate(), Rate::from_basis_points(2000));
}

#[test]
fn test_bracket_tax_for_income() {
    let rules = Rules2025::new();
    let brackets = rules.brackets(FilingStatus::Single);
    // Income inside the second bracket: only the slice above $11,925 is
    // taxed at 12% by that bracket.
    let second = brackets[1];
    let tax = second.tax_for_income(UsdAmount::from_dollars(20_000));
    // 12% x (20,000 - 11,925) = 969.00
    assert_eq!(tax.round_to_cents().as_cents(), 96_900);
    // Income below the bracket owes nothing there.
    let below = second.tax_for_income(UsdAmount::from_dollars(5_000));
    assert_eq!(below.as_cents(), 0);
}

#[test]
fn test_mfs_brackets_differ_at_top() {
    let rules = Rules2025::new();
    // MFS mirrors Single until the 35% bracket, which ends at $375,800.
    let tax_single =
        rules.calculate_tax(FilingStatus::Single, UsdAmount::from_dollars(400_000));
    let tax_mfs = rules
        .calculate_tax(FilingStatus::MarriedFilingSeparately, UsdAmount::from_dollars(400_000));
    assert!(tax_single.lt(&tax_mfs));
}
