//! Tax rules for 2025: the bracket tables and statutory amounts set by
//! IRS Revenue Procedure 2024-40 as amended for 2025.

use vstd::prelude::*;

use crate::rules::{
    bracket_wf, phase_out_wf, wf_brackets, PhaseOut, SeniorBonusDeduction, TaxBracket, TaxRules,
};
use crate::types::{FilingStatus, TaxYear};
use crate::usd_amount::{pow10, Rate, UsdAmount, SCALE_MAX};

verus! {

/// A whole-dollar amount as the currency type holds it.
pub open spec fn spec_dollars(d: int) -> UsdAmount {
    UsdAmount { mantissa: d as i128, scale: 0 }
}

/// Tax rules for tax year 2025.
#[derive(Debug, Clone)]
pub struct Rules2025 {
    /// Bracket table for Single filers.
    pub brackets_single: Vec<TaxBracket>,
    /// Bracket table for Married Filing Jointly and Qualifying Surviving
    /// Spouse filers.
    pub brackets_mfj: Vec<TaxBracket>,
    /// Bracket table for Married Filing Separately filers.
    pub brackets_mfs: Vec<TaxBracket>,
    /// Bracket table for Head of Household filers.
    pub brackets_hoh: Vec<TaxBracket>,
    /// Child Tax Credit phase-out configuration.
    pub ctc_phase_out: PhaseOut,
}

/// One bounded bracket over whole-dollar bounds, as a value.
pub open spec fn spec_bracket(basis_points: u32, min_dollars: int, max_dollars: int) -> TaxBracket {
    TaxBracket {
        rate: Rate { basis_points },
        min: spec_dollars(min_dollars),
        max: Some(spec_dollars(max_dollars)),
    }
}

/// The open-ended top bracket, as a value.
pub open spec fn spec_top_bracket(basis_points: u32, min_dollars: int) -> TaxBracket {
    TaxBracket { rate: Rate { basis_points }, min: spec_dollars(min_dollars), max: None }
}

/// A seven-bracket table at the 2025 rates, from its six inner boundaries.
pub open spec fn spec_seven_brackets(
    b1: int,
    b2: int,
    b3: int,
    b4: int,
    b5: int,
    b6: int,
) -> Seq<TaxBracket> {
    seq![
        spec_bracket(1000, 0, b1),
        spec_bracket(1200, b1, b2),
        spec_bracket(2200, b2, b3),
        spec_bracket(2400, b3, b4),
        spec_bracket(3200, b4, b5),
        spec_bracket(3500, b5, b6),
        spec_top_bracket(3700, b6),
    ]
}

/// The exact content of the 2025 rules: the four bracket tables and the
/// Child Tax Credit phase-out, value by value.
pub open spec fn is_rules_2025(r: Rules2025) -> bool {
    &&& r.brackets_single@ == spec_seven_brackets(
        11_925,
        48_475,
        103_350,
        197_300,
        250_525,
        626_350,
    )
    &&& r.brackets_mfj@ == spec_seven_brackets(23_850, 96_950, 206_700, 394_600, 501_050, 751_600)
    &&& r.brackets_mfs@ == spec_seven_brackets(11_925, 48_475, 103_350, 197_300, 250_525, 375_800)
    &&& r.brackets_hoh@ == spec_seven_brackets(17_000, 64_850, 103_350, 197_300, 250_500, 626_350)
    &&& r.ctc_phase_out == (PhaseOut {
        single_threshold: spec_dollars(200_000),
        joint_threshold: spec_dollars(400_000),
        mfs_threshold: spec_dollars(200_000),
        rate: Rate { basis_points: 500 },
    })
}

/// Builds one bounded bracket from whole-dollar bounds and a rate in basis
/// points.
fn bracket(basis_points: u32, min_dollars: i64, max_dollars: i64) -> (r: TaxBracket)
    requires
        basis_points <= 10000,
        0 <= min_dollars < max_dollars,
    ensures
        bracket_wf(r),
        r == spec_bracket(basis_points, min_dollars as int, max_dollars as int),
        r.rate.basis_points == basis_points,
        r.min@ == min_dollars * pow10(SCALE_MAX as nat),
        r.max is Some,
        (r.max->0)@ == max_dollars * pow10(SCALE_MAX as nat),
{
    proof {
        crate::usd_amount::lemma_pow10_values();
    }
    TaxBracket {
        rate: Rate::from_basis_points(basis_points),
        min: UsdAmount::from_dollars(min_dollars),
        max: Some(UsdAmount::from_dollars(max_dollars)),
    }
}

/// Builds the open-ended top bracket.
fn top_bracket(basis_points: u32, min_dollars: i64) -> (r: TaxBracket)
    requires
        basis_points <= 10000,
        min_dollars >= 0,
    ensures
        bracket_wf(r),
        r == spec_top_bracket(basis_points, min_dollars as int),
        r.rate.basis_points == basis_points,
        r.min@ == min_dollars * pow10(SCALE_MAX as nat),
        r.max is None,
{
    proof {
        crate::usd_amount::lemma_pow10_values();
    }
    TaxBracket {
        rate: Rate::from_basis_points(basis_points),
        min: UsdAmount::from_dollars(min_dollars),
        max: None,
    }
}

/// Builds a seven-bracket table from its six inner boundaries and the seven
/// rates shared by every 2025 filing status.
fn seven_brackets(b1: i64, b2: i64, b3: i64, b4: i64, b5: i64, b6: i64) -> (r: Vec<TaxBracket>)
    requires
        0 < b1 < b2 < b3 < b4 < b5 < b6,
    ensures
        wf_brackets(r@),
        r@ == spec_seven_brackets(b1 as int, b2 as int, b3 as int, b4 as int, b5 as int, b6 as int),
{
    let mut v: Vec<TaxBracket> = Vec::new();
    v.push(bracket(1000, 0, b1));
    v.push(bracket(1200, b1, b2));
    v.push(bracket(2200, b2, b3));
    v.push(bracket(2400, b3, b4));
    v.push(bracket(3200, b4, b5));
    v.push(bracket(3500, b5, b6));
    v.push(top_bracket(3700, b6));
    proof {
        crate::usd_amount::lemma_pow10_values();
        assert(v@ =~= spec_seven_brackets(
            b1 as int,
            b2 as int,
            b3 as int,
            b4 as int,
            b5 as int,
            b6 as int,
        ));
        assert forall|i: int| 0 <= i < v@.len() implies bracket_wf(#[trigger] v@[i]) by {
            if i == 0 {
            } else if i == 1 {
            } else if i == 2 {
            } else if i == 3 {
            } else if i == 4 {
            } else if i == 5 {
            } else {
                assert(i == 6);
            }
        }
        assert forall|i: int|
            0 <= i < v@.len() - 1 implies (#[trigger] v@[i]).max is Some && v@[i + 1].min@ == (
        v@[i].max->0)@ by {
            if i == 0 {
            } else if i == 1 {
            } else if i == 2 {
            } else if i == 3 {
            } else if i == 4 {
            } else {
                assert(i == 5);
            }
        }
    }
    v
}

impl Default for Rules2025 {
    /// The 2025 rules, identical to [`Rules2025::new`].
    fn default() -> (r: Rules2025)
        ensures
            r.inv(),
            is_rules_2025(r),
    {
        Rules2025::new()
    }
}

impl Rules2025 {
    /// Creates a new rules instance with all 2025 tax parameters.
    pub fn new() -> (r: Rules2025)
        ensures
            r.inv(),
            is_rules_2025(r),
    {
        proof {
            crate::usd_amount::lemma_pow10_values();
        }
        Rules2025 {
            brackets_single: seven_brackets(11_925, 48_475, 103_350, 197_300, 250_525, 626_350),
            brackets_mfj: seven_brackets(23_850, 96_950, 206_700, 394_600, 501_050, 751_600),
            brackets_mfs: seven_brackets(11_925, 48_475, 103_350, 197_300, 250_525, 375_800),
            brackets_hoh: seven_brackets(17_000, 64_850, 103_350, 197_300, 250_500, 626_350),
            ctc_phase_out: PhaseOut {
                single_threshold: UsdAmount::from_dollars(200_000),
                joint_threshold: UsdAmount::from_dollars(400_000),
                mfs_threshold: UsdAmount::from_dollars(200_000),
                rate: Rate::from_basis_points(500),
            },
        }
    }
}

impl TaxRules for Rules2025 {
    /// All four bracket tables are complete, and the phase-out is sound.
    open spec fn inv(&self) -> bool {
        &&& wf_brackets(self.brackets_single@)
        &&& wf_brackets(self.brackets_mfj@)
        &&& wf_brackets(self.brackets_mfs@)
        &&& wf_brackets(self.brackets_hoh@)
        &&& phase_out_wf(self.ctc_phase_out)
    }

    open spec fn spec_year(&self) -> TaxYear {
        2025
    }

    open spec fn spec_brackets(&self, status: FilingStatus) -> Seq<TaxBracket> {
        match status {
            FilingStatus::Single => self.brackets_single@,
            FilingStatus::MarriedFilingJointly => self.brackets_mfj@,
            FilingStatus::QualifyingSurvivingSpouse => self.brackets_mfj@,
            FilingStatus::MarriedFilingSeparately => self.brackets_mfs@,
            FilingStatus::HeadOfHousehold => self.brackets_hoh@,
        }
    }

    open spec fn spec_standard_deduction_base(&self, status: FilingStatus) -> UsdAmount {
        match status {
            FilingStatus::Single => spec_dollars(15_750),
            FilingStatus::MarriedFilingSeparately => spec_dollars(15_750),
            FilingStatus::MarriedFilingJointly => spec_dollars(31_500),
            FilingStatus::QualifyingSurvivingSpouse => spec_dollars(31_500),
            FilingStatus::HeadOfHousehold => spec_dollars(23_625),
        }
    }

    open spec fn spec_standard_deduction_age_65(&self, status: FilingStatus) -> UsdAmount {
        match status {
            FilingStatus::Single => spec_dollars(2_000),
            FilingStatus::HeadOfHousehold => spec_dollars(2_000),
            FilingStatus::MarriedFilingJointly => spec_dollars(1_600),
            FilingStatus::MarriedFilingSeparately => spec_dollars(1_600),
            FilingStatus::QualifyingSurvivingSpouse => spec_dollars(1_600),
        }
    }

    open spec fn spec_standard_deduction_blind(&self, status: FilingStatus) -> UsdAmount {
        self.spec_standard_deduction_age_65(status)
    }

    open spec fn spec_senior_bonus_deduction(&self) -> Option<SeniorBonusDeduction> {
        Some(
            SeniorBonusDeduction {
                amount_per_person: 6_000,
                phase_out: PhaseOut {
                    single_threshold: spec_dollars(75_000),
                    joint_threshold: spec_dollars(150_000),
                    mfs_threshold: spec_dollars(75_000),
                    rate: Rate { basis_points: 600 },
                },
            },
        )
    }

    open spec fn spec_child_tax_credit_max(&self) -> UsdAmount {
        spec_dollars(2_200)
    }

    open spec fn spec_additional_child_tax_credit_max(&self) -> UsdAmount {
        spec_dollars(1_700)
    }

    open spec fn spec_actc_earned_income_threshold(&self) -> UsdAmount {
        spec_dollars(2_500)
    }

    open spec fn spec_child_tax_credit_phase_out(&self) -> PhaseOut {
        self.ctc_phase_out
    }

    open spec fn spec_credit_for_other_dependents(&self) -> UsdAmount {
        spec_dollars(500)
    }

    open spec fn spec_personal_exemption(&self) -> UsdAmount {
        spec_dollars(0)
    }

    open spec fn spec_qbi_deduction_rate(&self) -> Rate {
        Rate { basis_points: 2000 }
    }

    fn year(&self) -> (r: TaxYear) {
        2025
    }

    fn brackets(&self, status: FilingStatus) -> (r: &Vec<TaxBracket>) {
        match status {
            FilingStatus::Single => &self.brackets_single,
            FilingStatus::MarriedFilingJointly | FilingStatus::QualifyingSurvivingSpouse => {
                &self.brackets_mfj
            },
            FilingStatus::MarriedFilingSeparately => &self.brackets_mfs,
            FilingStatus::HeadOfHousehold => &self.brackets_hoh,
        }
    }

    fn standard_deduction_base(&self, status: FilingStatus) -> (r: UsdAmount) {
        proof {
            crate::usd_amount::lemma_pow10_values();
        }
        match status {
            FilingStatus::Single | FilingStatus::MarriedFilingSeparately => {
                UsdAmount::from_dollars(15_750)
            },
            FilingStatus::MarriedFilingJointly | FilingStatus::QualifyingSurvivingSpouse => {
                UsdAmount::from_dollars(31_500)
            },
            FilingStatus::HeadOfHousehold => UsdAmount::from_dollars(23_625),
        }
    }

    fn standard_deduction_age_65(&self, status: FilingStatus) -> (r: UsdAmount) {
        proof {
            crate::usd_amount::lemma_pow10_values();
        }
        match status {
            FilingStatus::Single | FilingStatus::HeadOfHousehold => UsdAmount::from_dollars(2_000),
            FilingStatus::MarriedFilingJointly
            | FilingStatus::MarriedFilingSeparately
            | FilingStatus::QualifyingSurvivingSpouse => UsdAmount::from_dollars(1_600),
        }
    }

    fn standard_deduction_blind(&self, status: FilingStatus) -> (r: UsdAmount) {
        self.standard_deduction_age_65(status)
    }

    fn senior_bonus_deduction(&self) -> (r: Option<SeniorBonusDeduction>) {
        proof {
            crate::usd_amount::lemma_pow10_values();
        }
        Some(
            SeniorBonusDeduction {
                amount_per_person: 6_000,
                phase_out: PhaseOut {
                    single_threshold: UsdAmount::from_dollars(75_000),
                    joint_threshold: UsdAmount::from_dollars(150_000),
                    mfs_threshold: UsdAmount::from_dollars(75_000),
                    rate: Rate::from_basis_points(600),
                },
            },
        )
    }

    fn child_tax_credit_max(&self) -> (r: UsdAmount) {
        proof {
            crate::usd_amount::lemma_pow10_values();
        }
        UsdAmount::from_dollars(2_200)
    }

    fn additional_child_tax_credit_max(&self) -> (r: UsdAmount) {
        proof {
            crate::usd_amount::lemma_pow10_values();
        }
        UsdAmount::from_dollars(1_700)
    }

    fn actc_earned_income_threshold(&self) -> (r: UsdAmount) {
        proof {
            crate::usd_amount::lemma_pow10_values();
        }
        UsdAmount::from_dollars(2_500)
    }

    fn child_tax_credit_phase_out(&self) -> (r: &PhaseOut) {
        &self.ctc_phase_out
    }

    fn credit_for_other_dependents(&self) -> (r: UsdAmount) {
        proof {
            crate::usd_amount::lemma_pow10_values();
        }
        UsdAmount::from_dollars(500)
    }

    fn personal_exemption(&self) -> (r: UsdAmount) {
        proof {
            crate::usd_amount::lemma_pow10_values();
        }
        UsdAmount::from_dollars(0)
    }

    fn qbi_deduction_rate(&self) -> (r: Rate) {
        Rate::from_basis_points(2000)
    }
}

} // verus!
