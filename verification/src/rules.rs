//! Year-independent tax machinery: brackets, phase-outs, the [`TaxRules`]
//! capability contract, and the bracket-walk and standard-deduction
//! computations shared by every year.
//!
//! Contracts here speak in "fine units": an amount's view (`10^-12` dollars)
//! times `10^4`, so that a rate applied to an amount is an exact integer
//! product with no division anywhere in a specification.

use vstd::prelude::*;

use crate::types::{FilingStatus, TaxYear};
use crate::usd_amount::{pow10, usd_bound, Rate, UsdAmount, RATE_SCALE, SCALE_MAX};

verus! {

/// A single tax bracket: a rate over `[min, max)`, `max` absent for the top
/// bracket.
#[derive(Debug, Clone, Copy)]
pub struct TaxBracket {
    /// Tax rate applied to income within this bracket.
    pub rate: Rate,
    /// Minimum taxable income for this bracket (inclusive).
    pub min: UsdAmount,
    /// Maximum taxable income for this bracket (`None` = no upper limit).
    pub max: Option<UsdAmount>,
}

/// Validity of one bracket: sound amounts at rule scale, and an upper bound
/// strictly above the lower one.
pub open spec fn bracket_wf(b: TaxBracket) -> bool {
    &&& b.rate.wf()
    &&& b.min.wf()
    &&& b.min@ >= 0
    &&& b.min.scale + RATE_SCALE <= SCALE_MAX
    &&& match b.max {
        Some(m) => m.wf() && m@ > b.min@ && m.scale + RATE_SCALE <= SCALE_MAX,
        None => true,
    }
}

/// A chained bracket run: every bracket valid, and each one's upper bound is
/// the next one's lower bound.
pub open spec fn chained_brackets(brs: Seq<TaxBracket>) -> bool {
    &&& forall|i: int| 0 <= i < brs.len() ==> bracket_wf(#[trigger] brs[i])
    &&& forall|i: int|
        0 <= i < brs.len() - 1 ==> (#[trigger] brs[i]).max is Some && brs[i + 1].min@ == (
        brs[i].max->0)@
}

/// A complete bracket table: a chained run that starts at zero and is open
/// at the top, so it covers all of `[0, infinity)`.
pub open spec fn wf_brackets(brs: Seq<TaxBracket>) -> bool {
    &&& brs.len() > 0
    &&& chained_brackets(brs)
    &&& brs[0].min@ == 0
    &&& brs[brs.len() - 1].max is None
}

/// The top of the income slice a bracket sees: the income, capped at the
/// bracket's upper bound.
pub open spec fn bracket_top(b: TaxBracket, v: int) -> int {
    match b.max {
        Some(m) => if v <= m@ {
            v
        } else {
            m@
        },
        None => v,
    }
}

/// The income taxed within one bracket: the slice of `[min, max)` below `v`,
/// never negative.
pub open spec fn bracket_amount(b: TaxBracket, v: int) -> int {
    if bracket_top(b, v) >= b.min@ {
        bracket_top(b, v) - b.min@
    } else {
        0
    }
}

/// The total bracket tax on income `v`, in fine units: the sum over the
/// brackets of the income each taxes times its rate in basis points.
pub open spec fn tax_fine(brs: Seq<TaxBracket>, v: int) -> int
    decreases brs.len(),
{
    if brs.len() == 0 {
        0
    } else {
        tax_fine(brs.drop_last(), v) + bracket_amount(brs.last(), v)
            * brs.last().rate.basis_points
    }
}

/// The sum, in fine units, of the first `k` brackets' full contributions:
/// each bracket's whole width times its rate.
pub open spec fn full_contribution_fine(brs: Seq<TaxBracket>, k: int) -> int
    decreases k,
{
    if k <= 0 {
        0
    } else {
        full_contribution_fine(brs, k - 1) + ((brs[k - 1].max->0)@ - brs[k - 1].min@) * brs[k
            - 1].rate.basis_points
    }
}

impl TaxBracket {
    /// The tax owed on the slice of `income` that falls in this bracket.
    pub fn tax_for_income(&self, income: UsdAmount) -> (r: UsdAmount)
        requires
            bracket_wf(*self),
            income.wf(),
            income@ >= 0,
            income.scale + RATE_SCALE <= SCALE_MAX,
        ensures
            r@ * 10000 == bracket_amount(*self, income@) * self.rate.basis_points,
            r@ >= 0,
            r.wf(),
    {
        if income.lt(&self.min) {
            proof {
                crate::usd_amount::lemma_pow10_values();
            }
            return UsdAmount::zero();
        }
        let top = match self.max {
            Some(m) => income.min(m),
            None => income,
        };
        let taxable_in_bracket = top.sub(&self.min);
        if taxable_in_bracket.is_negative() {
            proof {
                crate::usd_amount::lemma_pow10_values();
            }
            UsdAmount::zero()
        } else {
            taxable_in_bracket.multiply_rate(self.rate)
        }
    }
}

/// Phase-out configuration for credits and deductions: a threshold per
/// filing-status group, and the rate at which the benefit shrinks above it.
#[derive(Debug, Clone, Copy)]
pub struct PhaseOut {
    /// AGI threshold where phase-out begins (Single / Head of Household).
    pub single_threshold: UsdAmount,
    /// AGI threshold where phase-out begins (MFJ / QSS).
    pub joint_threshold: UsdAmount,
    /// AGI threshold where phase-out begins (MFS).
    pub mfs_threshold: UsdAmount,
    /// Rate at which the benefit reduces per dollar over the threshold.
    pub rate: Rate,
}

/// Validity of a phase-out: sound non-negative thresholds at rule scale, and
/// a sound rate.
pub open spec fn phase_out_wf(p: PhaseOut) -> bool {
    &&& p.single_threshold.wf() && p.single_threshold@ >= 0 && p.single_threshold.scale
        + RATE_SCALE <= SCALE_MAX
    &&& p.joint_threshold.wf() && p.joint_threshold@ >= 0 && p.joint_threshold.scale + RATE_SCALE
        <= SCALE_MAX
    &&& p.mfs_threshold.wf() && p.mfs_threshold@ >= 0 && p.mfs_threshold.scale + RATE_SCALE
        <= SCALE_MAX
    &&& p.rate.wf()
}

/// Which threshold applies to a filing status.
pub open spec fn spec_threshold_for(p: PhaseOut, status: FilingStatus) -> UsdAmount {
    match status {
        FilingStatus::Single => p.single_threshold,
        FilingStatus::HeadOfHousehold => p.single_threshold,
        FilingStatus::MarriedFilingJointly => p.joint_threshold,
        FilingStatus::QualifyingSurvivingSpouse => p.joint_threshold,
        FilingStatus::MarriedFilingSeparately => p.mfs_threshold,
    }
}

/// The phase-out reduction in fine units: zero at or below the threshold,
/// and the excess times the rate above it.
pub open spec fn phase_out_reduction_fine(p: PhaseOut, status: FilingStatus, agi: int) -> int {
    let thr = spec_threshold_for(p, status)@;
    if agi <= thr {
        0
    } else {
        (agi - thr) * p.rate.basis_points
    }
}

impl PhaseOut {
    /// Returns the threshold for the given filing status.
    pub fn threshold_for(&self, status: FilingStatus) -> (r: UsdAmount)
        ensures
            r == spec_threshold_for(*self, status),
    {
        match status {
            FilingStatus::Single | FilingStatus::HeadOfHousehold => self.single_threshold,
            FilingStatus::MarriedFilingJointly | FilingStatus::QualifyingSurvivingSpouse => {
                self.joint_threshold
            },
            FilingStatus::MarriedFilingSeparately => self.mfs_threshold,
        }
    }

    /// The phase-out reduction for the given status and AGI: zero at or
    /// below the threshold, linear in the excess above it, never negative.
    pub fn reduction(&self, status: FilingStatus, agi: UsdAmount) -> (r: UsdAmount)
        requires
            phase_out_wf(*self),
            agi.wf(),
            agi.scale + RATE_SCALE <= SCALE_MAX,
        ensures
            r@ * 10000 == phase_out_reduction_fine(*self, status, agi@),
            r@ >= 0,
            r.wf(),
    {
        let threshold = self.threshold_for(status);
        if !agi.gt(&threshold) {
            proof {
                crate::usd_amount::lemma_pow10_values();
            }
            return UsdAmount::zero();
        }
        let excess = agi.sub(&threshold);
        excess.multiply_rate(self.rate)
    }
}

/// Senior bonus deduction configuration: a per-person amount with its own
/// phase-out.
#[derive(Debug, Clone, Copy)]
pub struct SeniorBonusDeduction {
    /// Amount per eligible person (age 65+), in whole dollars.
    pub amount_per_person: u32,
    /// Phase-out configuration.
    pub phase_out: PhaseOut,
}

/// Validity of a senior bonus deduction.
pub open spec fn senior_bonus_wf(b: SeniorBonusDeduction) -> bool {
    phase_out_wf(b.phase_out)
}

/// Validity of a rule-table amount: sound, non-negative, within a generous
/// ceiling, and at rule scale, so any handful of them can be summed.
pub open spec fn rule_amount_wf(a: UsdAmount) -> bool {
    &&& a.wf()
    &&& 0 <= a@ <= pow10(30)
    &&& a.scale + RATE_SCALE <= SCALE_MAX
}

/// How many of taxpayer and spouse count as qualifying seniors: the spouse
/// counts only when filing jointly.
pub open spec fn spec_senior_count(status: FilingStatus, taxpayer_65: bool, spouse_65: bool) -> int {
    (if taxpayer_65 {
        1int
    } else {
        0int
    }) + (if status == FilingStatus::MarriedFilingJointly && spouse_65 {
        1int
    } else {
        0int
    })
}

/// The total standard deduction in fine units: the base amount, one age and
/// one blind increment for the taxpayer, the spouse's increments when filing
/// jointly, and the senior bonus - in full below its phase-out threshold,
/// linearly reduced and floored at zero above it.
pub open spec fn standard_deduction_fine(
    base: int,
    age_inc: int,
    blind_inc: int,
    bonus: Option<SeniorBonusDeduction>,
    status: FilingStatus,
    taxpayer_65: bool,
    taxpayer_blind: bool,
    spouse_65: bool,
    spouse_blind: bool,
    agi: int,
) -> int {
    let flat = base + (if taxpayer_65 {
        age_inc
    } else {
        0
    }) + (if taxpayer_blind {
        blind_inc
    } else {
        0
    }) + (if status == FilingStatus::MarriedFilingJointly {
        (if spouse_65 {
            age_inc
        } else {
            0
        }) + (if spouse_blind {
            blind_inc
        } else {
            0
        })
    } else {
        0
    });
    let n = spec_senior_count(status, taxpayer_65, spouse_65);
    let bonus_fine = match bonus {
        None => 0int,
        Some(b) => {
            if n == 0 {
                0int
            } else {
                let full_fine = (n * b.amount_per_person) * pow10(SCALE_MAX as nat) * 10000;
                let red_fine = phase_out_reduction_fine(b.phase_out, status, agi);
                if red_fine == 0 {
                    full_fine
                } else if full_fine - red_fine >= 0 {
                    full_fine - red_fine
                } else {
                    0int
                }
            }
        },
    };
    flat * 10000 + bonus_fine
}

/// The capability contract between "statutory constants for one year" and
/// the computation engine.  Each executable accessor is pinned to a spec
/// counterpart, so the engine's contracts can name the data they used.
pub trait TaxRules {
    /// Structural validity of the rules data.
    spec fn inv(&self) -> bool;

    /// The year these rules apply to.
    spec fn spec_year(&self) -> TaxYear;

    /// The bracket table for a filing status.
    spec fn spec_brackets(&self, status: FilingStatus) -> Seq<TaxBracket>;

    /// The base standard deduction for a filing status.
    spec fn spec_standard_deduction_base(&self, status: FilingStatus) -> UsdAmount;

    /// The additional standard deduction for age 65+.
    spec fn spec_standard_deduction_age_65(&self, status: FilingStatus) -> UsdAmount;

    /// The additional standard deduction for blindness.
    spec fn spec_standard_deduction_blind(&self, status: FilingStatus) -> UsdAmount;

    /// The senior bonus deduction, if the year has one.
    spec fn spec_senior_bonus_deduction(&self) -> Option<SeniorBonusDeduction>;

    /// Maximum Child Tax Credit per qualifying child.
    spec fn spec_child_tax_credit_max(&self) -> UsdAmount;

    /// Maximum refundable Additional Child Tax Credit per child.
    spec fn spec_additional_child_tax_credit_max(&self) -> UsdAmount;

    /// Earned income threshold for the ACTC.
    spec fn spec_actc_earned_income_threshold(&self) -> UsdAmount;

    /// Phase-out configuration for the Child Tax Credit.
    spec fn spec_child_tax_credit_phase_out(&self) -> PhaseOut;

    /// Credit for Other Dependents.
    spec fn spec_credit_for_other_dependents(&self) -> UsdAmount;

    /// Personal exemption amount (zero from 2018 on).
    spec fn spec_personal_exemption(&self) -> UsdAmount;

    /// Qualified Business Income deduction rate.
    spec fn spec_qbi_deduction_rate(&self) -> Rate;

    /// Returns the tax year these rules apply to.
    fn year(&self) -> (r: TaxYear)
        ensures
            r == self.spec_year(),
    ;

    /// Returns the tax brackets for the given filing status.
    fn brackets(&self, status: FilingStatus) -> (r: &Vec<TaxBracket>)
        requires
            self.inv(),
        ensures
            r@ == self.spec_brackets(status),
            wf_brackets(r@),
    ;

    /// Returns the base standard deduction for the given filing status.
    fn standard_deduction_base(&self, status: FilingStatus) -> (r: UsdAmount)
        requires
            self.inv(),
        ensures
            r == self.spec_standard_deduction_base(status),
            rule_amount_wf(r),
    ;

    /// Returns the additional standard deduction for age 65+.
    fn standard_deduction_age_65(&self, status: FilingStatus) -> (r: UsdAmount)
        requires
            self.inv(),
        ensures
            r == self.spec_standard_deduction_age_65(status),
            rule_amount_wf(r),
    ;

    /// Returns the additional standard deduction for blindness.
    fn standard_deduction_blind(&self, status: FilingStatus) -> (r: UsdAmount)
        requires
            self.inv(),
        ensures
            r == self.spec_standard_deduction_blind(status),
            rule_amount_wf(r),
    ;

    /// Returns the senior bonus deduction, if the year defines one.
    fn senior_bonus_deduction(&self) -> (r: Option<SeniorBonusDeduction>)
        requires
            self.inv(),
        ensures
            r == self.spec_senior_bonus_deduction(),
            r is Some ==> senior_bonus_wf(r->0),
    ;

    /// Maximum Child Tax Credit per qualifying child.
    fn child_tax_credit_max(&self) -> (r: UsdAmount)
        requires
            self.inv(),
        ensures
            r == self.spec_child_tax_credit_max(),
            rule_amount_wf(r),
    ;

    /// Maximum refundable Additional Child Tax Credit per child.
    fn additional_child_tax_credit_max(&self) -> (r: UsdAmount)
        requires
            self.inv(),
        ensures
            r == self.spec_additional_child_tax_credit_max(),
            rule_amount_wf(r),
    ;

    /// Earned income threshold for the ACTC.
    fn actc_earned_income_threshold(&self) -> (r: UsdAmount)
        requires
            self.inv(),
        ensures
            r == self.spec_actc_earned_income_threshold(),
            rule_amount_wf(r),
    ;

    /// Phase-out configuration for the Child Tax Credit.
    fn child_tax_credit_phase_out(&self) -> (r: &PhaseOut)
        requires
            self.inv(),
        ensures
            *r == self.spec_child_tax_credit_phase_out(),
            phase_out_wf(*r),
    ;

    /// Credit for Other Dependents (non-CTC qualifying).
    fn credit_for_other_dependents(&self) -> (r: UsdAmount)
        requires
            self.inv(),
        ensures
            r == self.spec_credit_for_other_dependents(),
            rule_amount_wf(r),
    ;

    /// Personal exemption amount.
    fn personal_exemption(&self) -> (r: UsdAmount)
        requires
            self.inv(),
        ensures
            r == self.spec_personal_exemption(),
            rule_amount_wf(r),
    ;

    /// Qualified Business Income deduction rate.
    fn qbi_deduction_rate(&self) -> (r: Rate)
        ensures
            r == self.spec_qbi_deduction_rate(),
            r.wf(),
    ;

    /// Calculates the bracket tax on `taxable_income` for `status`.
    fn calculate_tax(&self, status: FilingStatus, taxable_income: UsdAmount) -> (r: UsdAmount)
        requires
            self.inv(),
            taxable_income.wf(),
            taxable_income@ >= 0,
            taxable_income.scale + RATE_SCALE <= SCALE_MAX,
        ensures
            r@ * 10000 == tax_fine(self.spec_brackets(status), taxable_income@),
            r@ >= 0,
            r.wf(),
    {
        tax_for_brackets(self.brackets(status), taxable_income)
    }

    /// Calculates the total standard deduction for the given facts.
    fn standard_deduction(
        &self,
        status: FilingStatus,
        taxpayer_65_or_older: bool,
        taxpayer_blind: bool,
        spouse_65_or_older: bool,
        spouse_blind: bool,
        agi: UsdAmount,
    ) -> (r: UsdAmount)
        requires
            self.inv(),
            agi.wf(),
            agi.scale + RATE_SCALE <= SCALE_MAX,
        ensures
            r@ * 10000 == standard_deduction_fine(
                self.spec_standard_deduction_base(status)@,
                self.spec_standard_deduction_age_65(status)@,
                self.spec_standard_deduction_blind(status)@,
                self.spec_senior_bonus_deduction(),
                status,
                taxpayer_65_or_older,
                taxpayer_blind,
                spouse_65_or_older,
                spouse_blind,
                agi@,
            ),
            r@ >= 0,
            r.wf(),
    {
        proof {
            crate::usd_amount::lemma_pow10_values();
        }
        let mut deduction = self.standard_deduction_base(status);
        if taxpayer_65_or_older {
            deduction = deduction.add(&self.standard_deduction_age_65(status));
        }
        if taxpayer_blind {
            deduction = deduction.add(&self.standard_deduction_blind(status));
        }
        if status == FilingStatus::MarriedFilingJointly {
            if spouse_65_or_older {
                deduction = deduction.add(&self.standard_deduction_age_65(status));
            }
            if spouse_blind {
                deduction = deduction.add(&self.standard_deduction_blind(status));
            }
        }
        match self.senior_bonus_deduction() {
            Some(bonus) => {
                let mut senior_count: u32 = 0;
                if taxpayer_65_or_older {
                    senior_count = senior_count + 1;
                }
                if status == FilingStatus::MarriedFilingJointly && spouse_65_or_older {
                    senior_count = senior_count + 1;
                }
                if senior_count > 0 {
                    let ghost n = spec_senior_count(
                        status,
                        taxpayer_65_or_older,
                        spouse_65_or_older,
                    );
                    let ghost d = (bonus.amount_per_person as int) * (senior_count as int);
                    proof {
                        assert(n == senior_count as int);
                        assert(0 <= d <= 8589934590int && d == n * (bonus.amount_per_person as int))
                            by (nonlinear_arith)
                            requires
                                0 <= bonus.amount_per_person <= 4294967295int,
                                0 < senior_count <= 2,
                                n == senior_count as int,
                                d == (bonus.amount_per_person as int) * (senior_count as int),
                        ;
                    }
                    let threshold = bonus.phase_out.threshold_for(status);
                    let max_bonus = UsdAmount::from_dollars(
                        (bonus.amount_per_person as i64) * (senior_count as i64),
                    );
                    proof {
                        crate::usd_amount::lemma_pow10_adds(12, 12);
                        assert(max_bonus@ <= pow10(24) && (max_bonus@) * 10000 == ((n
                            * bonus.amount_per_person) * pow10(SCALE_MAX as nat)) * 10000)
                            by (nonlinear_arith)
                            requires
                                max_bonus@ == d * pow10(12),
                                0 <= d <= 8589934590int,
                                d == n * (bonus.amount_per_person as int),
                                8589934590int <= pow10(12),
                                pow10(12) >= 1,
                                pow10(12) * pow10(12) == pow10(24),
                                SCALE_MAX == 12,
                        ;
                    }
                    if !agi.gt(&threshold) {
                        deduction = deduction.add(&max_bonus);
                    } else {
                        let reduction = bonus.phase_out.reduction(status, agi);
                        let bonus_amount = max_bonus.saturating_sub(&reduction);
                        deduction = deduction.add(&bonus_amount);
                    }
                }
            },
            None => {},
        }
        deduction
    }
}

/// Walks an ordered bracket table and accumulates each bracket's tax on the
/// income, exactly as [`tax_fine`] states it.
pub fn tax_for_brackets(brackets: &Vec<TaxBracket>, taxable_income: UsdAmount) -> (r: UsdAmount)
    requires
        wf_brackets(brackets@),
        taxable_income.wf(),
        taxable_income@ >= 0,
        taxable_income.scale + RATE_SCALE <= SCALE_MAX,
    ensures
        r@ * 10000 == tax_fine(brackets@, taxable_income@),
        r@ >= 0,
        r.wf(),
{
    proof {
        crate::usd_amount::lemma_pow10_values();
    }
    let ghost v = taxable_income@;
    let mut total_tax = UsdAmount::zero();
    let mut prev_max = UsdAmount::zero();
    let mut i: usize = 0;
    proof {
        assert(brackets@.take(0) =~= Seq::<TaxBracket>::empty());
    }
    while i < brackets.len()
        invariant
            wf_brackets(brackets@),
            taxable_income.wf(),
            taxable_income@ == v,
            v >= 0,
            taxable_income.scale + RATE_SCALE <= SCALE_MAX,
            i <= brackets@.len(),
            total_tax.wf(),
            total_tax@ >= 0,
            total_tax@ * 10000 == tax_fine(brackets@.take(i as int), v),
            prev_max.wf(),
            prev_max@ >= 0,
            prev_max.scale + RATE_SCALE <= SCALE_MAX,
            i < brackets@.len() ==> prev_max@ == brackets@[i as int].min@,
        decreases brackets@.len() - i,
    {
        proof {
            crate::usd_amount::lemma_pow10_values();
        }
        if !taxable_income.gt(&prev_max) {
            proof {
                lemma_tax_fine_tail_zero(brackets@, v, i as int);
            }
            return total_tax;
        }
        let bracket = &brackets[i];
        proof {
            assert(bracket_wf(brackets@[i as int]));
        }
        let top = match bracket.max {
            Some(m) => taxable_income.min(m),
            None => taxable_income,
        };
        let bracket_income = top.sub(&prev_max);
        proof {
            lemma_tax_fine_take_step(brackets@, v, i as int);
            lemma_tax_fine_bounds(brackets@.take(i as int + 1), v);
            assert(chained_brackets(brackets@.take(i as int + 1))) by {
                lemma_chained_take(brackets@, i as int + 1);
            }
        }
        if bracket_income.is_positive() {
            let contribution = bracket_income.multiply_rate(bracket.rate);
            total_tax = total_tax.add(&contribution);
        }
        prev_max = match bracket.max {
            Some(m) => m,
            None => taxable_income,
        };
        i = i + 1;
    }
    proof {
        assert(brackets@.take(brackets@.len() as int) =~= brackets@);
    }
    total_tax
}

/// A prefix of a chained run is chained.
proof fn lemma_chained_take(brs: Seq<TaxBracket>, k: int)
    requires
        chained_brackets(brs),
        0 <= k <= brs.len(),
    ensures
        chained_brackets(brs.take(k)),
{
    assert(forall|i: int| 0 <= i < k ==> brs.take(k)[i] == brs[i]);
}

/// Bracket lower bounds never decrease along a chained run.
proof fn lemma_mins_nondecreasing(brs: Seq<TaxBracket>, i: int, j: int)
    requires
        chained_brackets(brs),
        0 <= i <= j < brs.len(),
    ensures
        brs[i].min@ <= brs[j].min@,
    decreases j - i,
{
    if i < j {
        lemma_mins_nondecreasing(brs, i, j - 1);
        assert(brs[j - 1].max is Some && brs[j].min@ == (brs[j - 1].max->0)@);
        assert(bracket_wf(brs[j - 1]));
    }
}

/// Income at or below a bracket's lower bound owes nothing there or in any
/// later bracket: the walk may stop.
proof fn lemma_tax_fine_tail_zero(brs: Seq<TaxBracket>, v: int, k: int)
    requires
        chained_brackets(brs),
        0 <= k < brs.len(),
        v <= brs[k].min@,
    ensures
        tax_fine(brs, v) == tax_fine(brs.take(k), v),
    decreases brs.len(),
{
    let n = brs.len() as int;
    lemma_mins_nondecreasing(brs, k, n - 1);
    assert(bracket_amount(brs.last(), v) == 0);
    assert(bracket_amount(brs.last(), v) * brs.last().rate.basis_points == 0) by (nonlinear_arith)
        requires
            bracket_amount(brs.last(), v) == 0,
    ;
    if k == n - 1 {
        assert(brs.drop_last() =~= brs.take(k));
    } else {
        assert(chained_brackets(brs.drop_last())) by {
            assert(forall|i: int| 0 <= i < n - 1 ==> brs.drop_last()[i] == brs[i]);
        }
        lemma_tax_fine_tail_zero(brs.drop_last(), v, k);
        assert(brs.drop_last().take(k) =~= brs.take(k));
    }
}

/// One more bracket extends the prefix tax by that bracket's contribution.
proof fn lemma_tax_fine_take_step(brs: Seq<TaxBracket>, v: int, i: int)
    requires
        0 <= i < brs.len(),
    ensures
        tax_fine(brs.take(i + 1), v) == tax_fine(brs.take(i), v) + bracket_amount(brs[i], v)
            * brs[i].rate.basis_points,
{
    assert(brs.take(i + 1).drop_last() =~= brs.take(i));
    assert(brs.take(i + 1).last() == brs[i]);
}

/// The non-negative part of an integer.
pub open spec fn max0(x: int) -> int {
    if x >= 0 {
        x
    } else {
        0
    }
}

/// The bracket tax is non-negative and at most the full rate on the whole
/// income: each bracket taxes a non-negative slice, the slices are disjoint,
/// and no rate exceeds one.
pub proof fn lemma_tax_fine_bounds(brs: Seq<TaxBracket>, v: int)
    requires
        chained_brackets(brs),
        v >= 0,
        brs.len() > 0 ==> brs[0].min@ >= 0,
    ensures
        0 <= tax_fine(brs, v) <= 10000 * v,
{
    if brs.len() > 0 {
        lemma_tax_fine_bounds_helper(brs, v);
        let hi = bracket_top(brs.last(), v);
        assert(hi <= v);
        assert(max0(hi - brs[0].min@) <= v);
        assert(10000 * max0(hi - brs[0].min@) <= 10000 * v);
    }
}

/// Strengthened bound for the induction: the tax on a chained run is at most
/// the run's covered width below `v`, at full rate.
proof fn lemma_tax_fine_bounds_helper(brs: Seq<TaxBracket>, v: int)
    requires
        chained_brackets(brs),
        v >= 0,
        brs.len() > 0,
    ensures
        0 <= tax_fine(brs, v),
        tax_fine(brs, v) <= 10000 * max0(bracket_top(brs.last(), v) - brs[0].min@),
        bracket_top(brs.last(), v) <= v,
    decreases brs.len(),
{
    let n = brs.len() as int;
    let last = brs.last();
    let amt = bracket_amount(last, v);
    let bp = last.rate.basis_points as int;
    let t = bracket_top(last, v);
    let min0 = brs[0].min@;
    assert(bracket_wf(last));
    assert(0 <= amt);
    assert(0 <= amt * bp <= amt * 10000) by (nonlinear_arith)
        requires
            0 <= amt,
            0 <= bp <= 10000,
    ;
    assert(amt * 10000 == 10000 * amt) by (nonlinear_arith);
    lemma_mins_nondecreasing(brs, 0, n - 1);
    if n == 1 {
        reveal_with_fuel(tax_fine, 3);
        assert(tax_fine(brs, v) == amt * bp);
        assert(amt == max0(t - min0));
    } else {
        let front = brs.drop_last();
        assert(chained_brackets(front)) by {
            assert(forall|i: int| 0 <= i < n - 1 ==> front[i] == brs[i]);
        }
        assert(front[0] == brs[0]);
        assert(front.last() == brs[n - 2]);
        lemma_tax_fine_bounds_helper(front, v);
        let prev = brs[n - 2];
        assert(prev.max is Some && last.min@ == (prev.max->0)@);
        let pt = bracket_top(prev, v);
        assert(pt == if v <= last.min@ {
            v
        } else {
            last.min@
        });
        assert(tax_fine(front, v) <= 10000 * max0(pt - min0));
        if v <= last.min@ {
            assert(amt == 0);
            assert(t == v && pt == v);
        } else {
            assert(pt == last.min@);
            assert(last.min@ >= min0);
            assert(t >= last.min@);
            assert(amt == t - last.min@);
            assert(10000 * max0(pt - min0) + 10000 * amt == 10000 * max0(t - min0));
        }
    }
}

/// Bracket tax is continuous at every bracket boundary: the tax on exactly
/// `brs[k].max` equals the sum of the first `k + 1` brackets' full
/// contributions, with nothing from the brackets above.
#[verifier::rlimit(60)]
pub proof fn lemma_bracket_tax_continuous(brs: Seq<TaxBracket>, k: int)
    requires
        wf_brackets(brs),
        0 <= k < brs.len(),
        brs[k].max is Some,
    ensures
        tax_fine(brs, (brs[k].max->0)@) == full_contribution_fine(brs, k + 1),
{
    let v = (brs[k].max->0)@;
    assert(k < brs.len() - 1) by {
        if k == brs.len() - 1 {
            assert(brs[brs.len() - 1].max is None);
        }
    }
    assert(brs[k + 1].min@ == v);
    lemma_tax_fine_tail_zero(brs, v, k + 1);
    assert forall|j: int| 0 <= j < k + 1 implies (#[trigger] brs[j]).max is Some && (
    brs[j].max->0)@ <= v by {
        assert(brs[j].max is Some);
        assert((brs[j].max->0)@ == brs[j + 1].min@);
        lemma_mins_nondecreasing(brs, j + 1, k + 1);
    }
    lemma_tax_fine_full_prefix(brs, k + 1, v);
}

/// On income at or above every one of the first `m` brackets' upper bounds,
/// each of those brackets contributes its full width.
proof fn lemma_tax_fine_full_prefix(brs: Seq<TaxBracket>, m: int, v: int)
    requires
        chained_brackets(brs),
        0 <= m <= brs.len(),
        forall|j: int| 0 <= j < m ==> (#[trigger] brs[j]).max is Some && (brs[j].max->0)@ <= v,
    ensures
        tax_fine(brs.take(m), v) == full_contribution_fine(brs, m),
    decreases m,
{
    if m == 0 {
        assert(brs.take(0) =~= Seq::<TaxBracket>::empty());
    } else {
        lemma_tax_fine_full_prefix(brs, m - 1, v);
        lemma_tax_fine_take_step(brs, v, m - 1);
        let b = brs[m - 1];
        assert(bracket_wf(b));
        assert(bracket_top(b, v) == (b.max->0)@);
        assert(bracket_amount(b, v) == (b.max->0)@ - b.min@);
    }
}

/// Bracket tax is monotonically non-decreasing in income for a fixed table:
/// every bracket's taxed slice only grows with income.
pub proof fn lemma_bracket_tax_monotonic(brs: Seq<TaxBracket>, v1: int, v2: int)
    requires
        wf_brackets(brs),
        v1 <= v2,
    ensures
        tax_fine(brs, v1) <= tax_fine(brs, v2),
{
    lemma_tax_fine_monotonic_chain(brs, v1, v2);
}

/// Monotonicity holds bracket by bracket on any run.
proof fn lemma_tax_fine_monotonic_chain(brs: Seq<TaxBracket>, v1: int, v2: int)
    requires
        chained_brackets(brs),
        v1 <= v2,
    ensures
        tax_fine(brs, v1) <= tax_fine(brs, v2),
    decreases brs.len(),
{
    if brs.len() > 0 {
        let front = brs.drop_last();
        assert(chained_brackets(front)) by {
            assert(forall|i: int| 0 <= i < brs.len() - 1 ==> front[i] == brs[i]);
        }
        lemma_tax_fine_monotonic_chain(front, v1, v2);
        let last = brs.last();
        assert(bracket_wf(last));
        let a1 = bracket_amount(last, v1);
        let a2 = bracket_amount(last, v2);
        assert(a1 <= a2);
        assert(a1 * last.rate.basis_points <= a2 * last.rate.basis_points) by (nonlinear_arith)
            requires
                a1 <= a2,
                last.rate.basis_points >= 0,
        ;
    }
}

} // verus!
