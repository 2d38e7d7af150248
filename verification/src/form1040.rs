//! Form 1040: U.S. Individual Income Tax Return.
//!
//! The form is a set of named currency lines.  Several lines are derived:
//! each `calculate_*` method computes one of them from previously set lines,
//! exactly as its contract states, and changes nothing else.

use vstd::prelude::*;

use crate::output::{FormLine, FormValue, OutputForm};
use crate::types::{str_eq, OutputFormType, TaxYear};
use crate::usd_amount::{usd_bound, zero_usd, UsdAmount};

verus! {

/// Form 1040 with all its line values.
#[derive(Debug, Clone)]
pub struct Form1040 {
    /// Tax year this form is for.
    pub tax_year: TaxYear,
    /// Line 1a: Total amount from Form(s) W-2, box 1
    pub line_1a: UsdAmount,
    /// Line 1b: Household employee wages not reported on W-2
    pub line_1b: UsdAmount,
    /// Line 1c: Tip income not reported on line 1a
    pub line_1c: UsdAmount,
    /// Line 1d: Medicaid waiver payments not reported on W-2
    pub line_1d: UsdAmount,
    /// Line 1e: Taxable dependent care benefits
    pub line_1e: UsdAmount,
    /// Line 1f: Employer-provided adoption benefits
    pub line_1f: UsdAmount,
    /// Line 1g: Wages from Form 8919
    pub line_1g: UsdAmount,
    /// Line 1h: Other earned income
    pub line_1h: UsdAmount,
    /// Line 1i: Nontaxable combat pay election
    pub line_1i: UsdAmount,
    /// Line 1z: Sum of lines 1a through 1h
    pub line_1z: UsdAmount,
    /// Line 2a: Tax-exempt interest
    pub line_2a: UsdAmount,
    /// Line 2b: Taxable interest
    pub line_2b: UsdAmount,
    /// Line 3a: Qualified dividends
    pub line_3a: UsdAmount,
    /// Line 3b: Ordinary dividends
    pub line_3b: UsdAmount,
    /// Line 4a: IRA distributions (gross)
    pub line_4a: UsdAmount,
    /// Line 4b: IRA distributions (taxable)
    pub line_4b: UsdAmount,
    /// Line 5a: Pensions and annuities (gross)
    pub line_5a: UsdAmount,
    /// Line 5b: Pensions and annuities (taxable)
    pub line_5b: UsdAmount,
    /// Line 6a: Social Security benefits (gross)
    pub line_6a: UsdAmount,
    /// Line 6b: Social Security benefits (taxable)
    pub line_6b: UsdAmount,
    /// Line 7: Capital gain or (loss)
    pub line_7: UsdAmount,
    /// Line 8: Additional income from Schedule 1
    pub line_8: UsdAmount,
    /// Line 9: Total income
    pub line_9: UsdAmount,
    /// Line 10: Adjustments to income from Schedule 1
    pub line_10: UsdAmount,
    /// Line 11: Adjusted Gross Income
    pub line_11: UsdAmount,
    /// Line 12: Standard deduction or itemized deductions
    pub line_12: UsdAmount,
    /// Line 12 checkbox: standard deduction used
    pub line_12_standard_deduction: bool,
    /// Line 13a: Qualified business income deduction
    pub line_13a: UsdAmount,
    /// Line 13b: Total other deductions
    pub line_13b: UsdAmount,
    /// Line 14: Total deductions
    pub line_14: UsdAmount,
    /// Line 15: Taxable income
    pub line_15: UsdAmount,
    /// Line 16: Tax
    pub line_16: UsdAmount,
    /// Line 17: Amount from Schedule 2, line 3
    pub line_17: UsdAmount,
    /// Line 18: Total tax before credits
    pub line_18: UsdAmount,
    /// Line 19: Child tax credit and credit for other dependents
    pub line_19: UsdAmount,
    /// Line 20: Amount from Schedule 3, line 8
    pub line_20: UsdAmount,
    /// Line 21: Total nonrefundable credits
    pub line_21: UsdAmount,
    /// Line 22: Tax after nonrefundable credits
    pub line_22: UsdAmount,
    /// Line 23: Other taxes from Schedule 2
    pub line_23: UsdAmount,
    /// Line 24: Total tax
    pub line_24: UsdAmount,
    /// Line 25a: Federal income tax withheld from W-2
    pub line_25a: UsdAmount,
    /// Line 25b: Federal income tax withheld from 1099
    pub line_25b: UsdAmount,
    /// Line 25c: Other federal income tax withheld
    pub line_25c: UsdAmount,
    /// Line 25d: Total withholding
    pub line_25d: UsdAmount,
    /// Line 26: Estimated tax payments
    pub line_26: UsdAmount,
    /// Line 27a: Earned income credit (EIC)
    pub line_27a: UsdAmount,
    /// Line 28: Additional child tax credit
    pub line_28: UsdAmount,
    /// Line 29: American opportunity credit
    pub line_29: UsdAmount,
    /// Line 30: Reserved for future use
    pub line_30: UsdAmount,
    /// Line 31: Amount from Schedule 3, line 15
    pub line_31: UsdAmount,
    /// Line 32: Total other payments and refundable credits
    pub line_32: UsdAmount,
    /// Line 33: Total payments
    pub line_33: UsdAmount,
    /// Line 34: Overpayment
    pub line_34: UsdAmount,
    /// Line 35a: Amount to be refunded
    pub line_35a: UsdAmount,
    /// Line 36: Amount applied to estimated tax
    pub line_36: UsdAmount,
    /// Line 37: Amount you owe
    pub line_37: UsdAmount,
    /// Line 38: Estimated tax penalty
    pub line_38: UsdAmount,
}

/// Every money line of a freshly created form is zero.
pub open spec fn form_zeroed(f: Form1040) -> bool {
    &&& f.line_1a == zero_usd() && f.line_1b == zero_usd() && f.line_1c == zero_usd()
        && f.line_1d == zero_usd() && f.line_1e == zero_usd() && f.line_1f == zero_usd()
        && f.line_1g == zero_usd() && f.line_1h == zero_usd() && f.line_1i == zero_usd()
        && f.line_1z == zero_usd()
    &&& f.line_2a == zero_usd() && f.line_2b == zero_usd() && f.line_3a == zero_usd()
        && f.line_3b == zero_usd() && f.line_4a == zero_usd() && f.line_4b == zero_usd()
        && f.line_5a == zero_usd() && f.line_5b == zero_usd() && f.line_6a == zero_usd()
        && f.line_6b == zero_usd() && f.line_7 == zero_usd() && f.line_8 == zero_usd()
        && f.line_9 == zero_usd()
    &&& f.line_10 == zero_usd() && f.line_11 == zero_usd() && f.line_12 == zero_usd()
        && f.line_13a == zero_usd() && f.line_13b == zero_usd() && f.line_14 == zero_usd()
        && f.line_15 == zero_usd() && f.line_16 == zero_usd() && f.line_17 == zero_usd()
        && f.line_18 == zero_usd() && f.line_19 == zero_usd() && f.line_20 == zero_usd()
        && f.line_21 == zero_usd() && f.line_22 == zero_usd() && f.line_23 == zero_usd()
        && f.line_24 == zero_usd()
    &&& f.line_25a == zero_usd() && f.line_25b == zero_usd() && f.line_25c == zero_usd()
        && f.line_25d == zero_usd() && f.line_26 == zero_usd() && f.line_27a == zero_usd()
        && f.line_28 == zero_usd() && f.line_29 == zero_usd() && f.line_30 == zero_usd()
        && f.line_31 == zero_usd() && f.line_32 == zero_usd() && f.line_33 == zero_usd()
        && f.line_34 == zero_usd() && f.line_35a == zero_usd() && f.line_36 == zero_usd()
        && f.line_37 == zero_usd() && f.line_38 == zero_usd()
}

impl Form1040 {
    /// Creates a new empty Form 1040 for the given tax year: every money
    /// line zero, the standard deduction box checked.
    pub fn new(tax_year: TaxYear) -> (r: Form1040)
        ensures
            r.tax_year == tax_year,
            r.line_12_standard_deduction == true,
            form_zeroed(r),
    {
        let z = UsdAmount::zero();
        Form1040 {
            tax_year,
            line_1a: z,
            line_1b: z,
            line_1c: z,
            line_1d: z,
            line_1e: z,
            line_1f: z,
            line_1g: z,
            line_1h: z,
            line_1i: z,
            line_1z: z,
            line_2a: z,
            line_2b: z,
            line_3a: z,
            line_3b: z,
            line_4a: z,
            line_4b: z,
            line_5a: z,
            line_5b: z,
            line_6a: z,
            line_6b: z,
            line_7: z,
            line_8: z,
            line_9: z,
            line_10: z,
            line_11: z,
            line_12: z,
            line_12_standard_deduction: true,
            line_13a: z,
            line_13b: z,
            line_14: z,
            line_15: z,
            line_16: z,
            line_17: z,
            line_18: z,
            line_19: z,
            line_20: z,
            line_21: z,
            line_22: z,
            line_23: z,
            line_24: z,
            line_25a: z,
            line_25b: z,
            line_25c: z,
            line_25d: z,
            line_26: z,
            line_27a: z,
            line_28: z,
            line_29: z,
            line_30: z,
            line_31: z,
            line_32: z,
            line_33: z,
            line_34: z,
            line_35a: z,
            line_36: z,
            line_37: z,
            line_38: z,
        }
    }

    /// Calculates line 1z: total wages, the sum of lines 1a through 1h.
    pub fn calculate_line_1z(&mut self)
        requires
            old(self).line_1a.wf(),
            old(self).line_1b.wf(),
            old(self).line_1c.wf(),
            old(self).line_1d.wf(),
            old(self).line_1e.wf(),
            old(self).line_1f.wf(),
            old(self).line_1g.wf(),
            old(self).line_1h.wf(),
            forall|k: int|
                2 <= k <= 8 ==> -usd_bound() <= #[trigger] wage_prefix_sum(*old(self), k)
                    <= usd_bound(),
        ensures
            final(self).line_1z@ == old(self).line_1a@ + old(self).line_1b@ + old(self).line_1c@
                + old(self).line_1d@ + old(self).line_1e@ + old(self).line_1f@ + old(
                self,
            ).line_1g@ + old(self).line_1h@,
            final(self).line_1z.wf(),
            *final(self) == (Form1040 { line_1z: final(self).line_1z, ..*old(self) }),
    {
        proof {
            assert(wage_prefix_sum(*old(self), 2) == old(self).line_1a@ + old(self).line_1b@);
            assert(wage_prefix_sum(*old(self), 3) == wage_prefix_sum(*old(self), 2) + old(
                self,
            ).line_1c@);
            assert(wage_prefix_sum(*old(self), 4) == wage_prefix_sum(*old(self), 3) + old(
                self,
            ).line_1d@);
            assert(wage_prefix_sum(*old(self), 5) == wage_prefix_sum(*old(self), 4) + old(
                self,
            ).line_1e@);
            assert(wage_prefix_sum(*old(self), 6) == wage_prefix_sum(*old(self), 5) + old(
                self,
            ).line_1f@);
            assert(wage_prefix_sum(*old(self), 7) == wage_prefix_sum(*old(self), 6) + old(
                self,
            ).line_1g@);
            assert(wage_prefix_sum(*old(self), 8) == wage_prefix_sum(*old(self), 7) + old(
                self,
            ).line_1h@);
        }
        self.line_1z = self.line_1a.add(&self.line_1b).add(&self.line_1c).add(&self.line_1d).add(
            &self.line_1e,
        ).add(&self.line_1f).add(&self.line_1g).add(&self.line_1h);
    }

    /// Calculates line 9: total income, the sum of lines 1z, 2b, 3b, 4b,
    /// 5b, 6b, 7 and 8.
    pub fn calculate_line_9(&mut self)
        requires
            old(self).line_1z.wf(),
            old(self).line_2b.wf(),
            old(self).line_3b.wf(),
            old(self).line_4b.wf(),
            old(self).line_5b.wf(),
            old(self).line_6b.wf(),
            old(self).line_7.wf(),
            old(self).line_8.wf(),
            forall|k: int|
                2 <= k <= 8 ==> -usd_bound() <= #[trigger] income_prefix_sum(*old(self), k)
                    <= usd_bound(),
        ensures
            final(self).line_9@ == old(self).line_1z@ + old(self).line_2b@ + old(self).line_3b@
                + old(self).line_4b@ + old(self).line_5b@ + old(self).line_6b@ + old(self).line_7@
                + old(self).line_8@,
            final(self).line_9.wf(),
            *final(self) == (Form1040 { line_9: final(self).line_9, ..*old(self) }),
    {
        proof {
            assert(income_prefix_sum(*old(self), 2) == old(self).line_1z@ + old(self).line_2b@);
            assert(income_prefix_sum(*old(self), 3) == income_prefix_sum(*old(self), 2) + old(
                self,
            ).line_3b@);
            assert(income_prefix_sum(*old(self), 4) == income_prefix_sum(*old(self), 3) + old(
                self,
            ).line_4b@);
            assert(income_prefix_sum(*old(self), 5) == income_prefix_sum(*old(self), 4) + old(
                self,
            ).line_5b@);
            assert(income_prefix_sum(*old(self), 6) == income_prefix_sum(*old(self), 5) + old(
                self,
            ).line_6b@);
            assert(income_prefix_sum(*old(self), 7) == income_prefix_sum(*old(self), 6) + old(
                self,
            ).line_7@);
            assert(income_prefix_sum(*old(self), 8) == income_prefix_sum(*old(self), 7) + old(
                self,
            ).line_8@);
        }
        self.line_9 = self.line_1z.add(&self.line_2b).add(&self.line_3b).add(&self.line_4b).add(
            &self.line_5b,
        ).add(&self.line_6b).add(&self.line_7).add(&self.line_8);
    }

    /// Calculates line 11: adjusted gross income, line 9 less line 10.
    ///
    /// This line deliberately floors at zero, like the taxable-income step:
    /// the form does not represent a negative AGI from net losses, and a
    /// caller that needs one must carry it outside this form.
    pub fn calculate_line_11(&mut self)
        requires
            old(self).line_9.wf(),
            old(self).line_10.wf(),
            old(self).line_9@ - old(self).line_10@ <= usd_bound(),
        ensures
            final(self).line_11@ == if old(self).line_9@ >= old(self).line_10@ {
                old(self).line_9@ - old(self).line_10@
            } else {
                0
            },
            final(self).line_11.wf(),
            *final(self) == (Form1040 { line_11: final(self).line_11, ..*old(self) }),
    {
        self.line_11 = self.line_9.saturating_sub(&self.line_10);
    }

    /// Calculates line 14: total deductions, the sum of lines 12, 13a
    /// and 13b.
    pub fn calculate_line_14(&mut self)
        requires
            old(self).line_12.wf(),
            old(self).line_13a.wf(),
            old(self).line_13b.wf(),
            -usd_bound() <= old(self).line_12@ + old(self).line_13a@ <= usd_bound(),
            -usd_bound() <= old(self).line_12@ + old(self).line_13a@ + old(self).line_13b@
                <= usd_bound(),
        ensures
            final(self).line_14@ == old(self).line_12@ + old(self).line_13a@ + old(
                self,
            ).line_13b@,
            final(self).line_14.wf(),
            *final(self) == (Form1040 { line_14: final(self).line_14, ..*old(self) }),
    {
        self.line_14 = self.line_12.add(&self.line_13a).add(&self.line_13b);
    }

    /// Calculates line 15: taxable income, line 11 less line 14, floored at
    /// zero.
    pub fn calculate_line_15(&mut self)
        requires
            old(self).line_11.wf(),
            old(self).line_14.wf(),
            old(self).line_11@ - old(self).line_14@ <= usd_bound(),
        ensures
            final(self).line_15@ == if old(self).line_11@ >= old(self).line_14@ {
                old(self).line_11@ - old(self).line_14@
            } else {
                0
            },
            final(self).line_15.wf(),
            *final(self) == (Form1040 { line_15: final(self).line_15, ..*old(self) }),
    {
        self.line_15 = self.line_11.saturating_sub(&self.line_14);
    }

    /// Calculates line 18: total tax before credits, line 16 plus line 17.
    pub fn calculate_line_18(&mut self)
        requires
            old(self).line_16.wf(),
            old(self).line_17.wf(),
            -usd_bound() <= old(self).line_16@ + old(self).line_17@ <= usd_bound(),
        ensures
            final(self).line_18@ == old(self).line_16@ + old(self).line_17@,
            final(self).line_18.wf(),
            *final(self) == (Form1040 { line_18: final(self).line_18, ..*old(self) }),
    {
        self.line_18 = self.line_16.add(&self.line_17);
    }

    /// Calculates line 21: total nonrefundable credits, line 19 plus
    /// line 20.
    pub fn calculate_line_21(&mut self)
        requires
            old(self).line_19.wf(),
            old(self).line_20.wf(),
            -usd_bound() <= old(self).line_19@ + old(self).line_20@ <= usd_bound(),
        ensures
            final(self).line_21@ == old(self).line_19@ + old(self).line_20@,
            final(self).line_21.wf(),
            *final(self) == (Form1040 { line_21: final(self).line_21, ..*old(self) }),
    {
        self.line_21 = self.line_19.add(&self.line_20);
    }

    /// Calculates line 22: tax after nonrefundable credits, line 18 less
    /// line 21, floored at zero.
    pub fn calculate_line_22(&mut self)
        requires
            old(self).line_18.wf(),
            old(self).line_21.wf(),
            old(self).line_18@ - old(self).line_21@ <= usd_bound(),
        ensures
            final(self).line_22@ == if old(self).line_18@ >= old(self).line_21@ {
                old(self).line_18@ - old(self).line_21@
            } else {
                0
            },
            final(self).line_22.wf(),
            *final(self) == (Form1040 { line_22: final(self).line_22, ..*old(self) }),
    {
        self.line_22 = self.line_18.saturating_sub(&self.line_21);
    }

    /// Calculates line 24: total tax, line 22 plus line 23.
    pub fn calculate_line_24(&mut self)
        requires
            old(self).line_22.wf(),
            old(self).line_23.wf(),
            -usd_bound() <= old(self).line_22@ + old(self).line_23@ <= usd_bound(),
        ensures
            final(self).line_24@ == old(self).line_22@ + old(self).line_23@,
            final(self).line_24.wf(),
            *final(self) == (Form1040 { line_24: final(self).line_24, ..*old(self) }),
    {
        self.line_24 = self.line_22.add(&self.line_23);
    }

    /// Calculates line 25d: total withholding, the sum of lines 25a, 25b
    /// and 25c.
    pub fn calculate_line_25d(&mut self)
        requires
            old(self).line_25a.wf(),
            old(self).line_25b.wf(),
            old(self).line_25c.wf(),
            -usd_bound() <= old(self).line_25a@ + old(self).line_25b@ <= usd_bound(),
            -usd_bound() <= old(self).line_25a@ + old(self).line_25b@ + old(self).line_25c@
                <= usd_bound(),
        ensures
            final(self).line_25d@ == old(self).line_25a@ + old(self).line_25b@ + old(
                self,
            ).line_25c@,
            final(self).line_25d.wf(),
            *final(self) == (Form1040 { line_25d: final(self).line_25d, ..*old(self) }),
    {
        self.line_25d = self.line_25a.add(&self.line_25b).add(&self.line_25c);
    }

    /// Calculates line 32: total other payments and refundable credits, the
    /// sum of lines 27a, 28, 29, 30 and 31.
    pub fn calculate_line_32(&mut self)
        requires
            old(self).line_27a.wf(),
            old(self).line_28.wf(),
            old(self).line_29.wf(),
            old(self).line_30.wf(),
            old(self).line_31.wf(),
            -usd_bound() <= old(self).line_27a@ + old(self).line_28@ <= usd_bound(),
            -usd_bound() <= old(self).line_27a@ + old(self).line_28@ + old(self).line_29@
                <= usd_bound(),
            -usd_bound() <= old(self).line_27a@ + old(self).line_28@ + old(self).line_29@ + old(
                self,
            ).line_30@ <= usd_bound(),
            -usd_bound() <= old(self).line_27a@ + old(self).line_28@ + old(self).line_29@ + old(
                self,
            ).line_30@ + old(self).line_31@ <= usd_bound(),
        ensures
            final(self).line_32@ == old(self).line_27a@ + old(self).line_28@ + old(self).line_29@
                + old(self).line_30@ + old(self).line_31@,
            final(self).line_32.wf(),
            *final(self) == (Form1040 { line_32: final(self).line_32, ..*old(self) }),
    {
        self.line_32 = self.line_27a.add(&self.line_28).add(&self.line_29).add(&self.line_30).add(
            &self.line_31,
        );
    }

    /// Calculates line 33: total payments, the sum of lines 25d, 26 and 32.
    pub fn calculate_line_33(&mut self)
        requires
            old(self).line_25d.wf(),
            old(self).line_26.wf(),
            old(self).line_32.wf(),
            -usd_bound() <= old(self).line_25d@ + old(self).line_26@ <= usd_bound(),
            -usd_bound() <= old(self).line_25d@ + old(self).line_26@ + old(self).line_32@
                <= usd_bound(),
        ensures
            final(self).line_33@ == old(self).line_25d@ + old(self).line_26@ + old(
                self,
            ).line_32@,
            final(self).line_33.wf(),
            *final(self) == (Form1040 { line_33: final(self).line_33, ..*old(self) }),
    {
        self.line_33 = self.line_25d.add(&self.line_26).add(&self.line_32);
    }

    /// Calculates lines 34, 35a and 37: if payments exceed the total tax,
    /// the overpayment and refund are set and nothing is owed; otherwise the
    /// amount owed is the shortfall plus any estimated-tax penalty.
    pub fn calculate_refund_or_owed(&mut self)
        requires
            old(self).line_24.wf(),
            old(self).line_33.wf(),
            old(self).line_36.wf(),
            old(self).line_38.wf(),
            -usd_bound() <= old(self).line_33@ - old(self).line_24@ <= usd_bound(),
            -usd_bound() <= old(self).line_33@ - old(self).line_24@ - old(self).line_36@
                <= usd_bound(),
            -usd_bound() <= old(self).line_24@ - old(self).line_33@ + old(self).line_38@
                <= usd_bound(),
        ensures
            old(self).line_33@ > old(self).line_24@ ==> {
                &&& final(self).line_34@ == old(self).line_33@ - old(self).line_24@
                &&& final(self).line_35a@ == old(self).line_33@ - old(self).line_24@ - old(
                    self,
                ).line_36@
                &&& final(self).line_37@ == 0
            },
            old(self).line_33@ <= old(self).line_24@ ==> {
                &&& final(self).line_34@ == 0
                &&& final(self).line_35a@ == 0
                &&& final(self).line_37@ == old(self).line_24@ - old(self).line_33@ + old(
                    self,
                ).line_38@
            },
            final(self).line_34.wf(),
            final(self).line_35a.wf(),
            final(self).line_37.wf(),
            *final(self) == (Form1040 {
                line_34: final(self).line_34,
                line_35a: final(self).line_35a,
                line_37: final(self).line_37,
                ..*old(self)
            }),
    {
        if self.line_33.gt(&self.line_24) {
            self.line_34 = self.line_33.sub(&self.line_24);
            self.line_35a = self.line_34.sub(&self.line_36);
            self.line_37 = UsdAmount::zero();
        } else {
            self.line_34 = UsdAmount::zero();
            self.line_35a = UsdAmount::zero();
            self.line_37 = self.line_24.sub(&self.line_33).add(&self.line_38);
        }
    }

    /// Returns true if the taxpayer is getting a refund.
    pub fn is_refund(&self) -> (r: bool)
        requires
            self.line_34.wf(),
        ensures
            r == (self.line_34@ > 0),
    {
        self.line_34.is_positive()
    }

    /// Returns the refund amount (positive) or the amount owed (negative).
    pub fn net_result(&self) -> (r: UsdAmount)
        requires
            self.line_34.wf(),
            self.line_35a.wf(),
            self.line_37.wf(),
        ensures
            r@ == if self.line_34@ > 0 {
                self.line_35a@
            } else {
                -self.line_37@
            },
            r.wf(),
    {
        if self.is_refund() {
            self.line_35a
        } else {
            UsdAmount::zero().sub(&self.line_37)
        }
    }
}

/// The sum of the first `k` of lines 1a through 1h (for the line 1z total).
pub open spec fn wage_prefix_sum(f: Form1040, k: int) -> int {
    (if k >= 1 {
        f.line_1a@
    } else {
        0
    }) + (if k >= 2 {
        f.line_1b@
    } else {
        0
    }) + (if k >= 3 {
        f.line_1c@
    } else {
        0
    }) + (if k >= 4 {
        f.line_1d@
    } else {
        0
    }) + (if k >= 5 {
        f.line_1e@
    } else {
        0
    }) + (if k >= 6 {
        f.line_1f@
    } else {
        0
    }) + (if k >= 7 {
        f.line_1g@
    } else {
        0
    }) + (if k >= 8 {
        f.line_1h@
    } else {
        0
    })
}

/// The sum of the first `k` of the income components of line 9.
pub open spec fn income_prefix_sum(f: Form1040, k: int) -> int {
    (if k >= 1 {
        f.line_1z@
    } else {
        0
    }) + (if k >= 2 {
        f.line_2b@
    } else {
        0
    }) + (if k >= 3 {
        f.line_3b@
    } else {
        0
    }) + (if k >= 4 {
        f.line_4b@
    } else {
        0
    }) + (if k >= 5 {
        f.line_5b@
    } else {
        0
    }) + (if k >= 6 {
        f.line_6b@
    } else {
        0
    }) + (if k >= 7 {
        f.line_7@
    } else {
        0
    }) + (if k >= 8 {
        f.line_8@
    } else {
        0
    })
}

/// Appends a reporting entry with the given identifier, label and value.
fn push_line(out: &mut Vec<FormLine>, line_id: &str, label: &str, value: FormValue)
    ensures
        final(out)@.len() == old(out)@.len() + 1,
        forall|i: int| 0 <= i < old(out)@.len() ==> (#[trigger] final(out)@[i]) == old(out)@[i],
        final(out)@.last()@ == (line_id@, label@, value),
{
    let entry = FormLine { line_id: line_id.to_owned(), label: label.to_owned(), value };
    out.push(entry);
}

impl OutputForm for Form1040 {
    open spec fn spec_form_type(&self) -> OutputFormType {
        OutputFormType::Form1040
    }

    open spec fn spec_tax_year(&self) -> TaxYear {
        self.tax_year
    }

    /// The eighteen reporting entries, in form order.
    open spec fn spec_lines(&self) -> Seq<(Seq<char>, Seq<char>, FormValue)> {
        seq![
            ("1a"@, "Wages from W-2"@, FormValue::Currency(self.line_1a)),
            ("1z"@, "Total wages"@, FormValue::Currency(self.line_1z)),
            ("2b"@, "Taxable interest"@, FormValue::Currency(self.line_2b)),
            ("3b"@, "Ordinary dividends"@, FormValue::Currency(self.line_3b)),
            ("9"@, "Total income"@, FormValue::Currency(self.line_9)),
            ("10"@, "Adjustments to income"@, FormValue::Currency(self.line_10)),
            ("11"@, "Adjusted gross income"@, FormValue::Currency(self.line_11)),
            ("12"@, "Standard/itemized deduction"@, FormValue::Currency(self.line_12)),
            ("14"@, "Total deductions"@, FormValue::Currency(self.line_14)),
            ("15"@, "Taxable income"@, FormValue::Currency(self.line_15)),
            ("16"@, "Tax"@, FormValue::Currency(self.line_16)),
            ("19"@, "Child tax credit"@, FormValue::Currency(self.line_19)),
            ("24"@, "Total tax"@, FormValue::Currency(self.line_24)),
            ("25d"@, "Total withholding"@, FormValue::Currency(self.line_25d)),
            ("33"@, "Total payments"@, FormValue::Currency(self.line_33)),
            ("34"@, "Overpayment"@, FormValue::Currency(self.line_34)),
            ("35a"@, "Refund"@, FormValue::Currency(self.line_35a)),
            ("37"@, "Amount owed"@, FormValue::Currency(self.line_37)),
        ]
    }

    open spec fn spec_line(&self, line_id: Seq<char>) -> Option<FormValue> {
        if line_id == "1a"@ {
            Some(FormValue::Currency(self.line_1a))
        } else if line_id == "1b"@ {
            Some(FormValue::Currency(self.line_1b))
        } else if line_id == "1c"@ {
            Some(FormValue::Currency(self.line_1c))
        } else if line_id == "1d"@ {
            Some(FormValue::Currency(self.line_1d))
        } else if line_id == "1e"@ {
            Some(FormValue::Currency(self.line_1e))
        } else if line_id == "1f"@ {
            Some(FormValue::Currency(self.line_1f))
        } else if line_id == "1g"@ {
            Some(FormValue::Currency(self.line_1g))
        } else if line_id == "1h"@ {
            Some(FormValue::Currency(self.line_1h))
        } else if line_id == "1i"@ {
            Some(FormValue::Currency(self.line_1i))
        } else if line_id == "1z"@ {
            Some(FormValue::Currency(self.line_1z))
        } else if line_id == "2a"@ {
            Some(FormValue::Currency(self.line_2a))
        } else if line_id == "2b"@ {
            Some(FormValue::Currency(self.line_2b))
        } else if line_id == "3a"@ {
            Some(FormValue::Currency(self.line_3a))
        } else if line_id == "3b"@ {
            Some(FormValue::Currency(self.line_3b))
        } else if line_id == "4a"@ {
            Some(FormValue::Currency(self.line_4a))
        } else if line_id == "4b"@ {
            Some(FormValue::Currency(self.line_4b))
        } else if line_id == "5a"@ {
            Some(FormValue::Currency(self.line_5a))
        } else if line_id == "5b"@ {
            Some(FormValue::Currency(self.line_5b))
        } else if line_id == "6a"@ {
            Some(FormValue::Currency(self.line_6a))
        } else if line_id == "6b"@ {
            Some(FormValue::Currency(self.line_6b))
        } else if line_id == "7"@ {
            Some(FormValue::Currency(self.line_7))
        } else if line_id == "8"@ {
            Some(FormValue::Currency(self.line_8))
        } else if line_id == "9"@ {
            Some(FormValue::Currency(self.line_9))
        } else if line_id == "10"@ {
            Some(FormValue::Currency(self.line_10))
        } else if line_id == "11"@ {
            Some(FormValue::Currency(self.line_11))
        } else if line_id == "12"@ {
            Some(FormValue::Currency(self.line_12))
        } else if line_id == "13a"@ {
            Some(FormValue::Currency(self.line_13a))
        } else if line_id == "13b"@ {
            Some(FormValue::Currency(self.line_13b))
        } else if line_id == "14"@ {
            Some(FormValue::Currency(self.line_14))
        } else if line_id == "15"@ {
            Some(FormValue::Currency(self.line_15))
        } else if line_id == "16"@ {
            Some(FormValue::Currency(self.line_16))
        } else if line_id == "17"@ {
            Some(FormValue::Currency(self.line_17))
        } else if line_id == "18"@ {
            Some(FormValue::Currency(self.line_18))
        } else if line_id == "19"@ {
            Some(FormValue::Currency(self.line_19))
        } else if line_id == "20"@ {
            Some(FormValue::Currency(self.line_20))
        } else if line_id == "21"@ {
            Some(FormValue::Currency(self.line_21))
        } else if line_id == "22"@ {
            Some(FormValue::Currency(self.line_22))
        } else if line_id == "23"@ {
            Some(FormValue::Currency(self.line_23))
        } else if line_id == "24"@ {
            Some(FormValue::Currency(self.line_24))
        } else if line_id == "25a"@ {
            Some(FormValue::Currency(self.line_25a))
        } else if line_id == "25b"@ {
            Some(FormValue::Currency(self.line_25b))
        } else if line_id == "25c"@ {
            Some(FormValue::Currency(self.line_25c))
        } else if line_id == "25d"@ {
            Some(FormValue::Currency(self.line_25d))
        } else if line_id == "26"@ {
            Some(FormValue::Currency(self.line_26))
        } else if line_id == "27a"@ {
            Some(FormValue::Currency(self.line_27a))
        } else if line_id == "28"@ {
            Some(FormValue::Currency(self.line_28))
        } else if line_id == "29"@ {
            Some(FormValue::Currency(self.line_29))
        } else if line_id == "30"@ {
            Some(FormValue::Currency(self.line_30))
        } else if line_id == "31"@ {
            Some(FormValue::Currency(self.line_31))
        } else if line_id == "32"@ {
            Some(FormValue::Currency(self.line_32))
        } else if line_id == "33"@ {
            Some(FormValue::Currency(self.line_33))
        } else if line_id == "34"@ {
            Some(FormValue::Currency(self.line_34))
        } else if line_id == "35a"@ {
            Some(FormValue::Currency(self.line_35a))
        } else if line_id == "36"@ {
            Some(FormValue::Currency(self.line_36))
        } else if line_id == "37"@ {
            Some(FormValue::Currency(self.line_37))
        } else if line_id == "38"@ {
            Some(FormValue::Currency(self.line_38))
        } else {
            None
        }
    }

    fn form_type(&self) -> (r: OutputFormType) {
        OutputFormType::Form1040
    }

    fn tax_year(&self) -> (r: TaxYear) {
        self.tax_year
    }

    fn line(&self, line_id: &str) -> (r: Option<FormValue>) {
        if str_eq(line_id, "1a") {
            Some(FormValue::Currency(self.line_1a))
        } else if str_eq(line_id, "1b") {
            Some(FormValue::Currency(self.line_1b))
        } else if str_eq(line_id, "1c") {
            Some(FormValue::Currency(self.line_1c))
        } else if str_eq(line_id, "1d") {
            Some(FormValue::Currency(self.line_1d))
        } else if str_eq(line_id, "1e") {
            Some(FormValue::Currency(self.line_1e))
        } else if str_eq(line_id, "1f") {
            Some(FormValue::Currency(self.line_1f))
        } else if str_eq(line_id, "1g") {
            Some(FormValue::Currency(self.line_1g))
        } else if str_eq(line_id, "1h") {
            Some(FormValue::Currency(self.line_1h))
        } else if str_eq(line_id, "1i") {
            Some(FormValue::Currency(self.line_1i))
        } else if str_eq(line_id, "1z") {
            Some(FormValue::Currency(self.line_1z))
        } else if str_eq(line_id, "2a") {
            Some(FormValue::Currency(self.line_2a))
        } else if str_eq(line_id, "2b") {
            Some(FormValue::Currency(self.line_2b))
        } else if str_eq(line_id, "3a") {
            Some(FormValue::Currency(self.line_3a))
        } else if str_eq(line_id, "3b") {
            Some(FormValue::Currency(self.line_3b))
        } else if str_eq(line_id, "4a") {
            Some(FormValue::Currency(self.line_4a))
        } else if str_eq(line_id, "4b") {
            Some(FormValue::Currency(self.line_4b))
        } else if str_eq(line_id, "5a") {
            Some(FormValue::Currency(self.line_5a))
        } else if str_eq(line_id, "5b") {
            Some(FormValue::Currency(self.line_5b))
        } else if str_eq(line_id, "6a") {
            Some(FormValue::Currency(self.line_6a))
        } else if str_eq(line_id, "6b") {
            Some(FormValue::Currency(self.line_6b))
        } else if str_eq(line_id, "7") {
            Some(FormValue::Currency(self.line_7))
        } else if str_eq(line_id, "8") {
            Some(FormValue::Currency(self.line_8))
        } else if str_eq(line_id, "9") {
            Some(FormValue::Currency(self.line_9))
        } else if str_eq(line_id, "10") {
            Some(FormValue::Currency(self.line_10))
        } else if str_eq(line_id, "11") {
            Some(FormValue::Currency(self.line_11))
        } else if str_eq(line_id, "12") {
            Some(FormValue::Currency(self.line_12))
        } else if str_eq(line_id, "13a") {
            Some(FormValue::Currency(self.line_13a))
        } else if str_eq(line_id, "13b") {
            Some(FormValue::Currency(self.line_13b))
        } else if str_eq(line_id, "14") {
            Some(FormValue::Currency(self.line_14))
        } else if str_eq(line_id, "15") {
            Some(FormValue::Currency(self.line_15))
        } else if str_eq(line_id, "16") {
            Some(FormValue::Currency(self.line_16))
        } else if str_eq(line_id, "17") {
            Some(FormValue::Currency(self.line_17))
        } else if str_eq(line_id, "18") {
            Some(FormValue::Currency(self.line_18))
        } else if str_eq(line_id, "19") {
            Some(FormValue::Currency(self.line_19))
        } else if str_eq(line_id, "20") {
            Some(FormValue::Currency(self.line_20))
        } else if str_eq(line_id, "21") {
            Some(FormValue::Currency(self.line_21))
        } else if str_eq(line_id, "22") {
            Some(FormValue::Currency(self.line_22))
        } else if str_eq(line_id, "23") {
            Some(FormValue::Currency(self.line_23))
        } else if str_eq(line_id, "24") {
            Some(FormValue::Currency(self.line_24))
        } else if str_eq(line_id, "25a") {
            Some(FormValue::Currency(self.line_25a))
        } else if str_eq(line_id, "25b") {
            Some(FormValue::Currency(self.line_25b))
        } else if str_eq(line_id, "25c") {
            Some(FormValue::Currency(self.line_25c))
        } else if str_eq(line_id, "25d") {
            Some(FormValue::Currency(self.line_25d))
        } else if str_eq(line_id, "26") {
            Some(FormValue::Currency(self.line_26))
        } else if str_eq(line_id, "27a") {
            Some(FormValue::Currency(self.line_27a))
        } else if str_eq(line_id, "28") {
            Some(FormValue::Currency(self.line_28))
        } else if str_eq(line_id, "29") {
            Some(FormValue::Currency(self.line_29))
        } else if str_eq(line_id, "30") {
            Some(FormValue::Currency(self.line_30))
        } else if str_eq(line_id, "31") {
            Some(FormValue::Currency(self.line_31))
        } else if str_eq(line_id, "32") {
            Some(FormValue::Currency(self.line_32))
        } else if str_eq(line_id, "33") {
            Some(FormValue::Currency(self.line_33))
        } else if str_eq(line_id, "34") {
            Some(FormValue::Currency(self.line_34))
        } else if str_eq(line_id, "35a") {
            Some(FormValue::Currency(self.line_35a))
        } else if str_eq(line_id, "36") {
            Some(FormValue::Currency(self.line_36))
        } else if str_eq(line_id, "37") {
            Some(FormValue::Currency(self.line_37))
        } else if str_eq(line_id, "38") {
            Some(FormValue::Currency(self.line_38))
        } else {
            None
        }
    }

    fn lines(&self) -> (r: Vec<FormLine>) {
        let mut out: Vec<FormLine> = Vec::new();
        push_line(&mut out, "1a", "Wages from W-2", FormValue::Currency(self.line_1a));
        push_line(&mut out, "1z", "Total wages", FormValue::Currency(self.line_1z));
        push_line(&mut out, "2b", "Taxable interest", FormValue::Currency(self.line_2b));
        push_line(&mut out, "3b", "Ordinary dividends", FormValue::Currency(self.line_3b));
        push_line(&mut out, "9", "Total income", FormValue::Currency(self.line_9));
        push_line(&mut out, "10", "Adjustments to income", FormValue::Currency(self.line_10));
        push_line(&mut out, "11", "Adjusted gross income", FormValue::Currency(self.line_11));
        push_line(
            &mut out,
            "12",
            "Standard/itemized deduction",
            FormValue::Currency(self.line_12),
        );
        push_line(&mut out, "14", "Total deductions", FormValue::Currency(self.line_14));
        push_line(&mut out, "15", "Taxable income", FormValue::Currency(self.line_15));
        push_line(&mut out, "16", "Tax", FormValue::Currency(self.line_16));
        push_line(&mut out, "19", "Child tax credit", FormValue::Currency(self.line_19));
        push_line(&mut out, "24", "Total tax", FormValue::Currency(self.line_24));
        push_line(&mut out, "25d", "Total withholding", FormValue::Currency(self.line_25d));
        push_line(&mut out, "33", "Total payments", FormValue::Currency(self.line_33));
        push_line(&mut out, "34", "Overpayment", FormValue::Currency(self.line_34));
        push_line(&mut out, "35a", "Refund", FormValue::Currency(self.line_35a));
        push_line(&mut out, "37", "Amount owed", FormValue::Currency(self.line_37));
        proof {
            assert forall|i: int| 0 <= i < out@.len() implies (#[trigger] out@[i])@
                == self.spec_lines()[i] by {
            }
        }
        out
    }
}

} // verus!
