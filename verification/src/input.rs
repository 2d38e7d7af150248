//! The input-form capability contract: every income document answers a
//! fixed set of income, withholding and identity questions, with "absent"
//! where the document type does not carry that concept; a collection of
//! documents answers aggregate sums, treating "absent" as zero.

use vstd::prelude::*;

use crate::types::{InputFormType, TaxYear};
use crate::usd_amount::UsdAmount;

verus! {

/// Whether a returned optional amount carries exactly the value (and only
/// when) the specification names.
pub open spec fn option_amount_matches(r: Option<UsdAmount>, v: Option<int>) -> bool {
    match r {
        Some(a) => v == Some(a@) && a.wf(),
        None => v is None,
    }
}

/// Whether a returned optional string carries exactly the characters (and
/// only when) the specification names.
pub open spec fn option_str_matches(r: Option<&str>, v: Option<Seq<char>>) -> bool {
    match r {
        Some(s) => v == Some(s@),
        None => v is None,
    }
}

/// The value of an optional amount, with "absent" counting as zero.
pub open spec fn opt_or_zero(v: Option<int>) -> int {
    match v {
        Some(x) => x,
        None => 0,
    }
}

/// Trait implemented by all input forms (wage statements, interest
/// statements, and so on).  Each executable accessor answers exactly what
/// its spec counterpart names, so the aggregation contracts can speak of the
/// figures a document exposes.
pub trait InputForm {
    /// Structural validity of the document's figures.
    spec fn inv(&self) -> bool;

    /// The form type identifier.
    spec fn spec_form_type(&self) -> InputFormType;

    /// The tax year the form is for.
    spec fn spec_tax_year(&self) -> TaxYear;

    /// The form instance identifier.
    spec fn spec_form_id(&self) -> Seq<char>;

    /// Wages, salaries, tips.
    spec fn spec_wages(&self) -> Option<int>;

    /// Taxable interest income.
    spec fn spec_taxable_interest(&self) -> Option<int>;

    /// Tax-exempt interest income.
    spec fn spec_tax_exempt_interest(&self) -> Option<int>;

    /// Ordinary dividends.
    spec fn spec_ordinary_dividends(&self) -> Option<int>;

    /// Qualified dividends.
    spec fn spec_qualified_dividends(&self) -> Option<int>;

    /// Capital gain distributions.
    spec fn spec_capital_gain_distributions(&self) -> Option<int>;

    /// IRA distributions, gross amount.
    spec fn spec_ira_distributions_gross(&self) -> Option<int>;

    /// IRA distributions, taxable amount.
    spec fn spec_ira_distributions_taxable(&self) -> Option<int>;

    /// Pension/annuity, gross amount.
    spec fn spec_pension_gross(&self) -> Option<int>;

    /// Pension/annuity, taxable amount.
    spec fn spec_pension_taxable(&self) -> Option<int>;

    /// Social Security benefits, gross amount.
    spec fn spec_social_security_gross(&self) -> Option<int>;

    /// Social Security benefits, taxable amount.
    spec fn spec_social_security_taxable(&self) -> Option<int>;

    /// Unemployment compensation.
    spec fn spec_unemployment_compensation(&self) -> Option<int>;

    /// State/local tax refund.
    spec fn spec_state_tax_refund(&self) -> Option<int>;

    /// Nonemployee compensation.
    spec fn spec_nonemployee_compensation(&self) -> Option<int>;

    /// Other income not categorized above.
    spec fn spec_other_income(&self) -> Option<int>;

    /// Federal income tax withheld.
    spec fn spec_federal_withholding(&self) -> Option<int>;

    /// State income tax withheld.
    spec fn spec_state_withholding(&self) -> Option<int>;

    /// Local income tax withheld.
    spec fn spec_local_withholding(&self) -> Option<int>;

    /// Social Security wages.
    spec fn spec_social_security_wages(&self) -> Option<int>;

    /// Social Security tax withheld.
    spec fn spec_social_security_tax_withheld(&self) -> Option<int>;

    /// Medicare wages.
    spec fn spec_medicare_wages(&self) -> Option<int>;

    /// Medicare tax withheld.
    spec fn spec_medicare_tax_withheld(&self) -> Option<int>;

    /// Mortgage interest paid.
    spec fn spec_mortgage_interest(&self) -> Option<int>;

    /// Mortgage points paid.
    spec fn spec_mortgage_points(&self) -> Option<int>;

    /// Student loan interest paid.
    spec fn spec_student_loan_interest(&self) -> Option<int>;

    /// Tuition and fees paid.
    spec fn spec_tuition_paid(&self) -> Option<int>;

    /// Employer Identification Number.
    spec fn spec_employer_ein(&self) -> Option<Seq<char>>;

    /// Employer name.
    spec fn spec_employer_name(&self) -> Option<Seq<char>>;

    /// Payer name (for non-wage documents).
    spec fn spec_payer_name(&self) -> Option<Seq<char>>;

    /// Payer TIN (for non-wage documents).
    spec fn spec_payer_tin(&self) -> Option<Seq<char>>;

    /// Returns the form type identifier.
    fn form_type(&self) -> (r: InputFormType)
        ensures
            r == self.spec_form_type(),
    ;

    /// Returns the tax year this form is for.
    fn tax_year(&self) -> (r: TaxYear)
        ensures
            r == self.spec_tax_year(),
    ;

    /// Returns a unique identifier for this form instance.
    fn form_id(&self) -> (r: &str)
        ensures
            r@ == self.spec_form_id(),
    ;

    /// Wages, salaries, tips.
    fn wages(&self) -> (r: Option<UsdAmount>)
        requires
            self.inv(),
        ensures
            option_amount_matches(r, self.spec_wages()),
    ;

    /// Taxable interest income.
    fn taxable_interest(&self) -> (r: Option<UsdAmount>)
        requires
            self.inv(),
        ensures
            option_amount_matches(r, self.spec_taxable_interest()),
    ;

    /// Tax-exempt interest income.
    fn tax_exempt_interest(&self) -> (r: Option<UsdAmount>)
        requires
            self.inv(),
        ensures
            option_amount_matches(r, self.spec_tax_exempt_interest()),
    ;

    /// Ordinary dividends.
    fn ordinary_dividends(&self) -> (r: Option<UsdAmount>)
        requires
            self.inv(),
        ensures
            option_amount_matches(r, self.spec_ordinary_dividends()),
    ;

    /// Qualified dividends.
    fn qualified_dividends(&self) -> (r: Option<UsdAmount>)
        requires
            self.inv(),
        ensures
            option_amount_matches(r, self.spec_qualified_dividends()),
    ;

    /// Capital gain distributions.
    fn capital_gain_distributions(&self) -> (r: Option<UsdAmount>)
        requires
            self.inv(),
        ensures
            option_amount_matches(r, self.spec_capital_gain_distributions()),
    ;

    /// IRA distributions, gross amount.
    fn ira_distributions_gross(&self) -> (r: Option<UsdAmount>)
        requires
            self.inv(),
        ensures
            option_amount_matches(r, self.spec_ira_distributions_gross()),
    ;

    /// IRA distributions, taxable amount.
    fn ira_distributions_taxable(&self) -> (r: Option<UsdAmount>)
        requires
            self.inv(),
        ensures
            option_amount_matches(r, self.spec_ira_distributions_taxable()),
    ;

    /// Pension/annuity, gross amount.
    fn pension_gross(&self) -> (r: Option<UsdAmount>)
        requires
            self.inv(),
        ensures
            option_amount_matches(r, self.spec_pension_gross()),
    ;

    /// Pension/annuity, taxable amount.
    fn pension_taxable(&self) -> (r: Option<UsdAmount>)
        requires
            self.inv(),
        ensures
            option_amount_matches(r, self.spec_pension_taxable()),
    ;

    /// Social Security benefits, gross amount.
    fn social_security_gross(&self) -> (r: Option<UsdAmount>)
        requires
            self.inv(),
        ensures
            option_amount_matches(r, self.spec_social_security_gross()),
    ;

    /// Social Security benefits, taxable amount.
    fn social_security_taxable(&self) -> (r: Option<UsdAmount>)
        requires
            self.inv(),
        ensures
            option_amount_matches(r, self.spec_social_security_taxable()),
    ;

    /// Unemployment compensation.
    fn unemployment_compensation(&self) -> (r: Option<UsdAmount>)
        requires
            self.inv(),
        ensures
            option_amount_matches(r, self.spec_unemployment_compensation()),
    ;

    /// State/local tax refund.
    fn state_tax_refund(&self) -> (r: Option<UsdAmount>)
        requires
            self.inv(),
        ensures
            option_amount_matches(r, self.spec_state_tax_refund()),
    ;

    /// Nonemployee compensation.
    fn nonemployee_compensation(&self) -> (r: Option<UsdAmount>)
        requires
            self.inv(),
        ensures
            option_amount_matches(r, self.spec_nonemployee_compensation()),
    ;

    /// Other income not categorized above.
    fn other_income(&self) -> (r: Option<UsdAmount>)
        requires
            self.inv(),
        ensures
            option_amount_matches(r, self.spec_other_income()),
    ;

    /// Federal income tax withheld.
    fn federal_withholding(&self) -> (r: Option<UsdAmount>)
        requires
            self.inv(),
        ensures
            option_amount_matches(r, self.spec_federal_withholding()),
    ;

    /// State income tax withheld.
    fn state_withholding(&self) -> (r: Option<UsdAmount>)
        requires
            self.inv(),
        ensures
            option_amount_matches(r, self.spec_state_withholding()),
    ;

    /// Local income tax withheld.
    fn local_withholding(&self) -> (r: Option<UsdAmount>)
        requires
            self.inv(),
        ensures
            option_amount_matches(r, self.spec_local_withholding()),
    ;

    /// Social Security wages.
    fn social_security_wages(&self) -> (r: Option<UsdAmount>)
        requires
            self.inv(),
        ensures
            option_amount_matches(r, self.spec_social_security_wages()),
    ;

    /// Social Security tax withheld.
    fn social_security_tax_withheld(&self) -> (r: Option<UsdAmount>)
        requires
            self.inv(),
        ensures
            option_amount_matches(r, self.spec_social_security_tax_withheld()),
    ;

    /// Medicare wages.
    fn medicare_wages(&self) -> (r: Option<UsdAmount>)
        requires
            self.inv(),
        ensures
            option_amount_matches(r, self.spec_medicare_wages()),
    ;

    /// Medicare tax withheld.
    fn medicare_tax_withheld(&self) -> (r: Option<UsdAmount>)
        requires
            self.inv(),
        ensures
            option_amount_matches(r, self.spec_medicare_tax_withheld()),
    ;

    /// Mortgage interest paid.
    fn mortgage_interest(&self) -> (r: Option<UsdAmount>)
        requires
            self.inv(),
        ensures
            option_amount_matches(r, self.spec_mortgage_interest()),
    ;

    /// Mortgage points paid.
    fn mortgage_points(&self) -> (r: Option<UsdAmount>)
        requires
            self.inv(),
        ensures
            option_amount_matches(r, self.spec_mortgage_points()),
    ;

    /// Student loan interest paid.
    fn student_loan_interest(&self) -> (r: Option<UsdAmount>)
        requires
            self.inv(),
        ensures
            option_amount_matches(r, self.spec_student_loan_interest()),
    ;

    /// Tuition and fees paid.
    fn tuition_paid(&self) -> (r: Option<UsdAmount>)
        requires
            self.inv(),
        ensures
            option_amount_matches(r, self.spec_tuition_paid()),
    ;

    /// Employer Identification Number.
    fn employer_ein(&self) -> (r: Option<&str>)
        ensures
            option_str_matches(r, self.spec_employer_ein()),
    ;

    /// Employer name.
    fn employer_name(&self) -> (r: Option<&str>)
        ensures
            option_str_matches(r, self.spec_employer_name()),
    ;

    /// Payer name (for non-wage documents).
    fn payer_name(&self) -> (r: Option<&str>)
        ensures
            option_str_matches(r, self.spec_payer_name()),
    ;

    /// Payer TIN (for non-wage documents).
    fn payer_tin(&self) -> (r: Option<&str>)
        ensures
            option_str_matches(r, self.spec_payer_tin()),
    ;
}

/// Aggregate sums over a collection of input forms; a form that does not
/// carry a concept contributes zero to that concept's total.
pub trait InputFormCollection {
    /// Structural validity of the collection: every form valid and every
    /// running total within the currency bound.
    spec fn collection_inv(&self) -> bool;

    /// The total wages across all forms.
    spec fn spec_total_wages(&self) -> int;

    /// The total taxable interest across all forms.
    spec fn spec_total_taxable_interest(&self) -> int;

    /// The total ordinary dividends across all forms.
    spec fn spec_total_ordinary_dividends(&self) -> int;

    /// The total qualified dividends across all forms.
    spec fn spec_total_qualified_dividends(&self) -> int;

    /// The total federal withholding across all forms.
    spec fn spec_total_federal_withholding(&self) -> int;

    /// The total state withholding across all forms.
    spec fn spec_total_state_withholding(&self) -> int;

    /// Sums all wages across all input forms.
    fn total_wages(&self) -> (r: UsdAmount)
        requires
            self.collection_inv(),
        ensures
            r@ == self.spec_total_wages(),
            r.wf(),
    ;

    /// Sums all taxable interest across all input forms.
    fn total_taxable_interest(&self) -> (r: UsdAmount)
        requires
            self.collection_inv(),
        ensures
            r@ == self.spec_total_taxable_interest(),
            r.wf(),
    ;

    /// Sums all ordinary dividends across all input forms.
    fn total_ordinary_dividends(&self) -> (r: UsdAmount)
        requires
            self.collection_inv(),
        ensures
            r@ == self.spec_total_ordinary_dividends(),
            r.wf(),
    ;

    /// Sums all qualified dividends across all input forms.
    fn total_qualified_dividends(&self) -> (r: UsdAmount)
        requires
            self.collection_inv(),
        ensures
            r@ == self.spec_total_qualified_dividends(),
            r.wf(),
    ;

    /// Sums all federal withholding across all input forms.
    fn total_federal_withholding(&self) -> (r: UsdAmount)
        requires
            self.collection_inv(),
        ensures
            r@ == self.spec_total_federal_withholding(),
            r.wf(),
    ;

    /// Sums all state withholding across all input forms.
    fn total_state_withholding(&self) -> (r: UsdAmount)
        requires
            self.collection_inv(),
        ensures
            r@ == self.spec_total_state_withholding(),
            r.wf(),
    ;
}

} // verus!
