//! Form W-2: Wage and Tax Statement.
//!
//! Box numbers correspond to the official IRS W-2 form.  Validation checks
//! every field and accumulates every problem instead of stopping at the
//! first one.

use vstd::prelude::*;
use vstd::string::StrSliceExecFns;
use vstd::string::StringExecFns;

use crate::error::{
    error_messages, has_error_entry, joined_with_semicolons, lemma_error_entry_gives_message,
    lemma_error_messages_after_add, lemma_no_error_entry_no_messages, TaxError, TaxResult,
    ValidationError, ValidationErrors, ValidationSeverity,
};
use crate::input::{opt_or_zero, InputForm, InputFormCollection};
use crate::types::{all_digits, is_digit, InputFormType, TaxYear};
use crate::usd_amount::{
    lemma_sum_take_step, push_dec_digits, sum_values, usd_bound, UsdAmount,
};

verus! {

/// Box 12 code and amount.
#[derive(Debug, Clone)]
pub struct W2Box12 {
    /// The letter code (A-HH).
    pub code: String,
    /// The amount.
    pub amount: UsdAmount,
}

/// State tax information from a W-2 (boxes 15-17).
#[derive(Debug, Clone)]
pub struct W2StateInfo {
    /// Box 15: State abbreviation.
    pub state: String,
    /// Box 15: Employer's state ID number.
    pub employer_state_id: String,
    /// Box 16: State wages, tips, etc.
    pub state_wages: UsdAmount,
    /// Box 17: State income tax withheld.
    pub state_tax_withheld: UsdAmount,
}

/// Local tax information from a W-2 (boxes 18-20).
#[derive(Debug, Clone)]
pub struct W2LocalInfo {
    /// Box 18: Local wages, tips, etc.
    pub local_wages: UsdAmount,
    /// Box 19: Local income tax withheld.
    pub local_tax_withheld: UsdAmount,
    /// Box 20: Locality name.
    pub locality_name: String,
}

/// Form W-2: Wage and Tax Statement, as received from one employer.
#[derive(Debug, Clone)]
pub struct W2 {
    /// Unique identifier for this W-2 instance.
    pub id: String,
    /// Tax year this W-2 is for.
    pub tax_year: TaxYear,
    /// Box b: Employer Identification Number (EIN).
    pub employer_ein: String,
    /// Box c: Employer's name, address, and ZIP code.
    pub employer_name: String,
    /// Box a: Employee's Social Security Number.
    pub employee_ssn: String,
    /// Box e: Employee's first name and initial.
    pub employee_first_name: String,
    /// Box e: Employee's last name.
    pub employee_last_name: String,
    /// Box 1: Wages, tips, other compensation.
    pub box_1_wages: UsdAmount,
    /// Box 2: Federal income tax withheld.
    pub box_2_federal_tax_withheld: UsdAmount,
    /// Box 3: Social Security wages.
    pub box_3_social_security_wages: UsdAmount,
    /// Box 4: Social Security tax withheld.
    pub box_4_social_security_tax_withheld: UsdAmount,
    /// Box 5: Medicare wages and tips.
    pub box_5_medicare_wages: UsdAmount,
    /// Box 6: Medicare tax withheld.
    pub box_6_medicare_tax_withheld: UsdAmount,
    /// Box 7: Social Security tips.
    pub box_7_social_security_tips: UsdAmount,
    /// Box 8: Allocated tips.
    pub box_8_allocated_tips: UsdAmount,
    /// Box 10: Dependent care benefits.
    pub box_10_dependent_care_benefits: UsdAmount,
    /// Box 11: Nonqualified plans.
    pub box_11_nonqualified_plans: UsdAmount,
    /// Box 12: Codes and amounts (various compensation types).
    pub box_12: Vec<W2Box12>,
    /// Box 13: Statutory employee checkbox.
    pub box_13_statutory_employee: bool,
    /// Box 13: Retirement plan checkbox.
    pub box_13_retirement_plan: bool,
    /// Box 13: Third-party sick pay checkbox.
    pub box_13_third_party_sick_pay: bool,
    /// Boxes 15-17: State tax information.
    pub state_info: Vec<W2StateInfo>,
    /// Boxes 18-20: Local tax information.
    pub local_info: Vec<W2LocalInfo>,
}

/// The default identifier of a wage statement whose source named none.
pub fn default_id() -> (r: String)
    ensures
        r@ == "w2-default"@,
{
    "w2-default".to_owned()
}

/// The tax year assumed when a wage statement names none.
pub fn default_tax_year() -> (r: TaxYear)
    ensures
        r == 2025,
{
    2025
}

impl Default for W2 {
    /// An empty wage statement: default id and year, empty strings, zero
    /// amounts, no entries, no boxes checked.
    fn default() -> (r: W2)
        ensures
            r.id@ == "w2-default"@,
            r.tax_year == 2025,
            r.employer_ein@.len() == 0,
            r.employer_name@.len() == 0,
            r.employee_ssn@.len() == 0,
            r.employee_first_name@.len() == 0,
            r.employee_last_name@.len() == 0,
            r.box_1_wages@ == 0 && r.box_1_wages.wf(),
            r.box_2_federal_tax_withheld@ == 0 && r.box_2_federal_tax_withheld.wf(),
            r.box_3_social_security_wages@ == 0 && r.box_3_social_security_wages.wf(),
            r.box_4_social_security_tax_withheld@ == 0,
            r.box_5_medicare_wages@ == 0,
            r.box_6_medicare_tax_withheld@ == 0,
            r.box_7_social_security_tips@ == 0,
            r.box_8_allocated_tips@ == 0,
            r.box_10_dependent_care_benefits@ == 0,
            r.box_11_nonqualified_plans@ == 0,
            r.box_12@.len() == 0,
            !r.box_13_statutory_employee,
            !r.box_13_retirement_plan,
            !r.box_13_third_party_sick_pay,
            r.state_info@.len() == 0,
            r.local_info@.len() == 0,
            w2_wf(r),
    {
        let z = UsdAmount::zero();
        let r = W2 {
            id: default_id(),
            tax_year: default_tax_year(),
            employer_ein: String::new(),
            employer_name: String::new(),
            employee_ssn: String::new(),
            employee_first_name: String::new(),
            employee_last_name: String::new(),
            box_1_wages: z,
            box_2_federal_tax_withheld: z,
            box_3_social_security_wages: z,
            box_4_social_security_tax_withheld: z,
            box_5_medicare_wages: z,
            box_6_medicare_tax_withheld: z,
            box_7_social_security_tips: z,
            box_8_allocated_tips: z,
            box_10_dependent_care_benefits: z,
            box_11_nonqualified_plans: z,
            box_12: Vec::new(),
            box_13_statutory_employee: false,
            box_13_retirement_plan: false,
            box_13_third_party_sick_pay: false,
            state_info: Vec::new(),
            local_info: Vec::new(),
        };
        proof {
            assert(state_tax_values(r) =~= Seq::<UsdAmount>::empty());
            assert(local_tax_values(r) =~= Seq::<UsdAmount>::empty());
            assert forall|k: int|
                0 <= k <= state_tax_values(r).len() implies -usd_bound() <= #[trigger] sum_values(
                state_tax_values(r).take(k),
            ) <= usd_bound() by {
                assert(state_tax_values(r).take(k) =~= Seq::<UsdAmount>::empty());
                crate::usd_amount::lemma_pow10_values();
            }
            assert forall|k: int|
                0 <= k <= local_tax_values(r).len() implies -usd_bound() <= #[trigger] sum_values(
                local_tax_values(r).take(k),
            ) <= usd_bound() by {
                assert(local_tax_values(r).take(k) =~= Seq::<UsdAmount>::empty());
                crate::usd_amount::lemma_pow10_values();
            }
        }
        r
    }
}

/// A valid SSN has the shape `XXX-XX-XXXX` with `X` a digit.
pub open spec fn spec_is_valid_ssn(s: Seq<char>) -> bool {
    &&& s.len() == 11
    &&& all_digits(s.subrange(0, 3))
    &&& s[3] == '-'
    &&& all_digits(s.subrange(4, 6))
    &&& s[6] == '-'
    &&& all_digits(s.subrange(7, 11))
}

/// A valid EIN has the shape `XX-XXXXXXX` with `X` a digit.
pub open spec fn spec_is_valid_ein(s: Seq<char>) -> bool {
    &&& s.len() == 10
    &&& all_digits(s.subrange(0, 2))
    &&& s[2] == '-'
    &&& all_digits(s.subrange(3, 10))
}

/// The letters allowed as a one-letter Box 12 code.
pub open spec fn is_single_code_letter(c: char) -> bool {
    c == 'A' || c == 'B' || c == 'C' || c == 'D' || c == 'E' || c == 'F' || c == 'G' || c == 'H'
        || c == 'J' || c == 'K' || c == 'L' || c == 'M' || c == 'N' || c == 'P' || c == 'Q' || c
        == 'R' || c == 'S' || c == 'T' || c == 'V' || c == 'W' || c == 'Y' || c == 'Z'
}

/// The letters allowed doubled as a two-letter Box 12 code.
pub open spec fn is_double_code_letter(c: char) -> bool {
    c == 'A' || c == 'B' || c == 'D' || c == 'E' || c == 'F' || c == 'G' || c == 'H'
}

/// A valid Box 12 code: one allowed letter, or one of the allowed letters
/// doubled (`AA`, `BB`, `DD`, `EE`, `FF`, `GG`, `HH`).
pub open spec fn spec_is_valid_box_12_code(s: Seq<char>) -> bool {
    ||| (s.len() == 1 && is_single_code_letter(s[0]))
    ||| (s.len() == 2 && s[0] == s[1] && is_double_code_letter(s[0]))
}

/// The validation messages a wage statement's fixed fields produce, in
/// check order.
pub open spec fn w2_flat_messages(w: W2) -> Seq<Seq<char>> {
    (if w.employee_ssn@.len() > 0 && !spec_is_valid_ssn(w.employee_ssn@) {
        seq!["Invalid SSN format (expected XXX-XX-XXXX)"@]
    } else {
        Seq::empty()
    }) + (if w.employer_ein@.len() > 0 && !spec_is_valid_ein(w.employer_ein@) {
        seq!["Invalid EIN format (expected XX-XXXXXXX)"@]
    } else {
        Seq::empty()
    }) + (if w.box_1_wages@ < 0 {
        seq!["Wages cannot be negative"@]
    } else {
        Seq::empty()
    }) + (if w.box_2_federal_tax_withheld@ < 0 {
        seq!["Federal tax withheld cannot be negative"@]
    } else {
        Seq::empty()
    }) + (if w.box_3_social_security_wages@ < 0 {
        seq!["Social Security wages cannot be negative"@]
    } else {
        Seq::empty()
    })
}

/// The validation messages the Box 12 entries produce, in order: one for
/// each entry whose code is not valid.
pub open spec fn box12_messages(s: Seq<W2Box12>) -> Seq<Seq<char>>
    decreases s.len(),
{
    if s.len() == 0 {
        Seq::empty()
    } else if spec_is_valid_box_12_code(s.last().code@) {
        box12_messages(s.drop_last())
    } else {
        box12_messages(s.drop_last()) + seq!["Invalid Box 12 code: "@ + s.last().code@]
    }
}

/// Every validation message a wage statement produces, in check order.
pub open spec fn w2_error_messages(w: W2) -> Seq<Seq<char>> {
    w2_flat_messages(w) + box12_messages(w.box_12@)
}

/// The state tax withheld entries, in order.
pub open spec fn state_tax_values(w: W2) -> Seq<UsdAmount> {
    w.state_info@.map_values(|s: W2StateInfo| s.state_tax_withheld)
}

/// The local tax withheld entries, in order.
pub open spec fn local_tax_values(w: W2) -> Seq<UsdAmount> {
    w.local_info@.map_values(|l: W2LocalInfo| l.local_tax_withheld)
}

/// Structural validity of a wage statement: every amount is sound, and the
/// state and local withholding totals stay within the currency bound.
pub open spec fn w2_wf(w: W2) -> bool {
    &&& w.box_1_wages.wf()
    &&& w.box_2_federal_tax_withheld.wf()
    &&& w.box_3_social_security_wages.wf()
    &&& w.box_4_social_security_tax_withheld.wf()
    &&& w.box_5_medicare_wages.wf()
    &&& w.box_6_medicare_tax_withheld.wf()
    &&& w.box_7_social_security_tips.wf()
    &&& w.box_8_allocated_tips.wf()
    &&& w.box_10_dependent_care_benefits.wf()
    &&& w.box_11_nonqualified_plans.wf()
    &&& forall|i: int| 0 <= i < w.box_12@.len() ==> (#[trigger] w.box_12@[i]).amount.wf()
    &&& forall|i: int|
        0 <= i < w.state_info@.len() ==> (#[trigger] w.state_info@[i]).state_tax_withheld.wf()
            && w.state_info@[i].state_wages.wf()
    &&& forall|i: int|
        0 <= i < w.local_info@.len() ==> (#[trigger] w.local_info@[i]).local_tax_withheld.wf()
            && w.local_info@[i].local_wages.wf()
    &&& forall|k: int|
        0 <= k <= state_tax_values(w).len() ==> -usd_bound() <= #[trigger] sum_values(
            state_tax_values(w).take(k),
        ) <= usd_bound()
    &&& forall|k: int|
        0 <= k <= local_tax_values(w).len() ==> -usd_bound() <= #[trigger] sum_values(
            local_tax_values(w).take(k),
        ) <= usd_bound()
}

/// Checks that the characters of `s` from `from` to `to` are all digits.
fn digits_in_range(s: &str, from: usize, to: usize) -> (r: bool)
    requires
        from <= to <= s@.len(),
    ensures
        r == all_digits(s@.subrange(from as int, to as int)),
{
    let mut i: usize = from;
    while i < to
        invariant
            from <= i <= to <= s@.len(),
            forall|j: int| from <= j < i ==> is_digit(#[trigger] s@[j]),
        decreases to - i,
    {
        let c = s.get_char(i);
        let u = c as u32;
        if u < 48 || u > 57 {
            proof {
                assert(s@.subrange(from as int, to as int)[i - from] == s@[i as int]);
            }
            return false;
        }
        i = i + 1;
    }
    proof {
        assert forall|j: int| 0 <= j < to - from implies is_digit(
            #[trigger] s@.subrange(from as int, to as int)[j],
        ) by {
            assert(s@.subrange(from as int, to as int)[j] == s@[from + j]);
        }
    }
    true
}

impl W2 {
    /// Returns true if the SSN has the valid `XXX-XX-XXXX` shape.
    pub fn is_valid_ssn(ssn: &str) -> (r: bool)
        ensures
            r == spec_is_valid_ssn(ssn@),
    {
        if ssn.unicode_len() != 11 {
            return false;
        }
        digits_in_range(ssn, 0, 3) && ssn.get_char(3) == '-' && digits_in_range(ssn, 4, 6)
            && ssn.get_char(6) == '-' && digits_in_range(ssn, 7, 11)
    }

    /// Returns true if the EIN has the valid `XX-XXXXXXX` shape.
    pub fn is_valid_ein(ein: &str) -> (r: bool)
        ensures
            r == spec_is_valid_ein(ein@),
    {
        if ein.unicode_len() != 10 {
            return false;
        }
        digits_in_range(ein, 0, 2) && ein.get_char(2) == '-' && digits_in_range(ein, 3, 10)
    }

    /// Returns true if the Box 12 code is one of the codes the form defines.
    pub fn is_valid_box_12_code(code: &str) -> (r: bool)
        ensures
            r == spec_is_valid_box_12_code(code@),
    {
        let len = code.unicode_len();
        if len == 1 {
            let c = code.get_char(0);
            c == 'A' || c == 'B' || c == 'C' || c == 'D' || c == 'E' || c == 'F' || c == 'G' || c
                == 'H' || c == 'J' || c == 'K' || c == 'L' || c == 'M' || c == 'N' || c == 'P' || c
                == 'Q' || c == 'R' || c == 'S' || c == 'T' || c == 'V' || c == 'W' || c == 'Y' || c
                == 'Z'
        } else if len == 2 {
            let c0 = code.get_char(0);
            let c1 = code.get_char(1);
            c0 == c1 && (c0 == 'A' || c0 == 'B' || c0 == 'D' || c0 == 'E' || c0 == 'F' || c0 == 'G'
                || c0 == 'H')
        } else {
            false
        }
    }

    /// Validates the wage statement: checks the SSN and EIN shapes, rejects
    /// negative amounts, and checks every Box 12 code - all in one pass.
    /// Fails exactly when at least one check failed, with every failure's
    /// message joined into the reason.
    pub fn validate(&self) -> (r: TaxResult<()>)
        requires
            self.box_1_wages.wf(),
            self.box_2_federal_tax_withheld.wf(),
            self.box_3_social_security_wages.wf(),
        ensures
            match r {
                Ok(()) => w2_error_messages(*self).len() == 0,
                Err(e) => w2_error_messages(*self).len() > 0 && (e matches TaxError::InvalidValue {
                    field,
                    reason,
                } && field@ == "multiple"@ && reason@ == joined_with_semicolons(
                    w2_error_messages(*self),
                )),
            },
    {
        let mut errors = ValidationErrors::new();
        if !self.employee_ssn.as_str().is_empty() && !W2::is_valid_ssn(self.employee_ssn.as_str()) {
            let ghost pre = errors.errors@;
            errors.add_error("employee_ssn", "Invalid SSN format (expected XXX-XX-XXXX)");
            proof {
                lemma_error_messages_after_add(
                    pre,
                    errors.errors@,
                    "Invalid SSN format (expected XXX-XX-XXXX)"@,
                );
            }
        }
        if !self.employer_ein.as_str().is_empty() && !W2::is_valid_ein(self.employer_ein.as_str()) {
            let ghost pre = errors.errors@;
            errors.add_error("employer_ein", "Invalid EIN format (expected XX-XXXXXXX)");
            proof {
                lemma_error_messages_after_add(
                    pre,
                    errors.errors@,
                    "Invalid EIN format (expected XX-XXXXXXX)"@,
                );
            }
        }
        if self.box_1_wages.is_negative() {
            let ghost pre = errors.errors@;
            errors.add_error("box_1_wages", "Wages cannot be negative");
            proof {
                lemma_error_messages_after_add(pre, errors.errors@, "Wages cannot be negative"@);
            }
        }
        if self.box_2_federal_tax_withheld.is_negative() {
            let ghost pre = errors.errors@;
            errors.add_error(
                "box_2_federal_tax_withheld",
                "Federal tax withheld cannot be negative",
            );
            proof {
                lemma_error_messages_after_add(
                    pre,
                    errors.errors@,
                    "Federal tax withheld cannot be negative"@,
                );
            }
        }
        if self.box_3_social_security_wages.is_negative() {
            let ghost pre = errors.errors@;
            errors.add_error(
                "box_3_social_security_wages",
                "Social Security wages cannot be negative",
            );
            proof {
                lemma_error_messages_after_add(
                    pre,
                    errors.errors@,
                    "Social Security wages cannot be negative"@,
                );
            }
        }
        proof {
            assert(error_messages(errors.errors@) =~= w2_flat_messages(*self));
            assert(self.box_12@.take(0) =~= Seq::<W2Box12>::empty());
        }
        let mut i: usize = 0;
        while i < self.box_12.len()
            invariant
                i <= self.box_12@.len(),
                error_messages(errors.errors@) == w2_flat_messages(*self) + box12_messages(
                    self.box_12@.take(i as int),
                ),
            decreases self.box_12@.len() - i,
        {
            let entry = &self.box_12[i];
            proof {
                assert(self.box_12@.take(i + 1).drop_last() =~= self.box_12@.take(i as int));
                assert(self.box_12@.take(i + 1).last() == self.box_12@[i as int]);
            }
            if !W2::is_valid_box_12_code(entry.code.as_str()) {
                let mut field = String::new();
                field.append("box_12[");
                push_dec_digits(&mut field, i as u128);
                field.append("].code");
                let mut message = String::new();
                message.append("Invalid Box 12 code: ");
                message.append(entry.code.as_str());
                let ghost pre = errors.errors@;
                errors.add(
                    ValidationError { field, message, severity: ValidationSeverity::Error },
                );
                proof {
                    lemma_error_messages_after_add(
                        pre,
                        errors.errors@,
                        "Invalid Box 12 code: "@ + self.box_12@[i as int].code@,
                    );
                    assert((w2_flat_messages(*self) + box12_messages(
                        self.box_12@.take(i as int),
                    )) + seq!["Invalid Box 12 code: "@ + self.box_12@[i as int].code@]
                        =~= w2_flat_messages(*self) + box12_messages(self.box_12@.take(i + 1)));
                }
            }
            i = i + 1;
        }
        proof {
            assert(self.box_12@.take(self.box_12@.len() as int) =~= self.box_12@);
            if has_error_entry(errors.errors@) {
                lemma_error_entry_gives_message(errors.errors@);
            } else {
                lemma_no_error_entry_no_messages(errors.errors@);
            }
        }
        errors.into_result()
    }

    /// Returns the total state tax withheld across all states.
    pub fn total_state_tax_withheld(&self) -> (r: UsdAmount)
        requires
            forall|i: int|
                0 <= i < self.state_info@.len() ==> (
                #[trigger] self.state_info@[i]).state_tax_withheld.wf(),
            forall|k: int|
                0 <= k <= state_tax_values(*self).len() ==> -usd_bound() <= #[trigger] sum_values(
                    state_tax_values(*self).take(k),
                ) <= usd_bound(),
        ensures
            r@ == sum_values(state_tax_values(*self)),
            r.wf(),
    {
        let mut acc = UsdAmount::zero();
        let mut i: usize = 0;
        proof {
            assert(state_tax_values(*self).take(0) =~= Seq::<UsdAmount>::empty());
        }
        while i < self.state_info.len()
            invariant
                i <= self.state_info@.len(),
                acc@ == sum_values(state_tax_values(*self).take(i as int)),
                acc.wf(),
                forall|j: int|
                    0 <= j < self.state_info@.len() ==> (
                    #[trigger] self.state_info@[j]).state_tax_withheld.wf(),
                forall|k: int|
                    0 <= k <= state_tax_values(*self).len() ==> -usd_bound()
                        <= #[trigger] sum_values(state_tax_values(*self).take(k)) <= usd_bound(),
            decreases self.state_info@.len() - i,
        {
            proof {
                lemma_sum_take_step(state_tax_values(*self), i as int);
            }
            acc = acc.add(&self.state_info[i].state_tax_withheld);
            i = i + 1;
        }
        proof {
            assert(state_tax_values(*self).take(state_tax_values(*self).len() as int)
                =~= state_tax_values(*self));
        }
        acc
    }

    /// Returns the total local tax withheld across all localities.
    pub fn total_local_tax_withheld(&self) -> (r: UsdAmount)
        requires
            forall|i: int|
                0 <= i < self.local_info@.len() ==> (
                #[trigger] self.local_info@[i]).local_tax_withheld.wf(),
            forall|k: int|
                0 <= k <= local_tax_values(*self).len() ==> -usd_bound() <= #[trigger] sum_values(
                    local_tax_values(*self).take(k),
                ) <= usd_bound(),
        ensures
            r@ == sum_values(local_tax_values(*self)),
            r.wf(),
    {
        let mut acc = UsdAmount::zero();
        let mut i: usize = 0;
        proof {
            assert(local_tax_values(*self).take(0) =~= Seq::<UsdAmount>::empty());
        }
        while i < self.local_info.len()
            invariant
                i <= self.local_info@.len(),
                acc@ == sum_values(local_tax_values(*self).take(i as int)),
                acc.wf(),
                forall|j: int|
                    0 <= j < self.local_info@.len() ==> (
                    #[trigger] self.local_info@[j]).local_tax_withheld.wf(),
                forall|k: int|
                    0 <= k <= local_tax_values(*self).len() ==> -usd_bound()
                        <= #[trigger] sum_values(local_tax_values(*self).take(k)) <= usd_bound(),
            decreases self.local_info@.len() - i,
        {
            proof {
                lemma_sum_take_step(local_tax_values(*self), i as int);
            }
            acc = acc.add(&self.local_info[i].local_tax_withheld);
            i = i + 1;
        }
        proof {
            assert(local_tax_values(*self).take(local_tax_values(*self).len() as int)
                =~= local_tax_values(*self));
        }
        acc
    }

    /// Returns the amount of the first Box 12 entry with the given code.
    pub fn box_12_amount(&self, code: &str) -> (r: Option<UsdAmount>)
        ensures
            r == box12_find_from(self.box_12@, code@, 0),
    {
        let mut i: usize = 0;
        while i < self.box_12.len()
            invariant
                i <= self.box_12@.len(),
                box12_find_from(self.box_12@, code@, 0) == box12_find_from(
                    self.box_12@,
                    code@,
                    i as int,
                ),
            decreases self.box_12@.len() - i,
        {
            if crate::types::str_eq(self.box_12[i].code.as_str(), code) {
                return Some(self.box_12[i].amount);
            }
            i = i + 1;
        }
        None
    }

    /// Returns true if this is a statutory employee.
    pub fn is_statutory_employee(&self) -> (r: bool)
        ensures
            r == self.box_13_statutory_employee,
    {
        self.box_13_statutory_employee
    }

    /// Returns true if the employer has a retirement plan.
    pub fn has_retirement_plan(&self) -> (r: bool)
        ensures
            r == self.box_13_retirement_plan,
    {
        self.box_13_retirement_plan
    }
}

/// The amount of the first Box 12 entry at or after `i` whose code matches.
pub open spec fn box12_find_from(s: Seq<W2Box12>, code: Seq<char>, i: int) -> Option<UsdAmount>
    decreases s.len() - i,
{
    if i < 0 || i >= s.len() {
        None
    } else if s[i].code@ == code {
        Some(s[i].amount)
    } else {
        box12_find_from(s, code, i + 1)
    }
}

impl InputForm for W2 {
    open spec fn inv(&self) -> bool {
        w2_wf(*self)
    }

    open spec fn spec_form_type(&self) -> InputFormType {
        InputFormType::W2
    }

    open spec fn spec_tax_year(&self) -> TaxYear {
        self.tax_year
    }

    open spec fn spec_form_id(&self) -> Seq<char> {
        self.id@
    }

    open spec fn spec_wages(&self) -> Option<int> {
        Some(self.box_1_wages@)
    }

    open spec fn spec_taxable_interest(&self) -> Option<int> {
        None
    }

    open spec fn spec_tax_exempt_interest(&self) -> Option<int> {
        None
    }

    open spec fn spec_ordinary_dividends(&self) -> Option<int> {
        None
    }

    open spec fn spec_qualified_dividends(&self) -> Option<int> {
        None
    }

    open spec fn spec_capital_gain_distributions(&self) -> Option<int> {
        None
    }

    open spec fn spec_ira_distributions_gross(&self) -> Option<int> {
        None
    }

    open spec fn spec_ira_distributions_taxable(&self) -> Option<int> {
        None
    }

    open spec fn spec_pension_gross(&self) -> Option<int> {
        None
    }

    open spec fn spec_pension_taxable(&self) -> Option<int> {
        None
    }

    open spec fn spec_social_security_gross(&self) -> Option<int> {
        None
    }

    open spec fn spec_social_security_taxable(&self) -> Option<int> {
        None
    }

    open spec fn spec_unemployment_compensation(&self) -> Option<int> {
        None
    }

    open spec fn spec_state_tax_refund(&self) -> Option<int> {
        None
    }

    open spec fn spec_nonemployee_compensation(&self) -> Option<int> {
        None
    }

    open spec fn spec_other_income(&self) -> Option<int> {
        None
    }

    open spec fn spec_federal_withholding(&self) -> Option<int> {
        Some(self.box_2_federal_tax_withheld@)
    }

    open spec fn spec_state_withholding(&self) -> Option<int> {
        if sum_values(state_tax_values(*self)) == 0 {
            None
        } else {
            Some(sum_values(state_tax_values(*self)))
        }
    }

    open spec fn spec_local_withholding(&self) -> Option<int> {
        if sum_values(local_tax_values(*self)) == 0 {
            None
        } else {
            Some(sum_values(local_tax_values(*self)))
        }
    }

    open spec fn spec_social_security_wages(&self) -> Option<int> {
        Some(self.box_3_social_security_wages@)
    }

    open spec fn spec_social_security_tax_withheld(&self) -> Option<int> {
        Some(self.box_4_social_security_tax_withheld@)
    }

    open spec fn spec_medicare_wages(&self) -> Option<int> {
        Some(self.box_5_medicare_wages@)
    }

    open spec fn spec_medicare_tax_withheld(&self) -> Option<int> {
        Some(self.box_6_medicare_tax_withheld@)
    }

    open spec fn spec_mortgage_interest(&self) -> Option<int> {
        None
    }

    open spec fn spec_mortgage_points(&self) -> Option<int> {
        None
    }

    open spec fn spec_student_loan_interest(&self) -> Option<int> {
        None
    }

    open spec fn spec_tuition_paid(&self) -> Option<int> {
        None
    }

    open spec fn spec_employer_ein(&self) -> Option<Seq<char>> {
        Some(self.employer_ein@)
    }

    open spec fn spec_employer_name(&self) -> Option<Seq<char>> {
        Some(self.employer_name@)
    }

    open spec fn spec_payer_name(&self) -> Option<Seq<char>> {
        None
    }

    open spec fn spec_payer_tin(&self) -> Option<Seq<char>> {
        None
    }

    fn form_type(&self) -> (r: InputFormType) {
        InputFormType::W2
    }

    fn tax_year(&self) -> (r: TaxYear) {
        self.tax_year
    }

    fn form_id(&self) -> (r: &str) {
        self.id.as_str()
    }

    fn wages(&self) -> (r: Option<UsdAmount>) {
        Some(self.box_1_wages)
    }

    fn taxable_interest(&self) -> (r: Option<UsdAmount>) {
        None
    }

    fn tax_exempt_interest(&self) -> (r: Option<UsdAmount>) {
        None
    }

    fn ordinary_dividends(&self) -> (r: Option<UsdAmount>) {
        None
    }

    fn qualified_dividends(&self) -> (r: Option<UsdAmount>) {
        None
    }

    fn capital_gain_distributions(&self) -> (r: Option<UsdAmount>) {
        None
    }

    fn ira_distributions_gross(&self) -> (r: Option<UsdAmount>) {
        None
    }

    fn ira_distributions_taxable(&self) -> (r: Option<UsdAmount>) {
        None
    }

    fn pension_gross(&self) -> (r: Option<UsdAmount>) {
        None
    }

    fn pension_taxable(&self) -> (r: Option<UsdAmount>) {
        None
    }

    fn social_security_gross(&self) -> (r: Option<UsdAmount>) {
        None
    }

    fn social_security_taxable(&self) -> (r: Option<UsdAmount>) {
        None
    }

    fn unemployment_compensation(&self) -> (r: Option<UsdAmount>) {
        None
    }

    fn state_tax_refund(&self) -> (r: Option<UsdAmount>) {
        None
    }

    fn nonemployee_compensation(&self) -> (r: Option<UsdAmount>) {
        None
    }

    fn other_income(&self) -> (r: Option<UsdAmount>) {
        None
    }

    fn federal_withholding(&self) -> (r: Option<UsdAmount>) {
        Some(self.box_2_federal_tax_withheld)
    }

    fn state_withholding(&self) -> (r: Option<UsdAmount>) {
        let total = self.total_state_tax_withheld();
        if total.is_zero() {
            None
        } else {
            Some(total)
        }
    }

    fn local_withholding(&self) -> (r: Option<UsdAmount>) {
        let total = self.total_local_tax_withheld();
        if total.is_zero() {
            None
        } else {
            Some(total)
        }
    }

    fn social_security_wages(&self) -> (r: Option<UsdAmount>) {
        Some(self.box_3_social_security_wages)
    }

    fn social_security_tax_withheld(&self) -> (r: Option<UsdAmount>) {
        Some(self.box_4_social_security_tax_withheld)
    }

    fn medicare_wages(&self) -> (r: Option<UsdAmount>) {
        Some(self.box_5_medicare_wages)
    }

    fn medicare_tax_withheld(&self) -> (r: Option<UsdAmount>) {
        Some(self.box_6_medicare_tax_withheld)
    }

    fn mortgage_interest(&self) -> (r: Option<UsdAmount>) {
        None
    }

    fn mortgage_points(&self) -> (r: Option<UsdAmount>) {
        None
    }

    fn student_loan_interest(&self) -> (r: Option<UsdAmount>) {
        None
    }

    fn tuition_paid(&self) -> (r: Option<UsdAmount>) {
        None
    }

    fn employer_ein(&self) -> (r: Option<&str>) {
        Some(self.employer_ein.as_str())
    }

    fn employer_name(&self) -> (r: Option<&str>) {
        Some(self.employer_name.as_str())
    }

    fn payer_name(&self) -> (r: Option<&str>) {
        None
    }

    fn payer_tin(&self) -> (r: Option<&str>) {
        None
    }
}

/// The total wages across a run of wage statements.
pub open spec fn sum_wages(s: Seq<W2>) -> int
    decreases s.len(),
{
    if s.len() == 0 {
        0
    } else {
        sum_wages(s.drop_last()) + opt_or_zero(s.last().spec_wages())
    }
}

/// The total taxable interest across a run of wage statements.
pub open spec fn sum_taxable_interest(s: Seq<W2>) -> int
    decreases s.len(),
{
    if s.len() == 0 {
        0
    } else {
        sum_taxable_interest(s.drop_last()) + opt_or_zero(s.last().spec_taxable_interest())
    }
}

/// The total ordinary dividends across a run of wage statements.
pub open spec fn sum_ordinary_dividends(s: Seq<W2>) -> int
    decreases s.len(),
{
    if s.len() == 0 {
        0
    } else {
        sum_ordinary_dividends(s.drop_last()) + opt_or_zero(s.last().spec_ordinary_dividends())
    }
}

/// The total qualified dividends across a run of wage statements.
pub open spec fn sum_qualified_dividends(s: Seq<W2>) -> int
    decreases s.len(),
{
    if s.len() == 0 {
        0
    } else {
        sum_qualified_dividends(s.drop_last()) + opt_or_zero(s.last().spec_qualified_dividends())
    }
}

/// The total federal withholding across a run of wage statements.
pub open spec fn sum_federal_withholding(s: Seq<W2>) -> int
    decreases s.len(),
{
    if s.len() == 0 {
        0
    } else {
        sum_federal_withholding(s.drop_last()) + opt_or_zero(s.last().spec_federal_withholding())
    }
}

/// The total state withholding across a run of wage statements.
pub open spec fn sum_state_withholding(s: Seq<W2>) -> int
    decreases s.len(),
{
    if s.len() == 0 {
        0
    } else {
        sum_state_withholding(s.drop_last()) + opt_or_zero(s.last().spec_state_withholding())
    }
}

impl InputFormCollection for Vec<W2> {
    open spec fn collection_inv(&self) -> bool {
        &&& forall|i: int| 0 <= i < self@.len() ==> (#[trigger] self@[i]).inv()
        &&& forall|k: int|
            0 <= k <= self@.len() ==> -usd_bound() <= #[trigger] sum_wages(self@.take(k))
                <= usd_bound()
        &&& forall|k: int|
            0 <= k <= self@.len() ==> -usd_bound() <= #[trigger] sum_taxable_interest(
                self@.take(k),
            ) <= usd_bound()
        &&& forall|k: int|
            0 <= k <= self@.len() ==> -usd_bound() <= #[trigger] sum_ordinary_dividends(
                self@.take(k),
            ) <= usd_bound()
        &&& forall|k: int|
            0 <= k <= self@.len() ==> -usd_bound() <= #[trigger] sum_qualified_dividends(
                self@.take(k),
            ) <= usd_bound()
        &&& forall|k: int|
            0 <= k <= self@.len() ==> -usd_bound() <= #[trigger] sum_federal_withholding(
                self@.take(k),
            ) <= usd_bound()
        &&& forall|k: int|
            0 <= k <= self@.len() ==> -usd_bound() <= #[trigger] sum_state_withholding(
                self@.take(k),
            ) <= usd_bound()
    }

    open spec fn spec_total_wages(&self) -> int {
        sum_wages(self@)
    }

    open spec fn spec_total_taxable_interest(&self) -> int {
        sum_taxable_interest(self@)
    }

    open spec fn spec_total_ordinary_dividends(&self) -> int {
        sum_ordinary_dividends(self@)
    }

    open spec fn spec_total_qualified_dividends(&self) -> int {
        sum_qualified_dividends(self@)
    }

    open spec fn spec_total_federal_withholding(&self) -> int {
        sum_federal_withholding(self@)
    }

    open spec fn spec_total_state_withholding(&self) -> int {
        sum_state_withholding(self@)
    }

    fn total_wages(&self) -> (r: UsdAmount) {
        let mut acc = UsdAmount::zero();
        let mut i: usize = 0;
        proof {
            assert(self@.take(0) =~= Seq::<W2>::empty());
        }
        while i < self.len()
            invariant
                i <= self@.len(),
                self.collection_inv(),
                acc@ == sum_wages(self@.take(i as int)),
                acc.wf(),
            decreases self@.len() - i,
        {
            proof {
                assert(self@.take(i + 1).drop_last() =~= self@.take(i as int));
                assert(self@.take(i + 1).last() == self@[i as int]);
                assert(sum_wages(self@.take(i + 1)) == sum_wages(self@.take(i as int)) + opt_or_zero(
                    self@[i as int].spec_wages(),
                ));
                assert(-usd_bound() <= sum_wages(self@.take(i + 1)) <= usd_bound());
            }
            match self[i].wages() {
                Some(a) => {
                    acc = acc.add(&a);
                },
                None => {},
            }
            i = i + 1;
        }
        proof {
            assert(self@.take(self@.len() as int) =~= self@);
        }
        acc
    }

    fn total_taxable_interest(&self) -> (r: UsdAmount) {
        let mut acc = UsdAmount::zero();
        let mut i: usize = 0;
        proof {
            assert(self@.take(0) =~= Seq::<W2>::empty());
        }
        while i < self.len()
            invariant
                i <= self@.len(),
                self.collection_inv(),
                acc@ == sum_taxable_interest(self@.take(i as int)),
                acc.wf(),
            decreases self@.len() - i,
        {
            proof {
                assert(self@.take(i + 1).drop_last() =~= self@.take(i as int));
                assert(self@.take(i + 1).last() == self@[i as int]);
            }
            match self[i].taxable_interest() {
                Some(a) => {
                    acc = acc.add(&a);
                },
                None => {},
            }
            i = i + 1;
        }
        proof {
            assert(self@.take(self@.len() as int) =~= self@);
        }
        acc
    }

    fn total_ordinary_dividends(&self) -> (r: UsdAmount) {
        let mut acc = UsdAmount::zero();
        let mut i: usize = 0;
        proof {
            assert(self@.take(0) =~= Seq::<W2>::empty());
        }
        while i < self.len()
            invariant
                i <= self@.len(),
                self.collection_inv(),
                acc@ == sum_ordinary_dividends(self@.take(i as int)),
                acc.wf(),
            decreases self@.len() - i,
        {
            proof {
                assert(self@.take(i + 1).drop_last() =~= self@.take(i as int));
                assert(self@.take(i + 1).last() == self@[i as int]);
            }
            match self[i].ordinary_dividends() {
                Some(a) => {
                    acc = acc.add(&a);
                },
                None => {},
            }
            i = i + 1;
        }
        proof {
            assert(self@.take(self@.len() as int) =~= self@);
        }
        acc
    }

    fn total_qualified_dividends(&self) -> (r: UsdAmount) {
        let mut acc = UsdAmount::zero();
        let mut i: usize = 0;
        proof {
            assert(self@.take(0) =~= Seq::<W2>::empty());
        }
        while i < self.len()
            invariant
                i <= self@.len(),
                self.collection_inv(),
                acc@ == sum_qualified_dividends(self@.take(i as int)),
                acc.wf(),
            decreases self@.len() - i,
        {
            proof {
                assert(self@.take(i + 1).drop_last() =~= self@.take(i as int));
                assert(self@.take(i + 1).last() == self@[i as int]);
            }
            match self[i].qualified_dividends() {
                Some(a) => {
                    acc = acc.add(&a);
                },
                None => {},
            }
            i = i + 1;
        }
        proof {
            assert(self@.take(self@.len() as int) =~= self@);
        }
        acc
    }

    fn total_federal_withholding(&self) -> (r: UsdAmount) {
        let mut acc = UsdAmount::zero();
        let mut i: usize = 0;
        proof {
            assert(self@.take(0) =~= Seq::<W2>::empty());
        }
        while i < self.len()
            invariant
                i <= self@.len(),
                self.collection_inv(),
                acc@ == sum_federal_withholding(self@.take(i as int)),
                acc.wf(),
            decreases self@.len() - i,
        {
            proof {
                assert(self@.take(i + 1).drop_last() =~= self@.take(i as int));
                assert(self@.take(i + 1).last() == self@[i as int]);
                assert(sum_federal_withholding(self@.take(i + 1)) == sum_federal_withholding(self@.take(i as int)) + opt_or_zero(
                    self@[i as int].spec_federal_withholding(),
                ));
                assert(-usd_bound() <= sum_federal_withholding(self@.take(i + 1)) <= usd_bound());
            }
            match self[i].federal_withholding() {
                Some(a) => {
                    acc = acc.add(&a);
                },
                None => {},
            }
            i = i + 1;
        }
        proof {
            assert(self@.take(self@.len() as int) =~= self@);
        }
        acc
    }

    fn total_state_withholding(&self) -> (r: UsdAmount) {
        let mut acc = UsdAmount::zero();
        let mut i: usize = 0;
        proof {
            assert(self@.take(0) =~= Seq::<W2>::empty());
        }
        while i < self.len()
            invariant
                i <= self@.len(),
                self.collection_inv(),
                acc@ == sum_state_withholding(self@.take(i as int)),
                acc.wf(),
            decreases self@.len() - i,
        {
            proof {
                assert(self@.take(i + 1).drop_last() =~= self@.take(i as int));
                assert(self@.take(i + 1).last() == self@[i as int]);
                assert(sum_state_withholding(self@.take(i + 1)) == sum_state_withholding(self@.take(i as int)) + opt_or_zero(
                    self@[i as int].spec_state_withholding(),
                ));
                assert(-usd_bound() <= sum_state_withholding(self@.take(i + 1)) <= usd_bound());
            }
            match self[i].state_withholding() {
                Some(a) => {
                    acc = acc.add(&a);
                },
                None => {},
            }
            i = i + 1;
        }
        proof {
            assert(self@.take(self@.len() as int) =~= self@);
        }
        acc
    }
}

} // verus!
