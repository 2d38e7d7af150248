//! Core value types: tax year, filing status, dependents, taxpayer facts,
//! and the identifiers of the supported document kinds.

use vstd::prelude::*;
use vstd::string::StrSliceExecFns;

verus! {

/// A tax year, e.g. 2025.
pub type TaxYear = u16;

/// First tax year the rules table covers.
pub const MIN_SUPPORTED_YEAR: TaxYear = 2025;

/// Last tax year the rules table covers.
pub const MAX_SUPPORTED_YEAR: TaxYear = 2025;

/// Filing status for federal income tax.  Drives which bracket table,
/// deduction amounts and phase-out thresholds apply.
#[derive(Debug, Clone, Copy, PartialEq, Eq, Structural)]
pub enum FilingStatus {
    Single,
    MarriedFilingJointly,
    MarriedFilingSeparately,
    HeadOfHousehold,
    QualifyingSurvivingSpouse,
}

impl FilingStatus {
    /// All five filing statuses, in their form order.
    pub fn all() -> (r: Vec<FilingStatus>)
        ensures
            r@.len() == 5,
            r@[0] == FilingStatus::Single,
            r@[1] == FilingStatus::MarriedFilingJointly,
            r@[2] == FilingStatus::MarriedFilingSeparately,
            r@[3] == FilingStatus::HeadOfHousehold,
            r@[4] == FilingStatus::QualifyingSurvivingSpouse,
    {
        let mut v: Vec<FilingStatus> = Vec::new();
        v.push(FilingStatus::Single);
        v.push(FilingStatus::MarriedFilingJointly);
        v.push(FilingStatus::MarriedFilingSeparately);
        v.push(FilingStatus::HeadOfHousehold);
        v.push(FilingStatus::QualifyingSurvivingSpouse);
        v
    }

    /// The human-readable name of this filing status.
    pub fn label(&self) -> (r: &'static str)
        ensures
            r@ == match self {
                FilingStatus::Single => "Single"@,
                FilingStatus::MarriedFilingJointly => "Married Filing Jointly"@,
                FilingStatus::MarriedFilingSeparately => "Married Filing Separately"@,
                FilingStatus::HeadOfHousehold => "Head of Household"@,
                FilingStatus::QualifyingSurvivingSpouse => "Qualifying Surviving Spouse"@,
            },
    {
        match self {
            FilingStatus::Single => "Single",
            FilingStatus::MarriedFilingJointly => "Married Filing Jointly",
            FilingStatus::MarriedFilingSeparately => "Married Filing Separately",
            FilingStatus::HeadOfHousehold => "Head of Household",
            FilingStatus::QualifyingSurvivingSpouse => "Qualifying Surviving Spouse",
        }
    }

    /// The IRS form code for this filing status.
    pub fn code(&self) -> (r: &'static str)
        ensures
            r@ == match self {
                FilingStatus::Single => "S"@,
                FilingStatus::MarriedFilingJointly => "MFJ"@,
                FilingStatus::MarriedFilingSeparately => "MFS"@,
                FilingStatus::HeadOfHousehold => "HOH"@,
                FilingStatus::QualifyingSurvivingSpouse => "QSS"@,
            },
    {
        match self {
            FilingStatus::Single => "S",
            FilingStatus::MarriedFilingJointly => "MFJ",
            FilingStatus::MarriedFilingSeparately => "MFS",
            FilingStatus::HeadOfHousehold => "HOH",
            FilingStatus::QualifyingSurvivingSpouse => "QSS",
        }
    }
}

/// Relationship of a dependent to the taxpayer.
#[derive(Debug, Clone, Copy, PartialEq, Eq, Structural)]
pub enum DependentRelationship {
    Son,
    Daughter,
    Stepchild,
    FosterChild,
    Brother,
    Sister,
    Stepbrother,
    Stepsister,
    HalfBrother,
    HalfSister,
    Grandchild,
    Niece,
    Nephew,
    Parent,
    Grandparent,
    AuntUncle,
    Other,
}

/// The closed set of relationships that count as a "qualifying child".
pub open spec fn spec_is_qualifying_child_relationship(r: DependentRelationship) -> bool {
    match r {
        DependentRelationship::Son => true,
        DependentRelationship::Daughter => true,
        DependentRelationship::Stepchild => true,
        DependentRelationship::FosterChild => true,
        DependentRelationship::Brother => true,
        DependentRelationship::Sister => true,
        DependentRelationship::Stepbrother => true,
        DependentRelationship::Stepsister => true,
        DependentRelationship::HalfBrother => true,
        DependentRelationship::HalfSister => true,
        DependentRelationship::Grandchild => true,
        DependentRelationship::Niece => true,
        DependentRelationship::Nephew => true,
        DependentRelationship::Parent => false,
        DependentRelationship::Grandparent => false,
        DependentRelationship::AuntUncle => false,
        DependentRelationship::Other => false,
    }
}

/// Information about a dependent.
#[derive(Debug, Clone, PartialEq, Eq)]
pub struct Dependent {
    /// First name.
    pub first_name: String,
    /// Last name.
    pub last_name: String,
    /// Social Security Number (format: XXX-XX-XXXX).
    pub ssn: String,
    /// Relationship to taxpayer.
    pub relationship: DependentRelationship,
    /// Age at end of tax year.
    pub age: u8,
    /// Months lived with taxpayer during tax year.
    pub months_lived_with_taxpayer: u8,
    /// Whether dependent is permanently and totally disabled.
    pub is_disabled: bool,
    /// Whether dependent is a full-time student (ages 19-23).
    pub is_student: bool,
}

/// Child Tax Credit eligibility: under 17 at year end, a qualifying-child
/// relationship, more than half the year in the household, and an SSN.
pub open spec fn spec_qualifies_for_ctc(d: Dependent) -> bool {
    &&& d.age < 17
    &&& d.months_lived_with_taxpayer >= 6
    &&& spec_is_qualifying_child_relationship(d.relationship)
    &&& d.ssn@.len() > 0
}

impl Dependent {
    /// Returns true if this dependent qualifies for the Child Tax Credit.
    pub fn qualifies_for_ctc(&self) -> (r: bool)
        ensures
            r == spec_qualifies_for_ctc(*self),
    {
        self.age < 17 && self.months_lived_with_taxpayer >= 6
            && self.is_qualifying_child_relationship() && !self.ssn.as_str().is_empty()
    }

    /// Returns true if this dependent qualifies for the Credit for Other
    /// Dependents instead: exactly those who do not qualify for the CTC.
    pub fn qualifies_for_odc(&self) -> (r: bool)
        ensures
            r == !spec_qualifies_for_ctc(*self),
    {
        !self.qualifies_for_ctc()
    }

    /// Returns true if the relationship counts as a "qualifying child".
    pub fn is_qualifying_child_relationship(&self) -> (r: bool)
        ensures
            r == spec_is_qualifying_child_relationship(self.relationship),
    {
        match self.relationship {
            DependentRelationship::Son => true,
            DependentRelationship::Daughter => true,
            DependentRelationship::Stepchild => true,
            DependentRelationship::FosterChild => true,
            DependentRelationship::Brother => true,
            DependentRelationship::Sister => true,
            DependentRelationship::Stepbrother => true,
            DependentRelationship::Stepsister => true,
            DependentRelationship::HalfBrother => true,
            DependentRelationship::HalfSister => true,
            DependentRelationship::Grandchild => true,
            DependentRelationship::Niece => true,
            DependentRelationship::Nephew => true,
            DependentRelationship::Parent => false,
            DependentRelationship::Grandparent => false,
            DependentRelationship::AuntUncle => false,
            DependentRelationship::Other => false,
        }
    }
}

/// Whether a character is a decimal digit.
pub open spec fn is_digit(c: char) -> bool {
    48 <= c as int <= 57
}

/// The numeric value of a digit character.
pub open spec fn digit_val(c: char) -> int {
    c as int - 48
}

/// Whether every character of a sequence is a decimal digit.
pub open spec fn all_digits(s: Seq<char>) -> bool {
    forall|i: int| 0 <= i < s.len() ==> is_digit(#[trigger] s[i])
}

/// The number that a sequence of decimal digits denotes.
pub open spec fn parsed_decimal(s: Seq<char>) -> int
    decreases s.len(),
{
    if s.len() == 0 {
        0
    } else {
        parsed_decimal(s.drop_last()) * 10 + digit_val(s.last())
    }
}

/// The year, month and day a date of birth names: `None` unless positions
/// 0-3, 5-6 and 8-9 are digits (the `YYYY-MM-DD` layout) and the month is at
/// most 12.
pub open spec fn spec_parsed_dob(dob: Seq<char>) -> Option<(int, int, int)> {
    if dob.len() < 10 {
        None
    } else if !all_digits(dob.subrange(0, 4)) || !all_digits(dob.subrange(5, 7)) || !all_digits(
        dob.subrange(8, 10),
    ) {
        None
    } else if parsed_decimal(dob.subrange(5, 7)) > 12 {
        None
    } else {
        Some(
            (
                parsed_decimal(dob.subrange(0, 4)),
                parsed_decimal(dob.subrange(5, 7)),
                parsed_decimal(dob.subrange(8, 10)),
            ),
        )
    }
}

/// How a date of birth and a tax year give the age at that year's end:
/// `None` when the date does not parse; otherwise the year difference,
/// floored at zero, reduced to eight bits.
pub open spec fn spec_age_at_year_end(dob: Seq<char>, tax_year: u16) -> Option<u8> {
    match spec_parsed_dob(dob) {
        None => None,
        Some((birth_year, m, d)) => {
            let diff = if tax_year >= birth_year {
                tax_year - birth_year
            } else {
                0
            };
            Some((diff % 256) as u8)
        },
    }
}

/// The IRS convention for being 65 at the end of a tax year: a taxpayer is
/// treated as 65 on the day before the 65th birthday.  That holds when the
/// year difference reaches 65, and also for someone born on January 1 with a
/// year difference of 64, whose "treated as 65" day is December 31 of the
/// tax year.
pub open spec fn spec_is_65_at_year_end(dob: Seq<char>, tax_year: u16) -> bool {
    match spec_parsed_dob(dob) {
        None => false,
        Some((birth_year, month, day)) => {
            ||| tax_year - birth_year >= 65
            ||| (tax_year - birth_year == 64 && month == 1 && day == 1)
        },
    }
}

/// Basic taxpayer information.
#[derive(Debug, Clone, PartialEq, Eq)]
pub struct TaxpayerInfo {
    /// First name.
    pub first_name: String,
    /// Last name.
    pub last_name: String,
    /// Social Security Number (format: XXX-XX-XXXX).
    pub ssn: String,
    /// Date of birth (YYYY-MM-DD format).
    pub date_of_birth: String,
    /// Whether taxpayer is blind.
    pub is_blind: bool,
}

impl TaxpayerInfo {
    /// Age at the end of the given tax year, from the `YYYY-MM-DD` date of
    /// birth; `None` when the date does not parse.
    pub fn age_at_year_end(&self, tax_year: TaxYear) -> (r: Option<u8>)
        ensures
            r == spec_age_at_year_end(self.date_of_birth@, tax_year),
    {
        match parse_dob(self.date_of_birth.as_str()) {
            None => None,
            Some((year, _month, _day)) => {
                let diff: u16 = if tax_year >= year as u16 {
                    tax_year - (year as u16)
                } else {
                    0
                };
                Some((diff % 256) as u8)
            },
        }
    }

    /// Whether the taxpayer is treated as 65 or older at the end of the tax
    /// year.  Per the IRS convention, someone is 65 on the day before the
    /// 65th birthday, so a taxpayer born on January 1 counts one year early.
    pub fn is_65_or_older(&self, tax_year: TaxYear) -> (r: bool)
        ensures
            r == spec_is_65_at_year_end(self.date_of_birth@, tax_year),
    {
        match parse_dob(self.date_of_birth.as_str()) {
            None => false,
            Some((year, month, day)) => {
                let ty = tax_year as u32;
                if ty >= year + 65 {
                    true
                } else {
                    ty == year + 64 && month == 1 && day == 1
                }
            },
        }
    }
}

/// Parses a `YYYY-MM-DD` date of birth into year, month and day; `None`
/// when the digit positions do not hold digits or the month exceeds 12.
fn parse_dob(dob: &str) -> (r: Option<(u32, u32, u32)>)
    ensures
        match r {
            Some((y, m, d)) => spec_parsed_dob(dob@) == Some((y as int, m as int, d as int)) && y
                < 10000 && m <= 12 && d < 100,
            None => spec_parsed_dob(dob@) is None,
        },
{
    if dob.unicode_len() < 10 {
        return None;
    }
    let year = match parse_digits(dob, 0, 4) {
        Some(y) => y,
        None => {
            return None;
        },
    };
    let month = match parse_digits(dob, 5, 7) {
        Some(m) => m,
        None => {
            return None;
        },
    };
    let day = match parse_digits(dob, 8, 10) {
        Some(d) => d,
        None => {
            return None;
        },
    };
    if month > 12 {
        return None;
    }
    proof {
        lemma_parsed_decimal_bounds(dob@.subrange(0, 4));
        lemma_parsed_decimal_bounds(dob@.subrange(8, 10));
        crate::usd_amount::lemma_pow10_values();
    }
    Some((year, month, day))
}

/// A digit string of length `n` denotes a value below `10^n`.
pub proof fn lemma_parsed_decimal_bounds(s: Seq<char>)
    requires
        all_digits(s),
    ensures
        0 <= parsed_decimal(s) < crate::usd_amount::pow10(s.len()),
    decreases s.len(),
{
    if s.len() == 0 {
    } else {
        assert(all_digits(s.drop_last())) by {
            assert(forall|i: int|
                0 <= i < s.len() - 1 ==> #[trigger] s.drop_last()[i] == s[i]);
        }
        lemma_parsed_decimal_bounds(s.drop_last());
        assert(is_digit(s.last()));
    }
}

/// One more digit extends a parsed prefix by one decimal place.
proof fn lemma_parsed_step(s: Seq<char>, from: int, i: int)
    requires
        0 <= from <= i < s.len(),
    ensures
        parsed_decimal(s.subrange(from, i + 1)) == parsed_decimal(s.subrange(from, i)) * 10
            + digit_val(s[i]),
{
    assert(s.subrange(from, i + 1).drop_last() =~= s.subrange(from, i));
    assert(s.subrange(from, i + 1).last() == s[i]);
}

/// Parses the characters of `s` from `from` (inclusive) to `to` (exclusive)
/// as an unsigned decimal number; `None` if any of them is not a digit.
fn parse_digits(s: &str, from: usize, to: usize) -> (r: Option<u32>)
    requires
        from <= to <= s@.len(),
        to - from <= 4,
    ensures
        match r {
            Some(v) => all_digits(s@.subrange(from as int, to as int)) && v == parsed_decimal(
                s@.subrange(from as int, to as int),
            ),
            None => !all_digits(s@.subrange(from as int, to as int)),
        },
{
    let mut acc: u32 = 0;
    let mut i: usize = from;
    proof {
        assert(s@.subrange(from as int, from as int) =~= Seq::<char>::empty());
        crate::usd_amount::lemma_pow10_values();
    }
    while i < to
        invariant
            from <= i <= to <= s@.len(),
            to - from <= 4,
            all_digits(s@.subrange(from as int, i as int)),
            acc == parsed_decimal(s@.subrange(from as int, i as int)),
            acc < crate::usd_amount::pow10((i - from) as nat),
            crate::usd_amount::pow10(4) == 10000,
        decreases to - i,
    {
        let c = s.get_char(i);
        let u = c as u32;
        if u < 48 || u > 57 {
            proof {
                assert(s@.subrange(from as int, to as int)[i - from] == s@[i as int]);
                assert(!is_digit(s@[i as int]));
            }
            return None;
        }
        proof {
            lemma_parsed_step(s@, from as int, i as int);
            crate::usd_amount::lemma_pow10_increases((i - from) as nat, 4);
            crate::usd_amount::lemma_pow10_increases((i + 1 - from) as nat, 4);
            assert(all_digits(s@.subrange(from as int, i as int + 1))) by {
                assert(forall|j: int|
                    0 <= j < i - from ==> #[trigger] s@.subrange(from as int, i as int + 1)[j]
                        == s@.subrange(from as int, i as int)[j]);
                assert(s@.subrange(from as int, i as int + 1)[i - from] == s@[i as int]);
            }
        }
        acc = acc * 10 + (u - 48);
        i = i + 1;
    }
    Some(acc)
}

/// Compares two strings character by character.
pub fn str_eq(a: &str, b: &str) -> (r: bool)
    ensures
        r == (a@ == b@),
{
    let la = a.unicode_len();
    let lb = b.unicode_len();
    if la != lb {
        proof {
            assert(a@ != b@) by {
                assert(a@.len() != b@.len());
            }
        }
        return false;
    }
    let mut i: usize = 0;
    while i < la
        invariant
            la == a@.len() == b@.len(),
            i <= la,
            forall|j: int| 0 <= j < i ==> a@[j] == b@[j],
        decreases la - i,
    {
        if a.get_char(i) != b.get_char(i) {
            proof {
                assert(a@[i as int] != b@[i as int]);
            }
            return false;
        }
        i = i + 1;
    }
    proof {
        assert(a@ =~= b@);
    }
    true
}

/// Types of input forms (documents received by the taxpayer).
#[derive(Debug, Clone, Copy, PartialEq, Eq, Structural)]
pub enum InputFormType {
    /// Form W-2: Wage and Tax Statement
    W2,
    /// Form 1099-INT: Interest Income
    F1099Int,
    /// Form 1099-DIV: Dividends and Distributions
    F1099Div,
    /// Form 1099-B: Proceeds from Broker Transactions
    F1099B,
    /// Form 1099-R: Distributions from Pensions, Annuities, etc.
    F1099R,
    /// Form 1099-G: Government Payments (unemployment, state refunds)
    F1099G,
    /// Form 1099-MISC: Miscellaneous Income
    F1099Misc,
    /// Form 1099-NEC: Nonemployee Compensation
    F1099Nec,
    /// Form 1099-K: Payment Card and Third Party Network Transactions
    F1099K,
    /// Form SSA-1099: Social Security Benefit Statement
    Ssa1099,
    /// Form 1098: Mortgage Interest Statement
    F1098,
    /// Form 1098-T: Tuition Statement
    F1098T,
    /// Form 1098-E: Student Loan Interest Statement
    F1098E,
}

impl InputFormType {
    /// The human-readable form name.
    pub fn label(&self) -> (r: &'static str)
        ensures
            r@ == match self {
                InputFormType::W2 => "W-2"@,
                InputFormType::F1099Int => "1099-INT"@,
                InputFormType::F1099Div => "1099-DIV"@,
                InputFormType::F1099B => "1099-B"@,
                InputFormType::F1099R => "1099-R"@,
                InputFormType::F1099G => "1099-G"@,
                InputFormType::F1099Misc => "1099-MISC"@,
                InputFormType::F1099Nec => "1099-NEC"@,
                InputFormType::F1099K => "1099-K"@,
                InputFormType::Ssa1099 => "SSA-1099"@,
                InputFormType::F1098 => "1098"@,
                InputFormType::F1098T => "1098-T"@,
                InputFormType::F1098E => "1098-E"@,
            },
    {
        match self {
            InputFormType::W2 => "W-2",
            InputFormType::F1099Int => "1099-INT",
            InputFormType::F1099Div => "1099-DIV",
            InputFormType::F1099B => "1099-B",
            InputFormType::F1099R => "1099-R",
            InputFormType::F1099G => "1099-G",
            InputFormType::F1099Misc => "1099-MISC",
            InputFormType::F1099Nec => "1099-NEC",
            InputFormType::F1099K => "1099-K",
            InputFormType::Ssa1099 => "SSA-1099",
            InputFormType::F1098 => "1098",
            InputFormType::F1098T => "1098-T",
            InputFormType::F1098E => "1098-E",
        }
    }
}

/// Types of output forms (forms produced by the calculator).
#[derive(Debug, Clone, Copy, PartialEq, Eq, Structural)]
pub enum OutputFormType {
    /// Form 1040: U.S. Individual Income Tax Return
    Form1040,
    /// Schedule 1: Additional Income and Adjustments to Income
    Schedule1,
    /// Schedule 2: Additional Taxes
    Schedule2,
    /// Schedule 3: Additional Credits and Payments
    Schedule3,
    /// Schedule A: Itemized Deductions
    ScheduleA,
    /// Schedule B: Interest and Ordinary Dividends
    ScheduleB,
    /// Schedule C: Profit or Loss From Business
    ScheduleC,
    /// Schedule D: Capital Gains and Losses
    ScheduleD,
    /// Schedule E: Supplemental Income and Loss
    ScheduleE,
    /// Schedule SE: Self-Employment Tax
    ScheduleSE,
    /// Schedule 8812: Credits for Qualifying Children
    Schedule8812,
    /// Schedule EIC: Earned Income Credit
    ScheduleEic,
}

impl OutputFormType {
    /// The human-readable form name.
    pub fn label(&self) -> (r: &'static str)
        ensures
            r@ == match self {
                OutputFormType::Form1040 => "Form 1040"@,
                OutputFormType::Schedule1 => "Schedule 1"@,
                OutputFormType::Schedule2 => "Schedule 2"@,
                OutputFormType::Schedule3 => "Schedule 3"@,
                OutputFormType::ScheduleA => "Schedule A"@,
                OutputFormType::ScheduleB => "Schedule B"@,
                OutputFormType::ScheduleC => "Schedule C"@,
                OutputFormType::ScheduleD => "Schedule D"@,
                OutputFormType::ScheduleE => "Schedule E"@,
                OutputFormType::ScheduleSE => "Schedule SE"@,
                OutputFormType::Schedule8812 => "Schedule 8812"@,
                OutputFormType::ScheduleEic => "Schedule EIC"@,
            },
    {
        match self {
            OutputFormType::Form1040 => "Form 1040",
            OutputFormType::Schedule1 => "Schedule 1",
            OutputFormType::Schedule2 => "Schedule 2",
            OutputFormType::Schedule3 => "Schedule 3",
            OutputFormType::ScheduleA => "Schedule A",
            OutputFormType::ScheduleB => "Schedule B",
            OutputFormType::ScheduleC => "Schedule C",
            OutputFormType::ScheduleD => "Schedule D",
            OutputFormType::ScheduleE => "Schedule E",
            OutputFormType::ScheduleSE => "Schedule SE",
            OutputFormType::Schedule8812 => "Schedule 8812",
            OutputFormType::ScheduleEic => "Schedule EIC",
        }
    }
}

} // verus!
