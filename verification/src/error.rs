//! Error types for the tax calculation engine, and the accumulating
//! validator that reports every offending field in one pass.

use vstd::prelude::*;
use vstd::string::StringExecFns;

use crate::types::{FilingStatus, TaxYear};

verus! {

/// Errors that can occur during tax calculation.
#[derive(Debug, Clone, PartialEq, Eq)]
pub enum TaxError {
    /// Tax year is not supported: the requested year, then the first and the
    /// last supported year.
    UnsupportedTaxYear(TaxYear, TaxYear, TaxYear),
    /// Invalid filing status for the given situation.
    InvalidFilingStatus { status: FilingStatus, reason: String },
    /// Missing required input.
    MissingInput(String),
    /// Invalid input value.
    InvalidValue { field: String, reason: String },
    /// Negative income where not allowed.
    NegativeIncome { field: String, value: String },
    /// SSN format is invalid.
    InvalidSsn(String),
    /// Date format is invalid (expected YYYY-MM-DD).
    InvalidDate(String),
    /// Inconsistent data between forms.
    InconsistentData(String),
    /// Form schema not found.
    SchemaNotFound { form_type: String, year: TaxYear },
    /// Rule data not found.
    RulesNotFound(TaxYear),
    /// Calculation overflow.
    Overflow(String),
}

/// Result type alias for tax operations.
pub type TaxResult<T> = Result<T, TaxError>;

/// Severity of a validation finding.
#[derive(Debug, Clone, Copy, PartialEq, Eq, Structural)]
pub enum ValidationSeverity {
    /// Error: calculation cannot proceed.
    Error,
    /// Warning: calculation can proceed but the result may be incorrect.
    Warning,
}

/// One validation finding: the field at fault, a message, and a severity.
#[derive(Debug, Clone, PartialEq, Eq)]
pub struct ValidationError {
    /// Field that failed validation.
    pub field: String,
    /// Error message.
    pub message: String,
    /// Severity level.
    pub severity: ValidationSeverity,
}

impl ValidationError {
    /// Creates a new error-level validation finding.
    pub fn error(field: &str, message: &str) -> (r: ValidationError)
        ensures
            r.field@ == field@,
            r.message@ == message@,
            r.severity == ValidationSeverity::Error,
    {
        ValidationError {
            field: field.to_owned(),
            message: message.to_owned(),
            severity: ValidationSeverity::Error,
        }
    }

    /// Creates a new warning-level validation finding.
    pub fn warning(field: &str, message: &str) -> (r: ValidationError)
        ensures
            r.field@ == field@,
            r.message@ == message@,
            r.severity == ValidationSeverity::Warning,
    {
        ValidationError {
            field: field.to_owned(),
            message: message.to_owned(),
            severity: ValidationSeverity::Warning,
        }
    }
}

/// Whether some entry of the sequence is error-severity.
pub open spec fn has_error_entry(s: Seq<ValidationError>) -> bool {
    exists|i: int| 0 <= i < s.len() && (#[trigger] s[i]).severity == ValidationSeverity::Error
}

/// Whether some entry of the sequence is warning-severity.
pub open spec fn has_warning_entry(s: Seq<ValidationError>) -> bool {
    exists|i: int| 0 <= i < s.len() && (#[trigger] s[i]).severity == ValidationSeverity::Warning
}

/// The entries of the given severity, in order.
pub open spec fn entries_with(s: Seq<ValidationError>, sev: ValidationSeverity) -> Seq<
    ValidationError,
>
    decreases s.len(),
{
    if s.len() == 0 {
        Seq::empty()
    } else if s.last().severity == sev {
        entries_with(s.drop_last(), sev) + seq![s.last()]
    } else {
        entries_with(s.drop_last(), sev)
    }
}

/// The messages of the error-severity entries, in order.
pub open spec fn error_messages(s: Seq<ValidationError>) -> Seq<Seq<char>>
    decreases s.len(),
{
    if s.len() == 0 {
        Seq::empty()
    } else if s.last().severity == ValidationSeverity::Error {
        error_messages(s.drop_last()) + seq![s.last().message@]
    } else {
        error_messages(s.drop_last())
    }
}

/// The given message sequences joined with `"; "`.
pub open spec fn joined_with_semicolons(msgs: Seq<Seq<char>>) -> Seq<char>
    decreases msgs.len(),
{
    if msgs.len() == 0 {
        Seq::empty()
    } else if msgs.len() == 1 {
        msgs[0]
    } else {
        joined_with_semicolons(msgs.drop_last()) + "; "@ + msgs.last()
    }
}

/// Collection of validation findings.  It accumulates every problem instead
/// of stopping at the first, so a caller sees the complete list.
#[derive(Debug)]
pub struct ValidationErrors {
    /// The findings, in the order they were added.
    pub errors: Vec<ValidationError>,
}

impl ValidationErrors {
    /// Creates a new empty collection.
    pub fn new() -> (r: ValidationErrors)
        ensures
            r.errors@.len() == 0,
    {
        ValidationErrors { errors: Vec::new() }
    }

    /// Adds a validation finding.
    pub fn add(&mut self, error: ValidationError)
        ensures
            final(self).errors@ == old(self).errors@.push(error),
    {
        self.errors.push(error);
    }

    /// Adds an error-level finding for the given field.
    pub fn add_error(&mut self, field: &str, message: &str)
        ensures
            final(self).errors@.len() == old(self).errors@.len() + 1,
            final(self).errors@.last().field@ == field@,
            final(self).errors@.last().message@ == message@,
            final(self).errors@.last().severity == ValidationSeverity::Error,
            forall|i: int|
                0 <= i < old(self).errors@.len() ==> final(self).errors@[i] == old(
                    self,
                ).errors@[i],
    {
        self.add(ValidationError::error(field, message));
    }

    /// Returns true if there is any error-severity finding (warnings do not
    /// count).
    pub fn has_errors(&self) -> (r: bool)
        ensures
            r == has_error_entry(self.errors@),
    {
        let mut i: usize = 0;
        while i < self.errors.len()
            invariant
                i <= self.errors@.len(),
                forall|j: int|
                    0 <= j < i ==> (#[trigger] self.errors@[j]).severity
                        != ValidationSeverity::Error,
            decreases self.errors@.len() - i,
        {
            if matches!(self.errors[i].severity, ValidationSeverity::Error) {
                return true;
            }
            i = i + 1;
        }
        false
    }

    /// Returns true if there is any warning-severity finding.
    pub fn has_warnings(&self) -> (r: bool)
        ensures
            r == has_warning_entry(self.errors@),
    {
        let mut i: usize = 0;
        while i < self.errors.len()
            invariant
                i <= self.errors@.len(),
                forall|j: int|
                    0 <= j < i ==> (#[trigger] self.errors@[j]).severity
                        != ValidationSeverity::Warning,
            decreases self.errors@.len() - i,
        {
            if matches!(self.errors[i].severity, ValidationSeverity::Warning) {
                return true;
            }
            i = i + 1;
        }
        false
    }

    /// Returns true if there are no findings at all.
    pub fn is_empty(&self) -> (r: bool)
        ensures
            r == (self.errors@.len() == 0),
    {
        self.errors.len() == 0
    }

    /// The error-severity findings, in order.
    pub fn errors(&self) -> (r: Vec<&ValidationError>)
        ensures
            r@.len() == entries_with(self.errors@, ValidationSeverity::Error).len(),
            forall|i: int|
                0 <= i < r@.len() ==> *(#[trigger] r@[i]) == entries_with(
                    self.errors@,
                    ValidationSeverity::Error,
                )[i],
    {
        self.filtered(ValidationSeverity::Error)
    }

    /// The warning-severity findings, in order.
    pub fn warnings(&self) -> (r: Vec<&ValidationError>)
        ensures
            r@.len() == entries_with(self.errors@, ValidationSeverity::Warning).len(),
            forall|i: int|
                0 <= i < r@.len() ==> *(#[trigger] r@[i]) == entries_with(
                    self.errors@,
                    ValidationSeverity::Warning,
                )[i],
    {
        self.filtered(ValidationSeverity::Warning)
    }

    /// The findings of the chosen severity, in order.
    fn filtered(&self, wanted: ValidationSeverity) -> (r: Vec<&ValidationError>)
        ensures
            r@.len() == entries_with(self.errors@, wanted).len(),
            forall|i: int|
                0 <= i < r@.len() ==> *(#[trigger] r@[i]) == entries_with(
                    self.errors@,
                    wanted,
                )[i],
    {
        let mut r: Vec<&ValidationError> = Vec::new();
        let mut i: usize = 0;
        proof {
            assert(self.errors@.take(0) =~= Seq::<ValidationError>::empty());
        }
        while i < self.errors.len()
            invariant
                i <= self.errors@.len(),
                r@.len() == entries_with(self.errors@.take(i as int), wanted).len(),
                forall|j: int|
                    0 <= j < r@.len() ==> *(#[trigger] r@[j]) == entries_with(
                        self.errors@.take(i as int),
                        wanted,
                    )[j],
            decreases self.errors@.len() - i,
        {
            let e = &self.errors[i];
            proof {
                assert(self.errors@.take(i + 1).drop_last() =~= self.errors@.take(i as int));
                assert(self.errors@.take(i + 1).last() == self.errors@[i as int]);
            }
            if e.severity == wanted {
                r.push(e);
            }
            i = i + 1;
        }
        proof {
            assert(self.errors@.take(self.errors@.len() as int) =~= self.errors@);
        }
        r
    }

    /// All findings, in the order they were added.
    pub fn all(&self) -> (r: &Vec<ValidationError>)
        ensures
            r@ == self.errors@,
    {
        &self.errors
    }

    /// Fails with a combined message exactly when an error-severity finding
    /// exists; warnings never block success.
    pub fn into_result(self) -> (r: TaxResult<()>)
        ensures
            match r {
                Ok(()) => !has_error_entry(self.errors@),
                Err(e) => has_error_entry(self.errors@) && (e matches TaxError::InvalidValue {
                    field,
                    reason,
                } && field@ == "multiple"@ && reason@ == joined_with_semicolons(
                    error_messages(self.errors@),
                )),
            },
    {
        if !self.has_errors() {
            proof {
                lemma_no_error_entry_no_messages(self.errors@);
            }
            return Ok(());
        }
        let mut reason = String::new();
        let mut first = true;
        let mut i: usize = 0;
        proof {
            assert(self.errors@.take(0) =~= Seq::<ValidationError>::empty());
        }
        while i < self.errors.len()
            invariant
                i <= self.errors@.len(),
                first == (error_messages(self.errors@.take(i as int)).len() == 0),
                reason@ == joined_with_semicolons(error_messages(self.errors@.take(i as int))),
            decreases self.errors@.len() - i,
        {
            let e = &self.errors[i];
            proof {
                assert(self.errors@.take(i + 1).drop_last() =~= self.errors@.take(i as int));
                assert(self.errors@.take(i + 1).last() == self.errors@[i as int]);
            }
            if matches!(e.severity, ValidationSeverity::Error) {
                proof {
                    let msgs = error_messages(self.errors@.take(i as int));
                    let next = error_messages(self.errors@.take(i + 1));
                    assert(next == msgs + seq![self.errors@[i as int].message@]);
                    assert(next.drop_last() =~= msgs);
                    assert(next.last() == self.errors@[i as int].message@);
                }
                if first {
                    reason.append(e.message.as_str());
                    first = false;
                } else {
                    reason.append("; ");
                    reason.append(e.message.as_str());
                }
            }
            i = i + 1;
        }
        proof {
            assert(self.errors@.take(self.errors@.len() as int) =~= self.errors@);
            lemma_error_entry_gives_message(self.errors@);
        }
        Err(TaxError::InvalidValue { field: String::from_str("multiple"), reason })
    }
}

impl Default for ValidationErrors {
    /// An empty collection.
    fn default() -> (r: ValidationErrors)
        ensures
            r.errors@.len() == 0,
    {
        ValidationErrors::new()
    }
}

/// Appending an error-severity entry appends its message; appending a
/// warning leaves the error messages unchanged.
pub proof fn lemma_error_messages_after_add(
    pre: Seq<ValidationError>,
    post: Seq<ValidationError>,
    msg: Seq<char>,
)
    requires
        post.len() == pre.len() + 1,
        forall|i: int| 0 <= i < pre.len() ==> post[i] == pre[i],
        post.last().severity == ValidationSeverity::Error,
        post.last().message@ == msg,
    ensures
        error_messages(post) == error_messages(pre) + seq![msg],
        has_error_entry(post),
{
    assert(post.drop_last() =~= pre);
    assert(post[post.len() - 1].severity == ValidationSeverity::Error);
}

/// Without an error-severity entry there are no error messages.
pub proof fn lemma_no_error_entry_no_messages(s: Seq<ValidationError>)
    requires
        !has_error_entry(s),
    ensures
        error_messages(s).len() == 0,
    decreases s.len(),
{
    if s.len() > 0 {
        assert(!has_error_entry(s.drop_last())) by {
            assert(forall|i: int|
                0 <= i < s.len() - 1 ==> #[trigger] s.drop_last()[i] == s[i]);
        }
        lemma_no_error_entry_no_messages(s.drop_last());
    }
}

/// With an error-severity entry there is at least one error message.
pub proof fn lemma_error_entry_gives_message(s: Seq<ValidationError>)
    requires
        has_error_entry(s),
    ensures
        error_messages(s).len() > 0,
    decreases s.len(),
{
    if s.len() > 0 {
        if s.last().severity == ValidationSeverity::Error {
        } else {
            let i = choose|i: int|
                0 <= i < s.len() && (#[trigger] s[i]).severity == ValidationSeverity::Error;
            assert(s.drop_last()[i] == s[i]);
            lemma_error_entry_gives_message(s.drop_last());
        }
    }
}

} // verus!
