//! The output-form capability contract: any produced form exposes its lines
//! by identifier, and an ordered enumeration of identifier, label and value
//! for reporting, independent of how the values were computed.

use vstd::prelude::*;

use crate::types::{OutputFormType, TaxYear};
use crate::usd_amount::UsdAmount;

verus! {

/// A typed value a form line can hold.  Currently only currency; other
/// value kinds can be added as further variants.
#[derive(Debug, Clone, Copy, PartialEq, Eq, Structural)]
pub enum FormValue {
    /// A currency amount.
    Currency(UsdAmount),
}

/// One line of a produced form: its identifier, a human-readable label, and
/// the value it holds.
#[derive(Debug, Clone)]
pub struct FormLine {
    /// Line identifier, as printed on the form (e.g. `1a`).
    pub line_id: String,
    /// Human-readable label.
    pub label: String,
    /// The value the line holds.
    pub value: FormValue,
}

impl View for FormLine {
    type V = (Seq<char>, Seq<char>, FormValue);

    /// The entry as its identifier, its label and its value.
    open spec fn view(&self) -> (Seq<char>, Seq<char>, FormValue) {
        (self.line_id@, self.label@, self.value)
    }
}

/// Trait implemented by all produced forms.
pub trait OutputForm {
    /// The form's type identifier.
    spec fn spec_form_type(&self) -> OutputFormType;

    /// The tax year the form is for.
    spec fn spec_tax_year(&self) -> TaxYear;

    /// The value of the line with the given identifier, if the form has one.
    spec fn spec_line(&self, line_id: Seq<char>) -> Option<FormValue>;

    /// The reporting enumeration, entry by entry and in order: each entry's
    /// identifier, label and value.
    spec fn spec_lines(&self) -> Seq<(Seq<char>, Seq<char>, FormValue)>;

    /// Returns the form type identifier.
    fn form_type(&self) -> (r: OutputFormType)
        ensures
            r == self.spec_form_type(),
    ;

    /// Returns the tax year this form is for.
    fn tax_year(&self) -> (r: TaxYear)
        ensures
            r == self.spec_tax_year(),
    ;

    /// Returns the value of the line with the given identifier.
    fn line(&self, line_id: &str) -> (r: Option<FormValue>)
        ensures
            r == self.spec_line(line_id@),
    ;

    /// Returns the ordered enumeration of lines for reporting: exactly the
    /// entries [`Self::spec_lines`] names, identifier, label and value.
    fn lines(&self) -> (r: Vec<FormLine>)
        ensures
            r@.len() == self.spec_lines().len(),
            forall|i: int| 0 <= i < r@.len() ==> (#[trigger] r@[i])@ == self.spec_lines()[i],
    ;
}

} // verus!
