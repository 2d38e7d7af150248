//! Year lookup: maps a requested tax year to its rules, or reports the
//! supported range.  The loader performs no computation itself.

use vstd::prelude::*;

use crate::error::{TaxError, TaxResult};
use crate::rules::TaxRules;
use crate::types::{TaxYear, MAX_SUPPORTED_YEAR, MIN_SUPPORTED_YEAR};
use crate::y2025::{is_rules_2025, Rules2025};

verus! {

/// Loader for tax rules by year: a small closed mapping, so unsupported
/// years are caught at this boundary.
#[derive(Debug)]
pub struct RulesLoader {}

impl RulesLoader {
    /// Creates a new rules loader.
    pub fn new() -> (r: RulesLoader) {
        RulesLoader {}
    }

    /// Returns the tax rules for the given year; for an unsupported year,
    /// the error names the requested year and the supported range.
    pub fn load(&self, year: TaxYear) -> (r: TaxResult<Rules2025>)
        ensures
            match r {
                Ok(rules) => MIN_SUPPORTED_YEAR <= year <= MAX_SUPPORTED_YEAR && rules.inv()
                    && rules.spec_year() == year && is_rules_2025(rules),
                Err(e) => !(MIN_SUPPORTED_YEAR <= year <= MAX_SUPPORTED_YEAR) && e
                    == TaxError::UnsupportedTaxYear(year, MIN_SUPPORTED_YEAR, MAX_SUPPORTED_YEAR),
            },
    {
        match year {
            2025 => Ok(Rules2025::new()),
            _ => Err(TaxError::UnsupportedTaxYear(year, MIN_SUPPORTED_YEAR, MAX_SUPPORTED_YEAR)),
        }
    }

    /// Returns true if the given year is supported.
    pub fn is_supported(&self, year: TaxYear) -> (r: bool)
        ensures
            r == (MIN_SUPPORTED_YEAR <= year <= MAX_SUPPORTED_YEAR),
    {
        MIN_SUPPORTED_YEAR <= year && year <= MAX_SUPPORTED_YEAR
    }

    /// Returns the closed range of supported years, first and last.
    pub fn supported_years(&self) -> (r: (TaxYear, TaxYear))
        ensures
            r.0 == MIN_SUPPORTED_YEAR,
            r.1 == MAX_SUPPORTED_YEAR,
    {
        (MIN_SUPPORTED_YEAR, MAX_SUPPORTED_YEAR)
    }
}

impl Default for RulesLoader {
    /// A fresh loader.
    fn default() -> (r: RulesLoader) {
        RulesLoader::new()
    }
}

} // verus!
