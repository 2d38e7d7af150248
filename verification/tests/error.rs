//! Tests for the accumulating validator.

use honest_tax_core::error::{TaxError, ValidationError, ValidationErrors, ValidationSeverity};

#[test]
fn test_validation_severities_are_independent() {
    let mut v = ValidationErrors::new();
    assert!(v.is_empty());
    assert!(!v.has_errors());
    assert!(!v.has_warnings());

    v.add(ValidationError::warning("box_8", "Allocated tips look high"));
    assert!(!v.has_errors());
    assert!(v.has_warnings());
    assert!(!v.is_empty());

    v.add_error("box_1_wages", "Wages cannot be negative");
    assert!(v.has_errors());
    assert!(v.has_warnings());
    assert_eq!(v.all().len(), 2);
    assert_eq!(v.errors().len(), 1);
    assert_eq!(v.warnings().len(), 1);
    assert_eq!(v.errors()[0].field, "box_1_wages");
    assert_eq!(v.warnings()[0].severity, ValidationSeverity::Warning);
}

#[test]
fn test_into_result_ok_without_errors() {
    let mut v = ValidationErrors::new();
    v.add(ValidationError::warning("box_8", "Allocated tips look high"));
    assert!(v.into_result().is_ok());
}

#[test]
fn test_into_result_joins_all_error_messages() {
    let mut v = ValidationErrors::new();
    v.add_error("a", "first problem");
    v.add(ValidationError::warning("b", "ignorable"));
    v.add_error("c", "second problem");
    match v.into_result() {
        Err(TaxError::InvalidValue { field, reason }) => {
            assert_eq!(field, "multiple");
            assert_eq!(reason, "first problem; second problem");
        }
        other => panic!("expected a combined failure, got {:?}", other),
    }
}

#[test]
fn test_validation_error_constructors() {
    let e = ValidationError::error("f", "m");
    assert_eq!(e.severity, ValidationSeverity::Error);
    assert_eq!(e.field, "f");
    assert_eq!(e.message, "m");
    let w = ValidationError::warning("f", "m");
    assert_eq!(w.severity, ValidationSeverity::Warning);
}

#[test]
fn test_default_is_empty() {
    let v = ValidationErrors::default();
    assert!(v.is_empty());
}
