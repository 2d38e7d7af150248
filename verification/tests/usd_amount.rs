//! Tests for the exact-decimal currency type.

use honest_tax_core::usd_amount::{Rate, UsdAmount};

#[test]
fn test_from_cents() {
    let m = UsdAmount::from_cents(12345);
    assert_eq!(m.as_cents(), 12345);
    assert_eq!(m.display_string(), "$123.45");
}

#[test]
fn test_from_dollars() {
    let m = UsdAmount::from_dollars(100);
    assert_eq!(m.as_cents(), 10000);
}

#[test]
fn test_rounding() {
    // $123.49 rounds to $123
    let m1 = UsdAmount::from_cents(12349);
    assert_eq!(m1.round_to_dollar().as_cents(), 12300);

    // $123.50 rounds to $124
    let m2 = UsdAmount::from_cents(12350);
    assert_eq!(m2.round_to_dollar().as_cents(), 12400);

    // $123.51 rounds to $124
    let m3 = UsdAmount::from_cents(12351);
    assert_eq!(m3.round_to_dollar().as_cents(), 12400);
}

#[test]
fn test_rounding_negative_half_away() {
    // -$123.50 rounds away from zero, to -$124
    let m = UsdAmount::from_cents(-12350);
    assert_eq!(m.round_to_dollar().as_cents(), -12400);
    // -$123.49 rounds to -$123
    let m2 = UsdAmount::from_cents(-12349);
    assert_eq!(m2.round_to_dollar().as_cents(), -12300);
}

#[test]
fn test_saturating_sub() {
    let a = UsdAmount::from_dollars(100);
    let b = UsdAmount::from_dollars(150);
    assert_eq!(a.saturating_sub(&b), UsdAmount::zero());
    assert_eq!(b.saturating_sub(&a), UsdAmount::from_dollars(50));
}

#[test]
fn test_saturating_sub_equal_operands() {
    let a = UsdAmount::from_dollars(100);
    let b = UsdAmount::from_dollars(100);
    assert_eq!(a.saturating_sub(&b).as_cents(), 0);
    assert!(!a.saturating_sub(&b).is_negative());
}

#[test]
fn test_sum() {
    let amounts = vec![
        UsdAmount::from_dollars(100),
        UsdAmount::from_dollars(200),
        UsdAmount::from_dollars(300),
    ];
    let total: UsdAmount = UsdAmount::sum(&amounts);
    assert_eq!(total, UsdAmount::from_dollars(600));
}

#[test]
fn test_multiply_rate_is_exact() {
    // 22% of $1,525 is exactly $335.50
    let amount = UsdAmount::from_dollars(1525);
    let rate = Rate::from_basis_points(2200);
    assert_eq!(amount.multiply_rate(rate).as_cents(), 33550);
}

#[test]
fn test_round_to_cents_half_away() {
    // 10% of $123.45 is $12.345, which rounds to $12.35 (half away from zero)
    let amount = UsdAmount::from_cents(12345);
    let tenth = amount.multiply_rate(Rate::from_basis_points(1000));
    assert_eq!(tenth.round_to_cents().as_cents(), 1235);
}

#[test]
fn test_trunc_to_dollar() {
    assert_eq!(UsdAmount::from_cents(12399).trunc_to_dollar().as_cents(), 12300);
    assert_eq!(UsdAmount::from_cents(-12399).trunc_to_dollar().as_cents(), -12300);
}

#[test]
fn test_comparisons_across_scales() {
    // $1.00 held at cent precision equals $1 held at dollar precision
    let cents = UsdAmount::from_cents(100);
    let dollars = UsdAmount::from_dollars(1);
    assert!(cents.le(&dollars));
    assert!(cents.ge(&dollars));
    assert!(!cents.lt(&dollars));
    assert!(UsdAmount::from_cents(99).lt(&dollars));
}

#[test]
fn test_sign_predicates_and_abs() {
    let neg = UsdAmount::from_cents(-50);
    assert!(neg.is_negative());
    assert!(!neg.is_positive());
    assert!(!neg.is_zero());
    assert_eq!(neg.abs().as_cents(), 50);
    assert!(UsdAmount::zero().is_zero());
}

#[test]
fn test_min_max() {
    let a = UsdAmount::from_dollars(3);
    let b = UsdAmount::from_dollars(7);
    assert_eq!(a.min(b).as_cents(), 300);
    assert_eq!(a.max(b).as_cents(), 700);
}

#[test]
fn test_try_new_checks_bounds() {
    let a = UsdAmount::try_new(12345, 2).expect("in range");
    assert_eq!(a.as_cents(), 12345);
    // A scale beyond the supported precision is rejected.
    assert!(UsdAmount::try_new(1, 13).is_none());
    // A value beyond the representable magnitude is rejected.
    assert!(UsdAmount::try_new(i128::MAX, 0).is_none());
}

#[test]
fn test_display_negative() {
    let m = UsdAmount::from_cents(-12350);
    assert_eq!(m.display_string(), "$-123.50");
}

#[test]
fn test_add_sub_exact() {
    let a = UsdAmount::from_cents(105);
    let b = UsdAmount::from_cents(7);
    assert_eq!(a.add(&b).as_cents(), 112);
    assert_eq!(b.sub(&a).as_cents(), -98);
    let mut c = a;
    c.add_assign(&b);
    assert_eq!(c.as_cents(), 112);
    c.sub_assign(&b);
    assert_eq!(c.as_cents(), 105);
}
