use olympus_core::checkout::{calculate_total, validate_checkout_inputs};
use olympus_core::money::Money;

#[test]
fn validates_normal_checkout_values() {
    assert!(validate_checkout_inputs(
        "checkout-123",
        "Dhaka, Bangladesh",
        Money::new(1000, 2),
        Money::new(50, 2),
    ));
}

#[test]
fn rejects_invalid_checkout_values() {
    assert!(!validate_checkout_inputs("", "Dhaka", Money::zero(), Money::zero()));
    assert!(!validate_checkout_inputs("key", "", Money::zero(), Money::zero()));
    assert!(!validate_checkout_inputs("key", "Dhaka", Money::new(-1, 2), Money::zero()));
    assert!(!validate_checkout_inputs("key", "Dhaka", Money::zero(), Money::new(-1, 2)));
    assert!(!validate_checkout_inputs(&"x".repeat(121), "Dhaka", Money::zero(), Money::zero()));
    assert!(!validate_checkout_inputs("key", &"x".repeat(501), Money::zero(), Money::zero()));
}

#[test]
fn calculates_checkout_total_exactly() {
    let subtotal = Money::new(12500, 2);
    let shipping = Money::new(1500, 2);
    let tax = Money::new(1875, 2);
    assert_eq!(calculate_total(subtotal, shipping, tax), Money::new(15875, 2));
}
