use hmac::{Hmac, Mac};
use olympus_core::money::Money;
use olympus_core::payment_api::{
    admit_webhook, check_simulation_enabled, check_webhook_amount, decide_verification,
    decide_webhook, order_status_name, payment_status_name, require_payment, validate_reference,
    PaymentWebhook, Settlement, Transition,
};
use olympus_core::payments::{
    any_active_payment, check_no_active_payment, check_order_payable, normalize_provider, order_status_after_opening,
    payment_for, CreatePayment, PayableOrder,
};
use olympus_core::status::Status;
use sha2::Sha256;

fn payable(status: &str) -> PayableOrder {
    PayableOrder { id: 5, total_amount: Money::new(31900, 2), currency: "BDT".into(), status: status.into() }
}

#[test]
fn providers_are_normalized_and_restricted() {
    let p = |s: &str| normalize_provider(&CreatePayment { provider: s.into() });
    assert_eq!(p(" stripe "), Ok("STRIPE".to_string()));
    assert_eq!(p("bKash"), Ok("BKASH".to_string()));
    assert_eq!(p("NAGAD"), Ok("NAGAD".to_string()));
    assert_eq!(p("paypal"), Err(Status::BadRequest));
}

#[test]
fn only_orders_awaiting_payment_are_payable() {
    assert_eq!(check_order_payable(None).err(), Some(Status::NotFound));
    assert_eq!(check_order_payable(Some(payable("PAID"))).err(), Some(Status::Conflict));
    assert_eq!(check_order_payable(Some(payable("SHIPPED"))).err(), Some(Status::Conflict));
    assert!(check_order_payable(Some(payable("PENDING_PAYMENT"))).is_ok());
    assert!(check_order_payable(Some(payable("PAYMENT_FAILED"))).is_ok());
    assert_eq!(check_no_active_payment(true), Err(Status::Conflict));
    assert_eq!(check_no_active_payment(false), Ok(()));
}

#[test]
fn a_new_payment_is_pending_for_the_order_total() {
    let order = payable("PENDING_PAYMENT");
    let p = payment_for(&order, "NAGAD".into());
    assert_eq!(p.order_id, 5);
    assert_eq!(p.status, "PENDING");
    assert_eq!(p.amount, Money::new(319, 0));
    assert_eq!(p.currency, "BDT");
    assert_eq!(order_status_after_opening(), "PENDING_PAYMENT");
}

#[test]
fn verification_settles_only_pending_payments() {
    assert_eq!(decide_verification("PAID", false), Ok(Transition::Unchanged));
    assert_eq!(decide_verification("PENDING", true), Ok(Transition::Settle(Settlement::Paid)));
    assert_eq!(decide_verification("PENDING", false), Ok(Transition::Settle(Settlement::Failed)));
    assert_eq!(decide_verification("FAILED", true), Err(Status::Conflict));
    assert_eq!(payment_status_name(Settlement::Failed), "FAILED");
    assert_eq!(order_status_name(Settlement::Failed), "PAYMENT_FAILED");
    assert_eq!(order_status_name(Settlement::Paid), "PAID");
}

#[test]
fn webhooks_are_idempotent() {
    assert_eq!(decide_webhook("PENDING", Settlement::Paid), Ok(Transition::Settle(Settlement::Paid)));
    assert_eq!(decide_webhook("PAID", Settlement::Paid), Ok(Transition::Unchanged));
    assert_eq!(decide_webhook("FAILED", Settlement::Failed), Ok(Transition::Unchanged));
    assert_eq!(decide_webhook("PAID", Settlement::Failed), Err(Status::Conflict));
}

#[test]
fn simulation_and_references_are_checked() {
    assert_eq!(check_simulation_enabled(Some("true")), Ok(()));
    assert_eq!(check_simulation_enabled(Some("yes")), Err(Status::NotImplemented));
    assert_eq!(check_simulation_enabled(None), Err(Status::NotImplemented));
    assert_eq!(validate_reference("  ref-1 "), Ok("ref-1"));
    assert_eq!(validate_reference("   "), Err(Status::BadRequest));
    assert_eq!(validate_reference(&"r".repeat(161)), Err(Status::BadRequest));
    assert_eq!(require_payment(None).err(), Some(Status::NotFound));
}

#[test]
fn webhook_amounts_compare_as_numbers() {
    assert_eq!(check_webhook_amount(&Money::new(1, 0), &Money::new(100, 2)), Ok(()));
    assert_eq!(check_webhook_amount(&Money::new(1, 0), &Money::new(101, 2)), Err(Status::BadRequest));
}

fn sign(secret: &[u8], body: &[u8]) -> String {
    let mut mac = Hmac::<Sha256>::new_from_slice(secret).unwrap();
    mac.update(body);
    format!("sha256={}", hex::encode(mac.finalize().into_bytes()))
}

fn webhook(status: &str, reference: &str, amount: Money) -> PaymentWebhook {
    PaymentWebhook { payment_id: 1, provider_reference: reference.into(), status: status.into(), amount }
}

#[test]
fn webhook_checks_come_in_order() {
    let body = b"{\"payment_id\":1}";
    let good = sign(b"s3cret", body);
    let req = webhook(" paid", "ref", Money::new(10, 0));
    assert_eq!(admit_webhook(None, Some(&good), &req, Some(body)), Err(Status::ServiceUnavailable));
    assert_eq!(admit_webhook(Some(b"s3cret"), None, &req, Some(body)), Err(Status::Unauthorized));
    let negative = webhook("PAID", "ref", Money::new(-10, 0));
    assert_eq!(admit_webhook(Some(b"s3cret"), Some(&good), &negative, Some(body)), Err(Status::BadRequest));
    let pending = webhook("PENDING", "ref", Money::new(10, 0));
    assert_eq!(admit_webhook(Some(b"s3cret"), Some(&good), &pending, Some(body)), Err(Status::BadRequest));
    assert_eq!(admit_webhook(Some(b"s3cret"), Some(&good), &req, None), Err(Status::BadRequest));
    assert_eq!(admit_webhook(Some(b"other"), Some(&good), &req, Some(body)), Err(Status::Unauthorized));
    assert_eq!(admit_webhook(Some(b"s3cret"), Some(&good), &req, Some(body)), Ok(Settlement::Paid));
    let upper = good.to_uppercase().replace("SHA256=", "");
    assert_eq!(admit_webhook(Some(b"s3cret"), Some(&upper), &req, Some(body)), Ok(Settlement::Paid));
}

#[test]
fn an_order_gets_a_payment_only_without_an_active_one() {
    let statuses = |v: &[&str]| v.iter().map(|s| s.to_string()).collect::<Vec<String>>();
    assert!(!any_active_payment(&statuses(&[])));
    assert!(!any_active_payment(&statuses(&["FAILED", "FAILED"])));
    assert!(any_active_payment(&statuses(&["FAILED", "PENDING"])));
    assert!(any_active_payment(&statuses(&["PAID"])));
    assert_eq!(check_no_active_payment(any_active_payment(&statuses(&["FAILED"]))), Ok(()));
    assert_eq!(
        check_no_active_payment(any_active_payment(&statuses(&["PAID"]))),
        Err(Status::Conflict)
    );
}
