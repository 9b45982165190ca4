//! Checkout input validation and order totals.
use crate::money::{checked_add, decimal_checked_add, opt_view, Money};
use crate::text::{trim, trimmed, utf8_len, utf8_len_at_most};
use vstd::prelude::*;

verus! {

/// A trimmed field is present and at most `limit` bytes long.
pub open spec fn bounded_field(s: Seq<char>, limit: int) -> bool {
    trimmed(s).len() > 0 && utf8_len(trimmed(s)) <= limit
}

/// Checkout inputs are acceptable: an idempotency key of at most 120 bytes,
/// a shipping address of at most 500 bytes (both non-blank once trimmed), and
/// shipping and tax amounts without a negative sign.
pub open spec fn checkout_inputs_ok(
    idempotency_key: Seq<char>,
    shipping_address: Seq<char>,
    shipping: (bool, u128, u32),
    tax: (bool, u128, u32),
) -> bool {
    &&& bounded_field(idempotency_key, 120)
    &&& bounded_field(shipping_address, 500)
    &&& !shipping.0
    &&& !tax.0
}

/// Whether a trimmed field is present and at most `limit` bytes long.
pub fn bounded_text(s: &str, limit: usize) -> (r: bool)
    ensures
        r == bounded_field(s@, limit as int),
{
    let t = trim(s);
    t.unicode_len() > 0 && utf8_len_at_most(t, limit)
}

/// Whether the inputs of a checkout are acceptable.
pub fn validate_checkout_inputs(
    idempotency_key: &str,
    shipping_address: &str,
    shipping: Money,
    tax: Money,
) -> (r: bool)
    ensures
        r == checkout_inputs_ok(idempotency_key@, shipping_address@, shipping@, tax@),
{
    bounded_text(idempotency_key, 120) && bounded_text(shipping_address, 500)
        && !shipping.is_sign_negative() && !tax.is_sign_negative()
}

/// `subtotal + shipping + tax` as `rust_decimal` computes it, or `None` where
/// an addition overflows.
pub open spec fn total_of(
    subtotal: (bool, u128, u32),
    shipping: (bool, u128, u32),
    tax: (bool, u128, u32),
) -> Option<(bool, u128, u32)> {
    match decimal_checked_add(subtotal, shipping) {
        Some(partial) => decimal_checked_add(partial, tax),
        None => None,
    }
}

/// The order total, `subtotal + shipping + tax`.
pub fn calculate_total(subtotal: Money, shipping: Money, tax: Money) -> (r: Money)
    requires
        total_of(subtotal@, shipping@, tax@) is Some,
    ensures
        Some(r@) == total_of(subtotal@, shipping@, tax@),
{
    let partial = checked_add(&subtotal, &shipping);
    match partial {
        Some(p) => {
            let total = checked_add(&p, &tax);
            match total {
                Some(t) => t,
                None => {
                    assert(false);
                    Money::zero()
                },
            }
        },
        None => {
            assert(false);
            Money::zero()
        },
    }
}

/// The order total, or `None` where the sum overflows (where `calculate_total`
/// would not be defined).
pub fn checked_total(subtotal: Money, shipping: Money, tax: Money) -> (r: Option<Money>)
    ensures
        opt_view(r) == total_of(subtotal@, shipping@, tax@),
{
    match checked_add(&subtotal, &shipping) {
        None => None,
        Some(p) => match checked_add(&p, &tax) {
            None => None,
            Some(_) => Some(calculate_total(subtotal, shipping, tax)),
        },
    }
}

/// Checkout inputs are accepted exactly when the idempotency key, trimmed, is
/// neither empty nor longer than 120 bytes, the shipping address, trimmed, is
/// neither empty nor longer than 500 bytes, and neither shipping nor tax has a
/// negative sign.
pub proof fn lemma_checkout_input_rules(
    idempotency_key: Seq<char>,
    shipping_address: Seq<char>,
    shipping: (bool, u128, u32),
    tax: (bool, u128, u32),
)
    ensures
        checkout_inputs_ok(idempotency_key, shipping_address, shipping, tax) <==> (trimmed(
            idempotency_key,
        ).len() > 0 && utf8_len(trimmed(idempotency_key)) <= 120 && trimmed(shipping_address).len()
            > 0 && utf8_len(trimmed(shipping_address)) <= 500 && !shipping.0 && !tax.0),
{
}

} // verus!
