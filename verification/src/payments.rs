//! Opening a payment for an order, and how payments settle.
use crate::money::Money;
use crate::status::Status;
use crate::text::{str_eq, to_uppercase, trim, trimmed, uppercase};
use vstd::prelude::*;

verus! {

/// A payment as it is stored and answered.
#[derive(Debug)]
pub struct Payment {
    pub id: u128,
    pub order_id: u128,
    pub provider: String,
    pub status: String,
    pub amount: Money,
    pub currency: String,
    pub provider_reference: Option<String>,
}

/// The body of a request to pay for an order.
pub struct CreatePayment {
    pub provider: String,
}

/// The order to be paid, locked: id, total, currency and status.
#[derive(Debug)]
pub struct PayableOrder {
    pub id: u128,
    pub total_amount: Money,
    pub currency: String,
    pub status: String,
}

/// A payment about to be recorded: it starts `PENDING`, for the order's
/// total in the order's currency.
#[derive(Debug)]
pub struct NewPayment {
    pub order_id: u128,
    pub provider: String,
    pub status: String,
    pub amount: Money,
    pub currency: String,
}

/// The payment providers the service accepts.
pub open spec fn supported_provider(p: Seq<char>) -> bool {
    p == "BKASH"@ || p == "NAGAD"@ || p == "STRIPE"@
}

/// The canonical name of the provider a request asks for.
pub open spec fn provider_name(req: CreatePayment) -> Seq<char> {
    uppercase(trimmed(req.provider@))
}

/// The provider of a payment request, trimmed and in upper case; one that
/// the service does not accept is a bad request.
pub fn normalize_provider(req: &CreatePayment) -> (r: Result<String, Status>)
    ensures
        r is Ok <==> supported_provider(provider_name(*req)),
        r matches Ok(p) ==> p@ == provider_name(*req),
        r matches Err(e) ==> e == Status::BadRequest,
{
    let p = to_uppercase(trim(req.provider.as_str()));
    if str_eq(p.as_str(), "BKASH") || str_eq(p.as_str(), "NAGAD") || str_eq(p.as_str(), "STRIPE") {
        Ok(p)
    } else {
        Err(Status::BadRequest)
    }
}

/// An order is awaiting payment: placed and not paid, or its last payment failed.
pub open spec fn awaiting_payment(status: Seq<char>) -> bool {
    status == "PENDING_PAYMENT"@ || status == "PAYMENT_FAILED"@
}

/// The order of a payment request must be the buyer's (otherwise it is not
/// found) and awaiting payment (otherwise, paid or not, it is a conflict).
pub fn check_order_payable(order: Option<PayableOrder>) -> (r: Result<PayableOrder, Status>)
    ensures
        order is None ==> r == Err::<PayableOrder, Status>(Status::NotFound),
        order matches Some(o) ==> (r is Ok <==> awaiting_payment(o.status@)),
        order matches Some(o) ==> (r matches Ok(p) ==> p == o),
        order matches Some(o) ==> (r matches Err(e) ==> e == Status::Conflict),
{
    match order {
        None => Err(Status::NotFound),
        Some(o) => {
            if str_eq(o.status.as_str(), "PAID") {
                proof {
                    reveal_strlit("PAID");
                    reveal_strlit("PENDING_PAYMENT");
                    reveal_strlit("PAYMENT_FAILED");
                    assert("PAID"@.len() != "PENDING_PAYMENT"@.len());
                    assert("PAID"@.len() != "PAYMENT_FAILED"@.len());
                }
                Err(Status::Conflict)
            } else if str_eq(o.status.as_str(), "PENDING_PAYMENT") || str_eq(
                o.status.as_str(),
                "PAYMENT_FAILED",
            ) {
                Ok(o)
            } else {
                Err(Status::Conflict)
            }
        },
    }
}

/// A payment that is pending or paid: one that keeps its order from getting another.
pub open spec fn is_active_payment(status: Seq<char>) -> bool {
    status == "PENDING"@ || status == "PAID"@
}

/// Whether some payment among `statuses` (those of one order) is active.
pub open spec fn has_active_payment(statuses: Seq<Seq<char>>) -> bool {
    exists|i: int| 0 <= i < statuses.len() && is_active_payment(#[trigger] statuses[i])
}

/// How many of the payments among `statuses` are active.
pub open spec fn active_payments(statuses: Seq<Seq<char>>) -> nat
    decreases statuses.len(),
{
    if statuses.len() == 0 {
        0
    } else {
        active_payments(statuses.drop_last()) + if is_active_payment(statuses.last()) {
            1nat
        } else {
            0nat
        }
    }
}

/// The statuses of the payments of an order, as plain text.
pub open spec fn statuses_of(payments: Seq<String>) -> Seq<Seq<char>> {
    payments.map_values(|s: String| s@)
}

/// Whether some payment of an order (given by the statuses of its payments)
/// is pending or paid.
pub fn any_active_payment(statuses: &Vec<String>) -> (r: bool)
    ensures
        r == has_active_payment(statuses_of(statuses@)),
{
    let n = statuses.len();
    let mut i: usize = 0;
    while i < n
        invariant
            n == statuses@.len(),
            i <= n,
            forall|j: int| 0 <= j < i ==> !is_active_payment(#[trigger] statuses_of(statuses@)[j]),
        decreases n - i,
    {
        let s = statuses[i].as_str();
        if str_eq(s, "PENDING") || str_eq(s, "PAID") {
            assert(is_active_payment(statuses_of(statuses@)[i as int]));
            return true;
        }
        i = i + 1;
    }
    false
}

/// An order with a payment that is pending or paid cannot get another one.
pub fn check_no_active_payment(active_payment_exists: bool) -> (r: Result<(), Status>)
    ensures
        r is Ok <==> !active_payment_exists,
        r matches Err(e) ==> e == Status::Conflict,
{
    if active_payment_exists {
        Err(Status::Conflict)
    } else {
        Ok(())
    }
}

/// The payment to record for `order` with `provider`.
pub fn payment_for(order: &PayableOrder, provider: String) -> (r: NewPayment)
    ensures
        r.order_id == order.id,
        r.provider == provider,
        r.status@ == "PENDING"@,
        r.amount == order.total_amount,
        r.currency == order.currency,
{
    NewPayment {
        order_id: order.id,
        provider,
        status: "PENDING".to_owned(),
        amount: order.total_amount,
        currency: order.currency.clone(),
    }
}

/// The status an order is set to once a payment has been opened for it.
pub fn order_status_after_opening() -> (r: &'static str)
    ensures
        r@ == "PENDING_PAYMENT"@,
{
    "PENDING_PAYMENT"
}

/// Without an active payment, an order has no active payment at all.
proof fn lemma_no_active_payment_counts_none(statuses: Seq<Seq<char>>)
    requires
        !has_active_payment(statuses),
    ensures
        active_payments(statuses) == 0,
    decreases statuses.len(),
{
    if statuses.len() > 0 {
        let rest = statuses.drop_last();
        assert forall|i: int| 0 <= i < rest.len() implies !is_active_payment(#[trigger] rest[i]) by {
            assert(rest[i] == statuses[i]);
        }
        lemma_no_active_payment_counts_none(rest);
        assert(!is_active_payment(statuses[statuses.len() - 1]));
    }
}

/// The payments of an order after a payment request: a new pending payment
/// is added exactly when none of the order's payments is active.
pub open spec fn payments_after_request(statuses: Seq<Seq<char>>) -> Seq<Seq<char>> {
    if has_active_payment(statuses) {
        statuses
    } else {
        statuses.push("PENDING"@)
    }
}

/// An order never has more than one active payment: a payment is opened
/// only for an order with none (and then it is the only one), and a
/// refused request adds nothing.
pub proof fn lemma_one_active_payment_per_order(statuses: Seq<Seq<char>>)
    ensures
        !has_active_payment(statuses) ==> active_payments(payments_after_request(statuses)) == 1,
        active_payments(statuses) <= 1 ==> active_payments(payments_after_request(statuses)) <= 1,
{
    reveal_strlit("PENDING");
    if !has_active_payment(statuses) {
        lemma_no_active_payment_counts_none(statuses);
        let after = statuses.push("PENDING"@);
        assert(after.drop_last() == statuses);
        assert(after.last() == "PENDING"@);
    }
}

/// Which requests may open a payment: the provider, trimmed and in upper
/// case, must be `BKASH`, `NAGAD` or `STRIPE`; the order must be
/// `PENDING_PAYMENT` or `PAYMENT_FAILED` (a `PAID` order never is).
pub proof fn lemma_payment_request_rules(req: CreatePayment, order_status: Seq<char>)
    ensures
        supported_provider(provider_name(req)) <==> ({
            let p = uppercase(trimmed(req.provider@));
            p == "BKASH"@ || p == "NAGAD"@ || p == "STRIPE"@
        }),
        awaiting_payment(order_status) <==> (order_status == "PENDING_PAYMENT"@ || order_status
            == "PAYMENT_FAILED"@),
        !awaiting_payment("PAID"@),
        is_active_payment(order_status) <==> (order_status == "PENDING"@ || order_status
            == "PAID"@),
{
    reveal_strlit("PAID");
    reveal_strlit("PENDING_PAYMENT");
    reveal_strlit("PAYMENT_FAILED");
    assert("PAID"@.len() != "PENDING_PAYMENT"@.len());
    assert("PAID"@.len() != "PAYMENT_FAILED"@.len());
}

} // verus!
