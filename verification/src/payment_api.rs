//! Settling payments: the simulated verification endpoint and the provider
//! webhook, whose requests are authenticated by an HMAC-SHA256 signature.
use crate::money::{same_number, Money};
use crate::status::Status;
use crate::text::{
    chars_of, has_prefix, str_eq, strip_prefix, to_uppercase, trim, trimmed, uppercase, utf8_len,
    utf8_len_at_most,
};
use hmac::{Hmac, Mac};
use sha2::Sha256;
use vstd::prelude::*;

verus! {

/// A payment as the payment endpoints answer it.
#[derive(Debug)]
pub struct PaymentStatus {
    pub id: u128,
    pub order_id: u128,
    pub provider: String,
    pub status: String,
    pub amount: Money,
    pub currency: String,
    pub provider_reference: Option<String>,
}

/// The body of a simulated payment verification.
pub struct VerifyPayment {
    pub provider_reference: String,
    pub success: bool,
}

/// The body of a provider's webhook call.
pub struct PaymentWebhook {
    pub payment_id: u128,
    pub provider_reference: String,
    pub status: String,
    pub amount: Money,
}

/// How a pending payment ends.
#[derive(Debug, Clone, Copy, PartialEq, Eq, Structural)]
pub enum Settlement {
    Paid,
    Failed,
}

/// What a settlement request does to a payment.
#[derive(Debug, Clone, Copy, PartialEq, Eq, Structural)]
pub enum Transition {
    /// The payment already is where the request would take it; it is answered as it is.
    Unchanged,
    /// The pending payment settles, and its order with it.
    Settle(Settlement),
}

/// The status a payment takes when it settles.
pub open spec fn payment_status_of(s: Settlement) -> Seq<char> {
    match s {
        Settlement::Paid => "PAID"@,
        Settlement::Failed => "FAILED"@,
    }
}

/// The status the payment's order takes when the payment settles.
pub open spec fn order_status_of(s: Settlement) -> Seq<char> {
    match s {
        Settlement::Paid => "PAID"@,
        Settlement::Failed => "PAYMENT_FAILED"@,
    }
}

/// The status a payment takes when it settles.
pub fn payment_status_name(s: Settlement) -> (r: &'static str)
    ensures
        r@ == payment_status_of(s),
{
    match s {
        Settlement::Paid => "PAID",
        Settlement::Failed => "FAILED",
    }
}

/// The status the payment's order takes when the payment settles.
pub fn order_status_name(s: Settlement) -> (r: &'static str)
    ensures
        r@ == order_status_of(s),
{
    match s {
        Settlement::Paid => "PAID",
        Settlement::Failed => "PAYMENT_FAILED",
    }
}

/// The settlement a webhook status names, once trimmed and in upper case.
pub open spec fn webhook_settlement(status: Seq<char>) -> Option<Settlement> {
    let u = uppercase(trimmed(status));
    if u == "PAID"@ {
        Some(Settlement::Paid)
    } else if u == "FAILED"@ {
        Some(Settlement::Failed)
    } else {
        None
    }
}

/// The settlement a webhook status names, if it names one.
pub fn webhook_settlement_of(status: &str) -> (r: Option<Settlement>)
    ensures
        r == webhook_settlement(status@),
{
    let u = to_uppercase(trim(status));
    if str_eq(u.as_str(), "PAID") {
        Some(Settlement::Paid)
    } else if str_eq(u.as_str(), "FAILED") {
        Some(Settlement::Failed)
    } else {
        None
    }
}

/// A webhook status, trimmed and in upper case, when it is `PAID` or `FAILED`.
pub fn normalize_webhook_status(status: &str) -> (r: Option<&'static str>)
    ensures
        r is Some <==> webhook_settlement(status@) is Some,
        r matches Some(s) ==> s@ == payment_status_of(webhook_settlement(status@).unwrap()),
{
    match webhook_settlement_of(status) {
        Some(s) => Some(payment_status_name(s)),
        None => None,
    }
}

/// A hexadecimal digit, in either case.
pub open spec fn is_hex_digit(c: char) -> bool {
    let u = c as u32;
    (0x30 <= u && u <= 0x39) || (0x61 <= u && u <= 0x66) || (0x41 <= u && u <= 0x46)
}

/// The value of a hexadecimal digit.
pub open spec fn hex_value(c: char) -> int {
    let u = c as u32;
    if u <= 0x39 {
        u - 0x30
    } else if u <= 0x46 {
        u - 0x41 + 10
    } else {
        u - 0x61 + 10
    }
}

/// The bytes that a string of hexadecimal digits encodes, two digits a byte,
/// the high half first.
pub open spec fn hex_bytes(s: Seq<char>) -> Seq<u8> {
    Seq::new(s.len() / 2, |i: int| (hex_value(s[2 * i]) * 16 + hex_value(s[2 * i + 1])) as u8)
}

/// Calls `hex::decode`: it decodes a string of hexadecimal digits (of either
/// case) of even length, two digits a byte, and refuses anything else.
#[verifier::external_body]
fn hex_decode(s: &str) -> (r: Option<Vec<u8>>)
    ensures
        r is Some <==> (s@.len() % 2 == 0 && forall|i: int|
            0 <= i < s@.len() ==> is_hex_digit(#[trigger] s@[i])),
        r matches Some(v) ==> v@ == hex_bytes(s@),
{
    hex::decode(s).ok()
}

/// The HMAC-SHA256 tag of `message` under `key`.
pub uninterp spec fn hmac_sha256(key: Seq<u8>, message: Seq<u8>) -> Seq<u8>;

/// Calls `hmac`'s `Hmac<Sha256>` (`new_from_slice`, `update`, `verify_slice`):
/// true exactly when `tag` is the HMAC-SHA256 tag of `message` under `key`
/// (any key length is accepted; a tag of another length never matches).
#[verifier::external_body]
fn hmac_sha256_verify(key: &[u8], message: &[u8], tag: &[u8]) -> (r: bool)
    ensures
        r == (tag@ == hmac_sha256(key@, message@)),
{
    match Hmac::<Sha256>::new_from_slice(key) {
        Ok(mut mac) => {
            mac.update(message);
            mac.verify_slice(tag).is_ok()
        },
        Err(_) => false,
    }
}

/// The hexadecimal part of a signature header: what follows `sha256=`, or the
/// whole value when it has no such prefix.
pub open spec fn signature_digits(signature: Seq<char>) -> Seq<char> {
    if has_prefix(signature, "sha256="@) {
        signature.skip("sha256="@.len() as int)
    } else {
        signature
    }
}

/// A signature is valid for `payload` under `secret`: 64 hexadecimal digits
/// encoding the HMAC-SHA256 tag of the payload.
pub open spec fn signature_valid(secret: Seq<u8>, payload: Seq<u8>, signature: Seq<char>) -> bool {
    let digits = signature_digits(signature);
    &&& digits.len() == 64
    &&& forall|i: int| 0 <= i < digits.len() ==> is_hex_digit(#[trigger] digits[i])
    &&& hex_bytes(digits) == hmac_sha256(secret, payload)
}

/// Whether `s` holds only hexadecimal digits.
fn all_hex_digits(s: &str) -> (r: bool)
    ensures
        r == forall|i: int| 0 <= i < s@.len() ==> is_hex_digit(#[trigger] s@[i]),
{
    let v = chars_of(s);
    let n = v.len();
    let mut i: usize = 0;
    while i < n
        invariant
            v@ == s@,
            n == v@.len(),
            i <= n,
            forall|j: int| 0 <= j < i ==> is_hex_digit(#[trigger] s@[j]),
        decreases n - i,
    {
        let u = v[i] as u32;
        if !((0x30 <= u && u <= 0x39) || (0x61 <= u && u <= 0x66) || (0x41 <= u && u <= 0x46)) {
            return false;
        }
        i = i + 1;
    }
    true
}

/// Whether `signature` (optionally prefixed by `sha256=`) is the hexadecimal
/// HMAC-SHA256 tag of `payload` under `secret`.
pub fn verify_webhook_signature(secret: &[u8], payload: &[u8], signature: &str) -> (r: bool)
    ensures
        r == signature_valid(secret@, payload@, signature@),
{
    let provided = match strip_prefix(signature, "sha256=") {
        Some(rest) => rest,
        None => signature,
    };
    assert(provided@ == signature_digits(signature@));
    if provided.unicode_len() != 64 || !all_hex_digits(provided) {
        return false;
    }
    match hex_decode(provided) {
        Some(bytes) => hmac_sha256_verify(secret, payload, bytes.as_slice()),
        None => false,
    }
}

/// A provider reference is acceptable: not blank, at most 160 bytes once trimmed.
pub open spec fn reference_ok(reference: Seq<char>) -> bool {
    trimmed(reference).len() > 0 && utf8_len(trimmed(reference)) <= 160
}

/// The trimmed provider reference, or a bad request.
pub fn validate_reference(reference: &str) -> (r: Result<&str, Status>)
    ensures
        r is Ok <==> reference_ok(reference@),
        r matches Ok(t) ==> t@ == trimmed(reference@),
        r matches Err(e) ==> e == Status::BadRequest,
{
    let t = trim(reference);
    if t.unicode_len() == 0 || !utf8_len_at_most(t, 160) {
        Err(Status::BadRequest)
    } else {
        Ok(t)
    }
}

/// Simulated verification answers only where it has been switched on (the
/// setting holds exactly `true`); elsewhere it is not implemented.
pub fn check_simulation_enabled(setting: Option<&str>) -> (r: Result<(), Status>)
    ensures
        r is Ok <==> (setting matches Some(s) && s@ == "true"@),
        r matches Err(e) ==> e == Status::NotImplemented,
{
    match setting {
        Some(s) => if str_eq(s, "true") {
            Ok(())
        } else {
            Err(Status::NotImplemented)
        },
        None => Err(Status::NotImplemented),
    }
}

/// A payment that is not found (or, for verification, not the buyer's) is
/// answered as not found.
pub fn require_payment(payment: Option<PaymentStatus>) -> (r: Result<PaymentStatus, Status>)
    ensures
        r is Ok <==> payment is Some,
        r matches Ok(p) ==> payment == Some(p),
        r matches Err(e) ==> e == Status::NotFound,
{
    match payment {
        Some(p) => Ok(p),
        None => Err(Status::NotFound),
    }
}

/// What a simulated verification does to a payment in status `current`: a
/// paid payment stays as it is, a pending one settles as paid or failed, any
/// other is a conflict.
pub open spec fn verify_transition(current: Seq<char>, success: bool) -> Result<Transition, Status> {
    if current == "PAID"@ {
        Ok(Transition::Unchanged)
    } else if current != "PENDING"@ {
        Err(Status::Conflict)
    } else if success {
        Ok(Transition::Settle(Settlement::Paid))
    } else {
        Ok(Transition::Settle(Settlement::Failed))
    }
}

/// Decides what a simulated verification does to a payment.
pub fn decide_verification(current: &str, success: bool) -> (r: Result<Transition, Status>)
    ensures
        r == verify_transition(current@, success),
{
    if str_eq(current, "PAID") {
        Ok(Transition::Unchanged)
    } else if !str_eq(current, "PENDING") {
        Err(Status::Conflict)
    } else if success {
        Ok(Transition::Settle(Settlement::Paid))
    } else {
        Ok(Transition::Settle(Settlement::Failed))
    }
}

/// What a webhook naming `target` does to a payment in status `current`: a
/// payment already there stays as it is, a pending one settles, any other is
/// a conflict.
pub open spec fn webhook_transition(current: Seq<char>, target: Settlement) -> Result<
    Transition,
    Status,
> {
    if current == payment_status_of(target) {
        Ok(Transition::Unchanged)
    } else if current != "PENDING"@ {
        Err(Status::Conflict)
    } else {
        Ok(Transition::Settle(target))
    }
}

/// Decides what a webhook does to a payment.
pub fn decide_webhook(current: &str, target: Settlement) -> (r: Result<Transition, Status>)
    ensures
        r == webhook_transition(current@, target),
{
    if str_eq(current, payment_status_name(target)) {
        Ok(Transition::Unchanged)
    } else if !str_eq(current, "PENDING") {
        Err(Status::Conflict)
    } else {
        Ok(Transition::Settle(target))
    }
}

/// The checks a webhook passes before any payment is read, in order: the
/// signing secret must be configured (else 503), the signature header
/// present (else 401), the reference acceptable and the amount without a
/// negative sign (else 400), the status `PAID` or `FAILED` (else 400), the
/// body serialisable (else 400), and the signature valid for the serialised
/// body (else 401).
pub open spec fn webhook_admission(
    secret: Option<Seq<u8>>,
    signature: Option<Seq<char>>,
    req: PaymentWebhook,
    canonical: Option<Seq<u8>>,
) -> Result<Settlement, Status> {
    if secret is None {
        Err(Status::ServiceUnavailable)
    } else if signature is None {
        Err(Status::Unauthorized)
    } else if !reference_ok(req.provider_reference@) || req.amount@.0 {
        Err(Status::BadRequest)
    } else if webhook_settlement(req.status@) is None {
        Err(Status::BadRequest)
    } else if canonical is None {
        Err(Status::BadRequest)
    } else if !signature_valid(secret.unwrap(), canonical.unwrap(), signature.unwrap()) {
        Err(Status::Unauthorized)
    } else {
        Ok(webhook_settlement(req.status@).unwrap())
    }
}

/// The view of an optional byte slice.
pub open spec fn bytes_view(b: Option<&[u8]>) -> Option<Seq<u8>> {
    match b {
        Some(x) => Some(x@),
        None => None,
    }
}

/// The view of an optional string slice.
pub open spec fn str_view(s: Option<&str>) -> Option<Seq<char>> {
    match s {
        Some(x) => Some(x@),
        None => None,
    }
}

/// Admits a webhook call: runs the checks of `webhook_admission` and gives
/// the settlement it asks for.
pub fn admit_webhook(
    secret: Option<&[u8]>,
    signature: Option<&str>,
    req: &PaymentWebhook,
    canonical: Option<&[u8]>,
) -> (r: Result<Settlement, Status>)
    ensures
        r == webhook_admission(bytes_view(secret), str_view(signature), *req, bytes_view(canonical)),
{
    let secret = match secret {
        Some(s) => s,
        None => {
            return Err(Status::ServiceUnavailable);
        },
    };
    let signature = match signature {
        Some(s) => s,
        None => {
            return Err(Status::Unauthorized);
        },
    };
    if validate_reference(req.provider_reference.as_str()).is_err() || req.amount.is_sign_negative() {
        return Err(Status::BadRequest);
    }
    let settlement = match webhook_settlement_of(req.status.as_str()) {
        Some(s) => s,
        None => {
            return Err(Status::BadRequest);
        },
    };
    let canonical = match canonical {
        Some(c) => c,
        None => {
            return Err(Status::BadRequest);
        },
    };
    if !verify_webhook_signature(secret, canonical, signature) {
        return Err(Status::Unauthorized);
    }
    Ok(settlement)
}

/// A webhook must report the amount the payment was opened for (compared as
/// numbers); another amount is a bad request.
pub fn check_webhook_amount(stored: &Money, reported: &Money) -> (r: Result<(), Status>)
    ensures
        r is Ok <==> same_number(stored@, reported@),
        r matches Err(e) ==> e == Status::BadRequest,
{
    if *stored == *reported {
        Ok(())
    } else {
        Err(Status::BadRequest)
    }
}

/// A paid payment is final under verification: whatever the request says,
/// it is answered as it is.
pub proof fn lemma_paid_payment_is_final(success: bool)
    ensures
        verify_transition("PAID"@, success) == Ok::<Transition, Status>(Transition::Unchanged),
{
}

/// Only pending payments settle, by either route.
pub proof fn lemma_only_pending_payments_settle(
    current: Seq<char>,
    success: bool,
    target: Settlement,
    s: Settlement,
)
    ensures
        verify_transition(current, success) == Ok::<Transition, Status>(Transition::Settle(s))
            ==> current == "PENDING"@,
        webhook_transition(current, target) == Ok::<Transition, Status>(Transition::Settle(s))
            ==> current == "PENDING"@ && s == target,
{
}

/// A settled payment and its order agree: a paid payment leaves its order
/// paid, a failed one leaves it with a failed payment.
pub proof fn lemma_order_follows_payment(s: Settlement)
    ensures
        (payment_status_of(s) == "PAID"@) == (order_status_of(s) == "PAID"@),
        (payment_status_of(s) == "FAILED"@) == (order_status_of(s) == "PAYMENT_FAILED"@),
{
    reveal_strlit("PAID");
    reveal_strlit("FAILED");
    reveal_strlit("PAYMENT_FAILED");
    assert("PAID"@.len() != "FAILED"@.len());
    assert("PAID"@.len() != "PAYMENT_FAILED"@.len());
}

/// Webhooks are idempotent: once a webhook has settled a pending payment,
/// the same webhook delivered again leaves the payment as it is.
pub proof fn lemma_webhook_replay_is_idempotent(target: Settlement)
    ensures
        webhook_transition("PENDING"@, target) == Ok::<Transition, Status>(
            Transition::Settle(target),
        ),
        webhook_transition(payment_status_of(target), target) == Ok::<Transition, Status>(
            Transition::Unchanged,
        ),
{
    reveal_strlit("PAID");
    reveal_strlit("FAILED");
    reveal_strlit("PENDING");
    assert("PAID"@[1] != "PENDING"@[1]);
    assert("FAILED"@.len() != "PENDING"@.len());
}

/// A webhook is let through only with a valid signature over its body, under
/// the configured secret.
pub proof fn lemma_admitted_webhooks_are_signed(
    secret: Option<Seq<u8>>,
    signature: Option<Seq<char>>,
    req: PaymentWebhook,
    canonical: Option<Seq<u8>>,
)
    ensures
        webhook_admission(secret, signature, req, canonical) is Ok ==> {
            &&& secret is Some && signature is Some && canonical is Some
            &&& signature_valid(secret.unwrap(), canonical.unwrap(), signature.unwrap())
        },
{
}

/// A webhook leaves a payment as it is exactly when the payment already has
/// the status the webhook reports (`PAID` for a paid report, `FAILED` for a
/// failed one); it settles the payment to the reported status exactly when
/// the payment is `PENDING`; every other current status is a conflict.
pub proof fn lemma_webhook_transitions(current: Seq<char>, target: Settlement)
    ensures
        ({
            let reported = match target {
                Settlement::Paid => "PAID"@,
                Settlement::Failed => "FAILED"@,
            };
            &&& (webhook_transition(current, target) == Ok::<Transition, Status>(
                Transition::Unchanged,
            )) <==> current == reported
            &&& (webhook_transition(current, target) == Ok::<Transition, Status>(
                Transition::Settle(target),
            )) <==> current == "PENDING"@
            &&& (webhook_transition(current, target) == Err::<Transition, Status>(
                Status::Conflict,
            )) <==> (current != reported && current != "PENDING"@)
            &&& webhook_transition(current, target) matches Ok(Transition::Settle(s)) ==> s
                == target
        }),
{
    reveal_strlit("PAID");
    reveal_strlit("FAILED");
    reveal_strlit("PENDING");
    assert("PAID"@[1] != "PENDING"@[1]);
    assert("FAILED"@.len() != "PENDING"@.len());
}

/// A simulated verification leaves a payment as it is exactly when it is
/// already `PAID`; it settles a `PENDING` payment as paid when the request
/// reports success and as failed otherwise; any other status is a conflict.
pub proof fn lemma_verification_transitions(current: Seq<char>, success: bool)
    ensures
        (verify_transition(current, success) == Ok::<Transition, Status>(Transition::Unchanged))
            <==> current == "PAID"@,
        (verify_transition(current, success) == Ok::<Transition, Status>(
            Transition::Settle(Settlement::Paid),
        )) <==> (current == "PENDING"@ && success),
        (verify_transition(current, success) == Ok::<Transition, Status>(
            Transition::Settle(Settlement::Failed),
        )) <==> (current == "PENDING"@ && !success),
        (verify_transition(current, success) == Err::<Transition, Status>(Status::Conflict)) <==> (
        current != "PAID"@ && current != "PENDING"@),
{
    reveal_strlit("PAID");
    reveal_strlit("PENDING");
    assert("PAID"@[1] != "PENDING"@[1]);
}

/// What a webhook's fields mean: its status, trimmed and in upper case,
/// reports a paid payment when it is `PAID`, a failed one when it is
/// `FAILED`, and nothing otherwise; a settled payment is stored as `PAID` or
/// `FAILED`, and its order as `PAID` or `PAYMENT_FAILED`; a provider
/// reference is acceptable when, trimmed, it is neither empty nor longer than
/// 160 bytes.
pub proof fn lemma_webhook_fields(status: Seq<char>, reference: Seq<char>)
    ensures
        (webhook_settlement(status) == Some(Settlement::Paid)) <==> uppercase(trimmed(status))
            == "PAID"@,
        (webhook_settlement(status) == Some(Settlement::Failed)) <==> uppercase(trimmed(status))
            == "FAILED"@,
        webhook_settlement(status) is None <==> (uppercase(trimmed(status)) != "PAID"@
            && uppercase(trimmed(status)) != "FAILED"@),
        payment_status_of(Settlement::Paid) == "PAID"@,
        payment_status_of(Settlement::Failed) == "FAILED"@,
        order_status_of(Settlement::Paid) == "PAID"@,
        order_status_of(Settlement::Failed) == "PAYMENT_FAILED"@,
        reference_ok(reference) <==> (trimmed(reference).len() > 0 && utf8_len(trimmed(reference))
            <= 160),
{
    reveal_strlit("PAID");
    reveal_strlit("FAILED");
    assert("PAID"@.len() != "FAILED"@.len());
}

/// How a webhook call is answered before any payment is read: 503 without
/// a configured secret; then 401 without a signature; then 400 for an empty
/// or over-long reference, a negative amount, a status other than `PAID` or
/// `FAILED` (trimmed, any case) or a body that cannot be serialised; then 401
/// for a signature that is not the HMAC-SHA256 tag of the body; and a call
/// that passes all of these settles to the status it reports.
pub proof fn lemma_webhook_admission_order(
    secret: Option<Seq<u8>>,
    signature: Option<Seq<char>>,
    req: PaymentWebhook,
    canonical: Option<Seq<u8>>,
)
    ensures
        ({
            let r = webhook_admission(secret, signature, req, canonical);
            let t = trimmed(req.provider_reference@);
            let u = uppercase(trimmed(req.status@));
            let fields_bad = t.len() == 0 || utf8_len(t) > 160 || req.amount@.0 || (u != "PAID"@
                && u != "FAILED"@);
            &&& secret is None ==> r == Err::<Settlement, Status>(Status::ServiceUnavailable)
            &&& secret is Some && signature is None ==> r == Err::<Settlement, Status>(
                Status::Unauthorized,
            )
            &&& secret is Some && signature is Some && fields_bad ==> r == Err::<Settlement, Status>(
                Status::BadRequest,
            )
            &&& secret is Some && signature is Some && !fields_bad && canonical is None ==> r
                == Err::<Settlement, Status>(Status::BadRequest)
            &&& secret is Some && signature is Some && !fields_bad && canonical is Some ==> {
                if signature_valid(secret.unwrap(), canonical.unwrap(), signature.unwrap()) {
                    r == Ok::<Settlement, Status>(
                        if u == "PAID"@ {
                            Settlement::Paid
                        } else {
                            Settlement::Failed
                        },
                    )
                } else {
                    r == Err::<Settlement, Status>(Status::Unauthorized)
                }
            }
        }),
{
    reveal_strlit("PAID");
    reveal_strlit("FAILED");
    assert("PAID"@.len() != "FAILED"@.len());
}

} // verus!
