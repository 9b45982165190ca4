//! Exact decimal amounts of money: the values the service stores as
//! `rust_decimal::Decimal`, held here as sign, 96-bit magnitude and scale.
//! Arithmetic is done by `rust_decimal` itself.
use rust_decimal::Decimal;
use vstd::prelude::*;
use vstd::std_specs::cmp::PartialEqSpecImpl;

verus! {

/// The largest magnitude (exclusive) that a decimal mantissa can hold: 2^96.
pub open spec fn magnitude_bound() -> int {
    0x1_0000_0000_0000_0000_0000_0000
}

/// The largest number of fractional digits of a decimal.
pub const MAX_SCALE: u32 = 28;

/// A decimal number `(-1)^negative * magnitude / 10^scale`.
#[derive(Debug, Clone, Copy)]
pub struct Money {
    negative: bool,
    magnitude: u128,
    scale: u32,
}

/// 10 to the power `n`.
pub open spec fn pow10(n: nat) -> int
    decreases n,
{
    if n == 0 {
        1
    } else {
        10 * pow10((n - 1) as nat)
    }
}

/// The signed mantissa of a decimal given as (sign, magnitude, scale).
pub open spec fn signed_mantissa(m: (bool, u128, u32)) -> int {
    if m.0 {
        -(m.1 as int)
    } else {
        m.1 as int
    }
}

/// Two decimals denote the same number: `a.mantissa / 10^a.scale == b.mantissa / 10^b.scale`.
pub open spec fn same_number(a: (bool, u128, u32), b: (bool, u128, u32)) -> bool {
    signed_mantissa(a) * pow10(b.2 as nat) == signed_mantissa(b) * pow10(a.2 as nat)
}

/// What `rust_decimal`'s checked addition gives for two decimals.
pub uninterp spec fn decimal_checked_add(a: (bool, u128, u32), b: (bool, u128, u32)) -> Option<
    (bool, u128, u32),
>;

/// What `rust_decimal`'s checked multiplication gives for two decimals.
pub uninterp spec fn decimal_checked_mul(a: (bool, u128, u32), b: (bool, u128, u32)) -> Option<
    (bool, u128, u32),
>;

/// What `rust_decimal`'s checked division gives for two decimals.
pub uninterp spec fn decimal_checked_div(a: (bool, u128, u32), b: (bool, u128, u32)) -> Option<
    (bool, u128, u32),
>;

impl View for Money {
    type V = (bool, u128, u32);

    closed spec fn view(&self) -> (bool, u128, u32) {
        (self.negative, self.magnitude, self.scale)
    }
}

/// The view of an optional amount.
pub open spec fn opt_view(m: Option<Money>) -> Option<(bool, u128, u32)> {
    match m {
        Some(x) => Some(x@),
        None => None,
    }
}

/// The numeric value of an `i64`, as a decimal with scale 0 (what `Decimal::from(i64)` gives).
pub open spec fn integer_decimal(n: int) -> (bool, u128, u32) {
    if n < 0 {
        (true, (-n) as u128, 0u32)
    } else {
        (false, n as u128, 0u32)
    }
}

impl Money {
    #[verifier::type_invariant]
    spec fn representable(self) -> bool {
        self.magnitude < magnitude_bound() && self.scale <= MAX_SCALE
    }

    /// `num / 10^scale` (`Decimal::new`).
    pub fn new(num: i64, scale: u32) -> (r: Money)
        requires
            scale <= MAX_SCALE,
        ensures
            r@ == (num < 0, if num < 0 {
                (-num) as u128
            } else {
                num as u128
            }, scale),
    {
        let magnitude: u128 = if num < 0 {
            (0i128 - (num as i128)) as u128
        } else {
            num as u128
        };
        Money { negative: num < 0, magnitude, scale }
    }

    /// The amount with the given sign, magnitude and scale, when they are within range.
    pub fn try_from_parts(negative: bool, magnitude: u128, scale: u32) -> (r: Option<Money>)
        ensures
            r is Some <==> (magnitude < magnitude_bound() && scale <= MAX_SCALE),
            r matches Some(m) ==> m@ == (negative, magnitude, scale),
    {
        if magnitude < 0x1_0000_0000_0000_0000_0000_0000 && scale <= MAX_SCALE {
            Some(Money { negative, magnitude, scale })
        } else {
            None
        }
    }

    /// Zero, with scale 0 (`Decimal::ZERO`).
    pub fn zero() -> (r: Money)
        ensures
            r@ == (false, 0u128, 0u32),
    {
        Money { negative: false, magnitude: 0, scale: 0 }
    }

    /// `n` as a decimal with scale 0 (`Decimal::from(n)`).
    pub fn from_i64(n: i64) -> (r: Money)
        ensures
            r@ == integer_decimal(n as int),
    {
        let magnitude: u128 = if n < 0 {
            (0i128 - (n as i128)) as u128
        } else {
            n as u128
        };
        Money { negative: n < 0, magnitude, scale: 0 }
    }

    /// `n` as a decimal with scale 0 (`Decimal::from(n)`).
    pub fn from_i32(n: i32) -> (r: Money)
        ensures
            r@ == integer_decimal(n as int),
    {
        Money::from_i64(n as i64)
    }

    /// Whether the sign bit is set (`Decimal::is_sign_negative`).
    pub fn is_sign_negative(&self) -> (r: bool)
        ensures
            r == self@.0,
    {
        self.negative
    }

    /// The sign bit.
    pub fn negative(&self) -> (r: bool)
        ensures
            r == self@.0,
    {
        self.negative
    }

    /// The magnitude of the mantissa.
    pub fn magnitude(&self) -> (r: u128)
        ensures
            r == self@.1,
    {
        self.magnitude
    }

    /// The number of fractional digits.
    pub fn scale(&self) -> (r: u32)
        ensures
            r == self@.2,
    {
        self.scale
    }
}

/// `Decimal::checked_add`; its result is named by `decimal_checked_add`.
#[verifier::external_body]
pub(crate) fn checked_add(a: &Money, b: &Money) -> (r: Option<Money>)
    ensures
        opt_view(r) == decimal_checked_add(a@, b@),
{
    let dec = |m: &Money|
        Decimal::from_parts(
            m.magnitude as u32,
            (m.magnitude >> 32) as u32,
            (m.magnitude >> 64) as u32,
            m.negative,
            m.scale,
        );
    let r = dec(a).checked_add(dec(b))?;
    Some(Money { negative: r.is_sign_negative(), magnitude: r.mantissa().unsigned_abs(), scale: r.scale() })
}

/// `Decimal::checked_mul`; its result is named by `decimal_checked_mul`.
#[verifier::external_body]
pub(crate) fn checked_mul(a: &Money, b: &Money) -> (r: Option<Money>)
    ensures
        opt_view(r) == decimal_checked_mul(a@, b@),
{
    let dec = |m: &Money|
        Decimal::from_parts(
            m.magnitude as u32,
            (m.magnitude >> 32) as u32,
            (m.magnitude >> 64) as u32,
            m.negative,
            m.scale,
        );
    let r = dec(a).checked_mul(dec(b))?;
    Some(Money { negative: r.is_sign_negative(), magnitude: r.mantissa().unsigned_abs(), scale: r.scale() })
}

/// `Decimal::checked_div`; its result is named by `decimal_checked_div`.
#[verifier::external_body]
pub(crate) fn checked_div(a: &Money, b: &Money) -> (r: Option<Money>)
    ensures
        opt_view(r) == decimal_checked_div(a@, b@),
{
    let dec = |m: &Money|
        Decimal::from_parts(
            m.magnitude as u32,
            (m.magnitude >> 32) as u32,
            (m.magnitude >> 64) as u32,
            m.negative,
            m.scale,
        );
    let r = dec(a).checked_div(dec(b))?;
    Some(Money { negative: r.is_sign_negative(), magnitude: r.mantissa().unsigned_abs(), scale: r.scale() })
}

/// `Decimal`'s `==`, which compares the numbers exactly, whatever their scales.
#[verifier::external_body]
fn decimal_eq(a: &Money, b: &Money) -> (r: bool)
    ensures
        r == same_number(a@, b@),
{
    let dec = |m: &Money|
        Decimal::from_parts(
            m.magnitude as u32,
            (m.magnitude >> 32) as u32,
            (m.magnitude >> 64) as u32,
            m.negative,
            m.scale,
        );
    dec(a) == dec(b)
}

/// An amount that the database reports as absent (a sum over no rows)
/// counts as zero.
pub fn amount_or_zero(amount: Option<Money>) -> (r: Money)
    ensures
        amount matches Some(a) ==> r == a,
        amount is None ==> r@ == (false, 0u128, 0u32),
{
    match amount {
        Some(a) => a,
        None => Money::zero(),
    }
}

impl PartialEq for Money {
    fn eq(&self, other: &Money) -> (r: bool) {
        decimal_eq(self, other)
    }
}

impl Eq for Money {

}

impl PartialEqSpecImpl for Money {
    open spec fn obeys_eq_spec() -> bool {
        true
    }

    open spec fn eq_spec(&self, other: &Money) -> bool {
        same_number(self@, other@)
    }
}

} // verus!
