//! Sellers' sales figures.
use crate::money::{checked_div, decimal_checked_div, integer_decimal, opt_view, Money};
use vstd::prelude::*;

verus! {

/// The average order value: revenue divided by the number of orders, zero
/// when there are none.
pub open spec fn average_of(revenue: (bool, u128, u32), orders: i64) -> Option<(bool, u128, u32)> {
    if orders > 0 {
        decimal_checked_div(revenue, integer_decimal(orders as int))
    } else {
        Some((false, 0u128, 0u32))
    }
}

/// The average order value of a seller.
pub fn average_order_value(revenue: Money, orders: i64) -> (r: Money)
    requires
        average_of(revenue@, orders) is Some,
    ensures
        Some(r@) == average_of(revenue@, orders),
{
    if orders > 0 {
        match checked_div(&revenue, &Money::from_i64(orders)) {
            Some(a) => a,
            None => {
                assert(false);
                Money::zero()
            },
        }
    } else {
        Money::zero()
    }
}

/// The average order value, or `None` where the division overflows.
pub fn checked_average_order_value(revenue: Money, orders: i64) -> (r: Option<Money>)
    ensures
        opt_view(r) == average_of(revenue@, orders),
{
    if orders > 0 {
        match checked_div(&revenue, &Money::from_i64(orders)) {
            Some(_) => Some(average_order_value(revenue, orders)),
            None => None,
        }
    } else {
        Some(average_order_value(revenue, orders))
    }
}

/// A seller without orders has an average order value of zero; with orders,
/// it is the revenue divided by their number.
pub proof fn lemma_average_rules(revenue: (bool, u128, u32), orders: i64)
    ensures
        orders <= 0 ==> average_of(revenue, orders) == Some((false, 0u128, 0u32)),
        orders > 0 ==> average_of(revenue, orders) == decimal_checked_div(
            revenue,
            (false, orders as u128, 0u32),
        ),
{
}

} // verus!
