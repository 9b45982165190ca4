use olympus_core::cart::{build_cart, CartRow};
use olympus_core::money::Money;
use olympus_core::orders::{
    begin_checkout, new_order, order_writes, placed_order, price_checkout, replay_existing_order,
    require_cart, validate_checkout_request, CheckoutInputs, CheckoutLine, CheckoutRequest,
    CheckoutStep, OrderResponse, OrderTotals, OrderWrite,
};
use olympus_core::status::Status;

fn line(product_id: u128, quantity: i32, price: Money, stock: i32) -> CheckoutLine {
    CheckoutLine { cart_item_id: product_id + 100, product_id, seller_id: 7, quantity, price, stock }
}

fn inputs(shipping: Money, tax: Money) -> CheckoutInputs {
    CheckoutInputs { idempotency_key: "k".to_string(), shipping, tax }
}

fn order(id: u128) -> OrderResponse {
    OrderResponse {
        id,
        status: "PENDING_PAYMENT".to_string(),
        currency: "BDT".to_string(),
        subtotal: Money::new(1000, 2),
        shipping_amount: Money::zero(),
        tax_amount: Money::zero(),
        total_amount: Money::new(1000, 2),
    }
}

#[test]
fn checkout_request_is_trimmed_and_defaults_to_zero_amounts() {
    let req = CheckoutRequest {
        idempotency_key: "  order-1 ".to_string(),
        shipping_amount: None,
        tax_amount: Some(Money::new(250, 2)),
    };
    let inputs = validate_checkout_request(&req).unwrap();
    assert_eq!(inputs.idempotency_key, "order-1");
    assert_eq!(inputs.shipping, Money::zero());
    assert_eq!(inputs.tax, Money::new(25, 1));
}

#[test]
fn checkout_request_rejects_bad_keys_and_negative_amounts() {
    let bad = |key: &str, shipping: Option<Money>, tax: Option<Money>| {
        validate_checkout_request(&CheckoutRequest {
            idempotency_key: key.to_string(),
            shipping_amount: shipping,
            tax_amount: tax,
        })
        .err()
    };
    assert_eq!(bad("   ", None, None), Some(Status::BadRequest));
    assert_eq!(bad(&"k".repeat(121), None, None), Some(Status::BadRequest));
    assert_eq!(bad("k", Some(Money::new(-1, 0)), None), Some(Status::BadRequest));
    assert_eq!(bad("k", None, Some(Money::new(-5, 2))), Some(Status::BadRequest));
    assert_eq!(bad(&"k".repeat(120), None, None), None);
}

#[test]
fn pricing_sums_lines_and_adds_shipping_and_tax() {
    let lines = vec![line(1, 2, Money::new(1050, 2), 5), line(2, 1, Money::new(399, 2), 1)];
    let totals = price_checkout(&lines, &inputs(Money::new(500, 2), Money::new(120, 2)))
        .unwrap()
        .unwrap();
    assert_eq!(totals.subtotal, Money::new(2499, 2));
    assert_eq!(totals.total, Money::new(3119, 2));
}

#[test]
fn pricing_refuses_empty_carts_and_overselling() {
    assert_eq!(
        price_checkout(&vec![], &inputs(Money::zero(), Money::zero())).unwrap().err(),
        Some(Status::BadRequest)
    );
    let lines = vec![line(1, 1, Money::new(100, 2), 1), line(2, 3, Money::new(100, 2), 2)];
    assert_eq!(
        price_checkout(&lines, &inputs(Money::zero(), Money::zero())).unwrap().err(),
        Some(Status::Conflict)
    );
}

#[test]
fn pricing_reports_overflow() {
    let huge = Money::try_from_parts(false, (1u128 << 96) - 1, 0).unwrap();
    let lines = vec![line(1, 2, huge, 5)];
    assert!(price_checkout(&lines, &inputs(Money::zero(), Money::zero())).is_none());
    let lines = vec![line(1, 1, huge, 5)];
    assert!(price_checkout(&lines, &inputs(Money::zero(), Money::zero())).is_some());
    assert!(price_checkout(&lines, &inputs(Money::new(1, 0), Money::zero())).is_none());
}

#[test]
fn placing_an_order_writes_items_then_decrements_stock() {
    let lines = vec![line(1, 2, Money::new(1050, 2), 5), line(2, 1, Money::new(399, 2), 1)];
    let writes = order_writes(42, 8, &lines);
    assert_eq!(writes.len(), 5);
    assert_eq!(
        writes[0],
        OrderWrite::InsertItem {
            order_id: 42,
            product_id: 1,
            seller_id: 7,
            quantity: 2,
            unit_price: Money::new(1050, 2)
        }
    );
    assert_eq!(writes[1], OrderWrite::DecrementStock { product_id: 1, quantity: 2 });
    assert_eq!(writes[3], OrderWrite::DecrementStock { product_id: 2, quantity: 1 });
    assert_eq!(writes[4], OrderWrite::ClearCart { cart_id: 8 });
}

#[test]
fn a_new_order_awaits_payment_in_taka() {
    let totals = OrderTotals { subtotal: Money::new(2499, 2), total: Money::new(3119, 2) };
    let o = new_order(3, &inputs(Money::new(500, 2), Money::new(120, 2)), &totals);
    assert_eq!(o.buyer_id, 3);
    assert_eq!(o.status, "PENDING_PAYMENT");
    assert_eq!(o.currency, "BDT");
    assert_eq!(o.subtotal, Money::new(2499, 2));
    assert_eq!(o.shipping_amount, Money::new(5, 0));
    assert_eq!(o.tax_amount, Money::new(12, 1));
    assert_eq!(o.total_amount, Money::new(3119, 2));
    assert_eq!(o.idempotency_key, "k");
}

#[test]
fn checkout_with_a_used_key_replays_and_otherwise_places() {
    match begin_checkout(Some(order(9))) {
        CheckoutStep::Replay(status, o) => {
            assert_eq!(status, Status::Success);
            assert_eq!(o.id, 9);
            assert_eq!(o.total_amount, Money::new(10, 0));
        }
        CheckoutStep::Place => panic!("a stored order must be replayed"),
    }
    assert!(matches!(begin_checkout(None), CheckoutStep::Place));
}

#[test]
fn repeated_checkout_replays_the_existing_order() {
    let (status, replayed) = replay_existing_order(order(9));
    assert_eq!(status, Status::Success);
    assert_eq!(replayed.id, 9);
    let (status, placed) = placed_order(order(10));
    assert_eq!(status, Status::Created);
    assert_eq!(placed.id, 10);
}

#[test]
fn checkout_needs_a_cart() {
    assert_eq!(require_cart(None), Err(Status::BadRequest));
    assert_eq!(require_cart(Some(3)), Ok(3));
}

#[test]
fn checkout_charges_what_the_cart_shows() {
    let rows = vec![
        CartRow { id: 1, product_id: 1, name: "A".into(), price: Money::new(1050, 2), stock: 5, quantity: 2 },
        CartRow { id: 2, product_id: 2, name: "B".into(), price: Money::new(399, 2), stock: 1, quantity: 1 },
    ];
    let cart = build_cart(5, rows).unwrap();
    let lines = vec![line(1, 2, Money::new(1050, 2), 5), line(2, 1, Money::new(399, 2), 1)];
    let totals = price_checkout(&lines, &inputs(Money::zero(), Money::zero())).unwrap().unwrap();
    assert_eq!(cart.subtotal, totals.subtotal);
}
