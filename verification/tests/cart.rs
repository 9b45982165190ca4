use olympus_core::cart::{
    build_cart, check_add_request, check_update_applied, merged_quantity, require_product_stock,
    update_action, AddItemRequest, CartRow, CartUpdate, UpdateItemRequest,
};
use olympus_core::money::Money;
use olympus_core::status::Status;

#[test]
fn cart_lines_and_subtotal() {
    let rows = vec![
        CartRow { id: 1, product_id: 10, name: "Tea".into(), price: Money::new(250, 2), stock: 9, quantity: 3 },
        CartRow { id: 2, product_id: 11, name: "Cup".into(), price: Money::new(1, 0), stock: 1, quantity: 1 },
    ];
    let cart = build_cart(77, rows).unwrap();
    assert_eq!(cart.id, 77);
    assert_eq!(cart.items.len(), 2);
    assert_eq!(cart.items[0].line_total, Money::new(750, 2));
    assert_eq!(cart.items[0].product_name, "Tea");
    assert_eq!(cart.items[1].line_total, Money::new(1, 0));
    assert_eq!(cart.subtotal, Money::new(850, 2));
}

#[test]
fn empty_cart_has_zero_subtotal() {
    let cart = build_cart(1, vec![]).unwrap();
    assert!(cart.items.is_empty());
    assert_eq!(cart.subtotal, Money::zero());
}

#[test]
fn adding_requires_a_positive_quantity_and_an_active_product() {
    assert_eq!(check_add_request(&AddItemRequest { product_id: 1, quantity: 0 }), Err(Status::BadRequest));
    assert_eq!(check_add_request(&AddItemRequest { product_id: 1, quantity: -2 }), Err(Status::BadRequest));
    assert_eq!(check_add_request(&AddItemRequest { product_id: 1, quantity: 1 }), Ok(()));
    assert_eq!(require_product_stock(None), Err(Status::NotFound));
    assert_eq!(require_product_stock(Some(4)), Ok(4));
}

#[test]
fn added_quantity_merges_with_the_cart_within_stock() {
    assert_eq!(merged_quantity(None, 2, 5), Ok(2));
    assert_eq!(merged_quantity(Some(3), 2, 5), Ok(5));
    assert_eq!(merged_quantity(Some(4), 2, 5), Err(Status::Conflict));
}

#[test]
fn updates_remove_or_set_the_quantity() {
    assert_eq!(update_action(&UpdateItemRequest { quantity: 0 }), CartUpdate::Remove);
    assert_eq!(update_action(&UpdateItemRequest { quantity: -1 }), CartUpdate::Remove);
    assert_eq!(update_action(&UpdateItemRequest { quantity: 4 }), CartUpdate::SetQuantity(4));
    assert_eq!(check_update_applied(0), Err(Status::Conflict));
    assert_eq!(check_update_applied(1), Ok(()));
}
