use olympus_core::admin::{status_change_event, validate_status_change, UpdateUserStatus};
use olympus_core::auth::Claims;
use olympus_core::money::Money;
use olympus_core::products::{
    apply_product_update, check_slug_available, checked_page_window, validate_new_product,
    validate_stock_update, CreateProduct, ListQuery, Product, StockUpdate, UpdateProduct,
};
use olympus_core::seller_analytics::{average_order_value, checked_average_order_value};
use olympus_core::seller_dashboard::dashboard_access;
use olympus_core::seller_orders::{validate_fulfilment_status, StatusRequest};
use olympus_core::status::{require_found, Status};

fn claims(sub: u128, role: &str) -> Claims {
    Claims { sub, email: "x@y.z".into(), role: role.into(), exp: 0, iss: "i".into(), aud: "a".into() }
}

fn query(page: Option<i64>, limit: Option<i64>) -> ListQuery {
    ListQuery { page, limit, category_id: None }
}

#[test]
fn listing_pages_are_clamped() {
    assert_eq!(checked_page_window(&query(None, None)), Some((24, 0)));
    assert_eq!(checked_page_window(&query(Some(2), Some(10))), Some((10, 20)));
    assert_eq!(checked_page_window(&query(Some(-3), Some(0))), Some((1, 0)));
    assert_eq!(checked_page_window(&query(Some(1), Some(1000))), Some((100, 100)));
    assert_eq!(checked_page_window(&query(Some(i64::MAX), Some(2))), None);
}

fn create(name: &str, slug: &str, price: Money, stock: i32) -> CreateProduct {
    CreateProduct { category_id: None, name: name.into(), slug: slug.into(), description: None, price, stock }
}

#[test]
fn product_creation_is_checked() {
    let p = validate_new_product("SELLER", &create(" Lamp ", " Desk-LAMP ", Money::new(999, 2), 3)).unwrap();
    assert_eq!(p.name, "Lamp");
    assert_eq!(p.slug, "desk-lamp");
    assert_eq!(validate_new_product("BUYER", &create("Lamp", "lamp", Money::zero(), 0)).err(), Some(Status::Forbidden));
    assert_eq!(validate_new_product("ADMIN", &create(" ", "lamp", Money::zero(), 0)).err(), Some(Status::BadRequest));
    assert_eq!(validate_new_product("ADMIN", &create("Lamp", "lamp", Money::new(-1, 0), 0)).err(), Some(Status::BadRequest));
    assert_eq!(validate_new_product("ADMIN", &create("Lamp", "lamp", Money::zero(), -1)).err(), Some(Status::BadRequest));
    assert_eq!(validate_new_product("ADMIN", &create(&"n".repeat(241), "lamp", Money::zero(), 0)).err(), Some(Status::BadRequest));
    assert_eq!(check_slug_available(true), Err(Status::Conflict));
}

fn product() -> Product {
    Product {
        id: 1,
        seller_id: 2,
        category_id: Some(9),
        name: "Lamp".into(),
        slug: "lamp".into(),
        description: Some("bright".into()),
        price: Money::new(999, 2),
        stock: 4,
        status: "ACTIVE".into(),
    }
}

#[test]
fn product_updates_merge_and_check_fields() {
    let upd = UpdateProduct { category_id: None, name: Some("  Big Lamp ".into()), description: None, price: None, status: Some("DRAFT".into()) };
    let c = apply_product_update("SELLER", Some(product()), upd).unwrap();
    assert_eq!(c.name, "Big Lamp");
    assert_eq!(c.description, Some("bright".to_string()));
    assert_eq!(c.price, Money::new(999, 2));
    assert_eq!(c.category_id, Some(9));
    assert_eq!(c.status, "DRAFT");
    let none = || UpdateProduct { category_id: None, name: None, description: None, price: None, status: None };
    assert_eq!(apply_product_update("BUYER", Some(product()), none()).err(), Some(Status::Forbidden));
    assert_eq!(apply_product_update("SELLER", None, none()).err(), Some(Status::NotFound));
    let deleted = UpdateProduct { status: Some("DELETED".into()), ..none() };
    assert_eq!(apply_product_update("SELLER", Some(product()), deleted).err(), Some(Status::BadRequest));
    assert_eq!(validate_stock_update("SELLER", &StockUpdate { stock: 7 }), Ok(7));
    assert_eq!(validate_stock_update("SELLER", &StockUpdate { stock: -1 }), Err(Status::BadRequest));
    assert_eq!(validate_stock_update("BUYER", &StockUpdate { stock: 1 }), Err(Status::BadRequest));
}

#[test]
fn account_status_changes_are_checked() {
    let admin = claims(1, "ADMIN");
    let ok = validate_status_change(&admin, 2, &UpdateUserStatus { status: " banned ".into() });
    assert_eq!(ok, Ok("BANNED".to_string()));
    assert_eq!(validate_status_change(&claims(1, "SELLER"), 2, &UpdateUserStatus { status: "BANNED".into() }), Err(Status::Forbidden));
    assert_eq!(validate_status_change(&admin, 2, &UpdateUserStatus { status: "DELETED".into() }), Err(Status::BadRequest));
    assert_eq!(validate_status_change(&admin, 1, &UpdateUserStatus { status: "ACTIVE".into() }), Err(Status::Conflict));
    let event = status_change_event(2);
    assert_eq!(event.action, "USER_STATUS_CHANGED");
    assert_eq!(event.entity_type, "USER");
    assert_eq!(event.entity_id, Some(2));
}

#[test]
fn fulfilment_statuses_are_checked() {
    let seller = claims(1, "SELLER");
    assert_eq!(validate_fulfilment_status(&seller, &StatusRequest { status: "shipped".into() }), Ok("SHIPPED".to_string()));
    assert_eq!(validate_fulfilment_status(&seller, &StatusRequest { status: "PAID".into() }), Err(Status::BadRequest));
    assert_eq!(validate_fulfilment_status(&claims(1, "BUYER"), &StatusRequest { status: "SHIPPED".into() }), Err(Status::Forbidden));
    assert_eq!(dashboard_access("BUYER"), Err(Status::Forbidden));
    assert_eq!(dashboard_access("SUPER_ADMIN"), Ok(()));
    assert_eq!(require_found(None::<u8>), Err(Status::NotFound));
}

#[test]
fn average_order_value_divides_revenue() {
    assert_eq!(average_order_value(Money::new(9000, 2), 3), Money::new(30, 0));
    assert_eq!(average_order_value(Money::new(9000, 2), 0), Money::zero());
    assert_eq!(checked_average_order_value(Money::new(100, 0), 4), Some(Money::new(25, 0)));
}
