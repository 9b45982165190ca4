//! The product catalogue: paging, and the checks on product creation and
//! updates.
use crate::money::Money;
use crate::rbac::{is_staff_role, seller_allowed};
use crate::status::Status;
use crate::text::{str_eq, to_lowercase, trim, trimmed, lowercase, utf8_len, utf8_len_at_most};
use vstd::prelude::*;

verus! {

/// A product as the catalogue answers it.
#[derive(Debug)]
pub struct Product {
    pub id: u128,
    pub seller_id: u128,
    pub category_id: Option<u128>,
    pub name: String,
    pub slug: String,
    pub description: Option<String>,
    pub price: Money,
    pub stock: i32,
    pub status: String,
}

/// The query of a catalogue listing.
pub struct ListQuery {
    pub page: Option<i64>,
    pub limit: Option<i64>,
    pub category_id: Option<u128>,
}

/// The body of a product creation.
pub struct CreateProduct {
    pub category_id: Option<u128>,
    pub name: String,
    pub slug: String,
    pub description: Option<String>,
    pub price: Money,
    pub stock: i32,
}

/// The body of a product update; absent fields keep their value.
pub struct UpdateProduct {
    pub category_id: Option<u128>,
    pub name: Option<String>,
    pub description: Option<String>,
    pub price: Option<Money>,
    pub status: Option<String>,
}

/// The body of a stock update.
pub struct StockUpdate {
    pub stock: i32,
}

/// The fields of a product about to be created: the trimmed name and the
/// trimmed, lowercased slug.
#[derive(Debug)]
pub struct NewProduct {
    pub name: String,
    pub slug: String,
}

/// The fields a product update writes.
#[derive(Debug)]
pub struct ProductChanges {
    pub category_id: Option<u128>,
    pub name: String,
    pub description: Option<String>,
    pub price: Money,
    pub status: String,
}

/// The page size of a listing: 24 by default, clamped to 1..=100.
pub open spec fn page_limit(q: ListQuery) -> int {
    let l = match q.limit {
        Some(l) => l as int,
        None => 24,
    };
    if l < 1 {
        1
    } else if l > 100 {
        100
    } else {
        l
    }
}

/// The page number of a listing: 0 by default, and never negative.
pub open spec fn page_number(q: ListQuery) -> int {
    match q.page {
        Some(p) => if p < 0 {
            0
        } else {
            p as int
        },
        None => 0,
    }
}

/// The limit and offset of a listing page.
pub fn page_window(q: &ListQuery) -> (r: (i64, i64))
    requires
        page_number(*q) * page_limit(*q) <= i64::MAX,
    ensures
        r.0 == page_limit(*q),
        r.1 == page_number(*q) * page_limit(*q),
{
    let l: i64 = match q.limit {
        Some(l) => l,
        None => 24,
    };
    let limit: i64 = if l < 1 {
        1
    } else if l > 100 {
        100
    } else {
        l
    };
    let page: i64 = match q.page {
        Some(p) => if p < 0 {
            0
        } else {
            p
        },
        None => 0,
    };
    (limit, page * limit)
}

/// The limit and offset of a listing page, or `None` where the offset does
/// not fit in an `i64`.
pub fn checked_page_window(q: &ListQuery) -> (r: Option<(i64, i64)>)
    ensures
        r is Some <==> page_number(*q) * page_limit(*q) <= i64::MAX,
        r matches Some(w) ==> w.0 == page_limit(*q) && w.1 == page_number(*q) * page_limit(*q),
{
    let page: i64 = match q.page {
        Some(p) => if p < 0 {
            0
        } else {
            p
        },
        None => 0,
    };
    let l: i64 = match q.limit {
        Some(l) => l,
        None => 24,
    };
    let limit: i64 = if l < 1 {
        1
    } else if l > 100 {
        100
    } else {
        l
    };
    if page > i64::MAX / limit {
        proof {
            assert(page * limit > i64::MAX) by (nonlinear_arith)
                requires
                    page > i64::MAX / limit,
                    limit >= 1,
            ;
        }
        None
    } else {
        proof {
            assert(page * limit <= i64::MAX) by (nonlinear_arith)
                requires
                    page <= i64::MAX / limit,
                    limit >= 1,
                    page >= 0,
            ;
        }
        Some(page_window(q))
    }
}

/// A product creation is acceptable: a non-blank name of at most 240 bytes
/// and a non-blank slug of at most 260 bytes (lengths before trimming), a
/// price without a negative sign and a stock of at least zero.
pub open spec fn new_product_ok(req: CreateProduct) -> bool {
    &&& trimmed(req.name@).len() > 0
    &&& trimmed(req.slug@).len() > 0
    &&& utf8_len(req.name@) <= 240
    &&& utf8_len(req.slug@) <= 260
    &&& !req.price@.0
    &&& req.stock >= 0
}

/// Checks a product creation: only staff roles may create products (else
/// forbidden), and the fields must be acceptable (else a bad request).
pub fn validate_new_product(role: &str, req: &CreateProduct) -> (r: Result<NewProduct, Status>)
    ensures
        !is_staff_role(role@) ==> r == Err::<NewProduct, Status>(Status::Forbidden),
        is_staff_role(role@) ==> (r is Ok <==> new_product_ok(*req)),
        is_staff_role(role@) ==> (r matches Err(e) ==> e == Status::BadRequest),
        r matches Ok(p) ==> p.name@ == trimmed(req.name@) && p.slug@ == lowercase(
            trimmed(req.slug@),
        ),
{
    if !seller_allowed(role) {
        return Err(Status::Forbidden);
    }
    let name = trim(req.name.as_str());
    let slug = trim(req.slug.as_str());
    if name.unicode_len() == 0 || slug.unicode_len() == 0 || !utf8_len_at_most(
        req.name.as_str(),
        240,
    ) || !utf8_len_at_most(req.slug.as_str(), 260) || req.price.is_sign_negative() || req.stock
        < 0 {
        return Err(Status::BadRequest);
    }
    Ok(NewProduct { name: name.to_owned(), slug: to_lowercase(slug) })
}

/// A slug already in use cannot be taken by another product.
pub fn check_slug_available(slug_taken: bool) -> (r: Result<(), Status>)
    ensures
        r is Ok <==> !slug_taken,
        r matches Err(e) ==> e == Status::Conflict,
{
    if slug_taken {
        Err(Status::Conflict)
    } else {
        Ok(())
    }
}

/// The statuses a seller may give a product.
pub open spec fn editable_status(s: Seq<char>) -> bool {
    s == "DRAFT"@ || s == "ACTIVE"@ || s == "INACTIVE"@
}

/// A field of an update, or the current value where the update has none.
pub open spec fn or_current<T>(update: Option<T>, current: T) -> T {
    match update {
        Some(v) => v,
        None => current,
    }
}

/// The product after an update (each field the update gives replacing the
/// current one) has a non-blank name of at most 240 bytes, a price without a
/// negative sign and an editable status.
pub open spec fn updated_fields_ok(current: Product, req: UpdateProduct) -> bool {
    let name = or_current(req.name, current.name);
    let price = or_current(req.price, current.price);
    let status = or_current(req.status, current.status);
    &&& trimmed(name@).len() > 0
    &&& utf8_len(name@) <= 240
    &&& !price@.0
    &&& editable_status(status@)
}

/// Applies an update to the seller's product: only staff roles may update
/// (else forbidden), the product must be the caller's (else not found), and
/// the updated product must have a non-blank name of at most 240 bytes, a
/// price without a negative sign and a status of `DRAFT`, `ACTIVE` or
/// `INACTIVE` (else a bad request). The name is stored trimmed.
pub fn apply_product_update(role: &str, current: Option<Product>, req: UpdateProduct) -> (r:
    Result<ProductChanges, Status>)
    ensures
        !is_staff_role(role@) ==> r == Err::<ProductChanges, Status>(Status::Forbidden),
        is_staff_role(role@) && current is None ==> r == Err::<ProductChanges, Status>(
            Status::NotFound,
        ),
        is_staff_role(role@) && current is Some ==> (r is Ok <==> updated_fields_ok(
            current.unwrap(),
            req,
        )),
        is_staff_role(role@) && current is Some ==> (r matches Err(e) ==> e == Status::BadRequest),
        r matches Ok(c) ==> {
            let cur = current.unwrap();
            &&& c.name@ == trimmed(or_current(req.name, cur.name)@)
            &&& c.description == (match req.description {
                Some(d) => Some(d),
                None => cur.description,
            })
            &&& c.price == or_current(req.price, cur.price)
            &&& c.category_id == (match req.category_id {
                Some(id) => Some(id),
                None => cur.category_id,
            })
            &&& c.status == or_current(req.status, cur.status)
        },
{
    if !seller_allowed(role) {
        return Err(Status::Forbidden);
    }
    let cur = match current {
        Some(c) => c,
        None => {
            return Err(Status::NotFound);
        },
    };
    let name = match req.name {
        Some(n) => n,
        None => cur.name,
    };
    let description = match req.description {
        Some(d) => Some(d),
        None => cur.description,
    };
    let price = match req.price {
        Some(p) => p,
        None => cur.price,
    };
    let category_id = match req.category_id {
        Some(id) => Some(id),
        None => cur.category_id,
    };
    let status = match req.status {
        Some(s) => s,
        None => cur.status,
    };
    let trimmed_name = trim(name.as_str());
    if trimmed_name.unicode_len() == 0 || !utf8_len_at_most(name.as_str(), 240)
        || price.is_sign_negative() || !(str_eq(status.as_str(), "DRAFT") || str_eq(
        status.as_str(),
        "ACTIVE",
    ) || str_eq(status.as_str(), "INACTIVE")) {
        return Err(Status::BadRequest);
    }
    Ok(
        ProductChanges {
            category_id,
            name: trimmed_name.to_owned(),
            description,
            price,
            status,
        },
    )
}

/// Checks a stock update: the caller must hold a staff role and the stock
/// must not be negative; either failure is a bad request.
pub fn validate_stock_update(role: &str, req: &StockUpdate) -> (r: Result<i32, Status>)
    ensures
        r is Ok <==> is_staff_role(role@) && req.stock >= 0,
        r matches Ok(s) ==> s == req.stock,
        r matches Err(e) ==> e == Status::BadRequest,
{
    if !seller_allowed(role) || req.stock < 0 {
        Err(Status::BadRequest)
    } else {
        Ok(req.stock)
    }
}

/// A listing never asks for fewer than 1 or more than 100 products, nor
/// from a negative offset.
pub proof fn lemma_page_window_bounds(q: ListQuery)
    ensures
        1 <= page_limit(q) <= 100,
        page_number(q) >= 0,
        page_number(q) * page_limit(q) >= 0,
{
    assert(page_number(q) * page_limit(q) >= 0) by (nonlinear_arith)
        requires
            page_number(q) >= 0,
            page_limit(q) >= 1,
    ;
}

/// A product update is accepted exactly when, with each field it gives
/// replacing the product's current one, the name is not blank and at most
/// 240 bytes, the price has no negative sign, and the status is one of
/// `DRAFT`, `ACTIVE` and `INACTIVE`; so a seller may move a product between
/// any of these three, taking it off sale included.
pub proof fn lemma_product_update_acceptance(current: Product, req: UpdateProduct)
    ensures
        updated_fields_ok(current, req) <==> ({
            let name = match req.name {
                Some(n) => n@,
                None => current.name@,
            };
            let negative_price = match req.price {
                Some(p) => p@.0,
                None => current.price@.0,
            };
            let status = match req.status {
                Some(st) => st@,
                None => current.status@,
            };
            &&& trimmed(name).len() > 0
            &&& utf8_len(name) <= 240
            &&& !negative_price
            &&& (status == "DRAFT"@ || status == "ACTIVE"@ || status == "INACTIVE"@)
        }),
{
}

/// How a listing is paged: 24 products by default, a requested size kept
/// when it is between 1 and 100 and raised to 1 or lowered to 100 otherwise;
/// page 0 by default, a negative page read as 0, the offset being the page
/// number times the size.
pub proof fn lemma_paging_rules(q: ListQuery)
    ensures
        q.limit is None ==> page_limit(q) == 24,
        q.limit matches Some(l) ==> (1 <= l <= 100 ==> page_limit(q) == l) && (l < 1
            ==> page_limit(q) == 1) && (l > 100 ==> page_limit(q) == 100),
        q.page is None ==> page_number(q) == 0,
        q.page matches Some(p) ==> (p >= 0 ==> page_number(q) == p) && (p < 0 ==> page_number(q)
            == 0),
{
}

/// A product creation is accepted exactly when its name and slug are not
/// blank once trimmed, the name is at most 240 bytes and the slug at most 260
/// (before trimming), the price has no negative sign and the stock is not
/// negative.
pub proof fn lemma_new_product_rules(req: CreateProduct)
    ensures
        new_product_ok(req) <==> (trimmed(req.name@).len() > 0 && trimmed(req.slug@).len() > 0
            && utf8_len(req.name@) <= 240 && utf8_len(req.slug@) <= 260 && !req.price@.0
            && req.stock >= 0),
{
}

} // verus!
