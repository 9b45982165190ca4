//! The buyer's cart: what it shows and how its quantities change.
use crate::money::{
    checked_add, checked_mul, decimal_checked_add, decimal_checked_mul, integer_decimal, Money,
};
use crate::status::Status;
use vstd::prelude::*;

verus! {

/// A cart line as the cart answers it.
#[derive(Debug)]
pub struct CartItemResponse {
    pub id: u128,
    pub product_id: u128,
    pub product_name: String,
    pub unit_price: Money,
    pub available_stock: i32,
    pub quantity: i32,
    pub line_total: Money,
}

/// A cart with its lines and subtotal.
#[derive(Debug)]
pub struct CartResponse {
    pub id: u128,
    pub items: Vec<CartItemResponse>,
    pub subtotal: Money,
}

/// A request to put a product in the cart.
pub struct AddItemRequest {
    pub product_id: u128,
    pub quantity: i32,
}

/// A request to set the quantity of a cart line.
pub struct UpdateItemRequest {
    pub quantity: i32,
}

/// A cart line joined with its product: line id, product id, name, price,
/// stock and quantity.
#[derive(Debug)]
pub struct CartRow {
    pub id: u128,
    pub product_id: u128,
    pub name: String,
    pub price: Money,
    pub stock: i32,
    pub quantity: i32,
}

/// What a quantity update does to a cart line.
#[derive(Debug, PartialEq, Eq, Structural)]
pub enum CartUpdate {
    /// A quantity of zero or less takes the line out of the cart.
    Remove,
    /// A positive quantity replaces the line's quantity (within stock).
    SetQuantity(i32),
}

/// The total of one cart row, `price * quantity`.
pub open spec fn row_total(row: CartRow) -> Option<(bool, u128, u32)> {
    decimal_checked_mul(row.price@, integer_decimal(row.quantity as int))
}

/// Adding up the row totals from `acc`, in order; `None` where a product or
/// a sum overflows.
pub open spec fn rows_sum(rows: Seq<CartRow>, acc: (bool, u128, u32)) -> Option<
    (bool, u128, u32),
>
    decreases rows.len(),
{
    if rows.len() == 0 {
        Some(acc)
    } else {
        match row_total(rows[0]) {
            None => None,
            Some(t) => match decimal_checked_add(acc, t) {
                None => None,
                Some(next) => rows_sum(rows.drop_first(), next),
            },
        }
    }
}

/// The subtotal of a cart, starting from zero.
pub open spec fn cart_subtotal(rows: Seq<CartRow>) -> Option<(bool, u128, u32)> {
    rows_sum(rows, (false, 0u128, 0u32))
}

/// The cart as it is answered: each row with its line total, in order, and
/// the subtotal; `None` where an amount overflows.
pub fn build_cart(cart_id: u128, rows: Vec<CartRow>) -> (r: Option<CartResponse>)
    ensures
        r is Some <==> cart_subtotal(rows@) is Some,
        r matches Some(c) ==> {
            &&& c.id == cart_id
            &&& Some(c.subtotal@) == cart_subtotal(rows@)
            &&& c.items@.len() == rows@.len()
            &&& forall|i: int|
                0 <= i < rows@.len() ==> {
                    let item = #[trigger] c.items@[i];
                    &&& item.id == rows@[i].id
                    &&& item.product_id == rows@[i].product_id
                    &&& item.product_name@ == rows@[i].name@
                    &&& item.unit_price@ == rows@[i].price@
                    &&& item.available_stock == rows@[i].stock
                    &&& item.quantity == rows@[i].quantity
                    &&& Some(item.line_total@) == row_total(rows@[i])
                }
        },
{
    let ghost all = rows@;
    let n = rows.len();
    let mut items: Vec<CartItemResponse> = Vec::new();
    let mut subtotal = Money::zero();
    let mut rest = rows;
    let mut i: usize = 0;
    assert(all.skip(0) == all);
    while i < n
        invariant
            all == rows@,
            n == all.len(),
            i <= n,
            rest@ == all.skip(i as int),
            cart_subtotal(all) == rows_sum(all.skip(i as int), subtotal@),
            items@.len() == i,
            forall|j: int|
                0 <= j < i ==> {
                    let item = #[trigger] items@[j];
                    &&& item.id == all[j].id
                    &&& item.product_id == all[j].product_id
                    &&& item.product_name@ == all[j].name@
                    &&& item.unit_price@ == all[j].price@
                    &&& item.available_stock == all[j].stock
                    &&& item.quantity == all[j].quantity
                    &&& Some(item.line_total@) == row_total(all[j])
                },
        decreases n - i,
    {
        let row = rest.remove(0);
        assert(row == all[i as int]);
        assert(all.skip(i as int)[0] == row);
        assert(all.skip(i as int).drop_first() == all.skip(i + 1));
        let ghost before = subtotal@;
        let quantity = Money::from_i32(row.quantity);
        let line_total = match checked_mul(&row.price, &quantity) {
            Some(t) => t,
            None => {
                assert(rows_sum(all.skip(i as int), before) is None);
                return None;
            },
        };
        subtotal = match checked_add(&subtotal, &line_total) {
            Some(s) => s,
            None => {
                assert(rows_sum(all.skip(i as int), before) is None);
                return None;
            },
        };
        items.push(
            CartItemResponse {
                id: row.id,
                product_id: row.product_id,
                product_name: row.name,
                unit_price: row.price,
                available_stock: row.stock,
                quantity: row.quantity,
                line_total,
            },
        );
        i = i + 1;
    }
    assert(all.skip(n as int).len() == 0);
    Some(CartResponse { id: cart_id, items, subtotal })
}

/// A product can only be added in a positive quantity; zero or less is a
/// bad request.
pub fn check_add_request(req: &AddItemRequest) -> (r: Result<(), Status>)
    ensures
        r is Ok <==> req.quantity > 0,
        r matches Err(e) ==> e == Status::BadRequest,
{
    if req.quantity <= 0 {
        Err(Status::BadRequest)
    } else {
        Ok(())
    }
}

/// The stock of the product being added; a product that is missing or not
/// active is not found.
pub fn require_product_stock(stock: Option<i32>) -> (r: Result<i32, Status>)
    ensures
        r is Ok <==> stock is Some,
        r matches Ok(s) ==> stock == Some(s),
        r matches Err(e) ==> e == Status::NotFound,
{
    match stock {
        Some(s) => Ok(s),
        None => Err(Status::NotFound),
    }
}

/// The quantity already in the cart, zero when the product is not there yet.
pub open spec fn quantity_in_cart(existing: Option<i32>) -> int {
    match existing {
        Some(q) => q as int,
        None => 0,
    }
}

/// The quantity of the line after adding `requested` to what is already in
/// the cart; more than the stock is a conflict.
pub fn merged_quantity(existing: Option<i32>, requested: i32, stock: i32) -> (r: Result<
    i32,
    Status,
>)
    requires
        i32::MIN <= quantity_in_cart(existing) + requested <= i32::MAX,
    ensures
        r is Ok <==> quantity_in_cart(existing) + requested <= stock,
        r matches Ok(q) ==> q == quantity_in_cart(existing) + requested,
        r matches Err(e) ==> e == Status::Conflict,
{
    let current: i32 = match existing {
        Some(q) => q,
        None => 0,
    };
    let quantity = current + requested;
    if quantity > stock {
        Err(Status::Conflict)
    } else {
        Ok(quantity)
    }
}

/// What a quantity update does: a quantity of zero or less removes the line.
pub fn update_action(req: &UpdateItemRequest) -> (r: CartUpdate)
    ensures
        req.quantity <= 0 ==> r == CartUpdate::Remove,
        req.quantity > 0 ==> r == CartUpdate::SetQuantity(req.quantity),
{
    if req.quantity <= 0 {
        CartUpdate::Remove
    } else {
        CartUpdate::SetQuantity(req.quantity)
    }
}

/// A quantity update that changed no line (the line is not the buyer's, the
/// product is inactive, or the quantity exceeds the stock) is a conflict.
pub fn check_update_applied(rows_affected: u64) -> (r: Result<(), Status>)
    ensures
        r is Ok <==> rows_affected > 0,
        r matches Err(e) ==> e == Status::Conflict,
{
    if rows_affected == 0 {
        Err(Status::Conflict)
    } else {
        Ok(())
    }
}

/// Adding to the cart never leaves a line above the stock it was checked
/// against, nor at zero or below when the line held a positive quantity or
/// none.
pub proof fn lemma_added_quantity_within_stock(existing: Option<i32>, requested: i32, stock: i32)
    requires
        requested > 0,
        quantity_in_cart(existing) >= 0,
    ensures
        quantity_in_cart(existing) + requested <= stock ==> 0 < quantity_in_cart(existing)
            + requested <= stock,
{
}

} // verus!
