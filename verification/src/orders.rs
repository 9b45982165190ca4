//! Checkout: turning a buyer's cart into an order. The handler runs the
//! queries; the decisions between them are made here.
use crate::checkout::{bounded_field, bounded_text, checked_total, total_of};
use crate::money::{
    checked_add, checked_mul, decimal_checked_add, decimal_checked_mul, integer_decimal, opt_view,
    Money,
};
use crate::cart::{row_total, rows_sum, CartRow};
use crate::status::Status;
use crate::text::{trim, trimmed, utf8_len};
use vstd::prelude::*;

verus! {

/// The body of a checkout request.
pub struct CheckoutRequest {
    pub idempotency_key: String,
    pub shipping_amount: Option<Money>,
    pub tax_amount: Option<Money>,
}

/// The validated inputs of a checkout: the trimmed idempotency key and the
/// shipping and tax amounts (zero where the request gave none).
pub struct CheckoutInputs {
    pub idempotency_key: String,
    pub shipping: Money,
    pub tax: Money,
}

/// An order as the checkout answers it.
#[derive(Debug)]
pub struct OrderResponse {
    pub id: u128,
    pub status: String,
    pub currency: String,
    pub subtotal: Money,
    pub shipping_amount: Money,
    pub tax_amount: Money,
    pub total_amount: Money,
}

/// A cart line joined with its active product, locked for the checkout.
#[derive(Debug)]
pub struct CheckoutLine {
    pub cart_item_id: u128,
    pub product_id: u128,
    pub seller_id: u128,
    pub quantity: i32,
    pub price: Money,
    pub stock: i32,
}

/// The amounts of an order about to be placed.
#[derive(Debug)]
pub struct OrderTotals {
    pub subtotal: Money,
    pub total: Money,
}

/// A write that placing an order makes after storing the order itself.
#[derive(Debug, PartialEq, Eq)]
pub enum OrderWrite {
    InsertItem { order_id: u128, product_id: u128, seller_id: u128, quantity: i32, unit_price: Money },
    DecrementStock { product_id: u128, quantity: i32 },
    ClearCart { cart_id: u128 },
}

/// An order about to be stored.
#[derive(Debug)]
pub struct NewOrder {
    pub buyer_id: u128,
    pub status: String,
    pub currency: String,
    pub subtotal: Money,
    pub shipping_amount: Money,
    pub tax_amount: Money,
    pub total_amount: Money,
    pub idempotency_key: String,
}

/// How a checkout goes on once the buyer's orders have been looked up under
/// its idempotency key.
#[derive(Debug)]
pub enum CheckoutStep {
    /// An order is already stored under the key: it is answered, with this
    /// status, and nothing is written.
    Replay(Status, OrderResponse),
    /// No order is stored under the key: a new one is placed.
    Place,
}

/// An optional amount, zero where absent.
pub open spec fn given_or_zero(m: Option<Money>) -> (bool, u128, u32) {
    match m {
        Some(x) => x@,
        None => (false, 0u128, 0u32),
    }
}

/// A checkout request is acceptable: a non-blank idempotency key of at most
/// 120 bytes once trimmed, and shipping and tax without a negative sign.
pub open spec fn checkout_request_ok(req: CheckoutRequest) -> bool {
    &&& bounded_field(req.idempotency_key@, 120)
    &&& !given_or_zero(req.shipping_amount).0
    &&& !given_or_zero(req.tax_amount).0
}

/// Validates a checkout request; a bad one is refused as a bad request.
pub fn validate_checkout_request(req: &CheckoutRequest) -> (r: Result<CheckoutInputs, Status>)
    ensures
        r is Ok <==> checkout_request_ok(*req),
        r matches Ok(i) ==> {
            &&& i.idempotency_key@ == trimmed(req.idempotency_key@)
            &&& i.shipping@ == given_or_zero(req.shipping_amount)
            &&& i.tax@ == given_or_zero(req.tax_amount)
        },
        r matches Err(e) ==> e == Status::BadRequest,
{
    if !bounded_text(req.idempotency_key.as_str(), 120) {
        return Err(Status::BadRequest);
    }
    let shipping = match req.shipping_amount {
        Some(m) => m,
        None => Money::zero(),
    };
    let tax = match req.tax_amount {
        Some(m) => m,
        None => Money::zero(),
    };
    if shipping.is_sign_negative() || tax.is_sign_negative() {
        return Err(Status::BadRequest);
    }
    let key = trim(req.idempotency_key.as_str()).to_owned();
    Ok(CheckoutInputs { idempotency_key: key, shipping, tax })
}

/// A repeated checkout with a key already used by the buyer answers the order
/// placed the first time, with 200 and without placing another.
pub fn replay_existing_order(existing: OrderResponse) -> (r: (Status, OrderResponse))
    ensures
        r.0 == Status::Success,
        r.1 == existing,
{
    (Status::Success, existing)
}

/// The buyer must have a cart to check out; without one the request is bad.
pub fn require_cart(cart_id: Option<u128>) -> (r: Result<u128, Status>)
    ensures
        r is Ok <==> cart_id is Some,
        r matches Ok(id) ==> cart_id == Some(id),
        r matches Err(e) ==> e == Status::BadRequest,
{
    match cart_id {
        Some(id) => Ok(id),
        None => Err(Status::BadRequest),
    }
}

/// The amount of one line, `price * quantity`, as `rust_decimal` computes it.
pub open spec fn line_amount(line: CheckoutLine) -> Option<(bool, u128, u32)> {
    decimal_checked_mul(line.price@, integer_decimal(line.quantity as int))
}

/// Adding up the lines from the running sum `acc`, in order: the first line
/// whose quantity exceeds its stock ends it with a conflict. `None` where a
/// product or a sum overflows (where the handler gives up with a panic).
pub open spec fn sum_lines(lines: Seq<CheckoutLine>, acc: (bool, u128, u32)) -> Option<
    Result<(bool, u128, u32), Status>,
>
    decreases lines.len(),
{
    if lines.len() == 0 {
        Some(Ok(acc))
    } else if lines[0].quantity > lines[0].stock {
        Some(Err(Status::Conflict))
    } else {
        match line_amount(lines[0]) {
            None => None,
            Some(amount) => match decimal_checked_add(acc, amount) {
                None => None,
                Some(next) => sum_lines(lines.drop_first(), next),
            },
        }
    }
}

/// The subtotal of the lines, starting from zero.
pub open spec fn subtotal_of(lines: Seq<CheckoutLine>) -> Option<Result<(bool, u128, u32), Status>> {
    sum_lines(lines, (false, 0u128, 0u32))
}

/// The outcome of pricing a cart: a bad request when it is empty, a conflict
/// when a line asks for more than its stock, otherwise the subtotal and the
/// total `subtotal + shipping + tax`. `None` where an amount overflows.
pub open spec fn pricing_of(
    lines: Seq<CheckoutLine>,
    shipping: (bool, u128, u32),
    tax: (bool, u128, u32),
) -> Option<Result<((bool, u128, u32), (bool, u128, u32)), Status>> {
    if lines.len() == 0 {
        Some(Err(Status::BadRequest))
    } else {
        match subtotal_of(lines) {
            None => None,
            Some(Err(e)) => Some(Err(e)),
            Some(Ok(subtotal)) => match total_of(subtotal, shipping, tax) {
                None => None,
                Some(total) => Some(Ok((subtotal, total))),
            },
        }
    }
}

/// Prices the locked cart lines of a checkout: refuses an empty cart as a bad
/// request and a line that asks for more than its stock as a conflict, and
/// otherwise gives the subtotal (the sum of `price * quantity`) and the total.
/// `None` where an amount overflows.
pub fn price_checkout(lines: &Vec<CheckoutLine>, inputs: &CheckoutInputs) -> (r: Option<
    Result<OrderTotals, Status>,
>)
    ensures
        match (r, pricing_of(lines@, inputs.shipping@, inputs.tax@)) {
            (None, None) => true,
            (Some(Ok(t)), Some(Ok((s, total)))) => t.subtotal@ == s && t.total@ == total,
            (Some(Err(e)), Some(Err(f))) => e == f,
            _ => false,
        },
{
    if lines.len() == 0 {
        return Some(Err(Status::BadRequest));
    }
    let n = lines.len();
    let mut subtotal = Money::zero();
    let mut i: usize = 0;
    assert(lines@.skip(0) == lines@);
    while i < n
        invariant
            n == lines@.len(),
            i <= n,
            subtotal_of(lines@) == sum_lines(lines@.skip(i as int), subtotal@),
        decreases n - i,
    {
        let line = &lines[i];
        assert(lines@.skip(i as int)[0] == lines@[i as int]);
        assert(lines@.skip(i as int).drop_first() == lines@.skip(i + 1));
        if line.quantity > line.stock {
            return Some(Err(Status::Conflict));
        }
        let quantity = Money::from_i32(line.quantity);
        let amount = match checked_mul(&line.price, &quantity) {
            Some(a) => a,
            None => {
                return None;
            },
        };
        subtotal = match checked_add(&subtotal, &amount) {
            Some(s) => s,
            None => {
                return None;
            },
        };
        i = i + 1;
    }
    assert(lines@.skip(n as int).len() == 0);
    match checked_total(subtotal, inputs.shipping, inputs.tax) {
        Some(total) => Some(Ok(OrderTotals { subtotal, total })),
        None => None,
    }
}

/// The writes that placing order `order_id` from cart `cart_id` makes for
/// `lines`: for each line, in cart order, an order item at the line's price,
/// then a decrement of the product's stock by the quantity ordered; last, the
/// emptying of the cart.
pub open spec fn planned_writes(order_id: u128, cart_id: u128, lines: Seq<CheckoutLine>) -> Seq<
    OrderWrite,
> {
    Seq::new(
        2 * lines.len() + 1,
        |k: int|
            if k == 2 * lines.len() {
                OrderWrite::ClearCart { cart_id }
            } else if k % 2 == 0 {
                OrderWrite::InsertItem {
                    order_id,
                    product_id: lines[k / 2].product_id,
                    seller_id: lines[k / 2].seller_id,
                    quantity: lines[k / 2].quantity,
                    unit_price: lines[k / 2].price,
                }
            } else {
                OrderWrite::DecrementStock {
                    product_id: lines[k / 2].product_id,
                    quantity: lines[k / 2].quantity,
                }
            },
    )
}

/// The writes that placing order `order_id` from cart `cart_id` makes.
pub fn order_writes(order_id: u128, cart_id: u128, lines: &Vec<CheckoutLine>) -> (r: Vec<OrderWrite>)
    ensures
        r@ == planned_writes(order_id, cart_id, lines@),
        r@.len() == 2 * lines@.len() + 1,
        forall|i: int|
            0 <= i < lines@.len() ==> {
                &&& #[trigger] r@[2 * i] == OrderWrite::InsertItem {
                    order_id,
                    product_id: lines@[i].product_id,
                    seller_id: lines@[i].seller_id,
                    quantity: lines@[i].quantity,
                    unit_price: lines@[i].price,
                }
                &&& r@[2 * i + 1] == OrderWrite::DecrementStock {
                    product_id: lines@[i].product_id,
                    quantity: lines@[i].quantity,
                }
            },
        r@[2 * lines@.len() as int] == (OrderWrite::ClearCart { cart_id }),
{
    proof {
        lemma_order_writes_follow_lines(order_id, cart_id, lines@);
    }
    let n = lines.len();
    let mut out: Vec<OrderWrite> = Vec::new();
    let mut i: usize = 0;
    while i < n
        invariant
            n == lines@.len(),
            i <= n,
            out@.len() == 2 * i,
            forall|k: int| 0 <= k < 2 * i ==> #[trigger] out@[k] == planned_writes(order_id, cart_id, lines@)[k],
        decreases n - i,
    {
        let line = &lines[i];
        out.push(
            OrderWrite::InsertItem {
                order_id,
                product_id: line.product_id,
                seller_id: line.seller_id,
                quantity: line.quantity,
                unit_price: line.price,
            },
        );
        out.push(OrderWrite::DecrementStock { product_id: line.product_id, quantity: line.quantity });
        proof {
            let p = planned_writes(order_id, cart_id, lines@);
            assert((2 * i as int) / 2 == i as int);
            assert((2 * i as int + 1) / 2 == i as int);
            assert(out@[2 * i as int] == p[2 * i as int]);
            assert(out@[2 * i + 1] == p[2 * i + 1]);
        }
        i = i + 1;
    }
    out.push(OrderWrite::ClearCart { cart_id });
    assert(out@ =~= planned_writes(order_id, cart_id, lines@));
    out
}

/// Placing an order writes, for each cart line in order, an order item that
/// carries that line's own product, seller, quantity and price, followed by a
/// stock decrement of that line's product by that line's quantity; the last
/// write empties the buyer's cart, and there is no other write.
pub proof fn lemma_order_writes_follow_lines(order_id: u128, cart_id: u128, lines: Seq<CheckoutLine>)
    ensures
        planned_writes(order_id, cart_id, lines).len() == 2 * lines.len() + 1,
        forall|i: int|
            0 <= i < lines.len() ==> {
                &&& #[trigger] planned_writes(order_id, cart_id, lines)[2 * i]
                    == OrderWrite::InsertItem {
                    order_id,
                    product_id: lines[i].product_id,
                    seller_id: lines[i].seller_id,
                    quantity: lines[i].quantity,
                    unit_price: lines[i].price,
                }
                &&& planned_writes(order_id, cart_id, lines)[2 * i + 1]
                    == OrderWrite::DecrementStock {
                    product_id: lines[i].product_id,
                    quantity: lines[i].quantity,
                }
            },
        planned_writes(order_id, cart_id, lines)[2 * lines.len() as int] == (OrderWrite::ClearCart {
            cart_id,
        }),
{
    let p = planned_writes(order_id, cart_id, lines);
    assert forall|i: int| 0 <= i < lines.len() implies {
        &&& #[trigger] p[2 * i] == OrderWrite::InsertItem {
            order_id,
            product_id: lines[i].product_id,
            seller_id: lines[i].seller_id,
            quantity: lines[i].quantity,
            unit_price: lines[i].price,
        }
        &&& p[2 * i + 1] == OrderWrite::DecrementStock {
            product_id: lines[i].product_id,
            quantity: lines[i].quantity,
        }
    } by {
        assert((2 * i) / 2 == i);
        assert((2 * i + 1) / 2 == i);
        assert((2 * i) % 2 == 0);
        assert((2 * i + 1) % 2 == 1);
    }
}

/// The order that a priced checkout stores for `buyer_id`: awaiting payment,
/// in taka (`BDT`), with the priced subtotal and total, the requested
/// shipping and tax, and the trimmed idempotency key.
pub fn new_order(buyer_id: u128, inputs: &CheckoutInputs, totals: &OrderTotals) -> (r: NewOrder)
    ensures
        r.buyer_id == buyer_id,
        r.status@ == "PENDING_PAYMENT"@,
        r.currency@ == "BDT"@,
        r.subtotal == totals.subtotal,
        r.shipping_amount == inputs.shipping,
        r.tax_amount == inputs.tax,
        r.total_amount == totals.total,
        r.idempotency_key == inputs.idempotency_key,
{
    NewOrder {
        buyer_id,
        status: "PENDING_PAYMENT".to_owned(),
        currency: "BDT".to_owned(),
        subtotal: totals.subtotal,
        shipping_amount: inputs.shipping,
        tax_amount: inputs.tax,
        total_amount: totals.total,
        idempotency_key: inputs.idempotency_key.clone(),
    }
}

/// How a checkout goes on after looking up the buyer's order under its key.
pub open spec fn checkout_step(existing: Option<OrderResponse>) -> CheckoutStep {
    match existing {
        Some(o) => CheckoutStep::Replay(Status::Success, o),
        None => CheckoutStep::Place,
    }
}

/// Decides how a checkout goes on: an order already stored under the
/// buyer's key is replayed (answered with 200, as stored, with no write);
/// otherwise a new order is placed.
pub fn begin_checkout(existing: Option<OrderResponse>) -> (r: CheckoutStep)
    ensures
        r == checkout_step(existing),
{
    match existing {
        Some(o) => {
            let (status, order) = replay_existing_order(o);
            CheckoutStep::Replay(status, order)
        },
        None => CheckoutStep::Place,
    }
}

/// The answer to a checkout that placed `order`: 201 with the order.
pub fn placed_order(order: OrderResponse) -> (r: (Status, OrderResponse))
    ensures
        r.0 == Status::Created,
        r.1 == order,
{
    (Status::Created, order)
}

/// A cart is priced only when every line asks for no more than its stock.
pub proof fn lemma_priced_lines_are_in_stock(lines: Seq<CheckoutLine>, acc: (bool, u128, u32))
    ensures
        sum_lines(lines, acc) matches Some(Ok(_)) ==> forall|i: int|
            0 <= i < lines.len() ==> #[trigger] lines[i].quantity <= lines[i].stock,
    decreases lines.len(),
{
    if lines.len() > 0 && lines[0].quantity <= lines[0].stock && sum_lines(lines, acc) matches Some(
        Ok(_),
    ) {
        if let Some(amount) = line_amount(lines[0]) {
            if let Some(next) = decimal_checked_add(acc, amount) {
                lemma_priced_lines_are_in_stock(lines.drop_first(), next);
                assert(sum_lines(lines, acc) == sum_lines(lines.drop_first(), next));
                assert forall|i: int| 0 <= i < lines.len() implies #[trigger] lines[i].quantity
                    <= lines[i].stock by {
                    if i > 0 {
                        assert(lines[i] == lines.drop_first()[i - 1]);
                    }
                }
            }
        }
    }
}

/// A checkout that is priced never takes a product's stock below zero: each
/// line's stock decrement is at most the stock the line was locked with.
pub proof fn lemma_checkout_never_oversells(
    lines: Seq<CheckoutLine>,
    shipping: (bool, u128, u32),
    tax: (bool, u128, u32),
)
    ensures
        pricing_of(lines, shipping, tax) matches Some(Ok(_)) ==> lines.len() > 0 && forall|i: int|
            0 <= i < lines.len() ==> #[trigger] lines[i].stock - lines[i].quantity >= 0,
{
    lemma_priced_lines_are_in_stock(lines, (false, 0u128, 0u32));
    if pricing_of(lines, shipping, tax) matches Some(Ok(_)) {
        assert forall|i: int| 0 <= i < lines.len() implies #[trigger] lines[i].stock
            - lines[i].quantity >= 0 by {
            assert(lines[i].quantity <= lines[i].stock);
        }
    }
}

/// A checkout line has the price and quantity of a cart row, within stock.
pub open spec fn line_matches_row(line: CheckoutLine, row: CartRow) -> bool {
    line.price@ == row.price@ && line.quantity == row.quantity && line.quantity <= line.stock
}

/// What the cart shows is what the checkout charges: for cart rows and
/// checkout lines with the same prices and quantities, all within stock,
/// the checkout's subtotal is the cart's subtotal (and overflows exactly where
/// the cart's does).
pub proof fn lemma_checkout_charges_cart_subtotal(
    rows: Seq<CartRow>,
    lines: Seq<CheckoutLine>,
    acc: (bool, u128, u32),
)
    requires
        rows.len() == lines.len(),
        forall|i: int| 0 <= i < lines.len() ==> line_matches_row(#[trigger] lines[i], rows[i]),
    ensures
        sum_lines(lines, acc) == (match rows_sum(rows, acc) {
            Some(s) => Some(Ok::<(bool, u128, u32), Status>(s)),
            None => None,
        }),
    decreases lines.len(),
{
    if lines.len() > 0 {
        assert(line_matches_row(lines[0], rows[0]));
        assert(line_amount(lines[0]) == row_total(rows[0]));
        if let Some(amount) = line_amount(lines[0]) {
            if let Some(next) = decimal_checked_add(acc, amount) {
                assert forall|i: int| 0 <= i < lines.drop_first().len() implies line_matches_row(
                    #[trigger] lines.drop_first()[i],
                    rows.drop_first()[i],
                ) by {
                    assert(lines.drop_first()[i] == lines[i + 1]);
                    assert(rows.drop_first()[i] == rows[i + 1]);
                }
                lemma_checkout_charges_cart_subtotal(rows.drop_first(), lines.drop_first(), next);
            }
        }
    }
}

/// What a checkout by `buyer` under the trimmed idempotency key `key` does,
/// given the orders stored under each buyer and key: the orders stored
/// afterwards, the writes that follow storing a new order, and the answer.
/// When a new order is placed, `placed` is the order as stored, `cart_id`
/// the buyer's cart and `lines` its priced lines.
pub open spec fn checkout_effect(
    orders: Map<(u128, Seq<char>), OrderResponse>,
    buyer: u128,
    key: Seq<char>,
    placed: OrderResponse,
    cart_id: u128,
    lines: Seq<CheckoutLine>,
) -> (Map<(u128, Seq<char>), OrderResponse>, Seq<OrderWrite>, Status, OrderResponse) {
    match checkout_step(orders.get((buyer, key))) {
        CheckoutStep::Replay(status, stored) => (orders, Seq::empty(), status, stored),
        CheckoutStep::Place => (
            orders.insert((buyer, key), placed),
            planned_writes(placed.id, cart_id, lines),
            Status::Created,
            placed,
        ),
    }
}

/// Checkout is idempotent: once a checkout under a buyer's key has been
/// answered, a second checkout under the same key (whatever its amounts and
/// cart) stores nothing, writes nothing, and answers the same order with 200.
/// A first checkout under a fresh key stores the placed order and answers it
/// with 201.
pub proof fn lemma_checkout_replay_is_idempotent(
    orders: Map<(u128, Seq<char>), OrderResponse>,
    buyer: u128,
    key: Seq<char>,
    placed1: OrderResponse,
    cart1: u128,
    lines1: Seq<CheckoutLine>,
    placed2: OrderResponse,
    cart2: u128,
    lines2: Seq<CheckoutLine>,
)
    ensures
        ({
            let (after1, writes1, status1, answer1) = checkout_effect(
                orders,
                buyer,
                key,
                placed1,
                cart1,
                lines1,
            );
            let (after2, writes2, status2, answer2) = checkout_effect(
                after1,
                buyer,
                key,
                placed2,
                cart2,
                lines2,
            );
            &&& after2 == after1
            &&& writes2.len() == 0
            &&& status2 == Status::Success
            &&& answer2 == answer1
            &&& after1[(buyer, key)] == answer1
            &&& !orders.contains_key((buyer, key)) ==> status1 == Status::Created && answer1
                == placed1 && after1 == orders.insert((buyer, key), placed1)
        }),
{
}

/// A cart is refused for stock only because of a line that asks for more
/// than its product's stock: lines that all stay within stock (a line taking
/// the last units included) are never refused, and a conflict always points
/// at a line whose quantity exceeds its stock.
pub proof fn lemma_stock_conflicts(lines: Seq<CheckoutLine>, acc: (bool, u128, u32))
    ensures
        (forall|i: int| 0 <= i < lines.len() ==> #[trigger] lines[i].quantity <= lines[i].stock)
            ==> !(sum_lines(lines, acc) matches Some(Err(_))),
        sum_lines(lines, acc) matches Some(Err(e)) ==> e == Status::Conflict && exists|i: int|
            0 <= i < lines.len() && #[trigger] lines[i].quantity > lines[i].stock,
    decreases lines.len(),
{
    if lines.len() > 0 && lines[0].quantity <= lines[0].stock {
        if let Some(amount) = line_amount(lines[0]) {
            if let Some(next) = decimal_checked_add(acc, amount) {
                let rest = lines.drop_first();
                lemma_stock_conflicts(rest, next);
                if forall|i: int| 0 <= i < lines.len() ==> #[trigger] lines[i].quantity
                    <= lines[i].stock {
                    assert forall|i: int| 0 <= i < rest.len() implies #[trigger] rest[i].quantity
                        <= rest[i].stock by {
                        assert(rest[i] == lines[i + 1]);
                    }
                }
                if sum_lines(rest, next) matches Some(Err(_)) {
                    let i = choose|i: int|
                        0 <= i < rest.len() && #[trigger] rest[i].quantity > rest[i].stock;
                    assert(rest[i] == lines[i + 1]);
                    assert(lines[i + 1].quantity > lines[i + 1].stock);
                }
            }
        }
    } else if lines.len() > 0 {
        assert(lines[0].quantity > lines[0].stock);
    }
}

/// What a checkout accepts and how it prices: the request needs a key that,
/// trimmed, is neither empty nor longer than 120 bytes, and shipping and tax
/// (where given) without a negative sign, absent ones counting as zero; an
/// empty cart is a bad request; a priced order's total is its subtotal plus
/// shipping plus tax.
pub proof fn lemma_checkout_rules(
    req: CheckoutRequest,
    lines: Seq<CheckoutLine>,
    shipping: (bool, u128, u32),
    tax: (bool, u128, u32),
)
    ensures
        checkout_request_ok(req) <==> ({
            &&& trimmed(req.idempotency_key@).len() > 0
            &&& utf8_len(trimmed(req.idempotency_key@)) <= 120
            &&& (match req.shipping_amount {
                Some(m) => !m@.0,
                None => true,
            })
            &&& (match req.tax_amount {
                Some(m) => !m@.0,
                None => true,
            })
        }),
        given_or_zero(None) == (false, 0u128, 0u32),
        (pricing_of(lines, shipping, tax) == Some(Err::<
            ((bool, u128, u32), (bool, u128, u32)),
            Status,
        >(Status::BadRequest))) <==> lines.len() == 0,
        pricing_of(lines, shipping, tax) matches Some(Ok((s, t))) ==> subtotal_of(lines) == Some(
            Ok::<(bool, u128, u32), Status>(s),
        ) && match decimal_checked_add(s, shipping) {
            Some(partial) => decimal_checked_add(partial, tax) == Some(t),
            None => false,
        },
{
    lemma_stock_conflicts(lines, (false, 0u128, 0u32));
}

} // verus!
