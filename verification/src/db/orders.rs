//! The order book.
//!
//! Placing an order is all or nothing: the lines are taken in turn against
//! the stock as the earlier lines of the same order have left it, and the
//! store changes only when every line can be served.

use vstd::prelude::*;
use vstd::string::*;
use crate::errors::{AppError, ErrorView, fails_with};
use crate::models::{
    CreateOrderPayload, Customer, MovementType, Order, OrderItem, OrderItemPayload,
    OrderItemWithProduct, OrderWithCustomer, OrderWithItems, Product, StockMovement,
    UpdateOrderPayload, valid_product,
};
use crate::sorting::{RowOrder, arranged, sort};
use crate::store::{
    Store, StoreView, exhausted, fits, identifiers_exhausted, item_amount, lines_in_range,
    lines_total,
};
use crate::table::{
    find, fresh_id, has_id, index_of, keyed, lemma_extend_keyed, lemma_filter_keyed, lemma_found,
    lemma_push_keyed, lemma_remove_keyed, lemma_update_keyed, next_id, row_of,
};
use crate::text::{decimal_text, integer_to_string};
use crate::timestamp::Timestamp;

verus! {

/// The amount of a line in centavos: quantity times unit price.
pub open spec fn line_amount(line: OrderItemPayload) -> int {
    line.quantity * line.unit_price
}

/// The total of an order in centavos: the sum of the amounts of its lines.
pub open spec fn order_total(lines: Seq<OrderItemPayload>) -> int
    decreases lines.len(),
{
    if lines.len() == 0 {
        0
    } else {
        order_total(lines.drop_last()) + line_amount(lines.last())
    }
}

/// Every line amount and every running total, taken line by line, lies in
/// the range of a 64-bit signed integer.
pub open spec fn total_in_range(lines: Seq<OrderItemPayload>) -> bool
    decreases lines.len(),
{
    if lines.len() == 0 {
        true
    } else {
        total_in_range(lines.drop_last()) && fits(line_amount(lines.last())) && fits(
            order_total(lines),
        )
    }
}

/// The failure for an order without lines.
pub open spec fn order_empty() -> ErrorView {
    ErrorView::Validation("Order must have at least one item"@)
}

/// The failure for an order whose total cannot be held in centavos.
pub open spec fn total_out_of_range() -> ErrorView {
    ErrorView::Validation("Order total is out of range"@)
}

/// The failure for a stock count that would leave the range of a 64-bit signed integer.
pub open spec fn stock_out_of_range() -> ErrorView {
    ErrorView::BusinessLogic("Stock level is out of range"@)
}

/// The failure for an order that does not exist.
pub open spec fn order_not_found(id: i64) -> ErrorView {
    ErrorView::NotFound("Order with id "@ + decimal_text(id as int) + " not found"@)
}

/// The failure for a line whose product does not exist.
pub open spec fn line_product_not_found(product_id: i64) -> ErrorView {
    ErrorView::NotFound("Product "@ + decimal_text(product_id as int) + " not found"@)
}

/// The failure for a line that asks for more than is in stock.
pub open spec fn insufficient_stock(product_id: i64, available: i64, requested: i64) -> ErrorView {
    ErrorView::BusinessLogic(
        "Insufficient stock for product "@ + decimal_text(product_id as int) + ". Available: "@
            + decimal_text(available as int) + ", Requested: "@ + decimal_text(requested as int),
    )
}

/// Why a line cannot be served from the given catalogue, if it cannot: its
/// product does not exist, it asks for more full units than are in stock,
/// or a stock count would leave the range of a 64-bit signed integer.
pub open spec fn line_refusal(products: Seq<Product>, line: OrderItemPayload) -> Option<
    ErrorView,
> {
    match row_of(products, line.product_id) {
        None => Some(line_product_not_found(line.product_id)),
        Some(p) => if p.stock_full < line.quantity {
            Some(insufficient_stock(line.product_id, p.stock_full, line.quantity))
        } else if !fits(p.stock_full - line.quantity) || (line.returned_bottle && !fits(
            p.stock_empty + line.quantity,
        )) {
            Some(stock_out_of_range())
        } else {
            None
        },
    }
}

/// A product after a line has been served: the full units go down by the
/// quantity, and where a bottle came back the empty units go up by it.
pub open spec fn served(p: Product, line: OrderItemPayload) -> Product {
    Product {
        stock_full: (p.stock_full - line.quantity) as i64,
        stock_empty: if line.returned_bottle {
            (p.stock_empty + line.quantity) as i64
        } else {
            p.stock_empty
        },
        ..p
    }
}

/// The catalogue after a line has been served.
pub open spec fn after_line(products: Seq<Product>, line: OrderItemPayload) -> Seq<Product> {
    products.update(
        index_of(products, line.product_id),
        served(products[index_of(products, line.product_id)], line),
    )
}

/// The catalogue after the lines have been served in turn, or the failure
/// of the first line that cannot be served.
pub open spec fn after_lines(products: Seq<Product>, lines: Seq<OrderItemPayload>) -> Result<
    Seq<Product>,
    ErrorView,
>
    decreases lines.len(),
{
    if lines.len() == 0 {
        Ok(products)
    } else {
        match after_lines(products, lines.drop_last()) {
            Err(e) => Err(e),
            Ok(left) => match line_refusal(left, lines.last()) {
                Some(e) => Err(e),
                None => Ok(after_line(left, lines.last())),
            },
        }
    }
}

/// The rows that record the lines of an order, numbered from `first`.
pub open spec fn item_rows(lines: Seq<OrderItemPayload>, order_id: i64, first: int) -> Seq<
    OrderItem,
> {
    Seq::new(
        lines.len(),
        |k: int|
            OrderItem {
                id: (first + k) as i64,
                order_id,
                product_id: lines[k].product_id,
                quantity: lines[k].quantity,
                returned_bottle: lines[k].returned_bottle,
                unit_price: lines[k].unit_price,
            },
    )
}

/// The ledger entries for the lines of an order, numbered from `first`:
/// one `Out` entry for each line, with its quantity.
pub open spec fn ledger_rows(lines: Seq<OrderItemPayload>, first: int, now: Timestamp) -> Seq<
    StockMovement,
> {
    Seq::new(
        lines.len(),
        |k: int|
            StockMovement {
                id: (first + k) as i64,
                product_id: lines[k].product_id,
                movement_type: MovementType::Out,
                quantity: lines[k].quantity,
                created_at: now,
            },
    )
}

/// Why an order is refused, if it is. In this order: it has no line; its
/// total is out of range; a table has too few identifiers left; a line
/// cannot be served.
pub open spec fn order_refusal(s: StoreView, payload: CreateOrderPayload) -> Option<ErrorView> {
    let lines = payload.items@;
    if lines.len() == 0 {
        Some(order_empty())
    } else if !total_in_range(lines) {
        Some(total_out_of_range())
    } else if !fits(next_id(s.orders)) || !fits(next_id(s.order_items) + lines.len() - 1) || !fits(
        next_id(s.stock_movements) + lines.len() - 1,
    ) {
        Some(identifiers_exhausted())
    } else {
        match after_lines(s.products, lines) {
            Err(e) => Some(e),
            Ok(_) => None,
        }
    }
}

/// The store after an order that is not refused has been placed at the
/// time `now`: one more order header with the total of the lines, one row
/// and one `Out` ledger entry for each line, and the stock as the lines
/// leave it.
pub open spec fn placed(s: StoreView, payload: CreateOrderPayload, now: Timestamp) -> StoreView {
    let lines = payload.items@;
    let order_id = next_id(s.orders) as i64;
    StoreView {
        products: after_lines(s.products, lines)->Ok_0,
        customers: s.customers,
        orders: s.orders.push(
            Order {
                id: order_id,
                customer_id: payload.customer_id,
                total: order_total(lines) as i64,
                created_at: now,
            },
        ),
        order_items: s.order_items + item_rows(lines, order_id, next_id(s.order_items)),
        stock_movements: s.stock_movements + ledger_rows(lines, next_id(s.stock_movements), now),
        users: s.users,
    }
}

/// A failure at some line is the failure of the whole order.
pub proof fn lemma_refusal_persists(products: Seq<Product>, lines: Seq<OrderItemPayload>, k: int)
    requires
        0 <= k <= lines.len(),
        after_lines(products, lines.take(k)) is Err,
    ensures
        after_lines(products, lines) == after_lines(products, lines.take(k)),
    decreases lines.len() - k,
{
    if k < lines.len() {
        assert(lines.take(k + 1).drop_last() =~= lines.take(k));
        lemma_refusal_persists(products, lines, k + 1);
    } else {
        assert(lines.take(k) =~= lines);
    }
}

/// Serving lines keeps the catalogue keyed and its rows valid.
pub proof fn lemma_after_line_valid(products: Seq<Product>, line: OrderItemPayload)
    requires
        keyed(products),
        forall|i: int| 0 <= i < products.len() ==> valid_product(#[trigger] products[i]),
        line_refusal(products, line) is None,
    ensures
        keyed(after_line(products, line)),
        forall|i: int|
            0 <= i < after_line(products, line).len() ==> valid_product(
                #[trigger] after_line(products, line)[i],
            ),
        after_line(products, line).len() == products.len(),
{
    let i = index_of(products, line.product_id);
    assert(has_id(products, line.product_id));
    lemma_update_keyed(products, i, served(products[i], line));
    let after = after_line(products, line);
    assert forall|k: int| 0 <= k < after.len() implies valid_product(#[trigger] after[k]) by {
        assert(valid_product(products[k]));
    }
}

fn line_not_found(product_id: i64) -> (e: AppError)
    ensures
        e@ == line_product_not_found(product_id),
{
    AppError::NotFound(
        String::from_str("Product ").concat(integer_to_string(product_id as i128).as_str()).concat(
            " not found",
        ),
    )
}

fn insufficient(product_id: i64, available: i64, requested: i64) -> (e: AppError)
    ensures
        e@ == insufficient_stock(product_id, available, requested),
{
    let text: String = String::from_str("Insufficient stock for product ").concat(
        integer_to_string(product_id as i128).as_str(),
    ).concat(". Available: ").concat(integer_to_string(available as i128).as_str()).concat(
        ", Requested: ",
    ).concat(integer_to_string(requested as i128).as_str());
    assert(text@ =~= "Insufficient stock for product "@ + decimal_text(product_id as int)
        + ". Available: "@ + decimal_text(available as int) + ", Requested: "@ + decimal_text(
        requested as int,
    ));
    AppError::BusinessLogic(text)
}

/// The total of the lines in centavos, unless a line amount or a running
/// total leaves the range of a 64-bit signed integer.
pub fn total_of(lines: &Vec<OrderItemPayload>) -> (total: Option<i64>)
    ensures
        match total {
            Some(t) => total_in_range(lines@) && t == order_total(lines@),
            None => !total_in_range(lines@),
        },
{
    let mut total: i64 = 0;
    let mut k: usize = 0;
    assert(lines@.take(0) =~= Seq::empty());
    while k < lines.len()
        invariant
            k <= lines.len(),
            total_in_range(lines@.take(k as int)),
            total == order_total(lines@.take(k as int)),
        decreases lines.len() - k,
    {
        let ghost next = lines@.take(k + 1);
        proof {
            assert(next.drop_last() =~= lines@.take(k as int));
            assert(next.last() == lines@[k as int]);
        }
        let amount: i64 = match lines[k].quantity.checked_mul(lines[k].unit_price) {
            Some(a) => a,
            None => {
                proof {
                    lemma_range_persists(lines@, k + 1);
                }
                return None;
            },
        };
        total = match total.checked_add(amount) {
            Some(t) => t,
            None => {
                proof {
                    lemma_range_persists(lines@, k + 1);
                }
                return None;
            },
        };
        k = k + 1;
    }
    assert(lines@.take(k as int) =~= lines@);
    Some(total)
}

/// A total that leaves the range at some line stays out of range.
pub proof fn lemma_range_persists(lines: Seq<OrderItemPayload>, k: int)
    requires
        0 <= k <= lines.len(),
        !total_in_range(lines.take(k)),
    ensures
        !total_in_range(lines),
    decreases lines.len() - k,
{
    if k < lines.len() {
        assert(lines.take(k + 1).drop_last() =~= lines.take(k));
        lemma_range_persists(lines, k + 1);
    } else {
        assert(lines.take(k) =~= lines);
    }
}

/// Serves the lines in turn from the catalogue `products`.
fn serve_lines(products: &mut Vec<Product>, lines: &Vec<OrderItemPayload>) -> (r: Result<
    (),
    AppError,
>)
    requires
        keyed(old(products)@),
        forall|i: int|
            0 <= i < old(products)@.len() ==> valid_product(#[trigger] old(products)@[i]),
    ensures
        match after_lines(old(products)@, lines@) {
            Err(e) => fails_with(r, e),
            Ok(left) => r is Ok && final(products)@ == left,
        },
        r is Ok ==> keyed(final(products)@),
        r is Ok ==> forall|i: int|
            0 <= i < final(products)@.len() ==> valid_product(#[trigger] final(products)@[i]),
{
    let ghost start: Seq<Product> = products@;
    let mut k: usize = 0;
    assert(lines@.take(0) =~= Seq::empty());
    while k < lines.len()
        invariant
            k <= lines.len(),
            start == old(products)@,
            after_lines(start, lines@.take(k as int)) == Ok::<Seq<Product>, ErrorView>(products@),
            keyed(products@),
            forall|i: int| 0 <= i < products@.len() ==> valid_product(#[trigger] products@[i]),
        decreases lines.len() - k,
    {
        let line: &OrderItemPayload = &lines[k];
        let ghost next = lines@.take(k + 1);
        proof {
            assert(next.drop_last() =~= lines@.take(k as int));
            assert(next.last() == lines@[k as int]);
        }
        let i: usize = match find(products, line.product_id) {
            Some(i) => i,
            None => {
                proof {
                    lemma_refusal_persists(start, lines@, k + 1);
                }
                return Err(line_not_found(line.product_id));
            },
        };
        proof {
            lemma_found(products@, i as int);
        }
        let current: &Product = &products[i];
        if current.stock_full < line.quantity {
            proof {
                lemma_refusal_persists(start, lines@, k + 1);
            }
            return Err(insufficient(line.product_id, current.stock_full, line.quantity));
        }
        let full: Option<i64> = current.stock_full.checked_sub(line.quantity);
        let empty: Option<i64> = if line.returned_bottle {
            current.stock_empty.checked_add(line.quantity)
        } else {
            Some(current.stock_empty)
        };
        match (full, empty) {
            (Some(full), Some(empty)) => {
                let mut row: Product = current.clone();
                row.stock_full = full;
                row.stock_empty = empty;
                proof {
                    assert(row == served(products@[i as int], *line));
                    lemma_after_line_valid(products@, *line);
                }
                products.set(i, row);
            },
            _ => {
                proof {
                    lemma_refusal_persists(start, lines@, k + 1);
                }
                return Err(
                    AppError::BusinessLogic(String::from_str("Stock level is out of range")),
                );
            },
        }
        k = k + 1;
    }
    assert(lines@.take(k as int) =~= lines@);
    Ok(())
}

/// Whether `count` further rows can be numbered from `first` on.
fn enough_identifiers(first: Option<i64>, count: usize) -> (b: bool)
    requires
        count > 0,
        first matches Some(n) ==> n > 0,
    ensures
        b == (first is Some && fits(first->0 + count - 1)),
{
    match first {
        None => false,
        Some(n) => count as u128 - 1 <= (i64::MAX - n) as u128,
    }
}

/// What placing an order does: a refused order fails and changes nothing;
/// else the store is as `placed` says and the identifier of the order is returned.
pub open spec fn places_order(
    before: StoreView,
    payload: CreateOrderPayload,
    now: Timestamp,
    after: StoreView,
    r: Result<i64, AppError>,
) -> bool {
    match order_refusal(before, payload) {
        Some(e) => fails_with(r, e) && after == before,
        None => {
            &&& r == Ok::<i64, AppError>(next_id(before.orders) as i64)
            &&& after == placed(before, payload, now)
        },
    }
}

/// Places an order at the time `now` and returns its identifier.
///
/// The order must have a line, and every line must name an existing
/// product and ask for no more than its full stock, as the earlier lines
/// of the order have left it. The total is the sum of quantity times unit
/// price over the lines, with the prices as the caller gave them. On any
/// failure the store is unchanged.
pub fn create_order(store: &mut Store, payload: CreateOrderPayload, now: Timestamp) -> (r: Result<
    i64,
    AppError,
>)
    requires
        old(store).wf(),
    ensures
        final(store).wf(),
        places_order(old(store)@, payload, now, final(store)@, r),
{
    let count: usize = payload.items.len();
    if count == 0 {
        return Err(AppError::validation("Order must have at least one item"));
    }
    let total: i64 = match total_of(&payload.items) {
        Some(t) => t,
        None => {
            return Err(AppError::validation("Order total is out of range"));
        },
    };
    let order_id: Option<i64> = fresh_id(&store.orders);
    let first_item: Option<i64> = fresh_id(&store.order_items);
    let first_entry: Option<i64> = fresh_id(&store.stock_movements);
    if order_id.is_none() || !enough_identifiers(first_item, count) || !enough_identifiers(
        first_entry,
        count,
    ) {
        return Err(exhausted());
    }
    let order_id: i64 = order_id.unwrap();
    let first_item: i64 = first_item.unwrap();
    let first_entry: i64 = first_entry.unwrap();
    let mut products: Vec<Product> = store.products.clone();
    assert(products@ =~= store.products@);
    match serve_lines(&mut products, &payload.items) {
        Ok(_) => {},
        Err(e) => {
            return Err(e);
        },
    }
    let mut items: Vec<OrderItem> = Vec::new();
    let mut entries: Vec<StockMovement> = Vec::new();
    let mut k: usize = 0;
    while k < count
        invariant
            k <= count == payload.items.len(),
            fits(first_item + count - 1),
            fits(first_entry + count - 1),
            first_item > 0,
            first_entry > 0,
            items@ == item_rows(payload.items@.take(k as int), order_id, first_item as int),
            entries@ == ledger_rows(payload.items@.take(k as int), first_entry as int, now),
        decreases count - k,
    {
        let line: &OrderItemPayload = &payload.items[k];
        items.push(
            OrderItem {
                id: first_item + k as i64,
                order_id,
                product_id: line.product_id,
                quantity: line.quantity,
                returned_bottle: line.returned_bottle,
                unit_price: line.unit_price,
            },
        );
        entries.push(
            StockMovement {
                id: first_entry + k as i64,
                product_id: line.product_id,
                movement_type: MovementType::Out,
                quantity: line.quantity,
                created_at: now,
            },
        );
        proof {
            assert(items@ =~= item_rows(payload.items@.take(k + 1), order_id, first_item as int));
            assert(entries@ =~= ledger_rows(payload.items@.take(k + 1), first_entry as int, now));
        }
        k = k + 1;
    }
    assert(payload.items@.take(k as int) =~= payload.items@);
    let header = Order { id: order_id, customer_id: payload.customer_id, total, created_at: now };
    proof {
        let orders = store.orders@;
        let lines = store.order_items@;
        lemma_push_keyed(orders, header);
        lemma_extend_keyed(lines, items@);
        lemma_extend_keyed(store.stock_movements@, entries@);
        let orders_after = orders.push(header);
        let lines_after = lines + items@;
        assert forall|k: int| 0 <= k < lines.len() implies (#[trigger] lines[k]).order_id
            != order_id by {
            assert(has_id(orders, lines[k].order_id));
        }
        lemma_no_lines_no_total(lines, order_id);
        lemma_new_lines_total(lines, payload.items@, order_id, first_item as int);
        assert forall|k: int| 0 <= k < lines_after.len() implies has_id(
            orders_after,
            (#[trigger] lines_after[k]).order_id,
        ) by {
            if k < lines.len() {
                assert(lines_after[k] == lines[k]);
                assert(has_id(orders, lines[k].order_id));
                assert(row_of(orders_after, lines[k].order_id) == row_of(
                    orders,
                    lines[k].order_id,
                ));
            } else {
                assert(lines_after[k] == items@[k - lines.len()]);
                assert(row_of(orders_after, order_id) == Some(header));
            }
        }
        assert forall|i: int| 0 <= i < orders_after.len() implies lines_in_range(
            lines_after,
            (#[trigger] orders_after[i]).id,
        ) && orders_after[i].total == lines_total(lines_after, orders_after[i].id) by {
            if i < orders.len() {
                assert(orders_after[i] == orders[i]);
                assert(has_id(orders, orders[i].id));
                lemma_other_lines_leave_total(lines, items@, orders[i].id);
            }
        }
    }
    store.products = products;
    store.orders.push(header);
    store.order_items.append(&mut items);
    store.stock_movements.append(&mut entries);
    Ok(order_id)
}

/// Lines of other orders do not count towards the total of an order.
pub proof fn lemma_other_lines_leave_total(items: Seq<OrderItem>, extra: Seq<OrderItem>, id: i64)
    requires
        forall|k: int| 0 <= k < extra.len() ==> (#[trigger] extra[k]).order_id != id,
    ensures
        lines_total(items + extra, id) == lines_total(items, id),
        lines_in_range(items + extra, id) == lines_in_range(items, id),
    decreases extra.len(),
{
    if extra.len() == 0 {
        assert(items + extra =~= items);
    } else {
        let front = extra.drop_last();
        assert forall|k: int| 0 <= k < front.len() implies (#[trigger] front[k]).order_id != id by {
            assert(front[k] == extra[k]);
        }
        lemma_other_lines_leave_total(items, front, id);
        assert((items + extra).drop_last() =~= items + front);
        assert((items + extra).last() == extra[extra.len() - 1]);
    }
}

/// An order without lines has the total zero.
pub proof fn lemma_no_lines_no_total(items: Seq<OrderItem>, id: i64)
    requires
        forall|k: int| 0 <= k < items.len() ==> (#[trigger] items[k]).order_id != id,
    ensures
        lines_total(items, id) == 0,
        lines_in_range(items, id),
{
    lemma_other_lines_leave_total(Seq::empty(), items, id);
    assert(Seq::<OrderItem>::empty() + items =~= items);
}

/// The rows written for the lines of a new order add up to its total.
pub proof fn lemma_new_lines_total(
    items: Seq<OrderItem>,
    lines: Seq<OrderItemPayload>,
    order_id: i64,
    first: int,
)
    requires
        lines_total(items, order_id) == 0,
        lines_in_range(items, order_id),
        total_in_range(lines),
    ensures
        lines_in_range(items + item_rows(lines, order_id, first), order_id),
        lines_total(items + item_rows(lines, order_id, first), order_id) == order_total(lines),
    decreases lines.len(),
{
    let rows = item_rows(lines, order_id, first);
    if lines.len() == 0 {
        assert(items + rows =~= items);
    } else {
        let front = lines.drop_last();
        lemma_new_lines_total(items, front, order_id, first);
        assert(item_rows(front, order_id, first) =~= rows.drop_last());
        assert((items + rows).drop_last() =~= items + rows.drop_last());
        assert((items + rows).last() == rows[rows.len() - 1]);
        assert(item_amount(rows[rows.len() - 1]) == line_amount(lines.last()));
    }
}

/// Taking the lines of one order away leaves the totals of the others.
pub proof fn lemma_removed_lines_leave_totals(items: Seq<OrderItem>, gone: i64, id: i64)
    requires
        id != gone,
    ensures
        lines_total(items.filter(|item: OrderItem| item.order_id != gone), id) == lines_total(
            items,
            id,
        ),
        lines_in_range(items.filter(|item: OrderItem| item.order_id != gone), id)
            == lines_in_range(items, id),
    decreases items.len(),
{
    reveal(Seq::filter);
    let keep = |item: OrderItem| item.order_id != gone;
    if items.len() > 0 {
        lemma_removed_lines_leave_totals(items.drop_last(), gone, id);
        let kept = items.drop_last().filter(keep);
        if keep(items.last()) {
            assert(items.filter(keep) =~= kept.push(items.last()));
            assert(kept.push(items.last()).drop_last() =~= kept);
        } else {
            assert(items.filter(keep) =~= kept);
        }
    }
}

/// Orders in listings, the most recent first.
pub struct NewestFirst;

impl RowOrder<OrderWithCustomer> for NewestFirst {
    open spec fn precedes(a: OrderWithCustomer, b: OrderWithCustomer) -> bool {
        b.created_at.not_after(a.created_at)
    }

    fn in_order(a: &OrderWithCustomer, b: &OrderWithCustomer) -> (r: bool) {
        b.created_at.seconds() <= a.created_at.seconds()
    }

    proof fn lemma_total(a: OrderWithCustomer, b: OrderWithCustomer) {
    }

    proof fn lemma_transitive(a: OrderWithCustomer, b: OrderWithCustomer, c: OrderWithCustomer) {
    }
}

/// The name of the customer of an order, where the order names a customer
/// that the registry holds.
pub open spec fn customer_name_of(customer_id: Option<i64>, customers: Seq<Customer>) -> Option<
    String,
> {
    match customer_id {
        Some(id) => match row_of(customers, id) {
            Some(c) => Some(c.name),
            None => None,
        },
        None => None,
    }
}

/// An order header together with the name of its customer.
pub open spec fn with_customer(o: Order, customers: Seq<Customer>) -> OrderWithCustomer {
    OrderWithCustomer {
        id: o.id,
        customer_id: o.customer_id,
        customer_name: customer_name_of(o.customer_id, customers),
        total: o.total,
        created_at: o.created_at,
    }
}

/// An order line together with the name of its product.
pub open spec fn with_product(item: OrderItem, products: Seq<Product>) -> OrderItemWithProduct {
    OrderItemWithProduct {
        id: item.id,
        order_id: item.order_id,
        product_id: item.product_id,
        product_name: row_of(products, item.product_id)->0.name,
        quantity: item.quantity,
        returned_bottle: item.returned_bottle,
        unit_price: item.unit_price,
    }
}

/// The lines of an order whose product the catalogue holds, each with the
/// name of its product, in ascending order of identifier.
pub open spec fn lines_of(s: StoreView, order_id: i64) -> Seq<OrderItemWithProduct> {
    s.order_items.filter(
        |item: OrderItem| item.order_id == order_id && has_id(s.products, item.product_id),
    ).map_values(|item: OrderItem| with_product(item, s.products))
}

/// The orders of a customer, each with the customer's name.
pub open spec fn orders_of(s: StoreView, customer_id: i64) -> Seq<OrderWithCustomer> {
    s.orders.filter(|o: Order| o.customer_id == Some(customer_id)).map_values(
        |o: Order| with_customer(o, s.customers),
    )
}

/// The store with another order book.
pub open spec fn with_orders(s: StoreView, orders: Seq<Order>) -> StoreView {
    StoreView { orders, ..s }
}

/// The failure for a text that is no timestamp.
pub open spec fn timestamp_invalid() -> ErrorView {
    ErrorView::Validation("Invalid timestamp"@)
}

fn not_found(id: i64) -> (e: AppError)
    ensures
        e@ == order_not_found(id),
{
    AppError::NotFound(
        String::from_str("Order with id ").concat(integer_to_string(id as i128).as_str()).concat(
            " not found",
        ),
    )
}

fn join_customer(o: &Order, customers: &Vec<Customer>) -> (joined: OrderWithCustomer)
    requires
        keyed(customers@),
    ensures
        joined == with_customer(*o, customers@),
{
    let name: Option<String> = match o.customer_id {
        Some(id) => match find(customers, id) {
            Some(i) => {
                proof {
                    lemma_found(customers@, i as int);
                }
                Some(customers[i].name.clone())
            },
            None => None,
        },
        None => None,
    };
    OrderWithCustomer {
        id: o.id,
        customer_id: o.customer_id,
        customer_name: name,
        total: o.total,
        created_at: o.created_at,
    }
}

/// `r` holds every order with the name of its customer, the most recent first.
pub open spec fn lists_orders(s: StoreView, r: Result<Vec<OrderWithCustomer>, AppError>) -> bool {
    r matches Ok(rows) && arranged::<OrderWithCustomer, NewestFirst>(
        s.orders.map_values(|o: Order| with_customer(o, s.customers)),
        rows@,
    )
}

/// All orders with the names of their customers, the most recent first.
pub fn get_all_orders(store: &Store) -> (r: Result<Vec<OrderWithCustomer>, AppError>)
    requires
        store.wf(),
    ensures
        lists_orders(store@, r),
{
    let mut rows: Vec<OrderWithCustomer> = Vec::new();
    let mut i: usize = 0;
    while i < store.orders.len()
        invariant
            i <= store.orders.len(),
            keyed(store.customers@),
            rows@.len() == i,
            forall|k: int|
                0 <= k < i ==> rows@[k] == with_customer(store.orders@[k], store.customers@),
        decreases store.orders.len() - i,
    {
        rows.push(join_customer(&store.orders[i], &store.customers));
        i = i + 1;
    }
    assert(rows@ =~= store@.orders.map_values(|o: Order| with_customer(o, store@.customers)));
    Ok(sort::<OrderWithCustomer, NewestFirst>(rows))
}

/// `r` holds the orders of one customer, the most recent first.
pub open spec fn lists_orders_of(
    s: StoreView,
    customer_id: i64,
    r: Result<Vec<OrderWithCustomer>, AppError>,
) -> bool {
    r matches Ok(rows) && arranged::<OrderWithCustomer, NewestFirst>(
        orders_of(s, customer_id),
        rows@,
    )
}

/// The orders of one customer, the most recent first.
pub fn get_orders_by_customer(store: &Store, customer_id: i64) -> (r: Result<
    Vec<OrderWithCustomer>,
    AppError,
>)
    requires
        store.wf(),
    ensures
        lists_orders_of(store@, customer_id, r),
{
    let ghost wanted = |o: Order| o.customer_id == Some(customer_id);
    let ghost joined = |o: Order| with_customer(o, store@.customers);
    let mut rows: Vec<OrderWithCustomer> = Vec::new();
    let mut i: usize = 0;
    proof {
        reveal(Seq::filter);
        assert(store.orders@.take(0).filter(wanted).map_values(joined) =~= rows@);
    }
    while i < store.orders.len()
        invariant
            i <= store.orders.len(),
            keyed(store.customers@),
            wanted == (|o: Order| o.customer_id == Some(customer_id)),
            joined == (|o: Order| with_customer(o, store@.customers)),
            rows@ == store.orders@.take(i as int).filter(wanted).map_values(joined),
        decreases store.orders.len() - i,
    {
        let o: &Order = &store.orders[i];
        proof {
            store.orders@.lemma_take_succ_push(i as int);
            store.orders@.take(i as int).lemma_filter_push(store.orders@[i as int], wanted);
        }
        let hit: bool = match o.customer_id {
            Some(c) => c == customer_id,
            None => false,
        };
        if hit {
            rows.push(join_customer(o, &store.customers));
            assert(rows@ =~= store.orders@.take(i + 1).filter(wanted).map_values(joined));
        }
        i = i + 1;
    }
    assert(store.orders@.take(i as int) =~= store.orders@);
    Ok(sort::<OrderWithCustomer, NewestFirst>(rows))
}

/// `r` is the order with identifier `id` with its customer's name and its
/// lines, or the failure that there is none.
pub open spec fn finds_order(s: StoreView, id: i64, r: Result<OrderWithItems, AppError>) -> bool {
    match row_of(s.orders, id) {
        Some(row) => r matches Ok(found) && found.order == with_customer(
            row,
            s.customers,
        ) && found.items@ == lines_of(s, id),
        None => fails_with(r, order_not_found(id)),
    }
}

/// The order with the given identifier, with the name of its customer and its lines.
pub fn get_order_by_id(store: &Store, id: i64) -> (r: Result<OrderWithItems, AppError>)
    requires
        store.wf(),
    ensures
        finds_order(store@, id, r),
{
    let at: usize = match find(&store.orders, id) {
        Some(at) => at,
        None => {
            return Err(not_found(id));
        },
    };
    proof {
        lemma_found(store.orders@, at as int);
    }
    let order: OrderWithCustomer = join_customer(&store.orders[at], &store.customers);
    let ghost wanted = |item: OrderItem|
        item.order_id == id && has_id(store@.products, item.product_id);
    let ghost joined = |item: OrderItem| with_product(item, store@.products);
    let mut items: Vec<OrderItemWithProduct> = Vec::new();
    let mut i: usize = 0;
    proof {
        reveal(Seq::filter);
        assert(store.order_items@.take(0).filter(wanted).map_values(joined) =~= items@);
    }
    while i < store.order_items.len()
        invariant
            i <= store.order_items.len(),
            keyed(store.products@),
            wanted == (|item: OrderItem|
                item.order_id == id && has_id(store@.products, item.product_id)),
            joined == (|item: OrderItem| with_product(item, store@.products)),
            items@ == store.order_items@.take(i as int).filter(wanted).map_values(joined),
        decreases store.order_items.len() - i,
    {
        let item: &OrderItem = &store.order_items[i];
        proof {
            store.order_items@.lemma_take_succ_push(i as int);
            store.order_items@.take(i as int).lemma_filter_push(
                store.order_items@[i as int],
                wanted,
            );
        }
        if item.order_id == id {
            match find(&store.products, item.product_id) {
                Some(p) => {
                    proof {
                        lemma_found(store.products@, p as int);
                    }
                    items.push(
                        OrderItemWithProduct {
                            id: item.id,
                            order_id: item.order_id,
                            product_id: item.product_id,
                            product_name: store.products[p].name.clone(),
                            quantity: item.quantity,
                            returned_bottle: item.returned_bottle,
                            unit_price: item.unit_price,
                        },
                    );
                    assert(items@ =~= store.order_items@.take(i + 1).filter(wanted).map_values(
                        joined,
                    ));
                },
                None => {},
            }
        }
        i = i + 1;
    }
    assert(store.order_items@.take(i as int) =~= store.order_items@);
    Ok(OrderWithItems { order, items })
}

/// What changing the timestamp of an order does: a missing order or a text
/// that is no timestamp fails and changes nothing; a payload without a
/// timestamp changes nothing; else the order carries the new timestamp.
pub open spec fn updates_order(
    before: StoreView,
    id: i64,
    payload: UpdateOrderPayload,
    after: StoreView,
    r: Result<(), AppError>,
) -> bool {
    match row_of(before.orders, id) {
        None => fails_with(r, order_not_found(id)) && after == before,
        Some(row) => match payload.created_at {
            None => r is Ok && after == before,
            Some(text) => match Timestamp::from_text(text@) {
                None => fails_with(r, timestamp_invalid()) && after == before,
                Some(at) => r is Ok && after == with_orders(
                    before,
                    before.orders.update(
                        index_of(before.orders, id),
                        Order { created_at: at, ..row },
                    ),
                ),
            },
        },
    }
}

/// Changes the timestamp of an order, where the payload holds one.
///
/// Fails when the order does not exist, then when the text is not a
/// timestamp. A payload without a timestamp changes nothing.
pub fn update_order(store: &mut Store, id: i64, payload: UpdateOrderPayload) -> (r: Result<
    (),
    AppError,
>)
    requires
        old(store).wf(),
    ensures
        final(store).wf(),
        updates_order(old(store)@, id, payload, final(store)@, r),
{
    let i: usize = match find(&store.orders, id) {
        Some(i) => i,
        None => {
            return Err(not_found(id));
        },
    };
    proof {
        lemma_found(store.orders@, i as int);
    }
    let text: String = match payload.created_at {
        Some(text) => text,
        None => {
            return Ok(());
        },
    };
    let at: Timestamp = match Timestamp::parse(text.as_str()) {
        Some(at) => at,
        None => {
            return Err(AppError::validation("Invalid timestamp"));
        },
    };
    let current: &Order = &store.orders[i];
    let row = Order {
        id: current.id,
        customer_id: current.customer_id,
        total: current.total,
        created_at: at,
    };
    proof {
        lemma_update_keyed(store.orders@, i as int, row);
    }
    store.orders.set(i, row);
    Ok(())
}

/// The store without an order and its lines.
pub open spec fn without_order(s: StoreView, id: i64) -> StoreView {
    StoreView {
        orders: s.orders.remove(index_of(s.orders, id)),
        order_items: s.order_items.filter(|item: OrderItem| item.order_id != id),
        ..s
    }
}

/// What removing an order does: the order and its lines leave the store,
/// or the order is missing and nothing changes.
pub open spec fn deletes_order(
    before: StoreView,
    id: i64,
    after: StoreView,
    r: Result<(), AppError>,
) -> bool {
    if has_id(before.orders, id) {
        r is Ok && after == without_order(before, id)
    } else {
        fails_with(r, order_not_found(id)) && after == before
    }
}

/// Removes an order together with its lines. Stock and ledger stay as they are.
pub fn delete_order(store: &mut Store, id: i64) -> (r: Result<(), AppError>)
    requires
        old(store).wf(),
    ensures
        final(store).wf(),
        deletes_order(old(store)@, id, final(store)@, r),
{
    let at: usize = match find(&store.orders, id) {
        Some(at) => at,
        None => {
            return Err(not_found(id));
        },
    };
    let ghost kept_if = |item: OrderItem| item.order_id != id;
    let mut kept: Vec<OrderItem> = Vec::new();
    let mut i: usize = 0;
    proof {
        reveal(Seq::filter);
        assert(store.order_items@.take(0).filter(kept_if) =~= kept@);
    }
    while i < store.order_items.len()
        invariant
            i <= store.order_items.len(),
            kept_if == (|item: OrderItem| item.order_id != id),
            kept@ == store.order_items@.take(i as int).filter(kept_if),
        decreases store.order_items.len() - i,
    {
        let item: &OrderItem = &store.order_items[i];
        proof {
            store.order_items@.lemma_take_succ_push(i as int);
            store.order_items@.take(i as int).lemma_filter_push(
                store.order_items@[i as int],
                kept_if,
            );
        }
        if item.order_id != id {
            kept.push(item.clone());
        }
        i = i + 1;
    }
    proof {
        let orders = store.orders@;
        let lines = store.order_items@;
        assert(lines.take(i as int) =~= lines);
        lemma_remove_keyed(orders, at as int);
        lemma_filter_keyed(lines, kept_if);
        let orders_after = orders.remove(at as int);
        assert forall|k: int| 0 <= k < kept@.len() implies has_id(
            orders_after,
            (#[trigger] kept@[k]).order_id,
        ) by {
            lines.lemma_filter_pred(kept_if, k);
            assert(kept@.contains(kept@[k]));
            lines.lemma_filter_contains_rev(kept_if, kept@[k]);
            let j = choose|j: int| 0 <= j < lines.len() && lines[j] == kept@[k];
            assert(has_id(orders, lines[j].order_id));
            assert(row_of(orders_after, lines[j].order_id) == row_of(orders, lines[j].order_id));
        }
        assert forall|n: int| 0 <= n < orders_after.len() implies lines_in_range(
            kept@,
            (#[trigger] orders_after[n]).id,
        ) && orders_after[n].total == lines_total(kept@, orders_after[n].id) by {
            let m = if n < at {
                n
            } else {
                n + 1
            };
            assert(orders_after[n] == orders[m]);
            assert(has_id(orders_after, orders_after[n].id));
            lemma_removed_lines_leave_totals(lines, id, orders[m].id);
        }
    }
    store.orders.remove(at);
    store.order_items = kept;
    Ok(())
}

} // verus!
