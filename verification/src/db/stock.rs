//! Stock movements and the ledger.
//!
//! Every change of a stock count made here appends exactly one entry to
//! the ledger, and nothing else writes to it but the placing of orders.

use vstd::prelude::*;
use vstd::string::*;
use crate::db::orders::{line_product_not_found, stock_out_of_range};
use crate::errors::{AppError, ErrorView, fails_with};
use crate::models::{
    DashboardStats, MovementType, Order, OrderItem, Product, StockMovement,
    StockMovementWithProduct, TopProduct,
};
use crate::sorting::{RowOrder, arranged, sort};
use crate::store::{Store, StoreView, exhausted, fits, identifiers_exhausted};
use crate::table::{
    find, fresh_id, has_id, index_of, keyed, lemma_found, lemma_push_keyed, lemma_update_keyed,
    next_id, row_of,
};
use crate::text::{decimal_text, integer_to_string};
use crate::timestamp::Timestamp;

verus! {

/// The failure for a receipt or withdrawal of nothing or less.
pub open spec fn quantity_not_positive() -> ErrorView {
    ErrorView::Validation("Quantity must be positive"@)
}

/// The failure for a withdrawal of more than is in stock.
pub open spec fn stock_short(available: i64, requested: i64) -> ErrorView {
    ErrorView::BusinessLogic(
        "Insufficient stock. Available: "@ + decimal_text(available as int) + ", Requested: "@
            + decimal_text(requested as int),
    )
}

/// By how much a movement changes the full stock: a receipt and a
/// correction add the quantity, a withdrawal takes it away.
pub open spec fn stock_change(kind: MovementType, quantity: i64) -> int {
    match kind {
        MovementType::Out => -quantity,
        _ => quantity as int,
    }
}

/// Why a movement is refused, if it is. A receipt or a withdrawal needs a
/// positive quantity; the product must exist; a withdrawal cannot exceed
/// the full stock; the new stock count must lie in range; the ledger must
/// have an identifier left.
pub open spec fn movement_refusal(
    s: StoreView,
    kind: MovementType,
    product_id: i64,
    quantity: i64,
) -> Option<ErrorView> {
    if kind != MovementType::Adjust && quantity <= 0 {
        Some(quantity_not_positive())
    } else {
        match row_of(s.products, product_id) {
            None => Some(line_product_not_found(product_id)),
            Some(p) => if kind == MovementType::Out && p.stock_full < quantity {
                Some(stock_short(p.stock_full, quantity))
            } else if !fits(p.stock_full + stock_change(kind, quantity)) {
                Some(stock_out_of_range())
            } else if !fits(next_id(s.stock_movements)) {
                Some(identifiers_exhausted())
            } else {
                None
            },
        }
    }
}

/// The store after a movement that is not refused: the full stock of the
/// product changed, and one more ledger entry of that kind and quantity.
pub open spec fn moved(
    s: StoreView,
    kind: MovementType,
    product_id: i64,
    quantity: i64,
    now: Timestamp,
) -> StoreView {
    let at = index_of(s.products, product_id);
    StoreView {
        products: s.products.update(
            at,
            Product {
                stock_full: (s.products[at].stock_full + stock_change(kind, quantity)) as i64,
                ..s.products[at]
            },
        ),
        stock_movements: s.stock_movements.push(
            StockMovement {
                id: next_id(s.stock_movements) as i64,
                product_id,
                movement_type: kind,
                quantity,
                created_at: now,
            },
        ),
        ..s
    }
}

fn product_missing(product_id: i64) -> (e: AppError)
    ensures
        e@ == line_product_not_found(product_id),
{
    AppError::NotFound(
        String::from_str("Product ").concat(integer_to_string(product_id as i128).as_str()).concat(
            " not found",
        ),
    )
}

fn short(available: i64, requested: i64) -> (e: AppError)
    ensures
        e@ == stock_short(available, requested),
{
    let text: String = String::from_str("Insufficient stock. Available: ").concat(
        integer_to_string(available as i128).as_str(),
    ).concat(", Requested: ").concat(integer_to_string(requested as i128).as_str());
    assert(text@ =~= "Insufficient stock. Available: "@ + decimal_text(available as int)
        + ", Requested: "@ + decimal_text(requested as int));
    AppError::BusinessLogic(text)
}

/// What a movement of stock does: a refused movement fails and changes
/// nothing; else the store is as `moved` says.
pub open spec fn moves_stock(
    before: StoreView,
    kind: MovementType,
    product_id: i64,
    quantity: i64,
    now: Timestamp,
    after: StoreView,
    r: Result<(), AppError>,
) -> bool {
    match movement_refusal(before, kind, product_id, quantity) {
        Some(e) => fails_with(r, e) && after == before,
        None => r is Ok && after == moved(before, kind, product_id, quantity, now),
    }
}

/// Carries out one movement of stock and writes its ledger entry.
pub fn record_movement(
    store: &mut Store,
    kind: MovementType,
    product_id: i64,
    quantity: i64,
    now: Timestamp,
) -> (r: Result<(), AppError>)
    requires
        old(store).wf(),
    ensures
        final(store).wf(),
        moves_stock(old(store)@, kind, product_id, quantity, now, final(store)@, r),
{
    let adjusting: bool = match kind {
        MovementType::Adjust => true,
        _ => false,
    };
    let withdrawing: bool = match kind {
        MovementType::Out => true,
        _ => false,
    };
    if !adjusting && quantity <= 0 {
        return Err(AppError::validation("Quantity must be positive"));
    }
    let i: usize = match find(&store.products, product_id) {
        Some(i) => i,
        None => {
            return Err(product_missing(product_id));
        },
    };
    proof {
        lemma_found(store.products@, i as int);
    }
    let current: &Product = &store.products[i];
    if withdrawing && current.stock_full < quantity {
        return Err(short(current.stock_full, quantity));
    }
    let level: Option<i64> = if withdrawing {
        current.stock_full.checked_sub(quantity)
    } else {
        current.stock_full.checked_add(quantity)
    };
    let level: i64 = match level {
        Some(level) => level,
        None => {
            return Err(AppError::BusinessLogic(String::from_str("Stock level is out of range")));
        },
    };
    let id: i64 = match fresh_id(&store.stock_movements) {
        Some(id) => id,
        None => {
            return Err(exhausted());
        },
    };
    let mut row: Product = current.clone();
    row.stock_full = level;
    let entry = StockMovement { id, product_id, movement_type: kind, quantity, created_at: now };
    proof {
        lemma_update_keyed(store.products@, i as int, row);
        lemma_push_keyed(store.stock_movements@, entry);
    }
    store.products.set(i, row);
    store.stock_movements.push(entry);
    Ok(())
}

/// Receives `quantity` full units of a product into stock.
pub fn stock_in(store: &mut Store, product_id: i64, quantity: i64, now: Timestamp) -> (r: Result<
    (),
    AppError,
>)
    requires
        old(store).wf(),
    ensures
        final(store).wf(),
        moves_stock(old(store)@, MovementType::In, product_id, quantity, now, final(store)@, r),
{
    record_movement(store, MovementType::In, product_id, quantity, now)
}

/// Gives `quantity` full units of a product out of stock.
pub fn stock_out(store: &mut Store, product_id: i64, quantity: i64, now: Timestamp) -> (r: Result<
    (),
    AppError,
>)
    requires
        old(store).wf(),
    ensures
        final(store).wf(),
        moves_stock(old(store)@, MovementType::Out, product_id, quantity, now, final(store)@, r),
{
    record_movement(store, MovementType::Out, product_id, quantity, now)
}

/// Corrects the full stock of a product by a signed quantity.
pub fn stock_adjust(store: &mut Store, product_id: i64, quantity: i64, now: Timestamp) -> (r:
    Result<(), AppError>)
    requires
        old(store).wf(),
    ensures
        final(store).wf(),
        moves_stock(old(store)@, MovementType::Adjust, product_id, quantity, now, final(store)@, r),
{
    record_movement(store, MovementType::Adjust, product_id, quantity, now)
}

/// Ledger entries in listings, the most recent first.
pub struct NewestFirst;

impl RowOrder<StockMovementWithProduct> for NewestFirst {
    open spec fn precedes(a: StockMovementWithProduct, b: StockMovementWithProduct) -> bool {
        b.created_at.not_after(a.created_at)
    }

    fn in_order(a: &StockMovementWithProduct, b: &StockMovementWithProduct) -> (r: bool) {
        b.created_at.seconds() <= a.created_at.seconds()
    }

    proof fn lemma_total(a: StockMovementWithProduct, b: StockMovementWithProduct) {
    }

    proof fn lemma_transitive(
        a: StockMovementWithProduct,
        b: StockMovementWithProduct,
        c: StockMovementWithProduct,
    ) {
    }
}

/// Products in ascending order of full stock.
pub struct LowestStockFirst;

impl RowOrder<Product> for LowestStockFirst {
    open spec fn precedes(a: Product, b: Product) -> bool {
        a.stock_full <= b.stock_full
    }

    fn in_order(a: &Product, b: &Product) -> (r: bool) {
        a.stock_full <= b.stock_full
    }

    proof fn lemma_total(a: Product, b: Product) {
    }

    proof fn lemma_transitive(a: Product, b: Product, c: Product) {
    }
}

/// A ledger entry together with the name of its product.
pub open spec fn entry_with_product(m: StockMovement, products: Seq<Product>)
    -> StockMovementWithProduct {
    StockMovementWithProduct {
        id: m.id,
        product_id: m.product_id,
        product_name: row_of(products, m.product_id)->0.name,
        movement_type: m.movement_type,
        quantity: m.quantity,
        created_at: m.created_at,
    }
}

/// The ledger entries whose product the catalogue holds, each with the
/// name of its product.
pub open spec fn ledger_with_products(s: StoreView) -> Seq<StockMovementWithProduct> {
    s.stock_movements.filter(|m: StockMovement| has_id(s.products, m.product_id)).map_values(
        |m: StockMovement| entry_with_product(m, s.products),
    )
}

/// `r` is the ledger with the names of the products, the most recent entry first.
pub open spec fn lists_movements(
    s: StoreView,
    r: Result<Vec<StockMovementWithProduct>, AppError>,
) -> bool {
    r matches Ok(rows) && arranged::<StockMovementWithProduct, NewestFirst>(
        ledger_with_products(s),
        rows@,
    )
}

/// The ledger with the names of the products, the most recent entry first.
pub fn get_all_movements(store: &Store) -> (r: Result<Vec<StockMovementWithProduct>, AppError>)
    requires
        store.wf(),
    ensures
        lists_movements(store@, r),
{
    let ghost wanted = |m: StockMovement| has_id(store@.products, m.product_id);
    let ghost joined = |m: StockMovement| entry_with_product(m, store@.products);
    let mut rows: Vec<StockMovementWithProduct> = Vec::new();
    let mut i: usize = 0;
    proof {
        reveal(Seq::filter);
        assert(store.stock_movements@.take(0).filter(wanted).map_values(joined) =~= rows@);
    }
    while i < store.stock_movements.len()
        invariant
            i <= store.stock_movements.len(),
            keyed(store.products@),
            wanted == (|m: StockMovement| has_id(store@.products, m.product_id)),
            joined == (|m: StockMovement| entry_with_product(m, store@.products)),
            rows@ == store.stock_movements@.take(i as int).filter(wanted).map_values(joined),
        decreases store.stock_movements.len() - i,
    {
        let m: &StockMovement = &store.stock_movements[i];
        proof {
            store.stock_movements@.lemma_take_succ_push(i as int);
            store.stock_movements@.take(i as int).lemma_filter_push(
                store.stock_movements@[i as int],
                wanted,
            );
        }
        match find(&store.products, m.product_id) {
            Some(p) => {
                proof {
                    lemma_found(store.products@, p as int);
                }
                rows.push(
                    StockMovementWithProduct {
                        id: m.id,
                        product_id: m.product_id,
                        product_name: store.products[p].name.clone(),
                        movement_type: m.movement_type,
                        quantity: m.quantity,
                        created_at: m.created_at,
                    },
                );
                assert(rows@ =~= store.stock_movements@.take(i + 1).filter(wanted).map_values(
                    joined,
                ));
            },
            None => {},
        }
        i = i + 1;
    }
    assert(store.stock_movements@.take(i as int) =~= store.stock_movements@);
    Ok(sort::<StockMovementWithProduct, NewestFirst>(rows))
}

/// `r` holds the products with a full stock at or below `threshold`, the lowest first.
pub open spec fn lists_critical_stock(
    s: StoreView,
    threshold: i64,
    r: Result<Vec<Product>, AppError>,
) -> bool {
    r matches Ok(rows) && arranged::<Product, LowestStockFirst>(
        s.products.filter(|p: Product| p.stock_full <= threshold),
        rows@,
    )
}

/// The products whose full stock is at or below `threshold`, the lowest first.
pub fn get_critical_stock(store: &Store, threshold: i64) -> (r: Result<Vec<Product>, AppError>)
    ensures
        lists_critical_stock(store@, threshold, r),
{
    let ghost low = |p: Product| p.stock_full <= threshold;
    let mut rows: Vec<Product> = Vec::new();
    let mut i: usize = 0;
    proof {
        reveal(Seq::filter);
        assert(store.products@.take(0).filter(low) =~= rows@);
    }
    while i < store.products.len()
        invariant
            i <= store.products.len(),
            low == (|p: Product| p.stock_full <= threshold),
            rows@ == store.products@.take(i as int).filter(low),
        decreases store.products.len() - i,
    {
        let p: &Product = &store.products[i];
        proof {
            store.products@.lemma_take_succ_push(i as int);
            store.products@.take(i as int).lemma_filter_push(store.products@[i as int], low);
        }
        if p.stock_full <= threshold {
            rows.push(p.clone());
        }
        i = i + 1;
    }
    assert(store.products@.take(i as int) =~= store.products@);
    Ok(sort::<Product, LowestStockFirst>(rows))
}

/// The stock level at or below which a product counts as running out.
pub const CRITICAL_STOCK_THRESHOLD: i64 = 10;

/// How many products the dashboard ranks.
pub const TOP_PRODUCTS_SHOWN: i64 = 5;

/// Over how many days back the dashboard ranks products.
pub const TOP_PRODUCTS_DAYS: i64 = 30;

/// The failure for a sum of sales that cannot be held in centavos.
pub open spec fn figures_out_of_range() -> ErrorView {
    ErrorView::BusinessLogic("Sales figures are out of range"@)
}

fn out_of_range() -> (e: AppError)
    ensures
        e@ == figures_out_of_range(),
{
    AppError::BusinessLogic(String::from_str("Sales figures are out of range"))
}

/// The order was placed in the period of `now`: the same calendar month
/// when `monthly`, else the same calendar day.
pub open spec fn in_period(o: Order, now: Timestamp, monthly: bool) -> bool {
    if monthly {
        o.created_at.same_month(now)
    } else {
        o.created_at.same_day(now)
    }
}

/// The revenue of the period of `now` in centavos: the sum of the totals
/// of the orders placed in it.
pub open spec fn period_sales(orders: Seq<Order>, now: Timestamp, monthly: bool) -> int
    decreases orders.len(),
{
    if orders.len() == 0 {
        0
    } else {
        period_sales(orders.drop_last(), now, monthly) + if in_period(
            orders.last(),
            now,
            monthly,
        ) {
            orders.last().total as int
        } else {
            0
        }
    }
}

/// Every running total of the revenue of the period, taken order by
/// order, lies in the range of a 64-bit signed integer.
pub open spec fn period_sales_fit(orders: Seq<Order>, now: Timestamp, monthly: bool) -> bool
    decreases orders.len(),
{
    orders.len() == 0 || (period_sales_fit(orders.drop_last(), now, monthly) && fits(
        period_sales(orders, now, monthly),
    ))
}

/// A revenue that leaves the range at some order stays out of range.
pub proof fn lemma_period_persists(orders: Seq<Order>, now: Timestamp, monthly: bool, k: int)
    requires
        0 <= k <= orders.len(),
        !period_sales_fit(orders.take(k), now, monthly),
    ensures
        !period_sales_fit(orders, now, monthly),
    decreases orders.len() - k,
{
    if k < orders.len() {
        assert(orders.take(k + 1).drop_last() =~= orders.take(k));
        lemma_period_persists(orders, now, monthly, k + 1);
    } else {
        assert(orders.take(k) =~= orders);
    }
}

/// The revenue of the period of `now`, unless a running total leaves the range.
pub fn sales_of_period(orders: &Vec<Order>, now: Timestamp, monthly: bool) -> (total: Option<i64>)
    ensures
        match total {
            Some(t) => period_sales_fit(orders@, now, monthly) && t == period_sales(
                orders@,
                now,
                monthly,
            ),
            None => !period_sales_fit(orders@, now, monthly),
        },
{
    let mut total: i64 = 0;
    let mut k: usize = 0;
    assert(orders@.take(0) =~= Seq::empty());
    while k < orders.len()
        invariant
            k <= orders.len(),
            period_sales_fit(orders@.take(k as int), now, monthly),
            total == period_sales(orders@.take(k as int), now, monthly),
        decreases orders.len() - k,
    {
        let o: &Order = &orders[k];
        let ghost next = orders@.take(k + 1);
        proof {
            assert(next.drop_last() =~= orders@.take(k as int));
            assert(next.last() == orders@[k as int]);
        }
        let counted: bool = if monthly {
            o.created_at.in_same_month(&now)
        } else {
            o.created_at.on_same_day(&now)
        };
        if counted {
            total = match total.checked_add(o.total) {
                Some(t) => t,
                None => {
                    proof {
                        lemma_period_persists(orders@, now, monthly, k + 1);
                    }
                    return None;
                },
            };
        }
        k = k + 1;
    }
    assert(orders@.take(k as int) =~= orders@);
    Some(total)
}

/// The customers who placed an order in the calendar month of `now`.
pub open spec fn customers_of_month(orders: Seq<Order>, now: Timestamp) -> Set<i64>
    decreases orders.len(),
{
    if orders.len() == 0 {
        Set::empty()
    } else {
        let before = customers_of_month(orders.drop_last(), now);
        match orders.last().customer_id {
            Some(c) => if orders.last().created_at.same_month(now) {
                before.insert(c)
            } else {
                before
            },
            None => before,
        }
    }
}

fn holds(seen: &Vec<i64>, c: i64) -> (b: bool)
    ensures
        b == seen@.contains(c),
{
    let mut i: usize = 0;
    while i < seen.len()
        invariant
            i <= seen.len(),
            forall|k: int| 0 <= k < i ==> seen@[k] != c,
        decreases seen.len() - i,
    {
        if seen[i] == c {
            return true;
        }
        i = i + 1;
    }
    false
}

/// How many different customers placed an order in the calendar month of `now`.
pub fn count_active_customers(orders: &Vec<Order>, now: Timestamp) -> (n: usize)
    ensures
        n == customers_of_month(orders@, now).len(),
        customers_of_month(orders@, now).finite(),
        n <= orders.len(),
{
    let mut seen: Vec<i64> = Vec::new();
    let mut k: usize = 0;
    proof {
        assert(orders@.take(0) =~= Seq::empty());
        assert(seen@.to_set() =~= Set::<i64>::empty());
    }
    while k < orders.len()
        invariant
            k <= orders.len(),
            seen@.no_duplicates(),
            seen@.to_set() == customers_of_month(orders@.take(k as int), now),
            seen.len() <= k,
        decreases orders.len() - k,
    {
        let o: &Order = &orders[k];
        let ghost next = orders@.take(k + 1);
        proof {
            assert(next.drop_last() =~= orders@.take(k as int));
            assert(next.last() == orders@[k as int]);
        }
        match o.customer_id {
            Some(c) => {
                if o.created_at.in_same_month(&now) {
                    if !holds(&seen, c) {
                        proof {
                            seen@.lemma_push_to_set_commute(c);
                        }
                        seen.push(c);
                    } else {
                        assert(seen@.to_set().insert(c) =~= seen@.to_set());
                    }
                }
            },
            None => {},
        }
        k = k + 1;
    }
    proof {
        assert(orders@.take(k as int) =~= orders@);
        seen@.unique_seq_to_set();
        vstd::seq_lib::seq_to_set_is_finite(seen@);
    }
    seen.len()
}

/// The line counts towards the sales of `product_id` since the instant
/// `since`: it is a line of that product, of an order that the order book
/// holds and that was placed at or after `since`.
pub open spec fn counts(s: StoreView, item: OrderItem, product_id: i64, since: int) -> bool {
    item.product_id == product_id && match row_of(s.orders, item.order_id) {
        Some(o) => o.created_at.instant() >= since,
        None => false,
    }
}

/// How many of the lines count towards the sales of the product.
pub open spec fn lines_sold(s: StoreView, items: Seq<OrderItem>, product_id: i64, since: int)
    -> nat
    decreases items.len(),
{
    if items.len() == 0 {
        0
    } else {
        lines_sold(s, items.drop_last(), product_id, since) + if counts(
            s,
            items.last(),
            product_id,
            since,
        ) {
            1nat
        } else {
            0nat
        }
    }
}

/// The units of the product sold: the sum of the quantities of the lines that count.
pub open spec fn units_sold(s: StoreView, items: Seq<OrderItem>, product_id: i64, since: int)
    -> int
    decreases items.len(),
{
    if items.len() == 0 {
        0
    } else {
        units_sold(s, items.drop_last(), product_id, since) + if counts(
            s,
            items.last(),
            product_id,
            since,
        ) {
            items.last().quantity as int
        } else {
            0
        }
    }
}

/// The revenue of the product in centavos: the sum of quantity times unit
/// price over the lines that count.
pub open spec fn revenue(s: StoreView, items: Seq<OrderItem>, product_id: i64, since: int) -> int
    decreases items.len(),
{
    if items.len() == 0 {
        0
    } else {
        revenue(s, items.drop_last(), product_id, since) + if counts(
            s,
            items.last(),
            product_id,
            since,
        ) {
            items.last().quantity * items.last().unit_price
        } else {
            0
        }
    }
}

/// The amount of every line that counts, and every running total of units
/// and of revenue, taken line by line, lies in the range of a 64-bit
/// signed integer.
pub open spec fn sales_fit(s: StoreView, items: Seq<OrderItem>, product_id: i64, since: int)
    -> bool
    decreases items.len(),
{
    items.len() == 0 || {
        &&& sales_fit(s, items.drop_last(), product_id, since)
        &&& counts(s, items.last(), product_id, since) ==> fits(
            items.last().quantity * items.last().unit_price,
        )
        &&& fits(units_sold(s, items, product_id, since))
        &&& fits(revenue(s, items, product_id, since))
    }
}

/// Sales that leave the range at some line stay out of range.
pub proof fn lemma_sales_persist(
    s: StoreView,
    items: Seq<OrderItem>,
    product_id: i64,
    since: int,
    k: int,
)
    requires
        0 <= k <= items.len(),
        !sales_fit(s, items.take(k), product_id, since),
    ensures
        !sales_fit(s, items, product_id, since),
    decreases items.len() - k,
{
    if k < items.len() {
        assert(items.take(k + 1).drop_last() =~= items.take(k));
        lemma_sales_persist(s, items, product_id, since, k + 1);
    } else {
        assert(items.take(k) =~= items);
    }
}

/// The sales of one product since an instant.
pub struct Sales {
    pub lines: usize,
    pub units: i64,
    pub revenue: i64,
}

/// The instant `days` days before `now`, in seconds.
pub open spec fn days_before(now: Timestamp, days: i64) -> int {
    now.instant() - days * 86400
}

/// Adds up the sales of one product since the instant `since`, unless a
/// figure leaves the range.
pub fn sales_of_product(store: &Store, product_id: i64, since: i128) -> (r: Option<Sales>)
    requires
        store.wf(),
    ensures
        match r {
            Some(sales) => {
                &&& sales_fit(store@, store@.order_items, product_id, since as int)
                &&& sales.lines == lines_sold(store@, store@.order_items, product_id, since as int)
                &&& sales.units == units_sold(store@, store@.order_items, product_id, since as int)
                &&& sales.revenue == revenue(store@, store@.order_items, product_id, since as int)
            },
            None => !sales_fit(store@, store@.order_items, product_id, since as int),
        },
{
    let mut lines: usize = 0;
    let mut units: i64 = 0;
    let mut income: i64 = 0;
    let mut k: usize = 0;
    let ghost s = store@;
    let ghost at = since as int;
    assert(s.order_items.take(0) =~= Seq::empty());
    while k < store.order_items.len()
        invariant
            k <= store.order_items.len(),
            store.wf(),
            s == store@,
            at == since as int,
            sales_fit(s, s.order_items.take(k as int), product_id, at),
            lines == lines_sold(s, s.order_items.take(k as int), product_id, at),
            lines <= k,
            units == units_sold(s, s.order_items.take(k as int), product_id, at),
            income == revenue(s, s.order_items.take(k as int), product_id, at),
        decreases store.order_items.len() - k,
    {
        let item: &OrderItem = &store.order_items[k];
        let ghost next = s.order_items.take(k + 1);
        proof {
            assert(next.drop_last() =~= s.order_items.take(k as int));
            assert(next.last() == s.order_items[k as int]);
        }
        let counted: bool = item.product_id == product_id && match find(
            &store.orders,
            item.order_id,
        ) {
            Some(o) => {
                proof {
                    lemma_found(store.orders@, o as int);
                }
                store.orders[o].created_at.seconds() as i128 >= since
            },
            None => false,
        };
        if counted {
            let amount: Option<i64> = item.quantity.checked_mul(item.unit_price);
            let more_units: Option<i64> = units.checked_add(item.quantity);
            match (amount, more_units) {
                (Some(amount), Some(more_units)) => {
                    match income.checked_add(amount) {
                        Some(more_income) => {
                            lines = lines + 1;
                            units = more_units;
                            income = more_income;
                        },
                        None => {
                            proof {
                                lemma_sales_persist(s, s.order_items, product_id, at, k + 1);
                            }
                            return None;
                        },
                    }
                },
                _ => {
                    proof {
                        lemma_sales_persist(s, s.order_items, product_id, at, k + 1);
                    }
                    return None;
                },
            }
        }
        k = k + 1;
    }
    assert(s.order_items.take(k as int) =~= s.order_items);
    Some(Sales { lines, units, revenue: income })
}

/// Best-selling products first: in descending order of units sold.
pub struct BestSellingFirst;

impl RowOrder<TopProduct> for BestSellingFirst {
    open spec fn precedes(a: TopProduct, b: TopProduct) -> bool {
        a.total_quantity >= b.total_quantity
    }

    fn in_order(a: &TopProduct, b: &TopProduct) -> (r: bool) {
        a.total_quantity >= b.total_quantity
    }

    proof fn lemma_total(a: TopProduct, b: TopProduct) {
    }

    proof fn lemma_transitive(a: TopProduct, b: TopProduct, c: TopProduct) {
    }
}

/// The sales of a product since an instant as a row of the ranking.
pub open spec fn ranking_row(s: StoreView, p: Product, since: int) -> TopProduct {
    TopProduct {
        product_id: p.id,
        product_name: p.name,
        total_quantity: units_sold(s, s.order_items, p.id, since) as i64,
        total_revenue: revenue(s, s.order_items, p.id, since) as i64,
    }
}

/// The products with at least one line that counts since an instant, each
/// with its sales.
pub open spec fn products_sold(s: StoreView, since: int) -> Seq<TopProduct> {
    s.products.filter(|p: Product| lines_sold(s, s.order_items, p.id, since) > 0).map_values(
        |p: Product| ranking_row(s, p, since),
    )
}

/// The sales figures of every product of the catalogue lie in range.
pub open spec fn all_sales_fit(s: StoreView, since: int) -> bool {
    forall|i: int|
        0 <= i < s.products.len() ==> sales_fit(
            s,
            s.order_items,
            (#[trigger] s.products[i]).id,
            since,
        )
}

/// How many rows of a ranking of `available` rows a limit shows: all of
/// them for a negative limit.
pub open spec fn shown(limit: i64, available: nat) -> int {
    if limit < 0 || limit >= available {
        available as int
    } else {
        limit as int
    }
}

/// `rows` are the first rows, as many as `limit` shows, of a ranking of
/// the products sold since the instant `since`, best-selling first.
pub open spec fn is_ranking(s: StoreView, since: int, limit: i64, rows: Seq<TopProduct>) -> bool {
    exists|all: Seq<TopProduct>|
        #![auto]
        arranged::<TopProduct, BestSellingFirst>(products_sold(s, since), all) && rows == all.take(
            shown(limit, all.len()),
        )
}

/// `r` is the ranking of the products sold in the `days` days before `now`,
/// cut to `limit` rows, or the failure that a figure is out of range.
pub open spec fn ranks_products(
    s: StoreView,
    limit: i64,
    days: i64,
    now: Timestamp,
    r: Result<Vec<TopProduct>, AppError>,
) -> bool {
    if all_sales_fit(s, days_before(now, days)) {
        r matches Ok(rows) && is_ranking(s, days_before(now, days), limit, rows@)
    } else {
        fails_with(r, figures_out_of_range())
    }
}

/// The best-selling products of the last `days` days before `now`: units
/// sold and revenue for each, the most units first, at most `limit` rows.
///
/// Only lines of orders that the order book holds and of products that the
/// catalogue holds count. Fails when a figure leaves the range of a 64-bit
/// signed integer.
pub fn get_top_products(store: &Store, limit: i64, days: i64, now: Timestamp) -> (r: Result<
    Vec<TopProduct>,
    AppError,
>)
    requires
        store.wf(),
    ensures
        ranks_products(store@, limit, days, now, r),
{
    let span: i128 = days as i128 * 86400;
    let since: i128 = now.seconds() as i128 - span;
    let ghost s = store@;
    let ghost at = days_before(now, days);
    let ghost sold = |p: Product| lines_sold(s, s.order_items, p.id, at) > 0;
    let ghost row_of_product = |p: Product| ranking_row(s, p, at);
    let mut found: Vec<TopProduct> = Vec::new();
    let mut i: usize = 0;
    proof {
        reveal(Seq::filter);
        assert(s.products.take(0).filter(sold).map_values(row_of_product) =~= found@);
    }
    while i < store.products.len()
        invariant
            i <= store.products.len(),
            store.wf(),
            s == store@,
            at == days_before(now, days),
            at == since as int,
            sold == (|p: Product| lines_sold(s, s.order_items, p.id, at) > 0),
            row_of_product == (|p: Product| ranking_row(s, p, at)),
            found@ == s.products.take(i as int).filter(sold).map_values(row_of_product),
            forall|k: int|
                0 <= k < i ==> sales_fit(s, s.order_items, (#[trigger] s.products[k]).id, at),
        decreases store.products.len() - i,
    {
        let p: &Product = &store.products[i];
        proof {
            s.products.lemma_take_succ_push(i as int);
            s.products.take(i as int).lemma_filter_push(s.products[i as int], sold);
        }
        match sales_of_product(store, p.id, since) {
            Some(sales) => {
                if sales.lines > 0 {
                    found.push(
                        TopProduct {
                            product_id: p.id,
                            product_name: p.name.clone(),
                            total_quantity: sales.units,
                            total_revenue: sales.revenue,
                        },
                    );
                    assert(found@ =~= s.products.take(i + 1).filter(sold).map_values(
                        row_of_product,
                    ));
                }
            },
            None => {
                return Err(out_of_range());
            },
        }
        i = i + 1;
    }
    assert(s.products.take(i as int) =~= s.products);
    assert(found@ == products_sold(s, at));
    let mut ranked: Vec<TopProduct> = sort::<TopProduct, BestSellingFirst>(found);
    let ghost all: Seq<TopProduct> = ranked@;
    if limit >= 0 && (limit as u64) < ranked.len() as u64 {
        ranked.truncate(limit as usize);
    }
    proof {
        assert(ranked@ =~= all.take(shown(limit, all.len())));
        assert(arranged::<TopProduct, BestSellingFirst>(products_sold(s, at), all));
        assert(is_ranking(s, at, limit, ranked@));
        assert(all_sales_fit(s, at));
    }
    Ok(ranked)
}

/// The figures of the dashboard at the time `now`.
pub open spec fn is_dashboard(s: StoreView, now: Timestamp, stats: DashboardStats) -> bool {
    &&& stats.sales_today == period_sales(s.orders, now, false)
    &&& stats.sales_month == period_sales(s.orders, now, true)
    &&& arranged::<Product, LowestStockFirst>(
        s.products.filter(|p: Product| p.stock_full <= CRITICAL_STOCK_THRESHOLD),
        stats.critical_stock@,
    )
    &&& is_ranking(
        s,
        days_before(now, TOP_PRODUCTS_DAYS),
        TOP_PRODUCTS_SHOWN,
        stats.top_products@,
    )
    &&& stats.active_customers == customers_of_month(s.orders, now).len()
}

/// The dashboard can be computed: the revenue of the day and of the month
/// and the sales of every product lie in range.
pub open spec fn dashboard_in_range(s: StoreView, now: Timestamp) -> bool {
    &&& period_sales_fit(s.orders, now, false)
    &&& period_sales_fit(s.orders, now, true)
    &&& all_sales_fit(s, days_before(now, TOP_PRODUCTS_DAYS))
}

/// A keyed table has no more rows than its largest identifier.
pub proof fn lemma_keyed_len<T: crate::table::Row>(rows: Seq<T>)
    requires
        keyed(rows),
    ensures
        forall|i: int| 0 <= i < rows.len() ==> (#[trigger] rows[i]).row_id() > i,
        rows.len() <= i64::MAX,
    decreases rows.len(),
{
    if rows.len() > 0 {
        let front = rows.drop_last();
        assert forall|i: int| 0 <= i < front.len() implies (#[trigger] front[i]).row_id() > 0 by {
            assert(front[i] == rows[i]);
        }
        assert forall|i: int, j: int| 0 <= i < j < front.len() implies (
        #[trigger] front[i]).row_id() < (#[trigger] front[j]).row_id() by {
            assert(front[i] == rows[i] && front[j] == rows[j]);
        }
        lemma_keyed_len(front);
        let n = rows.len() as int;
        assert forall|i: int| 0 <= i < n implies (#[trigger] rows[i]).row_id() > i by {
            if i < n - 1 {
                assert(front[i] == rows[i]);
            } else if n >= 2 {
                assert(front[n - 2] == rows[n - 2]);
                assert(rows[n - 2].row_id() < rows[n - 1].row_id());
            } else {
                assert(rows[0].row_id() > 0);
            }
        }
        assert(rows[n - 1].row_id() > n - 1);
    }
}

/// `r` holds the figures of the dashboard at the time `now`, or the failure
/// that a figure is out of range.
pub open spec fn shows_dashboard(
    s: StoreView,
    now: Timestamp,
    r: Result<DashboardStats, AppError>,
) -> bool {
    if dashboard_in_range(s, now) {
        r matches Ok(stats) && is_dashboard(s, now, stats)
    } else {
        fails_with(r, figures_out_of_range())
    }
}

/// The figures of the dashboard at the time `now`: revenue of the day and
/// of the month, products running out, the best-selling products of the
/// last thirty days, and the number of customers who ordered this month.
pub fn get_dashboard_stats(store: &Store, now: Timestamp) -> (r: Result<DashboardStats, AppError>)
    requires
        store.wf(),
    ensures
        shows_dashboard(store@, now, r),
{
    let sales_today: i64 = match sales_of_period(&store.orders, now, false) {
        Some(t) => t,
        None => {
            return Err(out_of_range());
        },
    };
    let sales_month: i64 = match sales_of_period(&store.orders, now, true) {
        Some(t) => t,
        None => {
            return Err(out_of_range());
        },
    };
    let critical_stock: Vec<Product> = match get_critical_stock(store, CRITICAL_STOCK_THRESHOLD) {
        Ok(rows) => rows,
        Err(e) => {
            return Err(e);
        },
    };
    let top_products: Vec<TopProduct> = match get_top_products(
        store,
        TOP_PRODUCTS_SHOWN,
        TOP_PRODUCTS_DAYS,
        now,
    ) {
        Ok(rows) => rows,
        Err(e) => {
            return Err(e);
        },
    };
    let active: usize = count_active_customers(&store.orders, now);
    proof {
        lemma_keyed_len(store.orders@);
    }
    Ok(
        DashboardStats {
            sales_today,
            sales_month,
            critical_stock,
            top_products,
            active_customers: active as i64,
        },
    )
}

} // verus!
