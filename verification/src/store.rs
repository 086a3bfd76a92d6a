//! The state of the shop: six tables, each in ascending order of
//! identifier, and the conditions that every operation keeps.

use vstd::prelude::*;
use vstd::string::*;
use crate::errors::{AppError, ErrorView};
use crate::models::{
    Customer, Order, OrderItem, Product, StockMovement, User, role_known, category_known,
    valid_customer, valid_product, valid_user,
};
use crate::table::{find, has_id, is_keyed, keyed};

verus! {

/// Everything the shop knows.
pub struct Store {
    pub(crate) products: Vec<Product>,
    pub(crate) customers: Vec<Customer>,
    pub(crate) orders: Vec<Order>,
    pub(crate) order_items: Vec<OrderItem>,
    pub(crate) stock_movements: Vec<StockMovement>,
    pub(crate) users: Vec<User>,
}

/// The content of a [`Store`]: its tables as sequences of rows.
pub struct StoreView {
    pub products: Seq<Product>,
    pub customers: Seq<Customer>,
    pub orders: Seq<Order>,
    pub order_items: Seq<OrderItem>,
    pub stock_movements: Seq<StockMovement>,
    pub users: Seq<User>,
}

/// No two accounts share a username.
pub open spec fn usernames_distinct(users: Seq<User>) -> bool {
    forall|i: int, j: int|
        0 <= i < j < users.len() ==> (#[trigger] users[i]).username@ != (
        #[trigger] users[j]).username@
}

/// The integer lies in the range of a 64-bit signed integer.
pub open spec fn fits(n: int) -> bool {
    i64::MIN <= n <= i64::MAX
}

/// The amount of a stored line in centavos: quantity times unit price.
pub open spec fn item_amount(item: OrderItem) -> int {
    item.quantity * item.unit_price
}

/// The sum of the amounts of the lines of one order.
pub open spec fn lines_total(items: Seq<OrderItem>, order_id: i64) -> int
    decreases items.len(),
{
    if items.len() == 0 {
        0
    } else {
        lines_total(items.drop_last(), order_id) + if items.last().order_id == order_id {
            item_amount(items.last())
        } else {
            0
        }
    }
}

/// The amount of every line of the order, and every running total of
/// them, taken line by line, lies in the range of a 64-bit signed integer.
pub open spec fn lines_in_range(items: Seq<OrderItem>, order_id: i64) -> bool
    decreases items.len(),
{
    items.len() == 0 || {
        &&& lines_in_range(items.drop_last(), order_id)
        &&& items.last().order_id == order_id ==> fits(item_amount(items.last()))
        &&& fits(lines_total(items, order_id))
    }
}

/// The total of every order is the sum of the amounts of its lines.
pub open spec fn totals_consistent(orders: Seq<Order>, items: Seq<OrderItem>) -> bool {
    forall|i: int|
        0 <= i < orders.len() ==> {
            &&& lines_in_range(items, (#[trigger] orders[i]).id)
            &&& orders[i].total == lines_total(items, orders[i].id)
        }
}

/// Every line belongs to an order that the order book holds.
pub open spec fn lines_owned(orders: Seq<Order>, items: Seq<OrderItem>) -> bool {
    forall|k: int| 0 <= k < items.len() ==> has_id(orders, (#[trigger] items[k]).order_id)
}

/// The conditions that hold of the store between operations: every table
/// is keyed; products, customers and accounts are valid rows; usernames
/// are unique; every order line belongs to an order; and the total of
/// every order is the sum of the amounts of its lines.
pub open spec fn valid_store(s: StoreView) -> bool {
    &&& keyed(s.products)
    &&& forall|i: int| 0 <= i < s.products.len() ==> valid_product(#[trigger] s.products[i])
    &&& keyed(s.customers)
    &&& forall|i: int| 0 <= i < s.customers.len() ==> valid_customer(#[trigger] s.customers[i])
    &&& keyed(s.orders)
    &&& keyed(s.order_items)
    &&& lines_owned(s.orders, s.order_items)
    &&& totals_consistent(s.orders, s.order_items)
    &&& keyed(s.stock_movements)
    &&& keyed(s.users)
    &&& forall|i: int| 0 <= i < s.users.len() ==> valid_user(#[trigger] s.users[i])
    &&& usernames_distinct(s.users)
}

/// The store without any row.
pub open spec fn empty_store() -> StoreView {
    StoreView {
        products: Seq::empty(),
        customers: Seq::empty(),
        orders: Seq::empty(),
        order_items: Seq::empty(),
        stock_movements: Seq::empty(),
        users: Seq::empty(),
    }
}

/// The failure reported when a table has no identifier left for a new row.
pub open spec fn identifiers_exhausted() -> ErrorView {
    ErrorView::Database("No identifier left for a new row"@)
}

/// The failure reported when tables handed to [`Store::from_tables`] break
/// the conditions of a store.
pub open spec fn inconsistent_tables() -> ErrorView {
    ErrorView::Database("Stored tables are inconsistent"@)
}

/// The failure for a table without a free identifier.
pub fn exhausted() -> (e: AppError)
    ensures
        e@ == identifiers_exhausted(),
{
    AppError::Database(String::from_str("No identifier left for a new row"))
}

fn products_valid(rows: &Vec<Product>) -> (b: bool)
    ensures
        b == (forall|i: int| 0 <= i < rows.len() ==> valid_product(#[trigger] rows@[i])),
{
    let mut i: usize = 0;
    while i < rows.len()
        invariant
            i <= rows.len(),
            forall|k: int| 0 <= k < i ==> valid_product(#[trigger] rows@[k]),
        decreases rows.len() - i,
    {
        let p: &Product = &rows[i];
        if p.name.as_str().is_empty() || !category_known(&p.category) || p.price_refill < 0
            || p.price_full < 0 {
            assert(!valid_product(rows@[i as int]));
            return false;
        }
        i = i + 1;
    }
    true
}

fn customers_valid(rows: &Vec<Customer>) -> (b: bool)
    ensures
        b == (forall|i: int| 0 <= i < rows.len() ==> valid_customer(#[trigger] rows@[i])),
{
    let mut i: usize = 0;
    while i < rows.len()
        invariant
            i <= rows.len(),
            forall|k: int| 0 <= k < i ==> valid_customer(#[trigger] rows@[k]),
        decreases rows.len() - i,
    {
        if rows[i].name.as_str().is_empty() {
            assert(!valid_customer(rows@[i as int]));
            return false;
        }
        i = i + 1;
    }
    true
}

fn users_valid(rows: &Vec<User>) -> (b: bool)
    ensures
        b == (forall|i: int| 0 <= i < rows.len() ==> valid_user(#[trigger] rows@[i])),
{
    let mut i: usize = 0;
    while i < rows.len()
        invariant
            i <= rows.len(),
            forall|k: int| 0 <= k < i ==> valid_user(#[trigger] rows@[k]),
        decreases rows.len() - i,
    {
        if rows[i].username.as_str().is_empty() || !role_known(&rows[i].role) {
            assert(!valid_user(rows@[i as int]));
            return false;
        }
        i = i + 1;
    }
    true
}

/// A total that leaves the range at some line stays out of range.
pub proof fn lemma_lines_range_persists(items: Seq<OrderItem>, order_id: i64, k: int)
    requires
        0 <= k <= items.len(),
        !lines_in_range(items.take(k), order_id),
    ensures
        !lines_in_range(items, order_id),
    decreases items.len() - k,
{
    if k < items.len() {
        assert(items.take(k + 1).drop_last() =~= items.take(k));
        lemma_lines_range_persists(items, order_id, k + 1);
    } else {
        assert(items.take(k) =~= items);
    }
}

/// The sum of the amounts of the lines of one order, unless an amount or
/// a running total leaves the range.
pub fn total_of_lines(items: &Vec<OrderItem>, order_id: i64) -> (total: Option<i64>)
    ensures
        match total {
            Some(t) => lines_in_range(items@, order_id) && t == lines_total(items@, order_id),
            None => !lines_in_range(items@, order_id),
        },
{
    let mut total: i64 = 0;
    let mut k: usize = 0;
    assert(items@.take(0) =~= Seq::empty());
    while k < items.len()
        invariant
            k <= items.len(),
            lines_in_range(items@.take(k as int), order_id),
            total == lines_total(items@.take(k as int), order_id),
        decreases items.len() - k,
    {
        let item: &OrderItem = &items[k];
        let ghost next = items@.take(k + 1);
        proof {
            assert(next.drop_last() =~= items@.take(k as int));
            assert(next.last() == items@[k as int]);
        }
        if item.order_id == order_id {
            let amount: Option<i64> = item.quantity.checked_mul(item.unit_price);
            let sum: Option<i64> = match amount {
                Some(amount) => total.checked_add(amount),
                None => None,
            };
            match sum {
                Some(sum) => {
                    total = sum;
                },
                None => {
                    proof {
                        lemma_lines_range_persists(items@, order_id, k + 1);
                    }
                    return None;
                },
            }
        }
        k = k + 1;
    }
    assert(items@.take(k as int) =~= items@);
    Some(total)
}

fn totals_match(orders: &Vec<Order>, items: &Vec<OrderItem>) -> (b: bool)
    ensures
        b == totals_consistent(orders@, items@),
{
    let mut i: usize = 0;
    while i < orders.len()
        invariant
            i <= orders.len(),
            forall|k: int|
                0 <= k < i ==> {
                    &&& lines_in_range(items@, (#[trigger] orders@[k]).id)
                    &&& orders@[k].total == lines_total(items@, orders@[k].id)
                },
        decreases orders.len() - i,
    {
        match total_of_lines(items, orders[i].id) {
            Some(t) => {
                if t != orders[i].total {
                    assert(orders@[i as int].total != lines_total(items@, orders@[i as int].id));
                    return false;
                }
            },
            None => {
                assert(!lines_in_range(items@, orders@[i as int].id));
                return false;
            },
        }
        i = i + 1;
    }
    true
}

fn lines_have_orders(orders: &Vec<Order>, items: &Vec<OrderItem>) -> (b: bool)
    requires
        keyed(orders@),
    ensures
        b == lines_owned(orders@, items@),
{
    let mut k: usize = 0;
    while k < items.len()
        invariant
            k <= items.len(),
            keyed(orders@),
            forall|j: int| 0 <= j < k ==> has_id(orders@, (#[trigger] items@[j]).order_id),
        decreases items.len() - k,
    {
        if find(orders, items[k].order_id).is_none() {
            assert(!has_id(orders@, items@[k as int].order_id));
            return false;
        }
        k = k + 1;
    }
    true
}

/// Some account has the given username.
pub open spec fn username_taken(users: Seq<User>, username: Seq<char>) -> bool {
    exists|i: int| 0 <= i < users.len() && (#[trigger] users[i]).username@ == username
}

/// The account with the given username, if there is one.
pub open spec fn user_named(users: Seq<User>, username: Seq<char>) -> Option<User> {
    if username_taken(users, username) {
        Some(
            users[choose|i: int|
                0 <= i < users.len() && (#[trigger] users[i]).username@ == username],
        )
    } else {
        None
    }
}

/// Where usernames are distinct, the account at a position is the account of its username.
pub proof fn lemma_user_named(users: Seq<User>, i: int)
    requires
        usernames_distinct(users),
        0 <= i < users.len(),
    ensures
        user_named(users, users[i].username@) == Some(users[i]),
{
    let name = users[i].username@;
    assert(username_taken(users, name));
    let k = choose|k: int| 0 <= k < users.len() && (#[trigger] users[k]).username@ == name;
    if k < i {
        assert(users[k].username@ != users[i].username@);
    } else if i < k {
        assert(users[i].username@ != users[k].username@);
    }
}

/// Looks for the account with the given username.
pub fn find_username(users: &Vec<User>, username: &String) -> (found: Option<usize>)
    ensures
        found is Some <==> username_taken(users@, username@),
        found matches Some(i) ==> i < users.len() && users@[i as int].username@ == username@,
{
    let mut i: usize = 0;
    while i < users.len()
        invariant
            i <= users.len(),
            forall|k: int| 0 <= k < i ==> (#[trigger] users@[k]).username@ != username@,
        decreases users.len() - i,
    {
        if users[i].username == *username {
            return Some(i);
        }
        i = i + 1;
    }
    None
}

fn usernames_unique(rows: &Vec<User>) -> (b: bool)
    ensures
        b == usernames_distinct(rows@),
{
    let mut j: usize = 0;
    while j < rows.len()
        invariant
            j <= rows.len(),
            forall|a: int, b: int|
                0 <= a < b < j ==> (#[trigger] rows@[a]).username@ != (
                #[trigger] rows@[b]).username@,
        decreases rows.len() - j,
    {
        let mut i: usize = 0;
        while i < j
            invariant
                i <= j < rows.len(),
                forall|a: int|
                    0 <= a < i ==> (#[trigger] rows@[a]).username@ != rows@[j as int].username@,
            decreases j - i,
        {
            if rows[i].username == rows[j].username {
                return false;
            }
            i = i + 1;
        }
        j = j + 1;
    }
    true
}

/// Whether six tables satisfy the conditions of a store.
fn tables_fit(
    products: &Vec<Product>,
    customers: &Vec<Customer>,
    orders: &Vec<Order>,
    order_items: &Vec<OrderItem>,
    stock_movements: &Vec<StockMovement>,
    users: &Vec<User>,
) -> (b: bool)
    ensures
        b == valid_store(
            StoreView {
                products: products@,
                customers: customers@,
                orders: orders@,
                order_items: order_items@,
                stock_movements: stock_movements@,
                users: users@,
            },
        ),
{
    is_keyed(products) && products_valid(products) && is_keyed(customers) && customers_valid(
        customers,
    ) && is_keyed(orders) && is_keyed(order_items) && lines_have_orders(orders, order_items)
        && totals_match(orders, order_items) && is_keyed(stock_movements) && is_keyed(users)
        && users_valid(users) && usernames_unique(users)
}

impl Store {
    /// The tables as sequences of rows.
    pub open(crate) spec fn view(&self) -> StoreView {
        StoreView {
            products: self.products@,
            customers: self.customers@,
            orders: self.orders@,
            order_items: self.order_items@,
            stock_movements: self.stock_movements@,
            users: self.users@,
        }
    }

    /// The store satisfies the conditions that operations rely on and keep.
    pub open spec fn wf(&self) -> bool {
        valid_store(self@)
    }

    /// A store without any row.
    pub fn new() -> (s: Store)
        ensures
            s@ == empty_store(),
            s.wf(),
    {
        let s = Store {
            products: Vec::new(),
            customers: Vec::new(),
            orders: Vec::new(),
            order_items: Vec::new(),
            stock_movements: Vec::new(),
            users: Vec::new(),
        };
        assert(s@.products =~= Seq::empty() && s@.customers =~= Seq::empty() && s@.orders
            =~= Seq::empty() && s@.order_items =~= Seq::empty() && s@.stock_movements
            =~= Seq::empty() && s@.users =~= Seq::empty());
        s
    }

    /// Whether the store satisfies the conditions that operations rely on.
    ///
    /// Every store made by [`Store::new`] or [`Store::from_tables`] and
    /// changed only by the operations of this library does.
    pub fn is_valid(&self) -> (b: bool)
        ensures
            b == self.wf(),
    {
        tables_fit(
            &self.products,
            &self.customers,
            &self.orders,
            &self.order_items,
            &self.stock_movements,
            &self.users,
        )
    }

    /// A store over the given tables, if they satisfy the conditions of a store.
    pub fn from_tables(
        products: Vec<Product>,
        customers: Vec<Customer>,
        orders: Vec<Order>,
        order_items: Vec<OrderItem>,
        stock_movements: Vec<StockMovement>,
        users: Vec<User>,
    ) -> (r: Result<Store, AppError>)
        ensures
            ({
                let tables = StoreView {
                    products: products@,
                    customers: customers@,
                    orders: orders@,
                    order_items: order_items@,
                    stock_movements: stock_movements@,
                    users: users@,
                };
                match r {
                    Ok(s) => s@ == tables && s.wf(),
                    Err(e) => e@ == inconsistent_tables() && !valid_store(tables),
                }
            }),
    {
        if tables_fit(&products, &customers, &orders, &order_items, &stock_movements, &users) {
            Ok(Store { products, customers, orders, order_items, stock_movements, users })
        } else {
            Err(AppError::Database(String::from_str("Stored tables are inconsistent")))
        }
    }

    /// The catalogue, in ascending order of identifier.
    pub fn products(&self) -> (rows: &Vec<Product>)
        ensures
            rows@ == self@.products,
    {
        &self.products
    }

    /// The registry of customers, in ascending order of identifier.
    pub fn customers(&self) -> (rows: &Vec<Customer>)
        ensures
            rows@ == self@.customers,
    {
        &self.customers
    }

    /// The order headers, in ascending order of identifier.
    pub fn orders(&self) -> (rows: &Vec<Order>)
        ensures
            rows@ == self@.orders,
    {
        &self.orders
    }

    /// The order lines, in ascending order of identifier.
    pub fn order_items(&self) -> (rows: &Vec<OrderItem>)
        ensures
            rows@ == self@.order_items,
    {
        &self.order_items
    }

    /// The stock ledger, in ascending order of identifier.
    pub fn stock_movements(&self) -> (rows: &Vec<StockMovement>)
        ensures
            rows@ == self@.stock_movements,
    {
        &self.stock_movements
    }

    /// The accounts, in ascending order of identifier.
    pub fn users(&self) -> (rows: &Vec<User>)
        ensures
            rows@ == self@.users,
    {
        &self.users
    }
}

} // verus!
