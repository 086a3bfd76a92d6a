//! What holds of the operations taken together.
//!
//! Each statement is about the results that the operations' contracts
//! allow, so it holds of every run of the library.

use vstd::prelude::*;
use crate::auth::AuthState;
use crate::commands::users::{identity_of, logs_in};
use crate::db::customers::{
    creates_customer, empty_customer_update, finds_customer, new_customer, updates_customer,
};
use crate::db::orders::{
    after_line, after_lines, lemma_refusal_persists, line_refusal, order_refusal, order_total,
    placed, places_order, served, updates_order,
};
use crate::db::products::{
    creates_product, deletes_product, empty_product_update, finds_product, new_product,
    updated_product, updates_product,
};
use crate::db::stock::{moves_stock, stock_change};
use crate::db::users::{creates_user, deletes_user, finds_user, seeds_admin, updates_user};
use crate::errors::{AppError, ErrorView, fails_with};
use crate::guards::guard_refusal;
use crate::models::{
    CreateCustomerPayload, CreateOrderPayload, CreateProductPayload, CreateUserPayload, Customer,
    MovementType, OrderItemPayload, Product, SafeUser, UpdateCustomerPayload, UpdateOrderPayload,
    UpdateProductPayload, UpdateUserPayload, User, is_category, valid_product,
};
use crate::password::argon2_outcome;
use crate::store::{
    StoreView, lemma_user_named, lines_total, user_named, username_taken, valid_store,
};
use crate::table::{
    has_id, index_of, keyed, lemma_index_unique, lemma_push_keyed, lemma_remove_keyed,
    lemma_update_keyed, next_id, row_of,
};
use crate::timestamp::Timestamp;

verus! {

/// A product with an empty name, a negative price or an unknown category
/// is never added: the attempt fails with a validation error and the
/// store stays as it was.
pub proof fn lemma_invalid_product_is_rejected(
    before: StoreView,
    payload: CreateProductPayload,
    after: StoreView,
    r: Result<i64, AppError>,
)
    requires
        creates_product(before, payload, after, r),
        payload.name@.len() == 0 || payload.price_refill < 0 || payload.price_full < 0
            || !is_category(payload.category@),
    ensures
        r is Err,
        r->Err_0@ is Validation,
        after == before,
{
}

/// A product is added exactly when its payload is valid and an
/// identifier is free, and then it satisfies the conditions of the catalogue.
pub proof fn lemma_valid_product_is_added(
    before: StoreView,
    payload: CreateProductPayload,
    after: StoreView,
    r: Result<i64, AppError>,
)
    requires
        creates_product(before, payload, after, r),
        payload.name@.len() > 0,
        payload.price_refill >= 0,
        payload.price_full >= 0,
        is_category(payload.category@),
        next_id(before.products) <= i64::MAX,
    ensures
        r is Ok,
        after.products == before.products.push(new_product(r->Ok_0, payload)),
        valid_product(new_product(r->Ok_0, payload)),
{
}

/// A change of a product that names no field succeeds and leaves the
/// store as it was, provided that the product exists.
pub proof fn lemma_empty_product_update_is_noop(
    before: StoreView,
    id: i64,
    payload: UpdateProductPayload,
    after: StoreView,
    r: Result<(), AppError>,
)
    requires
        valid_store(before),
        has_id(before.products, id),
        empty_product_update(payload),
        updates_product(before, id, payload, after, r),
    ensures
        r is Ok,
        after == before,
{
    let i = index_of(before.products, id);
    let row = before.products[i];
    assert(updated_product(row, payload) == row);
    assert(before.products.update(i, row) =~= before.products);
}

/// A change of a customer that names no field succeeds and leaves the
/// store as it was, provided that the customer exists.
pub proof fn lemma_empty_customer_update_is_noop(
    before: StoreView,
    id: i64,
    payload: UpdateCustomerPayload,
    after: StoreView,
    r: Result<(), AppError>,
)
    requires
        valid_store(before),
        has_id(before.customers, id),
        empty_customer_update(payload),
        updates_customer(before, id, payload, after, r),
    ensures
        r is Ok,
        after == before,
{
    let i = index_of(before.customers, id);
    let row = before.customers[i];
    assert(crate::db::customers::updated_customer(row, payload) == row);
    assert(before.customers.update(i, row) =~= before.customers);
}

/// A change of an account that names no field succeeds and leaves the
/// store as it was, provided that the account exists.
pub proof fn lemma_empty_user_update_is_noop(
    before: StoreView,
    id: i64,
    payload: UpdateUserPayload,
    now: Timestamp,
    after: StoreView,
    r: Result<(), AppError>,
)
    requires
        valid_store(before),
        has_id(before.users, id),
        payload.username is None && payload.password is None && payload.role is None,
        updates_user(before, id, payload, now, after, r),
    ensures
        r is Ok,
        after == before,
{
}

/// A product that has been added is found under the identifier that was
/// returned, and every field that the payload holds is the field of the
/// record found; absent stock counts read zero.
pub proof fn lemma_created_product_is_found(
    before: StoreView,
    payload: CreateProductPayload,
    after: StoreView,
    created: Result<i64, AppError>,
    found: Result<Product, AppError>,
)
    requires
        valid_store(before),
        creates_product(before, payload, after, created),
        created is Ok,
        finds_product(after, created->Ok_0, found),
    ensures
        found == Ok::<Product, AppError>(new_product(created->Ok_0, payload)),
        found->Ok_0.name == payload.name,
        found->Ok_0.description == payload.description,
        found->Ok_0.category == payload.category,
        found->Ok_0.price_refill == payload.price_refill,
        found->Ok_0.price_full == payload.price_full,
        payload.stock_full is Some ==> found->Ok_0.stock_full == payload.stock_full->0,
        payload.stock_empty is Some ==> found->Ok_0.stock_empty == payload.stock_empty->0,
        found->Ok_0.expiry_month == payload.expiry_month,
        found->Ok_0.expiry_year == payload.expiry_year,
{
    lemma_push_keyed(before.products, new_product(created->Ok_0, payload));
}

/// A customer that has been registered is found under the identifier that
/// was returned, with the fields of the payload.
pub proof fn lemma_created_customer_is_found(
    before: StoreView,
    payload: CreateCustomerPayload,
    after: StoreView,
    created: Result<i64, AppError>,
    found: Result<Customer, AppError>,
)
    requires
        valid_store(before),
        creates_customer(before, payload, after, created),
        created is Ok,
        finds_customer(after, created->Ok_0, found),
    ensures
        found == Ok::<Customer, AppError>(new_customer(created->Ok_0, payload)),
        found->Ok_0.name == payload.name,
        found->Ok_0.phone == payload.phone,
        found->Ok_0.address == payload.address,
        found->Ok_0.notes == payload.notes,
{
    lemma_push_keyed(before.customers, new_customer(created->Ok_0, payload));
}

/// An account that has been created is found under the identifier that
/// was returned, with the username and the role of the payload and a hash
/// that matches its password.
pub proof fn lemma_created_user_is_found(
    before: StoreView,
    payload: CreateUserPayload,
    now: Timestamp,
    after: StoreView,
    created: Result<i64, AppError>,
    found: Result<User, AppError>,
)
    requires
        valid_store(before),
        creates_user(before, payload, now, after, created),
        created is Ok,
        finds_user(after, created->Ok_0, found),
    ensures
        found is Ok,
        found->Ok_0.id == created->Ok_0,
        found->Ok_0.username == payload.username,
        found->Ok_0.role == payload.role,
        argon2_outcome(found->Ok_0.password_hash@, payload.password@) == Ok::<bool, Seq<char>>(
            true,
        ),
{
    lemma_push_keyed(before.users, after.users.last());
}

/// A product that has been removed is not found any more, and every
/// other product is found as before.
pub proof fn lemma_deleted_product_is_gone(
    before: StoreView,
    id: i64,
    after: StoreView,
    deleted: Result<(), AppError>,
    other: i64,
)
    requires
        valid_store(before),
        deletes_product(before, id, after, deleted),
        deleted is Ok,
        other != id,
    ensures
        row_of(after.products, id) is None,
        row_of(after.products, other) == row_of(before.products, other),
{
    lemma_remove_keyed(before.products, index_of(before.products, id));
    lemma_index_unique(before.products, index_of(before.products, id));
}

/// A change of a product touches that product alone: every other product
/// is found as before.
pub proof fn lemma_update_touches_one_product(
    before: StoreView,
    id: i64,
    payload: UpdateProductPayload,
    after: StoreView,
    r: Result<(), AppError>,
    other: i64,
)
    requires
        valid_store(before),
        updates_product(before, id, payload, after, r),
        other != id,
    ensures
        row_of(after.products, other) == row_of(before.products, other),
        after.products.len() == before.products.len(),
        r is Ok ==> row_of(after.products, id) == Some(
            updated_product(row_of(before.products, id)->0, payload),
        ),
{
    if r is Ok {
        let i = index_of(before.products, id);
        assert(has_id(before.products, id));
        lemma_update_keyed(before.products, i, updated_product(before.products[i], payload));
    }
}

/// An order whose timestamp is changed without a timestamp stays as it
/// was, provided that it exists.
pub proof fn lemma_empty_order_update_is_noop(
    before: StoreView,
    id: i64,
    payload: UpdateOrderPayload,
    after: StoreView,
    r: Result<(), AppError>,
)
    requires
        has_id(before.orders, id),
        payload.created_at is None,
        updates_order(before, id, payload, after, r),
    ensures
        r is Ok,
        after == before,
{
}

/// Placing an order is all or nothing: when it fails the store is as it
/// was, whatever the other lines of the order are.
pub proof fn lemma_failed_order_changes_nothing(
    before: StoreView,
    payload: CreateOrderPayload,
    now: Timestamp,
    after: StoreView,
    r: Result<i64, AppError>,
)
    requires
        places_order(before, payload, now, after, r),
        r is Err,
    ensures
        after == before,
{
}

/// One line that cannot be served makes the whole order fail: if line `k`
/// names a missing product or asks for more than the stock that the
/// lines before it have left, the store stays as it was.
pub proof fn lemma_unservable_line_fails_order(
    before: StoreView,
    payload: CreateOrderPayload,
    now: Timestamp,
    after: StoreView,
    r: Result<i64, AppError>,
    k: int,
)
    requires
        places_order(before, payload, now, after, r),
        0 <= k < payload.items@.len(),
        after_lines(before.products, payload.items@.take(k)) is Ok,
        line_refusal(
            after_lines(before.products, payload.items@.take(k))->Ok_0,
            payload.items@[k],
        ) is Some,
    ensures
        r is Err,
        after == before,
        after.products == before.products,
        after.stock_movements == before.stock_movements,
{
    let lines = payload.items@;
    assert(lines.take(k + 1).drop_last() =~= lines.take(k));
    assert(lines.take(k + 1).last() == lines[k]);
    assert(after_lines(before.products, lines.take(k + 1)) is Err);
    lemma_refusal_persists(before.products, lines, k + 1);
}

/// An order whose first line asks for more full units than its product
/// has in stock fails and changes nothing.
pub proof fn lemma_insufficient_stock_fails_order(
    before: StoreView,
    payload: CreateOrderPayload,
    now: Timestamp,
    after: StoreView,
    r: Result<i64, AppError>,
)
    requires
        places_order(before, payload, now, after, r),
        payload.items@.len() > 0,
        row_of(before.products, payload.items@[0].product_id) is Some,
        row_of(before.products, payload.items@[0].product_id)->0.stock_full
            < payload.items@[0].quantity,
    ensures
        r is Err,
        after == before,
{
    assert(payload.items@.take(0) =~= Seq::empty());
    lemma_unservable_line_fails_order(before, payload, now, after, r, 0);
}

/// Serving a line takes its quantity from the full stock of its product;
/// where a bottle came back it adds the quantity to the empty stock, and
/// else leaves the empty stock alone. No other product changes.
pub proof fn lemma_line_moves_stock(products: Seq<Product>, line: OrderItemPayload)
    requires
        keyed(products),
        line_refusal(products, line) is None,
    ensures
        ({
            let p = row_of(products, line.product_id)->0;
            let q = row_of(after_line(products, line), line.product_id)->0;
            &&& row_of(after_line(products, line), line.product_id) is Some
            &&& q.stock_full == p.stock_full - line.quantity
            &&& line.returned_bottle ==> q.stock_empty == p.stock_empty + line.quantity
            &&& !line.returned_bottle ==> q.stock_empty == p.stock_empty
        }),
        forall|id: i64|
            id != line.product_id ==> row_of(after_line(products, line), id) == row_of(
                products,
                id,
            ),
{
    let i = index_of(products, line.product_id);
    assert(has_id(products, line.product_id));
    lemma_update_keyed(products, i, served(products[i], line));
}

/// An order of a single line that is not refused leaves its product with
/// the full stock less the quantity, and with the empty stock more by the
/// quantity exactly when a bottle came back; its total is the quantity
/// times the unit price; and it writes one line and one ledger entry.
pub proof fn lemma_single_line_order(
    before: StoreView,
    payload: CreateOrderPayload,
    now: Timestamp,
    after: StoreView,
    r: Result<i64, AppError>,
)
    requires
        valid_store(before),
        places_order(before, payload, now, after, r),
        payload.items@.len() == 1,
        r is Ok,
    ensures
        ({
            let line = payload.items@[0];
            let p = row_of(before.products, line.product_id)->0;
            let q = row_of(after.products, line.product_id)->0;
            &&& row_of(before.products, line.product_id) is Some
            &&& row_of(after.products, line.product_id) is Some
            &&& q.stock_full == p.stock_full - line.quantity
            &&& q.stock_empty == if line.returned_bottle {
                p.stock_empty + line.quantity
            } else {
                p.stock_empty as int
            }
            &&& after.orders.last().total == line.quantity * line.unit_price
            &&& after.orders.last().id == r->Ok_0
            &&& after.order_items.len() == before.order_items.len() + 1
            &&& after.stock_movements.len() == before.stock_movements.len() + 1
        }),
{
    let lines = payload.items@;
    let line = lines[0];
    assert(lines.drop_last() =~= Seq::empty());
    assert(lines.last() == line);
    assert(after_lines(before.products, lines.drop_last()) == Ok::<Seq<Product>, ErrorView>(
        before.products,
    ));
    assert(order_refusal(before, payload) is None);
    assert(after_lines(before.products, lines) is Ok);
    assert(line_refusal(before.products, line) is None);
    lemma_line_moves_stock(before.products, line);
    assert(order_total(lines.drop_last()) == 0);
    assert(order_total(lines) == line.quantity * line.unit_price);
}

/// A login with a username that no account has and a login with a wrong
/// password end alike: both fail with `InvalidCredentials`, and both
/// leave the session as it was.
pub proof fn lemma_failed_logins_are_alike(
    s: StoreView,
    session: AuthState,
    unknown: Seq<char>,
    known: Seq<char>,
    password: Seq<char>,
    wrong: Seq<char>,
    after_unknown: AuthState,
    after_wrong: AuthState,
    r_unknown: Result<SafeUser, AppError>,
    r_wrong: Result<SafeUser, AppError>,
)
    requires
        logs_in(s, session, unknown, password, after_unknown, r_unknown),
        logs_in(s, session, known, wrong, after_wrong, r_wrong),
        user_named(s.users, unknown) is None,
        user_named(s.users, known) is Some,
        argon2_outcome(user_named(s.users, known)->0.password_hash@, wrong) == Ok::<
            bool,
            Seq<char>,
        >(false),
    ensures
        fails_with(r_unknown, ErrorView::InvalidCredentials),
        fails_with(r_wrong, ErrorView::InvalidCredentials),
        r_unknown->Err_0@ == r_wrong->Err_0@,
        after_unknown == session,
        after_wrong == session,
{
}

/// A login succeeds exactly when the username names an account whose
/// stored hash matches the password; the session then holds the identity
/// of that account, without the hash.
pub proof fn lemma_login_succeeds_on_match(
    s: StoreView,
    session: AuthState,
    username: Seq<char>,
    password: Seq<char>,
    after: AuthState,
    r: Result<SafeUser, AppError>,
)
    requires
        logs_in(s, session, username, password, after, r),
    ensures
        r is Ok <==> (user_named(s.users, username) is Some && argon2_outcome(
            user_named(s.users, username)->0.password_hash@,
            password,
        ) == Ok::<bool, Seq<char>>(true)),
        r is Ok ==> after.user == Some(identity_of(user_named(s.users, username)->0)) && r->Ok_0
            == identity_of(user_named(s.users, username)->0),
{
}

/// Making sure of the administrator account twice, with whatever
/// passwords, leaves exactly one account named `admin`, and the second
/// time changes nothing: the account keeps the hash of the first time,
/// which matches the first password where the first time created it.
pub proof fn lemma_seeding_twice(
    start: StoreView,
    first_password: Seq<char>,
    first_time: Timestamp,
    middle: StoreView,
    first: Result<(), AppError>,
    second_password: Seq<char>,
    second_time: Timestamp,
    end: StoreView,
    second: Result<(), AppError>,
)
    requires
        valid_store(start),
        valid_store(middle),
        seeds_admin(start, first_password, first_time, middle, first),
        first is Ok,
        seeds_admin(middle, second_password, second_time, end, second),
    ensures
        end == middle,
        user_named(end.users, "admin"@) is Some,
        exists|i: int|
            0 <= i < end.users.len() && (#[trigger] end.users[i]).username@ == "admin"@ && forall|
                j: int,
            |
                0 <= j < end.users.len() && j != i ==> (#[trigger] end.users[j]).username@
                    != "admin"@,
        !username_taken(start.users, "admin"@) ==> argon2_outcome(
            user_named(end.users, "admin"@)->0.password_hash@,
            first_password,
        ) == Ok::<bool, Seq<char>>(true),
        username_taken(start.users, "admin"@) ==> user_named(end.users, "admin"@) == user_named(
            start.users,
            "admin"@,
        ),
{
    if !username_taken(start.users, "admin"@) {
        let last = middle.users.len() - 1;
        assert(middle.users[last] == middle.users.last());
        assert(middle.users[last].username@ == "admin"@);
        assert(username_taken(middle.users, "admin"@));
        lemma_user_named(middle.users, last);
    } else {
        assert(middle == start);
    }
    assert(username_taken(middle.users, "admin"@));
    assert(end == middle);
    let i = choose|i: int|
        0 <= i < end.users.len() && (#[trigger] end.users[i]).username@ == "admin"@;
    assert forall|j: int| 0 <= j < end.users.len() && j != i implies (
    #[trigger] end.users[j]).username@ != "admin"@ by {
        if j < i {
            assert(end.users[j].username@ != end.users[i].username@);
        } else {
            assert(end.users[i].username@ != end.users[j].username@);
        }
    }
}

/// The account named `admin` is never removed: the attempt fails and the
/// store stays as it was.
pub proof fn lemma_admin_is_never_deleted(
    before: StoreView,
    id: i64,
    after: StoreView,
    r: Result<(), AppError>,
)
    requires
        deletes_user(before, id, after, r),
        row_of(before.users, id) is Some,
        row_of(before.users, id)->0.username@ == "admin"@,
    ensures
        r is Err,
        after == before,
{
}

/// Whoever asks, administrator or not, logged in or not: the request to
/// remove the account named `admin` fails and the store stays as it was.
pub proof fn lemma_admin_is_never_deleted_by_anyone(
    session: AuthState,
    before: StoreView,
    id: i64,
    after: StoreView,
    r: Result<(), AppError>,
)
    requires
        match guard_refusal(session, true) {
            Some(e) => fails_with(r, e) && after == before,
            None => deletes_user(before, id, after, r),
        },
        row_of(before.users, id) is Some,
        row_of(before.users, id)->0.username@ == "admin"@,
    ensures
        r is Err,
        after == before,
{
}

/// Every movement of stock that succeeds changes the full stock of its
/// product by the quantity, with the sign of its kind, and appends exactly
/// one entry of that kind and quantity to the ledger; one that fails
/// changes neither.
pub proof fn lemma_movement_writes_one_entry(
    before: StoreView,
    kind: MovementType,
    product_id: i64,
    quantity: i64,
    now: Timestamp,
    after: StoreView,
    r: Result<(), AppError>,
)
    requires
        valid_store(before),
        moves_stock(before, kind, product_id, quantity, now, after, r),
    ensures
        r is Err ==> after == before,
        r is Ok ==> {
            &&& after.stock_movements.len() == before.stock_movements.len() + 1
            &&& after.stock_movements.last().movement_type == kind
            &&& after.stock_movements.last().quantity == quantity
            &&& after.stock_movements.last().product_id == product_id
            &&& after.stock_movements.drop_last() == before.stock_movements
            &&& row_of(after.products, product_id) is Some
            &&& row_of(after.products, product_id)->0.stock_full == row_of(
                before.products,
                product_id,
            )->0.stock_full + stock_change(kind, quantity)
        },
{
    if r is Ok {
        let i = index_of(before.products, product_id);
        assert(has_id(before.products, product_id));
        lemma_update_keyed(before.products, i, after.products[i]);
        assert(after.stock_movements.drop_last() =~= before.stock_movements);
    }
}

/// An order that is placed writes one line and one ledger entry of kind
/// `Out` for each of its lines, and its total is the sum of quantity
/// times unit price over the lines.
pub proof fn lemma_order_writes_lines_and_entries(
    before: StoreView,
    payload: CreateOrderPayload,
    now: Timestamp,
    after: StoreView,
    r: Result<i64, AppError>,
)
    requires
        places_order(before, payload, now, after, r),
        r is Ok,
    ensures
        after.orders.len() == before.orders.len() + 1,
        after.orders.last().total == order_total(payload.items@),
        after.orders.last().customer_id == payload.customer_id,
        after.order_items.len() == before.order_items.len() + payload.items@.len(),
        after.stock_movements.len() == before.stock_movements.len() + payload.items@.len(),
        forall|k: int|
            0 <= k < payload.items@.len() ==> {
                &&& (#[trigger] after.stock_movements[before.stock_movements.len()
                    + k]).movement_type == MovementType::Out
                &&& after.stock_movements[before.stock_movements.len() + k].quantity
                    == payload.items@[k].quantity
                &&& after.order_items[before.order_items.len() + k].order_id == r->Ok_0
            },
{
}

/// In every store the total of each order is the sum of quantity times
/// unit price over its lines, and every line belongs to an order.
pub proof fn lemma_totals_are_sums(s: StoreView, i: int)
    requires
        valid_store(s),
        0 <= i < s.orders.len(),
    ensures
        s.orders[i].total == lines_total(s.order_items, s.orders[i].id),
        forall|k: int|
            0 <= k < s.order_items.len() ==> has_id(
                s.orders,
                (#[trigger] s.order_items[k]).order_id,
            ),
{
}

/// The ledger only grows: placing an order and moving stock leave every
/// entry that was there in its place and append to the end.
pub proof fn lemma_ledger_only_grows(
    before: StoreView,
    after: StoreView,
    payload: CreateOrderPayload,
    placed_at: Timestamp,
    order: Result<i64, AppError>,
    kind: MovementType,
    product_id: i64,
    quantity: i64,
    moved_at: Timestamp,
    movement: Result<(), AppError>,
)
    requires
        places_order(before, payload, placed_at, after, order) || moves_stock(
            before,
            kind,
            product_id,
            quantity,
            moved_at,
            after,
            movement,
        ),
    ensures
        before.stock_movements.is_prefix_of(after.stock_movements),
{
    assert(before.stock_movements.len() <= after.stock_movements.len());
    assert(before.stock_movements =~= after.stock_movements.subrange(
        0,
        before.stock_movements.len() as int,
    ));
}

/// Nothing else writes to the ledger: adding, changing and removing
/// products, customers, accounts and orders leave it as it was.
pub proof fn lemma_ledger_is_left_alone(before: StoreView, after: StoreView)
    ensures
        forall|p: CreateProductPayload, r: Result<i64, AppError>|
            creates_product(before, p, after, r) ==> after.stock_movements
                == before.stock_movements,
        forall|id: i64, p: UpdateProductPayload, r: Result<(), AppError>|
            updates_product(before, id, p, after, r) ==> after.stock_movements
                == before.stock_movements,
        forall|id: i64, r: Result<(), AppError>|
            deletes_product(before, id, after, r) ==> after.stock_movements
                == before.stock_movements,
        forall|p: CreateCustomerPayload, r: Result<i64, AppError>|
            creates_customer(before, p, after, r) ==> after.stock_movements
                == before.stock_movements,
        forall|id: i64, p: UpdateCustomerPayload, r: Result<(), AppError>|
            updates_customer(before, id, p, after, r) ==> after.stock_movements
                == before.stock_movements,
        forall|id: i64, r: Result<(), AppError>|
            crate::db::customers::deletes_customer(before, id, after, r) ==> after.stock_movements
                == before.stock_movements,
        forall|id: i64, p: UpdateOrderPayload, r: Result<(), AppError>|
            updates_order(before, id, p, after, r) ==> after.stock_movements
                == before.stock_movements,
        forall|id: i64, r: Result<(), AppError>|
            crate::db::orders::deletes_order(before, id, after, r) ==> after.stock_movements
                == before.stock_movements,
        forall|p: CreateUserPayload, now: Timestamp, r: Result<i64, AppError>|
            creates_user(before, p, now, after, r) ==> after.stock_movements
                == before.stock_movements,
        forall|id: i64, p: UpdateUserPayload, now: Timestamp, r: Result<(), AppError>|
            updates_user(before, id, p, now, after, r) ==> after.stock_movements
                == before.stock_movements,
        forall|id: i64, r: Result<(), AppError>|
            deletes_user(before, id, after, r) ==> after.stock_movements
                == before.stock_movements,
{
}

} // verus!
