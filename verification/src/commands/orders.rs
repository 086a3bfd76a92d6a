//! Operations on the order book. Placing and reading orders is open to
//! whoever is logged in; changing and removing an order is for administrators.

use vstd::prelude::*;
use crate::auth::AuthState;
use crate::errors::{AppError, fails_with};
use crate::guards::{get_authenticated_user, guard_refusal, require_admin};
use crate::store::Store;
use crate::db::orders;
use crate::db::orders::{
    deletes_order, finds_order, lists_orders, lists_orders_of, places_order, updates_order,
};
use crate::models::{CreateOrderPayload, OrderWithCustomer, OrderWithItems, UpdateOrderPayload};
use crate::timestamp::Timestamp;

verus! {

/// Places an order at the time `now` and returns its identifier.
pub fn create_order(
    store: &mut Store,
    auth_state: &AuthState,
    payload: CreateOrderPayload,
    now: Timestamp,
) -> (r: Result<i64, AppError>)
    requires
        old(store).wf(),
    ensures
        final(store).wf(),
        match guard_refusal(*auth_state, false) {
            Some(e) => fails_with(r, e) && final(store)@ == old(store)@,
            None => places_order(old(store)@, payload, now, final(store)@, r),
        },
{
    match get_authenticated_user(auth_state) {
        Ok(_) => {},
        Err(e) => {
            return Err(e);
        },
    }
    orders::create_order(store, payload, now)
}

/// All orders with the names of their customers, the most recent first.
pub fn get_orders(
    store: &Store,
    auth_state: &AuthState,
) -> (r: Result<Vec<OrderWithCustomer>, AppError>)
    requires
        store.wf(),
    ensures
        match guard_refusal(*auth_state, false) {
            Some(e) => fails_with(r, e),
            None => lists_orders(store@, r),
        },
{
    match get_authenticated_user(auth_state) {
        Ok(_) => {},
        Err(e) => {
            return Err(e);
        },
    }
    orders::get_all_orders(store)
}

/// The order with the given identifier, with its lines.
pub fn get_order(
    store: &Store,
    auth_state: &AuthState,
    id: i64,
) -> (r: Result<OrderWithItems, AppError>)
    requires
        store.wf(),
    ensures
        match guard_refusal(*auth_state, false) {
            Some(e) => fails_with(r, e),
            None => finds_order(store@, id, r),
        },
{
    match get_authenticated_user(auth_state) {
        Ok(_) => {},
        Err(e) => {
            return Err(e);
        },
    }
    orders::get_order_by_id(store, id)
}

/// The orders of one customer, the most recent first.
pub fn get_orders_by_customer(
    store: &Store,
    auth_state: &AuthState,
    customer_id: i64,
) -> (r: Result<Vec<OrderWithCustomer>, AppError>)
    requires
        store.wf(),
    ensures
        match guard_refusal(*auth_state, false) {
            Some(e) => fails_with(r, e),
            None => lists_orders_of(store@, customer_id, r),
        },
{
    match get_authenticated_user(auth_state) {
        Ok(_) => {},
        Err(e) => {
            return Err(e);
        },
    }
    orders::get_orders_by_customer(store, customer_id)
}

/// Changes the timestamp of an order. For administrators.
pub fn update_order(
    store: &mut Store,
    auth_state: &AuthState,
    id: i64,
    payload: UpdateOrderPayload,
) -> (r: Result<(), AppError>)
    requires
        old(store).wf(),
    ensures
        final(store).wf(),
        match guard_refusal(*auth_state, true) {
            Some(e) => fails_with(r, e) && final(store)@ == old(store)@,
            None => updates_order(old(store)@, id, payload, final(store)@, r),
        },
{
    match require_admin(auth_state) {
        Ok(_) => {},
        Err(e) => {
            return Err(e);
        },
    }
    orders::update_order(store, id, payload)
}

/// Removes an order together with its lines. For administrators.
pub fn delete_order(store: &mut Store, auth_state: &AuthState, id: i64) -> (r: Result<(), AppError>)
    requires
        old(store).wf(),
    ensures
        final(store).wf(),
        match guard_refusal(*auth_state, true) {
            Some(e) => fails_with(r, e) && final(store)@ == old(store)@,
            None => deletes_order(old(store)@, id, final(store)@, r),
        },
{
    match require_admin(auth_state) {
        Ok(_) => {},
        Err(e) => {
            return Err(e);
        },
    }
    orders::delete_order(store, id)
}

} // verus!
