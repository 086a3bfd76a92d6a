//! Movements of stock and the ledger, open to whoever is logged in.

use vstd::prelude::*;
use crate::auth::AuthState;
use crate::errors::{AppError, fails_with};
use crate::guards::{get_authenticated_user, guard_refusal};
use crate::store::Store;
use crate::db::stock;
use crate::db::stock::{lists_movements, moves_stock};
use crate::models::{MovementType, StockMovementWithProduct};
use crate::timestamp::Timestamp;

verus! {

/// Receives `quantity` full units of a product into stock.
pub fn stock_in(
    store: &mut Store,
    auth_state: &AuthState,
    product_id: i64,
    quantity: i64,
    now: Timestamp,
) -> (r: Result<(), AppError>)
    requires
        old(store).wf(),
    ensures
        final(store).wf(),
        match guard_refusal(*auth_state, false) {
            Some(e) => fails_with(r, e) && final(store)@ == old(store)@,
            None => moves_stock(
                old(store)@,
                MovementType::In,
                product_id,
                quantity,
                now,
                final(store)@,
                r,
            ),
        },
{
    match get_authenticated_user(auth_state) {
        Ok(_) => {},
        Err(e) => {
            return Err(e);
        },
    }
    stock::stock_in(store, product_id, quantity, now)
}

/// Gives `quantity` full units of a product out of stock.
pub fn stock_out(
    store: &mut Store,
    auth_state: &AuthState,
    product_id: i64,
    quantity: i64,
    now: Timestamp,
) -> (r: Result<(), AppError>)
    requires
        old(store).wf(),
    ensures
        final(store).wf(),
        match guard_refusal(*auth_state, false) {
            Some(e) => fails_with(r, e) && final(store)@ == old(store)@,
            None => moves_stock(
                old(store)@,
                MovementType::Out,
                product_id,
                quantity,
                now,
                final(store)@,
                r,
            ),
        },
{
    match get_authenticated_user(auth_state) {
        Ok(_) => {},
        Err(e) => {
            return Err(e);
        },
    }
    stock::stock_out(store, product_id, quantity, now)
}

/// Corrects the full stock of a product by a signed quantity.
pub fn stock_adjust(
    store: &mut Store,
    auth_state: &AuthState,
    product_id: i64,
    quantity: i64,
    now: Timestamp,
) -> (r: Result<(), AppError>)
    requires
        old(store).wf(),
    ensures
        final(store).wf(),
        match guard_refusal(*auth_state, false) {
            Some(e) => fails_with(r, e) && final(store)@ == old(store)@,
            None => moves_stock(
                old(store)@,
                MovementType::Adjust,
                product_id,
                quantity,
                now,
                final(store)@,
                r,
            ),
        },
{
    match get_authenticated_user(auth_state) {
        Ok(_) => {},
        Err(e) => {
            return Err(e);
        },
    }
    stock::stock_adjust(store, product_id, quantity, now)
}

/// The ledger with the names of the products, the most recent entry first.
pub fn get_stock_movements(
    store: &Store,
    auth_state: &AuthState,
) -> (r: Result<Vec<StockMovementWithProduct>, AppError>)
    requires
        store.wf(),
    ensures
        match guard_refusal(*auth_state, false) {
            Some(e) => fails_with(r, e),
            None => lists_movements(store@, r),
        },
{
    match get_authenticated_user(auth_state) {
        Ok(_) => {},
        Err(e) => {
            return Err(e);
        },
    }
    stock::get_all_movements(store)
}

} // verus!
