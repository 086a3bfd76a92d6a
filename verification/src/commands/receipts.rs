//! The receipt of an order, open to whoever is logged in.

use vstd::prelude::*;
use crate::auth::AuthState;
use crate::db::orders;
use crate::db::orders::{lines_of, order_not_found, with_customer};
use crate::errors::{AppError, fails_with};
use crate::guards::{get_authenticated_user, guard_refusal};
use crate::models::OrderWithItems;
use crate::receipts::{receipt_text, render_receipt};
use crate::store::{Store, StoreView};
use crate::table::row_of;

verus! {

/// `r` is the receipt of the order with identifier `id`, or the failure
/// that there is no such order.
pub open spec fn prints_receipt(s: StoreView, id: i64, r: Result<String, AppError>) -> bool {
    match row_of(s.orders, id) {
        Some(row) => r matches Ok(page) && page@ == receipt_text(
            with_customer(row, s.customers),
            lines_of(s, id),
        ),
        None => fails_with(r, order_not_found(id)),
    }
}

/// The receipt of an order as a page of HTML.
pub fn generate_receipt(store: &Store, auth_state: &AuthState, order_id: i64) -> (r: Result<
    String,
    AppError,
>)
    requires
        store.wf(),
    ensures
        match guard_refusal(*auth_state, false) {
            Some(e) => fails_with(r, e),
            None => prints_receipt(store@, order_id, r),
        },
{
    match get_authenticated_user(auth_state) {
        Ok(_) => {},
        Err(e) => {
            return Err(e);
        },
    }
    let order: OrderWithItems = match orders::get_order_by_id(store, order_id) {
        Ok(order) => order,
        Err(e) => {
            return Err(e);
        },
    };
    Ok(render_receipt(&order))
}

} // verus!
