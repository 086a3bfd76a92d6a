//! The dashboard, open to whoever is logged in.

use vstd::prelude::*;
use crate::auth::AuthState;
use crate::errors::{AppError, fails_with};
use crate::guards::{get_authenticated_user, guard_refusal};
use crate::store::Store;
use crate::db::stock;
use crate::db::stock::shows_dashboard;
use crate::models::DashboardStats;
use crate::timestamp::Timestamp;

verus! {

/// The figures of the dashboard at the time `now`.
pub fn get_dashboard_stats(
    store: &Store,
    auth_state: &AuthState,
    now: Timestamp,
) -> (r: Result<DashboardStats, AppError>)
    requires
        store.wf(),
    ensures
        match guard_refusal(*auth_state, false) {
            Some(e) => fails_with(r, e),
            None => shows_dashboard(store@, now, r),
        },
{
    match get_authenticated_user(auth_state) {
        Ok(_) => {},
        Err(e) => {
            return Err(e);
        },
    }
    stock::get_dashboard_stats(store, now)
}

} // verus!
