//! Operations on the registry of customers, open to whoever is logged in;
//! removing a customer is for administrators.

use vstd::prelude::*;
use crate::auth::AuthState;
use crate::errors::{AppError, fails_with};
use crate::guards::{get_authenticated_user, guard_refusal, require_admin};
use crate::store::Store;
use crate::db::customers;
use crate::db::customers::{
    creates_customer, deletes_customer, finds_customer, lists_customers, searches_customers,
    updates_customer,
};
use crate::models::{CreateCustomerPayload, Customer, UpdateCustomerPayload};

verus! {

/// All customers, in ascending order of name.
pub fn get_customers(store: &Store, auth_state: &AuthState) -> (r: Result<Vec<Customer>, AppError>)
    requires
        store.wf(),
    ensures
        match guard_refusal(*auth_state, false) {
            Some(e) => fails_with(r, e),
            None => lists_customers(store@, r),
        },
{
    match get_authenticated_user(auth_state) {
        Ok(_) => {},
        Err(e) => {
            return Err(e);
        },
    }
    customers::get_all_customers(store)
}

/// The customer with the given identifier.
pub fn get_customer(
    store: &Store,
    auth_state: &AuthState,
    id: i64,
) -> (r: Result<Customer, AppError>)
    requires
        store.wf(),
    ensures
        match guard_refusal(*auth_state, false) {
            Some(e) => fails_with(r, e),
            None => finds_customer(store@, id, r),
        },
{
    match get_authenticated_user(auth_state) {
        Ok(_) => {},
        Err(e) => {
            return Err(e);
        },
    }
    customers::get_customer_by_id(store, id)
}

/// The customers whose phone number contains `phone`, in ascending order of name.
pub fn search_customers_by_phone(
    store: &Store,
    auth_state: &AuthState,
    phone: &str,
) -> (r: Result<Vec<Customer>, AppError>)
    requires
        store.wf(),
    ensures
        match guard_refusal(*auth_state, false) {
            Some(e) => fails_with(r, e),
            None => searches_customers(store@, phone@, r),
        },
{
    match get_authenticated_user(auth_state) {
        Ok(_) => {},
        Err(e) => {
            return Err(e);
        },
    }
    customers::search_customers_by_phone(store, phone)
}

/// Registers a customer and returns the identifier.
pub fn create_customer(
    store: &mut Store,
    auth_state: &AuthState,
    payload: CreateCustomerPayload,
) -> (r: Result<i64, AppError>)
    requires
        old(store).wf(),
    ensures
        final(store).wf(),
        match guard_refusal(*auth_state, false) {
            Some(e) => fails_with(r, e) && final(store)@ == old(store)@,
            None => creates_customer(old(store)@, payload, final(store)@, r),
        },
{
    match get_authenticated_user(auth_state) {
        Ok(_) => {},
        Err(e) => {
            return Err(e);
        },
    }
    customers::create_customer(store, payload)
}

/// Changes the fields of a customer that the payload holds.
pub fn update_customer(
    store: &mut Store,
    auth_state: &AuthState,
    id: i64,
    payload: UpdateCustomerPayload,
) -> (r: Result<(), AppError>)
    requires
        old(store).wf(),
    ensures
        final(store).wf(),
        match guard_refusal(*auth_state, false) {
            Some(e) => fails_with(r, e) && final(store)@ == old(store)@,
            None => updates_customer(old(store)@, id, payload, final(store)@, r),
        },
{
    match get_authenticated_user(auth_state) {
        Ok(_) => {},
        Err(e) => {
            return Err(e);
        },
    }
    customers::update_customer(store, id, payload)
}

/// Removes a customer from the registry. For administrators.
pub fn delete_customer(
    store: &mut Store,
    auth_state: &AuthState,
    id: i64,
) -> (r: Result<(), AppError>)
    requires
        old(store).wf(),
    ensures
        final(store).wf(),
        match guard_refusal(*auth_state, true) {
            Some(e) => fails_with(r, e) && final(store)@ == old(store)@,
            None => deletes_customer(old(store)@, id, final(store)@, r),
        },
{
    match require_admin(auth_state) {
        Ok(_) => {},
        Err(e) => {
            return Err(e);
        },
    }
    customers::delete_customer(store, id)
}

} // verus!
