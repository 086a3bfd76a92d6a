//! Operations on the catalogue, open to whoever is logged in; removing a
//! product is for administrators.

use vstd::prelude::*;
use crate::auth::AuthState;
use crate::errors::{AppError, fails_with};
use crate::guards::{get_authenticated_user, guard_refusal, require_admin};
use crate::store::Store;
use crate::db::products;
use crate::db::products::{
    creates_product, deletes_product, finds_product, lists_products, updates_product,
};
use crate::models::{CreateProductPayload, Product, UpdateProductPayload};

verus! {

/// All products, in ascending order of name.
pub fn get_products(store: &Store, auth_state: &AuthState) -> (r: Result<Vec<Product>, AppError>)
    requires
        store.wf(),
    ensures
        match guard_refusal(*auth_state, false) {
            Some(e) => fails_with(r, e),
            None => lists_products(store@, r),
        },
{
    match get_authenticated_user(auth_state) {
        Ok(_) => {},
        Err(e) => {
            return Err(e);
        },
    }
    products::get_all_products(store)
}

/// The product with the given identifier.
pub fn get_product(store: &Store, auth_state: &AuthState, id: i64) -> (r: Result<Product, AppError>)
    requires
        store.wf(),
    ensures
        match guard_refusal(*auth_state, false) {
            Some(e) => fails_with(r, e),
            None => finds_product(store@, id, r),
        },
{
    match get_authenticated_user(auth_state) {
        Ok(_) => {},
        Err(e) => {
            return Err(e);
        },
    }
    products::get_product_by_id(store, id)
}

/// Adds a product to the catalogue and returns its identifier.
pub fn create_product(
    store: &mut Store,
    auth_state: &AuthState,
    payload: CreateProductPayload,
) -> (r: Result<i64, AppError>)
    requires
        old(store).wf(),
    ensures
        final(store).wf(),
        match guard_refusal(*auth_state, false) {
            Some(e) => fails_with(r, e) && final(store)@ == old(store)@,
            None => creates_product(old(store)@, payload, final(store)@, r),
        },
{
    match get_authenticated_user(auth_state) {
        Ok(_) => {},
        Err(e) => {
            return Err(e);
        },
    }
    products::create_product(store, payload)
}

/// Changes the fields of a product that the payload holds.
pub fn update_product(
    store: &mut Store,
    auth_state: &AuthState,
    id: i64,
    payload: UpdateProductPayload,
) -> (r: Result<(), AppError>)
    requires
        old(store).wf(),
    ensures
        final(store).wf(),
        match guard_refusal(*auth_state, false) {
            Some(e) => fails_with(r, e) && final(store)@ == old(store)@,
            None => updates_product(old(store)@, id, payload, final(store)@, r),
        },
{
    match get_authenticated_user(auth_state) {
        Ok(_) => {},
        Err(e) => {
            return Err(e);
        },
    }
    products::update_product(store, id, payload)
}

/// Removes a product from the catalogue. For administrators.
pub fn delete_product(
    store: &mut Store,
    auth_state: &AuthState,
    id: i64,
) -> (r: Result<(), AppError>)
    requires
        old(store).wf(),
    ensures
        final(store).wf(),
        match guard_refusal(*auth_state, true) {
            Some(e) => fails_with(r, e) && final(store)@ == old(store)@,
            None => deletes_product(old(store)@, id, final(store)@, r),
        },
{
    match require_admin(auth_state) {
        Ok(_) => {},
        Err(e) => {
            return Err(e);
        },
    }
    products::delete_product(store, id)
}

} // verus!
