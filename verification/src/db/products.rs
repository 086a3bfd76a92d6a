//! The product catalogue.

use vstd::prelude::*;
use vstd::string::*;
use crate::errors::{AppError, ErrorView, fails_with};
use crate::models::{
    CreateProductPayload, Product, UpdateProductPayload, category_known, clone_text, is_category,
};
use crate::sorting::{RowOrder, arranged, sort};
use crate::store::{Store, StoreView, exhausted, identifiers_exhausted};
use crate::table::{
    find, fresh_id, has_id, index_of, lemma_push_keyed, lemma_remove_keyed, lemma_update_keyed,
    next_id, row_of,
};
use crate::text::{
    decimal_text, integer_to_string, lemma_bytes_total, lemma_bytes_transitive, text_in_order,
    text_precedes,
};

verus! {

/// Products in ascending order of name.
pub struct ByName;

impl RowOrder<Product> for ByName {
    open spec fn precedes(a: Product, b: Product) -> bool {
        text_precedes(a.name@, b.name@)
    }

    fn in_order(a: &Product, b: &Product) -> (r: bool) {
        text_in_order(a.name.as_str(), b.name.as_str())
    }

    proof fn lemma_total(a: Product, b: Product) {
        lemma_bytes_total(crate::text::utf8(a.name@), crate::text::utf8(b.name@));
    }

    proof fn lemma_transitive(a: Product, b: Product, c: Product) {
        lemma_bytes_transitive(
            crate::text::utf8(a.name@),
            crate::text::utf8(b.name@),
            crate::text::utf8(c.name@),
        );
    }
}

/// The failure for a product that does not exist.
pub open spec fn product_not_found(id: i64) -> ErrorView {
    ErrorView::NotFound("Product with id "@ + decimal_text(id as int) + " not found"@)
}

/// Why a new product is refused, if it is: the first of an empty name, an
/// unknown category and a negative price.
pub open spec fn create_product_refusal(payload: CreateProductPayload) -> Option<ErrorView> {
    if payload.name@.len() == 0 {
        Some(ErrorView::Validation("Product name cannot be empty"@))
    } else if !is_category(payload.category@) {
        Some(ErrorView::Validation("Invalid product type"@))
    } else if payload.price_refill < 0 || payload.price_full < 0 {
        Some(ErrorView::Validation("Prices cannot be negative"@))
    } else {
        None
    }
}

/// The catalogue entry that a payload describes, under a given identifier.
pub open spec fn new_product(id: i64, payload: CreateProductPayload) -> Product {
    Product {
        id,
        name: payload.name,
        description: payload.description,
        category: payload.category,
        price_refill: payload.price_refill,
        price_full: payload.price_full,
        stock_full: match payload.stock_full {
            Some(n) => n,
            None => 0,
        },
        stock_empty: match payload.stock_empty {
            Some(n) => n,
            None => 0,
        },
        expiry_month: payload.expiry_month,
        expiry_year: payload.expiry_year,
    }
}

/// Why a change of a product is refused, if it is: the first of an empty
/// name, an unknown category and a negative price among the fields present.
pub open spec fn update_product_refusal(payload: UpdateProductPayload) -> Option<ErrorView> {
    if payload.name is Some && payload.name->0@.len() == 0 {
        Some(ErrorView::Validation("Product name cannot be empty"@))
    } else if payload.category is Some && !is_category(payload.category->0@) {
        Some(ErrorView::Validation("Invalid product type"@))
    } else if payload.price_refill is Some && payload.price_refill->0 < 0 {
        Some(ErrorView::Validation("Price cannot be negative"@))
    } else if payload.price_full is Some && payload.price_full->0 < 0 {
        Some(ErrorView::Validation("Price cannot be negative"@))
    } else {
        None
    }
}

/// A product after a change: each field that the payload holds replaces
/// the field of the row, every other field stays.
pub open spec fn updated_product(row: Product, payload: UpdateProductPayload) -> Product {
    Product {
        id: row.id,
        name: match payload.name {
            Some(v) => v,
            None => row.name,
        },
        description: match payload.description {
            Some(v) => Some(v),
            None => row.description,
        },
        category: match payload.category {
            Some(v) => v,
            None => row.category,
        },
        price_refill: match payload.price_refill {
            Some(v) => v,
            None => row.price_refill,
        },
        price_full: match payload.price_full {
            Some(v) => v,
            None => row.price_full,
        },
        stock_full: match payload.stock_full {
            Some(v) => v,
            None => row.stock_full,
        },
        stock_empty: match payload.stock_empty {
            Some(v) => v,
            None => row.stock_empty,
        },
        expiry_month: match payload.expiry_month {
            Some(v) => Some(v),
            None => row.expiry_month,
        },
        expiry_year: match payload.expiry_year {
            Some(v) => Some(v),
            None => row.expiry_year,
        },
    }
}

/// The payload names no field at all.
pub open spec fn empty_product_update(payload: UpdateProductPayload) -> bool {
    &&& payload.name is None
    &&& payload.description is None
    &&& payload.category is None
    &&& payload.price_refill is None
    &&& payload.price_full is None
    &&& payload.stock_full is None
    &&& payload.stock_empty is None
    &&& payload.expiry_month is None
    &&& payload.expiry_year is None
}

/// The store with another catalogue.
pub open spec fn with_products(s: StoreView, products: Seq<Product>) -> StoreView {
    StoreView { products, ..s }
}

pub(crate) fn not_found(id: i64) -> (e: AppError)
    ensures
        e@ == product_not_found(id),
{
    AppError::NotFound(
        String::from_str("Product with id ").concat(integer_to_string(id as i128).as_str()).concat(
            " not found",
        ),
    )
}

/// `r` is the catalogue in ascending order of name.
pub open spec fn lists_products(s: StoreView, r: Result<Vec<Product>, AppError>) -> bool {
    r matches Ok(rows) && arranged::<Product, ByName>(s.products, rows@)
}

/// All products, in ascending order of name.
pub fn get_all_products(store: &Store) -> (r: Result<Vec<Product>, AppError>)
    ensures
        lists_products(store@, r),
{
    let rows: Vec<Product> = store.products.clone();
    assert(rows@ =~= store.products@);
    Ok(sort::<Product, ByName>(rows))
}

/// `r` is the product with identifier `id`, or the failure that there is none.
pub open spec fn finds_product(s: StoreView, id: i64, r: Result<Product, AppError>) -> bool {
    match row_of(s.products, id) {
        Some(row) => r == Ok::<Product, AppError>(row),
        None => fails_with(r, product_not_found(id)),
    }
}

/// The product with the given identifier.
pub fn get_product_by_id(store: &Store, id: i64) -> (r: Result<Product, AppError>)
    requires
        store.wf(),
    ensures
        finds_product(store@, id, r),
{
    match find(&store.products, id) {
        Some(i) => {
            proof {
                crate::table::lemma_found(store.products@, i as int);
            }
            Ok(store.products[i].clone())
        },
        None => Err(not_found(id)),
    }
}

/// What adding a product does: a refused payload, or a catalogue without a
/// free identifier, fails and changes nothing; else the product is appended
/// under the next identifier, which is returned.
pub open spec fn creates_product(
    before: StoreView,
    payload: CreateProductPayload,
    after: StoreView,
    r: Result<i64, AppError>,
) -> bool {
    match create_product_refusal(payload) {
        Some(e) => fails_with(r, e) && after == before,
        None => if next_id(before.products) > i64::MAX {
            fails_with(r, identifiers_exhausted()) && after == before
        } else {
            &&& r == Ok::<i64, AppError>(next_id(before.products) as i64)
            &&& after == with_products(
                before,
                before.products.push(
                    new_product(next_id(before.products) as i64, payload),
                ),
            )
        },
    }
}

/// Adds a product to the catalogue and returns its identifier.
///
/// The payload is refused when its name is empty, its category is unknown
/// or a price is negative. Absent stock counts start at zero.
pub fn create_product(store: &mut Store, payload: CreateProductPayload) -> (r: Result<
    i64,
    AppError,
>)
    requires
        old(store).wf(),
    ensures
        final(store).wf(),
        creates_product(old(store)@, payload, final(store)@, r),
{
    if payload.name.as_str().is_empty() {
        return Err(AppError::validation("Product name cannot be empty"));
    }
    if !category_known(&payload.category) {
        return Err(AppError::validation("Invalid product type"));
    }
    if payload.price_refill < 0 || payload.price_full < 0 {
        return Err(AppError::validation("Prices cannot be negative"));
    }
    let id: i64 = match fresh_id(&store.products) {
        Some(id) => id,
        None => {
            return Err(exhausted());
        },
    };
    let row = Product {
        id,
        name: payload.name,
        description: payload.description,
        category: payload.category,
        price_refill: payload.price_refill,
        price_full: payload.price_full,
        stock_full: match payload.stock_full {
            Some(n) => n,
            None => 0,
        },
        stock_empty: match payload.stock_empty {
            Some(n) => n,
            None => 0,
        },
        expiry_month: payload.expiry_month,
        expiry_year: payload.expiry_year,
    };
    proof {
        lemma_push_keyed(store.products@, row);
    }
    store.products.push(row);
    Ok(id)
}

/// What changing a product does: a missing product or a refused payload
/// fails and changes nothing; else the row is replaced by the changed one.
pub open spec fn updates_product(
    before: StoreView,
    id: i64,
    payload: UpdateProductPayload,
    after: StoreView,
    r: Result<(), AppError>,
) -> bool {
    match row_of(before.products, id) {
        None => fails_with(r, product_not_found(id)) && after == before,
        Some(row) => match update_product_refusal(payload) {
            Some(e) => fails_with(r, e) && after == before,
            None => r is Ok && after == with_products(
                before,
                before.products.update(
                    index_of(before.products, id),
                    updated_product(row, payload),
                ),
            ),
        },
    }
}

/// Changes the fields of a product that the payload holds.
///
/// Fails when the product does not exist, then when a field that is
/// present is an empty name, an unknown category or a negative price. A
/// payload without fields changes nothing.
pub fn update_product(store: &mut Store, id: i64, payload: UpdateProductPayload) -> (r: Result<
    (),
    AppError,
>)
    requires
        old(store).wf(),
    ensures
        final(store).wf(),
        updates_product(old(store)@, id, payload, final(store)@, r),
{
    let i: usize = match find(&store.products, id) {
        Some(i) => i,
        None => {
            return Err(not_found(id));
        },
    };
    proof {
        crate::table::lemma_found(store.products@, i as int);
    }
    if let Some(name) = &payload.name {
        if name.as_str().is_empty() {
            return Err(AppError::validation("Product name cannot be empty"));
        }
    }
    if let Some(category) = &payload.category {
        if !category_known(category) {
            return Err(AppError::validation("Invalid product type"));
        }
    }
    if let Some(price) = payload.price_refill {
        if price < 0 {
            return Err(AppError::validation("Price cannot be negative"));
        }
    }
    if let Some(price) = payload.price_full {
        if price < 0 {
            return Err(AppError::validation("Price cannot be negative"));
        }
    }
    let current: &Product = &store.products[i];
    let row = Product {
        id: current.id,
        name: match payload.name {
            Some(v) => v,
            None => current.name.clone(),
        },
        description: match payload.description {
            Some(v) => Some(v),
            None => clone_text(&current.description),
        },
        category: match payload.category {
            Some(v) => v,
            None => current.category.clone(),
        },
        price_refill: match payload.price_refill {
            Some(v) => v,
            None => current.price_refill,
        },
        price_full: match payload.price_full {
            Some(v) => v,
            None => current.price_full,
        },
        stock_full: match payload.stock_full {
            Some(v) => v,
            None => current.stock_full,
        },
        stock_empty: match payload.stock_empty {
            Some(v) => v,
            None => current.stock_empty,
        },
        expiry_month: match payload.expiry_month {
            Some(v) => Some(v),
            None => current.expiry_month,
        },
        expiry_year: match payload.expiry_year {
            Some(v) => Some(v),
            None => current.expiry_year,
        },
    };
    proof {
        lemma_update_keyed(store.products@, i as int, row);
    }
    store.products.set(i, row);
    Ok(())
}

/// What removing a product does: the row leaves the catalogue, or the
/// product is missing and nothing changes.
pub open spec fn deletes_product(
    before: StoreView,
    id: i64,
    after: StoreView,
    r: Result<(), AppError>,
) -> bool {
    if has_id(before.products, id) {
        r is Ok && after == with_products(
            before,
            before.products.remove(index_of(before.products, id)),
        )
    } else {
        fails_with(r, product_not_found(id)) && after == before
    }
}

/// Removes a product from the catalogue.
pub fn delete_product(store: &mut Store, id: i64) -> (r: Result<(), AppError>)
    requires
        old(store).wf(),
    ensures
        final(store).wf(),
        deletes_product(old(store)@, id, final(store)@, r),
{
    match find(&store.products, id) {
        Some(i) => {
            proof {
                lemma_remove_keyed(store.products@, i as int);
            }
            store.products.remove(i);
            Ok(())
        },
        None => Err(not_found(id)),
    }
}

} // verus!
