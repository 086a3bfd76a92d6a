//! The customer registry.

use vstd::prelude::*;
use vstd::string::*;
use crate::errors::{AppError, ErrorView, fails_with};
use crate::models::{CreateCustomerPayload, Customer, UpdateCustomerPayload, clone_text};
use crate::sorting::{RowOrder, arranged, sort};
use crate::store::{Store, StoreView, exhausted, identifiers_exhausted};
use crate::table::{
    find, fresh_id, has_id, index_of, lemma_found, lemma_push_keyed, lemma_remove_keyed,
    lemma_update_keyed, next_id, row_of,
};
use crate::text::{
    decimal_text, integer_to_string, lemma_bytes_total, lemma_bytes_transitive, text_contains,
    text_has, text_in_order, text_precedes, utf8,
};

verus! {

/// Customers in ascending order of name.
pub struct ByName;

impl RowOrder<Customer> for ByName {
    open spec fn precedes(a: Customer, b: Customer) -> bool {
        text_precedes(a.name@, b.name@)
    }

    fn in_order(a: &Customer, b: &Customer) -> (r: bool) {
        text_in_order(a.name.as_str(), b.name.as_str())
    }

    proof fn lemma_total(a: Customer, b: Customer) {
        lemma_bytes_total(utf8(a.name@), utf8(b.name@));
    }

    proof fn lemma_transitive(a: Customer, b: Customer, c: Customer) {
        lemma_bytes_transitive(utf8(a.name@), utf8(b.name@), utf8(c.name@));
    }
}

/// The failure for a customer that does not exist.
pub open spec fn customer_not_found(id: i64) -> ErrorView {
    ErrorView::NotFound("Customer with id "@ + decimal_text(id as int) + " not found"@)
}

/// The failure for a customer without a name.
pub open spec fn customer_name_empty() -> ErrorView {
    ErrorView::Validation("Customer name cannot be empty"@)
}

/// The registry entry that a payload describes, under a given identifier.
pub open spec fn new_customer(id: i64, payload: CreateCustomerPayload) -> Customer {
    Customer {
        id,
        name: payload.name,
        phone: payload.phone,
        address: payload.address,
        notes: payload.notes,
    }
}

/// A customer after a change: each field that the payload holds replaces
/// the field of the row, every other field stays.
pub open spec fn updated_customer(row: Customer, payload: UpdateCustomerPayload) -> Customer {
    Customer {
        id: row.id,
        name: match payload.name {
            Some(v) => v,
            None => row.name,
        },
        phone: match payload.phone {
            Some(v) => Some(v),
            None => row.phone,
        },
        address: match payload.address {
            Some(v) => Some(v),
            None => row.address,
        },
        notes: match payload.notes {
            Some(v) => Some(v),
            None => row.notes,
        },
    }
}

/// The payload names no field at all.
pub open spec fn empty_customer_update(payload: UpdateCustomerPayload) -> bool {
    payload.name is None && payload.phone is None && payload.address is None && payload.notes
        is None
}

/// The customer has a phone number of which `part` is a substring.
pub open spec fn phone_contains(c: Customer, part: Seq<char>) -> bool {
    c.phone is Some && text_contains(c.phone->0@, part)
}

/// The store with another registry.
pub open spec fn with_customers(s: StoreView, customers: Seq<Customer>) -> StoreView {
    StoreView { customers, ..s }
}

pub(crate) fn not_found(id: i64) -> (e: AppError)
    ensures
        e@ == customer_not_found(id),
{
    AppError::NotFound(
        String::from_str("Customer with id ").concat(integer_to_string(id as i128).as_str()).concat(
            " not found",
        ),
    )
}

/// `r` is the registry in ascending order of name.
pub open spec fn lists_customers(s: StoreView, r: Result<Vec<Customer>, AppError>) -> bool {
    r matches Ok(rows) && arranged::<Customer, ByName>(s.customers, rows@)
}

/// All customers, in ascending order of name.
pub fn get_all_customers(store: &Store) -> (r: Result<Vec<Customer>, AppError>)
    ensures
        lists_customers(store@, r),
{
    let rows: Vec<Customer> = store.customers.clone();
    assert(rows@ =~= store.customers@);
    Ok(sort::<Customer, ByName>(rows))
}

/// `r` is the customer with identifier `id`, or the failure that there is none.
pub open spec fn finds_customer(s: StoreView, id: i64, r: Result<Customer, AppError>) -> bool {
    match row_of(s.customers, id) {
        Some(row) => r == Ok::<Customer, AppError>(row),
        None => fails_with(r, customer_not_found(id)),
    }
}

/// The customer with the given identifier.
pub fn get_customer_by_id(store: &Store, id: i64) -> (r: Result<Customer, AppError>)
    requires
        store.wf(),
    ensures
        finds_customer(store@, id, r),
{
    match find(&store.customers, id) {
        Some(i) => {
            proof {
                lemma_found(store.customers@, i as int);
            }
            Ok(store.customers[i].clone())
        },
        None => Err(not_found(id)),
    }
}

/// `r` holds the customers whose phone number contains `phone`, in
/// ascending order of name.
pub open spec fn searches_customers(
    s: StoreView,
    phone: Seq<char>,
    r: Result<Vec<Customer>, AppError>,
) -> bool {
    r matches Ok(rows) && arranged::<Customer, ByName>(
        s.customers.filter(|c: Customer| phone_contains(c, phone)),
        rows@,
    )
}

/// The customers whose phone number contains `phone`, in ascending order of name.
pub fn search_customers_by_phone(store: &Store, phone: &str) -> (r: Result<
    Vec<Customer>,
    AppError,
>)
    ensures
        searches_customers(store@, phone@, r),
{
    let ghost wanted = |c: Customer| phone_contains(c, phone@);
    let mut hits: Vec<Customer> = Vec::new();
    let mut i: usize = 0;
    proof {
        reveal(Seq::filter);
        assert(store.customers@.take(0).filter(wanted) =~= hits@);
    }
    while i < store.customers.len()
        invariant
            i <= store.customers.len(),
            wanted == (|c: Customer| phone_contains(c, phone@)),
            hits@ == store.customers@.take(i as int).filter(wanted),
        decreases store.customers.len() - i,
    {
        let c: &Customer = &store.customers[i];
        let hit: bool = match &c.phone {
            Some(number) => text_has(number.as_str(), phone),
            None => false,
        };
        proof {
            store.customers@.lemma_take_succ_push(i as int);
            store.customers@.take(i as int).lemma_filter_push(store.customers@[i as int], wanted);
        }
        if hit {
            hits.push(c.clone());
        }
        i = i + 1;
    }
    assert(store.customers@.take(i as int) =~= store.customers@);
    Ok(sort::<Customer, ByName>(hits))
}

/// What registering a customer does: an empty name, or a registry without a
/// free identifier, fails and changes nothing; else the customer is
/// appended under the next identifier, which is returned.
pub open spec fn creates_customer(
    before: StoreView,
    payload: CreateCustomerPayload,
    after: StoreView,
    r: Result<i64, AppError>,
) -> bool {
    if payload.name@.len() == 0 {
        fails_with(r, customer_name_empty()) && after == before
    } else if next_id(before.customers) > i64::MAX {
        fails_with(r, identifiers_exhausted()) && after == before
    } else {
        &&& r == Ok::<i64, AppError>(next_id(before.customers) as i64)
        &&& after == with_customers(
            before,
            before.customers.push(
                new_customer(next_id(before.customers) as i64, payload),
            ),
        )
    }
}

/// Registers a customer and returns the identifier. The name may not be empty.
pub fn create_customer(store: &mut Store, payload: CreateCustomerPayload) -> (r: Result<
    i64,
    AppError,
>)
    requires
        old(store).wf(),
    ensures
        final(store).wf(),
        creates_customer(old(store)@, payload, final(store)@, r),
{
    if payload.name.as_str().is_empty() {
        return Err(AppError::validation("Customer name cannot be empty"));
    }
    let id: i64 = match fresh_id(&store.customers) {
        Some(id) => id,
        None => {
            return Err(exhausted());
        },
    };
    let row = Customer {
        id,
        name: payload.name,
        phone: payload.phone,
        address: payload.address,
        notes: payload.notes,
    };
    proof {
        lemma_push_keyed(store.customers@, row);
    }
    store.customers.push(row);
    Ok(id)
}

/// What changing a customer does: a missing customer or an empty name
/// fails and changes nothing; else the row is replaced by the changed one.
pub open spec fn updates_customer(
    before: StoreView,
    id: i64,
    payload: UpdateCustomerPayload,
    after: StoreView,
    r: Result<(), AppError>,
) -> bool {
    match row_of(before.customers, id) {
        None => fails_with(r, customer_not_found(id)) && after == before,
        Some(row) => if payload.name is Some && payload.name->0@.len() == 0 {
            fails_with(r, customer_name_empty()) && after == before
        } else {
            r is Ok && after == with_customers(
                before,
                before.customers.update(
                    index_of(before.customers, id),
                    updated_customer(row, payload),
                ),
            )
        },
    }
}

/// Changes the fields of a customer that the payload holds.
///
/// Fails when the customer does not exist, then when the name is present
/// and empty. A payload without fields changes nothing.
pub fn update_customer(store: &mut Store, id: i64, payload: UpdateCustomerPayload) -> (r: Result<
    (),
    AppError,
>)
    requires
        old(store).wf(),
    ensures
        final(store).wf(),
        updates_customer(old(store)@, id, payload, final(store)@, r),
{
    let i: usize = match find(&store.customers, id) {
        Some(i) => i,
        None => {
            return Err(not_found(id));
        },
    };
    proof {
        lemma_found(store.customers@, i as int);
    }
    if let Some(name) = &payload.name {
        if name.as_str().is_empty() {
            return Err(AppError::validation("Customer name cannot be empty"));
        }
    }
    let current: &Customer = &store.customers[i];
    let row = Customer {
        id: current.id,
        name: match payload.name {
            Some(v) => v,
            None => current.name.clone(),
        },
        phone: match payload.phone {
            Some(v) => Some(v),
            None => clone_text(&current.phone),
        },
        address: match payload.address {
            Some(v) => Some(v),
            None => clone_text(&current.address),
        },
        notes: match payload.notes {
            Some(v) => Some(v),
            None => clone_text(&current.notes),
        },
    };
    proof {
        lemma_update_keyed(store.customers@, i as int, row);
    }
    store.customers.set(i, row);
    Ok(())
}

/// What removing a customer does: the row leaves the registry, or the
/// customer is missing and nothing changes.
pub open spec fn deletes_customer(
    before: StoreView,
    id: i64,
    after: StoreView,
    r: Result<(), AppError>,
) -> bool {
    if has_id(before.customers, id) {
        r is Ok && after == with_customers(
            before,
            before.customers.remove(index_of(before.customers, id)),
        )
    } else {
        fails_with(r, customer_not_found(id)) && after == before
    }
}

/// Removes a customer from the registry.
pub fn delete_customer(store: &mut Store, id: i64) -> (r: Result<(), AppError>)
    requires
        old(store).wf(),
    ensures
        final(store).wf(),
        deletes_customer(old(store)@, id, final(store)@, r),
{
    match find(&store.customers, id) {
        Some(i) => {
            proof {
                lemma_remove_keyed(store.customers@, i as int);
            }
            store.customers.remove(i);
            Ok(())
        },
        None => Err(not_found(id)),
    }
}

} // verus!
