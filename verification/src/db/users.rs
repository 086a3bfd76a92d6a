//! The accounts.
//!
//! Passwords are stored as Argon2 hash strings. Hashing draws a random
//! salt, so the functions that hash say what holds of every hash that may
//! come back, and the functions that take a hashing result as an argument
//! say exactly what is stored for each.

use vstd::prelude::*;
use vstd::string::*;
use crate::errors::{AppError, ErrorView, fails_with};
use crate::models::{
    CreateUserPayload, UpdateUserPayload, User, UserListItem, is_role, role_known, valid_user,
};
use crate::password::{argon2_outcome, hash_password};
use crate::sorting::{RowOrder, arranged, sort};
use crate::store::{
    Store, StoreView, exhausted, find_username, identifiers_exhausted, lemma_user_named,
    user_named, username_taken, usernames_distinct,
};
use crate::table::{
    find, fresh_id, index_of, lemma_found, lemma_push_keyed, lemma_remove_keyed,
    lemma_update_keyed, next_id, row_of,
};
use crate::text::{decimal_text, integer_to_string, text_is, utf8};
use crate::timestamp::Timestamp;

verus! {

/// Accounts in listings, the most recently created first.
pub struct NewestFirst;

impl RowOrder<UserListItem> for NewestFirst {
    open spec fn precedes(a: UserListItem, b: UserListItem) -> bool {
        b.created_at.not_after(a.created_at)
    }

    fn in_order(a: &UserListItem, b: &UserListItem) -> (r: bool) {
        b.created_at.seconds() <= a.created_at.seconds()
    }

    proof fn lemma_total(a: UserListItem, b: UserListItem) {
    }

    proof fn lemma_transitive(a: UserListItem, b: UserListItem, c: UserListItem) {
    }
}

/// The failure for an account that does not exist.
pub open spec fn user_not_found(id: i64) -> ErrorView {
    ErrorView::NotFound("User with id "@ + decimal_text(id as int) + " not found"@)
}

/// The failure for a username that no account has.
pub open spec fn username_not_found(username: Seq<char>) -> ErrorView {
    ErrorView::NotFound("User "@ + username + " not found"@)
}

/// The failure for an empty username.
pub open spec fn username_empty() -> ErrorView {
    ErrorView::Validation("Username cannot be empty"@)
}

/// The failure for an empty password.
pub open spec fn password_empty() -> ErrorView {
    ErrorView::Validation("Password cannot be empty"@)
}

/// The failure for a password of fewer than four bytes.
pub open spec fn password_short() -> ErrorView {
    ErrorView::Validation("Password must be at least 4 characters"@)
}

/// The failure for a role that is neither `admin` nor `operator`.
pub open spec fn role_invalid() -> ErrorView {
    ErrorView::Validation("Invalid role. Must be 'admin' or 'operator'"@)
}

/// The failure for a username that an account already has.
pub open spec fn username_exists() -> ErrorView {
    ErrorView::Validation("Username already exists"@)
}

/// The failure for an attempt to remove the account named `admin`.
pub open spec fn admin_undeletable() -> ErrorView {
    ErrorView::Validation("Cannot delete the default admin user"@)
}

/// Why a password is refused, if it is: it is empty, or shorter than four bytes.
pub open spec fn password_refusal(password: Seq<char>) -> Option<ErrorView> {
    if password.len() == 0 {
        Some(password_empty())
    } else if utf8(password).len() < 4 {
        Some(password_short())
    } else {
        None
    }
}

/// The account of a listing: an account without its credential and its time of change.
pub open spec fn list_item(u: User) -> UserListItem {
    UserListItem { id: u.id, username: u.username, role: u.role, created_at: u.created_at }
}

/// The store with other accounts.
pub open spec fn with_users(s: StoreView, users: Seq<User>) -> StoreView {
    StoreView { users, ..s }
}

/// Another account than `id` has the given username.
pub open spec fn username_taken_by_other(users: Seq<User>, username: Seq<char>, id: i64) -> bool {
    exists|i: int|
        0 <= i < users.len() && (#[trigger] users[i]).username@ == username && users[i].id != id
}

/// Why a new account is refused before its password is hashed, if it is:
/// the first of an empty username, an empty or short password, an unknown
/// role and a username in use.
pub open spec fn create_user_refusal(users: Seq<User>, payload: CreateUserPayload) -> Option<
    ErrorView,
> {
    if payload.username@.len() == 0 {
        Some(username_empty())
    } else if password_refusal(payload.password@) is Some {
        password_refusal(payload.password@)
    } else if !is_role(payload.role@) {
        Some(role_invalid())
    } else if username_taken(users, payload.username@) {
        Some(username_exists())
    } else {
        None
    }
}

/// Why an account with the given name and role cannot be recorded, if it cannot.
pub open spec fn record_refusal(users: Seq<User>, username: Seq<char>, role: Seq<char>) -> Option<
    ErrorView,
> {
    if username.len() == 0 {
        Some(username_empty())
    } else if !is_role(role) {
        Some(role_invalid())
    } else if username_taken(users, username) {
        Some(username_exists())
    } else {
        None
    }
}

/// The account recorded under `id` at the time `now`.
pub open spec fn new_user(
    id: i64,
    username: String,
    password_hash: String,
    role: String,
    now: Timestamp,
) -> User {
    User { id, username, password_hash, role, created_at: now, updated_at: now }
}

pub(crate) fn not_found(id: i64) -> (e: AppError)
    ensures
        e@ == user_not_found(id),
{
    AppError::NotFound(
        String::from_str("User with id ").concat(integer_to_string(id as i128).as_str()).concat(
            " not found",
        ),
    )
}

/// `r` is the account with the given username, or the failure that there is none.
pub open spec fn finds_username(s: StoreView, username: Seq<char>, r: Result<User, AppError>)
    -> bool {
    match user_named(s.users, username) {
        Some(user) => r == Ok::<User, AppError>(user),
        None => fails_with(r, username_not_found(username)),
    }
}

/// The account with the given username.
pub fn get_user_by_username(store: &Store, username: &str) -> (r: Result<User, AppError>)
    requires
        store.wf(),
    ensures
        finds_username(store@, username@, r),
{
    let wanted: String = String::from_str(username);
    match find_username(&store.users, &wanted) {
        Some(i) => {
            proof {
                lemma_user_named(store.users@, i as int);
            }
            Ok(store.users[i].clone())
        },
        None => Err(
            AppError::NotFound(String::from_str("User ").concat(username).concat(" not found")),
        ),
    }
}

/// `r` is the account with identifier `id`, or the failure that there is none.
pub open spec fn finds_user(s: StoreView, id: i64, r: Result<User, AppError>) -> bool {
    match row_of(s.users, id) {
        Some(row) => r == Ok::<User, AppError>(row),
        None => fails_with(r, user_not_found(id)),
    }
}

/// The account with the given identifier.
pub fn get_user_by_id(store: &Store, id: i64) -> (r: Result<User, AppError>)
    requires
        store.wf(),
    ensures
        finds_user(store@, id, r),
{
    match find(&store.users, id) {
        Some(i) => {
            proof {
                lemma_found(store.users@, i as int);
            }
            Ok(store.users[i].clone())
        },
        None => Err(not_found(id)),
    }
}

/// `r` holds every account without its credential, the most recently created first.
pub open spec fn lists_users(s: StoreView, r: Result<Vec<UserListItem>, AppError>) -> bool {
    r matches Ok(rows) && arranged::<UserListItem, NewestFirst>(
        s.users.map_values(|u: User| list_item(u)),
        rows@,
    )
}

/// All accounts without their credentials, the most recently created first.
pub fn get_all_users(store: &Store) -> (r: Result<Vec<UserListItem>, AppError>)
    ensures
        lists_users(store@, r),
{
    let mut items: Vec<UserListItem> = Vec::new();
    let mut i: usize = 0;
    while i < store.users.len()
        invariant
            i <= store.users.len(),
            items@.len() == i,
            forall|k: int| 0 <= k < i ==> items@[k] == list_item(store.users@[k]),
        decreases store.users.len() - i,
    {
        let u: &User = &store.users[i];
        items.push(
            UserListItem {
                id: u.id,
                username: u.username.clone(),
                role: u.role.clone(),
                created_at: u.created_at,
            },
        );
        i = i + 1;
    }
    assert(items@ =~= store@.users.map_values(|u: User| list_item(u)));
    Ok(sort::<UserListItem, NewestFirst>(items))
}

/// What recording an account does, given the result of hashing its
/// password: a refused name or role, a failed hashing, or a table without a
/// free identifier fails and changes nothing; else the account is appended
/// under the next identifier, which is returned.
pub open spec fn records_user(
    before: StoreView,
    username: String,
    role: String,
    hashed: Result<String, String>,
    now: Timestamp,
    after: StoreView,
    r: Result<i64, AppError>,
) -> bool {
    match record_refusal(before.users, username@, role@) {
        Some(e) => fails_with(r, e) && after == before,
        None => match hashed {
            Err(message) => {
                &&& fails_with(r, ErrorView::PasswordHashing(message@))
                &&& after == before
            },
            Ok(hash) => if next_id(before.users) > i64::MAX {
                fails_with(r, identifiers_exhausted()) && after == before
            } else {
                &&& r == Ok::<i64, AppError>(next_id(before.users) as i64)
                &&& after == with_users(
                    before,
                    before.users.push(
                        new_user(next_id(before.users) as i64, username, hash, role, now),
                    ),
                )
            },
        },
    }
}

/// Records an account whose password has been hashed, or reports why not.
///
/// The name and the role are checked first; then a failed hashing is
/// reported as it came; then the account is stored under the next identifier.
pub fn record_user(
    store: &mut Store,
    username: String,
    role: String,
    hashed: Result<String, String>,
    now: Timestamp,
) -> (r: Result<i64, AppError>)
    requires
        old(store).wf(),
    ensures
        final(store).wf(),
        records_user(old(store)@, username, role, hashed, now, final(store)@, r),
{
    if username.as_str().is_empty() {
        return Err(AppError::validation("Username cannot be empty"));
    }
    if !role_known(&role) {
        return Err(AppError::validation("Invalid role. Must be 'admin' or 'operator'"));
    }
    if find_username(&store.users, &username).is_some() {
        return Err(AppError::validation("Username already exists"));
    }
    let hash: String = match hashed {
        Ok(hash) => hash,
        Err(message) => {
            return Err(AppError::PasswordHashing(message));
        },
    };
    let id: i64 = match fresh_id(&store.users) {
        Some(id) => id,
        None => {
            return Err(exhausted());
        },
    };
    let row = User { id, username, password_hash: hash, role, created_at: now, updated_at: now };
    proof {
        lemma_push_keyed(store.users@, row);
        let after = store.users@.push(row);
        assert forall|a: int, b: int| 0 <= a < b < after.len() implies (
        #[trigger] after[a]).username@ != (#[trigger] after[b]).username@ by {
            if b == store.users@.len() {
                assert(after[a] == store.users@[a]);
            } else {
                assert(after[a] == store.users@[a] && after[b] == store.users@[b]);
            }
        }
    }
    store.users.push(row);
    Ok(id)
}

/// What creating an account does: a refused payload fails and changes
/// nothing; else either hashing fails or no identifier is free, and
/// nothing changes, or one account is appended whose hash matches the
/// password, and its identifier is returned.
pub open spec fn creates_user(
    before: StoreView,
    payload: CreateUserPayload,
    now: Timestamp,
    after: StoreView,
    r: Result<i64, AppError>,
) -> bool {
    match create_user_refusal(before.users, payload) {
        Some(e) => fails_with(r, e) && after == before,
        None => match r {
            Err(e) => after == before && (e@ is PasswordHashing || (e@
                == identifiers_exhausted() && next_id(before.users) > i64::MAX)),
            Ok(id) => {
                &&& id == next_id(before.users)
                &&& after.users.len() == before.users.len() + 1
                &&& after == with_users(
                    before,
                    before.users.push(after.users.last()),
                )
                &&& after.users.last() == new_user(
                    id,
                    payload.username,
                    after.users.last().password_hash,
                    payload.role,
                    now,
                )
                &&& argon2_outcome(
                    after.users.last().password_hash@,
                    payload.password@,
                ) == Ok::<bool, Seq<char>>(true)
            },
        },
    }
}

/// Creates an account and returns its identifier.
///
/// The payload is refused for an empty username, an empty password, a
/// password of fewer than four bytes, an unknown role or a username in
/// use, in that order. Then the password is hashed and the account stored.
pub fn create_user(store: &mut Store, payload: CreateUserPayload, now: Timestamp) -> (r: Result<
    i64,
    AppError,
>)
    requires
        old(store).wf(),
    ensures
        final(store).wf(),
        creates_user(old(store)@, payload, now, final(store)@, r),
{
    if payload.username.as_str().is_empty() {
        return Err(AppError::validation("Username cannot be empty"));
    }
    if payload.password.as_str().is_empty() {
        return Err(AppError::validation("Password cannot be empty"));
    }
    if payload.password.as_str().as_bytes().len() < 4 {
        return Err(AppError::validation("Password must be at least 4 characters"));
    }
    if !role_known(&payload.role) {
        return Err(AppError::validation("Invalid role. Must be 'admin' or 'operator'"));
    }
    if find_username(&store.users, &payload.username).is_some() {
        return Err(AppError::validation("Username already exists"));
    }
    let hashed: Result<String, String> = hash_password(payload.password.as_str());
    record_user(store, payload.username, payload.role, hashed, now)
}

/// Why a change of name or role is refused, if it is: the first of an
/// empty username, a username that another account has, and an unknown role.
pub open spec fn change_refusal(
    users: Seq<User>,
    id: i64,
    username: Option<String>,
    role: Option<String>,
) -> Option<ErrorView> {
    if username is Some && username->0@.len() == 0 {
        Some(username_empty())
    } else if username is Some && username_taken_by_other(users, username->0@, id) {
        Some(username_exists())
    } else if role is Some && !is_role(role->0@) {
        Some(role_invalid())
    } else {
        None
    }
}

/// Why a change of an account is refused before a new password is hashed,
/// if it is: the first of an empty username, a username that another
/// account has, an empty or short password, and an unknown role.
pub open spec fn update_user_refusal(users: Seq<User>, id: i64, payload: UpdateUserPayload)
    -> Option<ErrorView> {
    if payload.username is Some && payload.username->0@.len() == 0 {
        Some(username_empty())
    } else if payload.username is Some && username_taken_by_other(
        users,
        payload.username->0@,
        id,
    ) {
        Some(username_exists())
    } else if payload.password is Some && password_refusal(payload.password->0@) is Some {
        password_refusal(payload.password->0@)
    } else if payload.role is Some && !is_role(payload.role->0@) {
        Some(role_invalid())
    } else {
        None
    }
}

/// An account after a change made at the time `now`: each value that is
/// present replaces the field of the row, and the time of change is `now`.
pub open spec fn updated_user(
    row: User,
    username: Option<String>,
    password_hash: Option<String>,
    role: Option<String>,
    now: Timestamp,
) -> User {
    User {
        id: row.id,
        username: match username {
            Some(v) => v,
            None => row.username,
        },
        password_hash: match password_hash {
            Some(v) => v,
            None => row.password_hash,
        },
        role: match role {
            Some(v) => v,
            None => row.role,
        },
        created_at: row.created_at,
        updated_at: now,
    }
}

/// The hash that a hashing result carries, if it carries one.
pub open spec fn hash_of(hashed: Option<Result<String, String>>) -> Option<String> {
    match hashed {
        Some(Ok(hash)) => Some(hash),
        _ => None,
    }
}

/// Whether another account than `id` has the given username.
fn taken_by_other(users: &Vec<User>, username: &String, id: i64) -> (b: bool)
    requires
        usernames_distinct(users@),
    ensures
        b == username_taken_by_other(users@, username@, id),
{
    match find_username(users, username) {
        Some(i) => {
            proof {
                if users@[i as int].id == id && username_taken_by_other(users@, username@, id) {
                    let k = choose|k: int|
                        0 <= k < users@.len() && (#[trigger] users@[k]).username@ == username@
                            && users@[k].id != id;
                    if k < i {
                        assert(users@[k].username@ != users@[i as int].username@);
                    } else if i < k {
                        assert(users@[i as int].username@ != users@[k].username@);
                    }
                }
            }
            users[i].id != id
        },
        None => false,
    }
}

/// What a change of name, credential and role does, given the result of
/// hashing the new password where there is one.
pub open spec fn applies_user_update(
    before: StoreView,
    id: i64,
    username: Option<String>,
    hashed: Option<Result<String, String>>,
    role: Option<String>,
    now: Timestamp,
    after: StoreView,
    r: Result<(), AppError>,
) -> bool {
    match row_of(before.users, id) {
        None => fails_with(r, user_not_found(id)) && after == before,
        Some(row) => match change_refusal(before.users, id, username, role) {
            Some(e) => fails_with(r, e) && after == before,
            None => match hashed {
                Some(Err(message)) => {
                    &&& fails_with(r, ErrorView::PasswordHashing(message@))
                    &&& after == before
                },
                _ => if username is None && hashed is None && role is None {
                    r is Ok && after == before
                } else {
                    r is Ok && after == with_users(
                        before,
                        before.users.update(
                            index_of(before.users, id),
                            updated_user(row, username, hash_of(hashed), role, now),
                        ),
                    )
                },
            },
        },
    }
}

/// Applies a change of name, credential and role to an account, or reports why not.
///
/// `hashed` is the result of hashing the new password, where there is one.
/// The account must exist; the name and the role are checked; a failed
/// hashing is reported as it came. A change without any value changes nothing.
pub fn apply_user_update(
    store: &mut Store,
    id: i64,
    username: Option<String>,
    hashed: Option<Result<String, String>>,
    role: Option<String>,
    now: Timestamp,
) -> (r: Result<(), AppError>)
    requires
        old(store).wf(),
    ensures
        final(store).wf(),
        applies_user_update(old(store)@, id, username, hashed, role, now, final(store)@, r),
{
    let i: usize = match find(&store.users, id) {
        Some(i) => i,
        None => {
            return Err(not_found(id));
        },
    };
    proof {
        lemma_found(store.users@, i as int);
    }
    if let Some(name) = &username {
        if name.as_str().is_empty() {
            return Err(AppError::validation("Username cannot be empty"));
        }
        if taken_by_other(&store.users, name, id) {
            return Err(AppError::validation("Username already exists"));
        }
    }
    if let Some(role) = &role {
        if !role_known(role) {
            return Err(AppError::validation("Invalid role. Must be 'admin' or 'operator'"));
        }
    }
    let new_hash: Option<String> = match hashed {
        Some(Ok(hash)) => Some(hash),
        Some(Err(message)) => {
            return Err(AppError::PasswordHashing(message));
        },
        None => None,
    };
    if username.is_none() && new_hash.is_none() && role.is_none() {
        return Ok(());
    }
    let current: &User = &store.users[i];
    let row = User {
        id: current.id,
        username: match username {
            Some(v) => v,
            None => current.username.clone(),
        },
        password_hash: match new_hash {
            Some(v) => v,
            None => current.password_hash.clone(),
        },
        role: match role {
            Some(v) => v,
            None => current.role.clone(),
        },
        created_at: current.created_at,
        updated_at: now,
    };
    proof {
        let before = store.users@;
        lemma_update_keyed(before, i as int, row);
        let after = before.update(i as int, row);
        assert forall|a: int, b: int| 0 <= a < b < after.len() implies (
        #[trigger] after[a]).username@ != (#[trigger] after[b]).username@ by {
            assert(before[a].username@ != before[b].username@);
            if a == i {
                assert(before[b].id != id) by {
                    assert(before[a].id < before[b].id);
                }
                if username is Some {
                    assert(!username_taken_by_other(before, username->0@, id));
                }
            } else if b == i {
                assert(before[a].id != id) by {
                    assert(before[a].id < before[b].id);
                }
                if username is Some {
                    assert(!username_taken_by_other(before, username->0@, id));
                }
            }
        }
    }
    store.users.set(i, row);
    Ok(())
}

/// What changing an account does: a missing account or a refused payload
/// fails and changes nothing; without a new password the row is replaced
/// by the changed one; with a new password either hashing fails and
/// nothing changes, or the row is replaced by the changed one, whose hash
/// matches the new password.
pub open spec fn updates_user(
    before: StoreView,
    id: i64,
    payload: UpdateUserPayload,
    now: Timestamp,
    after: StoreView,
    r: Result<(), AppError>,
) -> bool {
    match row_of(before.users, id) {
        None => fails_with(r, user_not_found(id)) && after == before,
        Some(row) => match update_user_refusal(before.users, id, payload) {
            Some(e) => fails_with(r, e) && after == before,
            None => match payload.password {
                None => if payload.username is None && payload.role is None {
                    r is Ok && after == before
                } else {
                    r is Ok && after == with_users(
                        before,
                        before.users.update(
                            index_of(before.users, id),
                            updated_user(row, payload.username, None, payload.role, now),
                        ),
                    )
                },
                Some(password) => match r {
                    Err(e) => e@ is PasswordHashing && after == before,
                    Ok(_) => {
                        let stored = after.users[index_of(before.users, id)];
                        &&& after == with_users(
                            before,
                            before.users.update(
                                index_of(before.users, id),
                                stored,
                            ),
                        )
                        &&& stored == updated_user(
                            row,
                            payload.username,
                            Some(stored.password_hash),
                            payload.role,
                            now,
                        )
                        &&& argon2_outcome(stored.password_hash@, password@) == Ok::<
                            bool,
                            Seq<char>,
                        >(true)
                    },
                },
            },
        },
    }
}

/// Changes the fields of an account that the payload holds.
///
/// Fails when the account does not exist, then for an empty username, a
/// username that another account has, an empty password, a password of
/// fewer than four bytes or an unknown role, in that order. A new password
/// is hashed before it is stored. A payload without fields changes nothing.
pub fn update_user(store: &mut Store, id: i64, payload: UpdateUserPayload, now: Timestamp) -> (r:
    Result<(), AppError>)
    requires
        old(store).wf(),
    ensures
        final(store).wf(),
        updates_user(old(store)@, id, payload, now, final(store)@, r),
{
    let i: usize = match find(&store.users, id) {
        Some(i) => i,
        None => {
            return Err(not_found(id));
        },
    };
    proof {
        lemma_found(store.users@, i as int);
    }
    if let Some(name) = &payload.username {
        if name.as_str().is_empty() {
            return Err(AppError::validation("Username cannot be empty"));
        }
        if taken_by_other(&store.users, name, id) {
            return Err(AppError::validation("Username already exists"));
        }
    }
    if let Some(password) = &payload.password {
        if password.as_str().is_empty() {
            return Err(AppError::validation("Password cannot be empty"));
        }
        if password.as_str().as_bytes().len() < 4 {
            return Err(AppError::validation("Password must be at least 4 characters"));
        }
    }
    if let Some(role) = &payload.role {
        if !role_known(role) {
            return Err(AppError::validation("Invalid role. Must be 'admin' or 'operator'"));
        }
    }
    let hashed: Option<Result<String, String>> = match &payload.password {
        Some(password) => Some(hash_password(password.as_str())),
        None => None,
    };
    apply_user_update(store, id, payload.username, hashed, payload.role, now)
}

/// What removing an account does: a missing account, or the account named
/// `admin`, fails and changes nothing; else the row leaves the store.
pub open spec fn deletes_user(
    before: StoreView,
    id: i64,
    after: StoreView,
    r: Result<(), AppError>,
) -> bool {
    match row_of(before.users, id) {
        None => fails_with(r, user_not_found(id)) && after == before,
        Some(row) => if row.username@ == "admin"@ {
            fails_with(r, admin_undeletable()) && after == before
        } else {
            r is Ok && after == with_users(
                before,
                before.users.remove(index_of(before.users, id)),
            )
        },
    }
}

/// Removes an account. The account named `admin` is never removed.
pub fn delete_user(store: &mut Store, id: i64) -> (r: Result<(), AppError>)
    requires
        old(store).wf(),
    ensures
        final(store).wf(),
        deletes_user(old(store)@, id, final(store)@, r),
{
    let i: usize = match find(&store.users, id) {
        Some(i) => i,
        None => {
            return Err(not_found(id));
        },
    };
    proof {
        lemma_found(store.users@, i as int);
    }
    if text_is(&store.users[i].username, "admin") {
        return Err(AppError::validation("Cannot delete the default admin user"));
    }
    proof {
        let before = store.users@;
        lemma_remove_keyed(before, i as int);
        let after = before.remove(i as int);
        assert forall|a: int, b: int| 0 <= a < b < after.len() implies (
        #[trigger] after[a]).username@ != (#[trigger] after[b]).username@ by {
            let a0 = if a < i {
                a
            } else {
                a + 1
            };
            let b0 = if b < i {
                b
            } else {
                b + 1
            };
            assert(after[a] == before[a0] && after[b] == before[b0]);
            assert(before[a0].username@ != before[b0].username@);
        }
        assert forall|a: int| 0 <= a < after.len() implies valid_user(#[trigger] after[a]) by {
            let a0 = if a < i {
                a
            } else {
                a + 1
            };
            assert(after[a] == before[a0]);
        }
    }
    store.users.remove(i);
    Ok(())
}

/// `u` is the administrator account as it is first recorded: named
/// `admin`, with the role `admin` and the given hash.
pub open spec fn is_seeded_admin(u: User, id: i64, password_hash: String, now: Timestamp) -> bool {
    &&& u.id == id
    &&& u.username@ == "admin"@
    &&& u.password_hash == password_hash
    &&& u.role@ == "admin"@
    &&& u.created_at == now
    &&& u.updated_at == now
}

/// What recording the administrator account does to the accounts, given
/// the result of hashing its password: nothing when hashing failed or an
/// account named `admin` exists, else one more account.
pub open spec fn seed_effect(
    before: StoreView,
    hashed: Result<String, String>,
    now: Timestamp,
    after: StoreView,
    r: Result<(), AppError>,
) -> bool {
    match hashed {
        Err(message) => fails_with(r, ErrorView::PasswordHashing(message@)) && after == before,
        Ok(hash) => if username_taken(before.users, "admin"@) {
            r is Ok && after == before
        } else if next_id(before.users) > i64::MAX {
            fails_with(r, identifiers_exhausted()) && after == before
        } else {
            &&& r is Ok
            &&& after.users.len() == before.users.len() + 1
            &&& after == with_users(before, before.users.push(after.users.last()))
            &&& is_seeded_admin(after.users.last(), next_id(before.users) as i64, hash, now)
        },
    }
}

/// Records the administrator account unless an account named `admin` exists.
///
/// `hashed` is the result of hashing the password: a failure is reported
/// as it came, whether or not the account exists.
pub fn seed_admin(store: &mut Store, hashed: Result<String, String>, now: Timestamp) -> (r: Result<
    (),
    AppError,
>)
    requires
        old(store).wf(),
    ensures
        final(store).wf(),
        seed_effect(old(store)@, hashed, now, final(store)@, r),
{
    let hash: String = match hashed {
        Ok(hash) => hash,
        Err(message) => {
            return Err(AppError::PasswordHashing(message));
        },
    };
    let name: String = String::from_str("admin");
    if find_username(&store.users, &name).is_some() {
        return Ok(());
    }
    proof {
        reveal_strlit("admin");
    }
    match record_user(store, name, String::from_str("admin"), Ok(hash), now) {
        Ok(_) => Ok(()),
        Err(e) => Err(e),
    }
}

/// What making sure of the administrator account does. Where an account
/// named `admin` exists nothing changes, and only a failed hashing is
/// reported. Else either hashing fails or no identifier is free, and
/// nothing changes, or one account named `admin` with the role `admin` is
/// appended, whose hash matches the password.
pub open spec fn seeds_admin(
    before: StoreView,
    password: Seq<char>,
    now: Timestamp,
    after: StoreView,
    r: Result<(), AppError>,
) -> bool {
    if username_taken(before.users, "admin"@) {
        after == before && (r is Ok || r->Err_0@ is PasswordHashing)
    } else {
        match r {
            Err(e) => after == before && (e@ is PasswordHashing || (e@ == identifiers_exhausted()
                && next_id(before.users) > i64::MAX)),
            Ok(_) => {
                &&& after.users.len() == before.users.len() + 1
                &&& after == with_users(before, before.users.push(after.users.last()))
                &&& is_seeded_admin(
                    after.users.last(),
                    next_id(before.users) as i64,
                    after.users.last().password_hash,
                    now,
                )
                &&& argon2_outcome(after.users.last().password_hash@, password) == Ok::<
                    bool,
                    Seq<char>,
                >(true)
            },
        }
    }
}

/// Makes sure that the administrator account exists: hashes `password`
/// and records the account named `admin` with it, unless one exists.
pub fn seed_admin_user(store: &mut Store, password: &str, now: Timestamp) -> (r: Result<
    (),
    AppError,
>)
    requires
        old(store).wf(),
    ensures
        final(store).wf(),
        seeds_admin(old(store)@, password@, now, final(store)@, r),
{
    let hashed: Result<String, String> = hash_password(password);
    seed_admin(store, hashed, now)
}

} // verus!
