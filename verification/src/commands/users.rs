//! Logging in and out, and the management of accounts.
//!
//! Logging in checks a password against the stored hash; the session then
//! holds the identity without the hash. Managing accounts is for
//! administrators.

use vstd::prelude::*;
use vstd::string::*;
use crate::auth::AuthState;
use crate::db::users;
use crate::db::users::{creates_user, deletes_user, lists_users, seeds_admin, updates_user};
use crate::errors::{AppError, ErrorView, fails_with};
use crate::guards::{guard_refusal, require_admin};
use crate::models::{CreateUserPayload, SafeUser, UpdateUserPayload, User, UserListItem};
use crate::password::{argon2_outcome, check_password};
use crate::store::{Store, StoreView, user_named};
use crate::timestamp::Timestamp;

verus! {

/// The identity of an account: the account without its credential.
pub open spec fn identity_of(user: User) -> SafeUser {
    SafeUser { id: user.id, username: user.username, role: user.role }
}

/// What an attempt to log in comes to, given the account that the
/// username names, if any, and what checking the password against its
/// hash found. An unknown username and a wrong password both come to
/// `InvalidCredentials`; a stored hash that cannot be read is reported as such.
pub open spec fn login_outcome(user: Option<User>, verdict: Result<bool, Seq<char>>) -> Result<
    SafeUser,
    ErrorView,
> {
    match user {
        None => Err(ErrorView::InvalidCredentials),
        Some(user) => match verdict {
            Err(message) => Err(ErrorView::PasswordHashing(message)),
            Ok(false) => Err(ErrorView::InvalidCredentials),
            Ok(true) => Ok(identity_of(user)),
        },
    }
}

/// The session after an attempt to log in, and what is returned: on
/// success the identity, which the session then holds; on failure the
/// session is as before.
pub open spec fn settles_login(
    outcome: Result<SafeUser, ErrorView>,
    before: AuthState,
    after: AuthState,
    r: Result<SafeUser, AppError>,
) -> bool {
    match outcome {
        Ok(identity) => r == Ok::<SafeUser, AppError>(identity) && after.user == Some(identity),
        Err(e) => fails_with(r, e) && after == before,
    }
}

/// What logging in does: the account is looked up by its username, the
/// password is checked against its hash, and the session is settled.
pub open spec fn logs_in(
    s: StoreView,
    before: AuthState,
    username: Seq<char>,
    password: Seq<char>,
    after: AuthState,
    r: Result<SafeUser, AppError>,
) -> bool {
    let user = user_named(s.users, username);
    settles_login(
        login_outcome(user, argon2_outcome(user->0.password_hash@, password)),
        before,
        after,
        r,
    )
}

/// The view of what checking a password found.
pub open spec fn verdict_view(verdict: Result<bool, String>) -> Result<bool, Seq<char>> {
    match verdict {
        Ok(b) => Ok(b),
        Err(message) => Err(message@),
    }
}

/// Settles an attempt to log in as `user`, given what checking the
/// password against the stored hash found.
pub fn conclude_login(auth_state: &mut AuthState, user: User, verdict: Result<bool, String>) -> (r:
    Result<SafeUser, AppError>)
    ensures
        settles_login(
            login_outcome(Some(user), verdict_view(verdict)),
            *old(auth_state),
            *final(auth_state),
            r,
        ),
{
    match verdict {
        Err(message) => Err(AppError::PasswordHashing(message)),
        Ok(false) => Err(AppError::InvalidCredentials),
        Ok(true) => {
            let identity = SafeUser { id: user.id, username: user.username, role: user.role };
            auth_state.user = Some(identity.clone());
            Ok(identity)
        },
    }
}

/// Logs in with a username and a password.
///
/// Fails with `InvalidCredentials` both when no account has the username
/// and when the password does not match. On success the session holds the
/// identity, which is also returned.
pub fn login(store: &Store, auth_state: &mut AuthState, username: &str, password: &str) -> (r:
    Result<SafeUser, AppError>)
    requires
        store.wf(),
    ensures
        logs_in(store@, *old(auth_state), username@, password@, *final(auth_state), r),
{
    let user: User = match users::get_user_by_username(store, username) {
        Ok(user) => user,
        Err(_) => {
            return Err(AppError::InvalidCredentials);
        },
    };
    let verdict: Result<bool, String> = check_password(user.password_hash.as_str(), password);
    conclude_login(auth_state, user, verdict)
}

/// Logs out: afterwards nobody is logged in.
pub fn logout(auth_state: &mut AuthState) -> (r: Result<(), AppError>)
    ensures
        r is Ok,
        final(auth_state).user is None,
{
    auth_state.user = None;
    Ok(())
}

/// The identity that is logged in, if any.
pub fn get_current_user(auth_state: &AuthState) -> (r: Result<Option<SafeUser>, AppError>)
    ensures
        r == Ok::<Option<SafeUser>, AppError>(auth_state.user),
{
    match &auth_state.user {
        Some(user) => Ok(Some(user.clone())),
        None => Ok(None),
    }
}

/// Makes sure that the administrator account exists. Needs no session:
/// it runs before anybody can log in.
pub fn seed_admin_user(store: &mut Store, password: &str, now: Timestamp) -> (r: Result<
    (),
    AppError,
>)
    requires
        old(store).wf(),
    ensures
        final(store).wf(),
        seeds_admin(old(store)@, password@, now, final(store)@, r),
{
    users::seed_admin_user(store, password, now)
}

/// All accounts without their credentials, the most recently created
/// first. For administrators.
pub fn get_users(store: &Store, auth_state: &AuthState) -> (r: Result<Vec<UserListItem>, AppError>)
    requires
        store.wf(),
    ensures
        match guard_refusal(*auth_state, true) {
            Some(e) => fails_with(r, e),
            None => lists_users(store@, r),
        },
{
    match require_admin(auth_state) {
        Ok(_) => {},
        Err(e) => {
            return Err(e);
        },
    }
    users::get_all_users(store)
}

/// Creates an account and returns its identifier. For administrators.
pub fn create_user(
    store: &mut Store,
    auth_state: &AuthState,
    payload: CreateUserPayload,
    now: Timestamp,
) -> (r: Result<i64, AppError>)
    requires
        old(store).wf(),
    ensures
        final(store).wf(),
        match guard_refusal(*auth_state, true) {
            Some(e) => fails_with(r, e) && final(store)@ == old(store)@,
            None => creates_user(old(store)@, payload, now, final(store)@, r),
        },
{
    match require_admin(auth_state) {
        Ok(_) => {},
        Err(e) => {
            return Err(e);
        },
    }
    users::create_user(store, payload, now)
}

/// Changes the fields of an account that the payload holds. For administrators.
pub fn update_user(
    store: &mut Store,
    auth_state: &AuthState,
    id: i64,
    payload: UpdateUserPayload,
    now: Timestamp,
) -> (r: Result<(), AppError>)
    requires
        old(store).wf(),
    ensures
        final(store).wf(),
        match guard_refusal(*auth_state, true) {
            Some(e) => fails_with(r, e) && final(store)@ == old(store)@,
            None => updates_user(old(store)@, id, payload, now, final(store)@, r),
        },
{
    match require_admin(auth_state) {
        Ok(_) => {},
        Err(e) => {
            return Err(e);
        },
    }
    users::update_user(store, id, payload, now)
}

/// Removes an account; the account named `admin` is never removed. For administrators.
pub fn delete_user(store: &mut Store, auth_state: &AuthState, id: i64) -> (r: Result<
    (),
    AppError,
>)
    requires
        old(store).wf(),
    ensures
        final(store).wf(),
        match guard_refusal(*auth_state, true) {
            Some(e) => fails_with(r, e) && final(store)@ == old(store)@,
            None => deletes_user(old(store)@, id, final(store)@, r),
        },
{
    match require_admin(auth_state) {
        Ok(_) => {},
        Err(e) => {
            return Err(e);
        },
    }
    users::delete_user(store, id)
}

} // verus!
