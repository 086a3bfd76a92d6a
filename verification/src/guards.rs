//! The two checks that stand before every operation on the data: that
//! somebody is logged in, and that it is an administrator.

use vstd::prelude::*;
use vstd::string::*;
use crate::auth::AuthState;
use crate::errors::{AppError, ErrorView, fails_with};
use crate::models::SafeUser;
use crate::text::text_is;

verus! {

/// The failure when nobody is logged in.
pub open spec fn not_authenticated() -> ErrorView {
    ErrorView::Auth("User not authenticated"@)
}

/// The failure when the identity that is logged in is no administrator.
pub open spec fn admin_required() -> ErrorView {
    ErrorView::Auth("Admin access required"@)
}

/// Why the session may not carry out an operation, if it may not: nobody
/// is logged in, or the operation is for administrators and the identity
/// has another role.
pub open spec fn guard_refusal(state: AuthState, admin_only: bool) -> Option<ErrorView> {
    match state.user {
        None => Some(not_authenticated()),
        Some(user) => if admin_only && user.role@ != "admin"@ {
            Some(admin_required())
        } else {
            None
        },
    }
}

/// The identity that is logged in.
pub fn get_authenticated_user(auth_state: &AuthState) -> (r: Result<SafeUser, AppError>)
    ensures
        match auth_state.user {
            Some(user) => r == Ok::<SafeUser, AppError>(user),
            None => fails_with(r, not_authenticated()),
        },
        r is Ok <==> guard_refusal(*auth_state, false) is None,
        r matches Err(e) ==> guard_refusal(*auth_state, false) == Some(e@),
{
    match &auth_state.user {
        Some(user) => Ok(user.clone()),
        None => Err(AppError::auth("User not authenticated")),
    }
}

/// The identity that is logged in, provided that it is an administrator.
pub fn require_admin(auth_state: &AuthState) -> (r: Result<SafeUser, AppError>)
    ensures
        match guard_refusal(*auth_state, true) {
            Some(e) => fails_with(r, e),
            None => r == Ok::<SafeUser, AppError>(auth_state.user->0),
        },
{
    let user: SafeUser = match get_authenticated_user(auth_state) {
        Ok(user) => user,
        Err(e) => {
            return Err(e);
        },
    };
    if !text_is(&user.role, "admin") {
        return Err(AppError::auth("Admin access required"));
    }
    Ok(user)
}

} // verus!
