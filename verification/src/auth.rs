//! The session: who, if anyone, is logged in.

use vstd::prelude::*;
use crate::models::SafeUser;

verus! {

/// The state of the single session: the identity that logged in, if any.
#[derive(Debug)]
pub struct AuthState {
    pub user: Option<SafeUser>,
}

impl Default for AuthState {
    /// A session in which nobody is logged in.
    fn default() -> (state: Self)
        ensures
            state.user is None,
    {
        AuthState { user: None }
    }
}

} // verus!
