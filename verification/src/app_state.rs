//! The signed-in user's cached profile: who signed in, the credential the
//! sign-in returned, and — once fetched or submitted — the resolved user
//! record. Created at a successful sign-in, updated after a profile fetch
//! or submission, cleared at sign-out.

use vstd::prelude::*;

use crate::credential::Credential;
use crate::model::User;

verus! {

/// The cache for one signed-in user: the username that signed in, the
/// resolved user record when one is known, and the credential snapshot the
/// sign-in returned.
pub struct UserState {
    pub username: String,
    pub user: Option<User>,
    pub sign_in_response: Credential,
}

impl UserState {
    pub fn new(username: String, user: Option<User>, sign_in_response: Credential) -> (s: Self)
        ensures
            s.username == username,
            s.user == user,
            s.sign_in_response == sign_in_response,
    {
        UserState { username, user, sign_in_response }
    }
}

/// The application-wide shared state: the profile cache of the signed-in
/// user, or nothing while signed out.
pub struct AppState {
    pub user: Option<UserState>,
}

impl AppState {
    pub fn new() -> (s: Self)
        ensures
            s.user is None,
    {
        Self { user: None }
    }
}

} // verus!
