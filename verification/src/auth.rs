//! Authentication: resolving an API token to the user behind it.

use vstd::prelude::*;
use crate::error::{FictError, FictResult, fict_err};
use crate::model::{Database, Session, User};

verus! {

/// An authenticated user: the outcome of a successful token check.
pub struct AuthUser {
    pub user: User,
}

/// Guards every protected operation: a request that does not present a
/// known API token is refused before any handler runs.
pub struct RequireUser;

impl RequireUser {
    /// Resolve a request's API token (already parsed from its
    /// credentials; `None` when the request carried none) to the user
    /// behind it. A missing token, an unknown token, and a session
    /// whose user row has vanished are all refused.
    pub fn authenticate(db: &Database, token: Option<i64>) -> (r: FictResult<AuthUser>)
        requires
            db.wf(),
        ensures
            match token {
                None => r matches Err(e) && e is Message,
                Some(t) => match db.spec_session(t) {
                    None => r matches Err(e) && e is Message,
                    Some(session) => match db.spec_user(session.user_id) {
                        Some(u) => r matches Ok(a) && a.user == u,
                        None => r matches Err(e) && e is Message,
                    },
                },
            },
    {
        let t = match token {
            Some(t) => t,
            None => {
                return Err(fict_err("Authentication is required to access this endpoint"));
            },
        };
        let session = match Session::validate(db, t) {
            Some(s) => s,
            None => {
                return Err(fict_err("Authentication is required to access this endpoint"));
            },
        };
        match session.user(db) {
            Ok(user) => Ok(AuthUser { user }),
            Err(_) => Err(fict_err("Authentication is required to access this endpoint")),
        }
    }
}

} // verus!
