use vstd::prelude::*;

use crate::errors::AuthError;
use crate::models::{parse_role, Role};
use crate::session::{opt_view, Session};

verus! {

/// Identity extracted from a request. Absence is a normal value, never a
/// failure: callers decide what to answer when no one is logged in.
#[derive(Debug)]
pub struct SessionGuard {
    pub session: Option<String>,
}

/// What the role guard makes of a stored role value: a missing value is an
/// authorization failure, an unreadable one is a malformed role.
pub open spec fn role_guard_outcome(value: Option<Seq<char>>) -> Result<Role, AuthError> {
    match value {
        None => Err(AuthError::Unauthorized),
        Some(s) => match parse_role(s) {
            Some(r) => Ok(r),
            None => Err(AuthError::MalformedRole),
        },
    }
}

impl SessionGuard {
    /// Reads the identity of a session that is authenticated at `now`.
    pub fn extract(session: &Session, now: u64) -> (r: SessionGuard)
        ensures
            opt_view(r.session) == session.active_user(now),
    {
        if session.is_authenticated(now) {
            match &session.user {
                Some(u) => SessionGuard { session: Some(u.clone()) },
                None => SessionGuard { session: None },
            }
        } else {
            SessionGuard { session: None }
        }
    }

    pub fn is_present(&self) -> (r: bool)
        ensures
            r == (self.session is Some),
    {
        self.session.is_some()
    }
}

/// Role extracted from a request. Extraction fails closed: without a definite
/// role there is no guard.
#[derive(Debug)]
pub struct RoleGuard {
    pub role: Option<Role>,
}

impl RoleGuard {
    /// Parses a role value taken from a cookie or a session.
    pub fn from_value(value: Option<&str>) -> (r: Result<RoleGuard, AuthError>)
        ensures
            match value {
                Some(s) => match role_guard_outcome(Some(s@)) {
                    Ok(role) => r matches Ok(g) && g.role == Some(role),
                    Err(e) => r == Err::<RoleGuard, AuthError>(e),
                },
                None => r == Err::<RoleGuard, AuthError>(AuthError::Unauthorized),
            },
    {
        match value {
            None => Err(AuthError::Unauthorized),
            Some(s) => match Role::from_str(s) {
                Ok(role) => Ok(RoleGuard { role: Some(role) }),
                Err(_) => Err(AuthError::MalformedRole),
            },
        }
    }

    /// Reads the role stored in a session.
    pub fn extract(session: &Session) -> (r: Result<RoleGuard, AuthError>)
        ensures
            match role_guard_outcome(opt_view(session.role)) {
                Ok(role) => r matches Ok(g) && g.role == Some(role),
                Err(e) => r == Err::<RoleGuard, AuthError>(e),
            },
    {
        match &session.role {
            Some(s) => RoleGuard::from_value(Some(s.as_str())),
            None => RoleGuard::from_value(None),
        }
    }
}

} // verus!
