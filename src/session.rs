use vstd::prelude::*;

verus! {

/// Seconds of inactivity after which a session lapses (24 hours).
pub const SESSION_TTL_SECS: u64 = 86400;

/// The named values that a session holds.
#[derive(Debug, Clone, Copy, PartialEq, Eq, Structural)]
pub enum SessionKey {
    User,
    Role,
}

/// Server-side state of one client's session.
///
/// A session with a `user` value that has not lapsed is authenticated; one
/// without `user`, or past `expires_at`, is anonymous.
#[derive(Debug)]
pub struct Session {
    pub user: Option<String>,
    pub role: Option<String>,
    /// Moment (in seconds) from which the session counts as lapsed.
    pub expires_at: u64,
}

/// The text of an optional string.
pub open spec fn opt_view(o: Option<String>) -> Option<Seq<char>> {
    match o {
        Some(s) => Some(s@),
        None => None,
    }
}

/// The deadline that a renewal at `now` sets.
pub open spec fn renewed_deadline(now: u64) -> u64 {
    if now > u64::MAX - SESSION_TTL_SECS {
        u64::MAX
    } else {
        (now + SESSION_TTL_SECS) as u64
    }
}

impl Session {
    /// The identity that the session holds at `now`, if it is authenticated.
    pub open spec fn active_user(&self, now: u64) -> Option<Seq<char>> {
        match self.user {
            Some(u) if now < self.expires_at => Some(u@),
            _ => None,
        }
    }

    /// Holds no values at all.
    pub open spec fn is_empty(&self) -> bool {
        self.user is None && self.role is None
    }

    /// A session with nothing in it.
    pub fn new() -> (r: Session)
        ensures
            r.is_empty(),
            r.expires_at == 0,
    {
        Session { user: None, role: None, expires_at: 0 }
    }

    /// A copy of the value stored under `key`.
    pub fn get(&self, key: SessionKey) -> (r: Option<String>)
        ensures
            key == SessionKey::User ==> r == self.user,
            key == SessionKey::Role ==> r == self.role,
    {
        let v = match key {
            SessionKey::User => &self.user,
            SessionKey::Role => &self.role,
        };
        match v {
            Some(s) => Some(s.clone()),
            None => None,
        }
    }

    pub fn set(&mut self, key: SessionKey, value: String)
        ensures
            key == SessionKey::User ==> final(self).user == Some(value) && final(self).role
                == old(self).role,
            key == SessionKey::Role ==> final(self).role == Some(value) && final(self).user
                == old(self).user,
            final(self).expires_at == old(self).expires_at,
    {
        match key {
            SessionKey::User => self.user = Some(value),
            SessionKey::Role => self.role = Some(value),
        }
    }

    /// Drops every value; the session becomes anonymous.
    pub fn clear(&mut self)
        ensures
            final(self).is_empty(),
            final(self).expires_at == 0,
    {
        self.user = None;
        self.role = None;
        self.expires_at = 0;
    }

    /// Extends the session's lifetime from `now` without touching its values.
    pub fn renew(&mut self, now: u64)
        ensures
            final(self).user == old(self).user,
            final(self).role == old(self).role,
            final(self).expires_at == renewed_deadline(now),
    {
        if now > u64::MAX - SESSION_TTL_SECS {
            self.expires_at = u64::MAX;
        } else {
            self.expires_at = now + SESSION_TTL_SECS;
        }
    }

    /// Whether the session is authenticated at `now`.
    pub fn is_authenticated(&self, now: u64) -> (r: bool)
        ensures
            r == (self.active_user(now) is Some),
    {
        self.user.is_some() && now < self.expires_at
    }
}

} // verus!
