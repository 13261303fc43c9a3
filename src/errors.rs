use vstd::prelude::*;

verus! {

/// Every way an authentication or authorization step can fail.
///
/// Callers see only the status code and message: `UserNotFound`,
/// `InvalidCredentials`, `Unauthorized` and `MalformedRole` all collapse to the
/// same unauthorized answer.
#[derive(Debug, Clone, Copy, PartialEq, Eq, Structural)]
pub enum AuthError {
    InvalidEmail,
    DuplicateEmail,
    UserNotFound,
    InvalidCredentials,
    Unauthorized,
    MalformedRole,
    StoreUnavailable,
    HashingFailed,
}

impl AuthError {
    /// The HTTP status that a caller receives for this failure.
    pub open spec fn spec_status(self) -> u16 {
        match self {
            AuthError::InvalidEmail => 406,
            AuthError::DuplicateEmail => 409,
            AuthError::UserNotFound => 401,
            AuthError::InvalidCredentials => 401,
            AuthError::Unauthorized => 401,
            AuthError::MalformedRole => 401,
            AuthError::StoreUnavailable => 500,
            AuthError::HashingFailed => 500,
        }
    }

    /// The response body that a caller receives for this failure.
    pub open spec fn spec_message(self) -> Seq<char> {
        match self {
            AuthError::InvalidEmail => "Email provided is invalid! please check email"@,
            AuthError::DuplicateEmail => "Email is already registered"@,
            AuthError::StoreUnavailable => "Storage is unavailable"@,
            AuthError::HashingFailed => "Could not process credentials"@,
            _ => "Not authorized!"@,
        }
    }

    /// Whether two failures look the same from outside.
    pub open spec fn indistinguishable(self, other: AuthError) -> bool {
        self.spec_status() == other.spec_status() && self.spec_message() == other.spec_message()
    }

    pub fn status_code(&self) -> (r: u16)
        ensures
            r == self.spec_status(),
    {
        match self {
            AuthError::InvalidEmail => 406,
            AuthError::DuplicateEmail => 409,
            AuthError::UserNotFound => 401,
            AuthError::InvalidCredentials => 401,
            AuthError::Unauthorized => 401,
            AuthError::MalformedRole => 401,
            AuthError::StoreUnavailable => 500,
            AuthError::HashingFailed => 500,
        }
    }

    pub fn message(&self) -> (r: &'static str)
        ensures
            r@ == self.spec_message(),
    {
        match self {
            AuthError::InvalidEmail => "Email provided is invalid! please check email",
            AuthError::DuplicateEmail => "Email is already registered",
            AuthError::StoreUnavailable => "Storage is unavailable",
            AuthError::HashingFailed => "Could not process credentials",
            _ => "Not authorized!",
        }
    }
}

} // verus!
