use vstd::prelude::*;

verus! {

/// What `bcrypt::verify` answers for a password and a stored hash: `Some(b)`
/// when the hash could be read (`b` tells whether the password matches), `None`
/// when the stored hash is malformed.
pub uninterp spec fn bcrypt_verdict(password: Seq<char>, hash: Seq<char>) -> Option<bool>;

/// Relies on `bcrypt::hash` at `bcrypt::DEFAULT_COST`: it salts with fresh OS
/// randomness, so nothing is promised of the text itself, only that
/// `bcrypt::verify` accepts the same password against it (the hash embeds the
/// salt and cost that verification re-derives from). `None` when the OS
/// randomness source fails.
#[verifier::external_body]
pub(crate) fn bcrypt_hash(password: &str) -> (r: Option<String>)
    ensures
        r matches Some(h) ==> bcrypt_verdict(password@, h@) == Some(true),
{
    bcrypt::hash(password, bcrypt::DEFAULT_COST).ok()
}

/// Relies on `bcrypt::verify`: a deterministic check of the password against
/// the salt and cost held in the stored hash; an unreadable hash is an error,
/// returned here as `None`.
#[verifier::external_body]
pub(crate) fn bcrypt_verify(password: &str, hash: &str) -> (r: Option<bool>)
    ensures
        r == bcrypt_verdict(password@, hash@),
{
    bcrypt::verify(password, hash).ok()
}

/// The stored hash accepts the password.
pub open spec fn password_accepted(password: Seq<char>, hash: Seq<char>) -> bool {
    bcrypt_verdict(password, hash) == Some(true)
}

/// One-way salted hash of a password; `None` only when hashing itself failed.
pub fn hash_password(password: &str) -> (r: Option<String>)
    ensures
        r matches Some(h) ==> password_accepted(password@, h@),
{
    bcrypt_hash(password)
}

/// Checks a password against a stored hash. A mismatch and an unreadable hash
/// both give `false`, so the two cannot be told apart.
pub fn verify_password(password: &str, hash: &str) -> (r: bool)
    ensures
        r == password_accepted(password@, hash@),
{
    match bcrypt_verify(password, hash) {
        Some(ok) => ok,
        None => false,
    }
}

} // verus!
