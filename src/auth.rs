use vstd::prelude::*;

use crate::errors::AuthError;
use crate::guards::{role_guard_outcome, RoleGuard, SessionGuard};
use crate::models::{role_text, Role, User};
use crate::password::{hash_password, password_accepted, verify_password};
use crate::session::{opt_view, renewed_deadline, Session};
use crate::store::{has_email, lookup_email, UserStore};
use crate::validation::{email_is_valid, validate_email};

verus! {

/// Submitted email and password.
#[derive(Debug)]
pub struct Credentials {
    pub email: String,
    pub password: String,
}

/// The two configured values that mark the bootstrap administrator at sign-up.
#[derive(Debug)]
pub struct AdminSecrets {
    pub email: String,
    pub password: String,
}

/// What a successful sign-up hands back: the new record without its hash.
#[derive(Debug)]
pub struct UserProfile {
    pub id: i32,
    pub email: String,
    pub role: Role,
}

/// How a successful login went.
#[derive(Debug, Clone, Copy, PartialEq, Eq, Structural)]
pub enum LoginOutcome {
    /// The session now holds the identity.
    LoggedIn,
    /// The session already held this identity; the login is confirmed.
    AlreadyLoggedIn,
}

/// The role that a sign-up with these credentials is given: the elevated one
/// only when both values equal the configured secrets exactly.
pub open spec fn role_for(
    email: Seq<char>,
    password: Seq<char>,
    admin_email: Seq<char>,
    admin_password: Seq<char>,
) -> Role {
    if email == admin_email && password == admin_password {
        Role::ADMIN
    } else {
        Role::User
    }
}

/// The session holds `email` as its identity and `role` as its role, and was
/// renewed at `now`.
pub open spec fn logged_in_as(s: Session, email: Seq<char>, role: Option<Seq<char>>, now: u64) -> bool {
    &&& opt_view(s.user) == Some(email)
    &&& opt_view(s.role) == role
    &&& s.expires_at == renewed_deadline(now)
}

/// A sign-up appended one record for `email` with role `role` and logged the
/// session in as that account.
pub open spec fn signed_up(
    old_users: Seq<User>,
    new_users: Seq<User>,
    new_session: Session,
    p: UserProfile,
    email: Seq<char>,
    role: Role,
    now: u64,
) -> bool {
    &&& new_users.len() == old_users.len() + 1
    &&& new_users.drop_last() == old_users
    &&& new_users.last().id == old_users.len() + 1
    &&& new_users.last().email@ == email
    &&& opt_view(new_users.last().role) == Some(role_text(role))
    &&& p.id == old_users.len() + 1
    &&& p.email@ == email
    &&& p.role == role
    &&& logged_in_as(new_session, email, Some(role_text(role)), now)
}

/// Everything that `sign_up` may do, by case.
pub open spec fn sign_up_post(
    old_users: Seq<User>,
    old_session: Session,
    email: Seq<char>,
    password: Seq<char>,
    admin_email: Seq<char>,
    admin_password: Seq<char>,
    now: u64,
    r: Result<UserProfile, AuthError>,
    new_users: Seq<User>,
    new_session: Session,
) -> bool {
    let unchanged = new_users == old_users && new_session == old_session;
    if !email_is_valid(email) {
        r == Err::<UserProfile, AuthError>(AuthError::InvalidEmail) && unchanged
    } else if has_email(old_users, email) {
        r == Err::<UserProfile, AuthError>(AuthError::DuplicateEmail) && unchanged
    } else if old_users.len() + 1 >= i32::MAX {
        (r == Err::<UserProfile, AuthError>(AuthError::HashingFailed) || r == Err::<
            UserProfile,
            AuthError,
        >(AuthError::StoreUnavailable)) && unchanged
    } else {
        (r == Err::<UserProfile, AuthError>(AuthError::HashingFailed) && unchanged) || (
        r matches Ok(p) && signed_up(
            old_users,
            new_users,
            new_session,
            p,
            email,
            role_for(email, password, admin_email, admin_password),
            now,
        ) && password_accepted(password, new_users.last().password_hash@))
    }
}

/// The answer to a login, given the record found for the email (if any) and
/// the identity that the session holds at the time.
pub open spec fn login_decision(
    found: Option<User>,
    active: Option<Seq<char>>,
    email: Seq<char>,
    password: Seq<char>,
) -> Result<LoginOutcome, AuthError> {
    match found {
        None => Err(AuthError::UserNotFound),
        Some(u) => if !password_accepted(password, u.password_hash@) {
            Err(AuthError::InvalidCredentials)
        } else if active == Some(email) {
            Ok(LoginOutcome::AlreadyLoggedIn)
        } else {
            Ok(LoginOutcome::LoggedIn)
        },
    }
}

/// What a login does to the session: nothing on failure; on success it holds
/// the identity and the stored role, renewed at `now`.
pub open spec fn login_session_post(
    found: Option<User>,
    old_session: Session,
    new_session: Session,
    email: Seq<char>,
    now: u64,
    r: Result<LoginOutcome, AuthError>,
) -> bool {
    match (r, found) {
        (Ok(_), Some(u)) => logged_in_as(new_session, email, opt_view(u.role), now),
        _ => new_session == old_session,
    }
}

/// Everything that `login` does against the store.
pub open spec fn login_post(
    users: Seq<User>,
    old_session: Session,
    email: Seq<char>,
    password: Seq<char>,
    now: u64,
    r: Result<LoginOutcome, AuthError>,
    new_session: Session,
) -> bool {
    &&& r == login_decision(
        lookup_email(users, email),
        old_session.active_user(now),
        email,
        password,
    )
    &&& login_session_post(lookup_email(users, email), old_session, new_session, email, now, r)
}

/// The session holds nothing after a logout.
pub open spec fn logged_out(s: Session) -> bool {
    s.is_empty() && s.expires_at == 0
}

/// The answer to a whoami request on session `s` at `now`.
pub open spec fn secret_result(s: Session, now: u64) -> Result<Seq<char>, AuthError> {
    match s.active_user(now) {
        Some(u) => Ok(u),
        None => Err(AuthError::Unauthorized),
    }
}

/// The session is authenticated and its role reads as the administrator role.
pub open spec fn admin_allowed(s: Session, now: u64) -> bool {
    &&& s.active_user(now) is Some
    &&& role_guard_outcome(opt_view(s.role)) == Ok::<Role, AuthError>(Role::ADMIN)
}

/// Role given to a new account for these credentials.
pub fn determine_role(creds: &Credentials, admin: &AdminSecrets) -> (r: Role)
    ensures
        r == role_for(creds.email@, creds.password@, admin.email@, admin.password@),
{
    if creds.email == admin.email && creds.password == admin.password {
        Role::ADMIN
    } else {
        Role::User
    }
}

/// Stores identity and role in the session and renews it.
pub fn establish_session(session: &mut Session, email: &String, role: &Option<String>, now: u64)
    ensures
        logged_in_as(*final(session), email@, opt_view(*role), now),
{
    session.user = Some(email.clone());
    session.role = match role {
        Some(s) => Some(s.clone()),
        None => None,
    };
    session.renew(now);
}

/// Sign-up once the password hash is known (`None` when hashing failed).
pub fn complete_sign_up(
    store: &mut UserStore,
    session: &mut Session,
    creds: &Credentials,
    admin: &AdminSecrets,
    hashed: Option<String>,
    now: u64,
) -> (r: Result<UserProfile, AuthError>)
    requires
        old(store).wf(),
    ensures
        final(store).wf(),
        ({
            let old_users = old(store).view();
            let new_users = final(store).view();
            let email = creds.email@;
            let unchanged = new_users == old_users && *final(session) == *old(session);
            &&& !email_is_valid(email) ==> r == Err::<UserProfile, AuthError>(
                AuthError::InvalidEmail,
            ) && unchanged
            &&& email_is_valid(email) && has_email(old_users, email) ==> r == Err::<
                UserProfile,
                AuthError,
            >(AuthError::DuplicateEmail) && unchanged
            &&& email_is_valid(email) && !has_email(old_users, email) && hashed is None ==> r
                == Err::<UserProfile, AuthError>(AuthError::HashingFailed) && unchanged
            &&& email_is_valid(email) && !has_email(old_users, email) && hashed is Some
                && old_users.len() + 1 >= i32::MAX ==> r == Err::<UserProfile, AuthError>(
                AuthError::StoreUnavailable,
            ) && unchanged
            &&& email_is_valid(email) && !has_email(old_users, email) && old_users.len() + 1
                < i32::MAX ==> (hashed matches Some(h) ==> r matches Ok(p) && signed_up(
                old_users,
                new_users,
                *final(session),
                p,
                email,
                role_for(email, creds.password@, admin.email@, admin.password@),
                now,
            ) && new_users.last().password_hash@ == h@)
        }),
{
    if validate_email(creds.email.as_str()).is_err() {
        return Err(AuthError::InvalidEmail);
    }
    if store.find_by_email(&creds.email).is_some() {
        return Err(AuthError::DuplicateEmail);
    }
    let hash = match hashed {
        Some(h) => h,
        None => {
            return Err(AuthError::HashingFailed);
        },
    };
    let role = determine_role(creds, admin);
    let user = match store.insert(creds.email.clone(), hash, role) {
        Ok(u) => u,
        Err(e) => {
            return Err(e);
        },
    };
    establish_session(session, &user.email, &user.role, now);
    assert(store.view().drop_last() =~= old(store).view());
    Ok(UserProfile { id: user.id, email: user.email, role })
}

/// Registers a new account and logs the session in as it.
///
/// A malformed email is refused with `InvalidEmail` and an email already on
/// record with `DuplicateEmail`; in both cases nothing changes. The password is
/// stored only as a salted hash.
pub fn sign_up(
    store: &mut UserStore,
    session: &mut Session,
    creds: &Credentials,
    admin: &AdminSecrets,
    now: u64,
) -> (r: Result<UserProfile, AuthError>)
    requires
        old(store).wf(),
    ensures
        final(store).wf(),
        sign_up_post(
            old(store).view(),
            *old(session),
            creds.email@,
            creds.password@,
            admin.email@,
            admin.password@,
            now,
            r,
            final(store).view(),
            *final(session),
        ),
{
    if validate_email(creds.email.as_str()).is_err() {
        return Err(AuthError::InvalidEmail);
    }
    if store.find_by_email(&creds.email).is_some() {
        return Err(AuthError::DuplicateEmail);
    }
    let hashed = hash_password(creds.password.as_str());
    complete_sign_up(store, session, creds, admin, hashed, now)
}

/// Login once the record for the email has been fetched (`None`: no such
/// account). A missing account and a wrong password fail alike to callers.
pub fn complete_login(found: Option<User>, session: &mut Session, creds: &Credentials, now: u64) -> (r:
    Result<LoginOutcome, AuthError>)
    ensures
        r == login_decision(found, old(session).active_user(now), creds.email@, creds.password@),
        login_session_post(found, *old(session), *final(session), creds.email@, now, r),
{
    let user = match found {
        Some(u) => u,
        None => {
            return Err(AuthError::UserNotFound);
        },
    };
    if !verify_password(creds.password.as_str(), user.password_hash.as_str()) {
        return Err(AuthError::InvalidCredentials);
    }
    let already = match &session.user {
        Some(u) => session.is_authenticated(now) && *u == creds.email,
        None => false,
    };
    establish_session(session, &creds.email, &user.role, now);
    if already {
        Ok(LoginOutcome::AlreadyLoggedIn)
    } else {
        Ok(LoginOutcome::LoggedIn)
    }
}

/// Logs in against the store.
pub fn login(store: &UserStore, session: &mut Session, creds: &Credentials, now: u64) -> (r: Result<
    LoginOutcome,
    AuthError,
>)
    requires
        store.wf(),
    ensures
        login_post(store.view(), *old(session), creds.email@, creds.password@, now, r, *final(session)),
{
    let found = match store.find_by_email(&creds.email) {
        Some(u) => Some(u.duplicate()),
        None => None,
    };
    complete_login(found, session, creds, now)
}

/// Ends the session, whether or not one existed.
pub fn logout(session: &mut Session)
    ensures
        logged_out(*final(session)),
{
    session.clear();
}

/// The identity behind an identity guard, or `Unauthorized` when absent.
pub fn validate_session(guard: SessionGuard) -> (r: Result<String, AuthError>)
    ensures
        match guard.session {
            Some(v) => r == Ok::<String, AuthError>(v),
            None => r == Err::<String, AuthError>(AuthError::Unauthorized),
        },
{
    match guard.session {
        Some(v) => Ok(v),
        None => Err(AuthError::Unauthorized),
    }
}

/// Whoami: the session's identity, renewing the session; `Unauthorized` and no
/// change when the session is anonymous or lapsed.
pub fn secret(session: &mut Session, now: u64) -> (r: Result<String, AuthError>)
    ensures
        match secret_result(*old(session), now) {
            Ok(u) => r matches Ok(s) && s@ == u && final(session).user == old(session).user
                && final(session).role == old(session).role && final(session).expires_at
                == renewed_deadline(now),
            Err(e) => r == Err::<String, AuthError>(e) && *final(session) == *old(session),
        },
{
    let guard = SessionGuard::extract(session, now);
    let r = validate_session(guard);
    if r.is_ok() {
        session.renew(now);
    }
    r
}

/// Admits only an authenticated session whose role is the administrator
/// role; every other case is the same `Unauthorized`.
pub fn authorize_admin(session: &Session, now: u64) -> (r: Result<(), AuthError>)
    ensures
        r is Ok <==> admin_allowed(*session, now),
        r is Err ==> r == Err::<(), AuthError>(AuthError::Unauthorized),
{
    let identity = SessionGuard::extract(session, now);
    if !identity.is_present() {
        return Err(AuthError::Unauthorized);
    }
    match RoleGuard::extract(session) {
        Ok(g) => match g.role {
            Some(Role::ADMIN) => Ok(()),
            _ => Err(AuthError::Unauthorized),
        },
        Err(_) => Err(AuthError::Unauthorized),
    }
}

/// Admin read of another user's record.
pub fn user_data(store: &UserStore, session: &Session, id: i32, now: u64) -> (r: Result<
    User,
    AuthError,
>)
    requires
        store.wf(),
    ensures
        !admin_allowed(*session, now) ==> r == Err::<User, AuthError>(AuthError::Unauthorized),
        admin_allowed(*session, now) && !(1 <= id <= store.view().len()) ==> r == Err::<
            User,
            AuthError,
        >(AuthError::UserNotFound),
        admin_allowed(*session, now) && 1 <= id <= store.view().len() ==> r == Ok::<
            User,
            AuthError,
        >(store.view()[id - 1]),
{
    if authorize_admin(session, now).is_err() {
        return Err(AuthError::Unauthorized);
    }
    match store.find_by_id(id) {
        Some(u) => Ok(u.duplicate()),
        None => Err(AuthError::UserNotFound),
    }
}

} // verus!
