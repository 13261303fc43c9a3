use vstd::prelude::*;

use crate::auth::{
    admin_allowed, login_post, logged_out, role_for, secret_result, sign_up_post,
    LoginOutcome, UserProfile,
};
use crate::errors::AuthError;
use crate::models::{role_text, Role, User};
use crate::password::password_accepted;
use crate::session::{opt_view, Session};
use crate::store::{count_email, emails_unique, has_email, lemma_count_unique, lookup_email};

verus! {

/// After a successful sign-up the new record is the one found for its email.
proof fn lemma_new_record_found(old_users: Seq<User>, new_users: Seq<User>, email: Seq<char>)
    requires
        emails_unique(old_users),
        !has_email(old_users, email),
        new_users.len() == old_users.len() + 1,
        new_users.drop_last() == old_users,
        new_users.last().email@ == email,
    ensures
        emails_unique(new_users),
        has_email(new_users, email),
        lookup_email(new_users, email) == Some(new_users.last()),
{
    let n = old_users.len() as int;
    assert forall|i: int| 0 <= i < n implies #[trigger] new_users[i] == old_users[i] by {
        assert(new_users.drop_last()[i] == new_users[i]);
    }
    assert(new_users[n].email@ == email);
    assert forall|i: int, j: int|
        0 <= i < new_users.len() && 0 <= j < new_users.len() && i != j implies #[trigger] new_users[i].email@
        != #[trigger] new_users[j].email@ by {
        if i < n && j < n {
            assert(new_users[i] == old_users[i] && new_users[j] == old_users[j]);
        } else if i < n {
            assert(new_users[i] == old_users[i]);
        } else {
            assert(new_users[j] == old_users[j]);
        }
    }
    let k = choose|k: int| 0 <= k < new_users.len() && #[trigger] new_users[k].email@ == email;
    assert(k == n);
}

/// Signing up and then logging in with the same credentials succeeds, and the
/// session then holds the submitted email as its identity.
pub proof fn lemma_sign_up_then_login(
    old_users: Seq<User>,
    old_session: Session,
    email: Seq<char>,
    password: Seq<char>,
    admin_email: Seq<char>,
    admin_password: Seq<char>,
    now: u64,
    signed: Result<UserProfile, AuthError>,
    users: Seq<User>,
    session: Session,
    later: u64,
    logged: Result<LoginOutcome, AuthError>,
    final_session: Session,
)
    requires
        emails_unique(old_users),
        sign_up_post(
            old_users,
            old_session,
            email,
            password,
            admin_email,
            admin_password,
            now,
            signed,
            users,
            session,
        ),
        signed is Ok,
        login_post(users, session, email, password, later, logged, final_session),
    ensures
        logged is Ok,
        opt_view(final_session.user) == Some(email),
{
    lemma_new_record_found(old_users, users, email);
}

/// A malformed email is refused and no record is created.
pub proof fn lemma_invalid_email_creates_nothing(
    old_users: Seq<User>,
    old_session: Session,
    email: Seq<char>,
    password: Seq<char>,
    admin_email: Seq<char>,
    admin_password: Seq<char>,
    now: u64,
    r: Result<UserProfile, AuthError>,
    users: Seq<User>,
    session: Session,
)
    requires
        !crate::validation::email_is_valid(email),
        sign_up_post(
            old_users,
            old_session,
            email,
            password,
            admin_email,
            admin_password,
            now,
            r,
            users,
            session,
        ),
    ensures
        r == Err::<UserProfile, AuthError>(AuthError::InvalidEmail),
        count_email(users, email) == count_email(old_users, email),
        users == old_users,
{
}

/// Signing up twice with one email: the second attempt is refused as a
/// duplicate, changes nothing, and exactly one record carries the email.
pub proof fn lemma_duplicate_sign_up(
    users0: Seq<User>,
    session0: Session,
    email: Seq<char>,
    password1: Seq<char>,
    password2: Seq<char>,
    admin_email: Seq<char>,
    admin_password: Seq<char>,
    now1: u64,
    now2: u64,
    first: Result<UserProfile, AuthError>,
    users1: Seq<User>,
    session1: Session,
    second: Result<UserProfile, AuthError>,
    users2: Seq<User>,
    session2: Session,
)
    requires
        emails_unique(users0),
        sign_up_post(
            users0,
            session0,
            email,
            password1,
            admin_email,
            admin_password,
            now1,
            first,
            users1,
            session1,
        ),
        first is Ok,
        sign_up_post(
            users1,
            session1,
            email,
            password2,
            admin_email,
            admin_password,
            now2,
            second,
            users2,
            session2,
        ),
    ensures
        second == Err::<UserProfile, AuthError>(AuthError::DuplicateEmail),
        users2 == users1,
        count_email(users2, email) == 1,
{
    lemma_new_record_found(users0, users1, email);
    lemma_count_unique(users1, email);
}

/// A login with a stored email and a wrong password, and a login with an email
/// that has no account, both fail, leave their sessions as they were, and give
/// failures that callers cannot tell apart.
pub proof fn lemma_login_failures_indistinguishable(
    users: Seq<User>,
    known_email: Seq<char>,
    wrong_password: Seq<char>,
    unknown_email: Seq<char>,
    any_password: Seq<char>,
    now: u64,
    session1: Session,
    r1: Result<LoginOutcome, AuthError>,
    after1: Session,
    session2: Session,
    r2: Result<LoginOutcome, AuthError>,
    after2: Session,
)
    requires
        lookup_email(users, known_email) matches Some(u) && !password_accepted(
            wrong_password,
            u.password_hash@,
        ),
        !has_email(users, unknown_email),
        login_post(users, session1, known_email, wrong_password, now, r1, after1),
        login_post(users, session2, unknown_email, any_password, now, r2, after2),
    ensures
        r1 matches Err(e1) && r2 matches Err(e2) && e1.indistinguishable(e2),
        after1 == session1,
        after2 == session2,
{
}

/// After a logout, whoami answers `Unauthorized`, whatever the session held.
pub proof fn lemma_logout_then_secret(s: Session, now: u64)
    requires
        logged_out(s),
    ensures
        secret_result(s, now) == Err::<Seq<char>, AuthError>(AuthError::Unauthorized),
        !admin_allowed(s, now),
{
}

/// The elevated role is given exactly when both submitted values equal the
/// configured secrets; a near miss gets the standard role, and the record that
/// a sign-up stores carries that role.
pub proof fn lemma_admin_only_on_exact_match(
    old_users: Seq<User>,
    old_session: Session,
    email: Seq<char>,
    password: Seq<char>,
    admin_email: Seq<char>,
    admin_password: Seq<char>,
    now: u64,
    r: Result<UserProfile, AuthError>,
    users: Seq<User>,
    session: Session,
)
    requires
        sign_up_post(
            old_users,
            old_session,
            email,
            password,
            admin_email,
            admin_password,
            now,
            r,
            users,
            session,
        ),
    ensures
        role_for(email, password, admin_email, admin_password) == Role::ADMIN <==> (email
            == admin_email && password == admin_password),
        (email == admin_email) != (password == admin_password) ==> role_for(
            email,
            password,
            admin_email,
            admin_password,
        ) == Role::User,
        r matches Ok(p) ==> (p.role == Role::ADMIN <==> (email == admin_email && password
            == admin_password)),
        r is Ok ==> (opt_view(users.last().role) == Some(role_text(Role::ADMIN)) <==> (email
            == admin_email && password == admin_password)),
{
    reveal_strlit("User");
    reveal_strlit("ADMIN");
    assert(role_text(Role::User) != role_text(Role::ADMIN)) by {
        assert(role_text(Role::User).len() != role_text(Role::ADMIN).len());
    }
}

} // verus!
