use session_auth::{
    authorize_admin, complete_login, complete_sign_up, login, logout, secret, sign_up, user_data,
    AdminSecrets, AuthError, Credentials, LoginOutcome, Role, Session, UserStore,
    SESSION_TTL_SECS,
};

fn creds(email: &str, password: &str) -> Credentials {
    Credentials { email: email.to_string(), password: password.to_string() }
}

fn admin() -> AdminSecrets {
    AdminSecrets { email: "root@admin.com".to_string(), password: "s3cret".to_string() }
}

const NOW: u64 = 1_000;

#[test]
fn example_scenario_user_cannot_reach_admin_read() {
    let mut store = UserStore::new();
    let mut session = Session::new();
    let profile = sign_up(&mut store, &mut session, &creds("a@x.com", "pw1"), &admin(), NOW).unwrap();
    assert_eq!(profile.role, Role::User);
    assert_eq!(profile.email, "a@x.com");
    assert_eq!(profile.id, 1);

    let mut other = Session::new();
    let wrong = login(&store, &mut other, &creds("a@x.com", "wrong"), NOW);
    assert_eq!(wrong, Err(AuthError::InvalidCredentials));
    assert_eq!(wrong.unwrap_err().status_code(), 401);
    assert_eq!(other.user, None);

    let ok = login(&store, &mut other, &creds("a@x.com", "pw1"), NOW);
    assert_eq!(ok, Ok(LoginOutcome::LoggedIn));
    assert_eq!(other.user.as_deref(), Some("a@x.com"));
    assert_eq!(other.role.as_deref(), Some("User"));

    let denied = user_data(&store, &other, 1, NOW);
    assert_eq!(denied.unwrap_err().status_code(), 401);

    logout(&mut other);
    assert_eq!(secret(&mut other, NOW), Err(AuthError::Unauthorized));
}

#[test]
fn sign_up_then_login_holds_identity() {
    let mut store = UserStore::new();
    let mut session = Session::new();
    sign_up(&mut store, &mut session, &creds("bob@mail.com", "hunter2"), &admin(), NOW).unwrap();
    assert_eq!(session.user.as_deref(), Some("bob@mail.com"));
    // Same session: the login is confirmed.
    let again = login(&store, &mut session, &creds("bob@mail.com", "hunter2"), NOW + 5);
    assert_eq!(again, Ok(LoginOutcome::AlreadyLoggedIn));
    assert_eq!(session.user.as_deref(), Some("bob@mail.com"));
    assert_eq!(session.expires_at, NOW + 5 + SESSION_TTL_SECS);
}

#[test]
fn invalid_email_is_refused_without_record() {
    let mut store = UserStore::new();
    let mut session = Session::new();
    for bad in ["a@b", "plainstring.com", "", "nobody"] {
        let r = complete_sign_up(
            &mut store,
            &mut session,
            &creds(bad, "pw"),
            &admin(),
            Some("$2b$04$unused".to_string()),
            NOW,
        );
        assert_eq!(r.unwrap_err(), AuthError::InvalidEmail);
        assert_eq!(store.len(), 0);
        assert_eq!(session.user, None);
    }
    let r = sign_up(&mut store, &mut session, &creds("a@b", "pw"), &admin(), NOW);
    assert_eq!(r.unwrap_err().status_code(), 406);
    assert_eq!(store.len(), 0);
}

#[test]
fn duplicate_email_leaves_one_record() {
    let mut store = UserStore::new();
    let mut s1 = Session::new();
    let mut s2 = Session::new();
    let first = complete_sign_up(
        &mut store,
        &mut s1,
        &creds("dup@x.com", "one"),
        &admin(),
        Some("hash-one".to_string()),
        NOW,
    );
    assert!(first.is_ok());
    let second = complete_sign_up(
        &mut store,
        &mut s2,
        &creds("dup@x.com", "two"),
        &admin(),
        Some("hash-two".to_string()),
        NOW,
    );
    assert_eq!(second.unwrap_err(), AuthError::DuplicateEmail);
    assert_eq!(store.len(), 1);
    assert_eq!(store.users.iter().filter(|u| u.email == "dup@x.com").count(), 1);
    assert_eq!(store.users[0].password_hash, "hash-one");
    assert_eq!(s2.user, None);
}

#[test]
fn unknown_email_and_wrong_password_look_alike() {
    let mut store = UserStore::new();
    let mut session = Session::new();
    sign_up(&mut store, &mut session, &creds("c@x.com", "right"), &admin(), NOW).unwrap();
    let mut s1 = Session::new();
    let mut s2 = Session::new();
    let wrong = login(&store, &mut s1, &creds("c@x.com", "nope"), NOW).unwrap_err();
    let missing = login(&store, &mut s2, &creds("ghost@x.com", "right"), NOW).unwrap_err();
    assert_eq!(wrong, AuthError::InvalidCredentials);
    assert_eq!(missing, AuthError::UserNotFound);
    assert_eq!(wrong.status_code(), missing.status_code());
    assert_eq!(wrong.message(), missing.message());
    assert_eq!(s1.user, None);
    assert_eq!(s2.user, None);
}

#[test]
fn logout_then_secret_is_unauthorized() {
    let mut fresh = Session::new();
    logout(&mut fresh);
    assert_eq!(secret(&mut fresh, NOW), Err(AuthError::Unauthorized));

    let mut store = UserStore::new();
    let mut session = Session::new();
    complete_sign_up(&mut store, &mut session, &creds("d@x.com", "pw"), &admin(), Some("h".to_string()), NOW)
        .unwrap();
    assert_eq!(secret(&mut session, NOW + 1), Ok("d@x.com".to_string()));
    logout(&mut session);
    assert_eq!(secret(&mut session, NOW + 2), Err(AuthError::Unauthorized));
    assert_eq!(session.role, None);
}

#[test]
fn admin_role_only_on_exact_secrets() {
    let cases = [
        ("root@admin.com", "s3cret", Role::ADMIN),
        ("root@admin.com", "wrong", Role::User),
        ("other@admin.com", "s3cret", Role::User),
        ("other@admin.com", "wrong", Role::User),
    ];
    for (email, password, expected) in cases {
        let mut store = UserStore::new();
        let mut session = Session::new();
        let p = complete_sign_up(
            &mut store,
            &mut session,
            &creds(email, password),
            &admin(),
            Some("h".to_string()),
            NOW,
        )
        .unwrap();
        assert_eq!(p.role, expected);
        assert_eq!(store.users[0].role.as_deref(), Some(expected.as_str()));
        assert_eq!(session.role.as_deref(), Some(expected.as_str()));
    }
}

#[test]
fn admin_session_reads_records() {
    let mut store = UserStore::new();
    let mut s_user = Session::new();
    let mut s_admin = Session::new();
    complete_sign_up(&mut store, &mut s_user, &creds("u@x.com", "pw"), &admin(), Some("h1".to_string()), NOW)
        .unwrap();
    complete_sign_up(&mut store, &mut s_admin, &creds("root@admin.com", "s3cret"), &admin(), Some("h2".to_string()), NOW)
        .unwrap();
    assert_eq!(authorize_admin(&s_admin, NOW), Ok(()));
    let rec = user_data(&store, &s_admin, 1, NOW).unwrap();
    assert_eq!(rec.email, "u@x.com");
    assert_eq!(rec.id, 1);
    assert_eq!(user_data(&store, &s_admin, 3, NOW), Err(AuthError::UserNotFound));
    assert_eq!(user_data(&store, &s_admin, 0, NOW), Err(AuthError::UserNotFound));
    assert_eq!(user_data(&store, &s_user, 2, NOW), Err(AuthError::Unauthorized));
    // A lapsed administrator session is refused.
    assert_eq!(user_data(&store, &s_admin, 1, NOW + SESSION_TTL_SECS), Err(AuthError::Unauthorized));
}

#[test]
fn malformed_role_in_session_is_denied() {
    let mut session = Session::new();
    session.user = Some("e@x.com".to_string());
    session.role = Some("admin".to_string());
    session.renew(NOW);
    assert_eq!(authorize_admin(&session, NOW), Err(AuthError::Unauthorized));
    session.role = None;
    assert_eq!(authorize_admin(&session, NOW), Err(AuthError::Unauthorized));
}

#[test]
fn hashing_failure_changes_nothing() {
    let mut store = UserStore::new();
    let mut session = Session::new();
    let r = complete_sign_up(&mut store, &mut session, &creds("f@x.com", "pw"), &admin(), None, NOW);
    let e = r.unwrap_err();
    assert_eq!(e, AuthError::HashingFailed);
    assert_eq!(e.status_code(), 500);
    assert_eq!(store.len(), 0);
    assert_eq!(session.user, None);
}

#[test]
fn complete_login_cases() {
    let mut session = Session::new();
    assert_eq!(complete_login(None, &mut session, &creds("g@x.com", "pw"), NOW), Err(AuthError::UserNotFound));
    let mut store = UserStore::new();
    let mut s0 = Session::new();
    sign_up(&mut store, &mut s0, &creds("g@x.com", "pw"), &admin(), NOW).unwrap();
    let rec = store.find_by_email(&"g@x.com".to_string()).unwrap().duplicate();
    let r = complete_login(Some(rec), &mut session, &creds("g@x.com", "pw"), NOW);
    assert_eq!(r, Ok(LoginOutcome::LoggedIn));
    assert_eq!(session.user.as_deref(), Some("g@x.com"));
    assert_eq!(session.role.as_deref(), Some("User"));
}

#[test]
fn login_replaces_other_identity() {
    let mut store = UserStore::new();
    let mut s0 = Session::new();
    sign_up(&mut store, &mut s0, &creds("h@x.com", "pw"), &admin(), NOW).unwrap();
    let mut session = Session::new();
    session.user = Some("someone@x.com".to_string());
    session.role = Some("ADMIN".to_string());
    session.renew(NOW);
    assert_eq!(login(&store, &mut session, &creds("h@x.com", "pw"), NOW + 1), Ok(LoginOutcome::LoggedIn));
    assert_eq!(session.user.as_deref(), Some("h@x.com"));
    assert_eq!(session.role.as_deref(), Some("User"));
}

#[test]
fn unreadable_stored_hash_is_a_plain_mismatch() {
    let mut store = UserStore::new();
    let mut s0 = Session::new();
    complete_sign_up(&mut store, &mut s0, &creds("i@x.com", "pw"), &admin(), Some("not-a-bcrypt-hash".to_string()), NOW)
        .unwrap();
    let mut session = Session::new();
    assert_eq!(login(&store, &mut session, &creds("i@x.com", "pw"), NOW), Err(AuthError::InvalidCredentials));
    assert_eq!(session.user, None);
}
