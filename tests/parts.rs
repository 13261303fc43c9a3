use session_auth::{
    apikey_to_state, contains_str, generate_key, hash_password, str_equal, validate_email,
    verify_password, AppState, AuthError, Role, RoleGuard, Session, SessionGuard, SessionKey,
    VideoType, API_KEY_LEN, SESSION_TTL_SECS,
};

#[test]
fn email_needs_both_markers() {
    assert_eq!(validate_email("a@x.com"), Ok(()));
    assert_eq!(validate_email("a@b"), Err(AuthError::InvalidEmail));
    assert_eq!(validate_email("plainstring.com"), Err(AuthError::InvalidEmail));
    assert_eq!(validate_email(""), Err(AuthError::InvalidEmail));
    assert_eq!(validate_email(".com@"), Ok(()));
    assert_eq!(validate_email("a@x.co"), Err(AuthError::InvalidEmail));
}

#[test]
fn substring_search() {
    assert!(contains_str("hello", ""));
    assert!(contains_str("hello", "llo"));
    assert!(!contains_str("hello", "lol"));
    assert!(!contains_str("he", "hello"));
    assert!(contains_str("ü@é.com", "é.c"));
    assert!(str_equal("abc", "abc"));
    assert!(!str_equal("abc", "abd"));
    assert!(!str_equal("abc", "ab"));
}

#[test]
fn role_parse_is_total_and_exact() {
    assert_eq!(Role::from_str("User"), Ok(Role::User));
    assert_eq!(Role::from_str("ADMIN"), Ok(Role::ADMIN));
    assert_eq!(Role::from_str("Admin"), Err(AuthError::MalformedRole));
    assert_eq!(Role::from_str(""), Err(AuthError::MalformedRole));
    assert_eq!(Role::ADMIN.as_str(), "ADMIN");
    assert_eq!(Role::User.as_str(), "User");
}

#[test]
fn video_type_names_map_to_their_own_list() {
    assert_eq!(VideoType::from_str("liked"), Ok(VideoType::LIKED));
    assert_eq!(VideoType::from_str("watched"), Ok(VideoType::WATCHED));
    assert_eq!(VideoType::from_str("Liked"), Err(()));
}

#[test]
fn error_statuses_and_messages() {
    assert_eq!(AuthError::InvalidEmail.status_code(), 406);
    assert_eq!(AuthError::DuplicateEmail.status_code(), 409);
    assert_eq!(AuthError::UserNotFound.status_code(), 401);
    assert_eq!(AuthError::InvalidCredentials.status_code(), 401);
    assert_eq!(AuthError::Unauthorized.status_code(), 401);
    assert_eq!(AuthError::MalformedRole.status_code(), 401);
    assert_eq!(AuthError::StoreUnavailable.status_code(), 500);
    assert_eq!(AuthError::HashingFailed.status_code(), 500);
    assert_eq!(AuthError::MalformedRole.message(), "Not authorized!");
    assert_eq!(AuthError::UserNotFound.message(), AuthError::InvalidCredentials.message());
    assert_ne!(AuthError::InvalidEmail.message(), AuthError::Unauthorized.message());
}

#[test]
fn guards_extract_from_session() {
    let mut s = Session::new();
    assert!(!SessionGuard::extract(&s, 10).is_present());
    assert_eq!(RoleGuard::extract(&s).unwrap_err(), AuthError::Unauthorized);
    s.set(SessionKey::User, "x@y.com".to_string());
    s.set(SessionKey::Role, "ADMIN".to_string());
    s.renew(10);
    let g = SessionGuard::extract(&s, 10);
    assert_eq!(g.session.as_deref(), Some("x@y.com"));
    assert_eq!(RoleGuard::extract(&s).unwrap().role, Some(Role::ADMIN));
    assert!(!SessionGuard::extract(&s, 10 + SESSION_TTL_SECS).is_present());
    assert_eq!(RoleGuard::from_value(Some("root")).unwrap_err(), AuthError::MalformedRole);
    assert_eq!(RoleGuard::from_value(None).unwrap_err(), AuthError::Unauthorized);
    assert_eq!(RoleGuard::from_value(Some("User")).unwrap().role, Some(Role::User));
}

#[test]
fn session_values_and_lifetime() {
    let mut s = Session::new();
    assert_eq!(s.get(SessionKey::User), None);
    s.set(SessionKey::User, "a".to_string());
    assert_eq!(s.get(SessionKey::User), Some("a".to_string()));
    assert_eq!(s.get(SessionKey::Role), None);
    assert!(!s.is_authenticated(0));
    s.renew(100);
    assert_eq!(s.expires_at, 100 + SESSION_TTL_SECS);
    assert!(s.is_authenticated(100 + SESSION_TTL_SECS - 1));
    assert!(!s.is_authenticated(100 + SESSION_TTL_SECS));
    s.renew(u64::MAX - 5);
    assert_eq!(s.expires_at, u64::MAX);
    assert_eq!(s.get(SessionKey::User), Some("a".to_string()));
    s.clear();
    assert_eq!(s.get(SessionKey::User), None);
    assert_eq!(s.expires_at, 0);
}

#[test]
fn password_hash_round_trip() {
    let h = hash_password("pw1").unwrap();
    assert_ne!(h, "pw1");
    assert!(h.starts_with("$2b$12$"));
    assert!(verify_password("pw1", &h));
    assert!(!verify_password("pw2", &h));
    assert!(!verify_password("pw1", "garbage"));
}

#[test]
fn generated_keys_are_alphanumeric() {
    let k = generate_key();
    assert_eq!(k.len(), API_KEY_LEN);
    assert!(k.chars().all(|c| c.is_ascii_alphanumeric()));
    let k2 = generate_key();
    assert_ne!(k, k2);
}

#[test]
fn issued_keys_are_kept_in_order() {
    let mut state = AppState::new();
    apikey_to_state(&mut state, "first");
    apikey_to_state(&mut state, "second");
    assert_eq!(state.api_keys, vec!["first".to_string(), "second".to_string()]);
}
