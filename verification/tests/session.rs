use session_auth::app_state::AppState;
use session_auth::authz::check_required_role;
use session_auth::errors::AuthError;
use session_auth::model::{role_for, LoginInfo};

fn secret() -> Vec<u8> {
    vec![7u8, 1, 2, 3, 4, 5, 6, 7, 8, 9, 10, 11, 12, 13, 14, 15]
}

fn identity(loginname: &str, role: &str) -> LoginInfo {
    LoginInfo { loginname: loginname.to_string(), role: role.to_string() }
}

#[test]
fn role_is_derived_from_the_loginname() {
    assert_eq!(role_for(&"admin".to_string()), "admin");
    assert_eq!(role_for(&"bob".to_string()), "regular");
    assert_eq!(role_for(&"Admin".to_string()), "regular");
    assert_eq!(role_for(&"".to_string()), "regular");

    let mut state = AppState::new(secret());
    state.login("carol".to_string(), "pw".to_string(), 1_000).unwrap();
    state.login("admin".to_string(), "pw".to_string(), 1_000).unwrap();
    let users = state.get_seen_users();
    assert_eq!(users[0].loginname, "carol");
    assert_eq!(users[0].role, "regular");
    assert_eq!(users[1].loginname, "admin");
    assert_eq!(users[1].role, "admin");
}

#[test]
fn login_token_verifies_immediately() {
    let mut state = AppState::new(secret());
    let (ttl, token) = state.login("bob".to_string(), "pw".to_string(), 1_000).unwrap();
    assert_eq!(ttl, 60);
    let info = state.verify_access_token(&token.0, 1_000).unwrap();
    assert_eq!(info.loginname, "bob");
    assert_eq!(info.role, "regular");
}

#[test]
fn logout_is_idempotent() {
    let mut state = AppState::new(secret());
    state.login("bob".to_string(), "pw".to_string(), 1_000).unwrap();
    state.login("carol".to_string(), "pw".to_string(), 1_000).unwrap();
    state.logout(&identity("bob", "regular"));
    let after_first: Vec<(String, String, bool)> = state
        .get_seen_users()
        .into_iter()
        .map(|e| (e.loginname, e.role, e.logged_in))
        .collect();
    state.logout(&identity("bob", "regular"));
    let after_second: Vec<(String, String, bool)> = state
        .get_seen_users()
        .into_iter()
        .map(|e| (e.loginname, e.role, e.logged_in))
        .collect();
    assert_eq!(after_first, after_second);
    assert_eq!(after_first[0], ("bob".to_string(), "regular".to_string(), false));
    assert_eq!(after_first[1], ("carol".to_string(), "regular".to_string(), true));
}

#[test]
fn token_expires_sixty_seconds_after_issue() {
    let mut state = AppState::new(secret());
    let (_, token) = state.login("bob".to_string(), "pw".to_string(), 1_000).unwrap();
    // Accepted strictly before the expiry at T + 60.
    assert!(state.verify_access_token(&token.0, 1_059).is_ok());
    // Rejected from the expiry on.
    assert_eq!(state.verify_access_token(&token.0, 1_060), Err(AuthError::InvalidAccessToken));
    assert_eq!(state.verify_access_token(&token.0, 1_061), Err(AuthError::InvalidAccessToken));
}

#[test]
fn logout_invalidates_outstanding_tokens() {
    let mut state = AppState::new(secret());
    let (_, token) = state.login("bob".to_string(), "pw".to_string(), 1_000).unwrap();
    state.logout(&identity("bob", "regular"));
    // The token itself is unexpired; the directory check rejects it anyway.
    assert_eq!(state.verify_access_token(&token.0, 1_001), Err(AuthError::InvalidAccessToken));
    // Logging in again makes fresh tokens verify once more.
    let (_, token2) = state.login("bob".to_string(), "pw".to_string(), 1_002).unwrap();
    assert!(state.verify_access_token(&token2.0, 1_002).is_ok());
}

#[test]
fn role_survives_logout_and_relogin() {
    let mut state = AppState::new(secret());
    state.login("admin".to_string(), "first".to_string(), 1_000).unwrap();
    state.logout(&identity("admin", "admin"));
    let (_, token) = state.login("admin".to_string(), "another".to_string(), 1_010).unwrap();
    let info = state.verify_access_token(&token.0, 1_010).unwrap();
    assert_eq!(info.role, "admin");
    let users = state.get_seen_users();
    assert_eq!(users.len(), 1);
    assert_eq!(users[0].role, "admin");
    assert!(users[0].logged_in);
}

#[test]
fn admin_and_bob_scenario() {
    let mut state = AppState::new(secret());
    let (_, token_a) = state.login("admin".to_string(), "x".to_string(), 2_000).unwrap();
    let (_, token_b) = state.login("bob".to_string(), "y".to_string(), 2_000).unwrap();

    let identity_a = state.verify_access_token(&token_a.0, 2_001).unwrap();
    assert_eq!(identity_a.loginname, "admin");
    assert_eq!(identity_a.role, "admin");

    state.logout(&identity_a);
    assert_eq!(state.verify_access_token(&token_a.0, 2_002), Err(AuthError::InvalidAccessToken));

    let identity_b = state.verify_access_token(&token_b.0, 2_002).unwrap();
    assert_eq!(identity_b.loginname, "bob");
    assert_eq!(identity_b.role, "regular");

    let listing = state.get_seen_users();
    assert_eq!(listing.len(), 2);
    assert_eq!(listing[0].loginname, "admin");
    assert!(!listing[0].logged_in);
    assert_eq!(listing[1].loginname, "bob");
    assert!(listing[1].logged_in);
}

#[test]
fn malformed_and_tampered_tokens_are_rejected() {
    let mut state = AppState::new(secret());
    let (_, token) = state.login("bob".to_string(), "pw".to_string(), 1_000).unwrap();

    assert_eq!(
        state.verify_access_token(&"not a token".to_string(), 1_000),
        Err(AuthError::InvalidAccessToken)
    );
    assert_eq!(state.verify_access_token(&String::new(), 1_000), Err(AuthError::InvalidAccessToken));

    // Flip a character of the payload: the signature no longer matches.
    let mut tampered: Vec<char> = token.0.chars().collect();
    let mid = tampered.len() / 2;
    tampered[mid] = if tampered[mid] == 'A' { 'B' } else { 'A' };
    let tampered: String = tampered.into_iter().collect();
    assert_eq!(state.verify_access_token(&tampered, 1_000), Err(AuthError::InvalidAccessToken));

    // The untouched token still verifies: the codec accepted real work above.
    assert!(state.verify_access_token(&token.0, 1_000).is_ok());
}

#[test]
fn tokens_from_another_secret_are_rejected() {
    let mut issuing = AppState::new(vec![1u8; 16]);
    let mut verifying = AppState::new(vec![2u8; 16]);
    let (_, token) = issuing.login("bob".to_string(), "pw".to_string(), 1_000).unwrap();
    verifying.login("bob".to_string(), "pw".to_string(), 1_000).unwrap();
    assert_eq!(verifying.verify_access_token(&token.0, 1_000), Err(AuthError::InvalidAccessToken));
    assert!(issuing.verify_access_token(&token.0, 1_000).is_ok());
}

#[test]
fn refresh_reissues_only_while_logged_in() {
    let mut state = AppState::new(secret());
    let (_, token) = state.login("bob".to_string(), "pw".to_string(), 1_000).unwrap();
    let bob = state.verify_access_token(&token.0, 1_000).unwrap();

    let (fresh, ttl) = state.update_access_token(&token.0, &bob, 1_030).unwrap();
    assert_eq!(ttl, 60);
    // The fresh token carries the new expiry: alive where the old one is dead.
    assert!(state.verify_access_token(&fresh, 1_070).is_ok());
    assert_eq!(state.verify_access_token(&token.0, 1_070), Err(AuthError::InvalidAccessToken));

    state.logout(&bob);
    assert_eq!(
        state.update_access_token(&fresh, &bob, 1_031),
        Err(AuthError::InvalidAccessToken)
    );
    // A name never seen is not logged in either.
    assert_eq!(
        state.update_access_token(&fresh, &identity("mallory", "regular"), 1_031),
        Err(AuthError::InvalidAccessToken)
    );
}

#[test]
fn revoking_a_token_logs_its_owner_out() {
    let mut state = AppState::new(secret());
    let (_, token) = state.login("bob".to_string(), "pw".to_string(), 1_000).unwrap();
    let bob = state.verify_access_token(&token.0, 1_000).unwrap();
    state.invalidate_access_token(&token.0, &bob);
    assert_eq!(state.verify_access_token(&token.0, 1_001), Err(AuthError::InvalidAccessToken));
}

#[test]
fn expiry_overflow_is_an_internal_error() {
    let mut state = AppState::new(secret());
    let r = state.login("bob".to_string(), "pw".to_string(), u64::MAX);
    assert_eq!(r.unwrap_err(), AuthError::Internal);
    // The failed login left no entry behind.
    assert_eq!(state.get_seen_users().len(), 0);

    // The largest clock value whose expiry still fits is owed success.
    let (ttl, _) = state.login("bob".to_string(), "pw".to_string(), u64::MAX - 60).unwrap();
    assert_eq!(ttl, 60);

    // A logged-in subject gets Internal only when the expiry cannot fit.
    let bob = identity("bob", "regular");
    assert_eq!(
        state.update_access_token(&String::new(), &bob, u64::MAX),
        Err(AuthError::Internal)
    );
    assert!(state.update_access_token(&String::new(), &bob, u64::MAX - 60).is_ok());
}

#[test]
fn positional_lookup_reports_not_found_past_the_end() {
    let mut state = AppState::new(secret());
    assert_eq!(state.get_seen_user(0).unwrap_err(), AuthError::NotFound);
    state.login("bob".to_string(), "pw".to_string(), 1_000).unwrap();
    let info = state.get_seen_user(0).unwrap();
    assert_eq!(info.loginname, "bob");
    assert_eq!(info.role, "regular");
    assert_eq!(state.get_seen_user(1).unwrap_err(), AuthError::NotFound);
}

#[test]
fn role_gate_compares_the_exact_role() {
    let admin = identity("alice", "admin");
    let regular = identity("bob", "regular");
    assert!(check_required_role(&"admin".to_string(), &admin).is_ok());
    assert_eq!(
        check_required_role(&"admin".to_string(), &regular),
        Err(AuthError::Forbidden)
    );
    assert!(check_required_role(&"regular".to_string(), &regular).is_ok());
}
