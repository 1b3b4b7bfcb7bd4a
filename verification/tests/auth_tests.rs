use task_manager::auth_controller::{login, login_at, register, LoginRequest, RegisterRequest};
use task_manager::auth_middleware::{auth_middleware, validate_token, Claims, InvalidTokenError};
use task_manager::errors::{ErrorKind, ServiceError};
use task_manager::store::Store;
use task_manager::user_model::User;

const SECRET: &str = "unit-test-secret";

fn register_req(username: &str, email: &str, password: &str) -> RegisterRequest {
    RegisterRequest {
        username: username.to_string(),
        email: email.to_string(),
        password: password.to_string(),
    }
}

fn login_req(email: &str, password: &str) -> LoginRequest {
    LoginRequest { email: email.to_string(), password: password.to_string() }
}

#[test]
fn register_assigns_first_counter_id() {
    let mut store = Store::new();
    let r = register(&mut store, register_req("alice", "alice@example.com", "pw1")).unwrap();
    assert_eq!(r.msg, "User created Successfully");
    assert_eq!(r.id.as_deref(), Some("000000000000000000000000"));
    assert_eq!(store.users.len(), 1);
    assert_eq!(store.users[0].email, "alice@example.com");
    assert!(store.users[0].tasks.is_empty());
    // the stored credential is a 60-character bcrypt hash, never the plaintext
    assert_ne!(store.users[0].password, "pw1");
    assert_eq!(store.users[0].password.len(), 60);
    assert!(store.users[0].password.starts_with("$2"));
}

#[test]
fn register_rejects_empty_fields() {
    let mut store = Store::new();
    let r = register(&mut store, register_req("", "a@b.c", "pw"));
    assert_eq!(r.unwrap_err(), ServiceError::EmptyRegisterFields);
    let r = register(&mut store, register_req("a", "", "pw"));
    assert_eq!(r.unwrap_err(), ServiceError::EmptyRegisterFields);
    let r = register(&mut store, register_req("a", "a@b.c", ""));
    assert_eq!(r.unwrap_err(), ServiceError::EmptyRegisterFields);
    assert_eq!(store.users.len(), 0);
}

#[test]
fn register_duplicate_email_rejected_and_count_stays_one() {
    let mut store = Store::new();
    register(&mut store, register_req("alice", "alice@example.com", "pw1")).unwrap();
    let r = register(&mut store, register_req("other", "alice@example.com", "pw2"));
    assert_eq!(r.unwrap_err(), ServiceError::EmailExists);
    let count = store.users.iter().filter(|u| u.email == "alice@example.com").count();
    assert_eq!(count, 1);
}

#[test]
fn login_roundtrip_token_validates_with_matching_claims() {
    let mut store = Store::new();
    register(&mut store, register_req("alice", "alice@example.com", "pw1")).unwrap();
    let now: u64 = 1_700_000_000;
    let resp = login_at(&store, &login_req("alice@example.com", "pw1"), now, SECRET).unwrap();
    assert_eq!(resp.msg, "Login Successful");
    assert_eq!(resp.user_id, "000000000000000000000000");
    let claims = validate_token(&resp.token, now + 1, SECRET).unwrap();
    assert_eq!(claims.user_id, resp.user_id);
    assert_eq!(claims.username, "alice");
    assert_eq!(claims.iat, now);
    assert_eq!(claims.exp, now + 86400);
    assert!(claims.exp > now + 1);
}

#[test]
fn tampered_token_is_rejected() {
    let mut store = Store::new();
    register(&mut store, register_req("alice", "alice@example.com", "pw1")).unwrap();
    let now: u64 = 1_700_000_000;
    let resp = login_at(&store, &login_req("alice@example.com", "pw1"), now, SECRET).unwrap();
    let bytes = resp.token.into_bytes();
    for pos in 0..bytes.len() {
        let mut tampered = bytes.clone();
        tampered[pos] = if tampered[pos] == b'x' { b'y' } else { b'x' };
        let tampered = String::from_utf8(tampered).unwrap();
        assert!(validate_token(&tampered, now + 1, SECRET).is_err());
    }
}

#[test]
fn token_fails_with_wrong_secret() {
    let mut store = Store::new();
    register(&mut store, register_req("alice", "alice@example.com", "pw1")).unwrap();
    let now: u64 = 1_700_000_000;
    let resp = login_at(&store, &login_req("alice@example.com", "pw1"), now, SECRET).unwrap();
    let r = validate_token(&resp.token, now + 1, "another-secret");
    assert_eq!(r.unwrap_err(), InvalidTokenError::NotVerified);
}

#[test]
fn token_expires_after_24_hours() {
    let mut store = Store::new();
    register(&mut store, register_req("alice", "alice@example.com", "pw1")).unwrap();
    let now: u64 = 1_700_000_000;
    let resp = login_at(&store, &login_req("alice@example.com", "pw1"), now, SECRET).unwrap();
    // still valid up to the very last second of the window
    assert!(validate_token(&resp.token, now + 86399, SECRET).is_ok());
    // more than 24 hours after issuance: refused
    let r = validate_token(&resp.token, now + 86401, SECRET);
    assert_eq!(r.unwrap_err(), InvalidTokenError::Expired);
}

#[test]
fn login_with_clock_issues_valid_token() {
    let mut store = Store::new();
    register(&mut store, register_req("alice", "alice@example.com", "pw1")).unwrap();
    let resp = login(&store, &login_req("alice@example.com", "pw1"), SECRET).unwrap();
    // whatever the clock read, the token is valid just after the epoch
    let claims = validate_token(&resp.token, 1, SECRET).unwrap();
    assert_eq!(claims.user_id, "000000000000000000000000");
    // the clock-reading login rejects a wrong password all the same
    let r = login(&store, &login_req("alice@example.com", "pw2"), SECRET);
    assert_eq!(r.unwrap_err(), ServiceError::WrongPassword);
}

#[test]
fn login_rejects_empty_fields() {
    let store = Store::new();
    let r = login_at(&store, &login_req("", "pw"), 1, SECRET);
    assert_eq!(r.unwrap_err(), ServiceError::EmptyLoginFields);
    let r = login_at(&store, &login_req("a@b.c", ""), 1, SECRET);
    assert_eq!(r.unwrap_err(), ServiceError::EmptyLoginFields);
}

#[test]
fn login_unknown_email_is_unauthorized() {
    let store = Store::new();
    let r = login_at(&store, &login_req("nobody@example.com", "pw"), 1, SECRET);
    let e = r.unwrap_err();
    assert_eq!(e, ServiceError::UserNotFound);
    assert_eq!(e.kind(), ErrorKind::Unauthorized);
    assert_eq!(e.status_code(), 401);
}

#[test]
fn login_wrong_password_is_bad_request() {
    let mut store = Store::new();
    register(&mut store, register_req("alice", "alice@example.com", "pw1")).unwrap();
    let r = login_at(&store, &login_req("alice@example.com", "pw2"), 1, SECRET);
    let e = r.unwrap_err();
    assert_eq!(e, ServiceError::WrongPassword);
    assert_eq!(e.status_code(), 400);
    assert_eq!(e.message(), "Wrong Password");
}

#[test]
fn login_malformed_stored_hash_is_internal() {
    let mut store = Store::new();
    store.users.push(User {
        user_id: "000000000000000000000000".to_string(),
        username: "alice".to_string(),
        email: "alice@example.com".to_string(),
        password: "not-a-bcrypt-hash".to_string(),
        tasks: Vec::new(),
    });
    store.next_id = 1;
    let r = login_at(&store, &login_req("alice@example.com", "pw1"), 1, SECRET);
    let e = r.unwrap_err();
    assert_eq!(e, ServiceError::VerificationFailed);
    assert_eq!(e.kind(), ErrorKind::Internal);
    assert_eq!(e.status_code(), 500);
}

#[test]
fn auth_middleware_missing_and_malformed_header() {
    let r = auth_middleware(None, 1, SECRET);
    assert_eq!(r.unwrap_err(), ServiceError::MissingAuthHeader);
    let r = auth_middleware(Some("Token abc"), 1, SECRET);
    assert_eq!(r.unwrap_err(), ServiceError::MalformedAuthHeader);
    let r = auth_middleware(Some("Bear"), 1, SECRET);
    assert_eq!(r.unwrap_err(), ServiceError::MalformedAuthHeader);
    let r = auth_middleware(Some("Bearer garbage"), 1, SECRET);
    let e = r.unwrap_err();
    assert_eq!(e, ServiceError::InvalidToken);
    assert_eq!(e.status_code(), 401);
}

#[test]
fn auth_middleware_accepts_bearer_token() {
    let mut store = Store::new();
    register(&mut store, register_req("alice", "alice@example.com", "pw1")).unwrap();
    let now: u64 = 1_700_000_000;
    let resp = login_at(&store, &login_req("alice@example.com", "pw1"), now, SECRET).unwrap();
    let header = format!("Bearer {}", resp.token);
    let claims: Claims = auth_middleware(Some(&header), now + 10, SECRET).unwrap();
    assert_eq!(claims.user_id, resp.user_id);
    assert_eq!(claims.username, "alice");
}
