use bookmarks::auth::{auth_midd, check_payload, finish_login, identity, login, prepare_user, register};
use bookmarks::error::{ApiError, AuthError};
use bookmarks::hasher::{hash_password, verify_password};
use bookmarks::model::{AuthPayload, NewBInput, NewUser, User};
use bookmarks::store::UserStore;
use bookmarks::token::{create_jwt, verify_jwt, Claims, TOKEN_LIFETIME};

const COST: u32 = 4;
const SECRET: &str = "test-signing-secret";
const T0: i64 = 1_700_000_000;

fn payload(email: &str, password: &str) -> AuthPayload {
    AuthPayload { email: email.to_string(), password: password.to_string() }
}

fn user_with_id(id: u128) -> User {
    User { id, email: "x@example.com".to_string(), password: String::new(), created_at: T0 }
}

#[test]
fn alice_scenario() {
    let mut store = UserStore::new();
    let alice = payload("alice@example.com", "pw123");
    let id: u128 = 0x67e5504410b1426f9247bb680e5fe0c8;
    let user = register(&mut store, &alice, id, T0, COST).unwrap();
    assert_eq!(user.id, id);
    assert_eq!(user.email, "alice@example.com");
    assert_ne!(user.password, "pw123");
    let shown = user.public();
    assert_eq!(shown.id, id);
    assert_eq!(shown.email, "alice@example.com");

    let resp = login(&store, &alice, SECRET, T0 + 10).unwrap();
    assert_eq!(resp.user.id, id);
    let resolved = auth_midd(&store, &resp.token, SECRET, T0 + 20).unwrap();
    assert_eq!(resolved.id, id);

    let err = login(&store, &payload("alice@example.com", "wrongpw"), SECRET, T0).unwrap_err();
    assert_eq!(err, AuthError::Unauthorized);
    assert_eq!(err.status_code(), 401);

    let again = register(&mut store, &alice, 7, T0, COST).unwrap_err();
    assert_eq!(again, AuthError::UserExists);
    assert_eq!(again.status_code(), 400);
    assert_eq!(store.len(), 1);
}

#[test]
fn register_once_per_email() {
    let mut store = UserStore::new();
    assert!(register(&mut store, &payload("bob@example.com", "secret"), 1, T0, COST).is_ok());
    let second = register(&mut store, &payload("bob@example.com", "other"), 2, T0, COST);
    assert_eq!(second.unwrap_err(), AuthError::UserExists);
    assert!(register(&mut store, &payload("carol@example.com", "secret"), 2, T0, COST).is_ok());
    assert_eq!(store.len(), 2);
}

#[test]
fn register_rejects_empty_fields() {
    let mut store = UserStore::new();
    assert_eq!(
        register(&mut store, &payload("", "pw"), 1, T0, COST).unwrap_err(),
        AuthError::MissingCredentials
    );
    assert_eq!(
        register(&mut store, &payload("a@example.com", ""), 1, T0, COST).unwrap_err(),
        AuthError::MissingCredentials
    );
    assert_eq!(store.len(), 0);
    assert_eq!(check_payload(&payload("a@example.com", "pw")), Ok(()));
}

#[test]
fn register_duplicate_id_is_store_error() {
    let mut store = UserStore::new();
    register(&mut store, &payload("a@example.com", "pw"), 9, T0, COST).unwrap();
    let err = register(&mut store, &payload("b@example.com", "pw"), 9, T0, COST).unwrap_err();
    assert!(matches!(err, AuthError::DatabaseError(_)));
    assert_eq!(err.status_code(), 500);
    assert_eq!(store.len(), 1);
}

#[test]
fn register_bad_cost_is_internal_error() {
    let mut store = UserStore::new();
    let err = register(&mut store, &payload("a@example.com", "pw"), 1, T0, 3).unwrap_err();
    assert_eq!(err, AuthError::InternalServerError);
    assert_eq!(store.len(), 0);
}

#[test]
fn login_wrong_password_unauthorized() {
    let mut store = UserStore::new();
    register(&mut store, &payload("dan@example.com", "right"), 5, T0, COST).unwrap();
    let ok = login(&store, &payload("dan@example.com", "right"), SECRET, T0).unwrap();
    assert_eq!(verify_jwt(&ok.token, SECRET, T0), Ok(5));
    assert_eq!(
        login(&store, &payload("dan@example.com", "wrong"), SECRET, T0).unwrap_err(),
        AuthError::Unauthorized
    );
}

#[test]
fn login_unknown_email_not_found() {
    let mut store = UserStore::new();
    register(&mut store, &payload("dan@example.com", "right"), 5, T0, COST).unwrap();
    let err = login(&store, &payload("nobody@example.com", "right"), SECRET, T0).unwrap_err();
    assert_eq!(err, AuthError::UserNotFound);
    assert_eq!(err.status_code(), 404);
    assert_eq!(
        login(&store, &payload("", "right"), SECRET, T0).unwrap_err(),
        AuthError::MissingCredentials
    );
}

#[test]
fn login_with_malformed_stored_hash_is_internal() {
    let u = User { id: 3, email: "e@example.com".to_string(), password: "not-a-hash".to_string(), created_at: T0 };
    let err = finish_login(&payload("e@example.com", "pw"), Some(u), SECRET, T0).unwrap_err();
    assert_eq!(err, AuthError::InternalServerError);
    assert_eq!(
        finish_login(&payload("e@example.com", "pw"), None, SECRET, T0).unwrap_err(),
        AuthError::UserNotFound
    );
}

#[test]
fn token_expires_exactly_seven_days_later() {
    assert_eq!(TOKEN_LIFETIME, 7 * 24 * 60 * 60);
    let u = user_with_id(42);
    let token = create_jwt(&u, SECRET, T0).unwrap();
    assert_eq!(verify_jwt(&token, SECRET, T0), Ok(42));
    assert_eq!(verify_jwt(&token, SECRET, T0 + TOKEN_LIFETIME - 1), Ok(42));
    assert_eq!(verify_jwt(&token, SECRET, T0 + TOKEN_LIFETIME), Err(AuthError::ExpiredToken));
    assert_eq!(verify_jwt(&token, SECRET, T0 + TOKEN_LIFETIME + 3600), Err(AuthError::ExpiredToken));
}

#[test]
fn token_from_other_secret_rejected() {
    let token = create_jwt(&user_with_id(42), "another-secret", T0).unwrap();
    assert_eq!(verify_jwt(&token, SECRET, T0), Err(AuthError::InvalidToken));
    assert_eq!(AuthError::InvalidToken.status_code(), 401);
}

#[test]
fn token_tampered_payload_rejected() {
    let token = create_jwt(&user_with_id(42), SECRET, T0).unwrap();
    let parts: Vec<&str> = token.split('.').collect();
    assert_eq!(parts.len(), 3);
    let other = create_jwt(&user_with_id(43), SECRET, T0).unwrap();
    let other_parts: Vec<&str> = other.split('.').collect();
    let forged = format!("{}.{}.{}", parts[0], other_parts[1], parts[2]);
    assert_eq!(verify_jwt(&forged, SECRET, T0), Err(AuthError::InvalidToken));
    assert_eq!(verify_jwt("not.a.token", SECRET, T0), Err(AuthError::InvalidToken));
    assert_eq!(verify_jwt("", SECRET, T0), Err(AuthError::InvalidToken));
}

#[test]
fn claims_name_user_in_uuid_text() {
    let c = Claims::for_user(0x67e5504410b1426f9247bb680e5fe0c8, T0);
    assert_eq!(c.sub, "67e55044-10b1-426f-9247-bb680e5fe0c8");
    assert_eq!(c.exp, T0 + 604800);
}

#[test]
fn tokens_are_deterministic_per_instant() {
    let u = user_with_id(42);
    assert_eq!(create_jwt(&u, SECRET, T0).unwrap(), create_jwt(&u, SECRET, T0).unwrap());
    assert_ne!(create_jwt(&u, SECRET, T0).unwrap(), create_jwt(&u, SECRET, T0 + 1).unwrap());
}

#[test]
fn hashes_are_salted_and_both_verify() {
    let h1 = hash_password("pw123", COST).unwrap();
    let h2 = hash_password("pw123", COST).unwrap();
    assert_ne!(h1, h2);
    assert_ne!(h1, "pw123");
    assert_eq!(verify_password("pw123", &h1), Ok(true));
    assert_eq!(verify_password("pw123", &h2), Ok(true));
    assert_eq!(verify_password("pw124", &h1), Ok(false));
    assert_eq!(verify_password("pw123", "malformed"), Err(AuthError::InternalServerError));
}

#[test]
fn gate_rejects_missing_user_and_bad_token() {
    let store = UserStore::new();
    let token = create_jwt(&user_with_id(77), SECRET, T0).unwrap();
    assert_eq!(auth_midd(&store, &token, SECRET, T0).unwrap_err(), AuthError::Unauthorized);
    assert_eq!(auth_midd(&store, "garbage", SECRET, T0).unwrap_err(), AuthError::InvalidToken);
    assert_eq!(
        auth_midd(&store, &token, SECRET, T0 + TOKEN_LIFETIME).unwrap_err(),
        AuthError::ExpiredToken
    );
    assert_eq!(identity(None).unwrap_err(), AuthError::Unauthorized);
    assert_eq!(identity(Some(user_with_id(1))).unwrap().id, 1);
}

#[test]
fn prepare_user_decisions() {
    let p = payload("f@example.com", "pw");
    assert_eq!(prepare_user(&p, &Some(user_with_id(1)), COST).unwrap_err(), AuthError::UserExists);
    let n: NewUser = prepare_user(&p, &None, COST).unwrap();
    assert_eq!(n.email, "f@example.com");
    assert_eq!(verify_password("pw", &n.password), Ok(true));
}

#[test]
fn store_lookups() {
    let mut store = UserStore::new();
    register(&mut store, &payload("g@example.com", "pw"), 11, T0, COST).unwrap();
    assert_eq!(store.get_user_by_id(11).unwrap().email, "g@example.com");
    assert!(store.get_user_by_id(12).is_none());
    assert_eq!(store.get_user_by_email(&"g@example.com".to_string()).unwrap().id, 11);
    assert!(store.get_user_by_email(&"G@example.com".to_string()).is_none());
    let n = NewUser { email: "g@example.com".to_string(), password: "h".to_string() };
    assert_eq!(store.create_user(n, 13, T0).unwrap_err(), AuthError::UserExists);
}

#[test]
fn error_statuses() {
    let cases = vec![
        (AuthError::InvalidToken, 401),
        (AuthError::ExpiredToken, 401),
        (AuthError::Unauthorized, 401),
        (AuthError::UserNotFound, 404),
        (AuthError::MissingCredentials, 400),
        (AuthError::UserExists, 400),
        (AuthError::DatabaseError("down".to_string()), 500),
        (AuthError::InternalServerError, 500),
    ];
    for (e, code) in cases {
        let api = ApiError::from_auth(&e);
        assert_eq!(api.status, code);
        assert!(!api.message.contains("down"));
    }
    assert_eq!(AuthError::UserExists.message(), "User already exists");
}

#[test]
fn bookmark_input_belongs_to_user() {
    let input = NewBInput {
        title: "Verus".to_string(),
        url: "https://example.com".to_string(),
        description: None,
        is_favorite: Some(true),
    };
    let b = input.for_user(99);
    assert_eq!(b.user_id, 99);
    assert_eq!(b.title, "Verus");
    assert_eq!(b.url, "https://example.com");
    assert_eq!(b.description, None);
    assert_eq!(b.is_favorite, Some(true));
}

#[test]
fn two_users_same_password_both_log_in() {
    let mut store = UserStore::new();
    let u1 = register(&mut store, &payload("h1@example.com", "shared"), 21, T0, COST).unwrap();
    let u2 = register(&mut store, &payload("h2@example.com", "shared"), 22, T0, COST).unwrap();
    assert_ne!(u1.password, u2.password);
    let r1 = login(&store, &payload("h1@example.com", "shared"), SECRET, T0).unwrap();
    let r2 = login(&store, &payload("h2@example.com", "shared"), SECRET, T0).unwrap();
    assert_eq!(r1.user.id, 21);
    assert_eq!(r2.user.id, 22);
    assert!(!r1.token.is_empty());
    assert_eq!(verify_jwt(&r1.token, SECRET, T0 + TOKEN_LIFETIME - 1), Ok(21));
    assert_eq!(verify_jwt(&r2.token, SECRET, T0), Ok(22));
}
