use auth_api::auth::LoginPayload;
use auth_api::error::AppError;
use auth_api::jwt::{validate_token, AuthHeader, JwtMiddleware};
use auth_api::repository::InMemoryUserRepository;
use auth_api::service::{
    authenticate, create_user, creation_error, find_user_by_id, get_profile_at, login_user,
    profile_from_record,
};
use auth_api::user::{User, UserRepository, UserResult};

fn login(username: &str, password: &str) -> LoginPayload {
    LoginPayload { username: username.to_string(), password: password.to_string() }
}

#[test]
fn register_login_profile_scenario() {
    let mut repo = InMemoryUserRepository::new();
    let secret = "scenario-secret";

    let user = create_user(&mut repo, "alice", "hunter2").unwrap();
    assert_eq!(user.id, 1);
    assert_eq!(user.username, "alice");

    let response = login_user(&repo, &login("alice", "hunter2"), secret).unwrap();
    let token = response.access_token;

    let header = AuthHeader::Value(format!("Bearer {}", token));
    let auth = JwtMiddleware::from_header(&header, secret).unwrap();
    assert_eq!(auth.claims.sub, 1);
    let profile = find_user_by_id(&repo, auth.claims.sub).unwrap();
    assert_eq!(profile.id, 1);
    assert_eq!(profile.username, "alice");

    let wrong = login_user(&repo, &login("alice", "wrong"), secret).unwrap_err();
    assert_eq!(wrong.status_code(), 401);

    let again = create_user(&mut repo, "alice", "other").unwrap_err();
    assert!(matches!(again, AppError::Conflict(_)));
    assert_eq!(again.status_code(), 409);
    assert_eq!(repo.len(), 1);
}

#[test]
fn wrong_password_and_unknown_user_give_the_same_error() {
    let mut repo = InMemoryUserRepository::new();
    create_user(&mut repo, "bob", "correct horse").unwrap();
    let wrong = login_user(&repo, &login("bob", "battery staple"), "k").unwrap_err();
    let unknown = login_user(&repo, &login("carol", "battery staple"), "k").unwrap_err();
    match (&wrong, &unknown) {
        (AppError::Unauthorized(a), AppError::Unauthorized(b)) => {
            assert_eq!(a, "invalid username or password");
            assert_eq!(a, b);
        }
        _ => panic!("expected two Unauthorized errors, got {:?} and {:?}", wrong, unknown),
    }
}

#[test]
fn login_token_carries_the_new_user_id() {
    let mut repo = InMemoryUserRepository::new();
    repo.create_user("first", "not-a-bcrypt-hash").unwrap();
    let user = create_user(&mut repo, "dave", "pw").unwrap();
    assert_eq!(user.id, 2);
    let response = login_user(&repo, &login("dave", "pw"), "secret").unwrap();
    let claims = validate_token(&response.access_token, "secret").unwrap();
    assert_eq!(claims.sub, 2);
}

#[test]
fn malformed_stored_hash_is_an_internal_error() {
    let found = Some(UserResult {
        id: 7,
        username: "eve".to_string(),
        password_hash: "not-a-bcrypt-hash".to_string(),
    });
    let err = authenticate(found, "pw", "secret", 1_700_000_000).unwrap_err();
    match err {
        AppError::Internal(m) => assert_eq!(m, "Password verification failed"),
        other => panic!("expected Internal, got {:?}", other),
    }
}

#[test]
fn authenticate_unknown_user_is_unauthorized() {
    let err = authenticate(None, "pw", "secret", 1_700_000_000).unwrap_err();
    assert_eq!(err.status_code(), 401);
    assert_eq!(err.message(), "invalid username or password");
}

#[test]
fn in_memory_store_assigns_increasing_ids_and_finds_users() {
    let mut repo = InMemoryUserRepository::new();
    let a = repo.create_user("a", "h1").unwrap();
    let b = repo.create_user("b", "h2").unwrap();
    assert_eq!((a.id, b.id), (1, 2));
    let found = repo.find_by_username("b").unwrap().unwrap();
    assert_eq!(found.id, 2);
    assert_eq!(found.password_hash, "h2");
    assert!(repo.find_by_username("c").unwrap().is_none());
    assert_eq!(repo.find_by_id(1).unwrap().unwrap().username, "a");
    assert!(repo.find_by_id(3).unwrap().is_none());
    let dup = repo.create_user("a", "h3").unwrap_err();
    assert!(matches!(dup, AppError::Conflict(ref m) if m == "Username already exists"));
    assert_eq!(repo.len(), 2);
}

#[test]
fn profile_of_missing_user_is_not_found() {
    let repo = InMemoryUserRepository::new();
    let err = find_user_by_id(&repo, 42).unwrap_err();
    assert_eq!(err.status_code(), 404);
    assert_eq!(err.message(), "User not found");
    let err = profile_from_record(None).unwrap_err();
    assert!(matches!(err, AppError::NotFound(_)));
    let user = profile_from_record(Some(User { id: 3, username: "x".to_string() })).unwrap();
    assert_eq!((user.id, user.username.as_str()), (3, "x"));
}

#[test]
fn get_profile_checks_the_token_first() {
    let mut repo = InMemoryUserRepository::new();
    repo.create_user("zoe", "h").unwrap();
    let now = 1_700_000_000;
    let token = auth_api::jwt::generate_token_at(1, "s3", now).unwrap();
    let user = get_profile_at(&repo, &token, "s3", now).unwrap();
    assert_eq!((user.id, user.username.as_str()), (1, "zoe"));
    let err = get_profile_at(&repo, &token, "other", now).unwrap_err();
    assert_eq!(err.message(), "Invalid token");
    let ghost = auth_api::jwt::generate_token_at(9, "s3", now).unwrap();
    let err = get_profile_at(&repo, &ghost, "s3", now).unwrap_err();
    assert!(matches!(err, AppError::NotFound(_)));
}

#[test]
fn store_errors_map_to_conflict_or_internal() {
    let conflict = creation_error(true);
    assert_eq!(conflict.status_code(), 409);
    assert_eq!(conflict.message(), "Username already exists");
    let internal = creation_error(false);
    assert_eq!(internal.status_code(), 500);
    assert_eq!(internal.message(), "Failed to create user");
}

#[test]
fn in_memory_insert_uses_the_next_id_after_the_largest() {
    let mut repo = InMemoryUserRepository::new();
    assert_eq!(repo.insert("a", "h1").unwrap().id, 1);
    assert_eq!(repo.insert("b", "h2").unwrap().id, 2);
    let dup = repo.insert("a", "h3").unwrap_err();
    assert!(matches!(dup, AppError::Conflict(ref m) if m == "Username already exists"));
    assert_eq!(repo.position_of("b"), Some(1));
    assert_eq!(repo.position_of("c"), None);
    assert_eq!(repo.position_of_id(1), Some(0));
    assert_eq!(repo.position_of_id(5), None);
    let b = repo.get(1);
    assert_eq!((b.id, b.username.as_str(), b.password_hash.as_str()), (2, "b", "h2"));
}

#[test]
fn registration_stores_a_bcrypt_hash_not_the_password() {
    let mut repo = InMemoryUserRepository::new();
    create_user(&mut repo, "frank", "plain").unwrap();
    let stored = repo.get(0);
    assert_ne!(stored.password_hash, "plain");
    assert!(stored.password_hash.starts_with("$2b$12$"));
    assert_eq!(stored.password_hash.len(), 60);
}
