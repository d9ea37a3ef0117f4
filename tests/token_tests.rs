use auth_api::error::AppError;
use auth_api::hasher::{hash_password, verify_password};
use auth_api::jwt::{
    bearer_token, check_claims, generate_token_at, validate_token_at, AuthHeader, JwtMiddleware,
    TOKEN_LIFETIME,
};

const NOW: i64 = 1_700_000_000;

#[test]
fn fresh_token_validates_with_its_claims() {
    let token = generate_token_at(5, "secret", NOW).unwrap();
    let claims = validate_token_at(&token, "secret", NOW).unwrap();
    assert_eq!(claims.sub, 5);
    assert_eq!(claims.exp, (NOW + 86400) as usize);
    let last_second = validate_token_at(&token, "secret", NOW + TOKEN_LIFETIME).unwrap();
    assert_eq!(last_second.sub, 5);
}

#[test]
fn expired_token_is_unauthorized() {
    let token = generate_token_at(5, "secret", NOW - 2 * TOKEN_LIFETIME).unwrap();
    let err = validate_token_at(&token, "secret", NOW).unwrap_err();
    assert!(matches!(err, AppError::Unauthorized(ref m) if m == "Invalid token"));
    let err = validate_token_at(&token, "secret", NOW - TOKEN_LIFETIME + 1).unwrap_err();
    assert_eq!(err.status_code(), 401);
}

#[test]
fn token_under_another_secret_is_unauthorized() {
    let token = generate_token_at(5, "secret", NOW).unwrap();
    let err = validate_token_at(&token, "another secret", NOW).unwrap_err();
    assert!(matches!(err, AppError::Unauthorized(ref m) if m == "Invalid token"));
}

#[test]
fn malformed_token_is_unauthorized() {
    let err = validate_token_at("not.a.token", "secret", NOW).unwrap_err();
    assert_eq!(err.message(), "Invalid token");
    let err = validate_token_at("", "secret", NOW).unwrap_err();
    assert_eq!(err.status_code(), 401);
}

#[test]
fn token_before_the_epoch_cannot_be_issued() {
    let err = generate_token_at(1, "secret", -TOKEN_LIFETIME - 1).unwrap_err();
    assert!(matches!(err, AppError::Internal(ref m) if m == "Failed to create token"));
    let err = generate_token_at(1, "secret", i64::MAX).unwrap_err();
    assert_eq!(err.status_code(), 500);
}

#[test]
fn claims_are_checked_against_the_time_and_types() {
    assert_eq!(check_claims(Some((3, NOW)), NOW).unwrap().sub, 3);
    assert!(check_claims(Some((3, NOW - 1)), NOW).is_err());
    assert!(check_claims(Some((i64::from(i32::MAX) + 1, NOW)), NOW).is_err());
    assert!(check_claims(Some((3, -1)), -5).is_err());
    assert!(check_claims(None, NOW).is_err());
}

#[test]
fn bearer_header_forms() {
    let missing = bearer_token(&AuthHeader::Missing).unwrap_err();
    assert_eq!(missing.message(), "Missing Authorization header");
    let unreadable = bearer_token(&AuthHeader::Unreadable).unwrap_err();
    assert_eq!(unreadable.message(), "Invalid Authorization header");
    let basic = bearer_token(&AuthHeader::Value("Basic abc".to_string())).unwrap_err();
    assert_eq!(basic.message(), "Invalid Authorization header");
    let token = bearer_token(&AuthHeader::Value("Bearer abc.def".to_string())).unwrap();
    assert_eq!(token, "abc.def");
}

#[test]
fn middleware_reads_claims_from_the_header() {
    let token = generate_token_at(11, "k", NOW).unwrap();
    let header = AuthHeader::Value(format!("Bearer {}", token));
    let auth = JwtMiddleware::from_header_at(&header, "k", NOW).unwrap();
    assert_eq!(auth.claims.sub, 11);
    let err = JwtMiddleware::from_header_at(&header, "k", NOW + 2 * TOKEN_LIFETIME).unwrap_err();
    assert_eq!(err.message(), "Invalid token");
    let bare = AuthHeader::Value(token);
    let err = JwtMiddleware::from_header_at(&bare, "k", NOW).unwrap_err();
    assert_eq!(err.message(), "Invalid Authorization header");
}

#[test]
fn password_hash_round_trip() {
    let hash = hash_password("s3cret").unwrap();
    assert_ne!(hash, "s3cret");
    assert!(hash.starts_with("$2"));
    assert_eq!(verify_password("s3cret", &hash).unwrap(), true);
    assert_eq!(verify_password("S3cret", &hash).unwrap(), false);
}

#[test]
fn malformed_hash_does_not_verify() {
    let err = verify_password("pw", "plainly not a hash").unwrap_err();
    assert!(matches!(err, AppError::Internal(ref m) if m == "Password verification failed"));
}

#[test]
fn signing_the_same_claims_gives_the_same_token() {
    let a = generate_token_at(8, "secret", NOW).unwrap();
    let b = generate_token_at(8, "secret", NOW).unwrap();
    assert_eq!(a, b);
    let c = generate_token_at(9, "secret", NOW).unwrap();
    assert_ne!(a, c);
}
