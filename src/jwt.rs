use vstd::prelude::*;
use crate::error::{AppError, ErrorView};

verus! {

/// How long a session token stays valid, in seconds (24 hours).
pub const TOKEN_LIFETIME: i64 = 86400;

/// The claims of a session token: the user id and the expiry in seconds
/// since the Unix epoch.
#[derive(Debug)]
pub struct Claims {
    pub sub: i32,
    pub exp: usize,
}

/// A request that carried a valid bearer token, with its claims.
#[derive(Debug)]
pub struct JwtMiddleware {
    pub claims: Claims,
}

/// The `Authorization` header of a request, as the transport found it.
pub enum AuthHeader {
    Missing,
    /// Present, but not visible ASCII text.
    Unreadable,
    Value(String),
}

/// What `jsonwebtoken::decode` finds in `token` under `secret`, with the
/// expiry left unchecked: the `sub` and `exp` claims of a token whose
/// signature verifies, or `None`.
pub uninterp spec fn token_claims(token: Seq<char>, secret: Seq<char>) -> Option<(int, int)>;

/// The text of the token that `jsonwebtoken::encode` makes for the claims
/// `sub` and `exp` under `secret`.
pub uninterp spec fn signed_token(sub: int, exp: int, secret: Seq<char>) -> Seq<char>;

/// Relies on `jsonwebtoken::encode` with the default header (HS256) and a key
/// made from the bytes of `secret`: it signs the claims object `{sub, exp}`
/// with HMAC-SHA256, which cannot fail for an HMAC key and a map of integers,
/// and depends on its arguments alone. `jsonwebtoken::decode` under the same
/// secret checks that signature and gives both claims back; it reads `exp` as
/// a `u64`, so this holds for an expiry that is not negative.
#[verifier::external_body]
fn sign_claims(sub: i64, exp: i64, secret: &str) -> (r: Option<String>)
    ensures
        r is Some,
        r matches Some(t) ==> t@ == signed_token(sub as int, exp as int, secret@),
        r matches Some(t) ==> (0 <= exp ==> token_claims(t@, secret@) == Some(
            (sub as int, exp as int),
        )),
{
    let claims = std::collections::BTreeMap::from([("sub", sub), ("exp", exp)]);
    let key = jsonwebtoken::EncodingKey::from_secret(secret.as_bytes());
    jsonwebtoken::encode(&jsonwebtoken::Header::default(), &claims, &key).ok()
}

/// Relies on `jsonwebtoken::decode` with HS256, a key made from the bytes of
/// `secret`, and the expiry check switched off (it is made against a given
/// time by the caller): the `sub` and `exp` claims when the signature
/// verifies, else `None`.
#[verifier::external_body]
fn decode_claims(token: &str, secret: &str) -> (r: Option<(i64, i64)>)
    ensures
        match r {
            Some((s, e)) => token_claims(token@, secret@) == Some((s as int, e as int)),
            None => token_claims(token@, secret@) is None,
        },
{
    let mut validation = jsonwebtoken::Validation::default();
    validation.validate_exp = false;
    let key = jsonwebtoken::DecodingKey::from_secret(secret.as_bytes());
    let data = jsonwebtoken::decode::<std::collections::BTreeMap<String, i64>>(
        token,
        &key,
        &validation,
    ).ok()?;
    Some((*data.claims.get("sub")?, *data.claims.get("exp")?))
}

/// Relies on `chrono::Utc::now`: the current time in whole seconds since the
/// Unix epoch. Nothing is known of its value.
#[verifier::external_body]
pub(crate) fn now_timestamp() -> (r: i64) {
    chrono::Utc::now().timestamp()
}

/// What follows `prefix` in `s`, when `s` starts with it.
fn strip_prefix(s: &str, prefix: &str) -> (r: Option<String>)
    ensures
        match r {
            Some(t) => s@ == prefix@ + t@,
            None => !prefix@.is_prefix_of(s@),
        },
{
    let n = prefix.unicode_len();
    let m = s.unicode_len();
    if n > m {
        return None;
    }
    let mut i: usize = 0;
    while i < n
        invariant
            n == prefix@.len(),
            m == s@.len(),
            n <= m,
            i <= n,
            forall|j: int| 0 <= j < i ==> s@[j] == prefix@[j],
        decreases n - i,
    {
        if s.get_char(i) != prefix.get_char(i) {
            return None;
        }
        i = i + 1;
    }
    let rest = s.substring_char(n, m).to_owned();
    assert(s@ =~= prefix@ + rest@);
    Some(rest)
}

pub open spec fn token_failed() -> ErrorView {
    ErrorView::Internal("Failed to create token"@)
}

pub open spec fn invalid_token() -> ErrorView {
    ErrorView::Unauthorized("Invalid token"@)
}

pub open spec fn missing_header() -> ErrorView {
    ErrorView::Unauthorized("Missing Authorization header"@)
}

pub open spec fn invalid_header() -> ErrorView {
    ErrorView::Unauthorized("Invalid Authorization header"@)
}

/// The expiry of a token issued at `now`.
pub open spec fn expiry_at(now: int) -> int {
    now + TOKEN_LIFETIME
}

/// A token issued at `now` can carry its expiry.
pub open spec fn expiry_fits(now: int) -> bool {
    0 <= expiry_at(now) <= i64::MAX
}

/// The claims that validation accepts at time `now`, out of what the token
/// decoded to: they fit `Claims`, and the expiry is not in the past.
pub open spec fn accepted_claims(decoded: Option<(int, int)>, now: int) -> Option<(int, int)> {
    match decoded {
        Some((s, e)) => if i32::MIN <= s <= i32::MAX && 0 <= e <= usize::MAX && now <= e {
            Some((s, e))
        } else {
            None
        },
        None => None,
    }
}

/// `t` is the token for user `sub` issued at time `now` under `secret`.
pub open spec fn issued_at(t: Seq<char>, sub: int, secret: Seq<char>, now: int) -> bool {
    &&& expiry_fits(now)
    &&& t == signed_token(sub, expiry_at(now), secret)
    &&& token_claims(t, secret) == Some((sub, expiry_at(now)))
}

/// The result of validating `token` under `secret` at time `now`.
pub open spec fn validation(token: Seq<char>, secret: Seq<char>, now: int) -> Result<(int, int), ErrorView> {
    match accepted_claims(token_claims(token, secret), now) {
        Some(c) => Ok(c),
        None => Err(invalid_token()),
    }
}

pub open spec fn claims_result(r: Result<Claims, AppError>) -> Result<(int, int), ErrorView> {
    match r {
        Ok(c) => Ok((c.sub as int, c.exp as int)),
        Err(e) => Err(e@),
    }
}

/// The result of authenticating a request with `header` at time `now`.
pub open spec fn authentication(header: AuthHeader, secret: Seq<char>, now: int) -> Result<
    (int, int),
    ErrorView,
> {
    match header {
        AuthHeader::Missing => Err(missing_header()),
        AuthHeader::Unreadable => Err(invalid_header()),
        AuthHeader::Value(v) => if "Bearer "@.is_prefix_of(v@) {
            validation(v@.skip(7), secret, now)
        } else {
            Err(invalid_header())
        },
    }
}

pub open spec fn middleware_result(r: Result<JwtMiddleware, AppError>) -> Result<(int, int), ErrorView> {
    match r {
        Ok(m) => Ok((m.claims.sub as int, m.claims.exp as int)),
        Err(e) => Err(e@),
    }
}

/// Signs a token for user `sub`, issued at `now`, that expires a day later.
pub fn generate_token_at(sub: i32, jwt_secret: &str, now: i64) -> (r: Result<String, AppError>)
    ensures
        match r {
            Ok(t) => issued_at(t@, sub as int, jwt_secret@, now as int),
            Err(e) => !expiry_fits(now as int) && e@ == token_failed(),
        },
{
    if now < -TOKEN_LIFETIME || now > i64::MAX - TOKEN_LIFETIME {
        return Err(AppError::Internal("Failed to create token".to_owned()));
    }
    match sign_claims(sub as i64, now + TOKEN_LIFETIME, jwt_secret) {
        Some(t) => Ok(t),
        None => Err(AppError::Internal("Failed to create token".to_owned())),
    }
}

/// Signs a token for `user`, issued now, that expires a day later.
pub fn generate_token(user: crate::user::UserResult, jwt_secret: &str) -> (r: Result<
    String,
    AppError,
>)
    ensures
        match r {
            Ok(t) => exists|now: int| #[trigger] issued_at(t@, user.id as int, jwt_secret@, now),
            Err(e) => e@ == token_failed(),
        },
{
    let now = now_timestamp();
    let r = generate_token_at(user.id, jwt_secret, now);
    if let Ok(t) = &r {
        assert(issued_at(t@, user.id as int, jwt_secret@, now as int));
    }
    r
}

/// Turns what a token decoded to into its claims, if they are accepted at
/// time `now`.
pub fn check_claims(decoded: Option<(i64, i64)>, now: i64) -> (r: Result<Claims, AppError>)
    ensures
        match accepted_claims(
            match decoded {
                Some((s, e)) => Some((s as int, e as int)),
                None => None,
            },
            now as int,
        ) {
            Some((s, e)) => r matches Ok(c) && c.sub as int == s && c.exp as int == e,
            None => r matches Err(e) && e@ == invalid_token(),
        },
{
    match decoded {
        Some((s, e)) => {
            if i32::MIN as i64 <= s && s <= i32::MAX as i64 && 0 <= e && (e as u64) <= (
            usize::MAX as u64) && now <= e {
                Ok(Claims { sub: s as i32, exp: e as usize })
            } else {
                Err(AppError::Unauthorized("Invalid token".to_owned()))
            }
        },
        None => Err(AppError::Unauthorized("Invalid token".to_owned())),
    }
}

/// Checks the signature of `token` under `jwt_secret` and its expiry at
/// time `now`. Forged, malformed and expired tokens are not told apart.
pub fn validate_token_at(token: &str, jwt_secret: &str, now: i64) -> (r: Result<Claims, AppError>)
    ensures
        claims_result(r) == validation(token@, jwt_secret@, now as int),
{
    check_claims(decode_claims(token, jwt_secret), now)
}

/// Checks the signature of `token` under `jwt_secret` and its expiry now.
pub fn validate_token(token: &str, jwt_secret: &str) -> (r: Result<Claims, AppError>)
    ensures
        exists|now: int| #[trigger] validation(token@, jwt_secret@, now) == claims_result(r),
{
    let now = now_timestamp();
    let r = validate_token_at(token, jwt_secret, now);
    assert(validation(token@, jwt_secret@, now as int) == claims_result(r));
    r
}

/// The token of a `Bearer` header.
pub fn bearer_token(header: &AuthHeader) -> (r: Result<String, AppError>)
    ensures
        match header {
            AuthHeader::Missing => r matches Err(e) && e@ == missing_header(),
            AuthHeader::Unreadable => r matches Err(e) && e@ == invalid_header(),
            AuthHeader::Value(v) => if "Bearer "@.is_prefix_of(v@) {
                r matches Ok(t) && v@ == "Bearer "@ + t@
            } else {
                r matches Err(e) && e@ == invalid_header()
            },
        },
{
    match header {
        AuthHeader::Missing => Err(AppError::Unauthorized("Missing Authorization header".to_owned())),
        AuthHeader::Unreadable => Err(
            AppError::Unauthorized("Invalid Authorization header".to_owned()),
        ),
        AuthHeader::Value(v) => match strip_prefix(v.as_str(), "Bearer ") {
            Some(t) => Ok(t),
            None => Err(AppError::Unauthorized("Invalid Authorization header".to_owned())),
        },
    }
}

impl JwtMiddleware {
    /// Authenticates a request by its `Authorization` header at time `now`.
    pub fn from_header_at(header: &AuthHeader, jwt_secret: &str, now: i64) -> (r: Result<
        JwtMiddleware,
        AppError,
    >)
        ensures
            middleware_result(r) == authentication(*header, jwt_secret@, now as int),
    {
        let token = bearer_token(header)?;
        proof {
            reveal_strlit("Bearer ");
            if let AuthHeader::Value(v) = header {
                assert(v@.skip(7) =~= token@);
            }
        }
        let claims = validate_token_at(token.as_str(), jwt_secret, now)?;
        Ok(JwtMiddleware { claims })
    }

    /// Authenticates a request by its `Authorization` header now. A missing
    /// or non-bearer header fails whatever the time.
    pub fn from_header(header: &AuthHeader, jwt_secret: &str) -> (r: Result<JwtMiddleware, AppError>)
        ensures
            exists|now: int| #[trigger] authentication(*header, jwt_secret@, now) == middleware_result(r),
    {
        let now = now_timestamp();
        let r = Self::from_header_at(header, jwt_secret, now);
        assert(authentication(*header, jwt_secret@, now as int) == middleware_result(r));
        r
    }
}

} // verus!
