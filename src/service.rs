use vstd::prelude::*;
use crate::auth::{LoginPayload, LoginResponse};
use crate::error::{AppError, ErrorView};
use crate::hasher::{
    bcrypt_shaped, hash_failed, hash_password, password_verdict, verification_failed,
    verify_password,
};
use crate::jwt::{
    expiry_at, expiry_fits, generate_token_at, now_timestamp, signed_token, token_claims,
    token_failed, validate_token_at, validation,
};
use crate::user::{
    found_by_id, found_by_username, has_id, has_username, id_lookup_failed, lookup_failed,
    result_view, StoredUser, User, UserRepository, UserResult, UserView,
};

verus! {

/// How a login attempt is decided, from the record found for the username.
pub enum LoginVerdict {
    /// No user has the username.
    Unknown,
    /// The stored hash is not a well-formed hash.
    Malformed,
    /// The password does not match.
    Mismatch,
    /// The password matches the user with this id.
    Accepted(int),
}

pub open spec fn login_verdict(found: Option<StoredUser>, password: Seq<char>) -> LoginVerdict {
    match found {
        None => LoginVerdict::Unknown,
        Some(u) => match password_verdict(password, u.password_hash) {
            None => LoginVerdict::Malformed,
            Some(false) => LoginVerdict::Mismatch,
            Some(true) => LoginVerdict::Accepted(u.id),
        },
    }
}

pub open spec fn invalid_credentials() -> ErrorView {
    ErrorView::Unauthorized("invalid username or password"@)
}

pub open spec fn user_not_found() -> ErrorView {
    ErrorView::NotFound("User not found"@)
}

/// The error a login attempt ends in before any token is signed, if any.
pub open spec fn login_error(v: LoginVerdict) -> Option<ErrorView> {
    match v {
        LoginVerdict::Unknown => Some(invalid_credentials()),
        LoginVerdict::Mismatch => Some(invalid_credentials()),
        LoginVerdict::Malformed => Some(verification_failed()),
        LoginVerdict::Accepted(_) => None,
    }
}

/// The result of a login decided on the record `found` at time `now`: the
/// text of the signed token, or the error.
pub open spec fn login_outcome(
    found: Option<StoredUser>,
    password: Seq<char>,
    secret: Seq<char>,
    now: int,
) -> Result<Seq<char>, ErrorView> {
    match login_verdict(found, password) {
        LoginVerdict::Accepted(id) => if expiry_fits(now) {
            Ok(signed_token(id, expiry_at(now), secret))
        } else {
            Err(token_failed())
        },
        v => Err(login_error(v).unwrap()),
    }
}

/// `r` is the result of a login decided on `found` at time `now`, and a
/// token in it decodes to the accepted user's id and an expiry a day later.
pub open spec fn logged_in(
    found: Option<StoredUser>,
    password: Seq<char>,
    secret: Seq<char>,
    now: int,
    r: Result<Seq<char>, ErrorView>,
) -> bool {
    &&& r == login_outcome(found, password, secret, now)
    &&& match (login_verdict(found, password), r) {
        (LoginVerdict::Accepted(id), Ok(t)) => token_claims(t, secret) == Some((id, expiry_at(now))),
        _ => true,
    }
}

/// The store after `after` is `before` with one new user `name` under `id`,
/// whose hash matches `password`.
pub open spec fn registered(
    before: Seq<StoredUser>,
    after: Seq<StoredUser>,
    name: Seq<char>,
    password: Seq<char>,
    id: int,
) -> bool {
    &&& !has_username(before, name)
    &&& !has_id(before, id)
    &&& after.len() == before.len() + 1
    &&& after == before.push(after.last())
    &&& after.last().id == id
    &&& after.last().username == name
    &&& password_verdict(password, after.last().password_hash) == Some(true)
    &&& bcrypt_shaped(after.last().password_hash)
}

/// What a registration of `name` with `password` may do to the store.
pub open spec fn registration_outcome(
    before: Seq<StoredUser>,
    after: Seq<StoredUser>,
    name: Seq<char>,
    password: Seq<char>,
    r: Result<UserView, ErrorView>,
) -> bool {
    match r {
        Ok(u) => u.username == name && registered(before, after, name, password, u.id),
        Err(e) => {
            &&& after == before
            &&& e is Conflict || e is Internal
            &&& e is Conflict ==> has_username(before, name)
            &&& has_username(before, name) ==> e is Conflict || e == hash_failed()
        },
    }
}

pub open spec fn found_view(found: Option<UserResult>) -> Option<StoredUser> {
    match found {
        Some(u) => Some(u@),
        None => None,
    }
}

pub open spec fn token_result(r: Result<LoginResponse, AppError>) -> Result<Seq<char>, ErrorView> {
    match r {
        Ok(resp) => Ok(resp.access_token@),
        Err(e) => Err(e@),
    }
}

/// Registers `username` with a fresh hash of `password`. A taken username
/// is the store's `Conflict`, passed on as it came.
pub fn create_user<R: UserRepository>(repo: &mut R, username: &str, password: &str) -> (r: Result<
    User,
    AppError,
>)
    ensures
        registration_outcome(
            old(repo).records(),
            final(repo).records(),
            username@,
            password@,
            result_view(r),
        ),
{
    let password_hash = hash_password(password)?;
    let r = repo.create_user(username, password_hash.as_str());
    proof {
        if let Ok(u) = &r {
            assert(final(repo).records().last() == StoredUser {
                id: u.id as int,
                username: username@,
                password_hash: password_hash@,
            });
        }
    }
    r
}

/// The error for a failed insert into the store: a uniqueness violation is
/// a `Conflict`, anything else an internal error.
pub fn creation_error(unique_violation: bool) -> (r: AppError)
    ensures
        r@ == if unique_violation {
            ErrorView::Conflict("Username already exists"@)
        } else {
            ErrorView::Internal("Failed to create user"@)
        },
{
    if unique_violation {
        AppError::Conflict("Username already exists".to_owned())
    } else {
        AppError::Internal("Failed to create user".to_owned())
    }
}

/// Decides a login from the record found for the username, signing the
/// token at time `now`. An unknown username and a wrong password give the
/// same error.
pub fn authenticate(found: Option<UserResult>, password: &str, jwt_secret: &str, now: i64) -> (r:
    Result<LoginResponse, AppError>)
    ensures
        logged_in(found_view(found), password@, jwt_secret@, now as int, token_result(r)),
{
    let user = match found {
        Some(u) => u,
        None => {
            return Err(AppError::Unauthorized("invalid username or password".to_owned()));
        },
    };
    let is_valid = verify_password(password, user.password_hash.as_str())?;
    if !is_valid {
        return Err(AppError::Unauthorized("invalid username or password".to_owned()));
    }
    let access_token = generate_token_at(user.id, jwt_secret, now)?;
    Ok(LoginResponse { access_token })
}

/// Logs in with the payload's username and password; the token is signed
/// with `jwt_secret` and expires a day after now. Only a failed lookup in
/// the store keeps the login from being decided on the stored record.
pub fn login_user<R: UserRepository>(repo: &R, payload: &LoginPayload, jwt_secret: &str) -> (r:
    Result<LoginResponse, AppError>)
    ensures
        r matches Err(e) && e@ == lookup_failed() || exists|found: Option<StoredUser>, now: int|
            found_by_username(repo.records(), payload.username@, found) && #[trigger] logged_in(
                found,
                payload.password@,
                jwt_secret@,
                now,
                token_result(r),
            ),
{
    let found = repo.find_by_username(payload.username.as_str())?;
    let ghost fv = found_view(found);
    let now = now_timestamp();
    let r = authenticate(found, payload.password.as_str(), jwt_secret, now);
    assert(found_by_username(repo.records(), payload.username@, fv));
    assert(logged_in(fv, payload.password@, jwt_secret@, now as int, token_result(r)));
    r
}

/// The user found for an authenticated id; none is `NotFound`.
pub fn profile_from_record(found: Option<User>) -> (r: Result<User, AppError>)
    ensures
        match found {
            Some(u) => r matches Ok(v) && v@ == u@,
            None => r matches Err(e) && e@ == user_not_found(),
        },
{
    match found {
        Some(u) => Ok(u),
        None => Err(AppError::NotFound("User not found".to_owned())),
    }
}

/// The user with id `user_id`.
pub fn find_user_by_id<R: UserRepository>(repo: &R, user_id: i32) -> (r: Result<User, AppError>)
    ensures
        match r {
            Ok(u) => found_by_id(repo.records(), user_id as int, Some(u@)),
            Err(e) => e@ == id_lookup_failed() || (e@ == user_not_found() && !has_id(
                repo.records(),
                user_id as int,
            )),
        },
{
    let found = repo.find_by_id(user_id)?;
    profile_from_record(found)
}

/// The profile of the bearer of `token`, validated at time `now`.
pub fn get_profile_at<R: UserRepository>(repo: &R, token: &str, jwt_secret: &str, now: i64) -> (r:
    Result<User, AppError>)
    ensures
        match validation(token@, jwt_secret@, now as int) {
            Err(e) => r matches Err(f) && f@ == e,
            Ok((sub, _)) => match r {
                Ok(u) => found_by_id(repo.records(), sub, Some(u@)),
                Err(e) => e@ == id_lookup_failed() || (e@ == user_not_found() && !has_id(
                    repo.records(),
                    sub,
                )),
            },
        },
{
    let claims = validate_token_at(token, jwt_secret, now)?;
    find_user_by_id(repo, claims.sub)
}

} // verus!
