use vstd::prelude::*;
use crate::error::ErrorView;
use crate::hasher::{hash_failed, password_verdict};
use crate::jwt::{
    expiry_at, expiry_fits, invalid_token, issued_at, signed_token, token_claims, validation,
};
use crate::service::{
    invalid_credentials, logged_in, login_verdict, registered, registration_outcome, LoginVerdict,
};
use crate::user::{found_by_id, found_by_username, has_username, StoredUser, UserView};

verus! {

/// In a store that grew by one record, a lookup of that record's username
/// finds that record, provided no earlier record had the name.
proof fn lemma_lookup_finds_new_record(
    before: Seq<StoredUser>,
    after: Seq<StoredUser>,
    name: Seq<char>,
    found: Option<StoredUser>,
)
    requires
        !has_username(before, name),
        after == before.push(after.last()),
        after.last().username == name,
        found_by_username(after, name, found),
    ensures
        found == Some(after.last()),
{
    let n = before.len() as int;
    match found {
        Some(u) => {
            let i = choose|i: int| 0 <= i < after.len() && after[i] == u;
            if i < n {
                assert(before[i].username == name);
            }
        },
        None => {
            assert(after[n].username == name);
        },
    }
}

/// After a successful registration, a login with the same username and
/// password at any time `now` (at which a token can be issued) succeeds with
/// the token for the new user, whose subject decodes to the new user's id.
pub proof fn lemma_registered_user_can_log_in(
    before: Seq<StoredUser>,
    after: Seq<StoredUser>,
    name: Seq<char>,
    password: Seq<char>,
    id: int,
    secret: Seq<char>,
    now: int,
    found: Option<StoredUser>,
    r: Result<Seq<char>, ErrorView>,
)
    requires
        registered(before, after, name, password, id),
        found_by_username(after, name, found),
        logged_in(found, password, secret, now, r),
        expiry_fits(now),
    ensures
        r matches Ok(t) && t == signed_token(id, expiry_at(now), secret) && token_claims(t, secret)
            == Some((id, expiry_at(now))),
{
    lemma_lookup_finds_new_record(before, after, name, found);
}

/// A second registration of a registered username fails and leaves the
/// store as it was: the store reports a `Conflict` (unless hashing the new
/// password failed first), and the original password still logs in.
pub proof fn lemma_duplicate_registration_rejected(
    s0: Seq<StoredUser>,
    s1: Seq<StoredUser>,
    s2: Seq<StoredUser>,
    name: Seq<char>,
    password: Seq<char>,
    id: int,
    other_password: Seq<char>,
    r: Result<UserView, ErrorView>,
    secret: Seq<char>,
    now: int,
    found: Option<StoredUser>,
    login: Result<Seq<char>, ErrorView>,
)
    requires
        registered(s0, s1, name, password, id),
        registration_outcome(s1, s2, name, other_password, r),
        found_by_username(s2, name, found),
        logged_in(found, password, secret, now, login),
        expiry_fits(now),
    ensures
        r matches Err(e) && (e is Conflict || e == hash_failed()),
        s2 == s1,
        login matches Ok(t) && token_claims(t, secret) == Some((id, expiry_at(now))),
{
    assert(s1[s0.len() as int].username == name);
    assert(has_username(s1, name));
    lemma_lookup_finds_new_record(s0, s1, name, found);
}

/// A login with a wrong password for a registered user fails with the same
/// error, kind and message, as a login with a username nobody has.
pub proof fn lemma_wrong_password_looks_like_unknown_user(
    s0: Seq<StoredUser>,
    s1: Seq<StoredUser>,
    name: Seq<char>,
    password: Seq<char>,
    id: int,
    wrong: Seq<char>,
    unknown: Seq<char>,
    any: Seq<char>,
    secret: Seq<char>,
    now1: int,
    now2: int,
    f1: Option<StoredUser>,
    f2: Option<StoredUser>,
    r1: Result<Seq<char>, ErrorView>,
    r2: Result<Seq<char>, ErrorView>,
)
    requires
        registered(s0, s1, name, password, id),
        password_verdict(wrong, s1.last().password_hash) == Some(false),
        !has_username(s1, unknown),
        found_by_username(s1, name, f1),
        logged_in(f1, wrong, secret, now1, r1),
        found_by_username(s1, unknown, f2),
        logged_in(f2, any, secret, now2, r2),
    ensures
        r1 == r2,
        r2 == Err::<Seq<char>, ErrorView>(invalid_credentials()),
{
    lemma_lookup_finds_new_record(s0, s1, name, f1);
}

/// A token issued for a registered user validates at any time from its
/// issue to its expiry, and its subject resolves to the user as registered.
/// (`Claims` keeps the expiry in a `usize`, so on a target where that is
/// narrower than the expiry the token is refused.)
pub proof fn lemma_fresh_token_resolves_profile(
    s0: Seq<StoredUser>,
    s1: Seq<StoredUser>,
    name: Seq<char>,
    password: Seq<char>,
    id: i32,
    secret: Seq<char>,
    token: Seq<char>,
    issued: int,
    now: int,
    found: Option<UserView>,
)
    requires
        registered(s0, s1, name, password, id as int),
        issued_at(token, id as int, secret, issued),
        issued <= now <= expiry_at(issued),
        expiry_at(issued) <= usize::MAX,
        found_by_id(s1, id as int, found),
    ensures
        validation(token, secret, now) == Ok::<(int, int), ErrorView>(
            (id as int, expiry_at(issued)),
        ),
        found == Some(UserView { id: id as int, username: name }),
{
    let n = s0.len() as int;
    match found {
        Some(u) => {
            let i = choose|i: int| 0 <= i < s1.len() && #[trigger] s1[i].public() == u;
            if i < n {
                assert(s0[i].id == id as int);
            }
        },
        None => {
            assert(s1[n].id == id as int);
        },
    }
}

/// A token whose expiry is in the past does not validate.
pub proof fn lemma_expired_token_rejected(
    token: Seq<char>,
    secret: Seq<char>,
    sub: int,
    exp: int,
    now: int,
)
    requires
        token_claims(token, secret) == Some((sub, exp)),
        exp < now,
    ensures
        validation(token, secret, now) == Err::<(int, int), ErrorView>(invalid_token()),
{
}

} // verus!
