use vstd::prelude::*;
use crate::error::{AppError, ErrorView};

verus! {

/// A user as the outside world sees it: never carries the hash.
#[derive(Debug)]
pub struct User {
    pub id: i32,
    pub username: String,
}

/// A user together with the stored password hash.
#[derive(Debug)]
pub struct UserResult {
    pub id: i32,
    pub username: String,
    pub password_hash: String,
}

/// The public part of a user, as mathematical values.
pub struct UserView {
    pub id: int,
    pub username: Seq<char>,
}

/// One record of the store, as mathematical values.
pub struct StoredUser {
    pub id: int,
    pub username: Seq<char>,
    pub password_hash: Seq<char>,
}

impl View for User {
    type V = UserView;

    open spec fn view(&self) -> UserView {
        UserView { id: self.id as int, username: self.username@ }
    }
}

impl View for UserResult {
    type V = StoredUser;

    open spec fn view(&self) -> StoredUser {
        StoredUser {
            id: self.id as int,
            username: self.username@,
            password_hash: self.password_hash@,
        }
    }
}

impl StoredUser {
    /// The record without its hash.
    pub open spec fn public(self) -> UserView {
        UserView { id: self.id, username: self.username }
    }
}

impl User {
    pub fn copy(&self) -> (r: User)
        ensures
            r@ == self@,
    {
        User { id: self.id, username: self.username.clone() }
    }
}

impl UserResult {
    pub fn copy(&self) -> (r: UserResult)
        ensures
            r@ == self@,
    {
        UserResult {
            id: self.id,
            username: self.username.clone(),
            password_hash: self.password_hash.clone(),
        }
    }

    /// The user without the hash.
    pub fn to_user(&self) -> (r: User)
        ensures
            r@ == self@.public(),
    {
        User { id: self.id, username: self.username.clone() }
    }
}

pub open spec fn has_username(s: Seq<StoredUser>, name: Seq<char>) -> bool {
    exists|i: int| 0 <= i < s.len() && #[trigger] s[i].username == name
}

pub open spec fn has_id(s: Seq<StoredUser>, id: int) -> bool {
    exists|i: int| 0 <= i < s.len() && #[trigger] s[i].id == id
}

/// `found` is what a lookup of `name` in `s` may answer.
pub open spec fn found_by_username(
    s: Seq<StoredUser>,
    name: Seq<char>,
    found: Option<StoredUser>,
) -> bool {
    match found {
        Some(u) => u.username == name && s.contains(u),
        None => !has_username(s, name),
    }
}

/// `found` is what a lookup of `id` in `s` may answer.
pub open spec fn found_by_id(s: Seq<StoredUser>, id: int, found: Option<UserView>) -> bool {
    match found {
        Some(u) => u.id == id && exists|i: int| 0 <= i < s.len() && #[trigger] s[i].public() == u,
        None => !has_id(s, id),
    }
}

/// What the store may do on a request to create `name` with `hash`.
pub open spec fn creation_outcome(
    before: Seq<StoredUser>,
    after: Seq<StoredUser>,
    name: Seq<char>,
    hash: Seq<char>,
    r: Result<UserView, ErrorView>,
) -> bool {
    match r {
        Ok(u) => !has_username(before, name) && !has_id(before, u.id) && u.username == name
            && after == before.push(StoredUser { id: u.id, username: name, password_hash: hash }),
        Err(e) => {
            &&& after == before
            &&& e is Conflict || e is Internal
            &&& e is Conflict <==> has_username(before, name)
        },
    }
}

/// The error of a store that could not look a username up.
pub open spec fn lookup_failed() -> ErrorView {
    ErrorView::Internal("Failed to query user by username"@)
}

/// The error of a store that could not look an id up.
pub open spec fn id_lookup_failed() -> ErrorView {
    ErrorView::Internal("Failed to query user"@)
}

pub open spec fn result_view(r: Result<User, AppError>) -> Result<UserView, ErrorView> {
    match r {
        Ok(u) => Ok(u@),
        Err(e) => Err(e@),
    }
}

/// The store of users that the services work on. Creation and both lookups
/// are stated over `records`, the store's contents in order of creation.
pub trait UserRepository {
    spec fn records(&self) -> Seq<StoredUser>;

    /// Adds a user; a taken username is a `Conflict`.
    fn create_user(&mut self, username: &str, password_hash: &str) -> (r: Result<User, AppError>)
        ensures
            creation_outcome(
                old(self).records(),
                final(self).records(),
                username@,
                password_hash@,
                result_view(r),
            ),
    ;

    /// The user with this username and its hash, if there is one.
    fn find_by_username(&self, username: &str) -> (r: Result<Option<UserResult>, AppError>)
        ensures
            match r {
                Ok(found) => found_by_username(
                    self.records(),
                    username@,
                    match found {
                        Some(u) => Some(u@),
                        None => None,
                    },
                ),
                Err(e) => e@ == lookup_failed(),
            },
    ;

    /// The user with this id, if there is one.
    fn find_by_id(&self, user_id: i32) -> (r: Result<Option<User>, AppError>)
        ensures
            match r {
                Ok(found) => found_by_id(
                    self.records(),
                    user_id as int,
                    match found {
                        Some(u) => Some(u@),
                        None => None,
                    },
                ),
                Err(e) => e@ == id_lookup_failed(),
            },
    ;
}

} // verus!
