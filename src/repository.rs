use vstd::prelude::*;
use crate::error::{AppError, ErrorView};
use crate::user::{has_id, has_username, StoredUser, User, UserRepository, UserResult};

verus! {

/// The largest id in `s`, or 0 when there is none above 0.
pub open spec fn max_id(s: Seq<StoredUser>) -> int
    decreases s.len(),
{
    if s.len() == 0 {
        0
    } else {
        let m = max_id(s.drop_last());
        if s.last().id > m {
            s.last().id
        } else {
            m
        }
    }
}

/// A store held in memory. Each new user gets one more than the largest id
/// in the store (1 for the first), as a serial column would.
pub struct InMemoryUserRepository {
    users: Vec<UserResult>,
}

impl InMemoryUserRepository {
    /// An empty store.
    pub fn new() -> (r: InMemoryUserRepository)
        ensures
            r.records() == Seq::<StoredUser>::empty(),
    {
        let r = InMemoryUserRepository { users: Vec::new() };
        assert(r.records() =~= Seq::<StoredUser>::empty());
        r
    }

    /// How many users the store holds.
    pub fn len(&self) -> (r: usize)
        ensures
            r == self.records().len(),
    {
        self.users.len()
    }

    /// The largest id in the store, or 0.
    fn largest_id(&self) -> (r: i32)
        ensures
            r == max_id(self.records()),
            r >= 0,
            forall|j: int| 0 <= j < self.records().len() ==> self.records()[j].id <= r,
    {
        let mut top: i32 = 0;
        let mut i: usize = 0;
        while i < self.users.len()
            invariant
                i <= self.users@.len(),
                top >= 0,
                top == max_id(self.records().subrange(0, i as int)),
                forall|j: int| 0 <= j < i ==> self.records()[j].id <= top,
            decreases self.users@.len() - i,
        {
            assert(self.records().subrange(0, i as int + 1).drop_last() =~= self.records().subrange(
                0,
                i as int,
            ));
            if self.users[i].id > top {
                top = self.users[i].id;
            }
            i = i + 1;
        }
        assert(self.records().subrange(0, i as int) =~= self.records());
        top
    }

    /// The index of the first user named `name`, if any.
    pub fn position_of(&self, name: &str) -> (r: Option<usize>)
        ensures
            match r {
                Some(i) => i < self.records().len() && self.records()[i as int].username == name@
                    && forall|j: int| 0 <= j < i ==> self.records()[j].username != name@,
                None => !has_username(self.records(), name@),
            },
    {
        let owned = name.to_owned();
        let mut i: usize = 0;
        while i < self.users.len()
            invariant
                i <= self.users@.len(),
                owned@ == name@,
                forall|j: int| 0 <= j < i ==> self.records()[j].username != name@,
            decreases self.users@.len() - i,
        {
            if self.users[i].username == owned {
                return Some(i);
            }
            i = i + 1;
        }
        None
    }

    /// The index of the first user with id `id`, if any.
    pub fn position_of_id(&self, id: i32) -> (r: Option<usize>)
        ensures
            match r {
                Some(i) => i < self.records().len() && self.records()[i as int].id == id as int
                    && forall|j: int| 0 <= j < i ==> self.records()[j].id != id as int,
                None => !has_id(self.records(), id as int),
            },
    {
        let mut i: usize = 0;
        while i < self.users.len()
            invariant
                i <= self.users@.len(),
                forall|j: int| 0 <= j < i ==> self.records()[j].id != id as int,
            decreases self.users@.len() - i,
        {
            if self.users[i].id == id {
                return Some(i);
            }
            i = i + 1;
        }
        None
    }

    /// The user at index `i`.
    pub fn get(&self, i: usize) -> (r: UserResult)
        requires
            i < self.records().len(),
        ensures
            r@ == self.records()[i as int],
    {
        self.users[i].copy()
    }

    /// Adds `username` with `password_hash` under the next id. A taken
    /// username is a `Conflict`; a store whose ids have run out refuses.
    pub fn insert(&mut self, username: &str, password_hash: &str) -> (r: Result<User, AppError>)
        ensures
            has_username(old(self).records(), username@) ==> (r matches Err(e) && e@
                == ErrorView::Conflict("Username already exists"@) && final(self).records() == old(
                self,
            ).records()),
            !has_username(old(self).records(), username@) && max_id(old(self).records())
                >= i32::MAX ==> (r matches Err(e) && e@ == ErrorView::Internal(
                "Failed to create user"@,
            ) && final(self).records() == old(self).records()),
            !has_username(old(self).records(), username@) && max_id(old(self).records())
                < i32::MAX ==> (r matches Ok(u) && u.id == max_id(old(self).records()) + 1
                && u.username@ == username@ && final(self).records() == old(self).records().push(
                StoredUser {
                    id: max_id(old(self).records()) + 1,
                    username: username@,
                    password_hash: password_hash@,
                },
            )),
    {
        let ghost before = self.records();
        match self.position_of(username) {
            Some(_) => Err(AppError::Conflict("Username already exists".to_owned())),
            None => {
                let top = self.largest_id();
                if top == i32::MAX {
                    return Err(AppError::Internal("Failed to create user".to_owned()));
                }
                let id: i32 = top + 1;
                let record = UserResult {
                    id,
                    username: username.to_owned(),
                    password_hash: password_hash.to_owned(),
                };
                self.users.push(record);
                assert(self.records() =~= before.push(
                    StoredUser { id: id as int, username: username@, password_hash: password_hash@ },
                ));
                Ok(User { id, username: username.to_owned() })
            },
        }
    }
}

impl UserRepository for InMemoryUserRepository {
    closed spec fn records(&self) -> Seq<StoredUser> {
        self.users@.map_values(|u: UserResult| u@)
    }

    fn create_user(&mut self, username: &str, password_hash: &str) -> (r: Result<User, AppError>) {
        let ghost before = self.records();
        let r = self.insert(username, password_hash);
        proof {
            if r is Ok {
                assert forall|j: int| 0 <= j < before.len() implies before[j].id <= max_id(before) by {
                    lemma_max_id_bounds(before, j);
                }
            }
        }
        r
    }

    fn find_by_username(&self, username: &str) -> (r: Result<Option<UserResult>, AppError>) {
        match self.position_of(username) {
            Some(i) => Ok(Some(self.get(i))),
            None => Ok(None),
        }
    }

    fn find_by_id(&self, user_id: i32) -> (r: Result<Option<User>, AppError>) {
        match self.position_of_id(user_id) {
            Some(i) => {
                let u = self.get(i).to_user();
                assert(self.records()[i as int].public() == u@);
                Ok(Some(u))
            },
            None => Ok(None),
        }
    }
}

/// Every id in `s` is at most `max_id(s)`.
proof fn lemma_max_id_bounds(s: Seq<StoredUser>, j: int)
    requires
        0 <= j < s.len(),
    ensures
        s[j].id <= max_id(s),
    decreases s.len(),
{
    if j < s.len() - 1 {
        lemma_max_id_bounds(s.drop_last(), j);
    }
}

} // verus!
