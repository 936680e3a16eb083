//! The user table: its model, and the repository that keeps it in memory.

use crate::database::repository::{overflow_text, Repository};
use crate::error::{AppError, ErrorKind, ErrorView, Result};
use crate::models::user::{CreateUser, CreateUserView, User, UserView};
use crate::text::{clone_opt_text, str_eq};
use crate::time::Timestamp;
use vstd::prelude::*;
use vstd::string::*;

verus! {

/// The rows of the user table, oldest first.
pub type UserRows = Seq<UserView>;

/// Whether some user has the e-mail address.
pub open spec fn has_email(s: UserRows, email: Seq<char>) -> bool {
    exists|i: int| 0 <= i < s.len() && (#[trigger] s[i]).email == email
}

/// Whether some user has the identifier.
pub open spec fn has_user_id(s: UserRows, id: Seq<char>) -> bool {
    exists|i: int| 0 <= i < s.len() && (#[trigger] s[i]).id == id
}

/// The position of a user with the e-mail address, where there is one.
pub open spec fn email_index(s: UserRows, email: Seq<char>) -> int {
    choose|i: int| 0 <= i < s.len() && (#[trigger] s[i]).email == email
}

/// The position of a user with the identifier, where there is one.
pub open spec fn user_id_index(s: UserRows, id: Seq<char>) -> int {
    choose|i: int| 0 <= i < s.len() && (#[trigger] s[i]).id == id
}

/// The user with the e-mail address, if any.
pub open spec fn user_by_email(s: UserRows, email: Seq<char>) -> Option<UserView> {
    if has_email(s, email) {
        Some(s[email_index(s, email)])
    } else {
        None
    }
}

/// The user with the identifier, if any.
pub open spec fn user_by_id(s: UserRows, id: Seq<char>) -> Option<UserView> {
    if has_user_id(s, id) {
        Some(s[user_id_index(s, id)])
    } else {
        None
    }
}

/// The invariant of the table: no two users share an e-mail address or an
/// identifier.
pub open spec fn users_wf(s: UserRows) -> bool {
    forall|i: int, j: int|
        0 <= i < s.len() && 0 <= j < s.len() && i != j ==> (#[trigger] s[i]).email != (
        #[trigger] s[j]).email && s[i].id != s[j].id
}

/// The table without the user that has the identifier.
pub open spec fn without_user(s: UserRows, id: Seq<char>) -> UserRows {
    if has_user_id(s, id) {
        s.remove(user_id_index(s, id))
    } else {
        s
    }
}

/// The detail of the failure for an e-mail address that is taken.
pub open spec fn email_taken_text() -> Seq<char> {
    "UNIQUE constraint failed: users.email"@
}

/// The detail of the failure for a user identifier that is taken.
pub open spec fn user_id_taken_text() -> Seq<char> {
    "UNIQUE constraint failed: users.id"@
}

/// Why a user cannot be inserted, if it cannot: the e-mail address is
/// taken, or else the identifier is.
pub open spec fn user_insert_fault(s: UserRows, c: CreateUserView) -> Option<ErrorView> {
    if has_email(s, c.email) {
        Some(ErrorView { kind: ErrorKind::Database, detail: email_taken_text() })
    } else if has_user_id(s, c.id) {
        Some(ErrorView { kind: ErrorKind::Database, detail: user_id_taken_text() })
    } else {
        None
    }
}

/// The table after an attempt to insert a user at `now`.
pub open spec fn after_user_insert(s: UserRows, c: CreateUserView, now: Timestamp) -> UserRows {
    if user_insert_fault(s, c) is None {
        s.push(c.stored_at(now))
    } else {
        s
    }
}

/// The user that storing a copy of a row inserts.
pub open spec fn as_new_user(u: UserView) -> CreateUserView {
    CreateUserView { id: u.id, email: u.email, password_hash: u.password_hash, name: u.name }
}

/// In a well-formed table, the user at a position is the one found under
/// their e-mail address and under their identifier.
pub proof fn lemma_user_at(s: UserRows, i: int)
    requires
        users_wf(s),
        0 <= i < s.len(),
    ensures
        user_by_email(s, s[i].email) == Some(s[i]),
        user_by_id(s, s[i].id) == Some(s[i]),
        email_index(s, s[i].email) == i,
        user_id_index(s, s[i].id) == i,
{
    let email = s[i].email;
    let id = s[i].id;
    assert(s[i].email == email && s[i].id == id);
    let j = email_index(s, email);
    assert(0 <= j < s.len() && s[j].email == email);
    let k = user_id_index(s, id);
    assert(0 <= k < s.len() && s[k].id == id);
}

/// Appending a user whose e-mail address and identifier are new keeps the
/// table well-formed; the new user is found, and everybody else is found
/// as before.
pub proof fn lemma_push_user(s: UserRows, u: UserView)
    requires
        users_wf(s),
        !has_email(s, u.email),
        !has_user_id(s, u.id),
    ensures
        users_wf(s.push(u)),
        user_by_email(s.push(u), u.email) == Some(u),
        user_by_id(s.push(u), u.id) == Some(u),
        forall|email: Seq<char>|
            email != u.email ==> user_by_email(s.push(u), email) == user_by_email(s, email),
        forall|id: Seq<char>| id != u.id ==> user_by_id(s.push(u), id) == user_by_id(s, id),
{
    let t = s.push(u);
    assert forall|i: int, j: int| 0 <= i < t.len() && 0 <= j < t.len() && i != j implies (
    #[trigger] t[i]).email != (#[trigger] t[j]).email && t[i].id != t[j].id by {
        if i < s.len() {
            assert(t[i] == s[i]);
        }
        if j < s.len() {
            assert(t[j] == s[j]);
        }
    }
    assert(t[s.len() as int] == u);
    lemma_user_at(t, s.len() as int);
    assert forall|email: Seq<char>| email != u.email implies user_by_email(t, email)
        == user_by_email(s, email) by {
        if has_email(s, email) {
            let i = email_index(s, email);
            assert(t[i] == s[i]);
            lemma_user_at(t, i);
        } else if has_email(t, email) {
            let i = email_index(t, email);
            if i < s.len() {
                assert(t[i] == s[i]);
            }
            assert(false);
        }
    }
    assert forall|id: Seq<char>| id != u.id implies user_by_id(t, id) == user_by_id(s, id) by {
        if has_user_id(s, id) {
            let i = user_id_index(s, id);
            assert(t[i] == s[i]);
            lemma_user_at(t, i);
        } else if has_user_id(t, id) {
            let i = user_id_index(t, id);
            if i < s.len() {
                assert(t[i] == s[i]);
            }
            assert(false);
        }
    }
}

/// Removing a row keeps the table well-formed.
pub proof fn lemma_remove_user(s: UserRows, k: int)
    requires
        users_wf(s),
        0 <= k < s.len(),
    ensures
        users_wf(s.remove(k)),
        !has_user_id(s.remove(k), s[k].id),
{
    let t = s.remove(k);
    assert forall|i: int| 0 <= i < t.len() implies #[trigger] t[i] == s[if i < k {
        i
    } else {
        i + 1
    }] by {}
    assert forall|i: int, j: int| 0 <= i < t.len() && 0 <= j < t.len() && i != j implies (
    #[trigger] t[i]).email != (#[trigger] t[j]).email && t[i].id != t[j].id by {
        let a = if i < k {
            i
        } else {
            i + 1
        };
        let b = if j < k {
            j
        } else {
            j + 1
        };
        assert(t[i] == s[a] && t[j] == s[b]);
    }
    if has_user_id(t, s[k].id) {
        let i = user_id_index(t, s[k].id);
        let a = if i < k {
            i
        } else {
            i + 1
        };
        assert(t[i] == s[a]);
        assert(false);
    }
}

/// The models of a list of users.
pub open spec fn user_rows_of(v: Seq<User>) -> UserRows {
    Seq::new(v.len(), |i: int| v[i]@)
}

/// The model of an optional user.
pub open spec fn opt_user(o: Option<User>) -> Option<UserView> {
    match o {
        Some(u) => Some(u@),
        None => None,
    }
}

/// The users, in memory.
#[derive(Debug)]
pub struct UserRepository {
    users: Vec<User>,
}

impl View for UserRepository {
    type V = UserRows;

    closed spec fn view(&self) -> UserRows {
        user_rows_of(self.users@)
    }
}

/// The position of the user with the e-mail address, if any.
fn position_of_email(users: &Vec<User>, email: &str) -> (r: Option<usize>)
    ensures
        match r {
            Some(i) => i < users@.len() && users@[i as int]@.email == email@,
            None => !has_email(user_rows_of(users@), email@),
        },
{
    let mut i: usize = 0;
    while i < users.len()
        invariant
            i <= users@.len(),
            forall|j: int| 0 <= j < i ==> (#[trigger] user_rows_of(users@)[j]).email != email@,
        decreases users.len() - i,
    {
        if str_eq(users[i].email.as_str(), email) {
            return Some(i);
        }
        assert(user_rows_of(users@)[i as int] == users@[i as int]@);
        i += 1;
    }
    None
}

/// The position of the user with the identifier, if any.
fn position_of_user_id(users: &Vec<User>, id: &str) -> (r: Option<usize>)
    ensures
        match r {
            Some(i) => i < users@.len() && users@[i as int]@.id == id@,
            None => !has_user_id(user_rows_of(users@), id@),
        },
{
    let mut i: usize = 0;
    while i < users.len()
        invariant
            i <= users@.len(),
            forall|j: int| 0 <= j < i ==> (#[trigger] user_rows_of(users@)[j]).id != id@,
        decreases users.len() - i,
    {
        if str_eq(users[i].id.as_str(), id) {
            return Some(i);
        }
        assert(user_rows_of(users@)[i as int] == users@[i as int]@);
        i += 1;
    }
    None
}

impl UserRepository {
    #[verifier::type_invariant]
    closed spec fn inv(self) -> bool {
        users_wf(user_rows_of(self.users@))
    }

    /// Moves the rows out, leaving an empty table behind.
    fn take_rows(&mut self) -> (users: Vec<User>)
        ensures
            users == old(self).users,
            final(self).users@ == Seq::<User>::empty(),
    {
        let mut users: Vec<User> = Vec::new();
        assert(user_rows_of(users@) =~= UserRows::empty());
        std::mem::swap(&mut self.users, &mut users);
        users
    }

    /// An empty table.
    pub fn new() -> (r: Self)
        ensures
            r@ == UserRows::empty(),
    {
        let r = UserRepository { users: Vec::new() };
        assert(r@ =~= UserRows::empty());
        r
    }

    /// Nothing to do at run time; tells the caller that the table is
    /// well-formed.
    pub fn well_formed(&self)
        ensures
            users_wf(self@),
    {
        proof {
            use_type_invariant(self);
        }
    }

    /// The user with the e-mail address, if any.
    pub fn find_by_email(&self, email: &str) -> (r: Result<Option<User>>)
        ensures
            r is Ok,
            opt_user(r->Ok_0) == user_by_email(self@, email@),
    {
        proof {
            use_type_invariant(self);
        }
        match position_of_email(&self.users, email) {
            Some(i) => {
                proof {
                    assert(self@[i as int] == self.users@[i as int]@);
                    lemma_user_at(self@, i as int);
                }
                Ok(Some(self.users[i].clone()))
            },
            None => Ok(None),
        }
    }

    /// Whether some user has the e-mail address.
    pub fn email_exists(&self, email: &str) -> (r: Result<bool>)
        ensures
            r is Ok,
            r->Ok_0 == has_email(self@, email@),
    {
        match position_of_email(&self.users, email) {
            Some(i) => {
                assert(self@[i as int] == self.users@[i as int]@);
                Ok(true)
            },
            None => Ok(false),
        }
    }

    /// Inserts a user as active, with both time marks at `now`. Fails, and
    /// leaves the table as it is, when the e-mail address or the identifier
    /// is taken.
    pub fn create_at(&mut self, create_user: &CreateUser, now: Timestamp) -> (r: Result<User>)
        ensures
            final(self)@ == after_user_insert(old(self)@, create_user@, now),
            match user_insert_fault(old(self)@, create_user@) {
                Some(fault) => r is Err && r->Err_0@ == fault,
                None => r is Ok && r->Ok_0@ == create_user@.stored_at(now),
            },
    {
        proof {
            use_type_invariant(&*self);
        }
        if let Some(i) = position_of_email(&self.users, create_user.email.as_str()) {
            assert(self@[i as int] == self.users@[i as int]@);
            return Err(AppError::Database("UNIQUE constraint failed: users.email".to_string()));
        }
        if let Some(i) = position_of_user_id(&self.users, create_user.id.as_str()) {
            assert(self@[i as int] == self.users@[i as int]@);
            return Err(AppError::Database("UNIQUE constraint failed: users.id".to_string()));
        }
        let user = User {
            id: create_user.id.clone(),
            email: create_user.email.clone(),
            password_hash: create_user.password_hash.clone(),
            name: clone_opt_text(&create_user.name),
            is_active: true,
            created_at: now,
            updated_at: now,
        };
        let stored = user.clone();
        let mut users = self.take_rows();
        proof {
            lemma_push_user(old(self)@, user@);
            assert(user_rows_of(users@.push(user)) =~= old(self)@.push(user@));
        }
        users.push(user);
        self.users = users;
        Ok(stored)
    }

    /// Puts back a user as stored before, with their state and time marks.
    /// Fails, and leaves the table as it is, when the e-mail address or the
    /// identifier is taken.
    pub fn restore(&mut self, user: User) -> (r: Result<()>)
        ensures
            match user_insert_fault(old(self)@, as_new_user(user@)) {
                Some(fault) => r is Err && r->Err_0@ == fault && final(self)@ == old(self)@,
                None => r is Ok && final(self)@ == old(self)@.push(user@),
            },
    {
        proof {
            use_type_invariant(&*self);
        }
        if let Some(i) = position_of_email(&self.users, user.email.as_str()) {
            assert(self@[i as int] == self.users@[i as int]@);
            return Err(AppError::Database("UNIQUE constraint failed: users.email".to_string()));
        }
        if let Some(i) = position_of_user_id(&self.users, user.id.as_str()) {
            assert(self@[i as int] == self.users@[i as int]@);
            return Err(AppError::Database("UNIQUE constraint failed: users.id".to_string()));
        }
        let mut users = self.take_rows();
        proof {
            lemma_push_user(old(self)@, user@);
            assert(user_rows_of(users@.push(user)) =~= old(self)@.push(user@));
        }
        users.push(user);
        self.users = users;
        Ok(())
    }

    /// Inserts a user, timed by the system clock.
    pub fn create(&mut self, create_user: &CreateUser) -> (r: Result<User>)
        ensures
            exists|now: Timestamp|
                now.clock_range() && final(self)@ == after_user_insert(
                    old(self)@,
                    create_user@,
                    now,
                ) && (r is Ok ==> r->Ok_0@ == create_user@.stored_at(now)),
            match user_insert_fault(old(self)@, create_user@) {
                Some(fault) => r is Err && r->Err_0@ == fault,
                None => r is Ok,
            },
    {
        let now = Timestamp::now();
        self.create_at(create_user, now)
    }

    /// The user with the identifier, if any.
    pub fn find_user(&self, id: &str) -> (r: Option<User>)
        ensures
            opt_user(r) == user_by_id(self@, id@),
    {
        proof {
            use_type_invariant(self);
        }
        match position_of_user_id(&self.users, id) {
            Some(i) => {
                proof {
                    assert(self@[i as int] == self.users@[i as int]@);
                    lemma_user_at(self@, i as int);
                }
                Some(self.users[i].clone())
            },
            None => None,
        }
    }
}

impl Repository for UserRepository {
    type Entity = User;

    type Id = String;

    /// The user with the identifier, if any.
    fn find_by_id(&self, id: &String) -> (r: Result<Option<User>>)
        ensures
            r is Ok,
            opt_user(r->Ok_0) == user_by_id(self@, id@),
    {
        Ok(self.find_user(id.as_str()))
    }

    /// All users, newest first.
    fn find_all(&self) -> (r: Result<Vec<User>>)
        ensures
            r is Ok,
            user_rows_of(r->Ok_0@) == self@.reverse(),
    {
        let mut all: Vec<User> = Vec::new();
        let mut i: usize = self.users.len();
        while i > 0
            invariant
                i <= self.users@.len(),
                all@.len() == self.users@.len() - i,
                forall|k: int|
                    0 <= k < all@.len() ==> (#[trigger] all@[k])@ == self@[self@.len() - 1 - k],
            decreases i,
        {
            i -= 1;
            assert(self@[i as int] == self.users@[i as int]@);
            let user = self.users[i].clone();
            all.push(user);
        }
        assert(user_rows_of(all@) =~= self@.reverse());
        Ok(all)
    }

    /// Inserts a copy of the row as a new user, timed by the system clock.
    fn save(&mut self, entity: &User) -> (r: Result<User>)
        ensures
            exists|now: Timestamp|
                now.clock_range() && final(self)@ == after_user_insert(
                    old(self)@,
                    as_new_user(entity@),
                    now,
                ) && (r is Ok ==> r->Ok_0@ == as_new_user(entity@).stored_at(now)),
            match user_insert_fault(old(self)@, as_new_user(entity@)) {
                Some(fault) => r is Err && r->Err_0@ == fault,
                None => r is Ok,
            },
    {
        let create_user = CreateUser {
            id: entity.id.clone(),
            email: entity.email.clone(),
            password_hash: entity.password_hash.clone(),
            name: clone_opt_text(&entity.name),
        };
        self.create(&create_user)
    }

    /// Removes the user with the identifier and tells whether there was
    /// one.
    fn delete(&mut self, id: &String) -> (r: Result<bool>)
        ensures
            final(self)@ == without_user(old(self)@, id@),
            r is Ok,
            r->Ok_0 == has_user_id(old(self)@, id@),
    {
        proof {
            use_type_invariant(&*self);
        }
        match position_of_user_id(&self.users, id.as_str()) {
            Some(i) => {
                proof {
                    let s = old(self)@;
                    assert(s[i as int] == self.users@[i as int]@);
                    lemma_user_at(s, i as int);
                    lemma_remove_user(s, i as int);
                    assert(user_rows_of(self.users@.remove(i as int)) =~= s.remove(i as int));
                }
                let mut users = self.take_rows();
                users.remove(i);
                self.users = users;
                Ok(true)
            },
            None => Ok(false),
        }
    }

    /// Number of users. Fails with `Database` when it does not fit a 64-bit
    /// signed integer.
    fn count(&self) -> (r: Result<i64>)
        ensures
            match r {
                Ok(n) => n == self@.len(),
                Err(e) => e@ == (ErrorView { kind: ErrorKind::Database, detail: overflow_text() })
                    && self@.len() > i64::MAX,
            },
    {
        if self.users.len() as u64 > 0x7fff_ffff_ffff_ffff {
            return Err(AppError::Database("integer overflow".to_string()));
        }
        Ok(self.users.len() as i64)
    }
}

} // verus!
