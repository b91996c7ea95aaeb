//! User accounts: registration state, email uniqueness, verification.
//!
//! A user is created at registration with a hashed password and an
//! unverified email; the only mutations in scope are the verification
//! flip and a password reset.  Emails are unique across the store, as the
//! backing store's unique index enforces; users are never deleted.

use vstd::prelude::*;

use crate::error::{AppError, BadRequestError};
use crate::hashing::argon2_digest_wf;

verus! {

/// A stored user account.
pub struct UserCollection {
    /// The record id; ids are assigned densely in insertion order.
    pub id: u64,
    /// The display name.
    pub name: String,
    /// The unique email address.
    pub email: String,
    /// The Argon2 digest of the password.
    pub hashed_password: String,
    /// Whether the email address has been verified.
    pub is_verified: bool,
    /// The registration instant, as a Unix timestamp.
    pub created_at: i64,
}

/// The mathematical image of a stored user.
pub struct UserModel {
    /// The record id.
    pub id: u64,
    /// The display name.
    pub name: Seq<char>,
    /// The unique email address.
    pub email: Seq<char>,
    /// The digest of the password.
    pub hashed_password: Seq<char>,
    /// Whether the email address has been verified.
    pub is_verified: bool,
    /// The registration instant.
    pub created_at: i64,
}

impl View for UserCollection {
    type V = UserModel;

    open spec fn view(&self) -> UserModel {
        UserModel {
            id: self.id,
            name: self.name@,
            email: self.email@,
            hashed_password: self.hashed_password@,
            is_verified: self.is_verified,
            created_at: self.created_at,
        }
    }
}

/// Whether some user has the given email.
pub open spec fn has_user_with_email(users: Seq<UserModel>, email: Seq<char>) -> bool {
    exists|i: int| 0 <= i < users.len() && #[trigger] users[i].email == email
}

/// The user with the given email; meaningful when emails are unique.
pub open spec fn user_with_email(users: Seq<UserModel>, email: Seq<char>) -> UserModel {
    users[choose|i: int| 0 <= i < users.len() && #[trigger] users[i].email == email]
}

/// The store of user accounts.  Ids equal insertion positions, emails are
/// unique, and every stored password digest is well-formed.
pub struct UserStore {
    users: Vec<UserCollection>,
}

/// The user images of a sequence of stored users.
pub open spec fn user_views(users: Seq<UserCollection>) -> Seq<UserModel> {
    Seq::new(users.len(), |i: int| users[i]@)
}

impl View for UserStore {
    type V = Seq<UserModel>;

    closed spec fn view(&self) -> Seq<UserModel> {
        user_views(self.users@)
    }
}

/// The store invariant: dense ids, unique emails, well-formed digests.
pub open spec fn users_wf(users: Seq<UserModel>) -> bool {
    &&& forall|i: int| 0 <= i < users.len() ==> (#[trigger] users[i].id) == i
    &&& forall|i: int, j: int|
        0 <= i < users.len() && 0 <= j < users.len() && i != j ==> (#[trigger] users[i].email)
            != (#[trigger] users[j].email)
    &&& forall|i: int|
        0 <= i < users.len() ==> argon2_digest_wf(#[trigger] users[i].hashed_password)
}

impl UserStore {
    /// The store's invariant.
    pub open spec fn wf(&self) -> bool {
        users_wf(self@)
    }

    /// An empty store.
    pub fn new() -> (r: UserStore)
        ensures
            r.wf(),
            r@.len() == 0,
    {
        let r = UserStore { users: Vec::new() };
        proof {
            assert(r@ =~= Seq::<UserModel>::empty());
        }
        r
    }

    /// How many users are registered.
    pub fn len(&self) -> (r: usize)
        ensures
            r == self@.len(),
    {
        self.users.len()
    }

    fn index_of_email(&self, email: &str) -> (r: Option<usize>)
        ensures
            match r {
                Some(i) => i < self@.len() && self@[i as int].email == email@,
                None => !has_user_with_email(self@, email@),
            },
    {
        let email_owned = String::from_str(email);
        let n = self.users.len();
        let mut k: usize = 0;
        while k < n
            invariant
                email_owned@ == email@,
                n == self@.len(),
                k <= n,
                forall|j: int| 0 <= j < k ==> (#[trigger] self@[j].email) != email@,
            decreases n - k,
        {
            let candidate = &self.users[k];
            if candidate.email == email_owned {
                proof {
                    assert(self@[k as int] == self.users@[k as int]@);
                }
                return Some(k);
            }
            k += 1;
        }
        None
    }

    /// The user with the given email, if any.
    pub fn user_by_email(&self, email: &str) -> (r: Option<&UserCollection>)
        requires
            self.wf(),
        ensures
            match r {
                Some(u) => has_user_with_email(self@, email@) && u@ == user_with_email(
                    self@,
                    email@,
                ),
                None => !has_user_with_email(self@, email@),
            },
    {
        match self.index_of_email(email) {
            Some(i) => {
                proof {
                    lemma_user_with_email_unique(self@, email@, i as int);
                    assert(self@[i as int] == self.users@[i as int]@);
                }
                Some(&self.users[i])
            },
            None => None,
        }
    }

    /// The user with the given id, if any; ids are dense, so the id is
    /// the position.
    pub fn user_by_id(&self, user_id: u64) -> (r: Option<&UserCollection>)
        requires
            self.wf(),
        ensures
            match r {
                Some(u) => user_id < self@.len() && u@ == self@[user_id as int],
                None => user_id >= self@.len(),
            },
    {
        if user_id < self.users.len() as u64 {
            let i = user_id as usize;
            proof {
                assert(self@[i as int] == self.users@[i as int]@);
            }
            Some(&self.users[i])
        } else {
            None
        }
    }

    /// Inserts a freshly registered, unverified user; a duplicate email is
    /// refused, as the unique index would refuse it.  Returns the new id.
    pub fn insert_user(
        &mut self,
        name: &str,
        email: &str,
        hashed_password: String,
        now: i64,
    ) -> (r: Result<u64, AppError>)
        requires
            old(self).wf(),
            old(self)@.len() < u64::MAX,
            argon2_digest_wf(hashed_password@),
        ensures
            final(self).wf(),
            r == Err::<u64, AppError>(AppError::BadRequest(BadRequestError::DuplicateEmail))
                <==> has_user_with_email(old(self)@, email@),
            r is Err ==> final(self)@ == old(self)@ && r == Err::<u64, AppError>(
                AppError::BadRequest(BadRequestError::DuplicateEmail),
            ),
            r matches Ok(id) ==> {
                &&& id == old(self)@.len()
                &&& final(self)@ == old(self)@.push(
                    UserModel {
                        id: (old(self)@.len() as u64),
                        name: name@,
                        email: email@,
                        hashed_password: hashed_password@,
                        is_verified: false,
                        created_at: now,
                    },
                )
            },
    {
        if let Some(_) = self.index_of_email(email) {
            return Err(AppError::BadRequest(BadRequestError::DuplicateEmail));
        }
        let id = self.users.len() as u64;
        let user = UserCollection {
            id,
            name: String::from_str(name),
            email: String::from_str(email),
            hashed_password,
            is_verified: false,
            created_at: now,
        };
        let ghost pre = self@;
        let ghost userv = user@;
        self.users.push(user);
        proof {
            assert(self@ =~= pre.push(userv));
            lemma_push_user_wf(pre, userv);
        }
        Ok(id)
    }

    /// Marks the user's email verified; every other field and user is
    /// unchanged.
    pub fn set_verified(&mut self, user_id: u64) -> (r: Result<(), AppError>)
        requires
            old(self).wf(),
        ensures
            final(self).wf(),
            r is Ok <==> user_id < old(self)@.len(),
            r is Err ==> final(self)@ == old(self)@ && r == Err::<(), AppError>(
                AppError::BadRequest(BadRequestError::NoSuchUser),
            ),
            r is Ok ==> final(self)@ == old(self)@.update(
                user_id as int,
                UserModel { is_verified: true, ..old(self)@[user_id as int] },
            ),
    {
        if user_id >= self.users.len() as u64 {
            return Err(AppError::BadRequest(BadRequestError::NoSuchUser));
        }
        let i = user_id as usize;
        let ghost pre = self@;
        let old_user = self.users.remove(i);
        let new_user = UserCollection { is_verified: true, ..old_user };
        self.users.insert(i, new_user);
        proof {
            assert(self@ =~= pre.update(
                user_id as int,
                UserModel { is_verified: true, ..pre[user_id as int] },
            ));
            lemma_update_user_wf(pre, user_id as int, self@[user_id as int]);
        }
        Ok(())
    }

    /// Replaces the user's password digest; every other field and user is
    /// unchanged.
    pub fn set_password(&mut self, user_id: u64, hashed_password: String) -> (r: Result<
        (),
        AppError,
    >)
        requires
            old(self).wf(),
            argon2_digest_wf(hashed_password@),
        ensures
            final(self).wf(),
            r is Ok <==> user_id < old(self)@.len(),
            r is Err ==> final(self)@ == old(self)@ && r == Err::<(), AppError>(
                AppError::BadRequest(BadRequestError::NoSuchUser),
            ),
            r is Ok ==> final(self)@ == old(self)@.update(
                user_id as int,
                UserModel { hashed_password: hashed_password@, ..old(self)@[user_id as int] },
            ),
    {
        if user_id >= self.users.len() as u64 {
            return Err(AppError::BadRequest(BadRequestError::NoSuchUser));
        }
        let i = user_id as usize;
        let ghost pre = self@;
        let ghost hashedv = hashed_password@;
        let old_user = self.users.remove(i);
        let new_user = UserCollection { hashed_password, ..old_user };
        self.users.insert(i, new_user);
        proof {
            assert(self@ =~= pre.update(
                user_id as int,
                UserModel { hashed_password: hashedv, ..pre[user_id as int] },
            ));
            lemma_update_user_wf(pre, user_id as int, self@[user_id as int]);
        }
        Ok(())
    }
}

/// Under email uniqueness, any index whose user has the email holds
/// exactly the user `user_with_email` denotes.
pub proof fn lemma_user_with_email_unique(users: Seq<UserModel>, email: Seq<char>, i: int)
    requires
        users_wf(users),
        0 <= i < users.len(),
        users[i].email == email,
    ensures
        has_user_with_email(users, email),
        user_with_email(users, email) == users[i],
{
    assert(has_user_with_email(users, email));
    let j = choose|j: int| 0 <= j < users.len() && #[trigger] users[j].email == email;
    if i != j {
        assert(users[i].email != users[j].email);
    }
}

proof fn lemma_push_user_wf(users: Seq<UserModel>, user: UserModel)
    requires
        users_wf(users),
        user.id == users.len(),
        !has_user_with_email(users, user.email),
        argon2_digest_wf(user.hashed_password),
    ensures
        users_wf(users.push(user)),
{
    let pushed = users.push(user);
    assert forall|i: int, j: int|
        0 <= i < pushed.len() && 0 <= j < pushed.len() && i != j implies (
    #[trigger] pushed[i].email) != (#[trigger] pushed[j].email) by {
        if i < users.len() && j < users.len() {
        } else if i == users.len() {
            if pushed[i].email == pushed[j].email {
                assert(users[j].email == user.email);
            }
        } else {
            if pushed[i].email == pushed[j].email {
                assert(users[i].email == user.email);
            }
        }
    }
}

proof fn lemma_update_user_wf(users: Seq<UserModel>, i: int, user: UserModel)
    requires
        users_wf(users),
        0 <= i < users.len(),
        user.id == users[i].id,
        user.email == users[i].email,
        argon2_digest_wf(user.hashed_password),
    ensures
        users_wf(users.update(i, user)),
{
}

} // verus!
