//! Credential store kept in memory: user records with unique emails and
//! unique ids, found by email or by id.

use vstd::prelude::*;
use crate::error::AuthError;
use crate::model::{NewUser, User};

verus! {

/// Some user in `users` has the email `email`.
pub open spec fn email_taken(users: Seq<User>, email: Seq<char>) -> bool {
    exists|i: int| 0 <= i < users.len() && (#[trigger] users[i]).email@ == email
}

/// Some user in `users` has the id `id`.
pub open spec fn id_taken(users: Seq<User>, id: u128) -> bool {
    exists|i: int| 0 <= i < users.len() && (#[trigger] users[i]).id == id
}

/// No two users share an email, and no two share an id.
pub open spec fn users_unique(users: Seq<User>) -> bool {
    forall|i: int, j: int|
        0 <= i < users.len() && 0 <= j < users.len() && i != j ==> (#[trigger] users[i]).email@
            != (#[trigger] users[j]).email@ && users[i].id != users[j].id
}

/// The user whose email is `email`, if there is one.
pub open spec fn user_with_email(users: Seq<User>, email: Seq<char>) -> Option<User> {
    if email_taken(users, email) {
        Some(users[choose|i: int| 0 <= i < users.len() && (#[trigger] users[i]).email@ == email])
    } else {
        None
    }
}

/// The user whose id is `id`, if there is one.
pub open spec fn user_with_id(users: Seq<User>, id: u128) -> Option<User> {
    if id_taken(users, id) {
        Some(users[choose|i: int| 0 <= i < users.len() && (#[trigger] users[i]).id == id])
    } else {
        None
    }
}

/// The user records, in order of insertion.
pub struct UserStore {
    users: Vec<User>,
}

impl View for UserStore {
    type V = Seq<User>;

    closed spec fn view(&self) -> Seq<User> {
        self.users@
    }
}

impl UserStore {
    /// The store holds no two users with one email or one id.
    pub open spec fn wf(&self) -> bool {
        users_unique(self@)
    }

    /// An empty store.
    pub fn new() -> (r: UserStore)
        ensures
            r@ == Seq::<User>::empty(),
            r.wf(),
    {
        UserStore { users: Vec::new() }
    }

    /// Number of stored users.
    pub fn len(&self) -> (r: usize)
        ensures
            r == self@.len(),
    {
        self.users.len()
    }

    /// The user registered with `email`, if any.
    pub fn get_user_by_email(&self, email: &String) -> (r: Option<User>)
        requires
            self.wf(),
        ensures
            r == user_with_email(self@, email@),
    {
        let mut i: usize = 0;
        while i < self.users.len()
            invariant
                self.wf(),
                0 <= i <= self.users@.len(),
                forall|j: int| 0 <= j < i ==> (#[trigger] self.users@[j]).email@ != email@,
            decreases self.users@.len() - i,
        {
            if self.users[i].email == *email {
                let ghost k = choose|k: int|
                    0 <= k < self@.len() && (#[trigger] self@[k]).email@ == email@;
                assert(self@[i as int].email@ == email@);
                assert(k == i) by {
                    if k != i {
                        assert(users_unique(self@));
                        assert(self@[k].email@ != self@[i as int].email@);
                    }
                }
                return Some(self.users[i].duplicate());
            }
            i = i + 1;
        }
        None
    }

    /// The user with id `id`, if any.
    pub fn get_user_by_id(&self, id: u128) -> (r: Option<User>)
        requires
            self.wf(),
        ensures
            r == user_with_id(self@, id),
    {
        let mut i: usize = 0;
        while i < self.users.len()
            invariant
                self.wf(),
                0 <= i <= self.users@.len(),
                forall|j: int| 0 <= j < i ==> (#[trigger] self.users@[j]).id != id,
            decreases self.users@.len() - i,
        {
            if self.users[i].id == id {
                let ghost k = choose|k: int| 0 <= k < self@.len() && (#[trigger] self@[k]).id == id;
                assert(self@[i as int].id == id);
                assert(k == i) by {
                    if k != i {
                        assert(users_unique(self@));
                        assert(self@[k].id != self@[i as int].id);
                    }
                }
                return Some(self.users[i].duplicate());
            }
            i = i + 1;
        }
        None
    }

    /// Inserts a user with the given id and creation instant. An email that
    /// is already stored fails with `UserExists`, an id that is already
    /// stored with a store error; either way the store is unchanged.
    pub fn create_user(&mut self, new: NewUser, id: u128, created_at: i64) -> (r: Result<User, AuthError>)
        requires
            old(self).wf(),
        ensures
            final(self).wf(),
            email_taken(old(self)@, new.email@) ==> r == Err::<User, AuthError>(AuthError::UserExists)
                && final(self)@ == old(self)@,
            !email_taken(old(self)@, new.email@) && id_taken(old(self)@, id) ==> r is Err && r->Err_0
                is DatabaseError && final(self)@ == old(self)@,
            !email_taken(old(self)@, new.email@) && !id_taken(old(self)@, id) ==> r is Ok
                && r->Ok_0 == (User { id, email: new.email, password: new.password, created_at })
                && final(self)@ == old(self)@.push(r->Ok_0),
    {
        if self.get_user_by_email(&new.email).is_some() {
            return Err(AuthError::UserExists);
        }
        if self.get_user_by_id(id).is_some() {
            return Err(AuthError::DatabaseError("duplicate user id".to_string()));
        }
        let user = User { id, email: new.email, password: new.password, created_at };
        let ghost before = self@;
        self.users.push(user.duplicate());
        assert(self@ == before.push(user));
        assert(users_unique(self@)) by {
            assert forall|i: int, j: int|
                0 <= i < self@.len() && 0 <= j < self@.len() && i != j implies (#[trigger] self@[i]).email@
                    != (#[trigger] self@[j]).email@ && self@[i].id != self@[j].id by {
                if i == before.len() {
                    assert(before[j] == self@[j]);
                } else if j == before.len() {
                    assert(before[i] == self@[i]);
                }
            }
        }
        Ok(user)
    }
}

} // verus!
