use vstd::prelude::*;

use crate::errors::AuthError;
use crate::models::{role_text, Role, User};
use crate::session::opt_view;

verus! {

/// Some record in `users` carries `email`.
pub open spec fn has_email(users: Seq<User>, email: Seq<char>) -> bool {
    exists|i: int| 0 <= i < users.len() && #[trigger] users[i].email@ == email
}

/// The record that carries `email`, if any.
pub open spec fn lookup_email(users: Seq<User>, email: Seq<char>) -> Option<User> {
    if has_email(users, email) {
        Some(users[choose|i: int| 0 <= i < users.len() && #[trigger] users[i].email@ == email])
    } else {
        None
    }
}

/// How many records carry `email`.
pub open spec fn count_email(users: Seq<User>, email: Seq<char>) -> nat
    decreases users.len(),
{
    if users.len() == 0 {
        0
    } else {
        count_email(users.drop_last(), email) + if users.last().email@ == email {
            1nat
        } else {
            0nat
        }
    }
}

/// No two records share an email.
pub open spec fn emails_unique(users: Seq<User>) -> bool {
    forall|i: int, j: int|
        0 <= i < users.len() && 0 <= j < users.len() && i != j ==> #[trigger] users[i].email@
            != #[trigger] users[j].email@
}

/// With unique emails, an email is carried by one record if present and by none
/// otherwise.
pub proof fn lemma_count_unique(users: Seq<User>, email: Seq<char>)
    requires
        emails_unique(users),
    ensures
        count_email(users, email) == if has_email(users, email) {
            1nat
        } else {
            0nat
        },
    decreases users.len(),
{
    if users.len() > 0 {
        let init = users.drop_last();
        assert(emails_unique(init)) by {
            assert forall|i: int, j: int|
                0 <= i < init.len() && 0 <= j < init.len() && i != j implies #[trigger] init[i].email@
                != #[trigger] init[j].email@ by {
                assert(init[i] == users[i] && init[j] == users[j]);
            }
        }
        lemma_count_unique(init, email);
        if has_email(init, email) {
            let i = choose|i: int| 0 <= i < init.len() && #[trigger] init[i].email@ == email;
            assert(users[i].email@ == email);
            assert(users.last().email@ != email);
            assert(has_email(users, email));
        } else if users.last().email@ == email {
            assert(users[users.len() - 1].email@ == email);
        } else {
            assert forall|i: int| 0 <= i < users.len() implies #[trigger] users[i].email@ != email by {
                if i < init.len() {
                    assert(init[i] == users[i]);
                }
            }
        }
    }
}

/// The in-memory users table: one record per email, ids given in order from 1.
#[derive(Debug)]
pub struct UserStore {
    pub users: Vec<User>,
}

impl UserStore {
    pub open spec fn view(&self) -> Seq<User> {
        self.users@
    }

    /// Ids are positions counted from 1, they fit in `i32`, and emails are unique.
    pub open spec fn wf(&self) -> bool {
        &&& self.users@.len() < i32::MAX
        &&& forall|i: int| 0 <= i < self.users@.len() ==> #[trigger] self.users@[i].id == i + 1
        &&& emails_unique(self.users@)
    }

    pub fn new() -> (r: UserStore)
        ensures
            r.wf(),
            r.view() == Seq::<User>::empty(),
    {
        UserStore { users: Vec::new() }
    }

    pub fn len(&self) -> (r: usize)
        ensures
            r == self.view().len(),
    {
        self.users.len()
    }

    /// Fetches the record that carries `email`.
    pub fn find_by_email(&self, email: &String) -> (r: Option<&User>)
        requires
            self.wf(),
        ensures
            r is None <==> !has_email(self.view(), email@),
            r matches Some(u) ==> lookup_email(self.view(), email@) == Some(*u),
    {
        let mut i: usize = 0;
        while i < self.users.len()
            invariant
                self.wf(),
                i <= self.users@.len(),
                forall|k: int| 0 <= k < i ==> #[trigger] self.users@[k].email@ != email@,
            decreases self.users@.len() - i,
        {
            if self.users[i].email == *email {
                let ghost j = choose|j: int|
                    0 <= j < self.users@.len() && #[trigger] self.users@[j].email@ == email@;
                assert(self.users@[i as int].email@ == email@);
                assert(j == i);
                return Some(&self.users[i]);
            }
            i += 1;
        }
        None
    }

    /// Fetches the record with the given id.
    pub fn find_by_id(&self, id: i32) -> (r: Option<&User>)
        requires
            self.wf(),
        ensures
            r is Some <==> 1 <= id <= self.view().len(),
            r matches Some(u) ==> *u == self.view()[id - 1] && u.id == id,
    {
        if id < 1 || id as usize > self.users.len() {
            None
        } else {
            Some(&self.users[(id - 1) as usize])
        }
    }

    /// Adds an account. An email that is already stored is refused, as is a
    /// record whose id would no longer fit.
    pub fn insert(&mut self, email: String, password_hash: String, role: Role) -> (r: Result<
        User,
        AuthError,
    >)
        requires
            old(self).wf(),
        ensures
            final(self).wf(),
            has_email(old(self).view(), email@) ==> r == Err::<User, AuthError>(
                AuthError::DuplicateEmail,
            ) && final(self).view() == old(self).view(),
            !has_email(old(self).view(), email@) && old(self).view().len() + 1 >= i32::MAX ==> r
                == Err::<User, AuthError>(AuthError::StoreUnavailable) && final(self).view()
                == old(self).view(),
            !has_email(old(self).view(), email@) && old(self).view().len() + 1 < i32::MAX ==> {
                &&& r matches Ok(u)
                &&& final(self).view() == old(self).view().push(u)
                &&& u.id == old(self).view().len() + 1
                &&& u.email@ == email@
                &&& u.password_hash@ == password_hash@
                &&& opt_view(u.role) == Some(role_text(role))
            },
    {
        if self.find_by_email(&email).is_some() {
            return Err(AuthError::DuplicateEmail);
        }
        let n = self.users.len();
        if n >= 2147483646 {
            return Err(AuthError::StoreUnavailable);
        }
        let user = User {
            id: (n + 1) as i32,
            email,
            password_hash,
            role: Some(role.as_str().to_owned()),
        };
        let out = user.duplicate();
        self.users.push(user);
        assert(emails_unique(self.users@)) by {
            assert forall|i: int, j: int|
                0 <= i < self.users@.len() && 0 <= j < self.users@.len() && i != j implies #[trigger] self.users@[i].email@
                != #[trigger] self.users@[j].email@ by {
                if i < n && j < n {
                    assert(self.users@[i] == old(self).users@[i]);
                    assert(self.users@[j] == old(self).users@[j]);
                } else if i < n {
                    assert(self.users@[i] == old(self).users@[i]);
                } else {
                    assert(self.users@[j] == old(self).users@[j]);
                }
            }
        }
        Ok(out)
    }
}

} // verus!
