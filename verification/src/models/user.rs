//! Users.

use crate::database::table::Record;
use crate::models::ident::RecordId;
use crate::models::income::Income;
use crate::models::time::Timestamp;
use crate::text::is_blank;
use vstd::prelude::*;

verus! {

/// A user as stored. The password is kept as it was given.
#[derive(Debug, PartialEq, Eq)]
pub struct User {
    pub id: RecordId,
    pub first_name: String,
    pub last_name: String,
    pub email: String,
    pub password: String,
    pub created_at: Timestamp,
    pub updated_at: Timestamp,
}

/// A user together with the income records that belong to it.
#[derive(Debug, PartialEq, Eq)]
pub struct UserWithIncomes {
    pub user: User,
    pub incomes: Vec<Income>,
}

/// What is needed to create a user.
#[derive(Debug, PartialEq, Eq)]
pub struct NewUser {
    pub first_name: String,
    pub last_name: String,
    pub email: String,
    pub password: String,
}

/// A partial change to a user: a field that is `None` stays as it is.
#[derive(Debug, PartialEq, Eq)]
pub struct UpdateUser {
    pub first_name: Option<String>,
    pub last_name: Option<String>,
    pub email: Option<String>,
    pub password: Option<String>,
    pub updated_at: Option<Timestamp>,
}

impl UpdateUser {
    /// The patch with its time of change set to `now`, whatever it held
    /// there.
    pub open spec fn stamped(self, now: Timestamp) -> UpdateUser {
        UpdateUser {
            first_name: self.first_name,
            last_name: self.last_name,
            email: self.email,
            password: self.password,
            updated_at: Some(now),
        }
    }

    /// Sets the time of change to `now`, whatever the patch held there.
    pub fn stamp(self, now: Timestamp) -> (r: UpdateUser)
        ensures
            r == self.stamped(now),
    {
        UpdateUser {
            first_name: self.first_name,
            last_name: self.last_name,
            email: self.email,
            password: self.password,
            updated_at: Some(now),
        }
    }
}

/// An email address is accepted when it holds both `@` and `.`.
pub open spec fn email_ok(email: Seq<char>) -> bool {
    email.contains('@') && email.contains('.')
}

/// A password is accepted when it has at least six characters.
pub open spec fn password_ok(password: Seq<char>) -> bool {
    password.len() >= 6
}

impl User {
    /// The names are not blank and the email address holds `@` and `.`.
    pub open spec fn valid(self) -> bool {
        &&& !is_blank(self.first_name@)
        &&& !is_blank(self.last_name@)
        &&& email_ok(self.email@)
    }

    /// The user after `patch`: every field that the patch supplies is taken
    /// from it, every other field stays, and so do the identifier and the
    /// time of creation.
    pub open spec fn patched(self, patch: UpdateUser) -> User {
        User {
            id: self.id,
            first_name: match patch.first_name {
                Some(v) => v,
                None => self.first_name,
            },
            last_name: match patch.last_name {
                Some(v) => v,
                None => self.last_name,
            },
            email: match patch.email {
                Some(v) => v,
                None => self.email,
            },
            password: match patch.password {
                Some(v) => v,
                None => self.password,
            },
            created_at: self.created_at,
            updated_at: match patch.updated_at {
                Some(v) => v,
                None => self.updated_at,
            },
        }
    }

    /// Applies a partial change.
    pub fn apply(self, patch: UpdateUser) -> (r: User)
        ensures
            r == self.patched(patch),
    {
        User {
            id: self.id,
            first_name: match patch.first_name {
                Some(v) => v,
                None => self.first_name,
            },
            last_name: match patch.last_name {
                Some(v) => v,
                None => self.last_name,
            },
            email: match patch.email {
                Some(v) => v,
                None => self.email,
            },
            password: match patch.password {
                Some(v) => v,
                None => self.password,
            },
            created_at: self.created_at,
            updated_at: match patch.updated_at {
                Some(v) => v,
                None => self.updated_at,
            },
        }
    }
}

/// Every row meets the rules of a user.
pub open spec fn all_valid(rows: Seq<User>) -> bool {
    forall|i: int| 0 <= i < rows.len() ==> (#[trigger] rows[i]).valid()
}

impl Clone for User {
    fn clone(&self) -> (r: User)
        ensures
            r == *self,
    {
        User {
            id: self.id,
            first_name: self.first_name.clone(),
            last_name: self.last_name.clone(),
            email: self.email.clone(),
            password: self.password.clone(),
            created_at: self.created_at,
            updated_at: self.updated_at,
        }
    }
}

impl Record for User {
    open spec fn key(&self) -> RecordId {
        self.id
    }

    fn id(&self) -> (r: RecordId) {
        self.id
    }

    fn duplicate(&self) -> (r: User) {
        self.clone()
    }
}

impl NewUser {
    /// The names are not blank, the email address holds `@` and `.`, and the
    /// password has at least six characters.
    pub open spec fn valid(self) -> bool {
        &&& !is_blank(self.first_name@)
        &&& !is_blank(self.last_name@)
        &&& email_ok(self.email@)
        &&& password_ok(self.password@)
    }

    /// The user that is created with the identifier `id` at the time `now`.
    pub open spec fn user_with(self, id: RecordId, now: Timestamp) -> User {
        User {
            id,
            first_name: self.first_name,
            last_name: self.last_name,
            email: self.email,
            password: self.password,
            created_at: now,
            updated_at: now,
        }
    }

    /// Makes the user with a given identifier and time of creation.
    pub fn into_user_with(self, id: RecordId, now: Timestamp) -> (r: User)
        ensures
            r == self.user_with(id, now),
    {
        User {
            id,
            first_name: self.first_name,
            last_name: self.last_name,
            email: self.email,
            password: self.password,
            created_at: now,
            updated_at: now,
        }
    }

    /// Makes the user with a fresh random identifier, created now. Whatever
    /// was drawn and whatever the clock said, the identifier is marked as a
    /// random UUID and the time lies in its ranges.
    pub fn into_user(self) -> (r: User)
        ensures
            r == self.user_with(r.id, r.created_at),
            r.id.random_kind(),
            r.created_at.in_range(),
    {
        let now = Timestamp::now();
        let id = RecordId::generate();
        self.into_user_with(id, now)
    }
}

} // verus!
