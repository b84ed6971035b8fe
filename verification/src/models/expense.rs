//! Expense records.

use crate::database::table::Owned;
use crate::database::table::Record;
use crate::models::decimal::PgDecimal;
use crate::models::ident::RecordId;
use crate::models::time::Date;
use crate::models::time::Timestamp;
use crate::text::clone_text;
use crate::text::is_blank;
use vstd::prelude::*;

verus! {

/// An expense record as stored. It belongs to one user for as long as it
/// exists.
#[derive(Debug, PartialEq, Eq)]
pub struct Expense {
    pub id: RecordId,
    pub user_id: RecordId,
    pub item_name: String,
    pub amount: PgDecimal,
    pub date: Date,
    pub description: Option<String>,
    pub created_at: Timestamp,
    pub updated_at: Timestamp,
}

/// What is needed to create an expense record. Where no date is given, the
/// record is dated to the day of its creation.
#[derive(Debug, PartialEq, Eq)]
pub struct NewExpense {
    pub user_id: RecordId,
    pub item_name: String,
    pub amount: PgDecimal,
    pub date: Option<Date>,
    pub description: Option<String>,
}

/// A partial change to an expense record: a field that is `None` stays as it
/// is.
#[derive(Debug, PartialEq, Eq)]
pub struct UpdateExpense {
    pub item_name: Option<String>,
    pub amount: Option<PgDecimal>,
    pub date: Option<Date>,
    pub description: Option<String>,
    pub updated_at: Option<Timestamp>,
}

impl Expense {
    /// The amount is a decimal above zero and the item name is not blank.
    pub open spec fn valid(self) -> bool {
        &&& self.amount.wf()
        &&& self.amount.positive()
        &&& !is_blank(self.item_name@)
    }

    /// The record after `patch`: every field that the patch supplies is taken
    /// from it, every other field stays, and so do the identifier, the owner
    /// and the time of creation.
    pub open spec fn patched(self, patch: UpdateExpense) -> Expense {
        Expense {
            id: self.id,
            user_id: self.user_id,
            item_name: match patch.item_name {
                Some(v) => v,
                None => self.item_name,
            },
            amount: match patch.amount {
                Some(v) => v,
                None => self.amount,
            },
            date: match patch.date {
                Some(v) => v,
                None => self.date,
            },
            description: match patch.description {
                Some(v) => Some(v),
                None => self.description,
            },
            created_at: self.created_at,
            updated_at: match patch.updated_at {
                Some(v) => v,
                None => self.updated_at,
            },
        }
    }

    /// Applies a partial change.
    pub fn apply(self, patch: UpdateExpense) -> (r: Expense)
        ensures
            r == self.patched(patch),
    {
        Expense {
            id: self.id,
            user_id: self.user_id,
            item_name: match patch.item_name {
                Some(v) => v,
                None => self.item_name,
            },
            amount: match patch.amount {
                Some(v) => v,
                None => self.amount,
            },
            date: match patch.date {
                Some(v) => v,
                None => self.date,
            },
            description: match patch.description {
                Some(v) => Some(v),
                None => self.description,
            },
            created_at: self.created_at,
            updated_at: match patch.updated_at {
                Some(v) => v,
                None => self.updated_at,
            },
        }
    }
}

impl UpdateExpense {
    /// The patch with its time of change set to `now`, whatever it held
    /// there.
    pub open spec fn stamped(self, now: Timestamp) -> UpdateExpense {
        UpdateExpense {
            item_name: self.item_name,
            amount: self.amount,
            date: self.date,
            description: self.description,
            updated_at: Some(now),
        }
    }

    /// Sets the time of change to `now`, whatever the patch held there.
    pub fn stamp(self, now: Timestamp) -> (r: UpdateExpense)
        ensures
            r == self.stamped(now),
    {
        UpdateExpense {
            item_name: self.item_name,
            amount: self.amount,
            date: self.date,
            description: self.description,
            updated_at: Some(now),
        }
    }

    /// Every field that is supplied meets the rule of its kind: a supplied
    /// amount is a decimal above zero and a supplied item name is not blank.
    pub open spec fn valid(self) -> bool {
        &&& self.amount matches Some(amount) ==> amount.wf() && amount.positive()
        &&& self.item_name matches Some(item_name) ==> !is_blank(item_name@)
    }
}

/// Every row meets the rules of an expense record.
pub open spec fn all_valid(rows: Seq<Expense>) -> bool {
    forall|i: int| 0 <= i < rows.len() ==> (#[trigger] rows[i]).valid()
}

impl Clone for Expense {
    fn clone(&self) -> (r: Expense)
        ensures
            r == *self,
    {
        Expense {
            id: self.id,
            user_id: self.user_id,
            item_name: self.item_name.clone(),
            amount: self.amount,
            date: self.date,
            description: clone_text(&self.description),
            created_at: self.created_at,
            updated_at: self.updated_at,
        }
    }
}

impl Record for Expense {
    open spec fn key(&self) -> RecordId {
        self.id
    }

    fn id(&self) -> (r: RecordId) {
        self.id
    }

    fn duplicate(&self) -> (r: Expense) {
        self.clone()
    }
}

impl Owned for Expense {
    open spec fn owner_key(&self) -> RecordId {
        self.user_id
    }

    open spec fn day(&self) -> Date {
        self.date
    }

    fn owner(&self) -> (r: RecordId) {
        self.user_id
    }

    fn date(&self) -> (r: Date) {
        self.date
    }
}

impl NewExpense {
    /// The amount is a decimal above zero and the item name is not blank.
    pub open spec fn valid(self) -> bool {
        &&& self.amount.wf()
        &&& self.amount.positive()
        &&& !is_blank(self.item_name@)
    }

    /// The record that is created with the identifier `id` at the time `now`.
    /// It carries the date that was given, or else the day of `now`.
    pub open spec fn expense_with(self, id: RecordId, now: Timestamp) -> Expense {
        Expense {
            id,
            user_id: self.user_id,
            item_name: self.item_name,
            amount: self.amount,
            date: match self.date {
                Some(date) => date,
                None => now.date,
            },
            description: self.description,
            created_at: now,
            updated_at: now,
        }
    }

    /// Makes the record with a given identifier and time of creation.
    pub fn into_expense_with(self, id: RecordId, now: Timestamp) -> (r: Expense)
        ensures
            r == self.expense_with(id, now),
    {
        Expense {
            id,
            user_id: self.user_id,
            item_name: self.item_name,
            amount: self.amount,
            date: match self.date {
                Some(date) => date,
                None => now.date,
            },
            description: self.description,
            created_at: now,
            updated_at: now,
        }
    }

    /// Makes the record with a fresh random identifier, created now. Whatever
    /// was drawn and whatever the clock said, the identifier is marked as a
    /// random UUID and the time lies in its ranges.
    pub fn into_expense(self) -> (r: Expense)
        ensures
            r == self.expense_with(r.id, r.created_at),
            r.id.random_kind(),
            r.created_at.in_range(),
    {
        let now = Timestamp::now();
        let id = RecordId::generate();
        self.into_expense_with(id, now)
    }
}

} // verus!
