//! Income records.

use crate::database::table::Owned;
use crate::database::table::Record;
use crate::models::decimal::PgDecimal;
use crate::models::ident::RecordId;
use crate::models::time::Date;
use crate::models::time::Timestamp;
use crate::models::user::User;
use crate::text::clone_text;
use crate::text::is_blank;
use vstd::prelude::*;

verus! {

/// An income record as stored. It belongs to one user for as long as it
/// exists.
#[derive(Debug, PartialEq, Eq)]
pub struct Income {
    pub id: RecordId,
    pub user_id: RecordId,
    pub source: String,
    pub amount: PgDecimal,
    pub date: Date,
    pub description: Option<String>,
    pub created_at: Timestamp,
    pub updated_at: Timestamp,
}

/// An income record together with the user it belongs to.
#[derive(Debug, PartialEq, Eq)]
pub struct IncomeWithUser {
    pub income: Income,
    pub user: User,
}

/// What is needed to create an income record.
#[derive(Debug, PartialEq, Eq)]
pub struct NewIncome {
    pub user_id: RecordId,
    pub source: String,
    pub amount: PgDecimal,
    pub date: Date,
    pub description: Option<String>,
}

/// A partial change to an income record: a field that is `None` stays as it
/// is.
#[derive(Debug, PartialEq, Eq)]
pub struct UpdateIncome {
    pub source: Option<String>,
    pub amount: Option<PgDecimal>,
    pub date: Option<Date>,
    pub description: Option<String>,
}

impl Income {
    /// The amount is a decimal above zero and the source is not blank.
    pub open spec fn valid(self) -> bool {
        &&& self.amount.wf()
        &&& self.amount.positive()
        &&& !is_blank(self.source@)
    }

    /// The record after `patch` at the time `now`: every field that the patch
    /// supplies is taken from it and the time of the last change is `now`.
    /// Every other field stays, and so do the identifier, the owner and the
    /// time of creation.
    pub open spec fn patched(self, patch: UpdateIncome, now: Timestamp) -> Income {
        Income {
            id: self.id,
            user_id: self.user_id,
            source: match patch.source {
                Some(v) => v,
                None => self.source,
            },
            amount: match patch.amount {
                Some(v) => v,
                None => self.amount,
            },
            date: match patch.date {
                Some(v) => v,
                None => self.date,
            },
            description: match patch.description {
                Some(v) => Some(v),
                None => self.description,
            },
            created_at: self.created_at,
            updated_at: now,
        }
    }

    /// Applies a partial change made at the time `now`.
    pub fn apply(self, patch: UpdateIncome, now: Timestamp) -> (r: Income)
        ensures
            r == self.patched(patch, now),
    {
        Income {
            id: self.id,
            user_id: self.user_id,
            source: match patch.source {
                Some(v) => v,
                None => self.source,
            },
            amount: match patch.amount {
                Some(v) => v,
                None => self.amount,
            },
            date: match patch.date {
                Some(v) => v,
                None => self.date,
            },
            description: match patch.description {
                Some(v) => Some(v),
                None => self.description,
            },
            created_at: self.created_at,
            updated_at: now,
        }
    }
}

impl UpdateIncome {
    /// Every field that is supplied meets the rule of its kind: a supplied
    /// amount is a decimal above zero and a supplied source is not blank.
    pub open spec fn valid(self) -> bool {
        &&& self.amount matches Some(amount) ==> amount.wf() && amount.positive()
        &&& self.source matches Some(source) ==> !is_blank(source@)
    }
}

/// Every row meets the rules of an income record.
pub open spec fn all_valid(rows: Seq<Income>) -> bool {
    forall|i: int| 0 <= i < rows.len() ==> (#[trigger] rows[i]).valid()
}

impl Clone for Income {
    fn clone(&self) -> (r: Income)
        ensures
            r == *self,
    {
        Income {
            id: self.id,
            user_id: self.user_id,
            source: self.source.clone(),
            amount: self.amount,
            date: self.date,
            description: clone_text(&self.description),
            created_at: self.created_at,
            updated_at: self.updated_at,
        }
    }
}

impl Record for Income {
    open spec fn key(&self) -> RecordId {
        self.id
    }

    fn id(&self) -> (r: RecordId) {
        self.id
    }

    fn duplicate(&self) -> (r: Income) {
        self.clone()
    }
}

impl Owned for Income {
    open spec fn owner_key(&self) -> RecordId {
        self.user_id
    }

    open spec fn day(&self) -> Date {
        self.date
    }

    fn owner(&self) -> (r: RecordId) {
        self.user_id
    }

    fn date(&self) -> (r: Date) {
        self.date
    }
}

impl NewIncome {
    /// The amount is a decimal above zero and the source is not blank.
    pub open spec fn valid(self) -> bool {
        &&& self.amount.wf()
        &&& self.amount.positive()
        &&& !is_blank(self.source@)
    }

    /// The record that is created with the identifier `id` at the time `now`.
    pub open spec fn income_with(self, id: RecordId, now: Timestamp) -> Income {
        Income {
            id,
            user_id: self.user_id,
            source: self.source,
            amount: self.amount,
            date: self.date,
            description: self.description,
            created_at: now,
            updated_at: now,
        }
    }

    /// Makes the record with a given identifier and time of creation.
    pub fn into_income_with(self, id: RecordId, now: Timestamp) -> (r: Income)
        ensures
            r == self.income_with(id, now),
    {
        Income {
            id,
            user_id: self.user_id,
            source: self.source,
            amount: self.amount,
            date: self.date,
            description: self.description,
            created_at: now,
            updated_at: now,
        }
    }

    /// Makes the record with a fresh random identifier, created now. Whatever
    /// was drawn and whatever the clock said, the identifier is marked as a
    /// random UUID and the time lies in its ranges.
    pub fn into_income(self) -> (r: Income)
        ensures
            r == self.income_with(r.id, r.created_at),
            r.id.random_kind(),
            r.created_at.in_range(),
    {
        let now = Timestamp::now();
        let id = RecordId::generate();
        self.into_income_with(id, now)
    }
}

} // verus!
