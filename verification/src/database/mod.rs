//! The store: one table of rows per kind of record, each row found by its
//! identifier, which no two rows of a table share.

pub mod table;

use crate::models::expense::Expense;
use crate::models::income::Income;
use crate::models::user::User;
use table::Table;
use vstd::prelude::*;

verus! {

/// Everything the tracker keeps.
#[derive(Debug)]
pub struct Store {
    pub users: Table<User>,
    pub incomes: Table<Income>,
    pub expenses: Table<Expense>,
}

impl Store {
    /// In every table, no two rows share an identifier.
    pub open spec fn wf(&self) -> bool {
        &&& self.users.wf()
        &&& self.incomes.wf()
        &&& self.expenses.wf()
    }

    /// A store without rows.
    pub fn new() -> (r: Store)
        ensures
            r.wf(),
            r.users@.len() == 0,
            r.incomes@.len() == 0,
            r.expenses@.len() == 0,
    {
        Store { users: Table::new(), incomes: Table::new(), expenses: Table::new() }
    }
}

} // verus!
