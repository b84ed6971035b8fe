//! Reading and changing expense records, each operation scoped to the user
//! that owns the record.

use crate::database::table::found;
use crate::database::table::holds;
use crate::database::table::holds_random_kind;
use crate::database::table::index_of;
use crate::database::table::is_newest_first;
use crate::database::table::newest_first;
use crate::database::table::owned_lookup;
use crate::database::table::owned_rows;
use crate::database::table::removal_outcome;
use crate::database::table::without;
use crate::database::table::Record;
use crate::database::Store;
use crate::errors::StoreError;
use crate::models::ident::RecordId;
use crate::models::expense::Expense;
use crate::models::expense::NewExpense;
use crate::models::expense::UpdateExpense;
use crate::models::time::Timestamp;
use vstd::prelude::*;

verus! {

/// The expense records of `user_id`, from newest to oldest; records of one
/// day keep the order of the table.
pub fn get_all_expenses_for_user(conn: &Store, user_id: RecordId) -> (r: Result<
    Vec<Expense>,
    StoreError,
>)
    ensures
        r matches Ok(rows) && {
            &&& rows@ == newest_first(owned_rows(conn.expenses@, user_id))
            &&& is_newest_first(rows@)
            &&& rows@.to_multiset() == owned_rows(conn.expenses@, user_id).to_multiset()
        },
{
    Ok(conn.expenses.list_owned(user_id))
}

/// The expense record with the identifier `expense_id`, if it belongs to
/// `user_id`. A record of another user is reported exactly as a record that
/// does not exist.
pub fn get_expense_by_id(conn: &Store, expense_id: RecordId, user_id: RecordId) -> (r: Result<
    Expense,
    StoreError,
>)
    requires
        conn.wf(),
    ensures
        r == found(owned_lookup(conn.expenses@, expense_id, user_id)),
{
    match conn.expenses.find_owned(expense_id, user_id) {
        Some(row) => Ok(row),
        None => Err(StoreError::NotFound),
    }
}

/// Stores `expense` and hands back the stored row. Either the row is added,
/// or its identifier is taken and nothing changes.
pub fn insert_expense(conn: &mut Store, expense: Expense) -> (r: Result<Expense, StoreError>)
    requires
        old(conn).wf(),
    ensures
        final(conn).wf(),
        final(conn).users == old(conn).users,
        final(conn).incomes == old(conn).incomes,
        holds(old(conn).expenses@, expense.id) ==> r == Err::<Expense, StoreError>(
            StoreError::Conflict,
        ) && final(conn).expenses@ == old(conn).expenses@,
        !holds(old(conn).expenses@, expense.id) ==> r == Ok::<Expense, StoreError>(expense) && final(conn).expenses@ == old(conn).expenses@.push(expense),
{
    conn.expenses.insert(expense)
}

/// Creates an expense record with a fresh identifier, created now.
///
/// Success is owed wherever the drawn identifier is free: on a table without
/// rows, and on any table that holds no identifier marked as a random UUID.
/// On success the stored row carries the submitted fields, an identifier
/// that no earlier row had and one time for creation and last change, and
/// the table is the old one followed by that row. Otherwise the drawn
/// identifier was taken, the result is `Conflict` and nothing changes.
pub fn create_expense(conn: &mut Store, new_expense: NewExpense) -> (r: Result<Expense, StoreError>)
    requires
        old(conn).wf(),
    ensures
        final(conn).wf(),
        final(conn).users == old(conn).users,
        final(conn).incomes == old(conn).incomes,
        old(conn).expenses@.len() == 0 ==> r is Ok,
        !holds_random_kind(old(conn).expenses@) ==> r is Ok,
        r matches Ok(row) ==> {
            &&& row == new_expense.expense_with(row.id, row.created_at)
            &&& row.id.random_kind()
            &&& row.created_at.in_range()
            &&& !holds(old(conn).expenses@, row.id)
            &&& final(conn).expenses@ == old(conn).expenses@.push(row)
        },
        r matches Err(e) ==> {
            &&& e == StoreError::Conflict
            &&& holds_random_kind(old(conn).expenses@)
            &&& final(conn).expenses@ == old(conn).expenses@
        },
{
    let expense = new_expense.into_expense();
    proof {
        if holds(conn.expenses@, expense.id) {
            let i = index_of(conn.expenses@, expense.id);
            assert(conn.expenses@[i].key().random_kind());
        }
    }
    insert_expense(conn, expense)
}

/// Applies `patch`, made at the time `now`, to the expense record with the
/// identifier `expense_id` if it belongs to `user_id`, and hands back the row
/// after the change: the fields that the patch supplies are taken from it,
/// the time of the last change is `now` whatever the patch held there, and
/// the rest stays. Where there is no such record, the result is `NotFound`
/// and nothing changes.
pub fn apply_expense_update(
    conn: &mut Store,
    expense_id: RecordId,
    user_id: RecordId,
    patch: UpdateExpense,
    now: Timestamp,
) -> (r: Result<Expense, StoreError>)
    requires
        old(conn).wf(),
    ensures
        final(conn).wf(),
        final(conn).users == old(conn).users,
        final(conn).incomes == old(conn).incomes,
        match owned_lookup(old(conn).expenses@, expense_id, user_id) {
            Some(row) => r == Ok::<Expense, StoreError>(row.patched(patch.stamped(now))) && final(conn).expenses@ == old(conn).expenses@.update(
                index_of(old(conn).expenses@, expense_id),
                row.patched(patch.stamped(now)),
            ),
            None => r == Err::<Expense, StoreError>(StoreError::NotFound) && final(conn).expenses@
                == old(conn).expenses@,
        },
{
    match conn.expenses.position_owned(expense_id, user_id) {
        Some(i) => {
            let changed = conn.expenses.row(i).clone().apply(patch.stamp(now));
            conn.expenses.replace(i, changed.clone());
            Ok(changed)
        },
        None => Err(StoreError::NotFound),
    }
}

/// Changes the expense record with the identifier `expense_id` if it belongs
/// to `user_id`, at the time the clock gives: the fields that `update_data`
/// supplies are taken from it, the time of the last change is the clock's
/// reading whatever `update_data` held there, and the rest stays. Where there
/// is no such record, the result is `NotFound` and nothing changes.
pub fn update_expense(
    conn: &mut Store,
    expense_id: RecordId,
    user_id: RecordId,
    update_data: UpdateExpense,
) -> (r: Result<Expense, StoreError>)
    requires
        old(conn).wf(),
    ensures
        final(conn).wf(),
        final(conn).users == old(conn).users,
        final(conn).incomes == old(conn).incomes,
        match owned_lookup(old(conn).expenses@, expense_id, user_id) {
            Some(row) => {
                &&& r matches Ok(changed)
                &&& changed == row.patched(update_data.stamped(changed.updated_at))
                &&& changed.updated_at.in_range()
                &&& final(conn).expenses@ == old(conn).expenses@.update(
                    index_of(old(conn).expenses@, expense_id),
                    changed,
                )
            },
            None => r == Err::<Expense, StoreError>(StoreError::NotFound) && final(conn).expenses@
                == old(conn).expenses@,
        },
{
    let now = Timestamp::now();
    apply_expense_update(conn, expense_id, user_id, update_data, now)
}

/// Removes the expense record with the identifier `expense_id` if it belongs
/// to `user_id`, and reports one removed row. Where there is no such record,
/// the result is `NotFound` and nothing changes.
pub fn delete_expense(conn: &mut Store, expense_id: RecordId, user_id: RecordId) -> (r: Result<
    usize,
    StoreError,
>)
    requires
        old(conn).wf(),
    ensures
        final(conn).wf(),
        final(conn).users == old(conn).users,
        final(conn).incomes == old(conn).incomes,
        match owned_lookup(old(conn).expenses@, expense_id, user_id) {
            Some(_) => r == Ok::<usize, StoreError>(1) && final(conn).expenses@ == without(
                old(conn).expenses@,
                expense_id,
            ),
            None => r == Err::<usize, StoreError>(StoreError::NotFound) && final(conn).expenses@
                == old(conn).expenses@,
        },
{
    let count = conn.expenses.remove_owned(expense_id, user_id);
    removal_outcome(count)
}

} // verus!
