//! Reading and changing income records, each operation scoped to the user
//! that owns the record.

use crate::database::table::found;
use crate::database::table::holds;
use crate::database::table::holds_random_kind;
use crate::database::table::index_of;
use crate::database::table::is_newest_first;
use crate::database::table::newest_first;
use crate::database::table::owned_lookup;
use crate::database::table::owned_rows;
use crate::database::table::removal_outcome;
use crate::database::table::without;
use crate::database::table::Record;
use crate::database::Store;
use crate::errors::StoreError;
use crate::models::ident::RecordId;
use crate::models::income::Income;
use crate::models::income::NewIncome;
use crate::models::income::UpdateIncome;
use crate::models::time::Timestamp;
use vstd::prelude::*;

verus! {

/// The income records of `user_id`, from newest to oldest; records of one
/// day keep the order of the table.
pub fn get_all_income_for_user(conn: &Store, user_id: RecordId) -> (r: Result<
    Vec<Income>,
    StoreError,
>)
    ensures
        r matches Ok(rows) && {
            &&& rows@ == newest_first(owned_rows(conn.incomes@, user_id))
            &&& is_newest_first(rows@)
            &&& rows@.to_multiset() == owned_rows(conn.incomes@, user_id).to_multiset()
        },
{
    Ok(conn.incomes.list_owned(user_id))
}

/// The income record with the identifier `income_id`, if it belongs to
/// `user_id`. A record of another user is reported exactly as a record that
/// does not exist.
pub fn get_income_by_id(conn: &Store, income_id: RecordId, user_id: RecordId) -> (r: Result<
    Income,
    StoreError,
>)
    requires
        conn.wf(),
    ensures
        r == found(owned_lookup(conn.incomes@, income_id, user_id)),
{
    match conn.incomes.find_owned(income_id, user_id) {
        Some(row) => Ok(row),
        None => Err(StoreError::NotFound),
    }
}

/// Stores `income` and hands back the stored row. Either the row is added,
/// or its identifier is taken and nothing changes.
pub fn insert_income(conn: &mut Store, income: Income) -> (r: Result<Income, StoreError>)
    requires
        old(conn).wf(),
    ensures
        final(conn).wf(),
        final(conn).users == old(conn).users,
        final(conn).expenses == old(conn).expenses,
        holds(old(conn).incomes@, income.id) ==> r == Err::<Income, StoreError>(
            StoreError::Conflict,
        ) && final(conn).incomes@ == old(conn).incomes@,
        !holds(old(conn).incomes@, income.id) ==> r == Ok::<Income, StoreError>(income) && final(conn).incomes@ == old(conn).incomes@.push(income),
{
    conn.incomes.insert(income)
}

/// Creates an income record with a fresh identifier, created now.
///
/// Success is owed wherever the drawn identifier is free: on a table without
/// rows, and on any table that holds no identifier marked as a random UUID.
/// On success the stored row carries the submitted fields, an identifier
/// that no earlier row had and one time for creation and last change, and
/// the table is the old one followed by that row. Otherwise the drawn
/// identifier was taken, the result is `Conflict` and nothing changes.
pub fn create_income(conn: &mut Store, new_income: NewIncome) -> (r: Result<Income, StoreError>)
    requires
        old(conn).wf(),
    ensures
        final(conn).wf(),
        final(conn).users == old(conn).users,
        final(conn).expenses == old(conn).expenses,
        old(conn).incomes@.len() == 0 ==> r is Ok,
        !holds_random_kind(old(conn).incomes@) ==> r is Ok,
        r matches Ok(row) ==> {
            &&& row == new_income.income_with(row.id, row.created_at)
            &&& row.id.random_kind()
            &&& row.created_at.in_range()
            &&& !holds(old(conn).incomes@, row.id)
            &&& final(conn).incomes@ == old(conn).incomes@.push(row)
        },
        r matches Err(e) ==> {
            &&& e == StoreError::Conflict
            &&& holds_random_kind(old(conn).incomes@)
            &&& final(conn).incomes@ == old(conn).incomes@
        },
{
    let income = new_income.into_income();
    proof {
        if holds(conn.incomes@, income.id) {
            let i = index_of(conn.incomes@, income.id);
            assert(conn.incomes@[i].key().random_kind());
        }
    }
    insert_income(conn, income)
}

/// Applies `patch`, made at the time `now`, to the income record with the
/// identifier `income_id` if it belongs to `user_id`, and hands back the row
/// after the change. Where there is no such record, nothing changes.
pub fn apply_income_update(
    conn: &mut Store,
    income_id: RecordId,
    user_id: RecordId,
    patch: UpdateIncome,
    now: Timestamp,
) -> (r: Result<Income, StoreError>)
    requires
        old(conn).wf(),
    ensures
        final(conn).wf(),
        final(conn).users == old(conn).users,
        final(conn).expenses == old(conn).expenses,
        match owned_lookup(old(conn).incomes@, income_id, user_id) {
            Some(row) => r == Ok::<Income, StoreError>(row.patched(patch, now)) && final(conn).incomes@ == old(conn).incomes@.update(
                index_of(old(conn).incomes@, income_id),
                row.patched(patch, now),
            ),
            None => r == Err::<Income, StoreError>(StoreError::NotFound) && final(conn).incomes@
                == old(conn).incomes@,
        },
{
    match conn.incomes.position_owned(income_id, user_id) {
        Some(i) => {
            let changed = conn.incomes.row(i).clone().apply(patch, now);
            conn.incomes.replace(i, changed.clone());
            Ok(changed)
        },
        None => Err(StoreError::NotFound),
    }
}

/// Changes the income record with the identifier `income_id` if it belongs
/// to `user_id`, at the time the clock gives: the fields that `update_data`
/// supplies are taken from it, the time of the last change is the clock's
/// reading, and the rest stays. Where there is no such record, the result is
/// `NotFound` and nothing changes.
pub fn update_income(
    conn: &mut Store,
    income_id: RecordId,
    user_id: RecordId,
    update_data: UpdateIncome,
) -> (r: Result<Income, StoreError>)
    requires
        old(conn).wf(),
    ensures
        final(conn).wf(),
        final(conn).users == old(conn).users,
        final(conn).expenses == old(conn).expenses,
        match owned_lookup(old(conn).incomes@, income_id, user_id) {
            Some(row) => {
                &&& r matches Ok(changed)
                &&& changed == row.patched(update_data, changed.updated_at)
                &&& changed.updated_at.in_range()
                &&& final(conn).incomes@ == old(conn).incomes@.update(
                    index_of(old(conn).incomes@, income_id),
                    changed,
                )
            },
            None => r == Err::<Income, StoreError>(StoreError::NotFound) && final(conn).incomes@
                == old(conn).incomes@,
        },
{
    let now = Timestamp::now();
    apply_income_update(conn, income_id, user_id, update_data, now)
}

/// Removes the income record with the identifier `income_id` if it belongs
/// to `user_id`, and reports one removed row. Where there is no such record,
/// the result is `NotFound` and nothing changes.
pub fn delete_income(conn: &mut Store, income_id: RecordId, user_id: RecordId) -> (r: Result<
    usize,
    StoreError,
>)
    requires
        old(conn).wf(),
    ensures
        final(conn).wf(),
        final(conn).users == old(conn).users,
        final(conn).expenses == old(conn).expenses,
        match owned_lookup(old(conn).incomes@, income_id, user_id) {
            Some(_) => r == Ok::<usize, StoreError>(1) && final(conn).incomes@ == without(
                old(conn).incomes@,
                income_id,
            ),
            None => r == Err::<usize, StoreError>(StoreError::NotFound) && final(conn).incomes@
                == old(conn).incomes@,
        },
{
    let count = conn.incomes.remove_owned(income_id, user_id);
    removal_outcome(count)
}

} // verus!
