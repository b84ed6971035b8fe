//! Handlers for expense records.

use crate::database::table::holds;
use crate::database::table::holds_random_kind;
use crate::database::table::index_of;
use crate::database::table::is_newest_first;
use crate::database::table::newest_first;
use crate::database::table::owned_lookup;
use crate::database::table::owned_rows;
use crate::database::table::without;
use crate::database::Store;
use crate::errors::AppError;
use crate::models::ident::RecordId;
use crate::models::expense::all_valid;
use crate::models::expense::Expense;
use crate::response::created;
use crate::response::ok;
use crate::response::ApiResponse;
use crate::response::STATUS_CREATED;
use crate::response::STATUS_OK;
use crate::services::expense_service;
use crate::validation::new_expense_of;
use crate::validation::update_expense_of;
use crate::validation::validate_create_expense;
use crate::validation::validate_update_expense;
use vstd::prelude::*;

verus! {

/// What a caller submits to create an expense record. The amount and the
/// date arrive as text; the date may be left out.
#[derive(Debug, PartialEq, Eq)]
pub struct CreateExpenseRequest {
    pub item_name: String,
    pub amount: String,
    pub date: Option<String>,
    pub description: Option<String>,
}

/// What a caller submits to change an expense record: a field that is `None`
/// is not supplied. The amount and the date arrive as text.
#[derive(Debug, PartialEq, Eq)]
pub struct UpdateExpenseRequest {
    pub item_name: Option<String>,
    pub amount: Option<String>,
    pub date: Option<String>,
    pub description: Option<String>,
}

/// Lists the expense records of `user_id`, from newest to oldest, with the
/// status of a successful read.
pub fn get_expenses_by_user_id(pool: &Store, user_id: RecordId) -> (r: Result<
    ApiResponse<Vec<Expense>>,
    AppError,
>)
    ensures
        r matches Ok(response) && {
            &&& response.status == STATUS_OK
            &&& response.data@ == newest_first(owned_rows(pool.expenses@, user_id))
            &&& is_newest_first(response.data@)
            &&& response.data@.to_multiset() == owned_rows(pool.expenses@, user_id).to_multiset()
        },
{
    match expense_service::get_all_expenses_for_user(pool, user_id) {
        Ok(rows) => Ok(ok(rows)),
        Err(e) => Err(AppError::from(e)),
    }
}

/// Reads the expense record with the identifier `expense_id` if it belongs to
/// `user_id`. A record of another user and a record that does not exist both
/// give `NotFound`.
pub fn get_expense_by_id(pool: &Store, expense_id: RecordId, user_id: RecordId) -> (r: Result<
    ApiResponse<Expense>,
    AppError,
>)
    requires
        pool.wf(),
    ensures
        match owned_lookup(pool.expenses@, expense_id, user_id) {
            Some(row) => r matches Ok(response) && response.status == STATUS_OK && response.data
                == row,
            None => r == Err::<ApiResponse<Expense>, AppError>(AppError::NotFound),
        },
{
    match expense_service::get_expense_by_id(pool, expense_id, user_id) {
        Ok(row) => Ok(ok(row)),
        Err(e) => Err(AppError::from(e)),
    }
}

/// Creates an expense record of `user_id` from what was submitted.
///
/// A request that breaks a rule gives the validation error of the first
/// broken rule, and the store is not touched. Otherwise the record is stored
/// with a fresh identifier and handed back with the status of a creation.
/// That is owed wherever the table holds no identifier marked as a random
/// UUID; if the drawn identifier was taken, the error is `Internal` and
/// nothing changes.
pub fn create_expense(pool: &mut Store, user_id: RecordId, new_expense: CreateExpenseRequest) -> (r:
    Result<ApiResponse<Expense>, AppError>)
    requires
        old(pool).wf(),
    ensures
        final(pool).wf(),
        final(pool).users == old(pool).users,
        final(pool).incomes == old(pool).incomes,
        all_valid(old(pool).expenses@) ==> all_valid(final(pool).expenses@),
        match new_expense_of(user_id, new_expense) {
            Err(e) => r == Err::<ApiResponse<Expense>, AppError>(AppError::Validation(e)) && final(pool).expenses@ == old(pool).expenses@,
            Ok(valid) => match r {
                Ok(response) => {
                    &&& response.status == STATUS_CREATED
                    &&& response.data == valid.expense_with(
                        response.data.id,
                        response.data.created_at,
                    )
                    &&& response.data.id.random_kind()
                    &&& response.data.created_at.in_range()
                    &&& !holds(old(pool).expenses@, response.data.id)
                    &&& final(pool).expenses@ == old(pool).expenses@.push(response.data)
                },
                Err(e) => {
                    &&& e == AppError::Internal
                    &&& holds_random_kind(old(pool).expenses@)
                    &&& final(pool).expenses@ == old(pool).expenses@
                },
            },
        },
{
    let valid = match validate_create_expense(user_id, new_expense) {
        Ok(valid) => valid,
        Err(e) => {
            return Err(AppError::from(e));
        },
    };
    match expense_service::create_expense(pool, valid) {
        Ok(row) => {
            assert forall|i: int| 0 <= i < pool.expenses@.len() && all_valid(
                old(pool).expenses@,
            ) implies (#[trigger] pool.expenses@[i]).valid() by {
                if i < old(pool).expenses@.len() {
                    assert(old(pool).expenses@[i].valid());
                }
            }
            Ok(created(row))
        },
        Err(e) => Err(AppError::from(e)),
    }
}

/// Changes the expense record with the identifier `expense_id` if it belongs
/// to `user_id`.
///
/// A request that breaks a rule gives the validation error of the first
/// broken rule, whether or not the record exists, and the store is not
/// touched. Otherwise the supplied fields are written, the time of the last
/// change is set to now, and the row after the change is handed back; where
/// there is no such record the error is `NotFound` and nothing changes.
pub fn update_expense(
    pool: &mut Store,
    expense_id: RecordId,
    user_id: RecordId,
    update_data: UpdateExpenseRequest,
) -> (r: Result<ApiResponse<Expense>, AppError>)
    requires
        old(pool).wf(),
    ensures
        final(pool).wf(),
        final(pool).users == old(pool).users,
        final(pool).incomes == old(pool).incomes,
        all_valid(old(pool).expenses@) ==> all_valid(final(pool).expenses@),
        match update_expense_of(update_data) {
            Err(e) => r == Err::<ApiResponse<Expense>, AppError>(AppError::Validation(e)) && final(pool).expenses@ == old(pool).expenses@,
            Ok(patch) => match owned_lookup(old(pool).expenses@, expense_id, user_id) {
                Some(row) => {
                    &&& r matches Ok(response)
                    &&& response.status == STATUS_OK
                    &&& response.data == row.patched(patch.stamped(response.data.updated_at))
                    &&& response.data.updated_at.in_range()
                    &&& final(pool).expenses@ == old(pool).expenses@.update(
                        index_of(old(pool).expenses@, expense_id),
                        response.data,
                    )
                },
                None => r == Err::<ApiResponse<Expense>, AppError>(AppError::NotFound) && final(pool).expenses@ == old(pool).expenses@,
            },
        },
{
    let patch = match validate_update_expense(update_data) {
        Ok(patch) => patch,
        Err(e) => {
            return Err(AppError::from(e));
        },
    };
    match expense_service::update_expense(pool, expense_id, user_id, patch) {
        Ok(row) => {
            assert forall|i: int| 0 <= i < pool.expenses@.len() && all_valid(
                old(pool).expenses@,
            ) implies (#[trigger] pool.expenses@[i]).valid() by {
                assert(old(pool).expenses@[i].valid());
            }
            Ok(ok(row))
        },
        Err(e) => Err(AppError::from(e)),
    }
}

/// Removes the expense record with the identifier `expense_id` if it belongs
/// to `user_id`, and reports one removed row. Where there is no such record
/// the error is `NotFound` and nothing changes.
pub fn delete_expense(pool: &mut Store, expense_id: RecordId, user_id: RecordId) -> (r: Result<
    ApiResponse<usize>,
    AppError,
>)
    requires
        old(pool).wf(),
    ensures
        final(pool).wf(),
        final(pool).users == old(pool).users,
        final(pool).incomes == old(pool).incomes,
        all_valid(old(pool).expenses@) ==> all_valid(final(pool).expenses@),
        match owned_lookup(old(pool).expenses@, expense_id, user_id) {
            Some(_) => r matches Ok(response) && response.status == STATUS_OK && response.data == 1
                && final(pool).expenses@ == without(old(pool).expenses@, expense_id),
            None => r == Err::<ApiResponse<usize>, AppError>(AppError::NotFound) && final(pool).expenses@ == old(pool).expenses@,
        },
{
    match expense_service::delete_expense(pool, expense_id, user_id) {
        Ok(count) => {
            assert forall|i: int| 0 <= i < pool.expenses@.len() && all_valid(
                old(pool).expenses@,
            ) implies (#[trigger] pool.expenses@[i]).valid() by {
                let at = index_of(old(pool).expenses@, expense_id);
                let from = if i < at { i } else { i + 1 };
                assert(old(pool).expenses@[from].valid());
            }
            Ok(ok(count))
        },
        Err(e) => Err(AppError::from(e)),
    }
}

} // verus!
