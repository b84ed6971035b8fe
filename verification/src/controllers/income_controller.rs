//! Handlers for income records.

use crate::database::table::holds;
use crate::database::table::holds_random_kind;
use crate::database::table::index_of;
use crate::database::table::is_newest_first;
use crate::database::table::newest_first;
use crate::database::table::owned_lookup;
use crate::database::table::owned_rows;
use crate::database::table::without;
use crate::database::Store;
use crate::errors::AppError;
use crate::models::ident::RecordId;
use crate::models::income::all_valid;
use crate::models::income::Income;
use crate::response::created;
use crate::response::ok;
use crate::response::ApiResponse;
use crate::response::STATUS_CREATED;
use crate::response::STATUS_OK;
use crate::services::income_service;
use crate::validation::new_income_of;
use crate::validation::update_income_of;
use crate::validation::validate_create_income;
use crate::validation::validate_update_income;
use vstd::prelude::*;

verus! {

/// What a caller submits to create an income record. The amount and the
/// date arrive as text.
#[derive(Debug, PartialEq, Eq)]
pub struct CreateIncomeRequest {
    pub source: String,
    pub amount: String,
    pub date: String,
    pub description: Option<String>,
}

/// What a caller submits to change an income record: a field that is `None`
/// is not supplied. The amount and the date arrive as text.
#[derive(Debug, PartialEq, Eq)]
pub struct UpdateIncomeRequest {
    pub source: Option<String>,
    pub amount: Option<String>,
    pub date: Option<String>,
    pub description: Option<String>,
}

/// Lists the income records of `user_id`, from newest to oldest, with the
/// status of a successful read.
pub fn get_incomes_by_user_id(pool: &Store, user_id: RecordId) -> (r: Result<
    ApiResponse<Vec<Income>>,
    AppError,
>)
    ensures
        r matches Ok(response) && {
            &&& response.status == STATUS_OK
            &&& response.data@ == newest_first(owned_rows(pool.incomes@, user_id))
            &&& is_newest_first(response.data@)
            &&& response.data@.to_multiset() == owned_rows(pool.incomes@, user_id).to_multiset()
        },
{
    match income_service::get_all_income_for_user(pool, user_id) {
        Ok(rows) => Ok(ok(rows)),
        Err(e) => Err(AppError::from(e)),
    }
}

/// Reads the income record with the identifier `income_id` if it belongs to
/// `user_id`. A record of another user and a record that does not exist both
/// give `NotFound`.
pub fn get_income_by_id(pool: &Store, income_id: RecordId, user_id: RecordId) -> (r: Result<
    ApiResponse<Income>,
    AppError,
>)
    requires
        pool.wf(),
    ensures
        match owned_lookup(pool.incomes@, income_id, user_id) {
            Some(row) => r matches Ok(response) && response.status == STATUS_OK && response.data
                == row,
            None => r == Err::<ApiResponse<Income>, AppError>(AppError::NotFound),
        },
{
    match income_service::get_income_by_id(pool, income_id, user_id) {
        Ok(row) => Ok(ok(row)),
        Err(e) => Err(AppError::from(e)),
    }
}

/// Creates an income record of `user_id` from what was submitted.
///
/// A request that breaks a rule gives the validation error of the first
/// broken rule, and the store is not touched. Otherwise the record is stored
/// with a fresh identifier and handed back with the status of a creation.
/// That is owed wherever the table holds no identifier marked as a random
/// UUID; if the drawn identifier was taken, the error is `Internal` and
/// nothing changes.
pub fn create_income(pool: &mut Store, user_id: RecordId, new_income: CreateIncomeRequest) -> (r:
    Result<ApiResponse<Income>, AppError>)
    requires
        old(pool).wf(),
    ensures
        final(pool).wf(),
        final(pool).users == old(pool).users,
        final(pool).expenses == old(pool).expenses,
        all_valid(old(pool).incomes@) ==> all_valid(final(pool).incomes@),
        match new_income_of(user_id, new_income) {
            Err(e) => r == Err::<ApiResponse<Income>, AppError>(AppError::Validation(e)) && final(pool).incomes@ == old(pool).incomes@,
            Ok(valid) => match r {
                Ok(response) => {
                    &&& response.status == STATUS_CREATED
                    &&& response.data == valid.income_with(
                        response.data.id,
                        response.data.created_at,
                    )
                    &&& response.data.id.random_kind()
                    &&& response.data.created_at.in_range()
                    &&& !holds(old(pool).incomes@, response.data.id)
                    &&& final(pool).incomes@ == old(pool).incomes@.push(response.data)
                },
                Err(e) => {
                    &&& e == AppError::Internal
                    &&& holds_random_kind(old(pool).incomes@)
                    &&& final(pool).incomes@ == old(pool).incomes@
                },
            },
        },
{
    let valid = match validate_create_income(user_id, new_income) {
        Ok(valid) => valid,
        Err(e) => {
            return Err(AppError::from(e));
        },
    };
    match income_service::create_income(pool, valid) {
        Ok(row) => {
            assert forall|i: int| 0 <= i < pool.incomes@.len() && all_valid(
                old(pool).incomes@,
            ) implies (#[trigger] pool.incomes@[i]).valid() by {
                if i < old(pool).incomes@.len() {
                    assert(old(pool).incomes@[i].valid());
                }
            }
            Ok(created(row))
        },
        Err(e) => Err(AppError::from(e)),
    }
}

/// Changes the income record with the identifier `income_id` if it belongs
/// to `user_id`.
///
/// A request that breaks a rule gives the validation error of the first
/// broken rule, whether or not the record exists, and the store is not
/// touched. Otherwise the supplied fields are written, the time of the last
/// change is set to now, and the row after the change is handed back; where
/// there is no such record the error is `NotFound` and nothing changes.
pub fn update_income(
    pool: &mut Store,
    income_id: RecordId,
    user_id: RecordId,
    update_data: UpdateIncomeRequest,
) -> (r: Result<ApiResponse<Income>, AppError>)
    requires
        old(pool).wf(),
    ensures
        final(pool).wf(),
        final(pool).users == old(pool).users,
        final(pool).expenses == old(pool).expenses,
        all_valid(old(pool).incomes@) ==> all_valid(final(pool).incomes@),
        match update_income_of(update_data) {
            Err(e) => r == Err::<ApiResponse<Income>, AppError>(AppError::Validation(e)) && final(pool).incomes@ == old(pool).incomes@,
            Ok(patch) => match owned_lookup(old(pool).incomes@, income_id, user_id) {
                Some(row) => {
                    &&& r matches Ok(response)
                    &&& response.status == STATUS_OK
                    &&& response.data == row.patched(patch, response.data.updated_at)
                    &&& response.data.updated_at.in_range()
                    &&& final(pool).incomes@ == old(pool).incomes@.update(
                        index_of(old(pool).incomes@, income_id),
                        response.data,
                    )
                },
                None => r == Err::<ApiResponse<Income>, AppError>(AppError::NotFound) && final(pool).incomes@ == old(pool).incomes@,
            },
        },
{
    let patch = match validate_update_income(update_data) {
        Ok(patch) => patch,
        Err(e) => {
            return Err(AppError::from(e));
        },
    };
    match income_service::update_income(pool, income_id, user_id, patch) {
        Ok(row) => {
            assert forall|i: int| 0 <= i < pool.incomes@.len() && all_valid(
                old(pool).incomes@,
            ) implies (#[trigger] pool.incomes@[i]).valid() by {
                assert(old(pool).incomes@[i].valid());
            }
            Ok(ok(row))
        },
        Err(e) => Err(AppError::from(e)),
    }
}

/// Removes the income record with the identifier `income_id` if it belongs
/// to `user_id`, and reports one removed row. Where there is no such record
/// the error is `NotFound` and nothing changes.
pub fn delete_income(pool: &mut Store, income_id: RecordId, user_id: RecordId) -> (r: Result<
    ApiResponse<usize>,
    AppError,
>)
    requires
        old(pool).wf(),
    ensures
        final(pool).wf(),
        final(pool).users == old(pool).users,
        final(pool).expenses == old(pool).expenses,
        all_valid(old(pool).incomes@) ==> all_valid(final(pool).incomes@),
        match owned_lookup(old(pool).incomes@, income_id, user_id) {
            Some(_) => r matches Ok(response) && response.status == STATUS_OK && response.data == 1
                && final(pool).incomes@ == without(old(pool).incomes@, income_id),
            None => r == Err::<ApiResponse<usize>, AppError>(AppError::NotFound) && final(pool).incomes@ == old(pool).incomes@,
        },
{
    match income_service::delete_income(pool, income_id, user_id) {
        Ok(count) => {
            assert forall|i: int| 0 <= i < pool.incomes@.len() && all_valid(
                old(pool).incomes@,
            ) implies (#[trigger] pool.incomes@[i]).valid() by {
                let at = index_of(old(pool).incomes@, income_id);
                let from = if i < at { i } else { i + 1 };
                assert(old(pool).incomes@[from].valid());
            }
            Ok(ok(count))
        },
        Err(e) => Err(AppError::from(e)),
    }
}

} // verus!
