//! Handlers for users.

use crate::database::table::holds;
use crate::database::table::holds_random_kind;
use crate::database::table::index_of;
use crate::database::table::lookup;
use crate::database::table::owned_rows;
use crate::database::table::without;
use crate::database::Store;
use crate::errors::AppError;
use crate::models::ident::RecordId;
use crate::models::user::all_valid;
use crate::models::user::NewUser;
use crate::models::user::UpdateUser;
use crate::models::user::User;
use crate::models::user::UserWithIncomes;
use crate::response::created;
use crate::response::ok;
use crate::response::ApiResponse;
use crate::response::STATUS_CREATED;
use crate::response::STATUS_OK;
use crate::services::user_service;
use crate::validation::new_user_error;
use crate::validation::update_user_error;
use crate::validation::validate_new_user;
use crate::validation::validate_update_user;
use vstd::prelude::*;

verus! {

/// Lists every user, in the order of the table, with the status of a
/// successful read.
pub fn get_all_users(pool: &Store) -> (r: Result<ApiResponse<Vec<User>>, AppError>)
    ensures
        r matches Ok(response) && response.status == STATUS_OK && response.data@ == pool.users@,
{
    match user_service::get_all_users(pool) {
        Ok(users) => Ok(ok(users)),
        Err(e) => Err(AppError::from(e)),
    }
}

/// Reads the user with the identifier `user_id` together with the income
/// records that belong to it. Where there is no such user the error is
/// `NotFound`.
pub fn get_user_by_id(pool: &Store, user_id: RecordId) -> (r: Result<
    ApiResponse<UserWithIncomes>,
    AppError,
>)
    requires
        pool.wf(),
    ensures
        match lookup(pool.users@, user_id) {
            Some(user) => {
                &&& r matches Ok(response)
                &&& response.status == STATUS_OK
                &&& response.data.user == user
                &&& response.data.incomes@ == owned_rows(pool.incomes@, user_id)
            },
            None => r == Err::<ApiResponse<UserWithIncomes>, AppError>(AppError::NotFound),
        },
{
    match user_service::get_user_by_id(pool, user_id) {
        Ok(user) => Ok(ok(user)),
        Err(e) => Err(AppError::from(e)),
    }
}

/// Creates a user from what was submitted.
///
/// A request that breaks a rule gives the validation error of the first
/// broken rule, and the store is not touched. Otherwise the user is stored
/// with a fresh identifier and handed back with the status of a creation.
/// That is owed wherever the table holds no identifier marked as a random
/// UUID; if the drawn identifier was taken, the error is `Internal` and
/// nothing changes.
pub fn create_user(pool: &mut Store, new_user: NewUser) -> (r: Result<ApiResponse<User>, AppError>)
    requires
        old(pool).wf(),
    ensures
        final(pool).wf(),
        final(pool).incomes == old(pool).incomes,
        final(pool).expenses == old(pool).expenses,
        all_valid(old(pool).users@) ==> all_valid(final(pool).users@),
        match new_user_error(new_user) {
            Some(e) => r == Err::<ApiResponse<User>, AppError>(AppError::Validation(e)) && final(pool).users@ == old(pool).users@,
            None => match r {
                Ok(response) => {
                    &&& response.status == STATUS_CREATED
                    &&& response.data == new_user.user_with(
                        response.data.id,
                        response.data.created_at,
                    )
                    &&& response.data.id.random_kind()
                    &&& response.data.created_at.in_range()
                    &&& !holds(old(pool).users@, response.data.id)
                    &&& final(pool).users@ == old(pool).users@.push(response.data)
                },
                Err(e) => {
                    &&& e == AppError::Internal
                    &&& holds_random_kind(old(pool).users@)
                    &&& final(pool).users@ == old(pool).users@
                },
            },
        },
{
    match validate_new_user(&new_user) {
        Ok(_) => {},
        Err(e) => {
            return Err(AppError::from(e));
        },
    }
    match user_service::create_user(pool, new_user) {
        Ok(user) => {
            assert forall|i: int| 0 <= i < pool.users@.len() && all_valid(
                old(pool).users@,
            ) implies (#[trigger] pool.users@[i]).valid() by {
                if i < old(pool).users@.len() {
                    assert(old(pool).users@[i].valid());
                }
            }
            Ok(created(user))
        },
        Err(e) => Err(AppError::from(e)),
    }
}

/// Changes the user with the identifier `user_id`.
///
/// A request that breaks a rule gives the validation error of the first
/// broken rule, whether or not the user exists, and the store is not
/// touched. Otherwise the supplied fields are written, the time of the last
/// change is set to now, and the row after the change is handed back; where
/// there is no such user the error is `NotFound` and nothing changes.
pub fn update_user(pool: &mut Store, user_id: RecordId, update_data: UpdateUser) -> (r: Result<
    ApiResponse<User>,
    AppError,
>)
    requires
        old(pool).wf(),
    ensures
        final(pool).wf(),
        final(pool).incomes == old(pool).incomes,
        final(pool).expenses == old(pool).expenses,
        all_valid(old(pool).users@) ==> all_valid(final(pool).users@),
        match update_user_error(update_data) {
            Some(e) => r == Err::<ApiResponse<User>, AppError>(AppError::Validation(e)) && final(pool).users@ == old(pool).users@,
            None => match lookup(old(pool).users@, user_id) {
                Some(row) => {
                    &&& r matches Ok(response)
                    &&& response.status == STATUS_OK
                    &&& response.data == row.patched(
                        update_data.stamped(response.data.updated_at),
                    )
                    &&& response.data.updated_at.in_range()
                    &&& final(pool).users@ == old(pool).users@.update(
                        index_of(old(pool).users@, user_id),
                        response.data,
                    )
                },
                None => r == Err::<ApiResponse<User>, AppError>(AppError::NotFound) && final(pool).users@ == old(pool).users@,
            },
        },
{
    match validate_update_user(&update_data) {
        Ok(_) => {},
        Err(e) => {
            return Err(AppError::from(e));
        },
    }
    match user_service::update_user(pool, user_id, update_data) {
        Ok(user) => {
            assert forall|i: int| 0 <= i < pool.users@.len() && all_valid(
                old(pool).users@,
            ) implies (#[trigger] pool.users@[i]).valid() by {
                assert(old(pool).users@[i].valid());
            }
            Ok(ok(user))
        },
        Err(e) => Err(AppError::from(e)),
    }
}

/// Removes the user with the identifier `user_id` and hands back the row
/// that was removed. Where there is no such user the error is `NotFound`
/// and nothing changes. Income and expense records stay as they are.
pub fn delete_user(pool: &mut Store, user_id: RecordId) -> (r: Result<ApiResponse<User>, AppError>)
    requires
        old(pool).wf(),
    ensures
        final(pool).wf(),
        final(pool).incomes == old(pool).incomes,
        final(pool).expenses == old(pool).expenses,
        all_valid(old(pool).users@) ==> all_valid(final(pool).users@),
        final(pool).users@ == without(old(pool).users@, user_id),
        match lookup(old(pool).users@, user_id) {
            Some(row) => r matches Ok(response) && response.status == STATUS_OK && response.data
                == row,
            None => r == Err::<ApiResponse<User>, AppError>(AppError::NotFound),
        },
{
    match user_service::delete_user(pool, user_id) {
        Ok(user) => {
            assert forall|i: int| 0 <= i < pool.users@.len() && all_valid(
                old(pool).users@,
            ) implies (#[trigger] pool.users@[i]).valid() by {
                let at = index_of(old(pool).users@, user_id);
                let from = if i < at { i } else { i + 1 };
                assert(old(pool).users@[from].valid());
            }
            Ok(ok(user))
        },
        Err(e) => Err(AppError::from(e)),
    }
}

} // verus!
