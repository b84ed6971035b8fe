//! Reading and changing users.

use crate::database::table::holds;
use crate::database::table::holds_random_kind;
use crate::database::table::index_of;
use crate::database::table::lookup;
use crate::database::table::owned_rows;
use crate::database::table::without;
use crate::database::table::Record;
use crate::database::Store;
use crate::errors::StoreError;
use crate::models::ident::RecordId;
use crate::models::time::Timestamp;
use crate::models::user::NewUser;
use crate::models::user::UpdateUser;
use crate::models::user::User;
use crate::models::user::UserWithIncomes;
use vstd::prelude::*;

verus! {

/// Every user, in the order of the table.
pub fn get_all_users(connection: &Store) -> (r: Result<Vec<User>, StoreError>)
    ensures
        r matches Ok(users) && users@ == connection.users@,
{
    Ok(connection.users.all())
}

/// The user with the identifier `user_id` and the income records that
/// belong to it, in the order of the table.
pub fn get_user_by_id(connection: &Store, user_id: RecordId) -> (r: Result<
    UserWithIncomes,
    StoreError,
>)
    requires
        connection.wf(),
    ensures
        match lookup(connection.users@, user_id) {
            Some(user) => r matches Ok(found) && found.user == user && found.incomes@
                == owned_rows(connection.incomes@, user_id),
            None => r == Err::<UserWithIncomes, StoreError>(StoreError::NotFound),
        },
{
    match connection.users.find(user_id) {
        Some(user) => {
            let user_incomes = connection.incomes.owned(user_id);
            Ok(UserWithIncomes { user, incomes: user_incomes })
        },
        None => Err(StoreError::NotFound),
    }
}

/// Stores `user` and hands back the stored row. Either the row is added, or
/// its identifier is taken and nothing changes.
pub fn insert_user(connection: &mut Store, user: User) -> (r: Result<User, StoreError>)
    requires
        old(connection).wf(),
    ensures
        final(connection).wf(),
        final(connection).incomes == old(connection).incomes,
        final(connection).expenses == old(connection).expenses,
        holds(old(connection).users@, user.id) ==> r == Err::<User, StoreError>(
            StoreError::Conflict,
        ) && final(connection).users@ == old(connection).users@,
        !holds(old(connection).users@, user.id) ==> r == Ok::<User, StoreError>(user) && final(connection).users@ == old(connection).users@.push(user),
{
    connection.users.insert(user)
}

/// Creates a user with a fresh identifier, created now.
///
/// Success is owed wherever the drawn identifier is free: on a table without
/// rows, and on any table that holds no identifier marked as a random UUID.
/// On success the stored row carries the submitted fields, an identifier
/// that no earlier row had and one time for creation and last change, and
/// the table is the old one followed by that row. Otherwise the drawn
/// identifier was taken, the result is `Conflict` and nothing changes.
pub fn create_user(connection: &mut Store, new_user: NewUser) -> (r: Result<User, StoreError>)
    requires
        old(connection).wf(),
    ensures
        final(connection).wf(),
        final(connection).incomes == old(connection).incomes,
        final(connection).expenses == old(connection).expenses,
        old(connection).users@.len() == 0 ==> r is Ok,
        !holds_random_kind(old(connection).users@) ==> r is Ok,
        r matches Ok(user) ==> {
            &&& user == new_user.user_with(user.id, user.created_at)
            &&& user.id.random_kind()
            &&& user.created_at.in_range()
            &&& !holds(old(connection).users@, user.id)
            &&& final(connection).users@ == old(connection).users@.push(user)
        },
        r matches Err(e) ==> {
            &&& e == StoreError::Conflict
            &&& holds_random_kind(old(connection).users@)
            &&& final(connection).users@ == old(connection).users@
        },
{
    let user = new_user.into_user();
    proof {
        if holds(connection.users@, user.id) {
            let i = index_of(connection.users@, user.id);
            assert(connection.users@[i].key().random_kind());
        }
    }
    insert_user(connection, user)
}

/// Applies `patch`, made at the time `now`, to the user with the identifier
/// `user_id` and hands back the row after the change: the fields that the
/// patch supplies are taken from it, the time of the last change is `now`
/// whatever the patch held there, and the rest stays. Where there is no such
/// user, the result is `NotFound` and nothing changes.
pub fn apply_user_update(
    connection: &mut Store,
    user_id: RecordId,
    patch: UpdateUser,
    now: Timestamp,
) -> (r: Result<User, StoreError>)
    requires
        old(connection).wf(),
    ensures
        final(connection).wf(),
        final(connection).incomes == old(connection).incomes,
        final(connection).expenses == old(connection).expenses,
        match lookup(old(connection).users@, user_id) {
            Some(row) => r == Ok::<User, StoreError>(row.patched(patch.stamped(now))) && final(connection).users@ == old(connection).users@.update(
                index_of(old(connection).users@, user_id),
                row.patched(patch.stamped(now)),
            ),
            None => r == Err::<User, StoreError>(StoreError::NotFound) && final(connection).users@
                == old(connection).users@,
        },
{
    match connection.users.position(user_id) {
        Some(i) => {
            let changed = connection.users.row(i).clone().apply(patch.stamp(now));
            connection.users.replace(i, changed.clone());
            Ok(changed)
        },
        None => Err(StoreError::NotFound),
    }
}

/// Changes the user with the identifier `user_id` at the time the clock
/// gives: the fields that `update_data` supplies are taken from it, the time
/// of the last change is the clock's reading whatever `update_data` held
/// there, and the rest stays. Where there is no such user, the result is
/// `NotFound` and nothing changes.
pub fn update_user(connection: &mut Store, user_id: RecordId, update_data: UpdateUser) -> (r:
    Result<User, StoreError>)
    requires
        old(connection).wf(),
    ensures
        final(connection).wf(),
        final(connection).incomes == old(connection).incomes,
        final(connection).expenses == old(connection).expenses,
        match lookup(old(connection).users@, user_id) {
            Some(row) => {
                &&& r matches Ok(user)
                &&& user == row.patched(update_data.stamped(user.updated_at))
                &&& user.updated_at.in_range()
                &&& final(connection).users@ == old(connection).users@.update(
                    index_of(old(connection).users@, user_id),
                    user,
                )
            },
            None => r == Err::<User, StoreError>(StoreError::NotFound) && final(connection).users@
                == old(connection).users@,
        },
{
    let now = Timestamp::now();
    apply_user_update(connection, user_id, update_data, now)
}

/// Removes the user with the identifier `user_id` and hands back the row
/// that was removed. Where there is no such user, the result is `NotFound`
/// and nothing changes. Income and expense records stay as they are.
pub fn delete_user(connection: &mut Store, user_id: RecordId) -> (r: Result<User, StoreError>)
    requires
        old(connection).wf(),
    ensures
        final(connection).wf(),
        final(connection).incomes == old(connection).incomes,
        final(connection).expenses == old(connection).expenses,
        r == match lookup(old(connection).users@, user_id) {
            Some(row) => Ok::<User, StoreError>(row),
            None => Err::<User, StoreError>(StoreError::NotFound),
        },
        final(connection).users@ == without(old(connection).users@, user_id),
{
    connection.users.remove(user_id)
}

} // verus!
