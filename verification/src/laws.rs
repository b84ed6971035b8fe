//! What holds of the store's operations taken together, stated over the
//! meaning that their contracts give them.

use crate::database::table::found;
use crate::database::table::holds;
use crate::database::table::index_of;
use crate::database::table::keys_unique;
use crate::database::table::lemma_lookup_at;
use crate::database::table::lemma_push_fresh;
use crate::database::table::lemma_remove_keeps_unique;
use crate::database::table::lemma_update_same_key;
use crate::database::table::lookup;
use crate::database::table::newest_first;
use crate::database::table::owned_lookup;
use crate::database::table::owned_rows;
use crate::database::table::without;
use crate::database::table::Owned;
use crate::database::table::Record;
use crate::database::Store;
use crate::models::expense::Expense;
use crate::models::expense::UpdateExpense;
use crate::models::ident::RecordId;
use crate::models::income::Income;
use crate::models::income::UpdateIncome;
use crate::models::time::Timestamp;
use crate::models::user::UpdateUser;
use crate::models::user::User;
use vstd::prelude::*;

verus! {

/// Reading twice gives the same answer: as long as no row of a table was
/// written between two reads, both reads of a record report the same, and
/// so do both reads of a user and of an owner's records. What happens to the
/// other tables meanwhile makes no difference.
pub proof fn lemma_read_repeats(first: Store, second: Store, id: RecordId, owner: RecordId)
    ensures
        first.incomes@ == second.incomes@ ==> found(owned_lookup(first.incomes@, id, owner))
            == found(owned_lookup(second.incomes@, id, owner)),
        first.expenses@ == second.expenses@ ==> found(owned_lookup(first.expenses@, id, owner))
            == found(owned_lookup(second.expenses@, id, owner)),
        first.users@ == second.users@ ==> lookup(first.users@, id) == lookup(second.users@, id),
        first.incomes@ == second.incomes@ ==> newest_first(owned_rows(first.incomes@, owner))
            == newest_first(owned_rows(second.incomes@, owner)),
        first.expenses@ == second.expenses@ ==> newest_first(owned_rows(first.expenses@, owner))
            == newest_first(owned_rows(second.expenses@, owner)),
{
}

/// A record is found under its own owner and under no other: asked for with
/// the identifier of an existing record and another user's identifier, the
/// table answers as if the record did not exist.
pub proof fn lemma_owner_isolation<T: Owned>(rows: Seq<T>, i: int, other: RecordId)
    requires
        keys_unique(rows),
        0 <= i < rows.len(),
        other != rows[i].owner_key(),
    ensures
        owned_lookup(rows, rows[i].key(), rows[i].owner_key()) == Some(rows[i]),
        owned_lookup(rows, rows[i].key(), other) == None::<T>,
        found(owned_lookup(rows, rows[i].key(), other)) == found(None::<T>),
{
    lemma_lookup_at(rows, i);
}

/// A record is found under an owner exactly when some row has both the
/// identifier and the owner, and the record found is that row.
pub proof fn lemma_owned_lookup_meaning<T: Owned>(rows: Seq<T>, id: RecordId, owner: RecordId)
    requires
        keys_unique(rows),
    ensures
        owned_lookup(rows, id, owner) is Some <==> exists|i: int|
            0 <= i < rows.len() && (#[trigger] rows[i]).key() == id && rows[i].owner_key()
                == owner,
        owned_lookup(rows, id, owner) matches Some(row) ==> rows.contains(row) && row.key() == id
            && row.owner_key() == owner,
{
    if owned_lookup(rows, id, owner) is Some {
        let i = index_of(rows, id);
        assert(rows[i].key() == id && rows[i].owner_key() == owner);
    }
    if exists|i: int|
        0 <= i < rows.len() && (#[trigger] rows[i]).key() == id && rows[i].owner_key() == owner {
        let i = choose|i: int|
            0 <= i < rows.len() && (#[trigger] rows[i]).key() == id && rows[i].owner_key()
                == owner;
        lemma_lookup_at(rows, i);
    }
}

/// A change to an income record touches what it supplies and the time of the
/// last change, and nothing else: the identifier, the owner and the time of
/// creation stay, and so does every field that the patch leaves out. A patch
/// that supplies only an amount gives the old record with the new amount and
/// the new time of change.
pub proof fn lemma_income_patch(row: Income, patch: UpdateIncome, now: Timestamp)
    ensures
        row.patched(patch, now).id == row.id,
        row.patched(patch, now).user_id == row.user_id,
        row.patched(patch, now).created_at == row.created_at,
        row.patched(patch, now).updated_at == now,
        patch.source is None ==> row.patched(patch, now).source == row.source,
        patch.amount is None ==> row.patched(patch, now).amount == row.amount,
        patch.date is None ==> row.patched(patch, now).date == row.date,
        patch.description is None ==> row.patched(patch, now).description == row.description,
        patch.source matches Some(v) ==> row.patched(patch, now).source == v,
        patch.amount matches Some(v) ==> row.patched(patch, now).amount == v,
        patch.date matches Some(v) ==> row.patched(patch, now).date == v,
        patch.description matches Some(v) ==> row.patched(patch, now).description == Some(v),
        (patch.source is None && patch.date is None && patch.description is None && patch.amount
            is Some) ==> row.patched(patch, now) == (Income {
            amount: patch.amount->Some_0,
            updated_at: now,
            ..row
        }),
{
}

/// A change to an expense record touches what it supplies and nothing else:
/// the identifier, the owner and the time of creation stay, and so does
/// every field that the patch leaves out.
pub proof fn lemma_expense_patch(row: Expense, patch: UpdateExpense)
    ensures
        row.patched(patch).id == row.id,
        row.patched(patch).user_id == row.user_id,
        row.patched(patch).created_at == row.created_at,
        patch.item_name is None ==> row.patched(patch).item_name == row.item_name,
        patch.amount is None ==> row.patched(patch).amount == row.amount,
        patch.date is None ==> row.patched(patch).date == row.date,
        patch.description is None ==> row.patched(patch).description == row.description,
        patch.updated_at is None ==> row.patched(patch).updated_at == row.updated_at,
        patch.item_name matches Some(v) ==> row.patched(patch).item_name == v,
        patch.amount matches Some(v) ==> row.patched(patch).amount == v,
        patch.date matches Some(v) ==> row.patched(patch).date == v,
        patch.description matches Some(v) ==> row.patched(patch).description == Some(v),
        patch.updated_at matches Some(v) ==> row.patched(patch).updated_at == v,
{
}

/// A change to a user touches what it supplies and nothing else: the
/// identifier and the time of creation stay, and so does every field that the
/// patch leaves out.
pub proof fn lemma_user_patch(row: User, patch: UpdateUser)
    ensures
        row.patched(patch).id == row.id,
        row.patched(patch).created_at == row.created_at,
        patch.first_name is None ==> row.patched(patch).first_name == row.first_name,
        patch.last_name is None ==> row.patched(patch).last_name == row.last_name,
        patch.email is None ==> row.patched(patch).email == row.email,
        patch.password is None ==> row.patched(patch).password == row.password,
        patch.updated_at is None ==> row.patched(patch).updated_at == row.updated_at,
        patch.first_name matches Some(v) ==> row.patched(patch).first_name == v,
        patch.last_name matches Some(v) ==> row.patched(patch).last_name == v,
        patch.email matches Some(v) ==> row.patched(patch).email == v,
        patch.password matches Some(v) ==> row.patched(patch).password == v,
        patch.updated_at matches Some(v) ==> row.patched(patch).updated_at == v,
{
}

/// A change made at the time `now` carries that time, whatever time the
/// patch held itself, and is otherwise the change that the patch describes.
pub proof fn lemma_stamped_patch(
    user: User,
    user_patch: UpdateUser,
    expense: Expense,
    expense_patch: UpdateExpense,
    now: Timestamp,
)
    ensures
        user.patched(user_patch.stamped(now)).updated_at == now,
        user.patched(user_patch.stamped(now)) == (User {
            updated_at: now,
            ..user.patched(user_patch)
        }),
        expense.patched(expense_patch.stamped(now)).updated_at == now,
        expense.patched(expense_patch.stamped(now)) == (Expense {
            updated_at: now,
            ..expense.patched(expense_patch)
        }),
{
}

/// Changing one row leaves every other row as it was: after the row with
/// the identifier `id` was replaced by a row with the same identifier, a read
/// of that identifier gives the new row and a read of any other identifier
/// gives what it gave before.
pub proof fn lemma_update_then_get<T: Record>(rows: Seq<T>, id: RecordId, row: T, other: RecordId)
    requires
        keys_unique(rows),
        holds(rows, id),
        row.key() == id,
        other != id,
    ensures
        keys_unique(rows.update(index_of(rows, id), row)),
        lookup(rows.update(index_of(rows, id), row), id) == Some(row),
        lookup(rows.update(index_of(rows, id), row), other) == lookup(rows, other),
{
    let at = index_of(rows, id);
    let after = rows.update(at, row);
    lemma_update_same_key(rows, at, row);
    assert(after[at] == row);
    lemma_lookup_at(after, at);
    if holds(rows, other) {
        let k = index_of(rows, other);
        assert(after[k] == rows[k]);
        lemma_lookup_at(after, k);
    } else if holds(after, other) {
        let k = index_of(after, other);
        assert(rows[k].key() == other);
    }
}

/// A change keeps a record with its owner: after the row with the identifier
/// `id` was replaced by a row with the same identifier and the same owner,
/// that owner reads the new row, and anybody else reads nothing, as before.
pub proof fn lemma_update_then_get_owned<T: Owned>(
    rows: Seq<T>,
    id: RecordId,
    row: T,
    stranger: RecordId,
)
    requires
        keys_unique(rows),
        holds(rows, id),
        row.key() == id,
        row.owner_key() == rows[index_of(rows, id)].owner_key(),
        stranger != row.owner_key(),
    ensures
        owned_lookup(rows.update(index_of(rows, id), row), id, row.owner_key()) == Some(row),
        owned_lookup(rows.update(index_of(rows, id), row), id, stranger) == None::<T>,
        owned_lookup(rows, id, stranger) == None::<T>,
{
    let at = index_of(rows, id);
    let after = rows.update(at, row);
    lemma_update_same_key(rows, at, row);
    assert(after[at] == row);
    lemma_lookup_at(after, at);
}

/// What was created is found: after a row with a new identifier was added, a
/// read of that identifier gives exactly that row, no earlier row has its
/// identifier, and a read of any other identifier gives what it gave before.
pub proof fn lemma_create_then_get<T: Record>(rows: Seq<T>, row: T, other: RecordId)
    requires
        keys_unique(rows),
        !holds(rows, row.key()),
        other != row.key(),
    ensures
        keys_unique(rows.push(row)),
        forall|i: int| 0 <= i < rows.len() ==> (#[trigger] rows[i]).key() != row.key(),
        lookup(rows.push(row), row.key()) == Some(row),
        lookup(rows.push(row), other) == lookup(rows, other),
{
    let after = rows.push(row);
    lemma_push_fresh(rows, row);
    assert(after[rows.len() as int] == row);
    lemma_lookup_at(after, rows.len() as int);
    if holds(rows, other) {
        let k = index_of(rows, other);
        assert(after[k] == rows[k]);
        lemma_lookup_at(after, k);
    } else if holds(after, other) {
        let k = index_of(after, other);
        assert(rows[k].key() == other);
    }
}

/// What was created for an owner is found under that owner, and under no
/// other.
pub proof fn lemma_create_then_get_owned<T: Owned>(rows: Seq<T>, row: T, stranger: RecordId)
    requires
        keys_unique(rows),
        !holds(rows, row.key()),
        stranger != row.owner_key(),
    ensures
        owned_lookup(rows.push(row), row.key(), row.owner_key()) == Some(row),
        owned_lookup(rows.push(row), row.key(), stranger) == None::<T>,
{
    let after = rows.push(row);
    lemma_push_fresh(rows, row);
    assert(after[rows.len() as int] == row);
    lemma_lookup_at(after, rows.len() as int);
}

/// What was removed is gone: after the row with the identifier `id` left the
/// table, a read of that identifier finds nothing, and a read of any other
/// identifier gives what it gave before.
pub proof fn lemma_delete_then_get<T: Record>(rows: Seq<T>, id: RecordId, other: RecordId)
    requires
        keys_unique(rows),
        other != id,
    ensures
        keys_unique(without(rows, id)),
        lookup(without(rows, id), id) == None::<T>,
        lookup(without(rows, id), other) == lookup(rows, other),
{
    if holds(rows, id) {
        let at = index_of(rows, id);
        let after = rows.remove(at);
        lemma_remove_keeps_unique(rows, at);
        if holds(rows, other) {
            let k = index_of(rows, other);
            let k1 = if k < at { k } else { k - 1 };
            assert(after[k1] == rows[k]);
            lemma_lookup_at(after, k1);
        } else if holds(after, other) {
            let k = index_of(after, other);
            let k0 = if k < at { k } else { k + 1 };
            assert(rows[k0].key() == other);
        }
    }
}

/// What was removed is gone for every owner: after the row with the
/// identifier `id` left the table, a read of that identifier finds nothing,
/// whoever asks.
pub proof fn lemma_delete_then_get_owned<T: Owned>(rows: Seq<T>, id: RecordId, owner: RecordId)
    requires
        keys_unique(rows),
    ensures
        owned_lookup(without(rows, id), id, owner) == None::<T>,
        found(owned_lookup(without(rows, id), id, owner)) == found(None::<T>),
{
    if holds(rows, id) {
        lemma_remove_keeps_unique(rows, index_of(rows, id));
    }
}

/// The rows listed for an owner are the rows of the table that belong to
/// that owner, and no others.
pub proof fn lemma_owned_rows_meaning<T: Owned>(rows: Seq<T>, owner: RecordId, row: T)
    ensures
        owned_rows(rows, owner).contains(row) <==> rows.contains(row) && row.owner_key() == owner,
    decreases rows.len(),
{
    reveal(Seq::filter);
    if rows.len() > 0 {
        let front = rows.drop_last();
        let last = rows.last();
        lemma_owned_rows_meaning(front, owner, row);
        let kept = owned_rows(front, owner);
        if owned_rows(rows, owner).contains(row) {
            let k = choose|k: int|
                0 <= k < owned_rows(rows, owner).len() && owned_rows(rows, owner)[k] == row;
            if last.owner_key() == owner && k == kept.len() {
                assert(rows[rows.len() - 1] == row);
            } else {
                assert(kept[k] == row);
                let j = choose|j: int| 0 <= j < front.len() && front[j] == row;
                assert(rows[j] == row);
            }
        }
        if rows.contains(row) && row.owner_key() == owner {
            let j = choose|j: int| 0 <= j < rows.len() && rows[j] == row;
            if j == rows.len() - 1 {
                assert(owned_rows(rows, owner)[kept.len() as int] == row);
            } else {
                assert(front[j] == row);
                let k = choose|k: int| 0 <= k < kept.len() && kept[k] == row;
                assert(owned_rows(rows, owner)[k] == row);
            }
        }
    }
}

} // verus!
