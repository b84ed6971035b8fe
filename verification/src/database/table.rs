//! A table of rows with unique identifiers, and what its operations mean.

use crate::errors::StoreError;
use crate::models::ident::RecordId;
use crate::models::time::Date;
use vstd::prelude::*;

verus! {

/// A row that is found by its identifier.
pub trait Record: Sized {
    /// The identifier of the row.
    spec fn key(&self) -> RecordId;

    fn id(&self) -> (r: RecordId)
        ensures
            r == self.key(),
    ;

    /// A copy of the row, equal to it in every field.
    fn duplicate(&self) -> (r: Self)
        ensures
            r == *self,
    ;
}

/// A row that belongs to one user and carries a date.
pub trait Owned: Record {
    /// The identifier of the user the row belongs to.
    spec fn owner_key(&self) -> RecordId;

    /// The date the row carries.
    spec fn day(&self) -> Date;

    fn owner(&self) -> (r: RecordId)
        ensures
            r == self.owner_key(),
    ;

    fn date(&self) -> (r: Date)
        ensures
            r == self.day(),
    ;
}

/// No two rows share an identifier.
pub open spec fn keys_unique<T: Record>(rows: Seq<T>) -> bool {
    forall|i: int, j: int| 0 <= i < j < rows.len() ==> rows[i].key() != rows[j].key()
}

/// Some row has the identifier `id`.
pub open spec fn holds<T: Record>(rows: Seq<T>, id: RecordId) -> bool {
    exists|i: int| 0 <= i < rows.len() && #[trigger] rows[i].key() == id
}

/// Some row has an identifier that is marked as a random UUID. Only such a
/// row can stand in the way of a freshly drawn identifier.
pub open spec fn holds_random_kind<T: Record>(rows: Seq<T>) -> bool {
    exists|i: int| 0 <= i < rows.len() && (#[trigger] rows[i].key()).random_kind()
}

/// The place of a row with the identifier `id`, where there is one.
pub open spec fn index_of<T: Record>(rows: Seq<T>, id: RecordId) -> int {
    choose|i: int| 0 <= i < rows.len() && #[trigger] rows[i].key() == id
}

/// The row with the identifier `id`, if there is one.
pub open spec fn lookup<T: Record>(rows: Seq<T>, id: RecordId) -> Option<T> {
    if holds(rows, id) {
        Some(rows[index_of(rows, id)])
    } else {
        None
    }
}

/// The row with the identifier `id`, if there is one and it belongs to
/// `owner`. A row of another owner is as absent as a row that does not exist.
pub open spec fn owned_lookup<T: Owned>(rows: Seq<T>, id: RecordId, owner: RecordId) -> Option<T> {
    match lookup(rows, id) {
        Some(row) => if row.owner_key() == owner {
            Some(row)
        } else {
            None
        },
        None => None,
    }
}

/// The rows that belong to `owner`, in the order of the table.
pub open spec fn owned_rows<T: Owned>(rows: Seq<T>, owner: RecordId) -> Seq<T> {
    rows.filter(|row: T| row.owner_key() == owner)
}

/// Where a row dated `day` goes into rows ordered from newest to oldest:
/// behind every row of the same or a later day, before the first older one.
pub open spec fn slot<T: Owned>(sorted: Seq<T>, day: Date) -> int
    decreases sorted.len(),
{
    if sorted.len() == 0 || day.later_than(sorted.first().day()) {
        0
    } else {
        1 + slot(sorted.drop_first(), day)
    }
}

/// The rows ordered from newest to oldest; rows of one day keep the order
/// they had.
pub open spec fn newest_first<T: Owned>(rows: Seq<T>) -> Seq<T>
    decreases rows.len(),
{
    if rows.len() == 0 {
        rows
    } else {
        let rest = newest_first(rows.drop_last());
        rest.insert(slot(rest, rows.last().day()), rows.last())
    }
}

/// No row is followed by a row of a later day.
pub open spec fn is_newest_first<T: Owned>(rows: Seq<T>) -> bool {
    forall|i: int, j: int|
        0 <= i < j < rows.len() ==> (#[trigger] rows[i]).day().not_before((#[trigger] rows[j]).day())
}

/// With unique identifiers, a row that has the identifier is the row that
/// `lookup` finds.
pub proof fn lemma_lookup_at<T: Record>(rows: Seq<T>, i: int)
    requires
        keys_unique(rows),
        0 <= i < rows.len(),
    ensures
        holds(rows, rows[i].key()),
        index_of(rows, rows[i].key()) == i,
        lookup(rows, rows[i].key()) == Some(rows[i]),
{
    let id = rows[i].key();
    assert(rows[i].key() == id);
    let j = index_of(rows, id);
    if j < i {
        assert(rows[j].key() != rows[i].key());
    } else if i < j {
        assert(rows[i].key() != rows[j].key());
    }
}

/// What `slot` gives lies within the rows; the rows before it are not older
/// than `day`, and the row at it is.
pub proof fn lemma_slot<T: Owned>(sorted: Seq<T>, day: Date)
    ensures
        0 <= slot(sorted, day) <= sorted.len(),
        forall|k: int|
            0 <= k < slot(sorted, day) ==> (#[trigger] sorted[k]).day().not_before(day),
        slot(sorted, day) < sorted.len() ==> day.later_than(sorted[slot(sorted, day)].day()),
    decreases sorted.len(),
{
    if sorted.len() == 0 || day.later_than(sorted.first().day()) {
    } else {
        let rest = sorted.drop_first();
        lemma_slot(rest, day);
        assert forall|k: int| 0 <= k < slot(sorted, day) implies (#[trigger] sorted[k]).day().not_before(
            day,
        ) by {
            if k > 0 {
                assert(sorted[k] == rest[k - 1]);
            }
        }
        if slot(sorted, day) < sorted.len() {
            assert(sorted[slot(sorted, day)] == rest[slot(rest, day)]);
        }
    }
}

/// Putting a row at its slot keeps the order from newest to oldest.
pub proof fn lemma_insert_keeps_order<T: Owned>(sorted: Seq<T>, row: T)
    requires
        is_newest_first(sorted),
    ensures
        is_newest_first(sorted.insert(slot(sorted, row.day()), row)),
{
    let p = slot(sorted, row.day());
    lemma_slot(sorted, row.day());
    let out = sorted.insert(p, row);
    assert forall|i: int, j: int| 0 <= i < j < out.len() implies (#[trigger] out[i]).day().not_before(
        (#[trigger] out[j]).day(),
    ) by {
        if j < p {
            assert(out[i] == sorted[i] && out[j] == sorted[j]);
        } else if j == p {
            assert(out[i] == sorted[i]);
        } else if i < p {
            assert(out[i] == sorted[i] && out[j] == sorted[j - 1]);
        } else if i == p {
            assert(out[j] == sorted[j - 1]);
            assert(sorted[p].day().not_before(sorted[j - 1].day()) || p == j - 1);
        } else {
            assert(out[i] == sorted[i - 1] && out[j] == sorted[j - 1]);
        }
    }
}

/// Ordering rows from newest to oldest gives the same rows, as often, and no
/// row of the result is followed by a row of a later day.
pub proof fn lemma_newest_first<T: Owned>(rows: Seq<T>)
    ensures
        is_newest_first(newest_first(rows)),
        newest_first(rows).len() == rows.len(),
        newest_first(rows).to_multiset() == rows.to_multiset(),
    decreases rows.len(),
{
    broadcast use vstd::seq_lib::group_to_multiset_ensures;

    if rows.len() > 0 {
        let front = rows.drop_last();
        let rest = newest_first(front);
        lemma_newest_first(front);
        lemma_slot(rest, rows.last().day());
        lemma_insert_keeps_order(rest, rows.last());
        let p = slot(rest, rows.last().day());
        let out = rest.insert(p, rows.last());
        assert(out.remove(p) =~= rest);
        assert(out[p] == rows.last());
        assert(rest.to_multiset() =~= out.to_multiset().remove(rows.last()));
        assert(rows =~= front.push(rows.last()));
        assert(out.to_multiset() =~= rows.to_multiset());
    }
}

/// Rows of one kind, each with an identifier of its own.
#[derive(Debug)]
pub struct Table<T> {
    rows: Vec<T>,
}

impl<T> View for Table<T> {
    type V = Seq<T>;

    closed spec fn view(&self) -> Seq<T> {
        self.rows@
    }
}

impl<T: Record> Table<T> {
    /// The table keeps its promise: no two rows share an identifier.
    pub open spec fn wf(&self) -> bool {
        keys_unique(self@)
    }

    /// An empty table.
    pub fn new() -> (r: Table<T>)
        ensures
            r@ == Seq::<T>::empty(),
            r.wf(),
    {
        Table { rows: Vec::new() }
    }

    /// The number of rows.
    pub fn len(&self) -> (r: usize)
        ensures
            r == self@.len(),
    {
        self.rows.len()
    }

    /// Where the row with the identifier `id` stands, if there is one.
    pub fn position(&self, id: RecordId) -> (r: Option<usize>)
        requires
            self.wf(),
        ensures
            r is Some <==> holds(self@, id),
            r matches Some(i) ==> i < self@.len() && i == index_of(self@, id),
    {
        let n: usize = self.rows.len();
        let mut i: usize = 0;
        while i < n
            invariant
                i <= n,
                n == self@.len(),
                self.wf(),
                forall|k: int| 0 <= k < i ==> (#[trigger] self@[k]).key() != id,
            decreases n - i,
        {
            if self.rows[i].id().0 == id.0 {
                proof {
                    lemma_lookup_at(self@, i as int);
                }
                return Some(i);
            }
            i = i + 1;
        }
        None
    }

    /// The row at place `i`.
    pub fn row(&self, i: usize) -> (r: &T)
        requires
            i < self@.len(),
        ensures
            *r == self@[i as int],
    {
        &self.rows[i]
    }

    /// A copy of every row, in the order of the table.
    pub fn all(&self) -> (r: Vec<T>)
        ensures
            r@ == self@,
    {
        let n: usize = self.rows.len();
        let mut out: Vec<T> = Vec::new();
        let mut i: usize = 0;
        while i < n
            invariant
                i <= n,
                n == self@.len(),
                out@ == self@.take(i as int),
            decreases n - i,
        {
            out.push(self.rows[i].duplicate());
            assert(self@.take(i + 1) =~= self@.take(i as int).push(self@[i as int]));
            i = i + 1;
        }
        assert(self@.take(n as int) =~= self@);
        out
    }

    /// A copy of the row with the identifier `id`, if there is one.
    pub fn find(&self, id: RecordId) -> (r: Option<T>)
        requires
            self.wf(),
        ensures
            r == lookup(self@, id),
    {
        match self.position(id) {
            Some(i) => Some(self.rows[i].duplicate()),
            None => None,
        }
    }

    /// Adds a row and hands back a copy of it. Where a row with the same
    /// identifier is stored already, nothing changes.
    pub fn insert(&mut self, row: T) -> (r: Result<T, StoreError>)
        requires
            old(self).wf(),
        ensures
            final(self).wf(),
            holds(old(self)@, row.key()) ==> r == Err::<T, StoreError>(StoreError::Conflict)
                && final(self)@ == old(self)@,
            !holds(old(self)@, row.key()) ==> r == Ok::<T, StoreError>(row) && final(self)@ == old(self)@.push(row),
    {
        match self.position(row.id()) {
            Some(_) => Err(StoreError::Conflict),
            None => {
                let copy = row.duplicate();
                self.rows.push(row);
                proof {
                    lemma_push_fresh(old(self)@, row);
                }
                Ok(copy)
            },
        }
    }

    /// Puts `row` in the place of the row at `i`, which has the same
    /// identifier.
    pub fn replace(&mut self, i: usize, row: T)
        requires
            old(self).wf(),
            i < old(self)@.len(),
            row.key() == old(self)@[i as int].key(),
        ensures
            final(self).wf(),
            final(self)@ == old(self)@.update(i as int, row),
    {
        self.rows[i] = row;
        proof {
            lemma_update_same_key(old(self)@, i as int, row);
        }
    }

    /// Takes out the row with the identifier `id` and hands it back.
    pub fn remove(&mut self, id: RecordId) -> (r: Result<T, StoreError>)
        requires
            old(self).wf(),
        ensures
            final(self).wf(),
            r == match lookup(old(self)@, id) {
                Some(row) => Ok::<T, StoreError>(row),
                None => Err::<T, StoreError>(StoreError::NotFound),
            },
            final(self)@ == without(old(self)@, id),
    {
        match self.position(id) {
            Some(i) => {
                let row = self.rows.remove(i);
                proof {
                    lemma_remove_keeps_unique(old(self)@, i as int);
                }
                Ok(row)
            },
            None => Err(StoreError::NotFound),
        }
    }
}

impl<T: Owned> Table<T> {
    /// A copy of the row with the identifier `id`, if there is one and it
    /// belongs to `owner`.
    pub fn find_owned(&self, id: RecordId, owner: RecordId) -> (r: Option<T>)
        requires
            self.wf(),
        ensures
            r == owned_lookup(self@, id, owner),
    {
        match self.position(id) {
            Some(i) => {
                if self.rows[i].owner().0 == owner.0 {
                    Some(self.rows[i].duplicate())
                } else {
                    None
                }
            },
            None => None,
        }
    }

    /// Where the row with the identifier `id` stands, if there is one and it
    /// belongs to `owner`.
    pub fn position_owned(&self, id: RecordId, owner: RecordId) -> (r: Option<usize>)
        requires
            self.wf(),
        ensures
            r is Some <==> owned_lookup(self@, id, owner) is Some,
            r matches Some(i) ==> i < self@.len() && i == index_of(self@, id),
    {
        match self.position(id) {
            Some(i) => {
                if self.rows[i].owner().0 == owner.0 {
                    Some(i)
                } else {
                    None
                }
            },
            None => None,
        }
    }

    /// A copy of every row that belongs to `owner`, in the order of the table.
    pub fn owned(&self, owner: RecordId) -> (r: Vec<T>)
        ensures
            r@ == owned_rows(self@, owner),
    {
        let n: usize = self.rows.len();
        let mut out: Vec<T> = Vec::new();
        let mut i: usize = 0;
        assert(self@.take(0) =~= Seq::<T>::empty());
        while i < n
            invariant
                i <= n,
                n == self@.len(),
                out@ == owned_rows(self@.take(i as int), owner),
            decreases n - i,
        {
            proof {
                lemma_owned_rows_step(self@, i as int, owner);
            }
            if self.rows[i].owner().0 == owner.0 {
                out.push(self.rows[i].duplicate());
            }
            i = i + 1;
        }
        assert(self@.take(n as int) =~= self@);
        out
    }

    /// A copy of every row that belongs to `owner`, from newest to oldest.
    pub fn list_owned(&self, owner: RecordId) -> (r: Vec<T>)
        ensures
            r@ == newest_first(owned_rows(self@, owner)),
            is_newest_first(r@),
            r@.to_multiset() == owned_rows(self@, owner).to_multiset(),
    {
        let n: usize = self.rows.len();
        let mut out: Vec<T> = Vec::new();
        let mut i: usize = 0;
        assert(self@.take(0) =~= Seq::<T>::empty());
        while i < n
            invariant
                i <= n,
                n == self@.len(),
                out@ == newest_first(owned_rows(self@.take(i as int), owner)),
            decreases n - i,
        {
            proof {
                lemma_owned_rows_step(self@, i as int, owner);
            }
            if self.rows[i].owner().0 == owner.0 {
                let ghost before = owned_rows(self@.take(i as int), owner);
                let row = self.rows[i].duplicate();
                let p = insertion_slot(&out, row.date());
                out.insert(p, row);
                assert(before.push(row).drop_last() =~= before);
            }
            i = i + 1;
        }
        assert(self@.take(n as int) =~= self@);
        proof {
            lemma_newest_first(owned_rows(self@, owner));
        }
        out
    }

    /// Takes out the row with the identifier `id` if it belongs to `owner`,
    /// and says how many rows left the table: one or none.
    pub fn remove_owned(&mut self, id: RecordId, owner: RecordId) -> (r: usize)
        requires
            old(self).wf(),
        ensures
            final(self).wf(),
            owned_lookup(old(self)@, id, owner) is Some ==> r == 1 && final(self)@ == without(
                old(self)@,
                id,
            ),
            owned_lookup(old(self)@, id, owner) is None ==> r == 0 && final(self)@ == old(self)@,
    {
        match self.position_owned(id, owner) {
            Some(i) => {
                let _ = self.rows.remove(i);
                proof {
                    lemma_remove_keeps_unique(old(self)@, i as int);
                }
                1
            },
            None => 0,
        }
    }
}

/// Finds the slot of a row dated `day` in rows ordered from newest to oldest.
pub fn insertion_slot<T: Owned>(sorted: &Vec<T>, day: Date) -> (p: usize)
    ensures
        p == slot(sorted@, day),
        p <= sorted@.len(),
{
    let n: usize = sorted.len();
    let mut p: usize = 0;
    assert(sorted@.subrange(0, n as int) =~= sorted@);
    while p < n && !day.is_after(&sorted[p].date())
        invariant
            p <= n,
            n == sorted@.len(),
            slot(sorted@, day) == p + slot(sorted@.subrange(p as int, n as int), day),
        decreases n - p,
    {
        proof {
            let cur = sorted@.subrange(p as int, n as int);
            assert(cur.first() == sorted@[p as int]);
            assert(cur.drop_first() =~= sorted@.subrange(p + 1, n as int));
        }
        p = p + 1;
    }
    proof {
        let cur = sorted@.subrange(p as int, n as int);
        if p < n {
            assert(cur.first() == sorted@[p as int]);
        }
    }
    p
}

/// The rows of `owner` among the first `i + 1` rows are those among the
/// first `i`, followed by row `i` where it belongs to `owner`.
pub proof fn lemma_owned_rows_step<T: Owned>(rows: Seq<T>, i: int, owner: RecordId)
    requires
        0 <= i < rows.len(),
    ensures
        owned_rows(rows.take(i + 1), owner) == if rows[i].owner_key() == owner {
            owned_rows(rows.take(i), owner).push(rows[i])
        } else {
            owned_rows(rows.take(i), owner)
        },
{
    reveal(Seq::filter);
    assert(rows.take(i + 1).drop_last() =~= rows.take(i));
    assert(rows.take(i + 1).last() == rows[i]);
}

/// What a read reports: the row, or `NotFound`.
pub open spec fn found<T>(row: Option<T>) -> Result<T, StoreError> {
    match row {
        Some(row) => Ok(row),
        None => Err(StoreError::NotFound),
    }
}

/// What a removal reports for the number of rows that left the table: that
/// number, or `NotFound` where no row left.
pub open spec fn removal(count: usize) -> Result<usize, StoreError> {
    if count == 0 {
        Err(StoreError::NotFound)
    } else {
        Ok(count)
    }
}

/// Turns the number of rows that a removal took out into its result. The
/// number decides: no row, no success.
pub fn removal_outcome(count: usize) -> (r: Result<usize, StoreError>)
    ensures
        r == removal(count),
{
    if count == 0 {
        Err(StoreError::NotFound)
    } else {
        Ok(count)
    }
}

/// The rows without the row that has the identifier `id`.
pub open spec fn without<T: Record>(rows: Seq<T>, id: RecordId) -> Seq<T> {
    if holds(rows, id) {
        rows.remove(index_of(rows, id))
    } else {
        rows
    }
}

/// Adding a row whose identifier is new keeps the identifiers unique.
pub proof fn lemma_push_fresh<T: Record>(rows: Seq<T>, row: T)
    requires
        keys_unique(rows),
        !holds(rows, row.key()),
    ensures
        keys_unique(rows.push(row)),
{
    let out = rows.push(row);
    assert forall|i: int, j: int| 0 <= i < j < out.len() implies out[i].key() != out[j].key() by {
        if j == rows.len() {
            assert(rows[i].key() != row.key());
        }
    }
}

/// Replacing a row by one with the same identifier keeps the identifiers
/// unique.
pub proof fn lemma_update_same_key<T: Record>(rows: Seq<T>, i: int, row: T)
    requires
        keys_unique(rows),
        0 <= i < rows.len(),
        row.key() == rows[i].key(),
    ensures
        keys_unique(rows.update(i, row)),
{
    let out = rows.update(i, row);
    assert forall|a: int, b: int| 0 <= a < b < out.len() implies out[a].key() != out[b].key() by {
        assert(out[a].key() == rows[a].key());
        assert(out[b].key() == rows[b].key());
    }
}

/// Taking a row out keeps the identifiers unique, and the identifier of the
/// row that left is held no more.
pub proof fn lemma_remove_keeps_unique<T: Record>(rows: Seq<T>, i: int)
    requires
        keys_unique(rows),
        0 <= i < rows.len(),
    ensures
        keys_unique(rows.remove(i)),
        !holds(rows.remove(i), rows[i].key()),
{
    let out = rows.remove(i);
    assert forall|a: int, b: int| 0 <= a < b < out.len() implies out[a].key() != out[b].key() by {
        let a0 = if a < i { a } else { a + 1 };
        let b0 = if b < i { b } else { b + 1 };
        assert(out[a] == rows[a0] && out[b] == rows[b0]);
    }
    if holds(out, rows[i].key()) {
        let k = index_of(out, rows[i].key());
        let k0 = if k < i { k } else { k + 1 };
        assert(out[k] == rows[k0]);
        if k0 < i {
            assert(rows[k0].key() != rows[i].key());
        } else {
            assert(rows[i].key() != rows[k0].key());
        }
    }
}

} // verus!
