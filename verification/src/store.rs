//! The local record store, as the engine sees it: the rows of the three
//! tables, each found by its table and identifier, and the one slot that holds
//! the checkpoint.

use vstd::prelude::*;
use crate::checkpoint::{clone_option_checkpoint, option_checkpoint, Checkpoint, CheckpointView};
use crate::error::StorageFailure;
use crate::models::{LocalRecord, LocalRecordView};
use crate::record::Table;

verus! {

/// A row as it is stored: the record, and whether it was deleted locally and
/// waits for the deletion to be pushed.
#[derive(Debug, PartialEq)]
pub struct StoredRecord {
    pub record: LocalRecord,
    pub deleted: bool,
    pub deleted_at: Option<i64>,
}

/// What a [`StoredRecord`] holds.
pub struct StoredRecordView {
    pub record: LocalRecordView,
    pub deleted: bool,
    pub deleted_at: Option<i64>,
}

impl View for StoredRecord {
    type V = StoredRecordView;

    open spec fn view(&self) -> StoredRecordView {
        StoredRecordView {
            record: self.record@,
            deleted: self.deleted,
            deleted_at: self.deleted_at,
        }
    }
}

impl Clone for StoredRecord {
    fn clone(&self) -> (copy: StoredRecord)
        ensures
            copy@ == self@,
    {
        StoredRecord {
            record: self.record.clone(),
            deleted: self.deleted,
            deleted_at: self.deleted_at,
        }
    }
}

impl StoredRecordView {
    /// Whether the row is the one with this table and identifier.
    pub open spec fn has_key(self, table: Table, id: Seq<char>) -> bool {
        self.record.table() == table && self.record.id() == id
    }

    /// Whether the row holds a change that the remote store has not
    /// acknowledged.
    pub open spec fn dirty(self) -> bool {
        self.record.synced_at().is_none()
    }
}

/// What a list of stored rows holds.
pub open spec fn rows_view(rows: Seq<StoredRecord>) -> Seq<StoredRecordView> {
    rows.map_values(|r: StoredRecord| r@)
}

/// A record as it is stored when it is written: not deleted.
pub open spec fn stored(record: LocalRecordView) -> StoredRecordView {
    StoredRecordView { record, deleted: false, deleted_at: None }
}

/// The place of the first row with a table and identifier, or the number of
/// rows where there is none.
pub open spec fn position(rows: Seq<StoredRecordView>, table: Table, id: Seq<char>) -> int
    decreases rows.len(),
{
    if rows.len() == 0 {
        0
    } else if rows[0].has_key(table, id) {
        0
    } else {
        1 + position(rows.drop_first(), table, id)
    }
}

/// Whether some row has the table and identifier.
pub open spec fn holds(rows: Seq<StoredRecordView>, table: Table, id: Seq<char>) -> bool {
    position(rows, table, id) < rows.len()
}

/// No two rows have the same table and identifier.
pub open spec fn distinct_keys(rows: Seq<StoredRecordView>) -> bool {
    forall|i: int, j: int|
        0 <= i < j < rows.len() ==> !(#[trigger] rows[i]).has_key(
            (#[trigger] rows[j]).record.table(),
            rows[j].record.id(),
        )
}

/// The rows after a record was written: it takes the place of the row with
/// its table and identifier, or comes last where there was none.
pub open spec fn upserted(rows: Seq<StoredRecordView>, record: LocalRecordView) -> Seq<
    StoredRecordView,
> {
    let at = position(rows, record.table(), record.id());
    if at < rows.len() {
        rows.update(at, stored(record))
    } else {
        rows.push(stored(record))
    }
}

/// The rows after the row with a table and identifier was removed, if there
/// was one.
pub open spec fn removed(rows: Seq<StoredRecordView>, table: Table, id: Seq<char>) -> Seq<
    StoredRecordView,
> {
    let at = position(rows, table, id);
    if at < rows.len() {
        rows.remove(at)
    } else {
        rows
    }
}

/// A row after its change was acknowledged: its version counter is one
/// higher, and it is clean.
pub open spec fn acknowledged(row: StoredRecordView, at: i64) -> StoredRecordView {
    StoredRecordView {
        record: row.record.with_sync_state((row.record.sync_version() + 1) as i64, Some(at)),
        ..row
    }
}

/// The rows after the row with a table and identifier was acknowledged, or
/// the reason why it cannot be. That there is no such row is no error.
pub open spec fn marked_synced(
    rows: Seq<StoredRecordView>,
    table: Table,
    id: Seq<char>,
    at: i64,
) -> Result<Seq<StoredRecordView>, StorageFailure> {
    let place = position(rows, table, id);
    if place < rows.len() {
        if rows[place].record.sync_version() == i64::MAX {
            Err(StorageFailure::VersionOverflow)
        } else {
            Ok(rows.update(place, acknowledged(rows[place], at)))
        }
    } else {
        Ok(rows)
    }
}

/// The rows after the row with a table and identifier was deleted locally:
/// it stays, marked as deleted and as not acknowledged.
pub open spec fn soft_deleted(
    rows: Seq<StoredRecordView>,
    table: Table,
    id: Seq<char>,
    at: i64,
) -> Seq<StoredRecordView> {
    let place = position(rows, table, id);
    if place < rows.len() {
        rows.update(
            place,
            StoredRecordView {
                record: rows[place].record.with_sync_state(rows[place].record.sync_version(), None),
                deleted: true,
                deleted_at: Some(at),
            },
        )
    } else {
        rows
    }
}

/// The number of rows that hold a change that was not acknowledged.
pub open spec fn pending(rows: Seq<StoredRecordView>) -> nat {
    rows.filter(|r: StoredRecordView| r.dirty()).len()
}

/// The place that `position` gives is within the rows or just behind them; a
/// row at it has the key, and no row before it has.
pub proof fn lemma_position(rows: Seq<StoredRecordView>, table: Table, id: Seq<char>)
    ensures
        0 <= position(rows, table, id) <= rows.len(),
        holds(rows, table, id) ==> rows[position(rows, table, id)].has_key(table, id),
        forall|j: int| 0 <= j < position(rows, table, id) ==> !(#[trigger] rows[j]).has_key(table, id),
    decreases rows.len(),
{
    if rows.len() > 0 && !rows[0].has_key(table, id) {
        let rest = rows.drop_first();
        lemma_position(rest, table, id);
        assert forall|j: int| 0 <= j < position(rows, table, id) implies !(#[trigger] rows[j]).has_key(
            table,
            id,
        ) by {
            if j > 0 {
                assert(rows[j] == rest[j - 1]);
            }
        }
    }
}

/// A row with the key that no row with the key stands before is at the place
/// that `position` gives.
pub proof fn lemma_position_is(rows: Seq<StoredRecordView>, table: Table, id: Seq<char>, at: int)
    requires
        0 <= at <= rows.len(),
        at < rows.len() ==> rows[at].has_key(table, id),
        forall|j: int| 0 <= j < at ==> !(#[trigger] rows[j]).has_key(table, id),
    ensures
        position(rows, table, id) == at,
    decreases rows.len(),
{
    if rows.len() > 0 && at > 0 {
        let rest = rows.drop_first();
        assert(!rows[0].has_key(table, id));
        assert forall|j: int| 0 <= j < at - 1 implies !(#[trigger] rest[j]).has_key(table, id) by {
            assert(rest[j] == rows[j + 1]);
        }
        lemma_position_is(rest, table, id, at - 1);
    }
}

/// Writing a record keeps the keys distinct, and the record is then the row
/// with its key.
pub proof fn lemma_upserted(rows: Seq<StoredRecordView>, record: LocalRecordView)
    requires
        distinct_keys(rows),
    ensures
        distinct_keys(upserted(rows, record)),
        holds(upserted(rows, record), record.table(), record.id()),
        upserted(rows, record)[position(upserted(rows, record), record.table(), record.id())]
            == stored(record),
{
    let table = record.table();
    let id = record.id();
    let at = position(rows, table, id);
    let after = upserted(rows, record);
    lemma_position(rows, table, id);
    assert forall|j: int| 0 <= j < at implies !(#[trigger] after[j]).has_key(table, id) by {
        assert(after[j] == rows[j]);
    }
    lemma_position_is(after, table, id, at);
    assert forall|i: int, j: int| 0 <= i < j < after.len() implies !(#[trigger] after[i]).has_key(
        (#[trigger] after[j]).record.table(),
        after[j].record.id(),
    ) by {
        if at < rows.len() {
            assert(rows[at].has_key(table, id));
            if i == at {
                assert(after[j] == rows[j]);
                assert(!rows[at].has_key(rows[j].record.table(), rows[j].record.id()));
            } else if j == at {
                assert(after[i] == rows[i]);
                assert(!rows[i].has_key(rows[at].record.table(), rows[at].record.id()));
            } else {
                assert(after[i] == rows[i] && after[j] == rows[j]);
            }
        } else {
            if j == at {
                assert(after[i] == rows[i]);
            } else {
                assert(after[i] == rows[i] && after[j] == rows[j]);
            }
        }
    }
}

/// Removing a row keeps the keys distinct, and no row has its key then.
pub proof fn lemma_removed(rows: Seq<StoredRecordView>, table: Table, id: Seq<char>)
    requires
        distinct_keys(rows),
    ensures
        distinct_keys(removed(rows, table, id)),
        !holds(removed(rows, table, id), table, id),
{
    let at = position(rows, table, id);
    let after = removed(rows, table, id);
    lemma_position(rows, table, id);
    if at < rows.len() {
        assert forall|i: int, j: int| 0 <= i < j < after.len() implies !(#[trigger] after[i]).has_key(
            (#[trigger] after[j]).record.table(),
            after[j].record.id(),
        ) by {
            let oi = if i < at { i } else { i + 1 };
            let oj = if j < at { j } else { j + 1 };
            assert(after[i] == rows[oi] && after[j] == rows[oj]);
        }
        assert forall|j: int| 0 <= j < after.len() implies !(#[trigger] after[j]).has_key(
            table,
            id,
        ) by {
            if j < at {
                assert(after[j] == rows[j]);
            } else {
                assert(after[j] == rows[j + 1]);
                assert(!rows[at].has_key(rows[j + 1].record.table(), rows[j + 1].record.id()));
            }
        }
        lemma_position_is(after, table, id, after.len() as int);
    }
}

/// A change of a row that keeps its table and identifier keeps the keys
/// distinct, and keeps the place of every key.
pub proof fn lemma_updated_in_place(rows: Seq<StoredRecordView>, at: int, row: StoredRecordView)
    requires
        distinct_keys(rows),
        0 <= at < rows.len(),
        row.record.table() == rows[at].record.table(),
        row.record.id() == rows[at].record.id(),
    ensures
        distinct_keys(rows.update(at, row)),
        forall|table: Table, id: Seq<char>| #[trigger]
            position(rows.update(at, row), table, id) == position(rows, table, id),
{
    let after = rows.update(at, row);
    assert forall|i: int, j: int| 0 <= i < j < after.len() implies !(#[trigger] after[i]).has_key(
        (#[trigger] after[j]).record.table(),
        after[j].record.id(),
    ) by {
        assert(!rows[i].has_key(rows[j].record.table(), rows[j].record.id()));
    }
    assert forall|table: Table, id: Seq<char>| #[trigger]
        position(after, table, id) == position(rows, table, id) by {
        let place = position(rows, table, id);
        lemma_position(rows, table, id);
        assert forall|j: int| 0 <= j < place implies !(#[trigger] after[j]).has_key(table, id) by {
            assert(!rows[j].has_key(table, id));
        }
        lemma_position_is(after, table, id, place);
    }
}

/// The local record store.
pub struct LocalStore {
    rows: Vec<StoredRecord>,
    checkpoint: Option<Checkpoint>,
}

/// What a [`LocalStore`] holds.
pub struct LocalStoreView {
    pub rows: Seq<StoredRecordView>,
    pub checkpoint: Option<CheckpointView>,
}

impl LocalStoreView {
    /// A store is well formed where no two of its rows have the same table
    /// and identifier.
    pub open spec fn wf(self) -> bool {
        distinct_keys(self.rows)
    }
}

impl View for LocalStore {
    type V = LocalStoreView;

    closed spec fn view(&self) -> LocalStoreView {
        LocalStoreView { rows: rows_view(self.rows@), checkpoint: option_checkpoint(self.checkpoint) }
    }
}

impl Clone for LocalStore {
    fn clone(&self) -> (copy: LocalStore)
        ensures
            copy@ == self@,
    {
        let mut rows: Vec<StoredRecord> = Vec::new();
        let mut i: usize = 0;
        while i < self.rows.len()
            invariant
                i <= self.rows.len(),
                rows.len() == i,
                forall|j: int| 0 <= j < i ==> rows@[j]@ == self.rows@[j]@,
            decreases self.rows.len() - i,
        {
            rows.push(self.rows[i].clone());
            i = i + 1;
        }
        assert(rows_view(rows@) =~= rows_view(self.rows@));
        LocalStore { rows, checkpoint: clone_option_checkpoint(&self.checkpoint) }
    }
}

impl LocalStore {
    /// Whether the store is well formed. Every store that this module hands
    /// out is, and every operation keeps it so.
    pub open spec fn wf(&self) -> bool {
        self@.wf()
    }

    /// A store without rows and without a checkpoint.
    pub fn new() -> (store: LocalStore)
        ensures
            store.wf(),
            store@.rows == Seq::<StoredRecordView>::empty(),
            store@.checkpoint.is_none(),
    {
        let store = LocalStore { rows: Vec::new(), checkpoint: None };
        assert(store@.rows =~= Seq::<StoredRecordView>::empty());
        store
    }

    /// The number of rows, deleted ones included.
    pub fn len(&self) -> (n: usize)
        ensures
            n == self@.rows.len(),
    {
        self.rows.len()
    }

    /// The row at a place, where the place is within the rows.
    pub fn row(&self, at: usize) -> (row: Option<&StoredRecord>)
        ensures
            match row {
                Some(r) => at < self@.rows.len() && r@ == self@.rows[at as int],
                None => at >= self@.rows.len(),
            },
    {
        if at < self.rows.len() {
            Some(&self.rows[at])
        } else {
            None
        }
    }

    /// The place of the row with a table and identifier.
    pub fn find(&self, table: Table, id: &str) -> (place: Option<usize>)
        ensures
            match place {
                Some(at) => holds(self@.rows, table, id@) && at == position(self@.rows, table, id@),
                None => !holds(self@.rows, table, id@),
            },
    {
        let ghost rows = self@.rows;
        let mut i: usize = 0;
        while i < self.rows.len()
            invariant
                i <= self.rows.len(),
                rows == rows_view(self.rows@),
                forall|j: int| 0 <= j < i ==> !(#[trigger] rows[j]).has_key(table, id@),
            decreases self.rows.len() - i,
        {
            let row = &self.rows[i];
            if row.record.table() == table && crate::text::str_eq(row.record.id().as_str(), id) {
                proof {
                    assert(rows[i as int] == row@);
                    lemma_position_is(rows, table, id@, i as int);
                }
                return Some(i);
            }
            assert(rows[i as int] == row@);
            i = i + 1;
        }
        proof {
            lemma_position_is(rows, table, id@, rows.len() as int);
        }
        None
    }

    /// The row with a table and identifier.
    pub fn get(&self, table: Table, id: &str) -> (row: Option<&StoredRecord>)
        ensures
            match row {
                Some(r) => holds(self@.rows, table, id@) && r@ == self@.rows[position(
                    self@.rows,
                    table,
                    id@,
                )],
                None => !holds(self@.rows, table, id@),
            },
    {
        match self.find(table, id) {
            Some(at) => Some(&self.rows[at]),
            None => None,
        }
    }

    /// Adds a row as it is, unless the store holds a row with its table and
    /// identifier already. Says whether the row was added.
    pub fn insert(&mut self, row: StoredRecord) -> (added: bool)
        requires
            old(self).wf(),
        ensures
            final(self).wf(),
            final(self)@.checkpoint == old(self)@.checkpoint,
            added == !holds(old(self)@.rows, row@.record.table(), row@.record.id()),
            final(self)@.rows == if added {
                old(self)@.rows.push(row@)
            } else {
                old(self)@.rows
            },
    {
        let ghost before = self@.rows;
        match self.find(row.record.table(), row.record.id().as_str()) {
            Some(_) => false,
            None => {
                proof {
                    lemma_position(before, row@.record.table(), row@.record.id());
                    let after = before.push(row@);
                    assert forall|i: int, j: int| 0 <= i < j < after.len() implies !(
                    #[trigger] after[i]).has_key(
                        (#[trigger] after[j]).record.table(),
                        after[j].record.id(),
                    ) by {
                        if j == before.len() {
                            assert(after[i] == before[i]);
                        } else {
                            assert(after[i] == before[i] && after[j] == before[j]);
                        }
                    }
                }
                self.rows.push(row);
                assert(rows_view(self.rows@) =~= before.push(row@));
                true
            },
        }
    }

    /// A store that holds the rows of a list, in their order, and a
    /// checkpoint. There is no such store where two rows of the list have
    /// the same table and identifier.
    pub fn from_rows(rows: Vec<StoredRecord>, checkpoint: Option<Checkpoint>) -> (store: Option<
        LocalStore,
    >)
        ensures
            match store {
                Some(s) => s.wf() && s@.rows == rows_view(rows@) && s@.checkpoint
                    == option_checkpoint(checkpoint),
                None => !distinct_keys(rows_view(rows@)),
            },
    {
        let ghost all = rows_view(rows@);
        let mut store = LocalStore { rows: Vec::new(), checkpoint };
        assert(store@.rows =~= all.take(0));
        let mut i: usize = 0;
        while i < rows.len()
            invariant
                i <= rows.len(),
                all == rows_view(rows@),
                store.wf(),
                store@.rows == all.take(i as int),
                store@.checkpoint == option_checkpoint(checkpoint),
            decreases rows.len() - i,
        {
            let ghost held = store@.rows;
            let added = store.insert(rows[i].clone());
            if !added {
                proof {
                    let row = all[i as int];
                    lemma_position(held, row.record.table(), row.record.id());
                    let at = position(held, row.record.table(), row.record.id());
                    assert(held[at] == all[at]);
                    assert(all[at].has_key(all[i as int].record.table(), all[i as int].record.id()));
                }
                return None;
            }
            assert(all.take(i as int + 1) =~= all.take(i as int).push(all[i as int]));
            i = i + 1;
        }
        assert(all.take(rows.len() as int) =~= all);
        Some(store)
    }

    /// Writes a record: it replaces the row with its table and identifier,
    /// or is added where there is none. The row is not deleted afterwards.
    pub fn upsert(&mut self, record: LocalRecord)
        requires
            old(self).wf(),
        ensures
            final(self).wf(),
            final(self)@.rows == upserted(old(self)@.rows, record@),
            final(self)@.checkpoint == old(self)@.checkpoint,
    {
        let ghost before = self@.rows;
        proof {
            lemma_upserted(before, record@);
        }
        let row = StoredRecord { record, deleted: false, deleted_at: None };
        match self.find(row.record.table(), row.record.id().as_str()) {
            Some(at) => {
                self.rows.set(at, row);
                assert(rows_view(self.rows@) =~= before.update(at as int, stored(record@)));
            },
            None => {
                self.rows.push(row);
                assert(rows_view(self.rows@) =~= before.push(stored(record@)));
            },
        }
    }

    /// Removes the row with a table and identifier for good. Where there is
    /// no such row, nothing happens.
    pub fn hard_delete(&mut self, table: Table, id: &str)
        requires
            old(self).wf(),
        ensures
            final(self).wf(),
            final(self)@.rows == removed(old(self)@.rows, table, id@),
            final(self)@.checkpoint == old(self)@.checkpoint,
    {
        let ghost before = self@.rows;
        proof {
            lemma_removed(before, table, id@);
        }
        match self.find(table, id) {
            Some(at) => {
                self.rows.remove(at);
                assert(rows_view(self.rows@) =~= before.remove(at as int));
            },
            None => {},
        }
    }

    /// Records that the remote store acknowledged the change of a row: the
    /// row is clean from `at` on, and its version counter is one higher.
    /// Where there is no such row, nothing happens. Where the counter cannot
    /// be raised, the store stays as it was.
    pub fn mark_synced(&mut self, table: Table, id: &str, at: i64) -> (done: Result<
        (),
        StorageFailure,
    >)
        requires
            old(self).wf(),
        ensures
            final(self).wf(),
            final(self)@.checkpoint == old(self)@.checkpoint,
            match done {
                Ok(_) => marked_synced(old(self)@.rows, table, id@, at) == Ok::<
                    Seq<StoredRecordView>,
                    StorageFailure,
                >(final(self)@.rows),
                Err(e) => marked_synced(old(self)@.rows, table, id@, at) == Err::<
                    Seq<StoredRecordView>,
                    StorageFailure,
                >(e) && final(self)@ == old(self)@,
            },
    {
        let ghost before = self@.rows;
        match self.find(table, id) {
            Some(place) => {
                let version = self.rows[place].record.sync_version();
                if version == i64::MAX {
                    return Err(StorageFailure::VersionOverflow);
                }
                let row = self.rows[place].clone();
                let updated = StoredRecord {
                    record: row.record.with_sync_state(version + 1, Some(at)),
                    deleted: row.deleted,
                    deleted_at: row.deleted_at,
                };
                proof {
                    lemma_position(before, table, id@);
                    assert(updated@ == acknowledged(before[place as int], at));
                    lemma_updated_in_place(before, place as int, updated@);
                }
                self.rows.set(place, updated);
                assert(rows_view(self.rows@) =~= before.update(place as int, updated@));
                Ok(())
            },
            None => Ok(()),
        }
    }

    /// Deletes a row locally: it stays in the store, marked as deleted and as
    /// not acknowledged, until the deletion was pushed. Where there is no
    /// such row, nothing happens.
    pub fn soft_delete(&mut self, table: Table, id: &str, at: i64)
        requires
            old(self).wf(),
        ensures
            final(self).wf(),
            final(self)@.rows == soft_deleted(old(self)@.rows, table, id@, at),
            final(self)@.checkpoint == old(self)@.checkpoint,
    {
        let ghost before = self@.rows;
        match self.find(table, id) {
            Some(place) => {
                let row = self.rows[place].clone();
                let version = row.record.sync_version();
                let updated = StoredRecord {
                    record: row.record.with_sync_state(version, None),
                    deleted: true,
                    deleted_at: Some(at),
                };
                proof {
                    lemma_position(before, table, id@);
                    lemma_updated_in_place(before, place as int, updated@);
                }
                self.rows.set(place, updated);
                assert(rows_view(self.rows@) =~= before.update(place as int, updated@));
            },
            None => {},
        }
    }

    /// The number of rows that hold a change that was not acknowledged,
    /// deleted rows included.
    pub fn pending_count(&self) -> (count: usize)
        ensures
            count == pending(self@.rows),
    {
        let ghost rows = self@.rows;
        let mut count: usize = 0;
        let mut i: usize = 0;
        proof {
            reveal(Seq::filter);
            assert(rows.take(0) =~= Seq::<StoredRecordView>::empty());
        }
        while i < self.rows.len()
            invariant
                i <= self.rows.len(),
                rows == rows_view(self.rows@),
                count == pending(rows.take(i as int)),
                count <= i,
            decreases self.rows.len() - i,
        {
            proof {
                reveal(Seq::filter);
                assert(rows.take(i as int + 1).drop_last() =~= rows.take(i as int));
                assert(rows.take(i as int + 1).last() == self.rows@[i as int]@);
            }
            if self.rows[i].record.synced_at().is_none() {
                count = count + 1;
            }
            i = i + 1;
        }
        assert(rows.take(rows.len() as int) =~= rows);
        count
    }

    /// The checkpoint that was saved last, if any.
    pub fn load_checkpoint(&self) -> (checkpoint: Option<Checkpoint>)
        ensures
            option_checkpoint(checkpoint) == self@.checkpoint,
    {
        clone_option_checkpoint(&self.checkpoint)
    }

    /// Saves a checkpoint in place of the one that was there.
    pub fn save_checkpoint(&mut self, checkpoint: Checkpoint)
        requires
            old(self).wf(),
        ensures
            final(self).wf(),
            final(self)@.rows == old(self)@.rows,
            final(self)@.checkpoint == Some(checkpoint@),
    {
        self.checkpoint = Some(checkpoint);
    }
}

} // verus!
