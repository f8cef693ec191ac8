//! Changes to the local store as a list of steps.
//!
//! The engine decides what is to change; whoever holds the rows carries the
//! steps out. [`LocalStore`] carries them out on the rows that it holds.

use vstd::prelude::*;
use crate::checkpoint::{Checkpoint, CheckpointView};
use crate::error::StorageFailure;
use crate::models::{LocalRecord, LocalRecordView};
use crate::record::Table;
use crate::store::{
    lemma_removed, lemma_updated_in_place, lemma_upserted, lemma_position, marked_synced, removed,
    upserted, LocalStore, LocalStoreView,
};

verus! {

/// One change to the local store.
#[derive(Debug, PartialEq)]
pub enum StoreOp {
    /// Write a record in place of the row with its table and identifier.
    Upsert(LocalRecord),
    /// Remove a row for good.
    HardDelete { table: Table, id: String },
    /// Record that the change of a row was acknowledged.
    MarkSynced { table: Table, id: String, at: i64 },
    /// Save a checkpoint in place of the one before.
    SaveCheckpoint(Checkpoint),
}

/// What a [`StoreOp`] holds.
pub enum StoreOpView {
    Upsert(LocalRecordView),
    HardDelete { table: Table, id: Seq<char> },
    MarkSynced { table: Table, id: Seq<char>, at: i64 },
    SaveCheckpoint(CheckpointView),
}

impl View for StoreOp {
    type V = StoreOpView;

    open spec fn view(&self) -> StoreOpView {
        match self {
            StoreOp::Upsert(record) => StoreOpView::Upsert(record@),
            StoreOp::HardDelete { table, id } => StoreOpView::HardDelete { table: *table, id: id@ },
            StoreOp::MarkSynced { table, id, at } => StoreOpView::MarkSynced {
                table: *table,
                id: id@,
                at: *at,
            },
            StoreOp::SaveCheckpoint(checkpoint) => StoreOpView::SaveCheckpoint(checkpoint@),
        }
    }
}

impl Clone for StoreOp {
    fn clone(&self) -> (copy: StoreOp)
        ensures
            copy@ == self@,
    {
        match self {
            StoreOp::Upsert(record) => StoreOp::Upsert(record.clone()),
            StoreOp::HardDelete { table, id } => StoreOp::HardDelete { table: *table, id: id.clone() },
            StoreOp::MarkSynced { table, id, at } => StoreOp::MarkSynced {
                table: *table,
                id: id.clone(),
                at: *at,
            },
            StoreOp::SaveCheckpoint(checkpoint) => StoreOp::SaveCheckpoint(checkpoint.clone()),
        }
    }
}

/// What a list of steps holds.
pub open spec fn ops_view(ops: Seq<StoreOp>) -> Seq<StoreOpView> {
    ops.map_values(|op: StoreOp| op@)
}

/// The store after one step, or the reason why the step cannot be taken.
pub open spec fn run_op(store: LocalStoreView, op: StoreOpView) -> Result<
    LocalStoreView,
    StorageFailure,
> {
    match op {
        StoreOpView::Upsert(record) => Ok(LocalStoreView { rows: upserted(store.rows, record), ..store }),
        StoreOpView::HardDelete { table, id } => Ok(
            LocalStoreView { rows: removed(store.rows, table, id), ..store },
        ),
        StoreOpView::MarkSynced { table, id, at } => match marked_synced(store.rows, table, id, at) {
            Ok(rows) => Ok(LocalStoreView { rows, ..store }),
            Err(e) => Err(e),
        },
        StoreOpView::SaveCheckpoint(checkpoint) => Ok(
            LocalStoreView { checkpoint: Some(checkpoint), ..store },
        ),
    }
}

/// The store after the steps of a list, taken in order, or the reason why
/// the first step that cannot be taken cannot.
pub open spec fn run_ops(store: LocalStoreView, ops: Seq<StoreOpView>) -> Result<
    LocalStoreView,
    StorageFailure,
>
    decreases ops.len(),
{
    if ops.len() == 0 {
        Ok(store)
    } else {
        match run_op(store, ops[0]) {
            Ok(next) => run_ops(next, ops.drop_first()),
            Err(e) => Err(e),
        }
    }
}

/// A step that can be taken leaves a well-formed store well formed.
pub proof fn lemma_run_op_wf(store: LocalStoreView, op: StoreOpView)
    requires
        store.wf(),
    ensures
        run_op(store, op) matches Ok(next) ==> next.wf(),
{
    match op {
        StoreOpView::Upsert(record) => {
            lemma_upserted(store.rows, record);
        },
        StoreOpView::HardDelete { table, id } => {
            lemma_removed(store.rows, table, id);
        },
        StoreOpView::MarkSynced { table, id, at } => {
            lemma_position(store.rows, table, id);
            if let Ok(rows) = marked_synced(store.rows, table, id, at) {
                let place = crate::store::position(store.rows, table, id);
                if place < store.rows.len() {
                    lemma_updated_in_place(
                        store.rows,
                        place,
                        crate::store::acknowledged(store.rows[place], at),
                    );
                }
            }
        },
        StoreOpView::SaveCheckpoint(_) => {},
    }
}

/// Steps that can be taken leave a well-formed store well formed.
pub proof fn lemma_run_ops_wf(store: LocalStoreView, ops: Seq<StoreOpView>)
    requires
        store.wf(),
    ensures
        run_ops(store, ops) matches Ok(last) ==> last.wf(),
    decreases ops.len(),
{
    if ops.len() > 0 {
        lemma_run_op_wf(store, ops[0]);
        if let Ok(next) = run_op(store, ops[0]) {
            lemma_run_ops_wf(next, ops.drop_first());
        }
    }
}

/// To take the steps of two lists one after the other is to take the steps
/// of the first list and then, from where they end, those of the second.
pub proof fn lemma_run_ops_concat(store: LocalStoreView, first: Seq<StoreOpView>, second: Seq<StoreOpView>)
    ensures
        run_ops(store, first + second) == match run_ops(store, first) {
            Ok(middle) => run_ops(middle, second),
            Err(e) => Err(e),
        },
    decreases first.len(),
{
    if first.len() == 0 {
        assert(first + second =~= second);
    } else {
        assert((first + second)[0] == first[0]);
        assert((first + second).drop_first() =~= first.drop_first() + second);
        if let Ok(next) = run_op(store, first[0]) {
            lemma_run_ops_concat(next, first.drop_first(), second);
        }
    }
}

/// One more step at the end of a list is taken from where the list ends.
pub proof fn lemma_run_ops_push(store: LocalStoreView, ops: Seq<StoreOpView>, op: StoreOpView)
    ensures
        run_ops(store, ops.push(op)) == match run_ops(store, ops) {
            Ok(middle) => run_op(middle, op),
            Err(e) => Err(e),
        },
{
    lemma_run_ops_concat(store, ops, seq![op]);
    assert(ops.push(op) =~= ops + seq![op]);
    if let Ok(middle) = run_ops(store, ops) {
        assert(seq![op].drop_first() =~= Seq::<StoreOpView>::empty());
        assert(run_ops(middle, seq![op]) == run_op(middle, op)) by {
            assert(seq![op][0] == op);
            if let Ok(next) = run_op(middle, op) {
                assert(run_ops(next, Seq::<StoreOpView>::empty()) == Ok::<
                    LocalStoreView,
                    StorageFailure,
                >(next));
            }
        }
    }
}

impl LocalStore {
    /// Takes one step. Where the step cannot be taken, the store stays as it
    /// was.
    pub fn apply(&mut self, op: &StoreOp) -> (done: Result<(), StorageFailure>)
        requires
            old(self).wf(),
        ensures
            final(self).wf(),
            match done {
                Ok(_) => run_op(old(self)@, op@) == Ok::<LocalStoreView, StorageFailure>(
                    final(self)@,
                ),
                Err(e) => run_op(old(self)@, op@) == Err::<LocalStoreView, StorageFailure>(e)
                    && final(self)@ == old(self)@,
            },
    {
        match op {
            StoreOp::Upsert(record) => {
                self.upsert(record.clone());
                Ok(())
            },
            StoreOp::HardDelete { table, id } => {
                self.hard_delete(*table, id.as_str());
                Ok(())
            },
            StoreOp::MarkSynced { table, id, at } => self.mark_synced(*table, id.as_str(), *at),
            StoreOp::SaveCheckpoint(checkpoint) => {
                self.save_checkpoint(checkpoint.clone());
                Ok(())
            },
        }
    }

    /// Takes the steps of a list in order, all of them or none: where one of
    /// them cannot be taken, the store stays as it was before the first.
    pub fn apply_all(&mut self, ops: &Vec<StoreOp>) -> (done: Result<(), StorageFailure>)
        requires
            old(self).wf(),
        ensures
            final(self).wf(),
            match done {
                Ok(_) => run_ops(old(self)@, ops_view(ops@)) == Ok::<LocalStoreView, StorageFailure>(
                    final(self)@,
                ),
                Err(e) => run_ops(old(self)@, ops_view(ops@)) == Err::<
                    LocalStoreView,
                    StorageFailure,
                >(e) && final(self)@ == old(self)@,
            },
    {
        let ghost start = self@;
        let ghost all = ops_view(ops@);
        let mut work = self.clone();
        let mut i: usize = 0;
        assert(all.take(0) =~= Seq::<StoreOpView>::empty());
        while i < ops.len()
            invariant
                i <= ops.len(),
                all == ops_view(ops@),
                work.wf(),
                self@ == start,
                self.wf(),
                run_ops(start, all.take(i as int)) == Ok::<LocalStoreView, StorageFailure>(work@),
            decreases ops.len() - i,
        {
            let ghost before = work@;
            proof {
                lemma_run_ops_push(start, all.take(i as int), all[i as int]);
                assert(all.take(i as int + 1) =~= all.take(i as int).push(all[i as int]));
                assert(all[i as int] == ops@[i as int]@);
            }
            match work.apply(&ops[i]) {
                Ok(_) => {},
                Err(e) => {
                    proof {
                        lemma_run_ops_concat(start, all.take(i as int + 1), all.skip(i as int + 1));
                        assert(all.take(i as int + 1) + all.skip(i as int + 1) =~= all);
                    }
                    return Err(e);
                },
            }
            i = i + 1;
        }
        assert(all.take(ops.len() as int) =~= all);
        *self = work;
        Ok(())
    }
}

} // verus!
