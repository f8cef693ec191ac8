//! The acknowledgement of a push: what becomes of the rows whose changes the
//! remote store took.
//!
//! A row whose deletion was pushed is removed for good. Any other row is
//! marked: it is clean from the start of the cycle on, and its version counter
//! is one higher. Once every collected record was acknowledged, no row waits
//! to be pushed.

use vstd::prelude::*;
use crate::collector::{change_record, local_changes};
use crate::error::StorageFailure;
use crate::plan::{ops_view, run_ops, StoreOp, StoreOpView};
use crate::record::{records_view, ChangeRecord, ChangeRecordView, Table};
use crate::store::{LocalStore, LocalStoreView, StoredRecordView};
use crate::sync_table_map::{sync_to_db, sync_to_db_spec};

verus! {

/// What the acknowledgement of one pushed record changes in the local
/// store. A row whose deletion was pushed is removed for good; any other row
/// is marked as acknowledged. A deletion in a table that the store does not
/// hold changes nothing; any other record for such a table is a failure.
pub open spec fn pushed_op(record: ChangeRecordView, at: i64) -> Result<
    Option<StoreOpView>,
    StorageFailure,
> {
    if record.deleted {
        match Table::parse(record.table_name) {
            Some(table) => Ok(Some(StoreOpView::HardDelete { table, id: record.row_id })),
            None => Ok(None),
        }
    } else {
        match Table::parse(sync_to_db_spec(record.table_name)) {
            Some(table) => Ok(Some(StoreOpView::MarkSynced { table, id: record.row_id, at })),
            None => Err(StorageFailure::UnknownTable),
        }
    }
}

/// What the acknowledgement of the pushed records changes in the local
/// store, record by record, or the failure of the first record that has one.
pub open spec fn pushed_plan(records: Seq<ChangeRecordView>, at: i64) -> Result<
    Seq<StoreOpView>,
    StorageFailure,
>
    decreases records.len(),
{
    if records.len() == 0 {
        Ok(Seq::empty())
    } else {
        match pushed_plan(records.drop_last(), at) {
            Err(e) => Err(e),
            Ok(before) => match pushed_op(records.last(), at) {
                Err(e) => Err(e),
                Ok(Some(op)) => Ok(before.push(op)),
                Ok(None) => Ok(before),
            },
        }
    }
}

/// The local store after the pushed records were acknowledged, or the reason
/// why they cannot be.
pub open spec fn after_push(store: LocalStoreView, records: Seq<ChangeRecordView>, at: i64) -> Result<
    LocalStoreView,
    StorageFailure,
> {
    match pushed_plan(records, at) {
        Err(e) => Err(e),
        Ok(plan) => run_ops(store, plan),
    }
}

/// What the acknowledgement of one pushed record changes in the local store.
pub fn pushed_record_op(record: &ChangeRecord, at: i64) -> (op: Result<Option<StoreOp>, StorageFailure>)
    ensures
        match op {
            Ok(Some(o)) => pushed_op(record@, at) == Ok::<Option<StoreOpView>, StorageFailure>(
                Some(o@),
            ),
            Ok(None) => pushed_op(record@, at) == Ok::<Option<StoreOpView>, StorageFailure>(None),
            Err(e) => pushed_op(record@, at) == Err::<Option<StoreOpView>, StorageFailure>(e),
        },
{
    if record.deleted {
        match Table::from_name(record.table_name.as_str()) {
            Some(table) => Ok(Some(StoreOp::HardDelete { table, id: record.row_id.clone() })),
            None => Ok(None),
        }
    } else {
        match Table::from_name(sync_to_db(record.table_name.as_str())) {
            Some(table) => Ok(Some(StoreOp::MarkSynced { table, id: record.row_id.clone(), at })),
            None => Err(StorageFailure::UnknownTable),
        }
    }
}

/// What the acknowledgement of the pushed records changes in the local
/// store.
pub fn plan_pushed_records(records: &Vec<ChangeRecord>, at: i64) -> (plan: Result<
    Vec<StoreOp>,
    StorageFailure,
>)
    ensures
        match plan {
            Ok(ops) => pushed_plan(records_view(records@), at) == Ok::<
                Seq<StoreOpView>,
                StorageFailure,
            >(ops_view(ops@)),
            Err(e) => pushed_plan(records_view(records@), at) == Err::<
                Seq<StoreOpView>,
                StorageFailure,
            >(e),
        },
{
    let ghost all = records_view(records@);
    let mut plan: Vec<StoreOp> = Vec::new();
    let mut i: usize = 0;
    proof {
        assert(all.take(0) =~= Seq::<ChangeRecordView>::empty());
        assert(ops_view(plan@) =~= Seq::<StoreOpView>::empty());
    }
    while i < records.len()
        invariant
            i <= records.len(),
            all == records_view(records@),
            pushed_plan(all.take(i as int), at) == Ok::<Seq<StoreOpView>, StorageFailure>(
                ops_view(plan@),
            ),
        decreases records.len() - i,
    {
        proof {
            assert(all.take(i as int + 1).drop_last() =~= all.take(i as int));
            assert(all.take(i as int + 1).last() == records@[i as int]@);
        }
        match pushed_record_op(&records[i], at) {
            Err(e) => {
                proof {
                    lemma_pushed_plan_fails_on(all, i as int + 1, at);
                }
                return Err(e);
            },
            Ok(Some(op)) => {
                let ghost before = ops_view(plan@);
                plan.push(op);
                assert(ops_view(plan@) =~= before.push(op@));
            },
            Ok(None) => {},
        }
        i = i + 1;
    }
    assert(all.take(records.len() as int) =~= all);
    Ok(plan)
}

/// Where the plan for the first records of a list fails, the plan for the
/// whole list fails in the same way.
pub proof fn lemma_pushed_plan_fails_on(records: Seq<ChangeRecordView>, n: int, at: i64)
    requires
        0 <= n <= records.len(),
        pushed_plan(records.take(n), at) is Err,
    ensures
        pushed_plan(records, at) == pushed_plan(records.take(n), at),
    decreases records.len() - n,
{
    if n < records.len() {
        assert(records.take(n + 1).drop_last() =~= records.take(n));
        lemma_pushed_plan_fails_on(records, n + 1, at);
    } else {
        assert(records.take(n) =~= records);
    }
}

/// Records in the local store that the pushed records were acknowledged:
/// either every one of them, or, on a failure, none.
pub fn mark_records_synced(store: &mut LocalStore, records: &Vec<ChangeRecord>, synced_at: i64) -> (done:
    Result<(), StorageFailure>)
    requires
        old(store).wf(),
    ensures
        final(store).wf(),
        match done {
            Ok(_) => after_push(old(store)@, records_view(records@), synced_at) == Ok::<
                LocalStoreView,
                StorageFailure,
            >(final(store)@),
            Err(e) => after_push(old(store)@, records_view(records@), synced_at) == Err::<
                LocalStoreView,
                StorageFailure,
            >(e) && final(store)@ == old(store)@,
        },
{
    match plan_pushed_records(records, synced_at) {
        Err(e) => Err(e),
        Ok(plan) => store.apply_all(&plan),
    }
}

/// What the acknowledgement of the record for a row changes: a row whose
/// deletion was pushed is removed, any other row is marked.
pub open spec fn acknowledgement(row: StoredRecordView, at: i64) -> StoreOpView {
    if row.deleted {
        StoreOpView::HardDelete { table: row.record.table(), id: row.record.id() }
    } else {
        StoreOpView::MarkSynced { table: row.record.table(), id: row.record.id(), at }
    }
}

/// The rows of one table that wait to be pushed and are deleted (or are
/// not), in their order.
pub open spec fn waiting_rows(rows: Seq<StoredRecordView>, table: Table, deleted: bool) -> Seq<
    StoredRecordView,
> {
    rows.filter(
        |r: StoredRecordView| r.record.table() == table && r.deleted == deleted && r.dirty(),
    )
}

/// The rows that wait to be pushed, in the order in which their records are
/// collected.
pub open spec fn collected_rows(rows: Seq<StoredRecordView>) -> Seq<StoredRecordView> {
    waiting_rows(rows, Table::Transactions, true) + waiting_rows(rows, Table::Categories, true)
        + waiting_rows(rows, Table::Accounts, true) + waiting_rows(rows, Table::Transactions, false)
        + waiting_rows(rows, Table::Categories, false) + waiting_rows(rows, Table::Accounts, false)
}

/// The record that is collected for a row is acknowledged by the step that
/// belongs to the row.
pub proof fn lemma_acknowledgement_of_collected(row: StoredRecordView, at: i64)
    ensures
        pushed_op(change_record(row), at) == Ok::<Option<StoreOpView>, StorageFailure>(
            Some(acknowledgement(row, at)),
        ),
{
    Table::lemma_name_round_trip(row.record.table());
    crate::sync_table_map::lemma_names_pass_unchanged(row.record.table().name());
}

/// The records that are collected for a list of rows are acknowledged by the
/// steps that belong to the rows, in the same order.
pub proof fn lemma_plan_of_collected(list: Seq<StoredRecordView>, at: i64)
    ensures
        pushed_plan(list.map_values(|r: StoredRecordView| change_record(r)), at) == Ok::<
            Seq<StoreOpView>,
            StorageFailure,
        >(list.map_values(|r: StoredRecordView| acknowledgement(r, at))),
    decreases list.len(),
{
    let records = list.map_values(|r: StoredRecordView| change_record(r));
    let steps = list.map_values(|r: StoredRecordView| acknowledgement(r, at));
    if list.len() == 0 {
        assert(steps =~= Seq::<StoreOpView>::empty());
    } else {
        let rest = list.drop_last();
        lemma_plan_of_collected(rest, at);
        lemma_acknowledgement_of_collected(list.last(), at);
        assert(records.drop_last() =~= rest.map_values(|r: StoredRecordView| change_record(r)));
        assert(records.last() == change_record(list.last()));
        assert(steps =~= rest.map_values(|r: StoredRecordView| acknowledgement(r, at)).push(
            acknowledgement(list.last(), at),
        ));
    }
}

/// Every row that waits to be pushed is among the rows that are collected.
pub proof fn lemma_waiting_rows_are_collected(rows: Seq<StoredRecordView>, k: int)
    requires
        0 <= k < rows.len(),
        rows[k].dirty(),
    ensures
        collected_rows(rows).contains(rows[k]),
{
    let row = rows[k];
    let chosen = waiting_rows(rows, row.record.table(), row.deleted);
    lemma_waiting_rows(rows, row.record.table(), row.deleted);
    assert(chosen.contains(row));
    let at = choose|at: int| 0 <= at < chosen.len() && chosen[at] == row;
    let a = waiting_rows(rows, Table::Transactions, true);
    let b = waiting_rows(rows, Table::Categories, true);
    let c = waiting_rows(rows, Table::Accounts, true);
    let d = waiting_rows(rows, Table::Transactions, false);
    let e = waiting_rows(rows, Table::Categories, false);
    let all = collected_rows(rows);
    let before: int = if row.deleted {
        match row.record.table() {
            Table::Transactions => 0int,
            Table::Categories => a.len() as int,
            Table::Accounts => (a.len() + b.len()) as int,
        }
    } else {
        match row.record.table() {
            Table::Transactions => (a.len() + b.len() + c.len()) as int,
            Table::Categories => (a.len() + b.len() + c.len() + d.len()) as int,
            Table::Accounts => (a.len() + b.len() + c.len() + d.len() + e.len()) as int,
        }
    };
    assert(all[before + at] == row);
}

/// The rows that wait in one table are rows of the store, and every row of
/// the store that waits in the table is among them.
pub proof fn lemma_waiting_rows(rows: Seq<StoredRecordView>, table: Table, deleted: bool)
    ensures
        forall|i: int|
            0 <= i < waiting_rows(rows, table, deleted).len() ==> rows.contains(
                #[trigger] waiting_rows(rows, table, deleted)[i],
            ),
        forall|k: int|
            0 <= k < rows.len() && (#[trigger] rows[k]).record.table() == table && rows[k].deleted
                == deleted && rows[k].dirty() ==> waiting_rows(rows, table, deleted).contains(
                rows[k],
            ),
    decreases rows.len(),
{
    reveal(Seq::filter);
    if rows.len() > 0 {
        let rest = rows.drop_last();
        lemma_waiting_rows(rest, table, deleted);
        let chosen = waiting_rows(rest, table, deleted);
        let all = waiting_rows(rows, table, deleted);
        assert forall|i: int| 0 <= i < all.len() implies rows.contains(#[trigger] all[i]) by {
            if i < chosen.len() {
                assert(all[i] == chosen[i]);
                assert(rest.contains(chosen[i]));
                let at = choose|at: int| 0 <= at < rest.len() && rest[at] == chosen[i];
                assert(rows[at] == chosen[i]);
            } else {
                assert(all[i] == rows[rows.len() - 1]);
            }
        }
        assert forall|k: int|
            0 <= k < rows.len() && (#[trigger] rows[k]).record.table() == table && rows[k].deleted
                == deleted && rows[k].dirty() implies all.contains(rows[k]) by {
            if k < rest.len() {
                assert(rest[k] == rows[k]);
                assert(chosen.contains(rest[k]));
                let at = choose|at: int| 0 <= at < chosen.len() && chosen[at] == rest[k];
                assert(all[at] == rows[k]);
            } else {
                assert(all[chosen.len() as int] == rows[k]);
            }
        }
    }
}

/// After the steps that belong to a list of rows, a row of the store is
/// clean, or it was in the store before and no row of the list has its
/// table and identifier.
pub proof fn lemma_acknowledged_rows_are_clean(store: LocalStoreView, list: Seq<StoredRecordView>, at: i64)
    requires
        store.wf(),
        run_ops(store, list.map_values(|r: StoredRecordView| acknowledgement(r, at))).is_ok(),
    ensures
        ({
            let after = run_ops(
                store,
                list.map_values(|r: StoredRecordView| acknowledgement(r, at)),
            )->Ok_0;
            &&& after.wf()
            &&& forall|i: int|
                0 <= i < after.rows.len() && (#[trigger] after.rows[i]).dirty() ==> store.rows.contains(
                    after.rows[i],
                ) && forall|j: int|
                    0 <= j < list.len() ==> !after.rows[i].has_key(
                        (#[trigger] list[j]).record.table(),
                        list[j].record.id(),
                    )
        }),
    decreases list.len(),
{
    let steps = list.map_values(|r: StoredRecordView| acknowledgement(r, at));
    if list.len() == 0 {
        assert(steps =~= Seq::<StoreOpView>::empty());
        let after = run_ops(store, steps)->Ok_0;
        assert(after == store);
        assert forall|i: int| 0 <= i < after.rows.len() implies store.rows.contains(
            #[trigger] after.rows[i],
        ) by {}
    } else {
        let rest = list.drop_last();
        let last = list.last();
        let earlier = rest.map_values(|r: StoredRecordView| acknowledgement(r, at));
        let step = acknowledgement(last, at);
        assert(steps =~= earlier.push(step));
        crate::plan::lemma_run_ops_push(store, earlier, step);
        lemma_acknowledged_rows_are_clean(store, rest, at);
        let middle = run_ops(store, earlier)->Ok_0;
        let after = run_ops(store, steps)->Ok_0;
        crate::plan::lemma_run_op_wf(middle, step);
        let table = last.record.table();
        let id = last.record.id();
        let place = crate::store::position(middle.rows, table, id);
        crate::store::lemma_position(middle.rows, table, id);
        assert forall|i: int|
            0 <= i < after.rows.len() && (#[trigger] after.rows[i]).dirty() implies store.rows.contains(
            after.rows[i],
        ) && forall|j: int|
            0 <= j < list.len() ==> !after.rows[i].has_key(
                (#[trigger] list[j]).record.table(),
                list[j].record.id(),
            ) by {
            let row = after.rows[i];
            // the row was in the store before the last step, at some place
            let before: int = if last.deleted && place < middle.rows.len() && i >= place {
                i + 1
            } else {
                i
            };
            if last.deleted {
                if place < middle.rows.len() {
                    assert(after.rows == middle.rows.remove(place));
                } else {
                    assert(after.rows == middle.rows);
                }
                assert(row == middle.rows[before]);
            } else {
                if place < middle.rows.len() {
                    assert(after.rows == middle.rows.update(
                        place,
                        crate::store::acknowledged(middle.rows[place], at),
                    ));
                    assert(i != place);
                }
                assert(row == middle.rows[before]);
            }
            assert(middle.rows[before].dirty());
            // it does not have the key of the last row of the list
            if place < middle.rows.len() {
                assert(before != place);
                if before < place {
                    assert(!middle.rows[before].has_key(table, id));
                } else {
                    assert(!middle.rows[place].has_key(
                        middle.rows[before].record.table(),
                        middle.rows[before].record.id(),
                    ));
                }
            } else {
                assert(!middle.rows[before].has_key(table, id));
            }
            assert(!row.has_key(table, id));
            assert forall|j: int| 0 <= j < list.len() implies !row.has_key(
                (#[trigger] list[j]).record.table(),
                list[j].record.id(),
            ) by {
                if j < rest.len() {
                    assert(list[j] == rest[j]);
                } else {
                    assert(list[j] == last);
                }
            }
        }
    }
}

/// Once the remote store has acknowledged every record that was collected,
/// no row waits to be pushed: the next collection finds nothing, unless a
/// row was changed in between.
pub proof fn lemma_acknowledged_push_leaves_nothing_waiting(store: LocalStoreView, at: i64)
    requires
        store.wf(),
        after_push(store, local_changes(store.rows), at).is_ok(),
    ensures
        forall|i: int|
            0 <= i < after_push(store, local_changes(store.rows), at)->Ok_0.rows.len() ==> !(
            #[trigger] after_push(store, local_changes(store.rows), at)->Ok_0.rows[i]).dirty(),
{
    let rows = store.rows;
    let list = collected_rows(rows);
    let convert = |r: StoredRecordView| change_record(r);
    assert(local_changes(rows) =~= list.map_values(convert));
    lemma_plan_of_collected(list, at);
    lemma_acknowledged_rows_are_clean(store, list, at);
    let after = after_push(store, local_changes(rows), at)->Ok_0;
    assert forall|i: int| 0 <= i < after.rows.len() implies !(#[trigger] after.rows[i]).dirty() by {
        let row = after.rows[i];
        if row.dirty() {
            assert(rows.contains(row));
            let k = choose|k: int| 0 <= k < rows.len() && rows[k] == row;
            lemma_waiting_rows_are_collected(rows, k);
            let j = choose|j: int| 0 <= j < list.len() && list[j] == row;
            assert(!row.has_key(list[j].record.table(), list[j].record.id()));
        }
    }
}

} // verus!
