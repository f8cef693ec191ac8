//! The order in which a batch of pulled records is applied, and what it
//! means for the store.
//!
//! The plan of a batch is in dependency order. A row that the batch deletes
//! is gone afterwards, wherever the deletion stands in the batch; a row that
//! the batch writes and does not delete is there.

use vstd::prelude::*;
use crate::applier::{
    apply_rank, in_apply_order, lemma_ops_of_concat, lemma_ops_of_kinds,
    lemma_writes_and_removals_run, ops_of, pass, record_op, remote_plan, row_from_record,
    writes_or_removes,
};
use crate::models::LocalRecordView;
use crate::plan::{lemma_run_ops_wf, run_ops, StoreOpView};
use crate::record::{ChangeRecordView, Table};
use crate::store::LocalStoreView;

verus! {

/// The records of a batch that write a row, in the order in which they are
/// applied.
pub open spec fn writing(records: Seq<ChangeRecordView>) -> Seq<ChangeRecordView> {
    pass(records, false, 0) + pass(records, false, 1) + pass(records, false, 2)
}

/// The records of a batch that remove a row, in the order in which they are
/// applied.
pub open spec fn removing(records: Seq<ChangeRecordView>) -> Seq<ChangeRecordView> {
    pass(records, true, 0) + pass(records, true, 1) + pass(records, true, 2)
}

/// The records of a pass are records of the batch, of the kind and rank of
/// the pass; and every such record of the batch is in the pass.
pub proof fn lemma_pass(records: Seq<ChangeRecordView>, deleted: bool, rank: int)
    ensures
        forall|i: int|
            0 <= i < pass(records, deleted, rank).len() ==> {
                &&& (#[trigger] pass(records, deleted, rank)[i]).deleted == deleted
                &&& apply_rank(pass(records, deleted, rank)[i]) == rank
                &&& records.contains(pass(records, deleted, rank)[i])
            },
        forall|k: int|
            0 <= k < records.len() && (#[trigger] records[k]).deleted == deleted && apply_rank(
                records[k],
            ) == rank ==> pass(records, deleted, rank).contains(records[k]),
    decreases records.len(),
{
    reveal(Seq::filter);
    if records.len() > 0 {
        let rest = records.drop_last();
        lemma_pass(rest, deleted, rank);
        let chosen = pass(rest, deleted, rank);
        let last = records.last();
        assert forall|i: int| 0 <= i < pass(records, deleted, rank).len() implies {
            &&& (#[trigger] pass(records, deleted, rank)[i]).deleted == deleted
            &&& apply_rank(pass(records, deleted, rank)[i]) == rank
            &&& records.contains(pass(records, deleted, rank)[i])
        } by {
            if i < chosen.len() {
                assert(pass(records, deleted, rank)[i] == chosen[i]);
                assert(rest.contains(chosen[i]));
                let at = choose|at: int| 0 <= at < rest.len() && rest[at] == chosen[i];
                assert(records[at] == chosen[i]);
            } else {
                assert(pass(records, deleted, rank)[i] == last);
                assert(records[records.len() - 1] == last);
            }
        }
        assert forall|k: int|
            0 <= k < records.len() && (#[trigger] records[k]).deleted == deleted && apply_rank(
                records[k],
            ) == rank implies pass(records, deleted, rank).contains(records[k]) by {
            if k < rest.len() {
                assert(rest[k] == records[k]);
                assert(chosen.contains(rest[k]));
                let at = choose|at: int| 0 <= at < chosen.len() && chosen[at] == rest[k];
                assert(pass(records, deleted, rank)[at] == records[k]);
            } else {
                assert(pass(records, deleted, rank)[chosen.len() as int] == records[k]);
            }
        }
    }
}

/// Every record that writes a row is applied before every record that
/// removes one: in the plan of a batch, no row is written after a row was
/// removed.
pub proof fn lemma_rows_are_written_before_rows_are_removed(records: Seq<ChangeRecordView>, now: i64)
    ensures
        remote_plan(records, now) == ops_of(writing(records), now) + ops_of(removing(records), now),
        forall|i: int|
            0 <= i < ops_of(writing(records), now).len() ==> (#[trigger] ops_of(
                writing(records),
                now,
            )[i]) is Upsert,
        forall|i: int|
            0 <= i < ops_of(removing(records), now).len() ==> (#[trigger] ops_of(
                removing(records),
                now,
            )[i]) is HardDelete,
        forall|i: int, j: int|
            0 <= i < j < remote_plan(records, now).len() && (#[trigger] remote_plan(
                records,
                now,
            )[i]) is HardDelete ==> (#[trigger] remote_plan(records, now)[j]) is HardDelete,
{
    let up = writing(records);
    let down = removing(records);
    assert(in_apply_order(records) =~= up + down);
    lemma_ops_of_concat(up, down, now);
    lemma_pass(records, false, 0);
    lemma_pass(records, false, 1);
    lemma_pass(records, false, 2);
    lemma_pass(records, true, 0);
    lemma_pass(records, true, 1);
    lemma_pass(records, true, 2);
    assert forall|k: int| 0 <= k < up.len() implies !(#[trigger] up[k]).deleted by {
        let a = pass(records, false, 0);
        let b = pass(records, false, 1);
        let c = pass(records, false, 2);
        if k < a.len() {
            assert(up[k] == a[k]);
        } else if k < a.len() + b.len() {
            assert(up[k] == b[k - a.len()]);
        } else {
            assert(up[k] == c[k - a.len() - b.len()]);
        }
    }
    assert forall|k: int| 0 <= k < down.len() implies (#[trigger] down[k]).deleted by {
        let a = pass(records, true, 0);
        let b = pass(records, true, 1);
        let c = pass(records, true, 2);
        if k < a.len() {
            assert(down[k] == a[k]);
        } else if k < a.len() + b.len() {
            assert(down[k] == b[k - a.len()]);
        } else {
            assert(down[k] == c[k - a.len() - b.len()]);
        }
    }
    lemma_ops_of_kinds(up, now);
    lemma_ops_of_kinds(down, now);
    let plan = remote_plan(records, now);
    let first = ops_of(up, now);
    let second = ops_of(down, now);
    assert forall|i: int, j: int|
        0 <= i < j < plan.len() && (#[trigger] plan[i]) is HardDelete implies (#[trigger] plan[
            j
        ]) is HardDelete by {
        if i < first.len() {
            assert(plan[i] == first[i]);
        } else {
            assert(plan[j] == second[j - first.len()]);
        }
    }
}

/// The change of a record of a list is among the changes of the list.
pub proof fn lemma_op_is_planned(records: Seq<ChangeRecordView>, k: int, now: i64)
    requires
        0 <= k < records.len(),
        record_op(records[k], now).is_some(),
    ensures
        ops_of(records, now).contains(record_op(records[k], now)->Some_0),
    decreases records.len(),
{
    let rest = records.drop_last();
    let before = ops_of(rest, now);
    let op = record_op(records[k], now)->Some_0;
    if k < records.len() - 1 {
        assert(rest[k] == records[k]);
        lemma_op_is_planned(rest, k, now);
        let at = choose|at: int| 0 <= at < before.len() && before[at] == op;
        assert(ops_of(records, now)[at] == op);
    } else {
        assert(records.last() == records[k]);
        assert(ops_of(records, now) == before.push(op));
        assert(ops_of(records, now)[before.len() as int] == op);
    }
}

/// A row that is not in the store is not in it after another row was
/// removed.
pub proof fn lemma_removed_keeps_absent(
    rows: Seq<crate::store::StoredRecordView>,
    table: Table,
    id: Seq<char>,
    other_table: Table,
    other_id: Seq<char>,
)
    requires
        !crate::store::holds(rows, table, id),
    ensures
        !crate::store::holds(crate::store::removed(rows, other_table, other_id), table, id),
{
    let after = crate::store::removed(rows, other_table, other_id);
    let at = crate::store::position(rows, other_table, other_id);
    crate::store::lemma_position(rows, table, id);
    crate::store::lemma_position(rows, other_table, other_id);
    assert forall|j: int| 0 <= j < after.len() implies !(#[trigger] after[j]).has_key(table, id) by {
        if at < rows.len() {
            if j < at {
                assert(after[j] == rows[j]);
            } else {
                assert(after[j] == rows[j + 1]);
            }
        }
    }
    crate::store::lemma_position_is(after, table, id, after.len() as int);
}

/// After steps that all remove rows, the row that one of them removes is
/// not in the store.
pub proof fn lemma_removals_leave_absent(
    store: LocalStoreView,
    ops: Seq<StoreOpView>,
    k: int,
    table: Table,
    id: Seq<char>,
)
    requires
        store.wf(),
        forall|i: int| 0 <= i < ops.len() ==> (#[trigger] ops[i]) is HardDelete,
        0 <= k < ops.len(),
        ops[k] == (StoreOpView::HardDelete { table, id }),
    ensures
        run_ops(store, ops) matches Ok(after) && after.wf() && !crate::store::holds(
            after.rows,
            table,
            id,
        ),
    decreases ops.len(),
{
    let earlier = ops.drop_last();
    let last = ops.last();
    assert(ops =~= earlier.push(last));
    crate::plan::lemma_run_ops_push(store, earlier, last);
    assert forall|i: int| 0 <= i < earlier.len() implies writes_or_removes(#[trigger] earlier[i]) by {
        assert(earlier[i] == ops[i]);
    }
    lemma_writes_and_removals_run(store, earlier);
    lemma_run_ops_wf(store, earlier);
    let middle = run_ops(store, earlier)->Ok_0;
    assert(ops[ops.len() - 1] is HardDelete);
    crate::plan::lemma_run_op_wf(middle, last);
    if k == ops.len() - 1 {
        crate::store::lemma_removed(middle.rows, table, id);
    } else {
        assert forall|i: int| 0 <= i < earlier.len() implies (#[trigger] earlier[i]) is HardDelete by {
            assert(earlier[i] == ops[i]);
        }
        assert(earlier[k] == ops[k]);
        lemma_removals_leave_absent(store, earlier, k, table, id);
        match last {
            StoreOpView::HardDelete { table: other_table, id: other_id } => {
                lemma_removed_keeps_absent(middle.rows, table, id, other_table, other_id);
            },
            _ => {},
        }
    }
}

/// A deletion wins: the row that a record of a batch deletes is not in the
/// store after the batch was applied, wherever in the batch the record
/// stands and whatever other records of the batch write.
pub proof fn lemma_deleted_rows_are_gone(
    store: LocalStoreView,
    records: Seq<ChangeRecordView>,
    k: int,
    now: i64,
)
    requires
        store.wf(),
        0 <= k < records.len(),
        records[k].deleted,
        records[k].table().is_some(),
    ensures
        run_ops(store, remote_plan(records, now)) matches Ok(after) && !crate::store::holds(
            after.rows,
            records[k].table()->Some_0,
            records[k].row_id,
        ),
{
    let record = records[k];
    let table = record.table()->Some_0;
    let up = writing(records);
    let down = removing(records);
    let first = ops_of(up, now);
    let second = ops_of(down, now);
    lemma_rows_are_written_before_rows_are_removed(records, now);
    crate::plan::lemma_run_ops_concat(store, first, second);
    assert forall|i: int| 0 <= i < first.len() implies writes_or_removes(#[trigger] first[i]) by {}
    lemma_writes_and_removals_run(store, first);
    lemma_run_ops_wf(store, first);
    let middle = run_ops(store, first)->Ok_0;
    // the record is among those that remove a row
    let rank = apply_rank(record);
    lemma_pass(records, true, rank);
    let chosen = pass(records, true, rank);
    assert(chosen.contains(record));
    let at = choose|at: int| 0 <= at < chosen.len() && chosen[at] == record;
    let a = pass(records, true, 0);
    let b = pass(records, true, 1);
    let place = if rank == 0 {
        at
    } else {
        a.len() + at
    };
    assert(down[place] == record);
    lemma_op_is_planned(down, place, now);
    let op = StoreOpView::HardDelete { table, id: record.row_id };
    assert(record_op(record, now) == Some(op));
    let step = choose|step: int| 0 <= step < second.len() && second[step] == op;
    lemma_removals_leave_absent(middle, second, step, table, record.row_id);
}

/// The place of a step in the order of a plan: rows of categories and
/// accounts are written first (0), then rows of transactions (1); after
/// that rows of transactions are removed (2), then rows of categories and
/// accounts (3).
pub open spec fn step_rank(op: StoreOpView) -> int {
    match op {
        StoreOpView::Upsert(row) => if row.table() == Table::Transactions {
            1
        } else {
            0
        },
        StoreOpView::HardDelete { table, id } => if table == Table::Transactions {
            2
        } else {
            3
        },
        _ => 4,
    }
}

/// The changes of records that are all of one pass have the place of that
/// pass; records for tables that the store does not hold make no change.
pub proof fn lemma_ops_of_rank(records: Seq<ChangeRecordView>, deleted: bool, rank: int, now: i64)
    requires
        forall|k: int|
            0 <= k < records.len() ==> (#[trigger] records[k]).deleted == deleted && apply_rank(
                records[k],
            ) == rank,
    ensures
        forall|i: int|
            0 <= i < ops_of(records, now).len() ==> step_rank(#[trigger] ops_of(records, now)[i])
                == rank + if deleted {
                2int
            } else {
                0int
            },
        rank == 2 ==> ops_of(records, now).len() == 0,
    decreases records.len(),
{
    if records.len() > 0 {
        let rest = records.drop_last();
        assert forall|k: int| 0 <= k < rest.len() implies (#[trigger] rest[k]).deleted == deleted
            && apply_rank(rest[k]) == rank by {
            assert(rest[k] == records[k]);
        }
        lemma_ops_of_rank(rest, deleted, rank, now);
        let last = records[records.len() - 1];
        let before = ops_of(rest, now);
        let place = rank + if deleted {
            2int
        } else {
            0int
        };
        assert(last == records.last());
        match record_op(last, now) {
            Some(op) => {
                let table = last.table()->Some_0;
                if !deleted {
                    assert(row_from_record(last, table, now).table() == table);
                }
                assert(step_rank(op) == place);
                assert forall|i: int| 0 <= i < ops_of(records, now).len() implies step_rank(
                    #[trigger] ops_of(records, now)[i],
                ) == place by {
                    if i < before.len() {
                        assert(ops_of(records, now)[i] == before[i]);
                    }
                }
            },
            None => {},
        }
    }
}

/// The plan of a batch is in dependency order: the place of a step is never
/// before the place of an earlier step. So no transaction is written before
/// a category or an account of the batch, no category or account is removed
/// before a transaction of the batch, and every row is written before any
/// row is removed.
pub proof fn lemma_plan_is_in_dependency_order(records: Seq<ChangeRecordView>, now: i64)
    ensures
        forall|i: int, j: int|
            0 <= i < j < remote_plan(records, now).len() ==> step_rank(
                #[trigger] remote_plan(records, now)[i],
            ) <= step_rank(#[trigger] remote_plan(records, now)[j]),
{
    let w0 = pass(records, false, 0);
    let w1 = pass(records, false, 1);
    let w2 = pass(records, false, 2);
    let r0 = pass(records, true, 0);
    let r1 = pass(records, true, 1);
    let r2 = pass(records, true, 2);
    lemma_pass(records, false, 0);
    lemma_pass(records, false, 1);
    lemma_pass(records, false, 2);
    lemma_pass(records, true, 0);
    lemma_pass(records, true, 1);
    lemma_pass(records, true, 2);
    lemma_ops_of_rank(w0, false, 0, now);
    lemma_ops_of_rank(w1, false, 1, now);
    lemma_ops_of_rank(w2, false, 2, now);
    lemma_ops_of_rank(r0, true, 0, now);
    lemma_ops_of_rank(r1, true, 1, now);
    lemma_ops_of_rank(r2, true, 2, now);
    lemma_ops_of_concat(w0, w1, now);
    lemma_ops_of_concat(w0 + w1, w2, now);
    lemma_ops_of_concat(w0 + w1 + w2, r0, now);
    lemma_ops_of_concat(w0 + w1 + w2 + r0, r1, now);
    lemma_ops_of_concat(w0 + w1 + w2 + r0 + r1, r2, now);
    let a = ops_of(w0, now);
    let b = ops_of(w1, now);
    let c = ops_of(r0, now);
    let d = ops_of(r1, now);
    let plan = remote_plan(records, now);
    assert(plan =~= a + b + c + d);
    assert forall|i: int| 0 <= i < plan.len() implies step_rank(#[trigger] plan[i]) == (if i
        < a.len() {
        0int
    } else if i < a.len() + b.len() {
        1int
    } else if i < a.len() + b.len() + c.len() {
        2int
    } else {
        3int
    }) by {
        if i < a.len() {
            assert(plan[i] == a[i]);
        } else if i < a.len() + b.len() {
            assert(plan[i] == b[i - a.len()]);
        } else if i < a.len() + b.len() + c.len() {
            assert(plan[i] == c[i - a.len() - b.len()]);
        } else {
            assert(plan[i] == d[i - a.len() - b.len() - c.len()]);
        }
    }
}

/// A row that has a table and identifier shows that the store holds them.
pub proof fn lemma_holds(rows: Seq<crate::store::StoredRecordView>, at: int, table: Table, id: Seq<char>)
    requires
        0 <= at < rows.len(),
        rows[at].has_key(table, id),
    ensures
        crate::store::holds(rows, table, id),
{
    crate::store::lemma_position(rows, table, id);
}

/// A row that is in the store is in it after a record was written.
pub proof fn lemma_upserted_keeps_present(
    rows: Seq<crate::store::StoredRecordView>,
    record: LocalRecordView,
    table: Table,
    id: Seq<char>,
)
    requires
        crate::store::holds(rows, table, id),
    ensures
        crate::store::holds(crate::store::upserted(rows, record), table, id),
{
    let after = crate::store::upserted(rows, record);
    let at = crate::store::position(rows, table, id);
    let place = crate::store::position(rows, record.table(), record.id());
    crate::store::lemma_position(rows, table, id);
    crate::store::lemma_position(rows, record.table(), record.id());
    if place == at {
        assert(after[at] == crate::store::stored(record));
        assert(rows[at].has_key(record.table(), record.id()));
    } else {
        assert(after[at] == rows[at]);
    }
    lemma_holds(after, at, table, id);
}

/// A row that is in the store is in it after another row was removed.
pub proof fn lemma_removed_keeps_present(
    rows: Seq<crate::store::StoredRecordView>,
    table: Table,
    id: Seq<char>,
    other_table: Table,
    other_id: Seq<char>,
)
    requires
        crate::store::holds(rows, table, id),
        !(table == other_table && id == other_id),
    ensures
        crate::store::holds(crate::store::removed(rows, other_table, other_id), table, id),
{
    let after = crate::store::removed(rows, other_table, other_id);
    let at = crate::store::position(rows, table, id);
    let place = crate::store::position(rows, other_table, other_id);
    crate::store::lemma_position(rows, table, id);
    crate::store::lemma_position(rows, other_table, other_id);
    if place < rows.len() {
        assert(place != at);
        if at < place {
            assert(after[at] == rows[at]);
            lemma_holds(after, at, table, id);
        } else {
            assert(after[at - 1] == rows[at]);
            lemma_holds(after, at - 1, table, id);
        }
    }
}

/// After steps that all write rows, the row that one of them writes is in
/// the store.
pub proof fn lemma_writes_leave_present(store: LocalStoreView, ops: Seq<StoreOpView>, k: int)
    requires
        forall|i: int| 0 <= i < ops.len() ==> (#[trigger] ops[i]) is Upsert,
        0 <= k < ops.len(),
    ensures
        run_ops(store, ops) matches Ok(after) && crate::store::holds(
            after.rows,
            ops[k]->Upsert_0.table(),
            ops[k]->Upsert_0.id(),
        ),
    decreases ops.len(),
{
    let earlier = ops.drop_last();
    let last = ops.last();
    let row = ops[k]->Upsert_0;
    assert(ops =~= earlier.push(last));
    crate::plan::lemma_run_ops_push(store, earlier, last);
    assert forall|i: int| 0 <= i < earlier.len() implies writes_or_removes(#[trigger] earlier[i]) by {
        assert(earlier[i] == ops[i]);
    }
    lemma_writes_and_removals_run(store, earlier);
    let middle = run_ops(store, earlier)->Ok_0;
    assert(ops[ops.len() - 1] is Upsert);
    let written = last->Upsert_0;
    if k == ops.len() - 1 {
        let place = crate::store::position(middle.rows, row.table(), row.id());
        crate::store::lemma_position(middle.rows, row.table(), row.id());
        let after = crate::store::upserted(middle.rows, row);
        if place < middle.rows.len() {
            assert(after[place] == crate::store::stored(row));
            lemma_holds(after, place, row.table(), row.id());
        } else {
            assert(after[middle.rows.len() as int] == crate::store::stored(row));
            lemma_holds(after, middle.rows.len() as int, row.table(), row.id());
        }
    } else {
        assert forall|i: int| 0 <= i < earlier.len() implies (#[trigger] earlier[i]) is Upsert by {
            assert(earlier[i] == ops[i]);
        }
        assert(earlier[k] == ops[k]);
        lemma_writes_leave_present(store, earlier, k);
        lemma_upserted_keeps_present(middle.rows, written, row.table(), row.id());
    }
}

/// After steps that all remove rows, none of them the row with a table and
/// identifier, that row is in the store if it was before.
pub proof fn lemma_removals_keep_present(
    store: LocalStoreView,
    ops: Seq<StoreOpView>,
    table: Table,
    id: Seq<char>,
)
    requires
        crate::store::holds(store.rows, table, id),
        forall|i: int|
            0 <= i < ops.len() ==> (#[trigger] ops[i]) is HardDelete && ops[i] != (
            StoreOpView::HardDelete { table, id }),
    ensures
        run_ops(store, ops) matches Ok(after) && crate::store::holds(after.rows, table, id),
    decreases ops.len(),
{
    if ops.len() > 0 {
        let earlier = ops.drop_last();
        let last = ops.last();
        assert(ops =~= earlier.push(last));
        crate::plan::lemma_run_ops_push(store, earlier, last);
        assert forall|i: int|
            0 <= i < earlier.len() implies (#[trigger] earlier[i]) is HardDelete && earlier[i] != (
        StoreOpView::HardDelete { table, id }) by {
            assert(earlier[i] == ops[i]);
        }
        lemma_removals_keep_present(store, earlier, table, id);
        let middle = run_ops(store, earlier)->Ok_0;
        assert(ops[ops.len() - 1] is HardDelete);
        match last {
            StoreOpView::HardDelete { table: other_table, id: other_id } => {
                lemma_removed_keeps_present(middle.rows, table, id, other_table, other_id);
            },
            _ => {},
        }
    }
}

/// Every change of a list of records is the change of one of the records.
pub proof fn lemma_planned_op_is_of_a_record(records: Seq<ChangeRecordView>, i: int, now: i64)
    requires
        0 <= i < ops_of(records, now).len(),
    ensures
        exists|k: int|
            0 <= k < records.len() && record_op(#[trigger] records[k], now) == Some(
                ops_of(records, now)[i],
            ),
    decreases records.len(),
{
    let rest = records.drop_last();
    let before = ops_of(rest, now);
    if i < before.len() {
        assert(ops_of(records, now)[i] == before[i]);
        lemma_planned_op_is_of_a_record(rest, i, now);
        let k = choose|k: int|
            0 <= k < rest.len() && record_op(#[trigger] rest[k], now) == Some(before[i]);
        assert(records[k] == rest[k]);
    } else {
        assert(record_op(records[records.len() - 1], now) == Some(ops_of(records, now)[i]));
    }
}

/// A row that a batch writes and does not delete is in the store after the
/// batch was applied.
pub proof fn lemma_written_rows_are_there(
    store: LocalStoreView,
    records: Seq<ChangeRecordView>,
    k: int,
    now: i64,
)
    requires
        store.wf(),
        0 <= k < records.len(),
        !records[k].deleted,
        records[k].table().is_some(),
        forall|j: int|
            0 <= j < records.len() && (#[trigger] records[j]).deleted ==> !(records[j].table()
                == records[k].table() && records[j].row_id == records[k].row_id),
    ensures
        run_ops(store, remote_plan(records, now)) matches Ok(after) && crate::store::holds(
            after.rows,
            records[k].table()->Some_0,
            records[k].row_id,
        ),
{
    let record = records[k];
    let table = record.table()->Some_0;
    let id = record.row_id;
    let up = writing(records);
    let down = removing(records);
    let first = ops_of(up, now);
    let second = ops_of(down, now);
    lemma_rows_are_written_before_rows_are_removed(records, now);
    crate::plan::lemma_run_ops_concat(store, first, second);
    // the record is among those that write a row
    let rank = apply_rank(record);
    lemma_pass(records, false, rank);
    let chosen = pass(records, false, rank);
    assert(chosen.contains(record));
    let at = choose|at: int| 0 <= at < chosen.len() && chosen[at] == record;
    let a = pass(records, false, 0);
    let place = if rank == 0 {
        at
    } else {
        a.len() + at
    };
    assert(up[place] == record);
    lemma_op_is_planned(up, place, now);
    let op = StoreOpView::Upsert(row_from_record(record, table, now));
    assert(record_op(record, now) == Some(op));
    let step = choose|step: int| 0 <= step < first.len() && first[step] == op;
    lemma_writes_leave_present(store, first, step);
    let middle = run_ops(store, first)->Ok_0;
    assert(row_from_record(record, table, now).table() == table);
    assert(row_from_record(record, table, now).id() == id);
    // no step that removes a row removes this one
    lemma_pass(records, true, 0);
    lemma_pass(records, true, 1);
    lemma_pass(records, true, 2);
    assert forall|i: int|
        0 <= i < second.len() implies (#[trigger] second[i]) is HardDelete && second[i] != (
    StoreOpView::HardDelete { table, id }) by {
        lemma_planned_op_is_of_a_record(down, i, now);
        let j = choose|j: int|
            0 <= j < down.len() && record_op(#[trigger] down[j], now) == Some(second[i]);
        let other = down[j];
        let r0 = pass(records, true, 0);
        let r1 = pass(records, true, 1);
        let r2 = pass(records, true, 2);
        let from = if j < r0.len() {
            r0[j]
        } else if j < r0.len() + r1.len() {
            r1[j - r0.len()]
        } else {
            r2[j - r0.len() - r1.len()]
        };
        assert(other == from);
        assert(records.contains(other));
        let source = choose|source: int| 0 <= source < records.len() && records[source] == other;
        assert(records[source].deleted);
        assert(!(other.table() == record.table() && other.row_id == id));
    }
    lemma_removals_keep_present(middle, second, table, id);
}

} // verus!
