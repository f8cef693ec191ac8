//! The remote change applier: what the records that were pulled from the
//! remote store change in the local store.
//!
//! Rows are written before rows are removed, whatever the order in which the
//! records arrived: a row that a batch both writes and deletes is gone
//! afterwards. Among the rows that are written, categories and accounts come
//! before transactions; among those that are removed, transactions come first.

use vstd::prelude::*;
use crate::binary64::Binary64;
use crate::models::{
    Account, AccountView, Category, CategoryView, LocalRecord, LocalRecordView, Transaction,
    TransactionSource, TransactionView,
};
use crate::plan::{
    lemma_run_ops_wf, ops_view, run_ops, StoreOp, StoreOpView,
};
use crate::record::{
    fields_view, find_member, member, records_view, ChangeRecord, ChangeRecordView, Field,
    FieldView, Table,
};
use crate::store::{LocalStore, LocalStoreView};
use crate::text::option_text;

verus! {

/// The text of a field, or a default where the field is missing or is not
/// text.
pub open spec fn text_or(data: Seq<FieldView>, name: Seq<char>, default: Seq<char>) -> Seq<char> {
    match member(data, name).as_text() {
        Some(text) => text,
        None => default,
    }
}

/// The text of a field, where the field is there and is text.
pub open spec fn text_of(data: Seq<FieldView>, name: Seq<char>) -> Option<Seq<char>> {
    member(data, name).as_text()
}

/// The number in a field, or zero where the field is missing or is no
/// number.
pub open spec fn number_or_zero(data: Seq<FieldView>, name: Seq<char>) -> Binary64 {
    match member(data, name).as_number() {
        Some(number) => number,
        None => Binary64 { bits: 0 },
    }
}

/// The whole number in a field, or zero where the field is missing or is no
/// whole number.
pub open spec fn integer_or_zero(data: Seq<FieldView>, name: Seq<char>) -> i64 {
    match member(data, name).as_integer() {
        Some(integer) => integer,
        None => 0,
    }
}

/// The truth value in a field, or a default where the field is missing or
/// is no truth value.
pub open spec fn bool_or(data: Seq<FieldView>, name: Seq<char>, default: bool) -> bool {
    match member(data, name).as_bool() {
        Some(truth) => truth,
        None => default,
    }
}

/// The transaction that a record writes. A field that the record does not
/// hold takes its default: the source is `manual`, the currency `VND`, an
/// amount is zero, a text is empty. The row takes the version of the record
/// and is clean from `now` on.
pub open spec fn transaction_from_record(record: ChangeRecordView, now: i64) -> TransactionView {
    let data = record.data;
    TransactionView {
        id: record.row_id,
        source: TransactionSource::parse(text_or(data, "source"@, "manual"@)),
        import_batch_id: None,
        note: text_or(data, "note"@, ""@),
        amount: number_or_zero(data, "amount"@),
        category: text_or(data, "category"@, ""@),
        account: text_or(data, "account"@, ""@),
        currency: text_or(data, "currency"@, "VND"@),
        date: text_or(data, "date"@, ""@),
        event: text_of(data, "event"@),
        exclude_report: bool_or(data, "excludeReport"@, false),
        expense: number_or_zero(data, "expense"@),
        income: number_or_zero(data, "income"@),
        year_month: text_or(data, "yearMonth"@, ""@),
        year: integer_or_zero(data, "year"@) as i32,
        month: integer_or_zero(data, "month"@) as i32,
        created_at: text_or(data, "createdAt"@, ""@),
        updated_at: text_or(data, "updatedAt"@, ""@),
        sync_version: record.version,
        synced_at: Some(now),
    }
}

/// The category that a record writes. A category is one of expenses unless
/// the record says otherwise.
pub open spec fn category_from_record(record: ChangeRecordView, now: i64) -> CategoryView {
    let data = record.data;
    CategoryView {
        id: record.row_id,
        name: text_or(data, "name"@, ""@),
        icon: text_of(data, "icon"@),
        color: text_of(data, "color"@),
        is_expense: bool_or(data, "isExpense"@, true),
        sync_version: record.version,
        synced_at: Some(now),
    }
}

/// The account that a record writes.
pub open spec fn account_from_record(record: ChangeRecordView, now: i64) -> AccountView {
    let data = record.data;
    AccountView {
        id: record.row_id,
        name: text_or(data, "name"@, ""@),
        account_type: text_of(data, "accountType"@),
        icon: text_of(data, "icon"@),
        sync_version: record.version,
        synced_at: Some(now),
    }
}

/// The row of a table that a record writes.
pub open spec fn row_from_record(record: ChangeRecordView, table: Table, now: i64) -> LocalRecordView {
    match table {
        Table::Transactions => LocalRecordView::Transaction(transaction_from_record(record, now)),
        Table::Categories => LocalRecordView::Category(category_from_record(record, now)),
        Table::Accounts => LocalRecordView::Account(account_from_record(record, now)),
    }
}

/// What one record changes in the local store: it removes the row that it
/// names, or writes it. A record for a table that the store does not hold
/// changes nothing.
pub open spec fn record_op(record: ChangeRecordView, now: i64) -> Option<StoreOpView> {
    match record.table() {
        None => None,
        Some(table) => if record.deleted {
            Some(StoreOpView::HardDelete { table, id: record.row_id })
        } else {
            Some(StoreOpView::Upsert(row_from_record(record, table, now)))
        },
    }
}

/// The place of a record among those that are applied in the same pass.
/// Where rows are written, categories and accounts (0) come before
/// transactions (1); where rows are removed, transactions (0) come before
/// categories and accounts (1). Records for other tables come last (2).
pub open spec fn apply_rank(record: ChangeRecordView) -> int {
    match record.table() {
        None => 2,
        Some(Table::Transactions) => if record.deleted { 0 } else { 1 },
        Some(_) => if record.deleted { 1 } else { 0 },
    }
}

/// The records that are written (or, with `deleted`, removed) and have a
/// rank, in the order in which they arrived.
pub open spec fn pass(records: Seq<ChangeRecordView>, deleted: bool, rank: int) -> Seq<
    ChangeRecordView,
> {
    records.filter(|r: ChangeRecordView| r.deleted == deleted && apply_rank(r) == rank)
}

/// The records of a batch in the order in which they are applied: those that
/// write a row before those that remove one, each of the two sorted by rank,
/// and records of one rank in the order in which they arrived.
pub open spec fn in_apply_order(records: Seq<ChangeRecordView>) -> Seq<ChangeRecordView> {
    pass(records, false, 0) + pass(records, false, 1) + pass(records, false, 2) + pass(
        records,
        true,
        0,
    ) + pass(records, true, 1) + pass(records, true, 2)
}

/// The changes that a list of records makes, record by record.
pub open spec fn ops_of(records: Seq<ChangeRecordView>, now: i64) -> Seq<StoreOpView>
    decreases records.len(),
{
    if records.len() == 0 {
        Seq::empty()
    } else {
        let before = ops_of(records.drop_last(), now);
        match record_op(records.last(), now) {
            Some(op) => before.push(op),
            None => before,
        }
    }
}

/// The changes that a batch of pulled records makes to the local store, in
/// the order in which they are made.
pub open spec fn remote_plan(records: Seq<ChangeRecordView>, now: i64) -> Seq<StoreOpView> {
    ops_of(in_apply_order(records), now)
}

/// The changes of two lists of records, one after the other, are the changes
/// of the first list followed by those of the second.
pub proof fn lemma_ops_of_concat(first: Seq<ChangeRecordView>, second: Seq<ChangeRecordView>, now: i64)
    ensures
        ops_of(first + second, now) == ops_of(first, now) + ops_of(second, now),
    decreases second.len(),
{
    if second.len() == 0 {
        assert(first + second =~= first);
        assert(ops_of(first, now) + ops_of(second, now) =~= ops_of(first, now));
    } else {
        assert((first + second).drop_last() =~= first + second.drop_last());
        assert((first + second).last() == second.last());
        lemma_ops_of_concat(first, second.drop_last(), now);
        match record_op(second.last(), now) {
            Some(op) => {
                assert((ops_of(first, now) + ops_of(second.drop_last(), now)).push(op) =~= ops_of(
                    first,
                    now,
                ) + ops_of(second.drop_last(), now).push(op));
            },
            None => {},
        }
    }
}

/// The text of a field, or a default.
fn read_text(data: &Vec<Field>, name: &str, default: &str) -> (text: String)
    ensures
        text@ == text_or(fields_view(data@), name@, default@),
{
    match find_member(data, name) {
        Some(value) => match value.as_text() {
            Some(text) => text.clone(),
            None => default.to_owned(),
        },
        None => default.to_owned(),
    }
}

/// The text of a field, where there is one.
fn read_optional_text(data: &Vec<Field>, name: &str) -> (text: Option<String>)
    ensures
        option_text(text) == text_of(fields_view(data@), name@),
{
    match find_member(data, name) {
        Some(value) => match value.as_text() {
            Some(text) => Some(text.clone()),
            None => None,
        },
        None => None,
    }
}

/// The number in a field, or zero.
fn read_number(data: &Vec<Field>, name: &str) -> (number: Binary64)
    ensures
        number == number_or_zero(fields_view(data@), name@),
{
    match find_member(data, name) {
        Some(value) => match value.as_number() {
            Some(number) => number,
            None => Binary64::zero(),
        },
        None => Binary64::zero(),
    }
}

/// The whole number in a field, or zero.
fn read_integer(data: &Vec<Field>, name: &str) -> (integer: i64)
    ensures
        integer == integer_or_zero(fields_view(data@), name@),
{
    match find_member(data, name) {
        Some(value) => match value.as_integer() {
            Some(integer) => integer,
            None => 0,
        },
        None => 0,
    }
}

/// The truth value in a field, or a default.
fn read_bool(data: &Vec<Field>, name: &str, default: bool) -> (truth: bool)
    ensures
        truth == bool_or(fields_view(data@), name@, default),
{
    match find_member(data, name) {
        Some(value) => match value.as_bool() {
            Some(truth) => truth,
            None => default,
        },
        None => default,
    }
}

/// The transaction that a record writes.
pub fn transaction_from_sync_record(record: &ChangeRecord, now: i64) -> (row: Transaction)
    ensures
        row@ == transaction_from_record(record@, now),
{
    let data = &record.data;
    let source_name = read_text(data, "source", "manual");
    let year = read_integer(data, "year");
    let month = read_integer(data, "month");
    Transaction {
        id: record.row_id.clone(),
        source: TransactionSource::from_str(source_name.as_str()),
        import_batch_id: None,
        note: read_text(data, "note", ""),
        amount: read_number(data, "amount"),
        category: read_text(data, "category", ""),
        account: read_text(data, "account", ""),
        currency: read_text(data, "currency", "VND"),
        date: read_text(data, "date", ""),
        event: read_optional_text(data, "event"),
        exclude_report: read_bool(data, "excludeReport", false),
        expense: read_number(data, "expense"),
        income: read_number(data, "income"),
        year_month: read_text(data, "yearMonth", ""),
        year: #[verifier::truncate]
        (year as i32),
        month: #[verifier::truncate]
        (month as i32),
        created_at: read_text(data, "createdAt", ""),
        updated_at: read_text(data, "updatedAt", ""),
        sync_version: record.version,
        synced_at: Some(now),
    }
}

/// The category that a record writes.
pub fn category_from_sync_record(record: &ChangeRecord, now: i64) -> (row: Category)
    ensures
        row@ == category_from_record(record@, now),
{
    let data = &record.data;
    Category {
        id: record.row_id.clone(),
        name: read_text(data, "name", ""),
        icon: read_optional_text(data, "icon"),
        color: read_optional_text(data, "color"),
        is_expense: read_bool(data, "isExpense", true),
        sync_version: record.version,
        synced_at: Some(now),
    }
}

/// The account that a record writes.
pub fn account_from_sync_record(record: &ChangeRecord, now: i64) -> (row: Account)
    ensures
        row@ == account_from_record(record@, now),
{
    let data = &record.data;
    Account {
        id: record.row_id.clone(),
        name: read_text(data, "name", ""),
        account_type: read_optional_text(data, "accountType"),
        icon: read_optional_text(data, "icon"),
        sync_version: record.version,
        synced_at: Some(now),
    }
}

/// What one record changes in the local store, if anything.
pub fn apply_record(record: &ChangeRecord, now: i64) -> (op: Option<StoreOp>)
    ensures
        match op {
            Some(o) => record_op(record@, now) == Some(o@),
            None => record_op(record@, now).is_none(),
        },
{
    match record.table() {
        None => None,
        Some(table) => {
            if record.deleted {
                Some(StoreOp::HardDelete { table, id: record.row_id.clone() })
            } else {
                let row = match table {
                    Table::Transactions => LocalRecord::Transaction(
                        transaction_from_sync_record(record, now),
                    ),
                    Table::Categories => LocalRecord::Category(category_from_sync_record(record, now)),
                    Table::Accounts => LocalRecord::Account(account_from_sync_record(record, now)),
                };
                Some(StoreOp::Upsert(row))
            }
        },
    }
}

/// The rank of a record within its pass.
fn rank_of(record: &ChangeRecord) -> (rank: u8)
    ensures
        rank == apply_rank(record@),
{
    match record.table() {
        None => 2,
        Some(Table::Transactions) => if record.deleted {
            0
        } else {
            1
        },
        Some(_) => if record.deleted {
            1
        } else {
            0
        },
    }
}

/// Adds to a plan the changes of the records of one pass.
fn plan_pass(records: &Vec<ChangeRecord>, deleted: bool, rank: u8, now: i64, plan: &mut Vec<StoreOp>)
    ensures
        ops_view(final(plan)@) == ops_view(old(plan)@) + ops_of(
            pass(records_view(records@), deleted, rank as int),
            now,
        ),
{
    let ghost all = records_view(records@);
    let ghost start = ops_view(plan@);
    let mut i: usize = 0;
    proof {
        reveal(Seq::filter);
        assert(all.take(0) =~= Seq::<ChangeRecordView>::empty());
        assert(start + ops_of(pass(all.take(0), deleted, rank as int), now) =~= start);
    }
    while i < records.len()
        invariant
            i <= records.len(),
            all == records_view(records@),
            ops_view(plan@) == start + ops_of(pass(all.take(i as int), deleted, rank as int), now),
        decreases records.len() - i,
    {
        let record = &records[i];
        proof {
            reveal(Seq::filter);
            assert(all.take(i as int + 1).drop_last() =~= all.take(i as int));
            assert(all.take(i as int + 1).last() == record@);
        }
        if record.deleted == deleted && rank_of(record) == rank {
            let ghost chosen = pass(all.take(i as int), deleted, rank as int);
            proof {
                assert(pass(all.take(i as int + 1), deleted, rank as int) == chosen.push(record@));
                assert(chosen.push(record@).drop_last() =~= chosen);
            }
            match apply_record(record, now) {
                Some(op) => {
                    let ghost before = ops_view(plan@);
                    plan.push(op);
                    assert(ops_view(plan@) =~= before.push(op@));
                    assert(ops_view(plan@) =~= start + ops_of(chosen, now).push(op@));
                },
                None => {},
            }
        }
        i = i + 1;
    }
    assert(all.take(records.len() as int) =~= all);
}

/// The changes that a batch of pulled records makes to the local store, in
/// the order in which they are to be made.
pub fn plan_remote_changes(records: &Vec<ChangeRecord>, now: i64) -> (plan: Vec<StoreOp>)
    ensures
        ops_view(plan@) == remote_plan(records_view(records@), now),
{
    let ghost all = records_view(records@);
    let mut plan: Vec<StoreOp> = Vec::new();
    assert(ops_view(plan@) =~= Seq::<StoreOpView>::empty());
    plan_pass(records, false, 0, now, &mut plan);
    plan_pass(records, false, 1, now, &mut plan);
    plan_pass(records, false, 2, now, &mut plan);
    plan_pass(records, true, 0, now, &mut plan);
    plan_pass(records, true, 1, now, &mut plan);
    plan_pass(records, true, 2, now, &mut plan);
    proof {
        let w0 = pass(all, false, 0);
        let w1 = pass(all, false, 1);
        let w2 = pass(all, false, 2);
        let r0 = pass(all, true, 0);
        let r1 = pass(all, true, 1);
        let r2 = pass(all, true, 2);
        lemma_ops_of_concat(w0, w1, now);
        lemma_ops_of_concat(w0 + w1, w2, now);
        lemma_ops_of_concat(w0 + w1 + w2, r0, now);
        lemma_ops_of_concat(w0 + w1 + w2 + r0, r1, now);
        lemma_ops_of_concat(w0 + w1 + w2 + r0 + r1, r2, now);
        assert(ops_view(plan@) =~= ops_of(w0, now) + ops_of(w1, now) + ops_of(w2, now) + ops_of(
            r0,
            now,
        ) + ops_of(r1, now) + ops_of(r2, now));
    }
    plan
}

/// Applies a batch of pulled records to the local store.
pub fn apply_remote_changes(store: &mut LocalStore, records: &Vec<ChangeRecord>, now: i64)
    requires
        old(store).wf(),
    ensures
        final(store).wf(),
        run_ops(old(store)@, remote_plan(records_view(records@), now)) == Ok::<
            LocalStoreView,
            crate::error::StorageFailure,
        >(final(store)@),
{
    let plan = plan_remote_changes(records, now);
    proof {
        lemma_remote_plan_runs(store@, records_view(records@), now);
    }
    let done = store.apply_all(&plan);
    assert(done.is_ok());
}

/// A step of a remote plan writes a row or removes one.
pub open spec fn writes_or_removes(op: StoreOpView) -> bool {
    op is Upsert || op is HardDelete
}

/// The changes of a list of records write rows or remove rows, and nothing
/// else.
pub proof fn lemma_ops_of_kinds(records: Seq<ChangeRecordView>, now: i64)
    ensures
        forall|i: int|
            0 <= i < ops_of(records, now).len() ==> writes_or_removes(
                #[trigger] ops_of(records, now)[i],
            ),
        (forall|k: int| 0 <= k < records.len() ==> !(#[trigger] records[k]).deleted) ==> forall|
            i: int,
        | 0 <= i < ops_of(records, now).len() ==> (#[trigger] ops_of(records, now)[i]) is Upsert,
        (forall|k: int| 0 <= k < records.len() ==> (#[trigger] records[k]).deleted) ==> forall|
            i: int,
        | 0 <= i < ops_of(records, now).len() ==> (#[trigger] ops_of(records, now)[i]) is HardDelete,
    decreases records.len(),
{
    if records.len() > 0 {
        lemma_ops_of_kinds(records.drop_last(), now);
        assert forall|k: int| 0 <= k < records.drop_last().len() implies records.drop_last()[k]
            == records[k] by {}
        if forall|k: int| 0 <= k < records.len() ==> !(#[trigger] records[k]).deleted {
            assert forall|k: int| 0 <= k < records.drop_last().len() implies !(
            #[trigger] records.drop_last()[k]).deleted by {
                assert(records.drop_last()[k] == records[k]);
            }
            assert(!records[records.len() - 1].deleted);
        }
        if forall|k: int| 0 <= k < records.len() ==> (#[trigger] records[k]).deleted {
            assert forall|k: int| 0 <= k < records.drop_last().len() implies (
            #[trigger] records.drop_last()[k]).deleted by {
                assert(records.drop_last()[k] == records[k]);
            }
            assert(records[records.len() - 1].deleted);
        }
    }
}

/// Steps that write rows or remove rows can all be taken.
pub proof fn lemma_writes_and_removals_run(store: LocalStoreView, ops: Seq<StoreOpView>)
    requires
        forall|i: int| 0 <= i < ops.len() ==> writes_or_removes(#[trigger] ops[i]),
    ensures
        run_ops(store, ops) is Ok,
    decreases ops.len(),
{
    if ops.len() > 0 {
        assert(writes_or_removes(ops[0]));
        let next = crate::plan::run_op(store, ops[0]);
        assert(next is Ok);
        assert forall|i: int| 0 <= i < ops.drop_first().len() implies writes_or_removes(
            #[trigger] ops.drop_first()[i],
        ) by {
            assert(ops.drop_first()[i] == ops[i + 1]);
        }
        lemma_writes_and_removals_run(next->Ok_0, ops.drop_first());
    }
}

/// A batch of pulled records can always be applied, and leaves a well-formed
/// store well formed.
pub proof fn lemma_remote_plan_runs(store: LocalStoreView, records: Seq<ChangeRecordView>, now: i64)
    requires
        store.wf(),
    ensures
        run_ops(store, remote_plan(records, now)) matches Ok(after) && after.wf(),
{
    lemma_ops_of_kinds(in_apply_order(records), now);
    lemma_writes_and_removals_run(store, remote_plan(records, now));
    lemma_run_ops_wf(store, remote_plan(records, now));
}

} // verus!
