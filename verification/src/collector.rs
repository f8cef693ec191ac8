//! The local change collector: the rows that wait to be pushed, as change
//! records.
//!
//! Deletions come first, then the rows that were created or changed; within
//! each of the two, transactions come before categories and categories before
//! accounts. The collector reads the store and changes nothing in it.

use vstd::prelude::*;
use crate::binary64::Binary64;
use crate::models::{
    Account, AccountView, Category, CategoryView, LocalRecord, LocalRecordView, Transaction,
    TransactionView,
};
use crate::record::{
    fields_view, records_view, strip_nulls, without_nulls, ChangeRecord, ChangeRecordView, Field,
    FieldValue, FieldValueView, FieldView, Table,
};
use crate::store::{LocalStore, LocalStoreView, StoredRecordView};

verus! {

/// A text as the value of a field.
pub open spec fn text_value(text: Seq<char>) -> FieldValueView {
    FieldValueView::Text(text)
}

/// A text that may be missing as the value of a field.
pub open spec fn optional_text_value(text: Option<Seq<char>>) -> FieldValueView {
    match text {
        Some(t) => FieldValueView::Text(t),
        None => FieldValueView::Null,
    }
}

/// A number as the value of a field. An infinity or a NaN cannot be sent and
/// counts as no value.
pub open spec fn number_value(number: Binary64) -> FieldValueView {
    if number.finite() {
        FieldValueView::Number(number)
    } else {
        FieldValueView::Null
    }
}

/// A named value.
pub open spec fn field(name: Seq<char>, value: FieldValueView) -> FieldView {
    FieldView { name, value }
}

/// Every field of a transaction, whether it holds a value or not.
pub open spec fn transaction_fields(tx: TransactionView) -> Seq<FieldView> {
    seq![
        field("source"@, text_value(tx.source.name())),
        field("note"@, text_value(tx.note)),
        field("amount"@, number_value(tx.amount)),
        field("category"@, text_value(tx.category)),
        field("account"@, text_value(tx.account)),
        field("currency"@, text_value(tx.currency)),
        field("date"@, text_value(tx.date)),
        field("event"@, optional_text_value(tx.event)),
        field("excludeReport"@, FieldValueView::Bool(tx.exclude_report)),
        field("expense"@, number_value(tx.expense)),
        field("income"@, number_value(tx.income)),
        field("yearMonth"@, text_value(tx.year_month)),
        field("year"@, FieldValueView::Integer(tx.year as i64)),
        field("month"@, FieldValueView::Integer(tx.month as i64)),
        field("createdAt"@, text_value(tx.created_at)),
        field("updatedAt"@, text_value(tx.updated_at)),
    ]
}

/// Every field of a category, whether it holds a value or not.
pub open spec fn category_fields(category: CategoryView) -> Seq<FieldView> {
    seq![
        field("name"@, text_value(category.name)),
        field("icon"@, optional_text_value(category.icon)),
        field("color"@, optional_text_value(category.color)),
        field("isExpense"@, FieldValueView::Bool(category.is_expense)),
    ]
}

/// Every field of an account, whether it holds a value or not.
pub open spec fn account_fields(account: AccountView) -> Seq<FieldView> {
    seq![
        field("name"@, text_value(account.name)),
        field("accountType"@, optional_text_value(account.account_type)),
        field("icon"@, optional_text_value(account.icon)),
    ]
}

/// The record that pushes a transaction: its fields that hold a value, and
/// its version.
pub open spec fn transaction_record(tx: TransactionView) -> ChangeRecordView {
    ChangeRecordView {
        table_name: Table::Transactions.name(),
        row_id: tx.id,
        data: without_nulls(transaction_fields(tx)),
        version: tx.sync_version,
        deleted: false,
    }
}

/// The record that pushes a category.
pub open spec fn category_record(category: CategoryView) -> ChangeRecordView {
    ChangeRecordView {
        table_name: Table::Categories.name(),
        row_id: category.id,
        data: without_nulls(category_fields(category)),
        version: category.sync_version,
        deleted: false,
    }
}

/// The record that pushes an account.
pub open spec fn account_record(account: AccountView) -> ChangeRecordView {
    ChangeRecordView {
        table_name: Table::Accounts.name(),
        row_id: account.id,
        data: without_nulls(account_fields(account)),
        version: account.sync_version,
        deleted: false,
    }
}

/// The record that pushes a row as it is.
pub open spec fn upsert_record(row: LocalRecordView) -> ChangeRecordView {
    match row {
        LocalRecordView::Transaction(tx) => transaction_record(tx),
        LocalRecordView::Category(category) => category_record(category),
        LocalRecordView::Account(account) => account_record(account),
    }
}

/// The record that pushes the deletion of a row: it names the row and its
/// version, and holds no field.
pub open spec fn deletion_record(row: LocalRecordView) -> ChangeRecordView {
    ChangeRecordView {
        table_name: row.table().name(),
        row_id: row.id(),
        data: Seq::empty(),
        version: row.sync_version(),
        deleted: true,
    }
}

/// The record that pushes a stored row.
pub open spec fn change_record(row: StoredRecordView) -> ChangeRecordView {
    if row.deleted {
        deletion_record(row.record)
    } else {
        upsert_record(row.record)
    }
}

/// The records for the rows of one table that wait to be pushed and are
/// deleted (or, without `deleted`, are not), in the order of the rows.
pub open spec fn waiting(rows: Seq<StoredRecordView>, table: Table, deleted: bool) -> Seq<
    ChangeRecordView,
> {
    rows.filter(
        |r: StoredRecordView| r.record.table() == table && r.deleted == deleted && r.dirty(),
    ).map_values(|r: StoredRecordView| change_record(r))
}

/// The records for all rows that wait to be pushed.
pub open spec fn local_changes(rows: Seq<StoredRecordView>) -> Seq<ChangeRecordView> {
    waiting(rows, Table::Transactions, true) + waiting(rows, Table::Categories, true) + waiting(
        rows,
        Table::Accounts,
        true,
    ) + waiting(rows, Table::Transactions, false) + waiting(rows, Table::Categories, false)
        + waiting(rows, Table::Accounts, false)
}

/// A field that holds a text.
fn text_field(name: &str, text: &String) -> (f: Field)
    ensures
        f@ == field(name@, text_value(text@)),
{
    Field::new(name, FieldValue::Text(text.clone()))
}

/// A field that holds a text, or no value.
fn optional_text_field(name: &str, text: &Option<String>) -> (f: Field)
    ensures
        f@ == field(name@, optional_text_value(crate::text::option_text(*text))),
{
    match text {
        Some(t) => Field::new(name, FieldValue::Text(t.clone())),
        None => Field::new(name, FieldValue::Null),
    }
}

/// A field that holds a number, or no value where the number cannot be sent.
fn number_field(name: &str, number: Binary64) -> (f: Field)
    ensures
        f@ == field(name@, number_value(number)),
{
    if number.is_finite() {
        Field::new(name, FieldValue::Number(number))
    } else {
        Field::new(name, FieldValue::Null)
    }
}

/// The record that pushes a transaction.
pub fn transaction_to_sync_record(tx: &Transaction) -> (record: ChangeRecord)
    ensures
        record@ == transaction_record(tx@),
{
    let mut data: Vec<Field> = Vec::new();
    data.push(Field::new("source", FieldValue::Text(tx.source.as_str().to_owned())));
    data.push(text_field("note", &tx.note));
    data.push(number_field("amount", tx.amount));
    data.push(text_field("category", &tx.category));
    data.push(text_field("account", &tx.account));
    data.push(text_field("currency", &tx.currency));
    data.push(text_field("date", &tx.date));
    data.push(optional_text_field("event", &tx.event));
    data.push(Field::new("excludeReport", FieldValue::Bool(tx.exclude_report)));
    data.push(number_field("expense", tx.expense));
    data.push(number_field("income", tx.income));
    data.push(text_field("yearMonth", &tx.year_month));
    data.push(Field::new("year", FieldValue::Integer(tx.year as i64)));
    data.push(Field::new("month", FieldValue::Integer(tx.month as i64)));
    data.push(text_field("createdAt", &tx.created_at));
    data.push(text_field("updatedAt", &tx.updated_at));
    assert(fields_view(data@) =~= transaction_fields(tx@));
    ChangeRecord {
        table_name: Table::Transactions.as_str().to_owned(),
        row_id: tx.id.clone(),
        data: strip_nulls(data),
        version: tx.sync_version,
        deleted: false,
    }
}

/// The record that pushes a category.
pub fn category_to_sync_record(category: &Category) -> (record: ChangeRecord)
    ensures
        record@ == category_record(category@),
{
    let mut data: Vec<Field> = Vec::new();
    data.push(text_field("name", &category.name));
    data.push(optional_text_field("icon", &category.icon));
    data.push(optional_text_field("color", &category.color));
    data.push(Field::new("isExpense", FieldValue::Bool(category.is_expense)));
    assert(fields_view(data@) =~= category_fields(category@));
    ChangeRecord {
        table_name: Table::Categories.as_str().to_owned(),
        row_id: category.id.clone(),
        data: strip_nulls(data),
        version: category.sync_version,
        deleted: false,
    }
}

/// The record that pushes an account.
pub fn account_to_sync_record(account: &Account) -> (record: ChangeRecord)
    ensures
        record@ == account_record(account@),
{
    let mut data: Vec<Field> = Vec::new();
    data.push(text_field("name", &account.name));
    data.push(optional_text_field("accountType", &account.account_type));
    data.push(optional_text_field("icon", &account.icon));
    assert(fields_view(data@) =~= account_fields(account@));
    ChangeRecord {
        table_name: Table::Accounts.as_str().to_owned(),
        row_id: account.id.clone(),
        data: strip_nulls(data),
        version: account.sync_version,
        deleted: false,
    }
}

/// The record that pushes a row as it is.
pub fn record_to_sync_record(row: &LocalRecord) -> (record: ChangeRecord)
    ensures
        record@ == upsert_record(row@),
{
    match row {
        LocalRecord::Transaction(tx) => transaction_to_sync_record(tx),
        LocalRecord::Category(category) => category_to_sync_record(category),
        LocalRecord::Account(account) => account_to_sync_record(account),
    }
}

/// The record that pushes the deletion of a row.
pub fn deletion_to_sync_record(row: &LocalRecord) -> (record: ChangeRecord)
    ensures
        record@ == deletion_record(row@),
{
    let data: Vec<Field> = Vec::new();
    assert(fields_view(data@) =~= Seq::<FieldView>::empty());
    ChangeRecord {
        table_name: row.table().as_str().to_owned(),
        row_id: row.id().clone(),
        data,
        version: row.sync_version(),
        deleted: true,
    }
}

/// Adds to a list the records for the rows of one table that wait to be
/// pushed and are deleted (or are not).
fn collect_pass(store: &LocalStore, table: Table, deleted: bool, records: &mut Vec<ChangeRecord>)
    ensures
        records_view(final(records)@) == records_view(old(records)@) + waiting(
            store@.rows,
            table,
            deleted,
        ),
{
    let ghost rows = store@.rows;
    let ghost start = records_view(records@);
    let ghost chosen = |r: StoredRecordView|
        r.record.table() == table && r.deleted == deleted && r.dirty();
    let ghost convert = |r: StoredRecordView| change_record(r);
    let n = store.len();
    let mut i: usize = 0;
    proof {
        reveal(Seq::filter);
        assert(rows.take(0) =~= Seq::<StoredRecordView>::empty());
        assert(start + waiting(rows.take(0), table, deleted) =~= start);
    }
    loop
        invariant_except_break
            i <= n,
            records_view(records@) == start + rows.take(i as int).filter(chosen).map_values(convert),
        invariant
            rows == store@.rows,
            n == rows.len(),
            chosen == |r: StoredRecordView|
                r.record.table() == table && r.deleted == deleted && r.dirty(),
            convert == |r: StoredRecordView| change_record(r),
        ensures
            records_view(records@) == start + rows.filter(chosen).map_values(convert),
        decreases n - i,
    {
        let row = match store.row(i) {
            Some(row) => row,
            None => {
                assert(rows.take(i as int) =~= rows);
                break ;
            },
        };
        proof {
            reveal(Seq::filter);
            assert(rows.take(i as int + 1).drop_last() =~= rows.take(i as int));
            assert(rows.take(i as int + 1).last() == row@);
        }
        if row.record.table() == table && row.deleted == deleted && row.record.synced_at().is_none() {
            let record = if deleted {
                deletion_to_sync_record(&row.record)
            } else {
                record_to_sync_record(&row.record)
            };
            let ghost before = records_view(records@);
            records.push(record);
            proof {
                let kept = rows.take(i as int).filter(chosen);
                assert(rows.take(i as int + 1).filter(chosen) == kept.push(row@));
                assert(kept.push(row@).map_values(convert) =~= kept.map_values(convert).push(
                    change_record(row@),
                ));
                assert(records_view(records@) =~= before.push(record@));
            }
        }
        i = i + 1;
    }
}

/// The change records for all rows that wait to be pushed.
pub fn collect_local_changes(store: &LocalStore) -> (records: Vec<ChangeRecord>)
    ensures
        records_view(records@) == local_changes(store@.rows),
{
    let mut records: Vec<ChangeRecord> = Vec::new();
    assert(records_view(records@) =~= Seq::<ChangeRecordView>::empty());
    collect_pass(store, Table::Transactions, true, &mut records);
    collect_pass(store, Table::Categories, true, &mut records);
    collect_pass(store, Table::Accounts, true, &mut records);
    collect_pass(store, Table::Transactions, false, &mut records);
    collect_pass(store, Table::Categories, false, &mut records);
    collect_pass(store, Table::Accounts, false, &mut records);
    assert(records_view(records@) =~= local_changes(store@.rows));
    records
}

/// Collecting reads the store alone: two stores that hold the same rows give
/// the same change records, and so does one store that is asked twice with
/// no change in between.
pub proof fn lemma_collect_is_repeatable(first: LocalStoreView, second: LocalStoreView)
    requires
        first.rows == second.rows,
    ensures
        local_changes(first.rows) == local_changes(second.rows),
{
}

} // verus!
