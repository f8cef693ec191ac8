//! The records that the tracker keeps: transactions, categories and accounts.

use vstd::prelude::*;
use crate::binary64::Binary64;
use crate::calendar::{calendar_month, month_view, parse_month};
use crate::record::Table;
use crate::text::{clone_option_text, option_text, str_eq};

verus! {

/// Where a transaction came from.
#[derive(Clone, Copy, Debug, PartialEq, Eq, Structural)]
pub enum TransactionSource {
    CsvImport,
    Manual,
}

impl TransactionSource {
    /// The name under which the source is stored and sent.
    pub open spec fn name(self) -> Seq<char> {
        match self {
            TransactionSource::CsvImport => "csv_import"@,
            TransactionSource::Manual => "manual"@,
        }
    }

    /// The source that a stored name stands for: anything but the name of an
    /// import counts as entered by hand.
    pub open spec fn parse(name: Seq<char>) -> TransactionSource {
        if name == "csv_import"@ {
            TransactionSource::CsvImport
        } else {
            TransactionSource::Manual
        }
    }

    /// The name under which the source is stored and sent.
    pub fn as_str(&self) -> (name: &'static str)
        ensures
            name@ == self.name(),
    {
        match self {
            TransactionSource::CsvImport => "csv_import",
            TransactionSource::Manual => "manual",
        }
    }

    /// The source that a stored name stands for.
    pub fn from_str(s: &str) -> (source: TransactionSource)
        ensures
            source == TransactionSource::parse(s@),
    {
        if str_eq(s, "csv_import") {
            TransactionSource::CsvImport
        } else {
            TransactionSource::Manual
        }
    }

    /// A source read back from its own name is the source itself.
    pub proof fn lemma_name_round_trip(source: TransactionSource)
        ensures
            TransactionSource::parse(source.name()) == source,
    {
        reveal_strlit("csv_import");
        reveal_strlit("manual");
        assert("manual"@.len() != "csv_import"@.len());
    }
}

/// One movement of money.
#[derive(Debug, PartialEq)]
pub struct Transaction {
    pub id: String,
    pub source: TransactionSource,
    pub import_batch_id: Option<i64>,
    pub note: String,
    pub amount: Binary64,
    pub category: String,
    pub account: String,
    pub currency: String,
    pub date: String,
    pub event: Option<String>,
    pub exclude_report: bool,
    pub expense: Binary64,
    pub income: Binary64,
    pub year_month: String,
    pub year: i32,
    pub month: i32,
    pub created_at: String,
    pub updated_at: String,
    pub sync_version: i64,
    pub synced_at: Option<i64>,
}

/// What a [`Transaction`] holds.
pub struct TransactionView {
    pub id: Seq<char>,
    pub source: TransactionSource,
    pub import_batch_id: Option<i64>,
    pub note: Seq<char>,
    pub amount: Binary64,
    pub category: Seq<char>,
    pub account: Seq<char>,
    pub currency: Seq<char>,
    pub date: Seq<char>,
    pub event: Option<Seq<char>>,
    pub exclude_report: bool,
    pub expense: Binary64,
    pub income: Binary64,
    pub year_month: Seq<char>,
    pub year: i32,
    pub month: i32,
    pub created_at: Seq<char>,
    pub updated_at: Seq<char>,
    pub sync_version: i64,
    pub synced_at: Option<i64>,
}

impl View for Transaction {
    type V = TransactionView;

    open spec fn view(&self) -> TransactionView {
        TransactionView {
            id: self.id@,
            source: self.source,
            import_batch_id: self.import_batch_id,
            note: self.note@,
            amount: self.amount,
            category: self.category@,
            account: self.account@,
            currency: self.currency@,
            date: self.date@,
            event: option_text(self.event),
            exclude_report: self.exclude_report,
            expense: self.expense,
            income: self.income,
            year_month: self.year_month@,
            year: self.year,
            month: self.month,
            created_at: self.created_at@,
            updated_at: self.updated_at@,
            sync_version: self.sync_version,
            synced_at: self.synced_at,
        }
    }
}

impl Clone for Transaction {
    fn clone(&self) -> (copy: Transaction)
        ensures
            copy@ == self@,
    {
        Transaction {
            id: self.id.clone(),
            source: self.source,
            import_batch_id: self.import_batch_id,
            note: self.note.clone(),
            amount: self.amount,
            category: self.category.clone(),
            account: self.account.clone(),
            currency: self.currency.clone(),
            date: self.date.clone(),
            event: clone_option_text(&self.event),
            exclude_report: self.exclude_report,
            expense: self.expense,
            income: self.income,
            year_month: self.year_month.clone(),
            year: self.year,
            month: self.month,
            created_at: self.created_at.clone(),
            updated_at: self.updated_at.clone(),
            sync_version: self.sync_version,
            synced_at: self.synced_at,
        }
    }
}

/// A transaction as the user enters it, before it is stored.
#[derive(Debug, PartialEq)]
pub struct NewTransaction {
    pub note: String,
    pub amount: Binary64,
    pub category: String,
    pub account: String,
    pub currency: String,
    pub date: String,
    pub event: Option<String>,
    pub exclude_report: bool,
    pub source: Option<TransactionSource>,
    pub import_batch_id: Option<i64>,
}

/// What a [`NewTransaction`] holds.
pub struct NewTransactionView {
    pub note: Seq<char>,
    pub amount: Binary64,
    pub category: Seq<char>,
    pub account: Seq<char>,
    pub currency: Seq<char>,
    pub date: Seq<char>,
    pub event: Option<Seq<char>>,
    pub exclude_report: bool,
    pub source: Option<TransactionSource>,
    pub import_batch_id: Option<i64>,
}

impl View for NewTransaction {
    type V = NewTransactionView;

    open spec fn view(&self) -> NewTransactionView {
        NewTransactionView {
            note: self.note@,
            amount: self.amount,
            category: self.category@,
            account: self.account@,
            currency: self.currency@,
            date: self.date@,
            event: option_text(self.event),
            exclude_report: self.exclude_report,
            source: self.source,
            import_batch_id: self.import_batch_id,
        }
    }
}

/// The transaction that is stored for what the user entered, under an
/// identifier and a time of creation.
///
/// An amount below zero is an expense, any other an income. The year and the
/// month are those of the date as they were read from it, and zero and empty
/// where no date was read. The row starts at version 1 and waits to be
/// pushed.
pub open spec fn stored_transaction(
    entered: NewTransactionView,
    id: Seq<char>,
    now: Seq<char>,
    month: Option<(i32, i32, Seq<char>)>,
) -> TransactionView {
    TransactionView {
        id,
        source: match entered.source {
            Some(source) => source,
            None => TransactionSource::Manual,
        },
        import_batch_id: entered.import_batch_id,
        note: entered.note,
        amount: entered.amount,
        category: entered.category,
        account: entered.account,
        currency: entered.currency,
        date: entered.date,
        event: entered.event,
        exclude_report: entered.exclude_report,
        expense: if entered.amount.below_zero() {
            entered.amount.magnitude()
        } else {
            Binary64 { bits: 0 }
        },
        income: if entered.amount.below_zero() {
            Binary64 { bits: 0 }
        } else {
            entered.amount
        },
        year_month: match month {
            Some(m) => m.2,
            None => Seq::empty(),
        },
        year: match month {
            Some(m) => m.0,
            None => 0,
        },
        month: match month {
            Some(m) => m.1,
            None => 0,
        },
        created_at: now,
        updated_at: now,
        sync_version: 1,
        synced_at: None,
    }
}

impl NewTransaction {
    /// The transaction that is stored, given what was read from the date.
    pub fn with_month(self, id: String, now: String, month: Option<(i32, i32, String)>) -> (tx:
        Transaction)
        ensures
            tx@ == stored_transaction(self@, id@, now@, month_view(month)),
    {
        let (year, month_of_year, year_month) = match month {
            Some(parts) => parts,
            None => (0, 0, String::new()),
        };
        let (expense, income) = if self.amount.is_negative() {
            (self.amount.abs(), Binary64::zero())
        } else {
            (Binary64::zero(), self.amount)
        };
        Transaction {
            id,
            source: match self.source {
                Some(source) => source,
                None => TransactionSource::Manual,
            },
            import_batch_id: self.import_batch_id,
            note: self.note,
            amount: self.amount,
            category: self.category,
            account: self.account,
            currency: self.currency,
            date: self.date,
            event: self.event,
            exclude_report: self.exclude_report,
            expense,
            income,
            year_month,
            year,
            month: month_of_year,
            created_at: now.clone(),
            updated_at: now,
            sync_version: 1,
            synced_at: None,
        }
    }

    /// The transaction that is stored for what the user entered, under an
    /// identifier and a time of creation that the caller hands in.
    pub fn into_transaction(self, id: String, now: String) -> (tx: Transaction)
        ensures
            tx@ == stored_transaction(self@, id@, now@, calendar_month(self.date@)),
    {
        let month = parse_month(self.date.as_str());
        self.with_month(id, now, month)
    }
}

/// A category that transactions are filed under.
#[derive(Debug, PartialEq)]
pub struct Category {
    pub id: String,
    pub name: String,
    pub icon: Option<String>,
    pub color: Option<String>,
    pub is_expense: bool,
    pub sync_version: i64,
    pub synced_at: Option<i64>,
}

/// What a [`Category`] holds.
pub struct CategoryView {
    pub id: Seq<char>,
    pub name: Seq<char>,
    pub icon: Option<Seq<char>>,
    pub color: Option<Seq<char>>,
    pub is_expense: bool,
    pub sync_version: i64,
    pub synced_at: Option<i64>,
}

impl View for Category {
    type V = CategoryView;

    open spec fn view(&self) -> CategoryView {
        CategoryView {
            id: self.id@,
            name: self.name@,
            icon: option_text(self.icon),
            color: option_text(self.color),
            is_expense: self.is_expense,
            sync_version: self.sync_version,
            synced_at: self.synced_at,
        }
    }
}

impl Clone for Category {
    fn clone(&self) -> (copy: Category)
        ensures
            copy@ == self@,
    {
        Category {
            id: self.id.clone(),
            name: self.name.clone(),
            icon: clone_option_text(&self.icon),
            color: clone_option_text(&self.color),
            is_expense: self.is_expense,
            sync_version: self.sync_version,
            synced_at: self.synced_at,
        }
    }
}

/// An account that money moves in or out of.
#[derive(Debug, PartialEq)]
pub struct Account {
    pub id: String,
    pub name: String,
    pub account_type: Option<String>,
    pub icon: Option<String>,
    pub sync_version: i64,
    pub synced_at: Option<i64>,
}

/// What an [`Account`] holds.
pub struct AccountView {
    pub id: Seq<char>,
    pub name: Seq<char>,
    pub account_type: Option<Seq<char>>,
    pub icon: Option<Seq<char>>,
    pub sync_version: i64,
    pub synced_at: Option<i64>,
}

impl View for Account {
    type V = AccountView;

    open spec fn view(&self) -> AccountView {
        AccountView {
            id: self.id@,
            name: self.name@,
            account_type: option_text(self.account_type),
            icon: option_text(self.icon),
            sync_version: self.sync_version,
            synced_at: self.synced_at,
        }
    }
}

impl Clone for Account {
    fn clone(&self) -> (copy: Account)
        ensures
            copy@ == self@,
    {
        Account {
            id: self.id.clone(),
            name: self.name.clone(),
            account_type: clone_option_text(&self.account_type),
            icon: clone_option_text(&self.icon),
            sync_version: self.sync_version,
            synced_at: self.synced_at,
        }
    }
}

/// A row of one of the three tables.
#[derive(Debug, PartialEq)]
pub enum LocalRecord {
    Transaction(Transaction),
    Category(Category),
    Account(Account),
}

/// What a [`LocalRecord`] holds.
pub enum LocalRecordView {
    Transaction(TransactionView),
    Category(CategoryView),
    Account(AccountView),
}

impl LocalRecordView {
    /// The table that the row belongs to.
    pub open spec fn table(self) -> Table {
        match self {
            LocalRecordView::Transaction(_) => Table::Transactions,
            LocalRecordView::Category(_) => Table::Categories,
            LocalRecordView::Account(_) => Table::Accounts,
        }
    }

    /// The identifier of the row, which never changes.
    pub open spec fn id(self) -> Seq<char> {
        match self {
            LocalRecordView::Transaction(t) => t.id,
            LocalRecordView::Category(c) => c.id,
            LocalRecordView::Account(a) => a.id,
        }
    }

    /// The version counter of the row.
    pub open spec fn sync_version(self) -> i64 {
        match self {
            LocalRecordView::Transaction(t) => t.sync_version,
            LocalRecordView::Category(c) => c.sync_version,
            LocalRecordView::Account(a) => a.sync_version,
        }
    }

    /// When the row was last acknowledged by the remote store; `None` where
    /// it holds changes that were not.
    pub open spec fn synced_at(self) -> Option<i64> {
        match self {
            LocalRecordView::Transaction(t) => t.synced_at,
            LocalRecordView::Category(c) => c.synced_at,
            LocalRecordView::Account(a) => a.synced_at,
        }
    }

    /// The row with another version counter and time of acknowledgement.
    pub open spec fn with_sync_state(self, sync_version: i64, synced_at: Option<i64>) -> LocalRecordView {
        match self {
            LocalRecordView::Transaction(t) => LocalRecordView::Transaction(
                TransactionView { sync_version, synced_at, ..t },
            ),
            LocalRecordView::Category(c) => LocalRecordView::Category(
                CategoryView { sync_version, synced_at, ..c },
            ),
            LocalRecordView::Account(a) => LocalRecordView::Account(
                AccountView { sync_version, synced_at, ..a },
            ),
        }
    }
}

impl View for LocalRecord {
    type V = LocalRecordView;

    open spec fn view(&self) -> LocalRecordView {
        match self {
            LocalRecord::Transaction(t) => LocalRecordView::Transaction(t@),
            LocalRecord::Category(c) => LocalRecordView::Category(c@),
            LocalRecord::Account(a) => LocalRecordView::Account(a@),
        }
    }
}

impl Clone for LocalRecord {
    fn clone(&self) -> (copy: LocalRecord)
        ensures
            copy@ == self@,
    {
        match self {
            LocalRecord::Transaction(t) => LocalRecord::Transaction(t.clone()),
            LocalRecord::Category(c) => LocalRecord::Category(c.clone()),
            LocalRecord::Account(a) => LocalRecord::Account(a.clone()),
        }
    }
}

impl LocalRecord {
    /// The table that the row belongs to.
    pub fn table(&self) -> (table: Table)
        ensures
            table == self@.table(),
    {
        match self {
            LocalRecord::Transaction(_) => Table::Transactions,
            LocalRecord::Category(_) => Table::Categories,
            LocalRecord::Account(_) => Table::Accounts,
        }
    }

    /// The identifier of the row.
    pub fn id(&self) -> (id: &String)
        ensures
            id@ == self@.id(),
    {
        match self {
            LocalRecord::Transaction(t) => &t.id,
            LocalRecord::Category(c) => &c.id,
            LocalRecord::Account(a) => &a.id,
        }
    }

    /// The version counter of the row.
    pub fn sync_version(&self) -> (version: i64)
        ensures
            version == self@.sync_version(),
    {
        match self {
            LocalRecord::Transaction(t) => t.sync_version,
            LocalRecord::Category(c) => c.sync_version,
            LocalRecord::Account(a) => a.sync_version,
        }
    }

    /// When the row was last acknowledged, if it is clean.
    pub fn synced_at(&self) -> (at: Option<i64>)
        ensures
            at == self@.synced_at(),
    {
        match self {
            LocalRecord::Transaction(t) => t.synced_at,
            LocalRecord::Category(c) => c.synced_at,
            LocalRecord::Account(a) => a.synced_at,
        }
    }

    /// The row with another version counter and time of acknowledgement.
    pub fn with_sync_state(self, sync_version: i64, synced_at: Option<i64>) -> (row: LocalRecord)
        ensures
            row@ == self@.with_sync_state(sync_version, synced_at),
    {
        match self {
            LocalRecord::Transaction(t) => {
                let mut t = t;
                t.sync_version = sync_version;
                t.synced_at = synced_at;
                LocalRecord::Transaction(t)
            },
            LocalRecord::Category(c) => {
                let mut c = c;
                c.sync_version = sync_version;
                c.synced_at = synced_at;
                LocalRecord::Category(c)
            },
            LocalRecord::Account(a) => {
                let mut a = a;
                a.sync_version = sync_version;
                a.synced_at = synced_at;
                LocalRecord::Account(a)
            },
        }
    }
}

/// One import of a file of transactions.
#[derive(Clone, Debug, PartialEq)]
pub struct ImportBatch {
    pub id: i64,
    pub filename: String,
    pub record_count: i32,
    pub imported_at: String,
}

/// How an import ended.
#[derive(Clone, Copy, Debug, PartialEq, Eq, Structural)]
pub struct ImportResult {
    pub batch_id: i64,
    pub imported_count: i32,
    pub skipped_count: i32,
}

} // verus!
