use money_insight::applier::{
    account_from_sync_record, apply_record, category_from_sync_record, plan_remote_changes,
    transaction_from_sync_record,
};
use money_insight::binary64::Binary64;
use money_insight::collector::{
    account_to_sync_record, category_to_sync_record, deletion_to_sync_record,
    record_to_sync_record, transaction_to_sync_record,
};
use money_insight::models::{
    Account, Category, LocalRecord, NewTransaction, Transaction, TransactionSource,
};
use money_insight::plan::StoreOp;
use money_insight::record::{
    find_member, strip_nulls, ChangeRecord, Field, FieldValue, Table,
};

fn number(x: f64) -> Binary64 {
    Binary64::from_bits(x.to_bits())
}

fn text(s: &str) -> FieldValue {
    FieldValue::Text(s.to_string())
}

fn sample_transaction() -> Transaction {
    Transaction {
        id: "tx-1".to_string(),
        source: TransactionSource::CsvImport,
        import_batch_id: Some(4),
        note: "lunch".to_string(),
        amount: number(-12.5),
        category: "Food".to_string(),
        account: "Cash".to_string(),
        currency: "EUR".to_string(),
        date: "2024-03-09".to_string(),
        event: None,
        exclude_report: true,
        expense: number(12.5),
        income: number(0.0),
        year_month: "2024-03".to_string(),
        year: 2024,
        month: 3,
        created_at: "2024-03-09T10:00:00".to_string(),
        updated_at: "2024-03-09T11:00:00".to_string(),
        sync_version: 7,
        synced_at: None,
    }
}

fn record(table: &str, id: &str, deleted: bool, data: Vec<Field>) -> ChangeRecord {
    ChangeRecord {
        table_name: table.to_string(),
        row_id: id.to_string(),
        data,
        version: 3,
        deleted,
    }
}

#[test]
fn transaction_record_holds_every_field_that_has_a_value() {
    let record = transaction_to_sync_record(&sample_transaction());
    assert_eq!(record.table_name, "transactions");
    assert_eq!(record.row_id, "tx-1");
    assert_eq!(record.version, 7);
    assert!(!record.deleted);
    let expected = vec![
        Field::new("source", text("csv_import")),
        Field::new("note", text("lunch")),
        Field::new("amount", FieldValue::Number(number(-12.5))),
        Field::new("category", text("Food")),
        Field::new("account", text("Cash")),
        Field::new("currency", text("EUR")),
        Field::new("date", text("2024-03-09")),
        Field::new("excludeReport", FieldValue::Bool(true)),
        Field::new("expense", FieldValue::Number(number(12.5))),
        Field::new("income", FieldValue::Number(number(0.0))),
        Field::new("yearMonth", text("2024-03")),
        Field::new("year", FieldValue::Integer(2024)),
        Field::new("month", FieldValue::Integer(3)),
        Field::new("createdAt", text("2024-03-09T10:00:00")),
        Field::new("updatedAt", text("2024-03-09T11:00:00")),
    ];
    assert_eq!(record.data, expected);
}

#[test]
fn event_of_a_transaction_is_sent_where_there_is_one() {
    let mut tx = sample_transaction();
    tx.event = Some("Trip".to_string());
    let record = transaction_to_sync_record(&tx);
    assert_eq!(record.data.len(), 16);
    assert_eq!(find_member(&record.data, "event"), Some(&text("Trip")));
    assert_eq!(record.data[7], Field::new("event", text("Trip")));
}

#[test]
fn amount_that_is_no_finite_number_is_not_sent() {
    let mut tx = sample_transaction();
    tx.amount = number(f64::NAN);
    tx.expense = number(f64::INFINITY);
    tx.income = number(f64::NEG_INFINITY);
    let record = transaction_to_sync_record(&tx);
    assert_eq!(record.data.len(), 12);
    assert_eq!(find_member(&record.data, "amount"), None);
    assert_eq!(find_member(&record.data, "expense"), None);
    assert_eq!(find_member(&record.data, "income"), None);
    assert_eq!(find_member(&record.data, "note"), Some(&text("lunch")));
}

#[test]
fn category_record_leaves_out_what_is_not_set() {
    let category = Category {
        id: "c1".to_string(),
        name: "Food".to_string(),
        icon: None,
        color: Some("#fff".to_string()),
        is_expense: false,
        sync_version: 2,
        synced_at: Some(5),
    };
    let record = category_to_sync_record(&category);
    assert_eq!(record.table_name, "categories");
    assert_eq!(record.row_id, "c1");
    assert_eq!(record.version, 2);
    assert!(!record.deleted);
    assert_eq!(
        record.data,
        vec![
            Field::new("name", text("Food")),
            Field::new("color", text("#fff")),
            Field::new("isExpense", FieldValue::Bool(false)),
        ]
    );
}

#[test]
fn account_record_leaves_out_what_is_not_set() {
    let account = Account {
        id: "a1".to_string(),
        name: "Cash".to_string(),
        account_type: Some("wallet".to_string()),
        icon: None,
        sync_version: 1,
        synced_at: None,
    };
    let record = account_to_sync_record(&account);
    assert_eq!(record.table_name, "accounts");
    assert_eq!(record.row_id, "a1");
    assert_eq!(record.version, 1);
    assert_eq!(
        record.data,
        vec![Field::new("name", text("Cash")), Field::new("accountType", text("wallet"))]
    );
    assert_eq!(record_to_sync_record(&LocalRecord::Account(account)), record);
}

#[test]
fn deletion_record_holds_no_field() {
    let record = deletion_to_sync_record(&LocalRecord::Transaction(sample_transaction()));
    assert_eq!(record, ChangeRecord {
        table_name: "transactions".to_string(),
        row_id: "tx-1".to_string(),
        data: vec![],
        version: 7,
        deleted: true,
    });
}

#[test]
fn strip_nulls_keeps_the_order_of_the_rest() {
    let fields = vec![
        Field::new("a", FieldValue::Null),
        Field::new("b", FieldValue::Integer(1)),
        Field::new("c", FieldValue::Null),
        Field::new("d", FieldValue::Other),
        Field::new("e", FieldValue::Bool(false)),
    ];
    assert_eq!(
        strip_nulls(fields),
        vec![
            Field::new("b", FieldValue::Integer(1)),
            Field::new("d", FieldValue::Other),
            Field::new("e", FieldValue::Bool(false)),
        ]
    );
    assert_eq!(strip_nulls(vec![]), vec![]);
}

#[test]
fn member_is_the_first_field_with_the_name() {
    let fields = vec![
        Field::new("a", FieldValue::Integer(1)),
        Field::new("b", FieldValue::Integer(2)),
        Field::new("a", FieldValue::Integer(3)),
    ];
    assert_eq!(find_member(&fields, "a"), Some(&FieldValue::Integer(1)));
    assert_eq!(find_member(&fields, "b"), Some(&FieldValue::Integer(2)));
    assert_eq!(find_member(&fields, "c"), None);
    assert_eq!(find_member(&fields, "A"), None);
}

#[test]
fn field_values_are_read_by_their_kind() {
    assert_eq!(text("x").as_text(), Some(&"x".to_string()));
    assert_eq!(FieldValue::Integer(1).as_text(), None);
    assert_eq!(FieldValue::Integer(5).as_integer(), Some(5));
    assert_eq!(FieldValue::Number(number(5.0)).as_integer(), None);
    assert_eq!(FieldValue::Number(number(2.5)).as_number(), Some(number(2.5)));
    assert_eq!(FieldValue::Integer(5).as_number(), Some(number(5.0)));
    assert_eq!(FieldValue::Integer(-3).as_number(), Some(number(-3.0)));
    assert_eq!(text("5").as_number(), None);
    assert_eq!(FieldValue::Bool(true).as_bool(), Some(true));
    assert_eq!(FieldValue::Integer(1).as_bool(), None);
    assert!(FieldValue::Null.is_null());
    assert!(!FieldValue::Other.is_null());
    assert_eq!(FieldValue::Other.as_text(), None);
    assert_eq!(FieldValue::Null.as_number(), None);
}

#[test]
fn transaction_from_an_empty_record_takes_the_defaults() {
    let row = transaction_from_sync_record(&record("transactions", "t9", false, vec![]), 1234);
    assert_eq!(row, Transaction {
        id: "t9".to_string(),
        source: TransactionSource::Manual,
        import_batch_id: None,
        note: String::new(),
        amount: number(0.0),
        category: String::new(),
        account: String::new(),
        currency: "VND".to_string(),
        date: String::new(),
        event: None,
        exclude_report: false,
        expense: number(0.0),
        income: number(0.0),
        year_month: String::new(),
        year: 0,
        month: 0,
        created_at: String::new(),
        updated_at: String::new(),
        sync_version: 3,
        synced_at: Some(1234),
    });
}

#[test]
fn transaction_from_a_full_record_takes_its_fields() {
    let data = vec![
        Field::new("source", text("csv_import")),
        Field::new("note", text("rent")),
        Field::new("amount", FieldValue::Integer(-900)),
        Field::new("category", text("Home")),
        Field::new("account", text("Bank")),
        Field::new("currency", text("USD")),
        Field::new("date", text("2024-01-01")),
        Field::new("event", text("New year")),
        Field::new("excludeReport", FieldValue::Bool(true)),
        Field::new("expense", FieldValue::Number(number(900.0))),
        Field::new("income", FieldValue::Number(number(0.25))),
        Field::new("yearMonth", text("2024-01")),
        Field::new("year", FieldValue::Integer(2024)),
        Field::new("month", FieldValue::Integer(1)),
        Field::new("createdAt", text("c")),
        Field::new("updatedAt", text("u")),
    ];
    let row = transaction_from_sync_record(&record("transactions", "t1", false, data), 77);
    assert_eq!(row, Transaction {
        id: "t1".to_string(),
        source: TransactionSource::CsvImport,
        import_batch_id: None,
        note: "rent".to_string(),
        amount: number(-900.0),
        category: "Home".to_string(),
        account: "Bank".to_string(),
        currency: "USD".to_string(),
        date: "2024-01-01".to_string(),
        event: Some("New year".to_string()),
        exclude_report: true,
        expense: number(900.0),
        income: number(0.25),
        year_month: "2024-01".to_string(),
        year: 2024,
        month: 1,
        created_at: "c".to_string(),
        updated_at: "u".to_string(),
        sync_version: 3,
        synced_at: Some(77),
    });
}

#[test]
fn field_of_the_wrong_kind_takes_the_default() {
    let data = vec![
        Field::new("source", FieldValue::Integer(1)),
        Field::new("note", FieldValue::Bool(true)),
        Field::new("amount", text("12")),
        Field::new("currency", FieldValue::Null),
        Field::new("excludeReport", text("true")),
        Field::new("year", FieldValue::Number(number(2024.0))),
        Field::new("month", text("3")),
        Field::new("event", FieldValue::Integer(3)),
    ];
    let row = transaction_from_sync_record(&record("transactions", "t1", false, data), 1);
    assert_eq!(row.source, TransactionSource::Manual);
    assert_eq!(row.note, "");
    assert_eq!(row.amount, number(0.0));
    assert_eq!(row.currency, "VND");
    assert!(!row.exclude_report);
    assert_eq!(row.year, 0);
    assert_eq!(row.month, 0);
    assert_eq!(row.event, None);
}

#[test]
fn year_and_month_are_cut_to_thirty_two_bits() {
    let data = vec![
        Field::new("year", FieldValue::Integer(4_294_967_296 + 2024)),
        Field::new("month", FieldValue::Integer(-1)),
    ];
    let row = transaction_from_sync_record(&record("transactions", "t1", false, data), 1);
    assert_eq!(row.year, 2024);
    assert_eq!(row.month, -1);
    let data = vec![Field::new("year", FieldValue::Integer(2_147_483_648))];
    let row = transaction_from_sync_record(&record("transactions", "t1", false, data), 1);
    assert_eq!(row.year, i32::MIN);
}

#[test]
fn category_from_a_record_is_one_of_expenses_unless_told_otherwise() {
    let row = category_from_sync_record(&record("categories", "c1", false, vec![]), 9);
    assert_eq!(row, Category {
        id: "c1".to_string(),
        name: String::new(),
        icon: None,
        color: None,
        is_expense: true,
        sync_version: 3,
        synced_at: Some(9),
    });
    let data = vec![
        Field::new("name", text("Salary")),
        Field::new("icon", text("i")),
        Field::new("color", text("red")),
        Field::new("isExpense", FieldValue::Bool(false)),
    ];
    let row = category_from_sync_record(&record("categories", "c2", false, data), 9);
    assert_eq!(row, Category {
        id: "c2".to_string(),
        name: "Salary".to_string(),
        icon: Some("i".to_string()),
        color: Some("red".to_string()),
        is_expense: false,
        sync_version: 3,
        synced_at: Some(9),
    });
}

#[test]
fn account_from_a_record_takes_its_fields() {
    let data = vec![Field::new("name", text("Bank")), Field::new("accountType", text("checking"))];
    let row = account_from_sync_record(&record("accounts", "a1", false, data), 9);
    assert_eq!(row, Account {
        id: "a1".to_string(),
        name: "Bank".to_string(),
        account_type: Some("checking".to_string()),
        icon: None,
        sync_version: 3,
        synced_at: Some(9),
    });
}

#[test]
fn record_writes_or_removes_the_row_that_it_names() {
    assert_eq!(
        apply_record(&record("transactions", "t1", true, vec![]), 5),
        Some(StoreOp::HardDelete { table: Table::Transactions, id: "t1".to_string() })
    );
    assert_eq!(
        apply_record(&record("categories", "c1", true, vec![]), 5),
        Some(StoreOp::HardDelete { table: Table::Categories, id: "c1".to_string() })
    );
    assert_eq!(
        apply_record(&record("accounts", "a1", true, vec![]), 5),
        Some(StoreOp::HardDelete { table: Table::Accounts, id: "a1".to_string() })
    );
    let written = apply_record(&record("accounts", "a1", false, vec![]), 5);
    assert_eq!(
        written,
        Some(StoreOp::Upsert(LocalRecord::Account(account_from_sync_record(
            &record("accounts", "a1", false, vec![]),
            5
        ))))
    );
}

#[test]
fn record_for_an_unknown_table_changes_nothing() {
    assert_eq!(apply_record(&record("budgets", "b1", false, vec![]), 5), None);
    assert_eq!(apply_record(&record("budgets", "b1", true, vec![]), 5), None);
    assert_eq!(apply_record(&record("Transactions", "t1", false, vec![]), 5), None);
    assert_eq!(apply_record(&record("", "t1", true, vec![]), 5), None);
    let plan = plan_remote_changes(&vec![record("budgets", "b1", false, vec![])], 5);
    assert_eq!(plan, vec![]);
}

#[test]
fn tables_are_known_by_their_names() {
    assert_eq!(Table::from_name("transactions"), Some(Table::Transactions));
    assert_eq!(Table::from_name("categories"), Some(Table::Categories));
    assert_eq!(Table::from_name("accounts"), Some(Table::Accounts));
    assert_eq!(Table::from_name("account"), None);
    assert_eq!(Table::Transactions.as_str(), "transactions");
    assert_eq!(Table::Categories.as_str(), "categories");
    assert_eq!(Table::Accounts.as_str(), "accounts");
    for table in [Table::Transactions, Table::Categories, Table::Accounts] {
        assert_eq!(Table::from_name(table.as_str()), Some(table));
    }
    assert_eq!(record("accounts", "a", false, vec![]).table(), Some(Table::Accounts));
    assert_eq!(record("nothing", "a", false, vec![]).table(), None);
}

#[test]
fn source_of_a_transaction_is_known_by_its_name() {
    assert_eq!(TransactionSource::CsvImport.as_str(), "csv_import");
    assert_eq!(TransactionSource::Manual.as_str(), "manual");
    assert_eq!(TransactionSource::from_str("csv_import"), TransactionSource::CsvImport);
    assert_eq!(TransactionSource::from_str("manual"), TransactionSource::Manual);
    assert_eq!(TransactionSource::from_str("anything else"), TransactionSource::Manual);
    assert_eq!(TransactionSource::from_str(""), TransactionSource::Manual);
}

#[test]
fn local_record_knows_its_table_and_sync_state() {
    let row = LocalRecord::Transaction(sample_transaction());
    assert_eq!(row.table(), Table::Transactions);
    assert_eq!(row.id(), "tx-1");
    assert_eq!(row.sync_version(), 7);
    assert_eq!(row.synced_at(), None);
    let marked = row.with_sync_state(8, Some(100));
    assert_eq!(marked.sync_version(), 8);
    assert_eq!(marked.synced_at(), Some(100));
    let mut expected = sample_transaction();
    expected.sync_version = 8;
    expected.synced_at = Some(100);
    assert_eq!(marked, LocalRecord::Transaction(expected));
}

fn entered(amount: f64, date: &str) -> NewTransaction {
    NewTransaction {
        note: "coffee".to_string(),
        amount: number(amount),
        category: "Food".to_string(),
        account: "Cash".to_string(),
        currency: "EUR".to_string(),
        date: date.to_string(),
        event: Some("Trip".to_string()),
        exclude_report: true,
        source: None,
        import_batch_id: Some(3),
    }
}

#[test]
fn entered_expense_is_stored_at_version_one_and_waits_to_be_pushed() {
    let tx = entered(-4.5, "2024-03-09").into_transaction("id-1".to_string(), "2024-03-09T12:00:00".to_string());
    assert_eq!(tx, Transaction {
        id: "id-1".to_string(),
        source: TransactionSource::Manual,
        import_batch_id: Some(3),
        note: "coffee".to_string(),
        amount: number(-4.5),
        category: "Food".to_string(),
        account: "Cash".to_string(),
        currency: "EUR".to_string(),
        date: "2024-03-09".to_string(),
        event: Some("Trip".to_string()),
        exclude_report: true,
        expense: number(4.5),
        income: number(0.0),
        year_month: "2024-03".to_string(),
        year: 2024,
        month: 3,
        created_at: "2024-03-09T12:00:00".to_string(),
        updated_at: "2024-03-09T12:00:00".to_string(),
        sync_version: 1,
        synced_at: None,
    });
}

#[test]
fn entered_income_and_zero_are_no_expense() {
    let mut new = entered(20.0, "1999-12-31");
    new.source = Some(TransactionSource::CsvImport);
    let tx = new.into_transaction("i".to_string(), "n".to_string());
    assert_eq!(tx.expense, number(0.0));
    assert_eq!(tx.income, number(20.0));
    assert_eq!(tx.source, TransactionSource::CsvImport);
    assert_eq!((tx.year, tx.month, tx.year_month.as_str()), (1999, 12, "1999-12"));
    for zero in [0.0f64, -0.0] {
        let tx = entered(zero, "2024-01-01").into_transaction("i".to_string(), "n".to_string());
        assert_eq!(tx.expense, number(0.0));
        assert_eq!(tx.income, number(zero));
    }
    let tx = entered(f64::NAN, "2024-01-01").into_transaction("i".to_string(), "n".to_string());
    assert_eq!(tx.expense, number(0.0));
    assert_eq!(tx.income, number(f64::NAN));
    let tx = entered(f64::NEG_INFINITY, "2024-01-01").into_transaction("i".to_string(), "n".to_string());
    assert_eq!(tx.expense, number(f64::INFINITY));
    assert_eq!(tx.income, number(0.0));
}

#[test]
fn date_that_cannot_be_read_gives_no_month() {
    for date in ["", "yesterday", "2024-02-30", "09/03/2024", "2024-3"] {
        let tx = entered(1.0, date).into_transaction("i".to_string(), "n".to_string());
        assert_eq!((tx.year, tx.month, tx.year_month.as_str()), (0, 0, ""), "{date}");
        assert_eq!(tx.date, date);
    }
    let tx = entered(1.0, "2024-02-29").into_transaction("i".to_string(), "n".to_string());
    assert_eq!((tx.year, tx.month, tx.year_month.as_str()), (2024, 2, "2024-02"));
    let tx = entered(1.0, "x").with_month("i".to_string(), "n".to_string(), Some((7, 8, "m".to_string())));
    assert_eq!((tx.year, tx.month, tx.year_month.as_str()), (7, 8, "m"));
}

#[test]
fn sign_of_a_number_is_read_from_its_bits() {
    for x in [-1.0f64, -0.5, -5e-324, f64::MIN, f64::NEG_INFINITY] {
        assert!(number(x).is_negative(), "{x}");
        assert_eq!(number(x).abs(), number(x.abs()));
    }
    for x in [0.0f64, -0.0, 1.0, 5e-324, f64::MAX, f64::INFINITY, f64::NAN, -f64::NAN] {
        assert_eq!(number(x).is_negative(), x < 0.0, "{x}");
        assert_eq!(number(x).abs().to_bits(), x.abs().to_bits());
    }
}
