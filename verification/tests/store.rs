use money_insight::checkpoint::{Checkpoint, Timestamp};
use money_insight::error::StorageFailure;
use money_insight::models::{Account, Category, LocalRecord};
use money_insight::plan::StoreOp;
use money_insight::record::Table;
use money_insight::store::{LocalStore, StoredRecord};

fn category(id: &str, name: &str, synced_at: Option<i64>) -> LocalRecord {
    LocalRecord::Category(Category {
        id: id.to_string(),
        name: name.to_string(),
        icon: None,
        color: None,
        is_expense: true,
        sync_version: 1,
        synced_at,
    })
}

fn account(id: &str, version: i64) -> LocalRecord {
    LocalRecord::Account(Account {
        id: id.to_string(),
        name: "acc".to_string(),
        account_type: None,
        icon: None,
        sync_version: version,
        synced_at: None,
    })
}

fn rows(store: &LocalStore) -> Vec<StoredRecord> {
    (0..store.len()).map(|i| store.row(i).unwrap().clone()).collect()
}

fn kept(record: LocalRecord) -> StoredRecord {
    StoredRecord { record, deleted: false, deleted_at: None }
}

#[test]
fn new_store_is_empty() {
    let store = LocalStore::new();
    assert_eq!(store.len(), 0);
    assert_eq!(store.row(0), None);
    assert_eq!(store.load_checkpoint(), None);
    assert_eq!(store.pending_count(), 0);
    assert_eq!(store.find(Table::Categories, "c1"), None);
}

#[test]
fn upsert_adds_a_row_or_takes_the_place_of_the_row_with_its_key() {
    let mut store = LocalStore::new();
    store.upsert(category("c1", "Food", None));
    store.upsert(category("c2", "Rent", None));
    store.upsert(account("c1", 1));
    assert_eq!(store.len(), 3);
    store.upsert(category("c1", "Groceries", Some(5)));
    assert_eq!(
        rows(&store),
        vec![
            kept(category("c1", "Groceries", Some(5))),
            kept(category("c2", "Rent", None)),
            kept(account("c1", 1)),
        ]
    );
    assert_eq!(store.find(Table::Categories, "c2"), Some(1));
    assert_eq!(store.row(1), Some(&kept(category("c2", "Rent", None))));
    assert_eq!(store.row(3), None);
    assert_eq!(store.find(Table::Accounts, "c1"), Some(2));
    assert_eq!(store.find(Table::Transactions, "c1"), None);
    assert_eq!(store.get(Table::Categories, "c1"), Some(&kept(category("c1", "Groceries", Some(5)))));
    assert_eq!(store.get(Table::Categories, "zz"), None);
}

#[test]
fn upsert_brings_a_deleted_row_back() {
    let mut store = LocalStore::new();
    store.upsert(category("c1", "Food", Some(1)));
    store.soft_delete(Table::Categories, "c1", 50);
    assert!(store.get(Table::Categories, "c1").unwrap().deleted);
    store.upsert(category("c1", "Food", Some(60)));
    assert_eq!(rows(&store), vec![kept(category("c1", "Food", Some(60)))]);
}

#[test]
fn hard_delete_removes_the_row_and_is_a_no_op_where_there_is_none() {
    let mut store = LocalStore::new();
    store.upsert(category("c1", "Food", None));
    store.upsert(category("c2", "Rent", None));
    store.hard_delete(Table::Categories, "missing");
    store.hard_delete(Table::Accounts, "c1");
    assert_eq!(store.len(), 2);
    store.hard_delete(Table::Categories, "c1");
    assert_eq!(rows(&store), vec![kept(category("c2", "Rent", None))]);
    store.hard_delete(Table::Categories, "c1");
    assert_eq!(store.len(), 1);
}

#[test]
fn mark_synced_raises_the_version_and_sets_the_time() {
    let mut store = LocalStore::new();
    store.upsert(account("a1", 4));
    assert_eq!(store.mark_synced(Table::Accounts, "a1", 99), Ok(()));
    let row = store.get(Table::Accounts, "a1").unwrap();
    assert_eq!(row.record.sync_version(), 5);
    assert_eq!(row.record.synced_at(), Some(99));
    assert!(!row.deleted);
    assert_eq!(store.mark_synced(Table::Accounts, "missing", 99), Ok(()));
    assert_eq!(store.len(), 1);
}

#[test]
fn mark_synced_refuses_a_version_that_cannot_be_raised() {
    let mut store = LocalStore::new();
    store.upsert(account("a1", i64::MAX));
    let before = rows(&store);
    assert_eq!(
        store.mark_synced(Table::Accounts, "a1", 99),
        Err(StorageFailure::VersionOverflow)
    );
    assert_eq!(rows(&store), before);
    let mut store = LocalStore::new();
    store.upsert(account("a1", i64::MAX - 1));
    assert_eq!(store.mark_synced(Table::Accounts, "a1", 99), Ok(()));
    assert_eq!(store.get(Table::Accounts, "a1").unwrap().record.sync_version(), i64::MAX);
}

#[test]
fn soft_delete_marks_the_row_and_leaves_it_in_the_store() {
    let mut store = LocalStore::new();
    store.upsert(category("c1", "Food", Some(10)));
    assert_eq!(store.pending_count(), 0);
    store.soft_delete(Table::Categories, "c1", 123);
    assert_eq!(
        rows(&store),
        vec![StoredRecord {
            record: category("c1", "Food", None),
            deleted: true,
            deleted_at: Some(123),
        }]
    );
    assert_eq!(store.pending_count(), 1);
    store.soft_delete(Table::Categories, "missing", 5);
    assert_eq!(store.len(), 1);
}

#[test]
fn pending_count_counts_every_dirty_row() {
    let mut store = LocalStore::new();
    store.upsert(category("c1", "a", None));
    store.upsert(category("c2", "b", Some(1)));
    store.upsert(account("a1", 1));
    store.upsert(category("c3", "c", Some(1)));
    store.soft_delete(Table::Categories, "c3", 9);
    assert_eq!(store.pending_count(), 3);
}

#[test]
fn insert_adds_only_a_row_with_a_new_key() {
    let mut store = LocalStore::new();
    let deleted = StoredRecord { record: category("c1", "a", None), deleted: true, deleted_at: Some(3) };
    assert!(store.insert(deleted.clone()));
    assert!(!store.insert(kept(category("c1", "other", None))));
    assert!(store.insert(kept(account("c1", 1))));
    assert_eq!(rows(&store), vec![deleted, kept(account("c1", 1))]);
}

#[test]
fn store_from_rows_refuses_two_rows_with_one_key() {
    let checkpoint = Checkpoint::new(Timestamp { secs: 5, nanos: 6 }, "cp".to_string());
    let list = vec![kept(category("c1", "a", None)), kept(account("c1", 1))];
    let store = LocalStore::from_rows(list.clone(), Some(checkpoint.clone())).unwrap();
    assert_eq!(rows(&store), list);
    assert_eq!(store.load_checkpoint(), Some(checkpoint));
    let twice = vec![
        kept(category("c1", "a", None)),
        kept(account("a", 1)),
        kept(category("c1", "b", None)),
    ];
    assert!(LocalStore::from_rows(twice, None).is_none());
    assert_eq!(LocalStore::from_rows(vec![], None).unwrap().len(), 0);
}

#[test]
fn saved_checkpoint_is_the_one_that_is_loaded() {
    let mut store = LocalStore::new();
    let first = Checkpoint::new(Timestamp { secs: 10, nanos: 0 }, "a".to_string());
    let second = Checkpoint::new(Timestamp { secs: 5, nanos: 1 }, "b".to_string());
    store.save_checkpoint(first.clone());
    assert_eq!(store.load_checkpoint(), Some(first));
    store.save_checkpoint(second.clone());
    assert_eq!(store.load_checkpoint(), Some(second));
}

#[test]
fn steps_change_the_store_one_by_one() {
    let mut store = LocalStore::new();
    assert_eq!(store.apply(&StoreOp::Upsert(account("a1", 1))), Ok(()));
    assert_eq!(
        store.apply(&StoreOp::MarkSynced { table: Table::Accounts, id: "a1".to_string(), at: 7 }),
        Ok(())
    );
    assert_eq!(store.get(Table::Accounts, "a1").unwrap().record.sync_version(), 2);
    let checkpoint = Checkpoint::new(Timestamp { secs: 1, nanos: 2 }, "cp".to_string());
    assert_eq!(store.apply(&StoreOp::SaveCheckpoint(checkpoint.clone())), Ok(()));
    assert_eq!(store.load_checkpoint(), Some(checkpoint));
    assert_eq!(
        store.apply(&StoreOp::HardDelete { table: Table::Accounts, id: "a1".to_string() }),
        Ok(())
    );
    assert_eq!(store.len(), 0);
}

#[test]
fn steps_of_a_list_are_taken_all_or_none() {
    let mut store = LocalStore::new();
    store.upsert(account("full", i64::MAX));
    let before = rows(&store);
    let ops = vec![
        StoreOp::Upsert(category("c1", "new", Some(1))),
        StoreOp::SaveCheckpoint(Checkpoint::new(Timestamp { secs: 1, nanos: 0 }, "x".to_string())),
        StoreOp::MarkSynced { table: Table::Accounts, id: "full".to_string(), at: 3 },
        StoreOp::Upsert(category("c2", "never", Some(1))),
    ];
    assert_eq!(store.apply_all(&ops), Err(StorageFailure::VersionOverflow));
    assert_eq!(rows(&store), before);
    assert_eq!(store.load_checkpoint(), None);
    let ops = vec![
        StoreOp::Upsert(category("c1", "new", Some(1))),
        StoreOp::HardDelete { table: Table::Accounts, id: "full".to_string() },
    ];
    assert_eq!(store.apply_all(&ops), Ok(()));
    assert_eq!(rows(&store), vec![kept(category("c1", "new", Some(1)))]);
    assert_eq!(store.apply_all(&vec![]), Ok(()));
}

#[test]
fn copy_of_a_store_holds_the_same_rows() {
    let mut store = LocalStore::new();
    store.upsert(category("c1", "a", None));
    store.save_checkpoint(Checkpoint::new(Timestamp { secs: 1, nanos: 0 }, "x".to_string()));
    let copy = store.clone();
    assert_eq!(rows(&copy), rows(&store));
    assert_eq!(copy.load_checkpoint(), store.load_checkpoint());
}
