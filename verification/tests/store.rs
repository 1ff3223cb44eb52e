use tgcli::io::fidc::digest::digest;
use tgcli::io::fidc::store::{CacheStore, FileReferenceId, NOT_INITIALIZED};
use tgcli::operations::ErrorKind;

fn ready_store() -> CacheStore {
    let mut store = CacheStore::new();
    assert!(store.initialize().is_ok());
    store
}

fn found(store: &CacheStore, content: &[u8]) -> Option<String> {
    store.lookup(digest(content)).map(|id| id.as_str().to_string())
}

#[test]
fn upsert_then_lookup_returns_the_stored_id() {
    let mut store = ready_store();
    let key = digest(b"content");
    assert!(store.upsert(key, FileReferenceId::new("file123"), 7).is_ok());
    assert_eq!(found(&store, b"content"), Some("file123".to_string()));
}

#[test]
fn lookup_of_a_digest_never_inserted_is_not_found() {
    let mut store = ready_store();
    assert_eq!(found(&store, b"never seen"), None);
    assert!(store.upsert(digest(b"other"), FileReferenceId::new("file1"), 1).is_ok());
    assert_eq!(found(&store, b"never seen"), None);
}

#[test]
fn upsert_replaces_the_entry_of_its_digest() {
    let mut store = ready_store();
    let key = digest(b"content");
    assert!(store.upsert(key, FileReferenceId::new("old"), 1).is_ok());
    assert!(store.upsert(key, FileReferenceId::new("new"), 2).is_ok());
    assert_eq!(found(&store, b"content"), Some("new".to_string()));
    let entry = store.entry(key).expect("the entry was written");
    assert_eq!(entry.digest(), key);
    assert_eq!(entry.reference_id().as_str(), "new");
    assert_eq!(entry.stamp(), 2);
}

#[test]
fn upsert_leaves_other_entries_alone() {
    let mut store = ready_store();
    assert!(store.upsert(digest(b"one"), FileReferenceId::new("file1"), 1).is_ok());
    assert!(store.upsert(digest(b"two"), FileReferenceId::new("file2"), 2).is_ok());
    assert!(store.upsert(digest(b"three"), FileReferenceId::new("file3"), 3).is_ok());
    assert!(store.upsert(digest(b"two"), FileReferenceId::new("file2b"), 4).is_ok());
    assert_eq!(found(&store, b"one"), Some("file1".to_string()));
    assert_eq!(found(&store, b"two"), Some("file2b".to_string()));
    assert_eq!(found(&store, b"three"), Some("file3".to_string()));
    assert_eq!(store.entry(digest(b"one")).map(|e| e.stamp()), Some(1));
    assert_eq!(store.entry(digest(b"three")).map(|e| e.stamp()), Some(3));
}

#[test]
fn initialize_twice_leaves_entries_intact() {
    let mut store = ready_store();
    assert!(store.upsert(digest(b"kept"), FileReferenceId::new("file42"), 9).is_ok());
    assert!(store.initialize().is_ok());
    assert!(store.initialize().is_ok());
    assert_eq!(found(&store, b"kept"), Some("file42".to_string()));
    assert_eq!(store.entry(digest(b"kept")).map(|e| e.stamp()), Some(9));
}

#[test]
fn store_without_a_table_takes_nothing() {
    let mut store = CacheStore::new();
    assert_eq!(found(&store, b"content"), None);
    let refused = store.upsert(digest(b"content"), FileReferenceId::new("file1"), 1);
    let error = refused.expect_err("a store without a table cannot be written");
    assert_eq!(error.kind(), ErrorKind::StoreWrite);
    assert_eq!(error.message(), NOT_INITIALIZED);
    assert_eq!(found(&store, b"content"), None);
    assert!(store.initialize().is_ok());
    assert_eq!(found(&store, b"content"), None);
}

#[test]
fn reference_id_keeps_its_token() {
    let id = FileReferenceId::new("BQACAgQAAxkBAAIB");
    assert_eq!(id.as_str(), "BQACAgQAAxkBAAIB");
    assert_eq!(id.clone().as_str(), "BQACAgQAAxkBAAIB");
    assert_eq!(FileReferenceId::new("").as_str(), "");
}
