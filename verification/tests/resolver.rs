use std::cell::Cell;
use tgcli::io::fidc::digest::digest;
use tgcli::io::fidc::resolver::{resolve, settle, Origin};
use tgcli::io::fidc::store::{CacheStore, FileReferenceId, NOT_INITIALIZED};
use tgcli::operations::{ErrorKind, OperationError};

fn ready_store() -> CacheStore {
    let mut store = CacheStore::new();
    assert!(store.initialize().is_ok());
    store
}

fn found(store: &CacheStore, content: &[u8]) -> Option<String> {
    store.lookup(digest(content)).map(|id| id.as_str().to_string())
}

#[test]
fn resolver_hit_returns_the_cached_id_without_uploading() {
    let mut store = ready_store();
    let d1 = digest(b"a file sent before");
    assert!(store.upsert(d1, FileReferenceId::new("file123"), 1).is_ok());
    let uploads = Cell::new(0u32);
    let outcome = resolve(&mut store, digest(b"a file sent before"), 2, || {
        uploads.set(uploads.get() + 1);
        Ok(FileReferenceId::new("file999"))
    });
    let resolution = outcome.expect("a hit resolves");
    assert_eq!(resolution.reference_id().as_str(), "file123");
    assert_eq!(resolution.origin(), Origin::Cache);
    assert!(resolution.warning().is_none());
    assert_eq!(uploads.get(), 0);
    assert_eq!(found(&store, b"a file sent before"), Some("file123".to_string()));
    assert_eq!(store.entry(d1).map(|e| e.stamp()), Some(1));
}

#[test]
fn resolver_miss_uploads_and_remembers() {
    let mut store = ready_store();
    let uploads = Cell::new(0u32);
    let outcome = resolve(&mut store, digest(b"a new file"), 5, || {
        uploads.set(uploads.get() + 1);
        Ok(FileReferenceId::new("file999"))
    });
    let resolution = outcome.expect("the upload went well");
    assert_eq!(resolution.reference_id().as_str(), "file999");
    assert_eq!(resolution.origin(), Origin::Upload);
    assert!(resolution.warning().is_none());
    assert_eq!(uploads.get(), 1);
    assert_eq!(found(&store, b"a new file"), Some("file999".to_string()));
    assert_eq!(store.entry(digest(b"a new file")).map(|e| e.stamp()), Some(5));
}

#[test]
fn resolver_upload_failure_is_handed_on_and_nothing_is_written() {
    let mut store = ready_store();
    let outcome = resolve(&mut store, digest(b"a new file"), 5, || {
        Err(OperationError::new(ErrorKind::RemoteUpload, "connection reset"))
    });
    let error = outcome.expect_err("the upload failed");
    assert_eq!(error.kind(), ErrorKind::RemoteUpload);
    assert_eq!(error.message(), "connection reset");
    assert_eq!(found(&store, b"a new file"), None);
}

#[test]
fn resolver_second_call_hits_what_the_first_wrote() {
    let mut store = ready_store();
    let first = resolve(&mut store, digest(b"twice"), 1, || Ok(FileReferenceId::new("file7")));
    assert_eq!(first.expect("uploaded").origin(), Origin::Upload);
    let second = resolve(&mut store, digest(b"twice"), 2, || {
        Err(OperationError::new(ErrorKind::RemoteUpload, "must not be called"))
    });
    let resolution = second.expect("a hit resolves");
    assert_eq!(resolution.reference_id().as_str(), "file7");
    assert_eq!(resolution.origin(), Origin::Cache);
}

#[test]
fn resolver_without_a_table_uploads_and_warns() {
    let mut store = CacheStore::new();
    let outcome = resolve(&mut store, digest(b"a new file"), 5, || Ok(FileReferenceId::new("file5")));
    let resolution = outcome.expect("a cache that cannot be written does not stop the upload");
    assert_eq!(resolution.reference_id().as_str(), "file5");
    assert_eq!(resolution.origin(), Origin::Upload);
    let warning = resolution.warning().expect("the id could not be written");
    assert_eq!(warning.kind(), ErrorKind::StoreWrite);
    assert_eq!(warning.message(), NOT_INITIALIZED);
    assert_eq!(found(&store, b"a new file"), None);
}

#[test]
fn settle_writes_what_the_upload_returned() {
    let mut store = ready_store();
    let key = digest(b"settled");
    let outcome = settle(&mut store, key, 11, Ok(FileReferenceId::new("file11")));
    let resolution = outcome.expect("the upload went well");
    assert_eq!(resolution.reference_id().as_str(), "file11");
    assert_eq!(resolution.origin(), Origin::Upload);
    assert!(resolution.warning().is_none());
    assert_eq!(found(&store, b"settled"), Some("file11".to_string()));
}

#[test]
fn settle_hands_on_the_error_of_the_upload() {
    let mut store = ready_store();
    assert!(store.upsert(digest(b"old"), FileReferenceId::new("file1"), 1).is_ok());
    let failed = Err(OperationError::new(ErrorKind::RemoteUpload, "status 502"));
    let error = settle(&mut store, digest(b"settled"), 11, failed).expect_err("the upload failed");
    assert_eq!(error.kind(), ErrorKind::RemoteUpload);
    assert_eq!(error.message(), "status 502");
    assert_eq!(found(&store, b"settled"), None);
    assert_eq!(found(&store, b"old"), Some("file1".to_string()));
}

#[test]
fn failed_write_becomes_the_warning() {
    let mut store = ready_store();
    let resolution = resolve(&mut store, digest(b"written"), 3, || Ok(FileReferenceId::new("file3")))
        .expect("uploaded");
    let resolution = resolution.after_write(Err("database is locked".to_string()));
    assert_eq!(resolution.reference_id().as_str(), "file3");
    assert_eq!(resolution.origin(), Origin::Upload);
    let warning = resolution.warning().expect("the write failed");
    assert_eq!(warning.kind(), ErrorKind::StoreWrite);
    assert_eq!(warning.message(), "database is locked");
}

#[test]
fn write_that_went_well_changes_nothing() {
    let mut store = ready_store();
    let resolution = resolve(&mut store, digest(b"written"), 3, || Ok(FileReferenceId::new("file3")))
        .expect("uploaded");
    let resolution = resolution.after_write(Ok(()));
    assert_eq!(resolution.reference_id().as_str(), "file3");
    assert_eq!(resolution.origin(), Origin::Upload);
    assert!(resolution.warning().is_none());

    let mut closed = CacheStore::new();
    let warned = resolve(&mut closed, digest(b"written"), 3, || Ok(FileReferenceId::new("file3")))
        .expect("uploaded")
        .after_write(Ok(()));
    assert_eq!(warned.warning().map(|w| w.message().to_string()), Some(NOT_INITIALIZED.to_string()));
}
