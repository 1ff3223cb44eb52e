use std::cell::Cell;
use std::path::PathBuf;
use tgcli::http::request::models::{ChatId, InputFile};
use tgcli::io::fidc::digest::digest;
use tgcli::io::fidc::resolver::Origin;
use tgcli::io::fidc::store::{CacheStore, FileReferenceId};
use tgcli::operations::bot::send::document::{DocumentParams, SendDocumentOperation};
use tgcli::operations::bot::send::message::{MessageParams, SendMessageOperation};
use tgcli::operations::bot::send::{MessageFormat, SendParams};
use tgcli::operations::{ErrorKind, OperationError};

#[test]
fn send_params_hold_what_they_were_given() {
    let params = SendParams::new("@friends", MessageFormat::HTML, true);
    assert_eq!(params.receiver, "@friends");
    assert_eq!(params.format, MessageFormat::HTML);
    assert!(params.silent);
    let params = SendParams::new("", MessageFormat::Markdown, false);
    assert_eq!(params.receiver, "");
    assert_eq!(params.format, MessageFormat::Markdown);
    assert!(!params.silent);
}

#[test]
fn message_params_hold_the_text() {
    let params = MessageParams::new("hello".to_string());
    assert_eq!(params.message(), "hello");
    let operation = SendMessageOperation::new(params);
    assert_eq!(operation.params().message(), "hello");
}

#[test]
fn document_params_hold_what_they_were_given() {
    let params = DocumentParams::new(
        PathBuf::from("/tmp/report.pdf"),
        Some(PathBuf::from("/tmp/thumb.png")),
        Some("the report".to_string()),
    );
    assert_eq!(params.file(), &PathBuf::from("/tmp/report.pdf"));
    assert_eq!(params.thumbnail(), Some(&PathBuf::from("/tmp/thumb.png")));
    assert_eq!(params.message(), Some("the report"));
    let (file, thumbnail, message) = params.into_parts();
    assert_eq!(file, PathBuf::from("/tmp/report.pdf"));
    assert_eq!(thumbnail, Some(PathBuf::from("/tmp/thumb.png")));
    assert_eq!(message, Some("the report".to_string()));
}

#[test]
fn document_params_without_the_optional_parts() {
    let params = DocumentParams::new(PathBuf::from("a.txt"), None, None);
    assert_eq!(params.file(), &PathBuf::from("a.txt"));
    assert_eq!(params.thumbnail(), None);
    assert_eq!(params.message(), None);
}

#[test]
fn document_operation_holds_its_params() {
    let params = DocumentParams::new(PathBuf::from("a.txt"), None, Some("caption".to_string()));
    let operation = SendDocumentOperation::new(params);
    assert_eq!(operation.params().file(), &PathBuf::from("a.txt"));
    assert_eq!(operation.params().message(), Some("caption"));
    let params = operation.into_params();
    assert_eq!(params.file(), &PathBuf::from("a.txt"));
    assert_eq!(params.thumbnail(), None);
}

#[test]
fn operation_error_holds_kind_and_message() {
    let error = OperationError::new(ErrorKind::Io, "cannot read the file");
    assert_eq!(error.kind(), ErrorKind::Io);
    assert_eq!(error.message(), "cannot read the file");
    for kind in [
        ErrorKind::Io,
        ErrorKind::DirectoryResolution,
        ErrorKind::StoreInit,
        ErrorKind::StoreWrite,
        ErrorKind::RemoteUpload,
    ] {
        assert_eq!(OperationError::new(kind, "").kind(), kind);
    }
}

fn document_operation(message: Option<&str>) -> SendDocumentOperation {
    SendDocumentOperation::new(DocumentParams::new(
        PathBuf::from("/tmp/report.pdf"),
        None,
        message.map(|m| m.to_string()),
    ))
}

#[test]
fn send_on_a_hit_uploads_nothing_and_delivers_by_reference() {
    let mut store = CacheStore::new();
    assert!(store.initialize().is_ok());
    let key = digest(b"the report");
    assert!(store.upsert(key, FileReferenceId::new("file123"), 1).is_ok());
    let uploads = Cell::new(0u32);
    let delivered = Cell::new(None);
    let outcome = document_operation(Some("again")).send_with(
        SendParams::new("42", MessageFormat::HTML, false),
        &mut store,
        key,
        2,
        |_| {
            uploads.set(uploads.get() + 1);
            Err(OperationError::new(ErrorKind::RemoteUpload, "must not be called"))
        },
        |model| {
            delivered.set(Some(model));
            Ok(())
        },
    );
    let resolution = outcome.expect("a hit resolves");
    assert_eq!(resolution.reference_id().as_str(), "file123");
    assert_eq!(resolution.origin(), Origin::Cache);
    assert!(resolution.warning().is_none());
    assert_eq!(uploads.get(), 0);
    let model = delivered.take().expect("the request went out");
    assert_eq!(model.document(), &InputFile::Id("file123".to_string()));
    assert_eq!(model.chat_id(), &ChatId::Int(42));
    assert_eq!(model.caption(), Some("again"));
    assert_eq!(store.lookup(key).map(|id| id.as_str().to_string()), Some("file123".to_string()));
    assert_eq!(store.entry(key).map(|e| e.stamp()), Some(1));
}

#[test]
fn send_on_a_hit_hands_on_the_error_of_the_delivery() {
    let mut store = CacheStore::new();
    assert!(store.initialize().is_ok());
    let key = digest(b"the report");
    assert!(store.upsert(key, FileReferenceId::new("file123"), 1).is_ok());
    let outcome = document_operation(None).send_with(
        SendParams::new("42", MessageFormat::Markdown, false),
        &mut store,
        key,
        2,
        |_| Ok(FileReferenceId::new("file999")),
        |_| Err(OperationError::new(ErrorKind::RemoteUpload, "chat not found")),
    );
    let error = outcome.expect_err("the delivery failed");
    assert_eq!(error.kind(), ErrorKind::RemoteUpload);
    assert_eq!(error.message(), "chat not found");
    assert_eq!(store.lookup(key).map(|id| id.as_str().to_string()), Some("file123".to_string()));
}

#[test]
fn send_on_a_miss_uploads_the_file_and_remembers_the_id() {
    let mut store = CacheStore::new();
    assert!(store.initialize().is_ok());
    let key = digest(b"the report");
    let uploaded = Cell::new(None);
    let deliveries = Cell::new(0u32);
    let outcome = document_operation(Some("new")).send_with(
        SendParams::new("@friends", MessageFormat::Markdown, true),
        &mut store,
        key,
        5,
        |model| {
            uploaded.set(Some(model));
            Ok(FileReferenceId::new("file999"))
        },
        |_| {
            deliveries.set(deliveries.get() + 1);
            Ok(())
        },
    );
    let resolution = outcome.expect("the upload went well");
    assert_eq!(resolution.reference_id().as_str(), "file999");
    assert_eq!(resolution.origin(), Origin::Upload);
    assert!(resolution.warning().is_none());
    assert_eq!(deliveries.get(), 0);
    let model = uploaded.take().expect("the file went out");
    assert_eq!(model.document(), &InputFile::Local(PathBuf::from("/tmp/report.pdf")));
    assert_eq!(model.chat_id(), &ChatId::Str("@friends".to_string()));
    assert!(model.disable_notification());
    assert_eq!(store.lookup(key).map(|id| id.as_str().to_string()), Some("file999".to_string()));
    assert_eq!(store.entry(key).map(|e| e.stamp()), Some(5));
}

#[test]
fn send_on_a_failed_upload_hands_on_the_error_and_writes_nothing() {
    let mut store = CacheStore::new();
    assert!(store.initialize().is_ok());
    let key = digest(b"the report");
    let outcome = document_operation(None).send_with(
        SendParams::new("42", MessageFormat::Markdown, false),
        &mut store,
        key,
        5,
        |_| Err(OperationError::new(ErrorKind::RemoteUpload, "connection reset")),
        |_| Ok(()),
    );
    let error = outcome.expect_err("the upload failed");
    assert_eq!(error.kind(), ErrorKind::RemoteUpload);
    assert_eq!(error.message(), "connection reset");
    assert!(store.lookup(key).is_none());
}
