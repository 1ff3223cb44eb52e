//! The cache of file reference ids, keyed by the digest of a file's content.
//!
//! A file that was uploaded once need not be uploaded again: the messaging
//! API takes the file reference id that it gave the first time. The cache
//! remembers those ids, and lives in one database file in the application's
//! cache directory.

pub mod digest;
pub mod resolver;
pub mod store;

use crate::operations::{ErrorKind, OperationError, OperationErrorView};
use crate::path::{display_text, join, joined, lossy_text};
use std::path::PathBuf;
use vstd::prelude::*;
use vstd::string::*;

verus! {

/// The name of the database file in the cache directory.
pub const FILE_ID_CACHE_SQLITE_DB_NAME: &'static str = "fileidcache.sqlite";

/// What the URL of a database begins with.
pub const URL_SCHEME: &'static str = "sqlite://";

/// The URL of the database file at `path`.
pub fn database_url(path: &str) -> (url: String)
    ensures
        url@ == URL_SCHEME@ + path@,
{
    URL_SCHEME.to_owned().concat(path)
}

/// The URL of the cache's database, given what came of finding and
/// creating the application's cache directory.
///
/// With a directory, the URL is [`URL_SCHEME`] followed by the text of
/// the path of the file [`FILE_ID_CACHE_SQLITE_DB_NAME`] in it.
/// Without one, the error is a directory resolution error with the message
/// of the error that came in.
pub fn get_url(cache_dir: Result<PathBuf, OperationError>) -> (url: Result<String, OperationError>)
    ensures
        match cache_dir {
            Ok(directory) => url matches Ok(text) && text@ == URL_SCHEME@ + lossy_text(
                joined(directory, FILE_ID_CACHE_SQLITE_DB_NAME@),
            ),
            Err(error) => url matches Err(mapped) && mapped@ == (OperationErrorView {
                kind: ErrorKind::DirectoryResolution,
                message: error@.message,
            }),
        },
{
    match cache_dir {
        Ok(directory) => {
            let db_path = join(&directory, FILE_ID_CACHE_SQLITE_DB_NAME);
            let url = database_url(display_text(&db_path).as_str());
            Ok(url)
        },
        Err(error) => Err(OperationError::new(ErrorKind::DirectoryResolution, error.message())),
    }
}

} // verus!
