//! The directories that the platform sets aside for the application.

use crate::operations::{ErrorKind, OperationError, OperationErrorView};
use directories::ProjectDirs;
use std::path::PathBuf;
use vstd::prelude::*;
use vstd::string::*;

verus! {

/// The qualifier by which the platform files the application.
pub const QUALIFIER: &'static str = "com";

/// The organization by which the platform files the application.
pub const ORGANIZATION: &'static str = "erayerdin";

/// The name by which the platform files the application.
pub const APPLICATION: &'static str = "tgcli";

/// The message of the error of [`get_project_dirs`].
pub const NO_PROJECT_DIRS: &'static str = "Could not get application directories.";

/// The message of the error of [`locate_cache_dir`].
pub const NO_CACHE_DIR: &'static str = "Could not get project cache directory.";

/// What the message of the error of [`created_cache_dir`] begins with.
pub const NOT_CREATED: &'static str = "An error occurred while creating cache directory. ";

/// `directories::ProjectDirs`: the directories of one application, as the
/// platform and the user's environment place them.
#[verifier::external_type_specification]
#[verifier::external_body]
pub struct ExProjectDirs(directories::ProjectDirs);

/// `directories::ProjectDirs::from`: the directories of the application
/// with the given names, or `None` where the platform knows no home
/// directory for the user. The answer is read from the environment, so
/// nothing is claimed of it.
pub assume_specification[ directories::ProjectDirs::from ](
    qualifier: &str,
    organization: &str,
    application: &str,
) -> (dirs: Option<ProjectDirs>)
;

/// What `directories::ProjectDirs::cache_dir` gives for `dirs`: the cache
/// directory among them.
pub uninterp spec fn cache_dir_path(dirs: ProjectDirs) -> PathBuf;

/// `directories::ProjectDirs::cache_dir`: the cache directory among
/// `dirs`, as an owned path. The getter reads it from `dirs`, so the
/// result bears the name [`cache_dir_path`]; nothing else is claimed of it.
#[verifier::external_body]
fn cache_dir_of(dirs: &ProjectDirs) -> (directory: PathBuf)
    ensures
        directory == cache_dir_path(*dirs),
{
    dirs.cache_dir().to_path_buf()
}

/// The directories of this application: what the platform gave when asked
/// for the directories of [`QUALIFIER`], [`ORGANIZATION`] and
/// [`APPLICATION`]. Whether it has them is for the platform to say; where
/// it has not, the error says so.
pub fn get_project_dirs() -> (dirs: Result<ProjectDirs, OperationError>)
    ensures
        match dirs {
            Ok(found) => call_ensures(
                ProjectDirs::from,
                (QUALIFIER, ORGANIZATION, APPLICATION),
                Some(found),
            ),
            Err(error) => {
                &&& call_ensures(
                    ProjectDirs::from,
                    (QUALIFIER, ORGANIZATION, APPLICATION),
                    None::<ProjectDirs>,
                )
                &&& error@ == (OperationErrorView {
                    kind: ErrorKind::DirectoryResolution,
                    message: NO_PROJECT_DIRS@,
                })
            },
        },
{
    match ProjectDirs::from(QUALIFIER, ORGANIZATION, APPLICATION) {
        Some(dirs) => Ok(dirs),
        None => Err(OperationError::new(ErrorKind::DirectoryResolution, NO_PROJECT_DIRS)),
    }
}

/// The cache directory of this application, which may not exist yet: the
/// cache directory among the directories that [`get_project_dirs`] found,
/// and an error of its own where it found none.
pub fn locate_cache_dir() -> (directory: Result<PathBuf, OperationError>)
    ensures
        directory matches Ok(path) ==> exists|dirs: ProjectDirs|
            {
                &&& call_ensures(
                    ProjectDirs::from,
                    (QUALIFIER, ORGANIZATION, APPLICATION),
                    Some(dirs),
                )
                &&& path == #[trigger] cache_dir_path(dirs)
            },
        directory matches Err(error) ==> {
            &&& call_ensures(
                ProjectDirs::from,
                (QUALIFIER, ORGANIZATION, APPLICATION),
                None::<ProjectDirs>,
            )
            &&& error@ == (OperationErrorView {
                kind: ErrorKind::DirectoryResolution,
                message: NO_CACHE_DIR@,
            })
        },
{
    match get_project_dirs() {
        Ok(dirs) => {
            Ok(cache_dir_of(&dirs))
        },
        Err(_) => Err(OperationError::new(ErrorKind::DirectoryResolution, NO_CACHE_DIR)),
    }
}

/// What becomes of the cache directory once the file system was asked to
/// create it: the directory where that went well, and else an error that
/// holds the file system's words, `created`'s error.
pub fn created_cache_dir(directory: PathBuf, created: Result<(), String>) -> (outcome: Result<
    PathBuf,
    OperationError,
>)
    ensures
        match created {
            Ok(_) => outcome == Ok::<PathBuf, OperationError>(directory),
            Err(cause) => outcome matches Err(error) && error@ == (OperationErrorView {
                kind: ErrorKind::Io,
                message: NOT_CREATED@ + cause@,
            }),
        },
{
    match created {
        Ok(_) => Ok(directory),
        Err(cause) => {
            let message = NOT_CREATED.to_owned().concat(cause.as_str());
            Err(OperationError::new(ErrorKind::Io, message.as_str()))
        },
    }
}

} // verus!
