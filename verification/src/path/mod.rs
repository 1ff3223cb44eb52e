//! Paths in the file system.

pub mod appdata;

use std::path::PathBuf;
use vstd::prelude::*;

verus! {

/// `std::path::PathBuf`, which the library carries from where a path is
/// given to where a file is opened, and never looks into.
#[verifier::external_type_specification]
#[verifier::external_body]
pub struct ExPathBuf(std::path::PathBuf);

/// What `std::path::Path::join` gives for a directory and the name of an
/// entry: the path of the entry in the directory. How the two are put
/// together is the platform's rule and stays with the platform.
pub uninterp spec fn joined(directory: PathBuf, name: Seq<char>) -> PathBuf;

/// What `std::path::Path::to_string_lossy` gives for a path: the path as
/// text, for display.
pub uninterp spec fn lossy_text(path: PathBuf) -> Seq<char>;

/// `std::path::Path::join`: the path of the entry `name` of the directory
/// `directory`. The result is a function of the two and bears the name
/// [`joined`]; nothing else is claimed of it.
#[verifier::external_body]
pub(crate) fn join(directory: &PathBuf, name: &str) -> (path: PathBuf)
    ensures
        path == joined(*directory, name@),
{
    directory.join(name)
}

/// `std::path::Path::to_string_lossy`: the path as text, for display. The
/// result is a function of the path and bears the name [`lossy_text`];
/// nothing else is claimed of it.
#[verifier::external_body]
pub(crate) fn display_text(path: &PathBuf) -> (text: String)
    ensures
        text@ == lossy_text(*path),
{
    path.to_string_lossy().into_owned()
}

} // verus!
