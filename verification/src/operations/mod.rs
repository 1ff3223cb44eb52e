//! Operations of the client and the error they report.

pub mod bot;

use vstd::prelude::*;

verus! {

/// What went wrong, by the layer that reported it.
#[derive(Debug, Clone, Copy, PartialEq, Eq, Structural)]
pub enum ErrorKind {
    /// A file could not be read, or a directory could not be created.
    Io,
    /// The platform's cache directory for the application is unavailable.
    DirectoryResolution,
    /// The cache's backing table could not be set up.
    StoreInit,
    /// An entry could not be written to the cache.
    StoreWrite,
    /// The messaging API refused an upload, or could not be reached.
    RemoteUpload,
}

/// An error of an operation: its kind and a message for the user.
#[derive(Debug)]
pub struct OperationError {
    kind: ErrorKind,
    message: String,
}

/// The mathematical value of an [`OperationError`].
pub struct OperationErrorView {
    pub kind: ErrorKind,
    pub message: Seq<char>,
}

impl View for OperationError {
    type V = OperationErrorView;

    closed spec fn view(&self) -> OperationErrorView {
        OperationErrorView { kind: self.kind, message: self.message@ }
    }
}

impl OperationError {
    /// An error of the given kind with the given message.
    pub fn new(kind: ErrorKind, message: &str) -> (error: Self)
        ensures
            error@.kind == kind,
            error@.message == message@,
    {
        OperationError { kind, message: message.to_owned() }
    }

    /// The layer that reported the error.
    pub fn kind(&self) -> (kind: ErrorKind)
        ensures
            kind == self@.kind,
    {
        self.kind
    }

    /// The message for the user.
    pub fn message(&self) -> (message: &str)
        ensures
            message@ == self@.message,
    {
        self.message.as_str()
    }
}

} // verus!
