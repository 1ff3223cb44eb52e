//! The answers of the messaging API, read.
//!
//! An answer is good where its HTTP status is one of the 2xx and the API
//! itself says `ok`. Any other answer is a refusal, and becomes a remote
//! upload error that holds the API's own description where it gave one.

use crate::http::request::models::decimal::{decimal_text, to_decimal};
use crate::io::fidc::store::FileReferenceId;
use crate::operations::{ErrorKind, OperationError, OperationErrorView};
use vstd::prelude::*;
use vstd::string::*;

verus! {

/// What the message of a refusal without a description begins with.
pub const ANSWERED: &'static str = "The messaging API answered ";

/// What the message of a refusal without a description ends with.
pub const FULL_STOP: &'static str = ".";

/// The message of the error for a good answer that names no file.
pub const NO_FILE: &'static str = "The messaging API named no file.";

/// Whether an answer with this status and this `ok` is good.
pub open spec fn accepted(status: u16, ok: bool) -> bool {
    200 <= status <= 299 && ok
}

/// The message of a refusal: the API's description, and without one the
/// status that it answered with.
pub open spec fn refusal_message(status: u16, description: Option<Seq<char>>) -> Seq<char> {
    match description {
        Some(text) => text,
        None => ANSWERED@ + decimal_text(status as nat) + FULL_STOP@,
    }
}

/// The error that a refusal becomes.
pub open spec fn refusal(status: u16, description: Option<Seq<char>>) -> OperationErrorView {
    OperationErrorView { kind: ErrorKind::RemoteUpload, message: refusal_message(status, description) }
}

/// What an answer to an upload comes to: the token of the file reference
/// id that a good answer names, and an error for a refusal and for a good
/// answer that names no file.
pub open spec fn upload_result(
    status: u16,
    ok: bool,
    description: Option<Seq<char>>,
    file_id: Option<Seq<char>>,
) -> Result<Seq<char>, OperationErrorView> {
    if !accepted(status, ok) {
        Err(refusal(status, description))
    } else {
        match file_id {
            Some(token) => Ok(token),
            None => Err(OperationErrorView { kind: ErrorKind::RemoteUpload, message: NO_FILE@ }),
        }
    }
}

/// The view of an optional text.
pub open spec fn text_of(text: Option<String>) -> Option<Seq<char>> {
    match text {
        Some(text) => Some(text@),
        None => None,
    }
}

/// Reads the answer to a request that uploads nothing: good, or the error
/// of a refusal.
pub fn answer_outcome(status: u16, ok: bool, description: Option<String>) -> (outcome: Result<
    (),
    OperationError,
>)
    ensures
        outcome is Ok <==> accepted(status, ok),
        outcome matches Err(error) ==> error@ == refusal(status, text_of(description)),
{
    if 200 <= status && status <= 299 && ok {
        return Ok(());
    }
    let message = match description {
        Some(text) => text,
        None => ANSWERED.to_owned().concat(to_decimal(status as usize).as_str()).concat(FULL_STOP),
    };
    Err(OperationError::new(ErrorKind::RemoteUpload, message.as_str()))
}

/// Reads the answer to an upload: the file reference id that a good answer
/// names, the error of a refusal, or the error of a good answer that
/// names no file.
pub fn upload_outcome(
    status: u16,
    ok: bool,
    description: Option<String>,
    file_id: Option<String>,
) -> (outcome: Result<FileReferenceId, OperationError>)
    ensures
        match upload_result(status, ok, text_of(description), text_of(file_id)) {
            Ok(token) => outcome matches Ok(id) && id@ == token,
            Err(error) => outcome matches Err(given) && given@ == error,
        },
{
    match answer_outcome(status, ok, description) {
        Err(error) => Err(error),
        Ok(()) => match file_id {
            Some(token) => Ok(FileReferenceId::new(token.as_str())),
            None => Err(OperationError::new(ErrorKind::RemoteUpload, NO_FILE)),
        },
    }
}

} // verus!
