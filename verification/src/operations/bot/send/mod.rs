//! Operations that send something to a chat, and what they have in common.

pub mod document;
pub mod message;

use crate::operations::OperationError;
use vstd::prelude::*;

verus! {

/// How the text of a message is marked up.
#[derive(Debug, Clone, Copy, PartialEq, Eq, Structural)]
pub enum MessageFormat {
    Markdown,
    HTML,
}

/// What every send operation needs to know.
#[derive(Debug)]
pub struct SendParams {
    /// The chat that receives: its numeric id or its name.
    pub receiver: String,
    /// How the text is marked up.
    pub format: MessageFormat,
    /// Whether the receiver is notified without sound.
    pub silent: bool,
}

impl SendParams {
    /// The parameters that every send operation shares.
    pub fn new(receiver: &str, format: MessageFormat, silent: bool) -> (params: Self)
        ensures
            params.receiver@ == receiver@,
            params.format == format,
            params.silent == silent,
    {
        Self { receiver: receiver.to_owned(), format, silent }
    }
}

/// An operation that sends something to a chat.
pub trait SendOperation {
    /// Carries the operation out.
    fn send(self) -> Result<(), OperationError>;
}

} // verus!
