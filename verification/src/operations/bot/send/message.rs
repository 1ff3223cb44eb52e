//! Sending a text message.

use vstd::prelude::*;

verus! {

/// What the message operation sends.
#[derive(Debug)]
pub struct MessageParams {
    message: String,
}

impl View for MessageParams {
    type V = Seq<char>;

    /// The text of the message.
    closed spec fn view(&self) -> Seq<char> {
        self.message@
    }
}

impl MessageParams {
    /// The parameters of a message operation: the text to send.
    pub fn new(message: String) -> (params: Self)
        ensures
            params@ == message@,
    {
        Self { message }
    }

    /// The text of the message.
    pub fn message(&self) -> (message: &str)
        ensures
            message@ == self@,
    {
        self.message.as_str()
    }
}

/// The operation that sends a text message.
#[derive(Debug)]
pub struct SendMessageOperation {
    params: MessageParams,
}

impl View for SendMessageOperation {
    type V = Seq<char>;

    /// The text of the message that the operation sends.
    closed spec fn view(&self) -> Seq<char> {
        self.params@
    }
}

impl SendMessageOperation {
    /// The operation that sends what `params` says.
    pub fn new(params: MessageParams) -> (operation: Self)
        ensures
            operation@ == params@,
    {
        Self { params }
    }

    /// What the operation sends.
    pub fn params(&self) -> (params: &MessageParams)
        ensures
            params@ == self@,
    {
        &self.params
    }
}

} // verus!
