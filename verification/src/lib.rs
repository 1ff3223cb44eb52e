//! Verified core of a command-line client for a chat-bot messaging API:
//! what the command line selects, the parameters of the send operations,
//! the request model with the multipart form that carries it, and the
//! content-addressed cache of file reference ids.

pub mod cli;
pub mod http;
pub mod io;
pub mod operations;
pub mod path;

use vstd::prelude::*;

verus! {

/// What the URL of every method of the messaging API begins with.
pub const API_ROOT_URL: &'static str = "https://api.telegram.org/bot";

} // verus!
