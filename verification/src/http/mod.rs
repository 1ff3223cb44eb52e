//! What goes over HTTP to the messaging API, and what comes back.

pub mod request;
pub mod response;
