//! Requests to the messaging API.

pub mod models;
