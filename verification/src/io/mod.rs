//! State that outlives one invocation of the client.

pub mod fidc;
