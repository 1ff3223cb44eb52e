//! Operations that act as a bot.

pub mod send;
