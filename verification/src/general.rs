//! General modem commands and their replies.

pub mod commands;
pub mod responses;
