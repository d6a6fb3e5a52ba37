//! The LoRaWAN side of the modem: commands, replies, value types and
//! unsolicited lines.

pub mod commands;
pub mod responses;
pub mod types;
pub mod urc;
