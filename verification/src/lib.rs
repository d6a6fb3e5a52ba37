//! Driver core for the Seeed LoRa-E5 LoRaWAN modem.
//!
//! The modem speaks a line-oriented ASCII protocol over a serial byte
//! stream: the host sends `AT` command lines, the modem answers with
//! response lines and spontaneously emits unsolicited result codes (URCs).
//! This crate holds the protocol logic: the streaming digester that
//! classifies incoming bytes, the command encoders and reply decoders,
//! the URC grammar, and the latching event signals that fan URC events
//! out to waiting consumers.  Serial transport and task scheduling are
//! left to the caller.

use vstd::prelude::*;

pub mod bounded;
pub mod client;
pub mod digester;
pub mod framing;
pub mod general;
pub mod hex;
pub mod lora;
pub mod scan;
pub mod signal;
pub mod tags;
pub mod urc;

verus! {

/// Error kinds surfaced to users of the driver.
#[derive(Debug, Clone, Copy, PartialEq, Eq, Structural)]
pub enum Error {
    /// A transport write or a response wait exceeded its budget.
    Timeout,
    /// A response or URC body did not match the expected grammar.
    Parse,
    /// The modem returned `ERROR(-n)`.
    CustomCode(u8),
    /// A bounded container could not accept the value.
    CapacityExceeded,
    /// A caller violated a documented argument range.
    InvalidArgument,
    /// No response slot and no URC matched; produced only on cancellation.
    Unavailable,
}

/// Reply shape of commands whose response carries no information.
#[derive(Debug, Clone, Copy, PartialEq, Eq, Structural)]
pub struct NoResponse;

} // verus!
