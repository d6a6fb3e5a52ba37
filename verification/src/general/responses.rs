//! Replies to the general commands.

use vstd::prelude::*;

use crate::bounded::BoundedText;

verus! {

/// A bare `OK` reply.
#[derive(Debug, Clone)]
pub struct OkResponse {
    /// The reply text; `OK` when the modem acknowledged.
    pub ok: BoundedText<4>,
}

impl OkResponse {
    /// Did the modem acknowledge?
    pub fn is_ok(&self) -> (r: bool)
        ensures
            r == (self.ok@ == crate::tags::spec_w_ok()),
    {
        let w = crate::tags::w_ok();
        crate::bounded::bytes_eq(self.ok.as_bytes(), w.as_slice())
    }
}

/// The firmware version triple of a `+VER` reply.
#[derive(Debug, Clone, Copy, PartialEq, Eq, Structural)]
pub struct VerResponse {
    /// Major version.
    pub major: u8,
    /// Minor version.
    pub minor: u8,
    /// Patch version.
    pub patch: u8,
}

/// Reply to a low power command.
#[derive(Debug, Clone)]
pub struct LowPowerResponse {
    /// The reply text.
    pub message: BoundedText<12>,
}

} // verus!
