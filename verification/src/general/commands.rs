//! General commands: liveness check, version, reset, low power.
//!
//! Every command knows the exact line it puts on the wire, a bound on
//! that line's length, and its reply budget.  Every encoded line ends in
//! `\r\n`.

use vstd::prelude::*;

use super::responses::{LowPowerResponse, OkResponse, VerResponse};
use crate::bounded::BoundedText;
use crate::hex::{all_dec_digits, dec_rep, dec_val};
use crate::scan::{find_sub, has_prefix};
use crate::Error;
use crate::NoResponse;

verus! {

/// Parses a reply of at most four bytes as a bare acknowledgement.
fn parse_ok_reply(resp: &[u8]) -> (r: Result<OkResponse, Error>)
    ensures
        resp@.len() <= 4 ==> (r matches Ok(o) && o.ok@ == resp@),
        resp@.len() > 4 ==> (r matches Err(e) && e == Error::Parse),
{
    match BoundedText::<4>::from_bytes(resp) {
        Ok(t) => Ok(OkResponse { ok: t }),
        Err(_) => Err(Error::Parse),
    }
}

/// `AT`: tests that the modem answers at all.
#[derive(Debug, Clone, Copy, PartialEq, Eq, Structural)]
pub struct VerifyComIsWorking {}

impl VerifyComIsWorking {
    /// The exact wire line.
    pub open spec fn spec_wire(&self) -> Seq<u8> {
        crate::tags::spec_at_open() + crate::tags::spec_crlf()
    }

    /// Largest possible encoding.
    pub fn max_len() -> (r: usize)
        ensures
            r == 4,
    {
        4
    }

    /// Reply budget in milliseconds.
    pub fn timeout_ms(&self) -> (r: u32)
        ensures
            r == 1000,
    {
        1000
    }

    /// Encodes the command line.
    pub fn as_bytes(&self) -> (r: Vec<u8>)
        ensures
            r@ == self.spec_wire(),
            r@.len() <= 4,
            r@.len() >= 2 && r@.subrange(r@.len() - 2, r@.len() as int)
                == crate::tags::spec_crlf(),
    {
        let mut r = crate::tags::at_open();
        let mut t = crate::tags::crlf();
        r.append(&mut t);
        proof {
            assert(r@ =~= self.spec_wire());
            assert(r@.subrange(r@.len() - 2, r@.len() as int) =~= crate::tags::spec_crlf());
        }
        r
    }

    /// Decodes the reply body.
    pub fn parse(&self, resp: &[u8]) -> (r: Result<OkResponse, Error>)
        ensures
            resp@.len() <= 4 ==> (r matches Ok(o) && o.ok@ == resp@),
            resp@.len() > 4 ==> (r matches Err(e) && e == Error::Parse),
    {
        parse_ok_reply(resp)
    }
}

/// The body of a version reply, its envelope stripped if still present.
pub open spec fn ver_body(s: Seq<u8>) -> Seq<u8> {
    if has_prefix(s, crate::tags::spec_ver_tag()) {
        s.skip(6)
    } else {
        s
    }
}

/// One dot-separated piece: up to the next dot, or the rest.
pub open spec fn dot_piece(s: Seq<u8>) -> Seq<u8> {
    let d = find_sub(s, crate::tags::spec_dot());
    if d < 0 {
        s
    } else {
        s.subrange(0, d)
    }
}

/// What follows the first dot, if any.
pub open spec fn dot_rest(s: Seq<u8>) -> Option<Seq<u8>> {
    let d = find_sub(s, crate::tags::spec_dot());
    if d < 0 {
        None
    } else {
        Some(s.skip(d + 1))
    }
}

/// Is this piece a version component?
pub open spec fn ver_piece_ok(p: Seq<u8>) -> bool {
    p.len() >= 1 && all_dec_digits(p) && dec_val(p) <= 255
}

/// Reading of a version reply `M.m.p`: three dot-separated decimal
/// components, each at most 255.  Anything after a third dot is ignored.
pub open spec fn ver_spec(s: Seq<u8>) -> Option<(u8, u8, u8)> {
    let b = ver_body(s);
    let maj = dot_piece(b);
    match dot_rest(b) {
        None => None,
        Some(r1) => {
            let min = dot_piece(r1);
            match dot_rest(r1) {
                None => None,
                Some(r2) => {
                    let pat = dot_piece(r2);
                    if ver_piece_ok(maj) && ver_piece_ok(min) && ver_piece_ok(pat) {
                        Some((dec_val(maj) as u8, dec_val(min) as u8, dec_val(pat) as u8))
                    } else {
                        None
                    }
                },
            }
        },
    }
}

/// Splits off one dot-separated piece.
fn split_dot(s: &[u8]) -> (r: (Vec<u8>, Option<Vec<u8>>))
    ensures
        r.0@ == dot_piece(s@),
        match r.1 {
            Some(rest) => dot_rest(s@) == Some(rest@),
            None => dot_rest(s@) is None,
        },
{
    let dot = crate::tags::dot();
    match crate::scan::find(s, dot.as_slice()) {
        None => (crate::hex::copy_bytes(s), None),
        Some(d) => {
            let n = s.len();
            proof {
                assert(d + 1 <= n);
            }
            let piece = crate::hex::copy_bytes(vstd::slice::slice_subrange(s, 0, d));
            let rest = crate::hex::copy_bytes(vstd::slice::slice_subrange(s, d + 1, n));
            proof {
                assert(rest@ =~= s@.skip(d + 1));
            }
            (piece, Some(rest))
        },
    }
}

/// `AT+VER`: reads the firmware version.
#[derive(Debug, Clone, Copy, PartialEq, Eq, Structural)]
pub struct FirmwareVersion {}

impl FirmwareVersion {
    /// The exact wire line.
    pub open spec fn spec_wire(&self) -> Seq<u8> {
        crate::tags::spec_at_open() + crate::tags::spec_p_ver() + crate::tags::spec_crlf()
    }

    /// Largest possible encoding.
    pub fn max_len() -> (r: usize)
        ensures
            r == 16,
    {
        16
    }

    /// Reply budget in milliseconds.
    pub fn timeout_ms(&self) -> (r: u32)
        ensures
            r == 1000,
    {
        1000
    }

    /// Encodes the command line.
    pub fn as_bytes(&self) -> (r: Vec<u8>)
        ensures
            r@ == self.spec_wire(),
            r@.len() <= 16,
            r@.len() >= 2 && r@.subrange(r@.len() - 2, r@.len() as int)
                == crate::tags::spec_crlf(),
    {
        let mut r = crate::tags::at_open();
        let mut p = crate::tags::p_ver();
        let mut t = crate::tags::crlf();
        r.append(&mut p);
        r.append(&mut t);
        proof {
            assert(r@ =~= self.spec_wire());
            assert(r@.subrange(r@.len() - 2, r@.len() as int) =~= crate::tags::spec_crlf());
        }
        r
    }

    /// Decodes a version reply into its triple.
    pub fn parse(&self, resp: &[u8]) -> (r: Result<VerResponse, Error>)
        ensures
            match r {
                Ok(v) => ver_spec(resp@) == Some((v.major, v.minor, v.patch)),
                Err(e) => ver_spec(resp@) is None && e == Error::Parse,
            },
    {
        let tag = crate::tags::ver_tag();
        let body: &[u8] = if crate::scan::starts_with(resp, tag.as_slice()) {
            vstd::slice::slice_subrange(resp, 6, resp.len())
        } else {
            resp
        };
        proof {
            if has_prefix(resp@, tag@) {
                assert(body@ =~= resp@.skip(6));
            }
            assert(body@ == ver_body(resp@));
        }
        let (maj, rest1) = split_dot(body);
        let r1 = match rest1 {
            Some(r1) => r1,
            None => {
                return Err(Error::Parse);
            },
        };
        let (min, rest2) = split_dot(r1.as_slice());
        let r2 = match rest2 {
            Some(r2) => r2,
            None => {
                return Err(Error::Parse);
            },
        };
        let (pat, _rest3) = split_dot(r2.as_slice());
        let major = match crate::hex::parse_dec_u8(maj.as_slice()) {
            Some(v) => v,
            None => {
                return Err(Error::Parse);
            },
        };
        let minor = match crate::hex::parse_dec_u8(min.as_slice()) {
            Some(v) => v,
            None => {
                return Err(Error::Parse);
            },
        };
        let patch = match crate::hex::parse_dec_u8(pat.as_slice()) {
            Some(v) => v,
            None => {
                return Err(Error::Parse);
            },
        };
        Ok(VerResponse { major, minor, patch })
    }
}

/// `AT+RESET`: restarts the modem.
#[derive(Debug, Clone, Copy, PartialEq, Eq, Structural)]
pub struct Reset {}

impl Reset {
    /// The exact wire line.
    pub open spec fn spec_wire(&self) -> Seq<u8> {
        crate::tags::spec_at_open() + crate::tags::spec_p_reset() + crate::tags::spec_crlf()
    }

    /// Largest possible encoding.
    pub fn max_len() -> (r: usize)
        ensures
            r == 10,
    {
        10
    }

    /// Reply budget in milliseconds.
    pub fn timeout_ms(&self) -> (r: u32)
        ensures
            r == 5000,
    {
        5000
    }

    /// Encodes the command line.
    pub fn as_bytes(&self) -> (r: Vec<u8>)
        ensures
            r@ == self.spec_wire(),
            r@.len() <= 10,
            r@.len() >= 2 && r@.subrange(r@.len() - 2, r@.len() as int)
                == crate::tags::spec_crlf(),
    {
        let mut r = crate::tags::at_open();
        let mut p = crate::tags::p_reset();
        let mut t = crate::tags::crlf();
        r.append(&mut p);
        r.append(&mut t);
        proof {
            assert(r@ =~= self.spec_wire());
            assert(r@.subrange(r@.len() - 2, r@.len() as int) =~= crate::tags::spec_crlf());
        }
        r
    }

    /// Decodes the reply body.
    pub fn parse(&self, resp: &[u8]) -> (r: Result<OkResponse, Error>)
        ensures
            resp@.len() <= 4 ==> (r matches Ok(o) && o.ok@ == resp@),
            resp@.len() > 4 ==> (r matches Err(e) && e == Error::Parse),
    {
        parse_ok_reply(resp)
    }
}

/// `AT+FDEFAULT=Seeed`: restores factory settings.  Its reply is noisy,
/// so decoding always reports success.
#[derive(Debug, Clone, Copy, PartialEq, Eq, Structural)]
pub struct FactoryReset {}

impl FactoryReset {
    /// The exact wire line.
    pub open spec fn spec_wire(&self) -> Seq<u8> {
        crate::tags::spec_at_open() + crate::tags::spec_p_fdefault_seeed()
            + crate::tags::spec_crlf()
    }

    /// Largest possible encoding.
    pub fn max_len() -> (r: usize)
        ensures
            r == 20,
    {
        20
    }

    /// Reply budget in milliseconds.
    pub fn timeout_ms(&self) -> (r: u32)
        ensures
            r == 15000,
    {
        15000
    }

    /// Encodes the command line.
    pub fn as_bytes(&self) -> (r: Vec<u8>)
        ensures
            r@ == self.spec_wire(),
            r@.len() <= 20,
            r@.len() >= 2 && r@.subrange(r@.len() - 2, r@.len() as int)
                == crate::tags::spec_crlf(),
    {
        let mut r = crate::tags::at_open();
        let mut p = crate::tags::p_fdefault_seeed();
        let mut t = crate::tags::crlf();
        r.append(&mut p);
        r.append(&mut t);
        proof {
            assert(r@ =~= self.spec_wire());
            assert(r@.subrange(r@.len() - 2, r@.len() as int) =~= crate::tags::spec_crlf());
        }
        r
    }

    /// Decodes the reply body: always an acknowledgement.
    pub fn parse(&self, _resp: &[u8]) -> (r: Result<OkResponse, Error>)
        ensures
            r matches Ok(o) && o.ok@ == crate::tags::spec_w_ok(),
    {
        let w = crate::tags::w_ok();
        match BoundedText::<4>::from_bytes(w.as_slice()) {
            Ok(t) => Ok(OkResponse { ok: t }),
            Err(_) => {
                proof {
                    assert(false);
                }
                Err(Error::Parse)
            },
        }
    }
}

/// `AT+LOWPOWER`: sleeps until woken by traffic.
#[derive(Debug, Clone, Copy, PartialEq, Eq, Structural)]
pub struct LowPowerUntilWokenUp {}

impl LowPowerUntilWokenUp {
    /// The exact wire line.
    pub open spec fn spec_wire(&self) -> Seq<u8> {
        crate::tags::spec_at_open() + crate::tags::spec_p_lowpower() + crate::tags::spec_crlf()
    }

    /// Largest possible encoding.
    pub fn max_len() -> (r: usize)
        ensures
            r == 13,
    {
        13
    }

    /// Encodes the command line.
    pub fn as_bytes(&self) -> (r: Vec<u8>)
        ensures
            r@ == self.spec_wire(),
            r@.len() <= 13,
            r@.len() >= 2 && r@.subrange(r@.len() - 2, r@.len() as int)
                == crate::tags::spec_crlf(),
    {
        let mut r = crate::tags::at_open();
        let mut p = crate::tags::p_lowpower();
        let mut t = crate::tags::crlf();
        r.append(&mut p);
        r.append(&mut t);
        proof {
            assert(r@ =~= self.spec_wire());
            assert(r@.subrange(r@.len() - 2, r@.len() as int) =~= crate::tags::spec_crlf());
        }
        r
    }

    /// Decodes the reply body.
    pub fn parse(&self, resp: &[u8]) -> (r: Result<LowPowerResponse, Error>)
        ensures
            resp@.len() <= 12 ==> (r matches Ok(o) && o.message@ == resp@),
            resp@.len() > 12 ==> (r matches Err(e) && e == Error::Parse),
    {
        match BoundedText::<12>::from_bytes(resp) {
            Ok(t) => Ok(LowPowerResponse { message: t }),
            Err(_) => Err(Error::Parse),
        }
    }
}

/// `AT+LOWPOWER=<ms>`: sleeps for a number of milliseconds.
#[derive(Debug, Clone, Copy, PartialEq, Eq, Structural)]
pub struct LowPowerForMilliseconds {
    /// How long to sleep.
    pub sleep_for_millis: u32,
}

impl LowPowerForMilliseconds {
    /// The exact wire line.
    pub open spec fn spec_wire(&self) -> Seq<u8> {
        crate::tags::spec_at_open() + crate::tags::spec_p_lowpower() + crate::tags::spec_eq()
            + dec_rep(self.sleep_for_millis as nat) + crate::tags::spec_crlf()
    }

    /// Largest possible encoding.
    pub fn max_len() -> (r: usize)
        ensures
            r == 26,
    {
        26
    }

    /// Encodes the command line.
    pub fn as_bytes(&self) -> (r: Vec<u8>)
        ensures
            r@ == self.spec_wire(),
            r@.len() <= 26,
            r@.len() >= 2 && r@.subrange(r@.len() - 2, r@.len() as int)
                == crate::tags::spec_crlf(),
    {
        let mut r = crate::tags::at_open();
        let mut p = crate::tags::p_lowpower();
        let mut e = crate::tags::eq();
        let mut t = crate::tags::crlf();
        r.append(&mut p);
        r.append(&mut e);
        crate::hex::push_dec_u32(&mut r, self.sleep_for_millis);
        r.append(&mut t);
        proof {
            crate::hex::lemma_pow10_10();
            crate::hex::lemma_dec_rep_len(self.sleep_for_millis as nat, 10);
            assert(r@ =~= self.spec_wire());
            assert(r@.subrange(r@.len() - 2, r@.len() as int) =~= crate::tags::spec_crlf());
        }
        r
    }

    /// Decodes the reply body.
    pub fn parse(&self, resp: &[u8]) -> (r: Result<LowPowerResponse, Error>)
        ensures
            resp@.len() <= 12 ==> (r matches Ok(o) && o.message@ == resp@),
            resp@.len() > 12 ==> (r matches Err(e) && e == Error::Parse),
    {
        match BoundedText::<12>::from_bytes(resp) {
            Ok(t) => Ok(LowPowerResponse { message: t }),
            Err(_) => Err(Error::Parse),
        }
    }
}

/// `AT+LOWPOWER=AUTOON`: enters deep power saving.
#[derive(Debug, Clone, Copy, PartialEq, Eq, Structural)]
pub struct LowPowerDeepSleepEnable {}

impl LowPowerDeepSleepEnable {
    /// The exact wire line.
    pub open spec fn spec_wire(&self) -> Seq<u8> {
        crate::tags::spec_at_open() + crate::tags::spec_p_lowpower() + crate::tags::spec_eq()
            + crate::tags::spec_w_autoon() + crate::tags::spec_crlf()
    }

    /// Largest possible encoding.
    pub fn max_len() -> (r: usize)
        ensures
            r == 20,
    {
        20
    }

    /// Encodes the command line.
    pub fn as_bytes(&self) -> (r: Vec<u8>)
        ensures
            r@ == self.spec_wire(),
            r@.len() <= 20,
            r@.len() >= 2 && r@.subrange(r@.len() - 2, r@.len() as int)
                == crate::tags::spec_crlf(),
    {
        let mut r = crate::tags::at_open();
        let mut p = crate::tags::p_lowpower();
        let mut e = crate::tags::eq();
        let mut w = crate::tags::w_autoon();
        let mut t = crate::tags::crlf();
        r.append(&mut p);
        r.append(&mut e);
        r.append(&mut w);
        r.append(&mut t);
        proof {
            assert(r@ =~= self.spec_wire());
            assert(r@.subrange(r@.len() - 2, r@.len() as int) =~= crate::tags::spec_crlf());
        }
        r
    }

    /// Decodes the reply body: nothing to read.
    pub fn parse(&self, _resp: &[u8]) -> (r: Result<NoResponse, Error>)
        ensures
            r == Ok::<NoResponse, Error>(NoResponse),
    {
        Ok(NoResponse)
    }
}

/// `AT+LOWPOWER=AUTOOFF`: leaves deep power saving.
#[derive(Debug, Clone, Copy, PartialEq, Eq, Structural)]
pub struct LowPowerDeepSleepDisable {}

impl LowPowerDeepSleepDisable {
    /// The exact wire line.
    pub open spec fn spec_wire(&self) -> Seq<u8> {
        crate::tags::spec_at_open() + crate::tags::spec_p_lowpower() + crate::tags::spec_eq()
            + crate::tags::spec_w_autooff() + crate::tags::spec_crlf()
    }

    /// Largest possible encoding.
    pub fn max_len() -> (r: usize)
        ensures
            r == 21,
    {
        21
    }

    /// Encodes the command line.
    pub fn as_bytes(&self) -> (r: Vec<u8>)
        ensures
            r@ == self.spec_wire(),
            r@.len() <= 21,
            r@.len() >= 2 && r@.subrange(r@.len() - 2, r@.len() as int)
                == crate::tags::spec_crlf(),
    {
        let mut r = crate::tags::at_open();
        let mut p = crate::tags::p_lowpower();
        let mut e = crate::tags::eq();
        let mut w = crate::tags::w_autooff();
        let mut t = crate::tags::crlf();
        r.append(&mut p);
        r.append(&mut e);
        r.append(&mut w);
        r.append(&mut t);
        proof {
            assert(r@ =~= self.spec_wire());
            assert(r@.subrange(r@.len() - 2, r@.len() as int) =~= crate::tags::spec_crlf());
        }
        r
    }

    /// Decodes the reply body: nothing to read.
    pub fn parse(&self, _resp: &[u8]) -> (r: Result<NoResponse, Error>)
        ensures
            r == Ok::<NoResponse, Error>(NoResponse),
    {
        Ok(NoResponse)
    }
}

} // verus!
