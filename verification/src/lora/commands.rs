//! The LoRaWAN command set: identifiers, keys, mode, join, messaging,
//! data rate, power, class and counters.
//!
//! Every command knows the exact line it puts on the wire, a bound on
//! that line's length, and its reply budget where it differs from the
//! one-second default.  Every encoded line ends in `\r\n`.

use vstd::prelude::*;

use crate::bounded::{BoundedBytes, BoundedText};
use crate::hex::{be_bytes, dec_rep, hex_upper_spaced, le_bytes};
use crate::lora::responses::{
    LoraOtaaAutoJoinResponse, LoraOtaaJoinResponse, TxPowerForceSetResponse,
    UplinkDownlinkCounterGetResponse,
};
use crate::lora::types::LoraRegion;
use crate::Error;
use crate::NoResponse;

verus! {

/// Reads the ABP device address.
#[derive(Debug, Clone)]
pub struct AbpDevAddrGet {
    /// The subkey to query, `DevAddr`.
    pub dev_addr_text: BoundedText<14>,
}

impl AbpDevAddrGet {
    /// The exact wire line.
    pub open spec fn spec_wire(&self) -> Seq<u8> {
        crate::tags::spec_at_open()
            + crate::tags::spec_p_id()
            + crate::tags::spec_eq()
            + self.dev_addr_text@
            + crate::tags::spec_crlf()
    }

    /// Every bounded field holds within its capacity.
    pub open spec fn wf(&self) -> bool {
        self.dev_addr_text.wf()
    }

    /// Largest possible encoding.
    pub fn max_len() -> (r: usize)
        ensures
            r == 22,
    {
        22
    }

    /// Reply budget in milliseconds.
    pub fn timeout_ms(&self) -> (r: u32)
        ensures
            r == 1000,
    {
        1000
    }

    /// Encodes the command line.
    pub fn as_bytes(&self) -> (r: Vec<u8>)
        requires
            self.wf(),
        ensures
            r@ == self.spec_wire(),
            r@.len() <= 22,
            r@.len() >= 2 && r@.subrange(r@.len() - 2, r@.len() as int)
                == crate::tags::spec_crlf(),
    {
        let mut r = crate::tags::at_open();
        let mut x0 = crate::tags::p_id();
        r.append(&mut x0);
        let mut x1 = crate::tags::eq();
        r.append(&mut x1);
        let mut x2 = crate::hex::copy_bytes(self.dev_addr_text.as_bytes());
        r.append(&mut x2);
        let mut tt = crate::tags::crlf();
        r.append(&mut tt);
        proof {
            assert(r@ =~= self.spec_wire());
            assert(r@.subrange(r@.len() - 2, r@.len() as int)
                =~= crate::tags::spec_crlf());
        }
        r
    }
}

/// Sets the ABP device address.
#[derive(Debug, Clone)]
pub struct AbpDevAddSet {
    /// The subkey, `DevAddr`.
    pub dev_addr_text: BoundedText<14>,
    /// The device address.
    pub dev_addr: u32,
}

impl AbpDevAddSet {
    /// The exact wire line.
    pub open spec fn spec_wire(&self) -> Seq<u8> {
        crate::tags::spec_at_open()
            + crate::tags::spec_p_id()
            + crate::tags::spec_eq()
            + self.dev_addr_text@
            + crate::tags::spec_comma()
            + crate::hex::hex_rep_upper(self.dev_addr as nat)
            + crate::tags::spec_crlf()
    }

    /// Every bounded field holds within its capacity.
    pub open spec fn wf(&self) -> bool {
        self.dev_addr_text.wf()
    }

    /// Largest possible encoding.
    pub fn max_len() -> (r: usize)
        ensures
            r == 31,
    {
        31
    }

    /// Reply budget in milliseconds.
    pub fn timeout_ms(&self) -> (r: u32)
        ensures
            r == 1000,
    {
        1000
    }

    /// Encodes the command line.
    pub fn as_bytes(&self) -> (r: Vec<u8>)
        requires
            self.wf(),
        ensures
            r@ == self.spec_wire(),
            r@.len() <= 31,
            r@.len() >= 2 && r@.subrange(r@.len() - 2, r@.len() as int)
                == crate::tags::spec_crlf(),
    {
        let mut r = crate::tags::at_open();
        let mut x0 = crate::tags::p_id();
        r.append(&mut x0);
        let mut x1 = crate::tags::eq();
        r.append(&mut x1);
        let mut x2 = crate::hex::copy_bytes(self.dev_addr_text.as_bytes());
        r.append(&mut x2);
        let mut x3 = crate::tags::comma();
        r.append(&mut x3);
        let mut x4 = crate::hex::hex_u32_caps(self.dev_addr);
        r.append(&mut x4);
        let mut tt = crate::tags::crlf();
        r.append(&mut tt);
        proof {
            crate::hex::lemma_pow16_16();
            crate::hex::lemma_hex_rep_len(self.dev_addr as nat, 8);
            assert(r@ =~= self.spec_wire());
            assert(r@.subrange(r@.len() - 2, r@.len() as int)
                =~= crate::tags::spec_crlf());
        }
        r
    }
}

/// Reads the OTAA device EUI.
#[derive(Debug, Clone)]
pub struct DevEuiGet {
}

impl DevEuiGet {
    /// The exact wire line.
    pub open spec fn spec_wire(&self) -> Seq<u8> {
        crate::tags::spec_at_open()
            + crate::tags::spec_p_id_deveui()
            + crate::tags::spec_crlf()
    }

    /// Largest possible encoding.
    pub fn max_len() -> (r: usize)
        ensures
            r == 14,
    {
        14
    }

    /// Reply budget in milliseconds.
    pub fn timeout_ms(&self) -> (r: u32)
        ensures
            r == 1000,
    {
        1000
    }

    /// Encodes the command line.
    pub fn as_bytes(&self) -> (r: Vec<u8>)
        ensures
            r@ == self.spec_wire(),
            r@.len() <= 14,
            r@.len() >= 2 && r@.subrange(r@.len() - 2, r@.len() as int)
                == crate::tags::spec_crlf(),
    {
        let mut r = crate::tags::at_open();
        let mut x0 = crate::tags::p_id_deveui();
        r.append(&mut x0);
        let mut tt = crate::tags::crlf();
        r.append(&mut tt);
        proof {
            assert(r@ =~= self.spec_wire());
            assert(r@.subrange(r@.len() - 2, r@.len() as int)
                =~= crate::tags::spec_crlf());
        }
        r
    }
}

/// Sets the OTAA device EUI.
#[derive(Debug, Clone)]
pub struct DevEuiSet {
    /// The subkey, `DevEui`.
    pub dev_eui_text: BoundedText<12>,
    /// The 64-bit device EUI.
    pub dev_eui: u64,
}

impl DevEuiSet {
    /// The exact wire line.
    pub open spec fn spec_wire(&self) -> Seq<u8> {
        crate::tags::spec_at_open()
            + crate::tags::spec_p_id()
            + crate::tags::spec_eq()
            + self.dev_eui_text@
            + crate::tags::spec_comma()
            + hex_upper_spaced(be_bytes(self.dev_eui as nat, 8))
            + crate::tags::spec_crlf()
    }

    /// Every bounded field holds within its capacity.
    pub open spec fn wf(&self) -> bool {
        self.dev_eui_text.wf()
    }

    /// Largest possible encoding.
    pub fn max_len() -> (r: usize)
        ensures
            r == 44,
    {
        44
    }

    /// Reply budget in milliseconds.
    pub fn timeout_ms(&self) -> (r: u32)
        ensures
            r == 1000,
    {
        1000
    }

    /// Encodes the command line.
    pub fn as_bytes(&self) -> (r: Vec<u8>)
        requires
            self.wf(),
        ensures
            r@ == self.spec_wire(),
            r@.len() <= 44,
            r@.len() >= 2 && r@.subrange(r@.len() - 2, r@.len() as int)
                == crate::tags::spec_crlf(),
    {
        let mut r = crate::tags::at_open();
        let mut x0 = crate::tags::p_id();
        r.append(&mut x0);
        let mut x1 = crate::tags::eq();
        r.append(&mut x1);
        let mut x2 = crate::hex::copy_bytes(self.dev_eui_text.as_bytes());
        r.append(&mut x2);
        let mut x3 = crate::tags::comma();
        r.append(&mut x3);
        let b4 = crate::hex::u64_be_bytes(self.dev_eui);
        let mut x4 = crate::hex::hex_encode_upper_spaced(b4.as_slice());
        r.append(&mut x4);
        let mut tt = crate::tags::crlf();
        r.append(&mut tt);
        proof {
            crate::hex::lemma_base256_len(self.dev_eui as nat, 8);
            crate::hex::lemma_hex_upper_spaced_len(be_bytes(self.dev_eui as nat, 8));
            assert(r@ =~= self.spec_wire());
            assert(r@.subrange(r@.len() - 2, r@.len() as int)
                =~= crate::tags::spec_crlf());
        }
        r
    }
}

/// Reads the OTAA application EUI.
#[derive(Debug, Clone)]
pub struct AppEuiGet {
}

impl AppEuiGet {
    /// The exact wire line.
    pub open spec fn spec_wire(&self) -> Seq<u8> {
        crate::tags::spec_at_open()
            + crate::tags::spec_p_id_appeui()
            + crate::tags::spec_crlf()
    }

    /// Largest possible encoding.
    pub fn max_len() -> (r: usize)
        ensures
            r == 14,
    {
        14
    }

    /// Reply budget in milliseconds.
    pub fn timeout_ms(&self) -> (r: u32)
        ensures
            r == 1000,
    {
        1000
    }

    /// Encodes the command line.
    pub fn as_bytes(&self) -> (r: Vec<u8>)
        ensures
            r@ == self.spec_wire(),
            r@.len() <= 14,
            r@.len() >= 2 && r@.subrange(r@.len() - 2, r@.len() as int)
                == crate::tags::spec_crlf(),
    {
        let mut r = crate::tags::at_open();
        let mut x0 = crate::tags::p_id_appeui();
        r.append(&mut x0);
        let mut tt = crate::tags::crlf();
        r.append(&mut tt);
        proof {
            assert(r@ =~= self.spec_wire());
            assert(r@.subrange(r@.len() - 2, r@.len() as int)
                =~= crate::tags::spec_crlf());
        }
        r
    }
}

/// Sets the OTAA application EUI.
#[derive(Debug, Clone)]
pub struct AppEuiSet {
    /// The subkey, `AppEui`.
    pub app_eui_text: BoundedText<12>,
    /// The 64-bit application EUI.
    pub app_eui: u64,
}

impl AppEuiSet {
    /// The exact wire line.
    pub open spec fn spec_wire(&self) -> Seq<u8> {
        crate::tags::spec_at_open()
            + crate::tags::spec_p_id()
            + crate::tags::spec_eq()
            + self.app_eui_text@
            + crate::tags::spec_comma()
            + hex_upper_spaced(be_bytes(self.app_eui as nat, 8))
            + crate::tags::spec_crlf()
    }

    /// Every bounded field holds within its capacity.
    pub open spec fn wf(&self) -> bool {
        self.app_eui_text.wf()
    }

    /// Largest possible encoding.
    pub fn max_len() -> (r: usize)
        ensures
            r == 44,
    {
        44
    }

    /// Reply budget in milliseconds.
    pub fn timeout_ms(&self) -> (r: u32)
        ensures
            r == 1000,
    {
        1000
    }

    /// Encodes the command line.
    pub fn as_bytes(&self) -> (r: Vec<u8>)
        requires
            self.wf(),
        ensures
            r@ == self.spec_wire(),
            r@.len() <= 44,
            r@.len() >= 2 && r@.subrange(r@.len() - 2, r@.len() as int)
                == crate::tags::spec_crlf(),
    {
        let mut r = crate::tags::at_open();
        let mut x0 = crate::tags::p_id();
        r.append(&mut x0);
        let mut x1 = crate::tags::eq();
        r.append(&mut x1);
        let mut x2 = crate::hex::copy_bytes(self.app_eui_text.as_bytes());
        r.append(&mut x2);
        let mut x3 = crate::tags::comma();
        r.append(&mut x3);
        let b4 = crate::hex::u64_be_bytes(self.app_eui);
        let mut x4 = crate::hex::hex_encode_upper_spaced(b4.as_slice());
        r.append(&mut x4);
        let mut tt = crate::tags::crlf();
        r.append(&mut tt);
        proof {
            crate::hex::lemma_base256_len(self.app_eui as nat, 8);
            crate::hex::lemma_hex_upper_spaced_len(be_bytes(self.app_eui as nat, 8));
            assert(r@ =~= self.spec_wire());
            assert(r@.subrange(r@.len() - 2, r@.len() as int)
                =~= crate::tags::spec_crlf());
        }
        r
    }
}

/// Sends an unconfirmed text message.
#[derive(Debug, Clone)]
pub struct MessageStringUnconfirmed {
    /// The message text.
    pub message: BoundedText<128>,
}

impl MessageStringUnconfirmed {
    /// The exact wire line.
    pub open spec fn spec_wire(&self) -> Seq<u8> {
        crate::tags::spec_at_open()
            + crate::tags::spec_p_msg()
            + crate::tags::spec_eq()
            + self.message@
            + crate::tags::spec_crlf()
    }

    /// Every bounded field holds within its capacity.
    pub open spec fn wf(&self) -> bool {
        self.message.wf()
    }

    /// Largest possible encoding.
    pub fn max_len() -> (r: usize)
        ensures
            r == 137,
    {
        137
    }

    /// Reply budget in milliseconds.
    pub fn timeout_ms(&self) -> (r: u32)
        ensures
            r == 1000,
    {
        1000
    }

    /// Encodes the command line.
    pub fn as_bytes(&self) -> (r: Vec<u8>)
        requires
            self.wf(),
        ensures
            r@ == self.spec_wire(),
            r@.len() <= 137,
            r@.len() >= 2 && r@.subrange(r@.len() - 2, r@.len() as int)
                == crate::tags::spec_crlf(),
    {
        let mut r = crate::tags::at_open();
        let mut x0 = crate::tags::p_msg();
        r.append(&mut x0);
        let mut x1 = crate::tags::eq();
        r.append(&mut x1);
        let mut x2 = crate::hex::copy_bytes(self.message.as_bytes());
        r.append(&mut x2);
        let mut tt = crate::tags::crlf();
        r.append(&mut tt);
        proof {
            assert(r@ =~= self.spec_wire());
            assert(r@.subrange(r@.len() - 2, r@.len() as int)
                =~= crate::tags::spec_crlf());
        }
        r
    }
}

/// Sends an empty message to learn the link status.
#[derive(Debug, Clone)]
pub struct LinkCheck {
}

impl LinkCheck {
    /// The exact wire line.
    pub open spec fn spec_wire(&self) -> Seq<u8> {
        crate::tags::spec_at_open()
            + crate::tags::spec_p_msg()
            + crate::tags::spec_crlf()
    }

    /// Largest possible encoding.
    pub fn max_len() -> (r: usize)
        ensures
            r == 8,
    {
        8
    }

    /// Reply budget in milliseconds.
    pub fn timeout_ms(&self) -> (r: u32)
        ensures
            r == 1000,
    {
        1000
    }

    /// Encodes the command line.
    pub fn as_bytes(&self) -> (r: Vec<u8>)
        ensures
            r@ == self.spec_wire(),
            r@.len() <= 8,
            r@.len() >= 2 && r@.subrange(r@.len() - 2, r@.len() as int)
                == crate::tags::spec_crlf(),
    {
        let mut r = crate::tags::at_open();
        let mut x0 = crate::tags::p_msg();
        r.append(&mut x0);
        let mut tt = crate::tags::crlf();
        r.append(&mut tt);
        proof {
            assert(r@ =~= self.spec_wire());
            assert(r@.subrange(r@.len() - 2, r@.len() as int)
                =~= crate::tags::spec_crlf());
        }
        r
    }
}

/// Sends a text message the server must confirm.
#[derive(Debug, Clone)]
pub struct MessageStringConfirmed {
    /// The message text.
    pub message: BoundedText<128>,
}

impl MessageStringConfirmed {
    /// The exact wire line.
    pub open spec fn spec_wire(&self) -> Seq<u8> {
        crate::tags::spec_at_open()
            + crate::tags::spec_p_cmsg()
            + crate::tags::spec_eq()
            + self.message@
            + crate::tags::spec_crlf()
    }

    /// Every bounded field holds within its capacity.
    pub open spec fn wf(&self) -> bool {
        self.message.wf()
    }

    /// Largest possible encoding.
    pub fn max_len() -> (r: usize)
        ensures
            r == 138,
    {
        138
    }

    /// Reply budget in milliseconds.
    pub fn timeout_ms(&self) -> (r: u32)
        ensures
            r == 1000,
    {
        1000
    }

    /// Encodes the command line.
    pub fn as_bytes(&self) -> (r: Vec<u8>)
        requires
            self.wf(),
        ensures
            r@ == self.spec_wire(),
            r@.len() <= 138,
            r@.len() >= 2 && r@.subrange(r@.len() - 2, r@.len() as int)
                == crate::tags::spec_crlf(),
    {
        let mut r = crate::tags::at_open();
        let mut x0 = crate::tags::p_cmsg();
        r.append(&mut x0);
        let mut x1 = crate::tags::eq();
        r.append(&mut x1);
        let mut x2 = crate::hex::copy_bytes(self.message.as_bytes());
        r.append(&mut x2);
        let mut tt = crate::tags::crlf();
        r.append(&mut tt);
        proof {
            assert(r@ =~= self.spec_wire());
            assert(r@.subrange(r@.len() - 2, r@.len() as int)
                =~= crate::tags::spec_crlf());
        }
        r
    }
}

/// Sends an unconfirmed hex payload.
#[derive(Debug, Clone)]
pub struct MessageHexUnconfirmed {
    /// The payload bytes.
    pub message: BoundedBytes<242>,
}

impl MessageHexUnconfirmed {
    /// The exact wire line.
    pub open spec fn spec_wire(&self) -> Seq<u8> {
        crate::tags::spec_at_open()
            + crate::tags::spec_p_msghex()
            + crate::tags::spec_eq()
            + crate::hex::hex_lower_plain(crate::hex::trimmed_payload(self.message@))
            + crate::tags::spec_crlf()
    }

    /// Every bounded field holds within its capacity.
    pub open spec fn wf(&self) -> bool {
        self.message.wf()
    }

    /// Largest possible encoding.
    pub fn max_len() -> (r: usize)
        ensures
            r == 506,
    {
        506
    }

    /// Reply budget in milliseconds.
    pub fn timeout_ms(&self) -> (r: u32)
        ensures
            r == 1000,
    {
        1000
    }

    /// Encodes the command line.
    pub fn as_bytes(&self) -> (r: Vec<u8>)
        requires
            self.wf(),
        ensures
            r@ == self.spec_wire(),
            r@.len() <= 506,
            r@.len() >= 2 && r@.subrange(r@.len() - 2, r@.len() as int)
                == crate::tags::spec_crlf(),
    {
        let mut r = crate::tags::at_open();
        let mut x0 = crate::tags::p_msghex();
        r.append(&mut x0);
        let mut x1 = crate::tags::eq();
        r.append(&mut x1);
        let mut x2 = crate::hex::payload_hex(self.message.as_bytes(), false);
        r.append(&mut x2);
        let mut tt = crate::tags::crlf();
        r.append(&mut tt);
        proof {
            assert(r@ =~= self.spec_wire());
            assert(r@.subrange(r@.len() - 2, r@.len() as int)
                =~= crate::tags::spec_crlf());
        }
        r
    }
}

/// Sends an unconfirmed empty payload.
#[derive(Debug, Clone)]
pub struct MessageHexUnconfirmedEmpty {
}

impl MessageHexUnconfirmedEmpty {
    /// The exact wire line.
    pub open spec fn spec_wire(&self) -> Seq<u8> {
        crate::tags::spec_at_open()
            + crate::tags::spec_p_msghex()
            + crate::tags::spec_crlf()
    }

    /// Largest possible encoding.
    pub fn max_len() -> (r: usize)
        ensures
            r == 11,
    {
        11
    }

    /// Reply budget in milliseconds.
    pub fn timeout_ms(&self) -> (r: u32)
        ensures
            r == 1000,
    {
        1000
    }

    /// Encodes the command line.
    pub fn as_bytes(&self) -> (r: Vec<u8>)
        ensures
            r@ == self.spec_wire(),
            r@.len() <= 11,
            r@.len() >= 2 && r@.subrange(r@.len() - 2, r@.len() as int)
                == crate::tags::spec_crlf(),
    {
        let mut r = crate::tags::at_open();
        let mut x0 = crate::tags::p_msghex();
        r.append(&mut x0);
        let mut tt = crate::tags::crlf();
        r.append(&mut tt);
        proof {
            assert(r@ =~= self.spec_wire());
            assert(r@.subrange(r@.len() - 2, r@.len() as int)
                =~= crate::tags::spec_crlf());
        }
        r
    }
}

/// Sends a hex payload the server must confirm.
#[derive(Debug, Clone)]
pub struct MessageHexConfirmed {
    /// The payload bytes.
    pub message: BoundedBytes<242>,
}

impl MessageHexConfirmed {
    /// The exact wire line.
    pub open spec fn spec_wire(&self) -> Seq<u8> {
        crate::tags::spec_at_open()
            + crate::tags::spec_p_cmsghex()
            + crate::tags::spec_eq()
            + crate::hex::hex_lower_plain(crate::hex::trimmed_payload(self.message@))
            + crate::tags::spec_crlf()
    }

    /// Every bounded field holds within its capacity.
    pub open spec fn wf(&self) -> bool {
        self.message.wf()
    }

    /// Largest possible encoding.
    pub fn max_len() -> (r: usize)
        ensures
            r == 506,
    {
        506
    }

    /// Reply budget in milliseconds.
    pub fn timeout_ms(&self) -> (r: u32)
        ensures
            r == 1000,
    {
        1000
    }

    /// Encodes the command line.
    pub fn as_bytes(&self) -> (r: Vec<u8>)
        requires
            self.wf(),
        ensures
            r@ == self.spec_wire(),
            r@.len() <= 506,
            r@.len() >= 2 && r@.subrange(r@.len() - 2, r@.len() as int)
                == crate::tags::spec_crlf(),
    {
        let mut r = crate::tags::at_open();
        let mut x0 = crate::tags::p_cmsghex();
        r.append(&mut x0);
        let mut x1 = crate::tags::eq();
        r.append(&mut x1);
        let mut x2 = crate::hex::payload_hex(self.message.as_bytes(), false);
        r.append(&mut x2);
        let mut tt = crate::tags::crlf();
        r.append(&mut tt);
        proof {
            assert(r@ =~= self.spec_wire());
            assert(r@.subrange(r@.len() - 2, r@.len() as int)
                =~= crate::tags::spec_crlf());
        }
        r
    }
}

/// Sends a confirmed empty payload.
#[derive(Debug, Clone)]
pub struct MessageHexConfirmedEmpty {
}

impl MessageHexConfirmedEmpty {
    /// The exact wire line.
    pub open spec fn spec_wire(&self) -> Seq<u8> {
        crate::tags::spec_at_open()
            + crate::tags::spec_p_cmsghex()
            + crate::tags::spec_crlf()
    }

    /// Largest possible encoding.
    pub fn max_len() -> (r: usize)
        ensures
            r == 12,
    {
        12
    }

    /// Reply budget in milliseconds.
    pub fn timeout_ms(&self) -> (r: u32)
        ensures
            r == 1000,
    {
        1000
    }

    /// Encodes the command line.
    pub fn as_bytes(&self) -> (r: Vec<u8>)
        ensures
            r@ == self.spec_wire(),
            r@.len() <= 12,
            r@.len() >= 2 && r@.subrange(r@.len() - 2, r@.len() as int)
                == crate::tags::spec_crlf(),
    {
        let mut r = crate::tags::at_open();
        let mut x0 = crate::tags::p_cmsghex();
        r.append(&mut x0);
        let mut tt = crate::tags::crlf();
        r.append(&mut tt);
        proof {
            assert(r@ =~= self.spec_wire());
            assert(r@.subrange(r@.len() - 2, r@.len() as int)
                =~= crate::tags::spec_crlf());
        }
        r
    }
}

/// Sends a proprietary text frame.
#[derive(Debug, Clone)]
pub struct ProprietyMessageString {
    /// The message text.
    pub message: BoundedText<128>,
}

impl ProprietyMessageString {
    /// The exact wire line.
    pub open spec fn spec_wire(&self) -> Seq<u8> {
        crate::tags::spec_at_open()
            + crate::tags::spec_p_pmsg()
            + crate::tags::spec_eq()
            + self.message@
            + crate::tags::spec_crlf()
    }

    /// Every bounded field holds within its capacity.
    pub open spec fn wf(&self) -> bool {
        self.message.wf()
    }

    /// Largest possible encoding.
    pub fn max_len() -> (r: usize)
        ensures
            r == 138,
    {
        138
    }

    /// Reply budget in milliseconds.
    pub fn timeout_ms(&self) -> (r: u32)
        ensures
            r == 1000,
    {
        1000
    }

    /// Encodes the command line.
    pub fn as_bytes(&self) -> (r: Vec<u8>)
        requires
            self.wf(),
        ensures
            r@ == self.spec_wire(),
            r@.len() <= 138,
            r@.len() >= 2 && r@.subrange(r@.len() - 2, r@.len() as int)
                == crate::tags::spec_crlf(),
    {
        let mut r = crate::tags::at_open();
        let mut x0 = crate::tags::p_pmsg();
        r.append(&mut x0);
        let mut x1 = crate::tags::eq();
        r.append(&mut x1);
        let mut x2 = crate::hex::copy_bytes(self.message.as_bytes());
        r.append(&mut x2);
        let mut tt = crate::tags::crlf();
        r.append(&mut tt);
        proof {
            assert(r@ =~= self.spec_wire());
            assert(r@.subrange(r@.len() - 2, r@.len() as int)
                =~= crate::tags::spec_crlf());
        }
        r
    }
}

/// Sends a proprietary hex frame.
#[derive(Debug, Clone)]
pub struct ProprietyMessageHex {
    /// The payload bytes.
    pub message: BoundedBytes<256>,
}

impl ProprietyMessageHex {
    /// The exact wire line.
    pub open spec fn spec_wire(&self) -> Seq<u8> {
        crate::tags::spec_at_open()
            + crate::tags::spec_p_pmsghex()
            + crate::tags::spec_eq()
            + crate::hex::hex_upper_plain(crate::hex::trimmed_payload(self.message@))
            + crate::tags::spec_crlf()
    }

    /// Every bounded field holds within its capacity.
    pub open spec fn wf(&self) -> bool {
        self.message.wf()
    }

    /// Largest possible encoding.
    pub fn max_len() -> (r: usize)
        ensures
            r == 527,
    {
        527
    }

    /// Reply budget in milliseconds.
    pub fn timeout_ms(&self) -> (r: u32)
        ensures
            r == 1000,
    {
        1000
    }

    /// Encodes the command line.
    pub fn as_bytes(&self) -> (r: Vec<u8>)
        requires
            self.wf(),
        ensures
            r@ == self.spec_wire(),
            r@.len() <= 527,
            r@.len() >= 2 && r@.subrange(r@.len() - 2, r@.len() as int)
                == crate::tags::spec_crlf(),
    {
        let mut r = crate::tags::at_open();
        let mut x0 = crate::tags::p_pmsghex();
        r.append(&mut x0);
        let mut x1 = crate::tags::eq();
        r.append(&mut x1);
        let mut x2 = crate::hex::payload_hex(self.message.as_bytes(), true);
        r.append(&mut x2);
        let mut tt = crate::tags::crlf();
        r.append(&mut tt);
        proof {
            assert(r@ =~= self.spec_wire());
            assert(r@.subrange(r@.len() - 2, r@.len() as int)
                =~= crate::tags::spec_crlf());
        }
        r
    }
}

/// Reads the port used by the message commands.
#[derive(Debug, Clone)]
pub struct LoraPortGet {
}

impl LoraPortGet {
    /// The exact wire line.
    pub open spec fn spec_wire(&self) -> Seq<u8> {
        crate::tags::spec_at_open()
            + crate::tags::spec_p_port_q()
            + crate::tags::spec_crlf()
    }

    /// Largest possible encoding.
    pub fn max_len() -> (r: usize)
        ensures
            r == 11,
    {
        11
    }

    /// Reply budget in milliseconds.
    pub fn timeout_ms(&self) -> (r: u32)
        ensures
            r == 1000,
    {
        1000
    }

    /// Encodes the command line.
    pub fn as_bytes(&self) -> (r: Vec<u8>)
        ensures
            r@ == self.spec_wire(),
            r@.len() <= 11,
            r@.len() >= 2 && r@.subrange(r@.len() - 2, r@.len() as int)
                == crate::tags::spec_crlf(),
    {
        let mut r = crate::tags::at_open();
        let mut x0 = crate::tags::p_port_q();
        r.append(&mut x0);
        let mut tt = crate::tags::crlf();
        r.append(&mut tt);
        proof {
            assert(r@ =~= self.spec_wire());
            assert(r@.subrange(r@.len() - 2, r@.len() as int)
                =~= crate::tags::spec_crlf());
        }
        r
    }
}

/// Sets the port used by the message commands, 1 to 255.
#[derive(Debug, Clone)]
pub struct LoraPortSet {
    /// The port to use.
    pub port: u8,
}

impl LoraPortSet {
    /// The exact wire line.
    pub open spec fn spec_wire(&self) -> Seq<u8> {
        crate::tags::spec_at_open()
            + crate::tags::spec_p_port()
            + crate::tags::spec_eq()
            + dec_rep(self.port as nat)
            + crate::tags::spec_crlf()
    }

    /// Largest possible encoding.
    pub fn max_len() -> (r: usize)
        ensures
            r == 13,
    {
        13
    }

    /// Reply budget in milliseconds.
    pub fn timeout_ms(&self) -> (r: u32)
        ensures
            r == 1000,
    {
        1000
    }

    /// Encodes the command line.
    pub fn as_bytes(&self) -> (r: Vec<u8>)
        ensures
            r@ == self.spec_wire(),
            r@.len() <= 13,
            r@.len() >= 2 && r@.subrange(r@.len() - 2, r@.len() as int)
                == crate::tags::spec_crlf(),
    {
        let mut r = crate::tags::at_open();
        let mut x0 = crate::tags::p_port();
        r.append(&mut x0);
        let mut x1 = crate::tags::eq();
        r.append(&mut x1);
        crate::hex::push_dec_u32(&mut r, self.port as u32);
        let mut tt = crate::tags::crlf();
        r.append(&mut tt);
        proof {
            crate::hex::lemma_pow10_10();
            crate::hex::lemma_dec_rep_len(self.port as nat, 3);
            assert(r@ =~= self.spec_wire());
            assert(r@.subrange(r@.len() - 2, r@.len() as int)
                =~= crate::tags::spec_crlf());
        }
        r
    }
}

/// Reads the adaptive data rate switch.
#[derive(Debug, Clone)]
pub struct LoraAdrGet {
}

impl LoraAdrGet {
    /// The exact wire line.
    pub open spec fn spec_wire(&self) -> Seq<u8> {
        crate::tags::spec_at_open()
            + crate::tags::spec_p_adr_q()
            + crate::tags::spec_crlf()
    }

    /// Largest possible encoding.
    pub fn max_len() -> (r: usize)
        ensures
            r == 10,
    {
        10
    }

    /// Reply budget in milliseconds.
    pub fn timeout_ms(&self) -> (r: u32)
        ensures
            r == 1000,
    {
        1000
    }

    /// Encodes the command line.
    pub fn as_bytes(&self) -> (r: Vec<u8>)
        ensures
            r@ == self.spec_wire(),
            r@.len() <= 10,
            r@.len() >= 2 && r@.subrange(r@.len() - 2, r@.len() as int)
                == crate::tags::spec_crlf(),
    {
        let mut r = crate::tags::at_open();
        let mut x0 = crate::tags::p_adr_q();
        r.append(&mut x0);
        let mut tt = crate::tags::crlf();
        r.append(&mut tt);
        proof {
            assert(r@ =~= self.spec_wire());
            assert(r@.subrange(r@.len() - 2, r@.len() as int)
                =~= crate::tags::spec_crlf());
        }
        r
    }
}

/// Switches adaptive data rate on or off.
#[derive(Debug, Clone)]
pub struct LoraAdrSet {
    /// `ON` or `OFF`.
    pub on: BoundedText<6>,
}

impl LoraAdrSet {
    /// The exact wire line.
    pub open spec fn spec_wire(&self) -> Seq<u8> {
        crate::tags::spec_at_open()
            + crate::tags::spec_p_adr()
            + crate::tags::spec_eq()
            + self.on@
            + crate::tags::spec_crlf()
    }

    /// Every bounded field holds within its capacity.
    pub open spec fn wf(&self) -> bool {
        self.on.wf()
    }

    /// Largest possible encoding.
    pub fn max_len() -> (r: usize)
        ensures
            r == 15,
    {
        15
    }

    /// Reply budget in milliseconds.
    pub fn timeout_ms(&self) -> (r: u32)
        ensures
            r == 1000,
    {
        1000
    }

    /// Encodes the command line.
    pub fn as_bytes(&self) -> (r: Vec<u8>)
        requires
            self.wf(),
        ensures
            r@ == self.spec_wire(),
            r@.len() <= 15,
            r@.len() >= 2 && r@.subrange(r@.len() - 2, r@.len() as int)
                == crate::tags::spec_crlf(),
    {
        let mut r = crate::tags::at_open();
        let mut x0 = crate::tags::p_adr();
        r.append(&mut x0);
        let mut x1 = crate::tags::eq();
        r.append(&mut x1);
        let mut x2 = crate::hex::copy_bytes(self.on.as_bytes());
        r.append(&mut x2);
        let mut tt = crate::tags::crlf();
        r.append(&mut tt);
        proof {
            assert(r@ =~= self.spec_wire());
            assert(r@.subrange(r@.len() - 2, r@.len() as int)
                =~= crate::tags::spec_crlf());
        }
        r
    }
}

/// Reads the data rate.
#[derive(Debug, Clone)]
pub struct LoraDrGet {
}

impl LoraDrGet {
    /// The exact wire line.
    pub open spec fn spec_wire(&self) -> Seq<u8> {
        crate::tags::spec_at_open()
            + crate::tags::spec_p_dr()
            + crate::tags::spec_crlf()
    }

    /// Largest possible encoding.
    pub fn max_len() -> (r: usize)
        ensures
            r == 7,
    {
        7
    }

    /// Reply budget in milliseconds.
    pub fn timeout_ms(&self) -> (r: u32)
        ensures
            r == 1000,
    {
        1000
    }

    /// Encodes the command line.
    pub fn as_bytes(&self) -> (r: Vec<u8>)
        ensures
            r@ == self.spec_wire(),
            r@.len() <= 7,
            r@.len() >= 2 && r@.subrange(r@.len() - 2, r@.len() as int)
                == crate::tags::spec_crlf(),
    {
        let mut r = crate::tags::at_open();
        let mut x0 = crate::tags::p_dr();
        r.append(&mut x0);
        let mut tt = crate::tags::crlf();
        r.append(&mut tt);
        proof {
            assert(r@ =~= self.spec_wire());
            assert(r@.subrange(r@.len() - 2, r@.len() as int)
                =~= crate::tags::spec_crlf());
        }
        r
    }
}

/// Sets the data rate, `DR0` to `DR15`.
#[derive(Debug, Clone)]
pub struct LoraDrSet {
    /// The data rate word.
    pub data_rate: BoundedText<8>,
}

impl LoraDrSet {
    /// The exact wire line.
    pub open spec fn spec_wire(&self) -> Seq<u8> {
        crate::tags::spec_at_open()
            + crate::tags::spec_p_dr()
            + crate::tags::spec_eq()
            + self.data_rate@
            + crate::tags::spec_crlf()
    }

    /// Every bounded field holds within its capacity.
    pub open spec fn wf(&self) -> bool {
        self.data_rate.wf()
    }

    /// Largest possible encoding.
    pub fn max_len() -> (r: usize)
        ensures
            r == 16,
    {
        16
    }

    /// Reply budget in milliseconds.
    pub fn timeout_ms(&self) -> (r: u32)
        ensures
            r == 1000,
    {
        1000
    }

    /// Encodes the command line.
    pub fn as_bytes(&self) -> (r: Vec<u8>)
        requires
            self.wf(),
        ensures
            r@ == self.spec_wire(),
            r@.len() <= 16,
            r@.len() >= 2 && r@.subrange(r@.len() - 2, r@.len() as int)
                == crate::tags::spec_crlf(),
    {
        let mut r = crate::tags::at_open();
        let mut x0 = crate::tags::p_dr();
        r.append(&mut x0);
        let mut x1 = crate::tags::eq();
        r.append(&mut x1);
        let mut x2 = crate::hex::copy_bytes(self.data_rate.as_bytes());
        r.append(&mut x2);
        let mut tt = crate::tags::crlf();
        r.append(&mut tt);
        proof {
            assert(r@ =~= self.spec_wire());
            assert(r@.subrange(r@.len() - 2, r@.len() as int)
                =~= crate::tags::spec_crlf());
        }
        r
    }
}

/// Reads the data rate scheme.
#[derive(Debug, Clone)]
pub struct DataRateSchemeGet {
}

impl DataRateSchemeGet {
    /// The exact wire line.
    pub open spec fn spec_wire(&self) -> Seq<u8> {
        crate::tags::spec_at_open()
            + crate::tags::spec_p_dr_scheme()
            + crate::tags::spec_crlf()
    }

    /// Largest possible encoding.
    pub fn max_len() -> (r: usize)
        ensures
            r == 14,
    {
        14
    }

    /// Reply budget in milliseconds.
    pub fn timeout_ms(&self) -> (r: u32)
        ensures
            r == 1000,
    {
        1000
    }

    /// Encodes the command line.
    pub fn as_bytes(&self) -> (r: Vec<u8>)
        ensures
            r@ == self.spec_wire(),
            r@.len() <= 14,
            r@.len() >= 2 && r@.subrange(r@.len() - 2, r@.len() as int)
                == crate::tags::spec_crlf(),
    {
        let mut r = crate::tags::at_open();
        let mut x0 = crate::tags::p_dr_scheme();
        r.append(&mut x0);
        let mut tt = crate::tags::crlf();
        r.append(&mut tt);
        proof {
            assert(r@ =~= self.spec_wire());
            assert(r@.subrange(r@.len() - 2, r@.len() as int)
                =~= crate::tags::spec_crlf());
        }
        r
    }
}

/// Sets the data rate scheme to a region's plan.
#[derive(Debug, Clone)]
pub struct DataRateSchemeSet {
    /// The region word.
    pub scheme: BoundedText<24>,
}

impl DataRateSchemeSet {
    /// The exact wire line.
    pub open spec fn spec_wire(&self) -> Seq<u8> {
        crate::tags::spec_at_open()
            + crate::tags::spec_p_dr()
            + crate::tags::spec_eq()
            + self.scheme@
            + crate::tags::spec_crlf()
    }

    /// Every bounded field holds within its capacity.
    pub open spec fn wf(&self) -> bool {
        self.scheme.wf()
    }

    /// Largest possible encoding.
    pub fn max_len() -> (r: usize)
        ensures
            r == 32,
    {
        32
    }

    /// Reply budget in milliseconds.
    pub fn timeout_ms(&self) -> (r: u32)
        ensures
            r == 1000,
    {
        1000
    }

    /// Encodes the command line.
    pub fn as_bytes(&self) -> (r: Vec<u8>)
        requires
            self.wf(),
        ensures
            r@ == self.spec_wire(),
            r@.len() <= 32,
            r@.len() >= 2 && r@.subrange(r@.len() - 2, r@.len() as int)
                == crate::tags::spec_crlf(),
    {
        let mut r = crate::tags::at_open();
        let mut x0 = crate::tags::p_dr();
        r.append(&mut x0);
        let mut x1 = crate::tags::eq();
        r.append(&mut x1);
        let mut x2 = crate::hex::copy_bytes(self.scheme.as_bytes());
        r.append(&mut x2);
        let mut tt = crate::tags::crlf();
        r.append(&mut tt);
        proof {
            assert(r@ =~= self.spec_wire());
            assert(r@.subrange(r@.len() - 2, r@.len() as int)
                =~= crate::tags::spec_crlf());
        }
        r
    }
}

/// Forces the transmit power in dBm.
#[derive(Debug, Clone)]
pub struct TxPowerForceSet {
    /// The power to force, dBm.
    pub db_m: u8,
}

impl TxPowerForceSet {
    /// The exact wire line.
    pub open spec fn spec_wire(&self) -> Seq<u8> {
        crate::tags::spec_at_open()
            + crate::tags::spec_p_power()
            + crate::tags::spec_eq()
            + dec_rep(self.db_m as nat)
            + crate::tags::spec_w_force_arg()
            + crate::tags::spec_crlf()
    }

    /// Largest possible encoding.
    pub fn max_len() -> (r: usize)
        ensures
            r == 22,
    {
        22
    }

    /// Reply budget in milliseconds.
    pub fn timeout_ms(&self) -> (r: u32)
        ensures
            r == 30000,
    {
        30000
    }

    /// Encodes the command line.
    pub fn as_bytes(&self) -> (r: Vec<u8>)
        ensures
            r@ == self.spec_wire(),
            r@.len() <= 22,
            r@.len() >= 2 && r@.subrange(r@.len() - 2, r@.len() as int)
                == crate::tags::spec_crlf(),
    {
        let mut r = crate::tags::at_open();
        let mut x0 = crate::tags::p_power();
        r.append(&mut x0);
        let mut x1 = crate::tags::eq();
        r.append(&mut x1);
        crate::hex::push_dec_u32(&mut r, self.db_m as u32);
        let mut x3 = crate::tags::w_force_arg();
        r.append(&mut x3);
        let mut tt = crate::tags::crlf();
        r.append(&mut tt);
        proof {
            crate::hex::lemma_pow10_10();
            crate::hex::lemma_dec_rep_len(self.db_m as nat, 3);
            assert(r@ =~= self.spec_wire());
            assert(r@.subrange(r@.len() - 2, r@.len() as int)
                =~= crate::tags::spec_crlf());
        }
        r
    }
}

/// Reads the transmit power table.
#[derive(Debug, Clone)]
pub struct TxPowerTableGet {
    /// The subkey, `TABLE`.
    pub table_txt: BoundedText<10>,
}

impl TxPowerTableGet {
    /// The exact wire line.
    pub open spec fn spec_wire(&self) -> Seq<u8> {
        crate::tags::spec_at_open()
            + crate::tags::spec_p_power()
            + crate::tags::spec_eq()
            + self.table_txt@
            + crate::tags::spec_crlf()
    }

    /// Every bounded field holds within its capacity.
    pub open spec fn wf(&self) -> bool {
        self.table_txt.wf()
    }

    /// Largest possible encoding.
    pub fn max_len() -> (r: usize)
        ensures
            r == 21,
    {
        21
    }

    /// Reply budget in milliseconds.
    pub fn timeout_ms(&self) -> (r: u32)
        ensures
            r == 1000,
    {
        1000
    }

    /// Encodes the command line.
    pub fn as_bytes(&self) -> (r: Vec<u8>)
        requires
            self.wf(),
        ensures
            r@ == self.spec_wire(),
            r@.len() <= 21,
            r@.len() >= 2 && r@.subrange(r@.len() - 2, r@.len() as int)
                == crate::tags::spec_crlf(),
    {
        let mut r = crate::tags::at_open();
        let mut x0 = crate::tags::p_power();
        r.append(&mut x0);
        let mut x1 = crate::tags::eq();
        r.append(&mut x1);
        let mut x2 = crate::hex::copy_bytes(self.table_txt.as_bytes());
        r.append(&mut x2);
        let mut tt = crate::tags::crlf();
        r.append(&mut tt);
        proof {
            assert(r@ =~= self.spec_wire());
            assert(r@.subrange(r@.len() - 2, r@.len() as int)
                =~= crate::tags::spec_crlf());
        }
        r
    }
}

/// Reads the repeat count for unconfirmed messages.
#[derive(Debug, Clone)]
pub struct RepeatGet {
}

impl RepeatGet {
    /// The exact wire line.
    pub open spec fn spec_wire(&self) -> Seq<u8> {
        crate::tags::spec_at_open()
            + crate::tags::spec_p_rept_q()
            + crate::tags::spec_crlf()
    }

    /// Largest possible encoding.
    pub fn max_len() -> (r: usize)
        ensures
            r == 11,
    {
        11
    }

    /// Reply budget in milliseconds.
    pub fn timeout_ms(&self) -> (r: u32)
        ensures
            r == 1000,
    {
        1000
    }

    /// Encodes the command line.
    pub fn as_bytes(&self) -> (r: Vec<u8>)
        ensures
            r@ == self.spec_wire(),
            r@.len() <= 11,
            r@.len() >= 2 && r@.subrange(r@.len() - 2, r@.len() as int)
                == crate::tags::spec_crlf(),
    {
        let mut r = crate::tags::at_open();
        let mut x0 = crate::tags::p_rept_q();
        r.append(&mut x0);
        let mut tt = crate::tags::crlf();
        r.append(&mut tt);
        proof {
            assert(r@ =~= self.spec_wire());
            assert(r@.subrange(r@.len() - 2, r@.len() as int)
                =~= crate::tags::spec_crlf());
        }
        r
    }
}

/// Sets the repeat count for unconfirmed messages.
#[derive(Debug, Clone)]
pub struct RepeatSet {
    /// The repeat count.
    pub repeat: u8,
}

impl RepeatSet {
    /// The exact wire line.
    pub open spec fn spec_wire(&self) -> Seq<u8> {
        crate::tags::spec_at_open()
            + crate::tags::spec_p_rept()
            + crate::tags::spec_eq()
            + dec_rep(self.repeat as nat)
            + crate::tags::spec_crlf()
    }

    /// Largest possible encoding.
    pub fn max_len() -> (r: usize)
        ensures
            r == 13,
    {
        13
    }

    /// Reply budget in milliseconds.
    pub fn timeout_ms(&self) -> (r: u32)
        ensures
            r == 1000,
    {
        1000
    }

    /// Encodes the command line.
    pub fn as_bytes(&self) -> (r: Vec<u8>)
        ensures
            r@ == self.spec_wire(),
            r@.len() <= 13,
            r@.len() >= 2 && r@.subrange(r@.len() - 2, r@.len() as int)
                == crate::tags::spec_crlf(),
    {
        let mut r = crate::tags::at_open();
        let mut x0 = crate::tags::p_rept();
        r.append(&mut x0);
        let mut x1 = crate::tags::eq();
        r.append(&mut x1);
        crate::hex::push_dec_u32(&mut r, self.repeat as u32);
        let mut tt = crate::tags::crlf();
        r.append(&mut tt);
        proof {
            crate::hex::lemma_pow10_10();
            crate::hex::lemma_dec_rep_len(self.repeat as nat, 3);
            assert(r@ =~= self.spec_wire());
            assert(r@.subrange(r@.len() - 2, r@.len() as int)
                =~= crate::tags::spec_crlf());
        }
        r
    }
}

/// Reads the retry count for confirmed messages.
#[derive(Debug, Clone)]
pub struct RetryGet {
}

impl RetryGet {
    /// The exact wire line.
    pub open spec fn spec_wire(&self) -> Seq<u8> {
        crate::tags::spec_at_open()
            + crate::tags::spec_p_retry_q()
            + crate::tags::spec_crlf()
    }

    /// Largest possible encoding.
    pub fn max_len() -> (r: usize)
        ensures
            r == 12,
    {
        12
    }

    /// Reply budget in milliseconds.
    pub fn timeout_ms(&self) -> (r: u32)
        ensures
            r == 1000,
    {
        1000
    }

    /// Encodes the command line.
    pub fn as_bytes(&self) -> (r: Vec<u8>)
        ensures
            r@ == self.spec_wire(),
            r@.len() <= 12,
            r@.len() >= 2 && r@.subrange(r@.len() - 2, r@.len() as int)
                == crate::tags::spec_crlf(),
    {
        let mut r = crate::tags::at_open();
        let mut x0 = crate::tags::p_retry_q();
        r.append(&mut x0);
        let mut tt = crate::tags::crlf();
        r.append(&mut tt);
        proof {
            assert(r@ =~= self.spec_wire());
            assert(r@.subrange(r@.len() - 2, r@.len() as int)
                =~= crate::tags::spec_crlf());
        }
        r
    }
}

/// Sets the retry count for confirmed messages.
#[derive(Debug, Clone)]
pub struct RetrySet {
    /// The retry count.
    pub retry: u8,
}

impl RetrySet {
    /// The exact wire line.
    pub open spec fn spec_wire(&self) -> Seq<u8> {
        crate::tags::spec_at_open()
            + crate::tags::spec_p_retry()
            + crate::tags::spec_eq()
            + dec_rep(self.retry as nat)
            + crate::tags::spec_crlf()
    }

    /// Largest possible encoding.
    pub fn max_len() -> (r: usize)
        ensures
            r == 14,
    {
        14
    }

    /// Reply budget in milliseconds.
    pub fn timeout_ms(&self) -> (r: u32)
        ensures
            r == 1000,
    {
        1000
    }

    /// Encodes the command line.
    pub fn as_bytes(&self) -> (r: Vec<u8>)
        ensures
            r@ == self.spec_wire(),
            r@.len() <= 14,
            r@.len() >= 2 && r@.subrange(r@.len() - 2, r@.len() as int)
                == crate::tags::spec_crlf(),
    {
        let mut r = crate::tags::at_open();
        let mut x0 = crate::tags::p_retry();
        r.append(&mut x0);
        let mut x1 = crate::tags::eq();
        r.append(&mut x1);
        crate::hex::push_dec_u32(&mut r, self.retry as u32);
        let mut tt = crate::tags::crlf();
        r.append(&mut tt);
        proof {
            crate::hex::lemma_pow10_10();
            crate::hex::lemma_dec_rep_len(self.retry as nat, 3);
            assert(r@ =~= self.spec_wire());
            assert(r@.subrange(r@.len() - 2, r@.len() as int)
                =~= crate::tags::spec_crlf());
        }
        r
    }
}

/// Sets the OTAA application key.
#[derive(Debug, Clone)]
pub struct AppKeySet {
    /// The subkey, `APPKEY`.
    pub app_key_text: BoundedText<82>,
    /// The sixteen key bytes, least significant first.
    pub key: BoundedBytes<16>,
}

impl AppKeySet {
    /// The exact wire line.
    pub open spec fn spec_wire(&self) -> Seq<u8> {
        crate::tags::spec_at_open()
            + crate::tags::spec_p_key()
            + crate::tags::spec_eq()
            + self.app_key_text@
            + crate::tags::spec_comma()
            + crate::hex::hex_upper_plain(self.key@)
            + crate::tags::spec_crlf()
    }

    /// Every bounded field holds within its capacity.
    pub open spec fn wf(&self) -> bool {
        self.app_key_text.wf() && self.key.wf()
    }

    /// Largest possible encoding.
    pub fn max_len() -> (r: usize)
        ensures
            r == 124,
    {
        124
    }

    /// Reply budget in milliseconds.
    pub fn timeout_ms(&self) -> (r: u32)
        ensures
            r == 1000,
    {
        1000
    }

    /// Encodes the command line.
    pub fn as_bytes(&self) -> (r: Vec<u8>)
        requires
            self.wf(),
        ensures
            r@ == self.spec_wire(),
            r@.len() <= 124,
            r@.len() >= 2 && r@.subrange(r@.len() - 2, r@.len() as int)
                == crate::tags::spec_crlf(),
    {
        let mut r = crate::tags::at_open();
        let mut x0 = crate::tags::p_key();
        r.append(&mut x0);
        let mut x1 = crate::tags::eq();
        r.append(&mut x1);
        let mut x2 = crate::hex::copy_bytes(self.app_key_text.as_bytes());
        r.append(&mut x2);
        let mut x3 = crate::tags::comma();
        r.append(&mut x3);
        let mut x4 = crate::hex::hex_encode_plain(self.key.as_bytes(), true);
        r.append(&mut x4);
        let mut tt = crate::tags::crlf();
        r.append(&mut tt);
        proof {
            crate::hex::lemma_hex_plain_len(self.key@);
            assert(r@ =~= self.spec_wire());
            assert(r@.subrange(r@.len() - 2, r@.len() as int)
                =~= crate::tags::spec_crlf());
        }
        r
    }
}

/// Reads the activation mode.
#[derive(Debug, Clone)]
pub struct ModeGet {
}

impl ModeGet {
    /// The exact wire line.
    pub open spec fn spec_wire(&self) -> Seq<u8> {
        crate::tags::spec_at_open()
            + crate::tags::spec_p_mode()
            + crate::tags::spec_crlf()
    }

    /// Largest possible encoding.
    pub fn max_len() -> (r: usize)
        ensures
            r == 9,
    {
        9
    }

    /// Reply budget in milliseconds.
    pub fn timeout_ms(&self) -> (r: u32)
        ensures
            r == 1000,
    {
        1000
    }

    /// Encodes the command line.
    pub fn as_bytes(&self) -> (r: Vec<u8>)
        ensures
            r@ == self.spec_wire(),
            r@.len() <= 9,
            r@.len() >= 2 && r@.subrange(r@.len() - 2, r@.len() as int)
                == crate::tags::spec_crlf(),
    {
        let mut r = crate::tags::at_open();
        let mut x0 = crate::tags::p_mode();
        r.append(&mut x0);
        let mut tt = crate::tags::crlf();
        r.append(&mut tt);
        proof {
            assert(r@ =~= self.spec_wire());
            assert(r@.subrange(r@.len() - 2, r@.len() as int)
                =~= crate::tags::spec_crlf());
        }
        r
    }
}

/// Sets the activation mode.
#[derive(Debug, Clone)]
pub struct ModeSet {
    /// `LWOTAA`, `LWABP` or `TEST`.
    pub mode: BoundedText<12>,
}

impl ModeSet {
    /// The exact wire line.
    pub open spec fn spec_wire(&self) -> Seq<u8> {
        crate::tags::spec_at_open()
            + crate::tags::spec_p_mode()
            + crate::tags::spec_eq()
            + self.mode@
            + crate::tags::spec_crlf()
    }

    /// Every bounded field holds within its capacity.
    pub open spec fn wf(&self) -> bool {
        self.mode.wf()
    }

    /// Largest possible encoding.
    pub fn max_len() -> (r: usize)
        ensures
            r == 22,
    {
        22
    }

    /// Reply budget in milliseconds.
    pub fn timeout_ms(&self) -> (r: u32)
        ensures
            r == 10000,
    {
        10000
    }

    /// Encodes the command line.
    pub fn as_bytes(&self) -> (r: Vec<u8>)
        requires
            self.wf(),
        ensures
            r@ == self.spec_wire(),
            r@.len() <= 22,
            r@.len() >= 2 && r@.subrange(r@.len() - 2, r@.len() as int)
                == crate::tags::spec_crlf(),
    {
        let mut r = crate::tags::at_open();
        let mut x0 = crate::tags::p_mode();
        r.append(&mut x0);
        let mut x1 = crate::tags::eq();
        r.append(&mut x1);
        let mut x2 = crate::hex::copy_bytes(self.mode.as_bytes());
        r.append(&mut x2);
        let mut tt = crate::tags::crlf();
        r.append(&mut tt);
        proof {
            assert(r@ =~= self.spec_wire());
            assert(r@.subrange(r@.len() - 2, r@.len() as int)
                =~= crate::tags::spec_crlf());
        }
        r
    }
}

/// Starts an over-the-air join.
#[derive(Debug, Clone)]
pub struct LoraJoinOtaa {
}

impl LoraJoinOtaa {
    /// The exact wire line.
    pub open spec fn spec_wire(&self) -> Seq<u8> {
        crate::tags::spec_at_open()
            + crate::tags::spec_p_join()
            + crate::tags::spec_crlf()
    }

    /// Largest possible encoding.
    pub fn max_len() -> (r: usize)
        ensures
            r == 9,
    {
        9
    }

    /// Reply budget in milliseconds.
    pub fn timeout_ms(&self) -> (r: u32)
        ensures
            r == 10000,
    {
        10000
    }

    /// Encodes the command line.
    pub fn as_bytes(&self) -> (r: Vec<u8>)
        ensures
            r@ == self.spec_wire(),
            r@.len() <= 9,
            r@.len() >= 2 && r@.subrange(r@.len() - 2, r@.len() as int)
                == crate::tags::spec_crlf(),
    {
        let mut r = crate::tags::at_open();
        let mut x0 = crate::tags::p_join();
        r.append(&mut x0);
        let mut tt = crate::tags::crlf();
        r.append(&mut tt);
        proof {
            assert(r@ =~= self.spec_wire());
            assert(r@.subrange(r@.len() - 2, r@.len() as int)
                =~= crate::tags::spec_crlf());
        }
        r
    }
}

/// Forces an over-the-air join.
#[derive(Debug, Clone)]
pub struct LoraJoinOtaaForce {
}

impl LoraJoinOtaaForce {
    /// The exact wire line.
    pub open spec fn spec_wire(&self) -> Seq<u8> {
        crate::tags::spec_at_open()
            + crate::tags::spec_p_join_force()
            + crate::tags::spec_crlf()
    }

    /// Largest possible encoding.
    pub fn max_len() -> (r: usize)
        ensures
            r == 15,
    {
        15
    }

    /// Reply budget in milliseconds.
    pub fn timeout_ms(&self) -> (r: u32)
        ensures
            r == 1000,
    {
        1000
    }

    /// Encodes the command line.
    pub fn as_bytes(&self) -> (r: Vec<u8>)
        ensures
            r@ == self.spec_wire(),
            r@.len() <= 15,
            r@.len() >= 2 && r@.subrange(r@.len() - 2, r@.len() as int)
                == crate::tags::spec_crlf(),
    {
        let mut r = crate::tags::at_open();
        let mut x0 = crate::tags::p_join_force();
        r.append(&mut x0);
        let mut tt = crate::tags::crlf();
        r.append(&mut tt);
        proof {
            assert(r@ =~= self.spec_wire());
            assert(r@.subrange(r@.len() - 2, r@.len() as int)
                =~= crate::tags::spec_crlf());
        }
        r
    }
}

/// Forces a join at a given data rate.
#[derive(Debug, Clone)]
pub struct LoraJoinOtaaAtDataRate {
    /// The data rate word.
    pub data_rate: BoundedText<8>,
}

impl LoraJoinOtaaAtDataRate {
    /// The exact wire line.
    pub open spec fn spec_wire(&self) -> Seq<u8> {
        crate::tags::spec_at_open()
            + crate::tags::spec_p_join_force()
            + crate::tags::spec_eq()
            + self.data_rate@
            + crate::tags::spec_crlf()
    }

    /// Every bounded field holds within its capacity.
    pub open spec fn wf(&self) -> bool {
        self.data_rate.wf()
    }

    /// Largest possible encoding.
    pub fn max_len() -> (r: usize)
        ensures
            r == 24,
    {
        24
    }

    /// Reply budget in milliseconds.
    pub fn timeout_ms(&self) -> (r: u32)
        ensures
            r == 1000,
    {
        1000
    }

    /// Encodes the command line.
    pub fn as_bytes(&self) -> (r: Vec<u8>)
        requires
            self.wf(),
        ensures
            r@ == self.spec_wire(),
            r@.len() <= 24,
            r@.len() >= 2 && r@.subrange(r@.len() - 2, r@.len() as int)
                == crate::tags::spec_crlf(),
    {
        let mut r = crate::tags::at_open();
        let mut x0 = crate::tags::p_join_force();
        r.append(&mut x0);
        let mut x1 = crate::tags::eq();
        r.append(&mut x1);
        let mut x2 = crate::hex::copy_bytes(self.data_rate.as_bytes());
        r.append(&mut x2);
        let mut tt = crate::tags::crlf();
        r.append(&mut tt);
        proof {
            assert(r@ =~= self.spec_wire());
            assert(r@.subrange(r@.len() - 2, r@.len() as int)
                =~= crate::tags::spec_crlf());
        }
        r
    }
}

/// Switches auto join on with one interval.
#[derive(Debug, Clone)]
pub struct LoraAutoJoinOtaaMode0 {
    /// The join interval.
    pub interval: u32,
}

impl LoraAutoJoinOtaaMode0 {
    /// The exact wire line.
    pub open spec fn spec_wire(&self) -> Seq<u8> {
        crate::tags::spec_at_open()
            + crate::tags::spec_p_join()
            + crate::tags::spec_eq()
            + crate::tags::spec_w_auto()
            + crate::tags::spec_comma()
            + dec_rep(self.interval as nat)
            + crate::tags::spec_crlf()
    }

    /// Largest possible encoding.
    pub fn max_len() -> (r: usize)
        ensures
            r == 25,
    {
        25
    }

    /// Reply budget in milliseconds.
    pub fn timeout_ms(&self) -> (r: u32)
        ensures
            r == 1000,
    {
        1000
    }

    /// Encodes the command line.
    pub fn as_bytes(&self) -> (r: Vec<u8>)
        ensures
            r@ == self.spec_wire(),
            r@.len() <= 25,
            r@.len() >= 2 && r@.subrange(r@.len() - 2, r@.len() as int)
                == crate::tags::spec_crlf(),
    {
        let mut r = crate::tags::at_open();
        let mut x0 = crate::tags::p_join();
        r.append(&mut x0);
        let mut x1 = crate::tags::eq();
        r.append(&mut x1);
        let mut x2 = crate::tags::w_auto();
        r.append(&mut x2);
        let mut x3 = crate::tags::comma();
        r.append(&mut x3);
        crate::hex::push_dec_u32(&mut r, self.interval as u32);
        let mut tt = crate::tags::crlf();
        r.append(&mut tt);
        proof {
            crate::hex::lemma_pow10_10();
            crate::hex::lemma_dec_rep_len(self.interval as nat, 10);
            assert(r@ =~= self.spec_wire());
            assert(r@.subrange(r@.len() - 2, r@.len() as int)
                =~= crate::tags::spec_crlf());
        }
        r
    }
}

/// Configures auto join with its periods and steps.
#[derive(Debug, Clone)]
pub struct LoraAutoJoinOtaaMode {
    /// The subkey, `AUTO`.
    pub cmd: BoundedText<8>,
    /// Minimum period.
    pub min_period: u32,
    /// Maximum period; zero selects mode 0.
    pub max_period: u32,
    /// Steps; zero selects mode 1.
    pub steps: u32,
}

impl LoraAutoJoinOtaaMode {
    /// The exact wire line.
    pub open spec fn spec_wire(&self) -> Seq<u8> {
        crate::tags::spec_at_open()
            + crate::tags::spec_p_join()
            + crate::tags::spec_eq()
            + self.cmd@
            + crate::tags::spec_comma()
            + dec_rep(self.min_period as nat)
            + crate::tags::spec_comma()
            + dec_rep(self.max_period as nat)
            + crate::tags::spec_comma()
            + dec_rep(self.steps as nat)
            + crate::tags::spec_crlf()
    }

    /// Every bounded field holds within its capacity.
    pub open spec fn wf(&self) -> bool {
        self.cmd.wf()
    }

    /// Largest possible encoding.
    pub fn max_len() -> (r: usize)
        ensures
            r == 51,
    {
        51
    }

    /// Reply budget in milliseconds.
    pub fn timeout_ms(&self) -> (r: u32)
        ensures
            r == 1000,
    {
        1000
    }

    /// Encodes the command line.
    pub fn as_bytes(&self) -> (r: Vec<u8>)
        requires
            self.wf(),
        ensures
            r@ == self.spec_wire(),
            r@.len() <= 51,
            r@.len() >= 2 && r@.subrange(r@.len() - 2, r@.len() as int)
                == crate::tags::spec_crlf(),
    {
        let mut r = crate::tags::at_open();
        let mut x0 = crate::tags::p_join();
        r.append(&mut x0);
        let mut x1 = crate::tags::eq();
        r.append(&mut x1);
        let mut x2 = crate::hex::copy_bytes(self.cmd.as_bytes());
        r.append(&mut x2);
        let mut x3 = crate::tags::comma();
        r.append(&mut x3);
        crate::hex::push_dec_u32(&mut r, self.min_period as u32);
        let mut x5 = crate::tags::comma();
        r.append(&mut x5);
        crate::hex::push_dec_u32(&mut r, self.max_period as u32);
        let mut x7 = crate::tags::comma();
        r.append(&mut x7);
        crate::hex::push_dec_u32(&mut r, self.steps as u32);
        let mut tt = crate::tags::crlf();
        r.append(&mut tt);
        proof {
            crate::hex::lemma_pow10_10();
            crate::hex::lemma_dec_rep_len(self.min_period as nat, 10);
            crate::hex::lemma_dec_rep_len(self.max_period as nat, 10);
            crate::hex::lemma_dec_rep_len(self.steps as nat, 10);
            assert(r@ =~= self.spec_wire());
            assert(r@.subrange(r@.len() - 2, r@.len() as int)
                =~= crate::tags::spec_crlf());
        }
        r
    }
}

/// Reads the device class.
#[derive(Debug, Clone)]
pub struct LoraClassGet {
}

impl LoraClassGet {
    /// The exact wire line.
    pub open spec fn spec_wire(&self) -> Seq<u8> {
        crate::tags::spec_at_open()
            + crate::tags::spec_p_class_q()
            + crate::tags::spec_crlf()
    }

    /// Largest possible encoding.
    pub fn max_len() -> (r: usize)
        ensures
            r == 12,
    {
        12
    }

    /// Reply budget in milliseconds.
    pub fn timeout_ms(&self) -> (r: u32)
        ensures
            r == 1000,
    {
        1000
    }

    /// Encodes the command line.
    pub fn as_bytes(&self) -> (r: Vec<u8>)
        ensures
            r@ == self.spec_wire(),
            r@.len() <= 12,
            r@.len() >= 2 && r@.subrange(r@.len() - 2, r@.len() as int)
                == crate::tags::spec_crlf(),
    {
        let mut r = crate::tags::at_open();
        let mut x0 = crate::tags::p_class_q();
        r.append(&mut x0);
        let mut tt = crate::tags::crlf();
        r.append(&mut tt);
        proof {
            assert(r@ =~= self.spec_wire());
            assert(r@.subrange(r@.len() - 2, r@.len() as int)
                =~= crate::tags::spec_crlf());
        }
        r
    }
}

/// Sets the device class.
#[derive(Debug, Clone)]
pub struct LoraClassSet {
    /// The class letter.
    pub class: BoundedText<2>,
}

impl LoraClassSet {
    /// The exact wire line.
    pub open spec fn spec_wire(&self) -> Seq<u8> {
        crate::tags::spec_at_open()
            + crate::tags::spec_p_class()
            + crate::tags::spec_eq()
            + self.class@
            + crate::tags::spec_crlf()
    }

    /// Every bounded field holds within its capacity.
    pub open spec fn wf(&self) -> bool {
        self.class.wf()
    }

    /// Largest possible encoding.
    pub fn max_len() -> (r: usize)
        ensures
            r == 13,
    {
        13
    }

    /// Reply budget in milliseconds.
    pub fn timeout_ms(&self) -> (r: u32)
        ensures
            r == 1000,
    {
        1000
    }

    /// Encodes the command line.
    pub fn as_bytes(&self) -> (r: Vec<u8>)
        requires
            self.wf(),
        ensures
            r@ == self.spec_wire(),
            r@.len() <= 13,
            r@.len() >= 2 && r@.subrange(r@.len() - 2, r@.len() as int)
                == crate::tags::spec_crlf(),
    {
        let mut r = crate::tags::at_open();
        let mut x0 = crate::tags::p_class();
        r.append(&mut x0);
        let mut x1 = crate::tags::eq();
        r.append(&mut x1);
        let mut x2 = crate::hex::copy_bytes(self.class.as_bytes());
        r.append(&mut x2);
        let mut tt = crate::tags::crlf();
        r.append(&mut tt);
        proof {
            assert(r@ =~= self.spec_wire());
            assert(r@.subrange(r@.len() - 2, r@.len() as int)
                =~= crate::tags::spec_crlf());
        }
        r
    }
}

/// Sets the device class and saves it.
#[derive(Debug, Clone)]
pub struct LoraClassSetAndSave {
    /// The class letter.
    pub class: BoundedText<2>,
    /// The save subkey.
    pub save: BoundedText<8>,
}

impl LoraClassSetAndSave {
    /// The exact wire line.
    pub open spec fn spec_wire(&self) -> Seq<u8> {
        crate::tags::spec_at_open()
            + crate::tags::spec_p_class()
            + crate::tags::spec_eq()
            + self.class@
            + crate::tags::spec_comma()
            + self.save@
            + crate::tags::spec_crlf()
    }

    /// Every bounded field holds within its capacity.
    pub open spec fn wf(&self) -> bool {
        self.class.wf() && self.save.wf()
    }

    /// Largest possible encoding.
    pub fn max_len() -> (r: usize)
        ensures
            r == 22,
    {
        22
    }

    /// Reply budget in milliseconds.
    pub fn timeout_ms(&self) -> (r: u32)
        ensures
            r == 1000,
    {
        1000
    }

    /// Encodes the command line.
    pub fn as_bytes(&self) -> (r: Vec<u8>)
        requires
            self.wf(),
        ensures
            r@ == self.spec_wire(),
            r@.len() <= 22,
            r@.len() >= 2 && r@.subrange(r@.len() - 2, r@.len() as int)
                == crate::tags::spec_crlf(),
    {
        let mut r = crate::tags::at_open();
        let mut x0 = crate::tags::p_class();
        r.append(&mut x0);
        let mut x1 = crate::tags::eq();
        r.append(&mut x1);
        let mut x2 = crate::hex::copy_bytes(self.class.as_bytes());
        r.append(&mut x2);
        let mut x3 = crate::tags::comma();
        r.append(&mut x3);
        let mut x4 = crate::hex::copy_bytes(self.save.as_bytes());
        r.append(&mut x4);
        let mut tt = crate::tags::crlf();
        r.append(&mut tt);
        proof {
            assert(r@ =~= self.spec_wire());
            assert(r@.subrange(r@.len() - 2, r@.len() as int)
                =~= crate::tags::spec_crlf());
        }
        r
    }
}

/// Reads the uplink and downlink counters.
#[derive(Debug, Clone)]
pub struct LoraUplinkDownlinkCounterGet {
}

impl LoraUplinkDownlinkCounterGet {
    /// The exact wire line.
    pub open spec fn spec_wire(&self) -> Seq<u8> {
        crate::tags::spec_at_open()
            + crate::tags::spec_p_lw()
            + crate::tags::spec_eq()
            + crate::tags::spec_w_uldl()
            + crate::tags::spec_crlf()
    }

    /// Largest possible encoding.
    pub fn max_len() -> (r: usize)
        ensures
            r == 12,
    {
        12
    }

    /// Reply budget in milliseconds.
    pub fn timeout_ms(&self) -> (r: u32)
        ensures
            r == 1000,
    {
        1000
    }

    /// Encodes the command line.
    pub fn as_bytes(&self) -> (r: Vec<u8>)
        ensures
            r@ == self.spec_wire(),
            r@.len() <= 12,
            r@.len() >= 2 && r@.subrange(r@.len() - 2, r@.len() as int)
                == crate::tags::spec_crlf(),
    {
        let mut r = crate::tags::at_open();
        let mut x0 = crate::tags::p_lw();
        r.append(&mut x0);
        let mut x1 = crate::tags::eq();
        r.append(&mut x1);
        let mut x2 = crate::tags::w_uldl();
        r.append(&mut x2);
        let mut tt = crate::tags::crlf();
        r.append(&mut tt);
        proof {
            assert(r@ =~= self.spec_wire());
            assert(r@.subrange(r@.len() - 2, r@.len() as int)
                =~= crate::tags::spec_crlf());
        }
        r
    }
}

/// Reads the maximum payload at the current data rate.
#[derive(Debug, Clone)]
pub struct LoraMaxTxLengthGet {
    /// The subkey, `LEN`.
    pub command: BoundedText<6>,
}

impl LoraMaxTxLengthGet {
    /// The exact wire line.
    pub open spec fn spec_wire(&self) -> Seq<u8> {
        crate::tags::spec_at_open()
            + crate::tags::spec_p_lw()
            + crate::tags::spec_eq()
            + self.command@
            + crate::tags::spec_crlf()
    }

    /// Every bounded field holds within its capacity.
    pub open spec fn wf(&self) -> bool {
        self.command.wf()
    }

    /// Largest possible encoding.
    pub fn max_len() -> (r: usize)
        ensures
            r == 14,
    {
        14
    }

    /// Reply budget in milliseconds.
    pub fn timeout_ms(&self) -> (r: u32)
        ensures
            r == 1000,
    {
        1000
    }

    /// Encodes the command line.
    pub fn as_bytes(&self) -> (r: Vec<u8>)
        requires
            self.wf(),
        ensures
            r@ == self.spec_wire(),
            r@.len() <= 14,
            r@.len() >= 2 && r@.subrange(r@.len() - 2, r@.len() as int)
                == crate::tags::spec_crlf(),
    {
        let mut r = crate::tags::at_open();
        let mut x0 = crate::tags::p_lw();
        r.append(&mut x0);
        let mut x1 = crate::tags::eq();
        r.append(&mut x1);
        let mut x2 = crate::hex::copy_bytes(self.command.as_bytes());
        r.append(&mut x2);
        let mut tt = crate::tags::crlf();
        r.append(&mut tt);
        proof {
            assert(r@ =~= self.spec_wire());
            assert(r@.subrange(r@.len() - 2, r@.len() as int)
                =~= crate::tags::spec_crlf());
        }
        r
    }
}


/// `AT+JOIN=0`: switches auto join off.
#[derive(Debug, Clone, Copy, PartialEq, Eq, Structural)]
pub struct LoraAutoJoinOtaaDisable {}

impl LoraAutoJoinOtaaDisable {
    /// The exact wire line.
    pub open spec fn spec_wire(&self) -> Seq<u8> {
        crate::tags::spec_at_open() + crate::tags::spec_p_join() + crate::tags::spec_eq()
            + seq![48u8] + crate::tags::spec_crlf()
    }

    /// Largest possible encoding.
    pub fn max_len() -> (r: usize)
        ensures
            r == 11,
    {
        11
    }

    /// Reply budget in milliseconds.
    pub fn timeout_ms(&self) -> (r: u32)
        ensures
            r == 1000,
    {
        1000
    }

    /// Encodes the command line.
    pub fn as_bytes(&self) -> (r: Vec<u8>)
        ensures
            r@ == self.spec_wire(),
            r@.len() <= 11,
            r@.len() >= 2 && r@.subrange(r@.len() - 2, r@.len() as int)
                == crate::tags::spec_crlf(),
    {
        let mut r = crate::tags::at_open();
        let mut p = crate::tags::p_join();
        let mut e = crate::tags::eq();
        let mut t = crate::tags::crlf();
        r.append(&mut p);
        r.append(&mut e);
        r.push(48u8);
        r.append(&mut t);
        proof {
            assert(r@ =~= self.spec_wire());
            assert(r@.subrange(r@.len() - 2, r@.len() as int) =~= crate::tags::spec_crlf());
        }
        r
    }

    /// Decodes the acknowledgement text.
    pub fn parse(&self, resp: &[u8]) -> (r: Result<LoraOtaaAutoJoinResponse, Error>)
        ensures
            resp@.len() <= 26 ==> (r matches Ok(o) && o.response@ == resp@),
            resp@.len() > 26 ==> (r matches Err(e) && e == Error::Parse),
    {
        match BoundedText::<26>::from_bytes(resp) {
            Ok(t) => Ok(LoraOtaaAutoJoinResponse { response: t }),
            Err(_) => Err(Error::Parse),
        }
    }
}

impl DevEuiSet {
    /// A command that sets this device EUI.
    pub fn dev_eui(dev_eui: u64) -> (r: Self)
        ensures
            r.dev_eui == dev_eui,
            r.dev_eui_text@ == crate::tags::spec_w_deveui(),
            r.wf(),
    {
        let text = match BoundedText::<12>::from_bytes(crate::tags::w_deveui().as_slice()) {
            Ok(t) => t,
            Err(_) => {
                proof {
                    assert(false);
                }
                BoundedText::new()
            },
        };
        DevEuiSet { dev_eui_text: text, dev_eui }
    }
}

impl AppEuiSet {
    /// A command that sets this application EUI.
    pub fn app_eui(app_eui: u64) -> (r: Self)
        ensures
            r.app_eui == app_eui,
            r.app_eui_text@ == crate::tags::spec_w_appeui(),
            r.wf(),
    {
        let text = match BoundedText::<12>::from_bytes(crate::tags::w_appeui().as_slice()) {
            Ok(t) => t,
            Err(_) => {
                proof {
                    assert(false);
                }
                BoundedText::new()
            },
        };
        AppEuiSet { app_eui_text: text, app_eui }
    }
}

impl MessageHexUnconfirmed {
    /// This command does not wait for a response code.
    pub fn expects_response_code(&self) -> (r: bool)
        ensures
            !r,
    {
        false
    }

    /// Decodes the reply body: nothing to read.
    pub fn parse(&self, _resp: &[u8]) -> (r: Result<NoResponse, Error>)
        ensures
            r == Ok::<NoResponse, Error>(NoResponse),
    {
        Ok(NoResponse)
    }
}

impl MessageHexConfirmed {
    /// This command does not wait for a response code.
    pub fn expects_response_code(&self) -> (r: bool)
        ensures
            !r,
    {
        false
    }

    /// Decodes the reply body: nothing to read.
    pub fn parse(&self, _resp: &[u8]) -> (r: Result<NoResponse, Error>)
        ensures
            r == Ok::<NoResponse, Error>(NoResponse),
    {
        Ok(NoResponse)
    }
}

impl LoraAdrSet {
    /// The command that switches adaptive data rate on.
    pub fn on() -> (r: Self)
        ensures
            r.on@ == crate::tags::spec_w_on(),
            r.wf(),
    {
        let text = match BoundedText::<6>::from_bytes(crate::tags::w_on().as_slice()) {
            Ok(t) => t,
            Err(_) => {
                proof {
                    assert(false);
                }
                BoundedText::new()
            },
        };
        LoraAdrSet { on: text }
    }

    /// The command that switches adaptive data rate off.
    pub fn off() -> (r: Self)
        ensures
            r.on@ == crate::tags::spec_w_off(),
            r.wf(),
    {
        let text = match BoundedText::<6>::from_bytes(crate::tags::w_off().as_slice()) {
            Ok(t) => t,
            Err(_) => {
                proof {
                    assert(false);
                }
                BoundedText::new()
            },
        };
        LoraAdrSet { on: text }
    }
}

impl LoraDrSet {
    /// The command that sets data rate `dr`, which must be 15 or less.
    pub fn new(dr: u8) -> (r: Self)
        requires
            dr <= 15,
        ensures
            r.data_rate@ == crate::tags::spec_w_dr() + dec_rep(dr as nat),
            r.wf(),
    {
        let mut w = crate::tags::w_dr();
        crate::hex::push_dec_u32(&mut w, dr as u32);
        proof {
            crate::hex::lemma_pow10_10();
            crate::hex::lemma_dec_rep_len(dr as nat, 3);
        }
        let text = match BoundedText::<8>::from_bytes(w.as_slice()) {
            Ok(t) => t,
            Err(_) => {
                proof {
                    assert(false);
                }
                BoundedText::new()
            },
        };
        LoraDrSet { data_rate: text }
    }
}

impl DataRateSchemeSet {
    /// The command that sets the scheme of `region`.
    pub fn region(region: LoraRegion) -> (r: Self)
        ensures
            r.scheme@ == crate::lora::types::region_word(region),
            r.wf(),
    {
        DataRateSchemeSet { scheme: region.text() }
    }
}

impl TxPowerForceSet {
    /// A command that forces this power.
    pub fn new(db_m: u8) -> (r: Self)
        ensures
            r.db_m == db_m,
    {
        TxPowerForceSet { db_m }
    }

    /// Decodes the reply body.  The reply carries nothing the driver
    /// uses, so the echoed power reads as zero.
    pub fn parse(&self, _resp: &[u8]) -> (r: Result<TxPowerForceSetResponse, Error>)
        ensures
            r == Ok::<TxPowerForceSetResponse, Error>(TxPowerForceSetResponse { db_m: 0 }),
    {
        Ok(TxPowerForceSetResponse { db_m: 0 })
    }
}

impl Default for TxPowerTableGet {
    /// The power table query.
    fn default() -> (r: Self)
        ensures
            r.table_txt@ == crate::tags::spec_w_table(),
            r.wf(),
    {
        let text = match BoundedText::<10>::from_bytes(crate::tags::w_table().as_slice()) {
            Ok(t) => t,
            Err(_) => {
                proof {
                    assert(false);
                }
                BoundedText::new()
            },
        };
        TxPowerTableGet { table_txt: text }
    }
}

impl AppKeySet {
    /// A command that sets this 128-bit application key, encoded as its
    /// sixteen bytes least significant first.
    pub fn app_key(app_key: u128) -> (r: Self)
        ensures
            r.key@ == le_bytes(app_key as nat, 16),
            r.app_key_text@ == crate::tags::spec_w_appkey(),
            r.wf(),
    {
        let bytes = crate::hex::u128_le_bytes(app_key);
        proof {
            crate::hex::lemma_base256_len(app_key as nat, 16);
        }
        let key = match BoundedBytes::<16>::from_bytes(bytes.as_slice()) {
            Ok(b) => b,
            Err(_) => {
                proof {
                    assert(false);
                }
                BoundedBytes::new()
            },
        };
        let text = match BoundedText::<82>::from_bytes(crate::tags::w_appkey().as_slice()) {
            Ok(t) => t,
            Err(_) => {
                proof {
                    assert(false);
                }
                BoundedText::new()
            },
        };
        AppKeySet { app_key_text: text, key }
    }
}

impl ModeSet {
    /// The command that selects over-the-air activation.
    pub fn otaa() -> (r: Self)
        ensures
            r.mode@ == crate::tags::spec_w_lwotaa(),
            r.wf(),
    {
        Self::of_word(crate::tags::w_lwotaa())
    }

    /// The command that selects activation by personalisation.
    pub fn abp() -> (r: Self)
        ensures
            r.mode@ == crate::tags::spec_w_lwabp(),
            r.wf(),
    {
        Self::of_word(crate::tags::w_lwabp())
    }

    /// The command that selects test mode.
    pub fn test() -> (r: Self)
        ensures
            r.mode@ == crate::tags::spec_w_test(),
            r.wf(),
    {
        Self::of_word(crate::tags::w_test())
    }

    fn of_word(w: Vec<u8>) -> (r: Self)
        requires
            w@.len() <= 12,
        ensures
            r.mode@ == w@,
            r.wf(),
    {
        let text = match BoundedText::<12>::from_bytes(w.as_slice()) {
            Ok(t) => t,
            Err(_) => {
                proof {
                    assert(false);
                }
                BoundedText::new()
            },
        };
        ModeSet { mode: text }
    }
}

impl LoraJoinOtaa {
    /// Decodes the acknowledgement text.
    pub fn parse(&self, resp: &[u8]) -> (r: Result<LoraOtaaJoinResponse, Error>)
        ensures
            resp@.len() <= 26 ==> (r matches Ok(o) && o.response@ == resp@),
            resp@.len() > 26 ==> (r matches Err(e) && e == Error::Parse),
    {
        match BoundedText::<26>::from_bytes(resp) {
            Ok(t) => Ok(LoraOtaaJoinResponse { response: t }),
            Err(_) => Err(Error::Parse),
        }
    }
}

impl LoraAutoJoinOtaaMode0 {
    /// Decodes the acknowledgement text.
    pub fn parse(&self, resp: &[u8]) -> (r: Result<LoraOtaaAutoJoinResponse, Error>)
        ensures
            resp@.len() <= 26 ==> (r matches Ok(o) && o.response@ == resp@),
            resp@.len() > 26 ==> (r matches Err(e) && e == Error::Parse),
    {
        match BoundedText::<26>::from_bytes(resp) {
            Ok(t) => Ok(LoraOtaaAutoJoinResponse { response: t }),
            Err(_) => Err(Error::Parse),
        }
    }
}

impl LoraAutoJoinOtaaMode {
    /// Auto join mode 0: one interval.
    pub fn mode0(min_period: u32) -> (r: Self)
        ensures
            r.cmd@ == crate::tags::spec_w_auto(),
            r.min_period == min_period,
            r.max_period == 0,
            r.steps == 0,
            r.wf(),
    {
        Self::of_periods(min_period, 0, 0)
    }

    /// Auto join mode 1: a minimum and a maximum period.
    pub fn mode1(min_period: u32, max_period: u32) -> (r: Self)
        ensures
            r.cmd@ == crate::tags::spec_w_auto(),
            r.min_period == min_period,
            r.max_period == max_period,
            r.steps == 0,
            r.wf(),
    {
        Self::of_periods(min_period, max_period, 0)
    }

    /// Auto join mode 2: periods and steps.
    pub fn mode2(min_period: u32, max_period: u32, steps: u32) -> (r: Self)
        ensures
            r.cmd@ == crate::tags::spec_w_auto(),
            r.min_period == min_period,
            r.max_period == max_period,
            r.steps == steps,
            r.wf(),
    {
        Self::of_periods(min_period, max_period, steps)
    }

    fn of_periods(min_period: u32, max_period: u32, steps: u32) -> (r: Self)
        ensures
            r.cmd@ == crate::tags::spec_w_auto(),
            r.min_period == min_period,
            r.max_period == max_period,
            r.steps == steps,
            r.wf(),
    {
        let text = match BoundedText::<8>::from_bytes(crate::tags::w_auto().as_slice()) {
            Ok(t) => t,
            Err(_) => {
                proof {
                    assert(false);
                }
                BoundedText::new()
            },
        };
        LoraAutoJoinOtaaMode { cmd: text, min_period, max_period, steps }
    }
}

impl LoraClassSet {
    /// The command that sets `class`.
    pub fn class(class: crate::lora::types::LoraClass) -> (r: Self)
        ensures
            r.class@ == crate::lora::types::class_word(class),
            r.wf(),
    {
        LoraClassSet { class: class.text() }
    }
}

/// The counters a `+LW: ULDL` reply carries: the subkey, then the uplink
/// and downlink counts separated by `, `.
pub open spec fn uldl_spec(resp: Seq<u8>) -> Option<(u32, u32)> {
    let b = crate::lora::responses::strip_opt(resp, crate::tags::spec_lw_tag());
    if crate::scan::find_sub(b, crate::tags::spec_comma_sp()) < 0 {
        None
    } else {
        let a1 = crate::lora::responses::after_comma_sp(b);
        if crate::scan::find_sub(a1, crate::tags::spec_comma_sp()) < 0 {
            None
        } else {
            let up = crate::lora::responses::before_comma_sp(a1);
            let down = crate::lora::responses::after_comma_sp(a1);
            if up.len() >= 1 && crate::hex::all_dec_digits(up)
                && crate::hex::dec_val(up) <= u32::MAX
                && down.len() >= 1 && crate::hex::all_dec_digits(down)
                && crate::hex::dec_val(down) <= u32::MAX {
                Some((crate::hex::dec_val(up) as u32, crate::hex::dec_val(down) as u32))
            } else {
                None
            }
        }
    }
}

impl LoraUplinkDownlinkCounterGet {
    /// Decodes a counter reply body.
    pub fn parse(&self, resp: &[u8]) -> (r: Result<UplinkDownlinkCounterGetResponse, Error>)
        ensures
            match r {
                Ok(o) => uldl_spec(resp@) == Some((o.uplink, o.downlink)),
                Err(e) => uldl_spec(resp@) is None && e == Error::Parse,
            },
    {
        let b = crate::lora::responses::strip_optional(resp, &crate::tags::lw_tag());
        let (_, a1, had) = crate::lora::responses::split_comma_sp(b.as_slice());
        if !had {
            return Err(Error::Parse);
        }
        let (up_txt, down_txt, had2) = crate::lora::responses::split_comma_sp(a1.as_slice());
        if !had2 {
            return Err(Error::Parse);
        }
        let uplink = match crate::hex::parse_dec_u32(up_txt.as_slice()) {
            Some(v) => v,
            None => {
                return Err(Error::Parse);
            },
        };
        let downlink = match crate::hex::parse_dec_u32(down_txt.as_slice()) {
            Some(v) => v,
            None => {
                return Err(Error::Parse);
            },
        };
        Ok(UplinkDownlinkCounterGetResponse { uplink, downlink })
    }
}

impl Default for LoraMaxTxLengthGet {
    /// The maximum payload length query.
    fn default() -> (r: Self)
        ensures
            r.command@ == crate::tags::spec_w_len(),
            r.wf(),
    {
        let text = match BoundedText::<6>::from_bytes(crate::tags::w_len().as_slice()) {
            Ok(t) => t,
            Err(_) => {
                proof {
                    assert(false);
                }
                BoundedText::new()
            },
        };
        LoraMaxTxLengthGet { command: text }
    }
}

} // verus!