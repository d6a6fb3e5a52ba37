//! Replies to the LoRaWAN commands, and their decoders.
//!
//! A reply body reaches a decoder either with its envelope already
//! stripped by the digester, or — when the whole reply arrived at once
//! and the generic success rule swept it — with the envelope still on.
//! Every decoder therefore strips its own envelope when it is present.

use vstd::prelude::*;

use crate::bounded::BoundedText;
use crate::hex::{dec_val, all_dec_digits, hex_digit_count, loose_hex_val};
use crate::lora::types::{LoraJoinMode, LoraJoiningStartingStatus, LoraJoiningStatus};
use crate::lora::urc::nth_word_spec;
use crate::scan::{find_sub, has_prefix};
use crate::Error;

verus! {

/// `s` with `tag` stripped off its front, when it is there.
pub open spec fn strip_opt(s: Seq<u8>, tag: Seq<u8>) -> Seq<u8> {
    if has_prefix(s, tag) {
        s.skip(tag.len() as int)
    } else {
        s
    }
}

/// Strips an optional prefix.
pub fn strip_optional(resp: &[u8], tag: &Vec<u8>) -> (r: Vec<u8>)
    ensures
        r@ == strip_opt(resp@, tag@),
{
    if crate::scan::starts_with(resp, tag.as_slice()) {
        let r = crate::hex::copy_bytes(vstd::slice::slice_subrange(resp, tag.len(), resp.len()));
        proof {
            assert(r@ =~= resp@.skip(tag@.len() as int));
        }
        r
    } else {
        crate::hex::copy_bytes(resp)
    }
}

/// What stands before the first `, ` of `s`, or all of `s`.
pub open spec fn before_comma_sp(s: Seq<u8>) -> Seq<u8> {
    let q = find_sub(s, crate::tags::spec_comma_sp());
    if q < 0 {
        s
    } else {
        s.subrange(0, q)
    }
}

/// What follows the first `, ` of `s`, or all of `s`.
pub open spec fn after_comma_sp(s: Seq<u8>) -> Seq<u8> {
    let q = find_sub(s, crate::tags::spec_comma_sp());
    if q < 0 {
        s
    } else {
        s.skip(q + 2)
    }
}

/// Splits at the first `, `.
pub fn split_comma_sp(s: &[u8]) -> (r: (Vec<u8>, Vec<u8>, bool))
    ensures
        r.0@ == before_comma_sp(s@),
        r.1@ == after_comma_sp(s@),
        r.2 == (find_sub(s@, crate::tags::spec_comma_sp()) >= 0),
{
    let sep = crate::tags::comma_sp();
    match crate::scan::find(s, sep.as_slice()) {
        None => (crate::hex::copy_bytes(s), crate::hex::copy_bytes(s), false),
        Some(q) => {
            let n = s.len();
            proof {
                assert(q + 2 <= n);
            }
            let before = crate::hex::copy_bytes(vstd::slice::slice_subrange(s, 0, q));
            let after = crate::hex::copy_bytes(vstd::slice::slice_subrange(s, q + 2, n));
            proof {
                assert(after@ =~= s@.skip(q + 2));
            }
            (before, after, true)
        },
    }
}

/// The hex value carried after an optional `0x` opening, when at most
/// `max` digits carry it.
pub open spec fn loose_hex_field(s: Seq<u8>, max: nat) -> Option<nat> {
    let b = if has_prefix(s, seq![48u8, 120u8]) || has_prefix(s, seq![48u8, 88u8]) {
        s.skip(2)
    } else {
        s
    };
    if hex_digit_count(b) <= max {
        Some(loose_hex_val(b))
    } else {
        None
    }
}

/// Parses a hex field of at most `max_digits` digits (at most sixteen),
/// accepting an optional `0x` opening and any separator layout.
pub fn parse_hex_field(s: &[u8], max_digits: usize) -> (r: Option<u64>)
    requires
        max_digits <= 16,
    ensures
        match r {
            Some(v) => loose_hex_field(s@, max_digits as nat) == Some(v as nat)
                && (v as nat) < crate::hex::pow16(max_digits as nat),
            None => loose_hex_field(s@, max_digits as nat) is None,
        },
{
    let ox: Vec<u8> = vec![48u8, 120u8];
    let oxx: Vec<u8> = vec![48u8, 88u8];
    proof {
        assert(ox@ =~= seq![48u8, 120u8]);
        assert(oxx@ =~= seq![48u8, 88u8]);
    }
    let b: &[u8] = if crate::scan::starts_with(s, ox.as_slice())
        || crate::scan::starts_with(s, oxx.as_slice()) {
        vstd::slice::slice_subrange(s, 2, s.len())
    } else {
        s
    };
    proof {
        if has_prefix(s@, ox@) || has_prefix(s@, oxx@) {
            assert(b@ =~= s@.skip(2));
        }
    }
    crate::hex::parse_hex_loose(b, max_digits)
}

/// Mode reply.
#[derive(Debug, Clone)]
pub struct ModeGetSetResponse {
    /// The mode word.
    pub mode: BoundedText<24>,
}

impl ModeGetSetResponse {
    /// Decodes a mode reply body.
    pub fn parse_body(resp: &[u8]) -> (r: Result<Self, Error>)
        ensures
            match r {
                Ok(o) => o.mode@ == strip_opt(resp@, crate::tags::spec_mode_tag())
                    && o.mode@.len() <= 24,
                Err(e) => strip_opt(resp@, crate::tags::spec_mode_tag()).len() > 24
                    && e == Error::Parse,
            },
    {
        let b = strip_optional(resp, &crate::tags::mode_tag());
        match BoundedText::<24>::from_bytes(b.as_slice()) {
            Ok(t) => Ok(ModeGetSetResponse { mode: t }),
            Err(_) => Err(Error::Parse),
        }
    }

    /// The activation mode the reply names.
    pub fn mode(self) -> (r: LoraJoinMode)
        ensures
            r == crate::lora::types::join_mode_of_text(self.mode@),
    {
        LoraJoinMode::from_bytes(self.mode.as_bytes())
    }
}

/// Device address reply: a subkey and the address.
#[derive(Debug, Clone)]
pub struct AbpDevAddrResponse {
    /// The subkey, `DevAddr`.
    pub dev_addr_text: BoundedText<14>,
    /// The device address.
    pub dev_addr: u32,
}

impl AbpDevAddrResponse {
    /// Decodes a device address reply body.
    pub fn parse_body(resp: &[u8]) -> (r: Result<Self, Error>)
        ensures
            ({
                let b = strip_opt(resp@, crate::tags::spec_id_tag());
                match r {
                    Ok(o) => o.dev_addr_text@ == before_comma_sp(b)
                        && o.dev_addr_text@.len() <= 14
                        && loose_hex_field(after_comma_sp(b), 8) == Some(o.dev_addr as nat),
                    Err(e) => e == Error::Parse && (before_comma_sp(b).len() > 14
                        || loose_hex_field(after_comma_sp(b), 8) is None),
                }
            }),
    {
        let b = strip_optional(resp, &crate::tags::id_tag());
        let (before, after, _) = split_comma_sp(b.as_slice());
        let text = match BoundedText::<14>::from_bytes(before.as_slice()) {
            Ok(t) => t,
            Err(_) => {
                return Err(Error::Parse);
            },
        };
        match parse_hex_field(after.as_slice(), 8) {
            Some(v) => {
                proof {
                    crate::hex::lemma_pow16_16();
                }
                Ok(AbpDevAddrResponse { dev_addr_text: text, dev_addr: v as u32 })
            },
            None => Err(Error::Parse),
        }
    }
}

/// Device EUI reply.
#[derive(Debug, Clone, Copy, PartialEq, Eq, Structural)]
pub struct OtaaDevEuiResponse {
    /// The 64-bit device EUI.
    pub dev_eui: u64,
}

/// The EUI a reply body carries: an optional envelope, an optional
/// subkey before a `, `, then sixteen hex digits in any separator layout.
pub open spec fn eui_field(resp: Seq<u8>) -> Option<nat> {
    let b = strip_opt(resp, crate::tags::spec_id_tag());
    loose_hex_field(after_comma_sp(b), 16)
}

/// Decodes an EUI reply body.
fn parse_eui_body(resp: &[u8]) -> (r: Result<u64, Error>)
    ensures
        match r {
            Ok(v) => eui_field(resp@) == Some(v as nat),
            Err(e) => eui_field(resp@) is None && e == Error::Parse,
        },
{
    let b = strip_optional(resp, &crate::tags::id_tag());
    let (_, after, _) = split_comma_sp(b.as_slice());
    match parse_hex_field(after.as_slice(), 16) {
        Some(v) => Ok(v),
        None => Err(Error::Parse),
    }
}

impl OtaaDevEuiResponse {
    /// Decodes a device EUI reply body.
    pub fn parse_body(resp: &[u8]) -> (r: Result<Self, Error>)
        ensures
            match r {
                Ok(o) => eui_field(resp@) == Some(o.dev_eui as nat),
                Err(e) => eui_field(resp@) is None && e == Error::Parse,
            },
    {
        match parse_eui_body(resp) {
            Ok(v) => Ok(OtaaDevEuiResponse { dev_eui: v }),
            Err(e) => Err(e),
        }
    }
}

/// Application EUI reply.
#[derive(Debug, Clone, Copy, PartialEq, Eq, Structural)]
pub struct OtaaAppEuiResponse {
    /// The 64-bit application EUI.
    pub app_eui: u64,
}

impl OtaaAppEuiResponse {
    /// Decodes an application EUI reply body.
    pub fn parse_body(resp: &[u8]) -> (r: Result<Self, Error>)
        ensures
            match r {
                Ok(o) => eui_field(resp@) == Some(o.app_eui as nat),
                Err(e) => eui_field(resp@) is None && e == Error::Parse,
            },
    {
        match parse_eui_body(resp) {
            Ok(v) => Ok(OtaaAppEuiResponse { app_eui: v }),
            Err(e) => Err(e),
        }
    }
}

/// Port reply.
#[derive(Debug, Clone, Copy, PartialEq, Eq, Structural)]
pub struct PortGetSetResponse {
    /// The port in force.
    pub port: u8,
}

/// The decimal field of a reply, its envelope stripped.
pub open spec fn dec_field(resp: Seq<u8>, tag: Seq<u8>) -> Option<nat> {
    let b = strip_opt(resp, tag);
    if b.len() >= 1 && all_dec_digits(b) && dec_val(b) <= 255 {
        Some(dec_val(b))
    } else {
        None
    }
}

/// Decodes a one-byte decimal reply.
fn parse_dec_reply(resp: &[u8], tag: &Vec<u8>) -> (r: Result<u8, Error>)
    ensures
        match r {
            Ok(v) => dec_field(resp@, tag@) == Some(v as nat),
            Err(e) => dec_field(resp@, tag@) is None && e == Error::Parse,
        },
{
    let b = strip_optional(resp, tag);
    match crate::hex::parse_dec_u8(b.as_slice()) {
        Some(v) => Ok(v),
        None => Err(Error::Parse),
    }
}

impl PortGetSetResponse {
    /// Decodes a port reply body.
    pub fn parse_body(resp: &[u8]) -> (r: Result<Self, Error>)
        ensures
            ({
                let tag = crate::tags::spec_p_port() + crate::tags::spec_colon_sp();
                match r {
                    Ok(o) => dec_field(resp@, tag) == Some(o.port as nat),
                    Err(e) => dec_field(resp@, tag) is None && e == Error::Parse,
                }
            }),
    {
        let mut tag = crate::tags::p_port();
        let mut cs = crate::tags::colon_sp();
        tag.append(&mut cs);
        match parse_dec_reply(resp, &tag) {
            Ok(v) => Ok(PortGetSetResponse { port: v }),
            Err(e) => Err(e),
        }
    }
}

/// Adaptive data rate reply.
#[derive(Debug, Clone)]
pub struct AdrGetSetResponse {
    /// The switch word, `ON` or `OFF`.
    pub on: BoundedText<6>,
}

impl AdrGetSetResponse {
    /// Decodes an adaptive data rate reply body.
    pub fn parse_body(resp: &[u8]) -> (r: Result<Self, Error>)
        ensures
            match r {
                Ok(o) => o.on@ == strip_opt(resp@, crate::tags::spec_adr_tag())
                    && o.on@.len() <= 6,
                Err(e) => strip_opt(resp@, crate::tags::spec_adr_tag()).len() > 6
                    && e == Error::Parse,
            },
    {
        let b = strip_optional(resp, &crate::tags::adr_tag());
        match BoundedText::<6>::from_bytes(b.as_slice()) {
            Ok(t) => Ok(AdrGetSetResponse { on: t }),
            Err(_) => Err(Error::Parse),
        }
    }

    /// Is adaptive data rate switched on?
    pub fn is_on(&self) -> (r: bool)
        ensures
            r == (self.on@ == crate::tags::spec_w_on()),
    {
        crate::bounded::bytes_eq(self.on.as_bytes(), crate::tags::w_on().as_slice())
    }
}

/// Data rate reply, e.g. `US915 DR0 SF10 BW125K`.
#[derive(Debug, Clone)]
pub struct DataRateGetSetResponse {
    /// The reply text, opening with the region word.
    pub rate: BoundedText<42>,
}

impl DataRateGetSetResponse {
    /// Decodes a data rate reply body.
    pub fn parse_body(resp: &[u8]) -> (r: Result<Self, Error>)
        ensures
            match r {
                Ok(o) => o.rate@ == strip_opt(resp@, crate::tags::spec_dr_tag())
                    && o.rate@.len() <= 42,
                Err(e) => strip_opt(resp@, crate::tags::spec_dr_tag()).len() > 42
                    && e == Error::Parse,
            },
    {
        let b = strip_optional(resp, &crate::tags::dr_tag());
        match BoundedText::<42>::from_bytes(b.as_slice()) {
            Ok(t) => Ok(DataRateGetSetResponse { rate: t }),
            Err(_) => Err(Error::Parse),
        }
    }

    /// The region named by the first word of the reply.
    pub fn region(&self) -> (r: crate::lora::types::LoraRegion)
        ensures
            r == crate::lora::types::region_of_text(
                crate::lora::urc::nth_word_spec(self.rate@, 0).unwrap()),
    {
        let w = match crate::lora::urc::nth_word(self.rate.as_bytes(), 0) {
            Some(w) => w,
            None => {
                proof {
                    assert(false);
                }
                Vec::new()
            },
        };
        crate::lora::types::LoraRegion::from_bytes(w.as_slice())
    }
}

/// Device class reply.
#[derive(Debug, Clone)]
pub struct LoRaWANClassGetSetResponse {
    /// The class letter.
    pub class: BoundedText<2>,
}

impl LoRaWANClassGetSetResponse {
    /// Decodes a device class reply body.
    pub fn parse_body(resp: &[u8]) -> (r: Result<Self, Error>)
        ensures
            match r {
                Ok(o) => o.class@ == strip_opt(resp@, crate::tags::spec_class_tag())
                    && o.class@.len() <= 2,
                Err(e) => strip_opt(resp@, crate::tags::spec_class_tag()).len() > 2
                    && e == Error::Parse,
            },
    {
        let b = strip_optional(resp, &crate::tags::class_tag());
        match BoundedText::<2>::from_bytes(b.as_slice()) {
            Ok(t) => Ok(LoRaWANClassGetSetResponse { class: t }),
            Err(_) => Err(Error::Parse),
        }
    }
}

/// Application key reply.
#[derive(Debug, Clone)]
pub struct AppKeySetResponse {
    /// The raw reply text.
    pub response: BoundedText<82>,
}

impl AppKeySetResponse {
    /// Decodes an application key reply body.
    pub fn parse_body(resp: &[u8]) -> (r: Result<Self, Error>)
        ensures
            match r {
                Ok(o) => o.response@ == strip_opt(resp@, crate::tags::spec_key_tag())
                    && o.response@.len() <= 82,
                Err(e) => strip_opt(resp@, crate::tags::spec_key_tag()).len() > 82
                    && e == Error::Parse,
            },
    {
        let b = strip_optional(resp, &crate::tags::key_tag());
        match BoundedText::<82>::from_bytes(b.as_slice()) {
            Ok(t) => Ok(AppKeySetResponse { response: t }),
            Err(_) => Err(Error::Parse),
        }
    }
}

/// Join reply: the raw acknowledgement text.
#[derive(Debug, Clone)]
pub struct LoraOtaaJoinResponse {
    /// The reply text.
    pub response: BoundedText<26>,
}

/// Auto-join reply: the raw acknowledgement text.
#[derive(Debug, Clone)]
pub struct LoraOtaaAutoJoinResponse {
    /// The reply text.
    pub response: BoundedText<26>,
}

impl LoraJoiningStatus {
    /// Reads a join reply text.
    pub fn from_text(text: &BoundedText<26>) -> (r: Self)
        ensures
            ({
                let s = text@;
                match r {
                    LoraJoiningStatus::Starting(LoraJoiningStartingStatus::Starting) =>
                        s == crate::tags::spec_w_starting(),
                    LoraJoiningStatus::Starting(LoraJoiningStartingStatus::Normal) =>
                        s == crate::tags::spec_normal_word(),
                    LoraJoiningStatus::Failed => s == crate::tags::spec_failed_word(),
                    LoraJoiningStatus::Busy => s == crate::tags::spec_w_busy(),
                    LoraJoiningStatus::Starting(LoraJoiningStartingStatus::Done(n, a)) =>
                        has_prefix(s, crate::tags::spec_w_netid_lower())
                            && nth_word_spec(s, 1) == Some(n@)
                            && nth_word_spec(s, 3) == Some(a@),
                    LoraJoiningStatus::Unknown =>
                        s != crate::tags::spec_w_starting()
                            && s != crate::tags::spec_normal_word()
                            && s != crate::tags::spec_failed_word()
                            && s != crate::tags::spec_w_busy(),
                }
            }),
    {
        let s = text.as_bytes();
        if crate::bounded::bytes_eq(s, crate::tags::w_starting().as_slice()) {
            LoraJoiningStatus::Starting(LoraJoiningStartingStatus::Starting)
        } else if crate::bounded::bytes_eq(s, crate::tags::normal_word().as_slice()) {
            LoraJoiningStatus::Starting(LoraJoiningStartingStatus::Normal)
        } else if crate::bounded::bytes_eq(s, crate::tags::failed_word().as_slice()) {
            LoraJoiningStatus::Failed
        } else if crate::bounded::bytes_eq(s, crate::tags::w_busy().as_slice()) {
            LoraJoiningStatus::Busy
        } else if crate::scan::starts_with(s, crate::tags::w_netid_lower().as_slice()) {
            let net = match crate::lora::urc::nth_word(s, 1) {
                Some(w) => w,
                None => {
                    return LoraJoiningStatus::Unknown;
                },
            };
            let addr = match crate::lora::urc::nth_word(s, 3) {
                Some(w) => w,
                None => {
                    return LoraJoiningStatus::Unknown;
                },
            };
            let n = match BoundedText::<12>::from_bytes(net.as_slice()) {
                Ok(t) => t,
                Err(_) => {
                    return LoraJoiningStatus::Unknown;
                },
            };
            let a = match BoundedText::<22>::from_bytes(addr.as_slice()) {
                Ok(t) => t,
                Err(_) => {
                    return LoraJoiningStatus::Unknown;
                },
            };
            LoraJoiningStatus::Starting(LoraJoiningStartingStatus::Done(n, a))
        } else {
            LoraJoiningStatus::Unknown
        }
    }
}

/// Forced power reply.
#[derive(Debug, Clone, Copy, PartialEq, Eq, Structural)]
pub struct TxPowerForceSetResponse {
    /// The power in force, dBm.
    pub db_m: u8,
}

/// Power table reply.
#[derive(Debug, Clone)]
pub struct TxPowerTable {
    /// The table text: power steps in dBm, space-separated.
    pub table: BoundedText<80>,
}

/// The space-separated words of `s`.
pub open spec fn word_list(s: Seq<u8>) -> Seq<Seq<u8>>
    decreases s.len(),
{
    let p = find_sub(s, crate::tags::spec_space());
    if p < 0 || p >= s.len() {
        seq![s]
    } else {
        seq![s.subrange(0, p)] + word_list(s.skip(p + 1))
    }
}

/// Every word is a decimal number of at most one byte.
pub open spec fn words_all_dec(ws: Seq<Seq<u8>>) -> bool {
    forall|i: int| 0 <= i < ws.len() ==> (#[trigger] ws[i]).len() >= 1
        && all_dec_digits(ws[i]) && dec_val(ws[i]) <= 255
}

impl TxPowerTable {
    /// Decodes a power table reply body.
    pub fn parse_body(resp: &[u8]) -> (r: Result<Self, Error>)
        ensures
            ({
                let tag = crate::tags::spec_p_power() + crate::tags::spec_colon_sp();
                match r {
                    Ok(o) => o.table@ == strip_opt(resp@, tag) && o.table@.len() <= 80,
                    Err(e) => strip_opt(resp@, tag).len() > 80 && e == Error::Parse,
                }
            }),
    {
        let mut tag = crate::tags::p_power();
        let mut cs = crate::tags::colon_sp();
        tag.append(&mut cs);
        let b = strip_optional(resp, &tag);
        match BoundedText::<80>::from_bytes(b.as_slice()) {
            Ok(t) => Ok(TxPowerTable { table: t }),
            Err(_) => Err(Error::Parse),
        }
    }

    /// The power steps, one per space-separated word.  Fails if any word
    /// is not a one-byte decimal number or more than twelve are listed.
    pub fn db_m_list(&self) -> (r: Result<Vec<u8>, Error>)
        ensures
            ({
                let ws = word_list(self.table@);
                match r {
                    Ok(v) => words_all_dec(ws) && ws.len() <= 12 && v@.len() == ws.len()
                        && (forall|i: int| 0 <= i < ws.len()
                            ==> (#[trigger] v@[i]) as nat == dec_val(ws[i])),
                    Err(e) => e == Error::Parse && !(words_all_dec(ws) && ws.len() <= 12),
                }
            }),
    {
        match collect_dec_words(self.table.as_bytes()) {
            Ok(v) => {
                if v.len() <= 12 {
                    Ok(v)
                } else {
                    Err(Error::Parse)
                }
            },
            Err(e) => Err(e),
        }
    }
}

/// Collects the space-separated words of `s` as one-byte decimals.
fn collect_dec_words(s: &[u8]) -> (r: Result<Vec<u8>, Error>)
    ensures
        ({
            let ws = word_list(s@);
            match r {
                Ok(v) => words_all_dec(ws) && v@.len() == ws.len()
                    && (forall|i: int| 0 <= i < ws.len()
                        ==> (#[trigger] v@[i]) as nat == dec_val(ws[i])),
                Err(e) => e == Error::Parse && !words_all_dec(ws),
            }
        }),
    decreases s@.len(),
{
    let sp = crate::tags::space();
    let n = s.len();
    match crate::scan::find(s, sp.as_slice()) {
        None => {
            match crate::hex::parse_dec_u8(s) {
                Some(v) => {
                    let mut out: Vec<u8> = Vec::new();
                    out.push(v);
                    proof {
                        let ws = word_list(s@);
                        assert(ws =~= seq![s@]);
                        assert(out@ =~= seq![v]);
                    }
                    Ok(out)
                },
                None => {
                    proof {
                        let ws = word_list(s@);
                        assert(ws =~= seq![s@]);
                        assert(ws[0] == s@);
                    }
                    Err(Error::Parse)
                },
            }
        },
        Some(p) => {
            proof {
                assert(p + 1 <= n);
                assert(p < s@.len());
            }
            let head = vstd::slice::slice_subrange(s, 0, p);
            let rest = vstd::slice::slice_subrange(s, p + 1, n);
            proof {
                assert(rest@ =~= s@.skip(p + 1));
            }
            let v = match crate::hex::parse_dec_u8(head) {
                Some(v) => v,
                None => {
                    proof {
                        let ws = word_list(s@);
                        assert(ws[0] == s@.subrange(0, p as int));
                    }
                    return Err(Error::Parse);
                },
            };
            match collect_dec_words(rest) {
                Ok(tail) => {
                    let mut out: Vec<u8> = Vec::new();
                    out.push(v);
                    let mut t = tail;
                    out.append(&mut t);
                    proof {
                        let ws = word_list(s@);
                        let wr = word_list(s@.skip(p + 1));
                        assert(ws =~= seq![s@.subrange(0, p as int)] + wr);
                        assert(out@ =~= seq![v] + out@.skip(1));
                        assert forall|i: int| 0 <= i < ws.len()
                            implies (#[trigger] out@[i]) as nat == dec_val(ws[i]) by {
                            if i > 0 {
                                assert(ws[i] == wr[i - 1]);
                            }
                        }
                        assert(words_all_dec(ws)) by {
                            assert forall|i: int| 0 <= i < ws.len()
                                implies (#[trigger] ws[i]).len() >= 1 && all_dec_digits(ws[i])
                                    && dec_val(ws[i]) <= 255 by {
                                if i > 0 {
                                    assert(ws[i] == wr[i - 1]);
                                    assert(words_all_dec(wr));
                                }
                            }
                        }
                    }
                    Ok(out)
                },
                Err(e) => {
                    proof {
                        let ws = word_list(s@);
                        let wr = word_list(s@.skip(p + 1));
                        assert(ws =~= seq![s@.subrange(0, p as int)] + wr);
                        assert(!words_all_dec(wr));
                        let j = choose|j: int| 0 <= j < wr.len() && !((#[trigger] wr[j]).len() >= 1
                            && all_dec_digits(wr[j]) && dec_val(wr[j]) <= 255);
                        assert(ws[j + 1] == wr[j]);
                    }
                    Err(e)
                },
            }
        },
    }
}

/// Repeat reply.
#[derive(Debug, Clone, Copy, PartialEq, Eq, Structural)]
pub struct RepeatGetSetResponse {
    /// Repeats for unconfirmed messages.
    pub repeat: u8,
}

impl RepeatGetSetResponse {
    /// Decodes a repeat reply body.
    pub fn parse_body(resp: &[u8]) -> (r: Result<Self, Error>)
        ensures
            ({
                let tag = crate::tags::spec_p_rept() + crate::tags::spec_colon_sp();
                match r {
                    Ok(o) => dec_field(resp@, tag) == Some(o.repeat as nat),
                    Err(e) => dec_field(resp@, tag) is None && e == Error::Parse,
                }
            }),
    {
        let mut tag = crate::tags::p_rept();
        let mut cs = crate::tags::colon_sp();
        tag.append(&mut cs);
        match parse_dec_reply(resp, &tag) {
            Ok(v) => Ok(RepeatGetSetResponse { repeat: v }),
            Err(e) => Err(e),
        }
    }
}

/// Retry reply.
#[derive(Debug, Clone, Copy, PartialEq, Eq, Structural)]
pub struct RetryGetSetResponse {
    /// Retries for confirmed messages.
    pub retry: u8,
}

impl RetryGetSetResponse {
    /// Decodes a retry reply body.
    pub fn parse_body(resp: &[u8]) -> (r: Result<Self, Error>)
        ensures
            ({
                let tag = crate::tags::spec_p_retry() + crate::tags::spec_colon_sp();
                match r {
                    Ok(o) => dec_field(resp@, tag) == Some(o.retry as nat),
                    Err(e) => dec_field(resp@, tag) is None && e == Error::Parse,
                }
            }),
    {
        let mut tag = crate::tags::p_retry();
        let mut cs = crate::tags::colon_sp();
        tag.append(&mut cs);
        match parse_dec_reply(resp, &tag) {
            Ok(v) => Ok(RetryGetSetResponse { retry: v }),
            Err(e) => Err(e),
        }
    }
}

/// Maximum payload length reply: `LEN, <max>`.
#[derive(Debug, Clone)]
pub struct MaxPayloadLengthGetResponse {
    /// The subkey, `LEN`.
    pub command: BoundedText<6>,
    /// The maximum payload at the current data rate.
    pub max: u8,
}

impl MaxPayloadLengthGetResponse {
    /// Decodes a maximum payload length reply body.
    pub fn parse_body(resp: &[u8]) -> (r: Result<Self, Error>)
        ensures
            ({
                let b = strip_opt(resp@, crate::tags::spec_lw_tag());
                let num = after_comma_sp(b);
                match r {
                    Ok(o) => o.command@ == before_comma_sp(b) && o.command@.len() <= 6
                        && num.len() >= 1 && all_dec_digits(num) && dec_val(num) <= 255
                        && o.max as nat == dec_val(num),
                    Err(e) => e == Error::Parse && (before_comma_sp(b).len() > 6
                        || !(num.len() >= 1 && all_dec_digits(num) && dec_val(num) <= 255)),
                }
            }),
    {
        let b = strip_optional(resp, &crate::tags::lw_tag());
        let (before, after, _) = split_comma_sp(b.as_slice());
        let command = match BoundedText::<6>::from_bytes(before.as_slice()) {
            Ok(t) => t,
            Err(_) => {
                return Err(Error::Parse);
            },
        };
        match crate::hex::parse_dec_u8(after.as_slice()) {
            Some(v) => Ok(MaxPayloadLengthGetResponse { command, max: v }),
            None => Err(Error::Parse),
        }
    }
}

/// Uplink/downlink counter reply.
#[derive(Debug, Clone, Copy, PartialEq, Eq, Structural)]
pub struct UplinkDownlinkCounterGetResponse {
    /// Frames sent.
    pub uplink: u32,
    /// Frames received.
    pub downlink: u32,
}

impl UplinkDownlinkCounterGetResponse {
    /// Frames sent.
    pub fn uplink(&self) -> (r: u32)
        ensures
            r == self.uplink,
    {
        self.uplink
    }

    /// Frames received.
    pub fn downlink(&self) -> (r: u32)
        ensures
            r == self.downlink,
    {
        self.downlink
    }
}

} // verus!
