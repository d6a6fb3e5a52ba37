//! Typed grammar of the modem's unsolicited lines.
//!
//! Three families of URC lines exist: `+JOIN: …` join progress,
//! `+MSGHEX: …` / `+CMSGHEX: …` send progress, and `+MSG: …` downlink
//! progress.  Each parser takes one complete line (terminator already
//! stripped) and is proved to return exactly the reading its grammar
//! specifies.

use vstd::prelude::*;

use crate::bounded::BoundedText;
use crate::hex::{
    all_dec_digits, all_hex_digits, dec_val, hex_decode_spec, is_signed_dec, signed_dec_val,
    snr_centi_spec,
};
use crate::scan::{find_sub, has_prefix};
use crate::urc::{MessageStats, ReceivedMessage, ReceivedMessageView};

verus! {

/// Auto-join configuration reported by the modem.
#[derive(Debug, Clone, Copy, PartialEq, Eq, Structural)]
pub enum AutoJoin {
    /// Auto-join is off.
    Off,
    /// Mode 0 with its interval.
    Mode0(u32),
    /// Mode 1 with its interval.
    Mode1(u32),
    /// Mode 2 with its interval.
    Mode2(u32),
}

/// One `+JOIN: …` line, read.
#[derive(Debug, Clone)]
pub enum JoinUrc {
    /// `Auto-Join …`.
    AutoJoin(AutoJoin),
    /// `Start`: a join attempt begins.
    Start,
    /// `NORMAL`.
    Normal,
    /// `Join failed`: this attempt failed; the modem will retry.
    Failed,
    /// `Joined already`.
    JoinedAlready,
    /// `Network joined`.
    NetworkJoined,
    /// `NetID <id> DevAddr <addr>`: joined, with the network identifiers.
    Success(BoundedText<12>, BoundedText<22>),
    /// `Done`.
    Done,
}

/// Ghost image of a join line.
pub enum JoinUrcView {
    /// `Auto-Join …`.
    AutoJoin(AutoJoin),
    /// `Start`.
    Start,
    /// `NORMAL`.
    Normal,
    /// `Join failed`.
    Failed,
    /// `Joined already`.
    JoinedAlready,
    /// `Network joined`.
    NetworkJoined,
    /// `NetID <id> DevAddr <addr>`.
    Success(Seq<u8>, Seq<u8>),
    /// `Done`.
    Done,
}

impl View for JoinUrc {
    type V = JoinUrcView;

    open spec fn view(&self) -> JoinUrcView {
        match self {
            JoinUrc::AutoJoin(a) => JoinUrcView::AutoJoin(*a),
            JoinUrc::Start => JoinUrcView::Start,
            JoinUrc::Normal => JoinUrcView::Normal,
            JoinUrc::Failed => JoinUrcView::Failed,
            JoinUrc::JoinedAlready => JoinUrcView::JoinedAlready,
            JoinUrc::NetworkJoined => JoinUrcView::NetworkJoined,
            JoinUrc::Success(n, a) => JoinUrcView::Success(n@, a@),
            JoinUrc::Done => JoinUrcView::Done,
        }
    }
}

/// The `n`-th space-separated word of `s`, counting from zero.
/// Consecutive spaces delimit empty words.
pub open spec fn nth_word_spec(s: Seq<u8>, n: nat) -> Option<Seq<u8>>
    decreases n,
{
    let p = find_sub(s, crate::tags::spec_space());
    if n == 0 {
        if p < 0 {
            Some(s)
        } else {
            Some(s.subrange(0, p))
        }
    } else if p < 0 {
        None
    } else {
        nth_word_spec(s.skip(p + 1), (n - 1) as nat)
    }
}

/// The `n`-th space-separated word of `s`.
pub fn nth_word(s: &[u8], n: usize) -> (r: Option<Vec<u8>>)
    ensures
        match r {
            Some(w) => nth_word_spec(s@, n as nat) == Some(w@),
            None => nth_word_spec(s@, n as nat) is None,
        },
    decreases n,
{
    let sp = crate::tags::space();
    match crate::scan::find(s, sp.as_slice()) {
        None => {
            if n == 0 {
                Some(crate::hex::copy_bytes(s))
            } else {
                None
            }
        },
        Some(p) => {
            let len = s.len();
            proof {
                crate::scan::lemma_find_sub(s@, sp@);
                assert(crate::scan::matches_at(s@, sp@, p as int));
                assert(p + 1 <= len);
            }
            if n == 0 {
                Some(crate::hex::copy_bytes(vstd::slice::slice_subrange(s, 0, p)))
            } else {
                let rest = vstd::slice::slice_subrange(s, p + 1, len);
                proof {
                    assert(rest@ =~= s@.skip(p + 1));
                }
                nth_word(rest, n - 1)
            }
        },
    }
}

/// Reading of one complete `+JOIN: …` line.  The first word of the body
/// decides the state; a `NetID` line carries the network identifier as
/// its second word and the device address as its fourth.
pub open spec fn join_line_spec(line: Seq<u8>) -> Option<JoinUrcView> {
    if !has_prefix(line, crate::tags::spec_join_tag()) {
        None
    } else {
        let b = line.skip(7);
        if has_prefix(b, crate::tags::spec_start_word()) {
            Some(JoinUrcView::Start)
        } else if has_prefix(b, crate::tags::spec_auto_join_word()) {
            Some(JoinUrcView::AutoJoin(AutoJoin::Off))
        } else if has_prefix(b, crate::tags::spec_normal_word()) {
            Some(JoinUrcView::Normal)
        } else if has_prefix(b, crate::tags::spec_failed_word()) {
            Some(JoinUrcView::Failed)
        } else if has_prefix(b, crate::tags::spec_joined_already_word()) {
            Some(JoinUrcView::JoinedAlready)
        } else if has_prefix(b, crate::tags::spec_network_joined_word()) {
            Some(JoinUrcView::NetworkJoined)
        } else if has_prefix(b, crate::tags::spec_netid_word()) {
            match (nth_word_spec(b, 1), nth_word_spec(b, 3)) {
                (Some(net), Some(addr)) => if net.len() <= 12 && addr.len() <= 22 {
                    Some(JoinUrcView::Success(net, addr))
                } else {
                    None
                },
                _ => None,
            }
        } else if has_prefix(b, crate::tags::spec_done_word()) {
            Some(JoinUrcView::Done)
        } else {
            None
        }
    }
}

impl JoinUrc {
    /// Parses one complete `+JOIN: …` line.
    pub fn parse(buf: &[u8]) -> (r: Option<JoinUrc>)
        ensures
            match r {
                Some(j) => join_line_spec(buf@) == Some(j@),
                None => join_line_spec(buf@) is None,
            },
    {
        let tag = crate::tags::join_tag();
        if !crate::scan::starts_with(buf, tag.as_slice()) {
            return None;
        }
        let b = vstd::slice::slice_subrange(buf, 7, buf.len());
        proof {
            assert(b@ =~= buf@.skip(7));
        }
        if crate::scan::starts_with(b, crate::tags::start_word().as_slice()) {
            Some(JoinUrc::Start)
        } else if crate::scan::starts_with(b, crate::tags::auto_join_word().as_slice()) {
            Some(JoinUrc::AutoJoin(AutoJoin::Off))
        } else if crate::scan::starts_with(b, crate::tags::normal_word().as_slice()) {
            Some(JoinUrc::Normal)
        } else if crate::scan::starts_with(b, crate::tags::failed_word().as_slice()) {
            Some(JoinUrc::Failed)
        } else if crate::scan::starts_with(b, crate::tags::joined_already_word().as_slice()) {
            Some(JoinUrc::JoinedAlready)
        } else if crate::scan::starts_with(b, crate::tags::network_joined_word().as_slice()) {
            Some(JoinUrc::NetworkJoined)
        } else if crate::scan::starts_with(b, crate::tags::netid_word().as_slice()) {
            let net = match nth_word(b, 1) {
                Some(w) => w,
                None => {
                    return None;
                },
            };
            let addr = match nth_word(b, 3) {
                Some(w) => w,
                None => {
                    return None;
                },
            };
            let net_text = match BoundedText::<12>::from_bytes(net.as_slice()) {
                Ok(t) => t,
                Err(_) => {
                    return None;
                },
            };
            let addr_text = match BoundedText::<22>::from_bytes(addr.as_slice()) {
                Ok(t) => t,
                Err(_) => {
                    return None;
                },
            };
            Some(JoinUrc::Success(net_text, addr_text))
        } else if crate::scan::starts_with(b, crate::tags::done_word().as_slice()) {
            Some(JoinUrc::Done)
        } else {
            None
        }
    }
}

/// Reading of the receive-window statistics that follow `RXWIN` in a
/// progress line: `<w>, RSSI <r>, SNR <s>`.
pub open spec fn stats_spec(a: Seq<u8>) -> Option<MessageStats> {
    let i0 = find_sub(a, crate::tags::spec_rssi_sep());
    if i0 < 0 {
        None
    } else {
        let rxwin_txt = a.subrange(0, i0);
        let a2 = a.skip(i0 + 7);
        let i1 = find_sub(a2, crate::tags::spec_snr_sep());
        if i1 < 0 {
            None
        } else {
            let rssi_txt = a2.subrange(0, i1);
            let snr_txt = a2.skip(i1 + 6);
            if rxwin_txt.len() >= 1 && all_dec_digits(rxwin_txt) && dec_val(rxwin_txt) <= 255
                && is_signed_dec(rssi_txt) && -128 <= signed_dec_val(rssi_txt) <= 127 {
                match snr_centi_spec(snr_txt) {
                    Some(snr) => Some(MessageStats {
                        rxwin: dec_val(rxwin_txt) as u8,
                        rssi: signed_dec_val(rssi_txt) as i8,
                        snr_centi: snr as i32,
                    }),
                    None => None,
                }
            } else {
                None
            }
        }
    }
}

/// Parses receive-window statistics after `RXWIN`.
pub fn parse_stats(a: &[u8]) -> (r: Option<MessageStats>)
    ensures
        r == stats_spec(a@),
{
    let rs = crate::tags::rssi_sep();
    let ss = crate::tags::snr_sep();
    let i0 = match crate::scan::find(a, rs.as_slice()) {
        Some(i) => i,
        None => {
            return None;
        },
    };
    let alen = a.len();
    proof {
        crate::scan::lemma_find_sub(a@, rs@);
        assert(crate::scan::matches_at(a@, rs@, i0 as int));
        assert(i0 + 7 <= alen);
    }
    let rxwin_txt = vstd::slice::slice_subrange(a, 0, i0);
    let a2 = vstd::slice::slice_subrange(a, i0 + 7, alen);
    proof {
        assert(rxwin_txt@ =~= a@.subrange(0, i0 as int));
        assert(a2@ =~= a@.skip(i0 + 7));
    }
    let i1 = match crate::scan::find(a2, ss.as_slice()) {
        Some(i) => i,
        None => {
            return None;
        },
    };
    proof {
        crate::scan::lemma_find_sub(a2@, ss@);
        assert(crate::scan::matches_at(a2@, ss@, i1 as int));
    }
    let rssi_txt = vstd::slice::slice_subrange(a2, 0, i1);
    let snr_txt = vstd::slice::slice_subrange(a2, i1 + 6, a2.len());
    proof {
        assert(rssi_txt@ =~= a2@.subrange(0, i1 as int));
        assert(snr_txt@ =~= a2@.skip(i1 + 6));
    }
    let rxwin = match crate::hex::parse_dec_u8(rxwin_txt) {
        Some(v) => v,
        None => {
            return None;
        },
    };
    let rssi32 = match crate::hex::parse_dec_i32(rssi_txt) {
        Some(v) => v,
        None => {
            return None;
        },
    };
    if rssi32 < -128 || rssi32 > 127 {
        return None;
    }
    let snr = match crate::hex::parse_snr_centi(snr_txt) {
        Some(v) => v,
        None => {
            return None;
        },
    };
    Some(MessageStats { rxwin, rssi: rssi32 as i8, snr_centi: snr })
}

/// One `+MSGHEX: …` or `+CMSGHEX: …` send-progress line, read.
#[derive(Debug, Clone, Copy, PartialEq, Eq, Structural)]
pub enum MessageHexSend {
    /// `Start`.
    Start,
    /// `FPENDING`: the server holds more data.
    Pending,
    /// `ACK Received`.
    AckReceived,
    /// `Wait ACK`.
    WaitAck,
    /// `RXWIN<w>, RSSI <r>, SNR <s>` receive-window statistics.
    RxWinRssiSnr(u8, i8, i32),
    /// `Done`.
    Done,
}

/// Reading of the body of a send-progress line.
pub open spec fn msghex_body_spec(x: Seq<u8>) -> Option<MessageHexSend> {
    if has_prefix(x, crate::tags::spec_start_word()) {
        Some(MessageHexSend::Start)
    } else if has_prefix(x, crate::tags::spec_ack_received_word()) {
        Some(MessageHexSend::AckReceived)
    } else if has_prefix(x, crate::tags::spec_wait_ack_word()) {
        Some(MessageHexSend::WaitAck)
    } else if has_prefix(x, crate::tags::spec_fpending_word()) {
        Some(MessageHexSend::Pending)
    } else if has_prefix(x, crate::tags::spec_rxwin_word()) {
        match stats_spec(x.skip(5)) {
            Some(st) => Some(MessageHexSend::RxWinRssiSnr(st.rxwin, st.rssi, st.snr_centi)),
            None => None,
        }
    } else if has_prefix(x, crate::tags::spec_done_word()) {
        Some(MessageHexSend::Done)
    } else {
        None
    }
}

/// Reading of one complete send-progress line, either tag.
pub open spec fn msghex_line_spec(line: Seq<u8>) -> Option<MessageHexSend> {
    if has_prefix(line, crate::tags::spec_msghex_tag()) {
        msghex_body_spec(line.skip(9))
    } else if has_prefix(line, crate::tags::spec_cmsghex_tag()) {
        msghex_body_spec(line.skip(10))
    } else {
        None
    }
}

impl MessageHexSend {
    /// Parses one complete `+MSGHEX: …` or `+CMSGHEX: …` line.
    pub fn parse(buf: &[u8]) -> (r: Option<MessageHexSend>)
        ensures
            r == msghex_line_spec(buf@),
    {
        let mt = crate::tags::msghex_tag();
        let ct = crate::tags::cmsghex_tag();
        let x: &[u8] = if crate::scan::starts_with(buf, mt.as_slice()) {
            vstd::slice::slice_subrange(buf, 9, buf.len())
        } else if crate::scan::starts_with(buf, ct.as_slice()) {
            vstd::slice::slice_subrange(buf, 10, buf.len())
        } else {
            return None;
        };
        proof {
            if has_prefix(buf@, mt@) {
                assert(x@ =~= buf@.skip(9));
            } else {
                assert(x@ =~= buf@.skip(10));
            }
        }
        Self::parse_body(x)
    }

    fn parse_body(x: &[u8]) -> (r: Option<MessageHexSend>)
        ensures
            r == msghex_body_spec(x@),
    {
        if crate::scan::starts_with(x, crate::tags::start_word().as_slice()) {
            Some(MessageHexSend::Start)
        } else if crate::scan::starts_with(x, crate::tags::ack_received_word().as_slice()) {
            Some(MessageHexSend::AckReceived)
        } else if crate::scan::starts_with(x, crate::tags::wait_ack_word().as_slice()) {
            Some(MessageHexSend::WaitAck)
        } else if crate::scan::starts_with(x, crate::tags::fpending_word().as_slice()) {
            Some(MessageHexSend::Pending)
        } else if crate::scan::starts_with(x, crate::tags::rxwin_word().as_slice()) {
            let a = vstd::slice::slice_subrange(x, 5, x.len());
            proof {
                assert(a@ =~= x@.skip(5));
            }
            match parse_stats(a) {
                Some(st) => Some(MessageHexSend::RxWinRssiSnr(st.rxwin, st.rssi, st.snr_centi)),
                None => None,
            }
        } else if crate::scan::starts_with(x, crate::tags::done_word().as_slice()) {
            Some(MessageHexSend::Done)
        } else {
            None
        }
    }
}

/// Port and length of a downlink frame.
#[derive(Debug, Clone, Copy, PartialEq, Eq, Structural)]
pub struct Payload {
    /// LoRaWAN port the frame arrived on.
    pub port: u8,
    /// Number of payload bytes.
    pub length: usize,
}

/// One `+MSG: …` downlink-progress line, read.
#[derive(Debug, Clone)]
pub enum MessageReceived {
    /// `PORT: <p>; RX: "<hex>"`: a downlink frame.
    Payload(ReceivedMessage),
    /// `RXWIN<w>, RSSI <r>, SNR <s>` receive-window statistics.
    RxWinRssiSnr(u8, i8, i32),
    /// `FPENDING`: the server holds more data.
    FPending,
    /// `Done`.
    Done,
}

/// Ghost image of a downlink-progress line.
pub enum MessageReceivedView {
    /// A downlink frame.
    Payload(ReceivedMessageView),
    /// Receive-window statistics.
    RxWinRssiSnr(u8, i8, i32),
    /// The server holds more data.
    FPending,
    /// `Done`.
    Done,
}

impl View for MessageReceived {
    type V = MessageReceivedView;

    open spec fn view(&self) -> MessageReceivedView {
        match self {
            MessageReceived::Payload(m) => MessageReceivedView::Payload(m@),
            MessageReceived::RxWinRssiSnr(w, r, s) => MessageReceivedView::RxWinRssiSnr(*w, *r, *s),
            MessageReceived::FPending => MessageReceivedView::FPending,
            MessageReceived::Done => MessageReceivedView::Done,
        }
    }
}

impl MessageReceived {
    /// A payload event carries a well-formed frame.
    pub open spec fn wf(&self) -> bool {
        match self {
            MessageReceived::Payload(m) => m.wf(),
            _ => true,
        }
    }
}

/// Reading of one complete `+MSG: …` line.  A `PORT` line carries a
/// decimal port and a quoted hex payload; the payload may hold an odd
/// number of digits, the last being the high nibble of the final byte.
/// A payload of more than 486 hex digits would not fit a LoRaWAN frame
/// and leaves the line unrecognised.
pub open spec fn msg_line_spec(line: Seq<u8>) -> Option<MessageReceivedView> {
    if !has_prefix(line, crate::tags::spec_msg_tag()) {
        None
    } else {
        let x = line.skip(6);
        if has_prefix(x, crate::tags::spec_port_word()) {
            let a = x.skip(6);
            let i0 = find_sub(a, seq![59u8]);
            if i0 < 0 {
                None
            } else {
                let port_txt = a.subrange(0, i0);
                let after = a.skip(i0);
                if has_prefix(after, crate::tags::spec_rx_sep()) {
                    let h = after.skip(7);
                    let i1 = find_sub(h, crate::tags::spec_quote());
                    if i1 < 0 {
                        None
                    } else {
                        let hexs = h.subrange(0, i1);
                        if port_txt.len() >= 1 && all_dec_digits(port_txt)
                            && dec_val(port_txt) <= 255
                            && hexs.len() <= 486 && all_hex_digits(hexs) {
                            Some(MessageReceivedView::Payload(ReceivedMessageView {
                                port: dec_val(port_txt) as u8,
                                payload: hex_decode_spec(hexs),
                            }))
                        } else {
                            None
                        }
                    }
                } else {
                    None
                }
            }
        } else if has_prefix(x, crate::tags::spec_rxwin_word()) {
            match stats_spec(x.skip(5)) {
                Some(st) => Some(MessageReceivedView::RxWinRssiSnr(st.rxwin, st.rssi,
                    st.snr_centi)),
                None => None,
            }
        } else if has_prefix(x, crate::tags::spec_done_word()) {
            Some(MessageReceivedView::Done)
        } else if has_prefix(x, crate::tags::spec_fpending_word()) {
            Some(MessageReceivedView::FPending)
        } else {
            None
        }
    }
}

impl MessageReceived {
    /// Parses one complete `+MSG: …` line.
    pub fn parse(buf: &[u8]) -> (r: Option<MessageReceived>)
        ensures
            match r {
                Some(m) => msg_line_spec(buf@) == Some(m@) && m.wf(),
                None => msg_line_spec(buf@) is None,
            },
    {
        let gt = crate::tags::msg_tag();
        if !crate::scan::starts_with(buf, gt.as_slice()) {
            return None;
        }
        let x = vstd::slice::slice_subrange(buf, 6, buf.len());
        proof {
            assert(x@ =~= buf@.skip(6));
        }
        if crate::scan::starts_with(x, crate::tags::port_word().as_slice()) {
            let a = vstd::slice::slice_subrange(x, 6, x.len());
            proof {
                assert(a@ =~= x@.skip(6));
            }
            let semi: Vec<u8> = vec![59u8];
            proof {
                assert(semi@ =~= seq![59u8]);
            }
            let i0 = match crate::scan::find(a, semi.as_slice()) {
                Some(i) => i,
                None => {
                    return None;
                },
            };
            proof {
                crate::scan::lemma_find_sub(a@, semi@);
                assert(crate::scan::matches_at(a@, semi@, i0 as int));
            }
            let port_txt = vstd::slice::slice_subrange(a, 0, i0);
            let after = vstd::slice::slice_subrange(a, i0, a.len());
            proof {
                assert(port_txt@ =~= a@.subrange(0, i0 as int));
                assert(after@ =~= a@.skip(i0 as int));
            }
            let rx = crate::tags::rx_sep();
            if !crate::scan::starts_with(after, rx.as_slice()) {
                return None;
            }
            let h = vstd::slice::slice_subrange(after, 7, after.len());
            proof {
                assert(h@ =~= after@.skip(7));
            }
            let q = crate::tags::quote();
            let i1 = match crate::scan::find(h, q.as_slice()) {
                Some(i) => i,
                None => {
                    return None;
                },
            };
            proof {
                crate::scan::lemma_find_sub(h@, q@);
                assert(crate::scan::matches_at(h@, q@, i1 as int));
            }
            let hexs = vstd::slice::slice_subrange(h, 0, i1);
            proof {
                assert(hexs@ =~= h@.subrange(0, i1 as int));
            }
            let port = match crate::hex::parse_dec_u8(port_txt) {
                Some(p) => p,
                None => {
                    return None;
                },
            };
            if hexs.len() > 486 {
                return None;
            }
            let payload: Vec<u8> = if hexs.len() == 0 {
                let empty: Vec<u8> = Vec::new();
                proof {
                    assert(empty@ =~= hex_decode_spec(hexs@));
                }
                empty
            } else {
                match crate::hex::hex_decode_bytes(hexs) {
                    Some(v) => v,
                    None => {
                        return None;
                    },
                }
            };
            let length = payload.len();
            Some(MessageReceived::Payload(ReceivedMessage { port, payload, length }))
        } else if crate::scan::starts_with(x, crate::tags::rxwin_word().as_slice()) {
            let a = vstd::slice::slice_subrange(x, 5, x.len());
            proof {
                assert(a@ =~= x@.skip(5));
            }
            match parse_stats(a) {
                Some(st) => Some(MessageReceived::RxWinRssiSnr(st.rxwin, st.rssi, st.snr_centi)),
                None => None,
            }
        } else if crate::scan::starts_with(x, crate::tags::done_word().as_slice()) {
            Some(MessageReceived::Done)
        } else if crate::scan::starts_with(x, crate::tags::fpending_word().as_slice()) {
            Some(MessageReceived::FPending)
        } else {
            None
        }
    }
}

} // verus!
