//! Unsolicited result codes and their fan-out.
//!
//! The modem emits spontaneous lines ("URCs") for join progress, send
//! progress and downlinks.  The digester classifies them; the typed
//! parsers in [`crate::lora::urc`] give them structure; and the event
//! bus here latches the values that client operations wait on.

use vstd::prelude::*;

use crate::lora::urc::{JoinUrc, MessageHexSend, MessageReceived};
use crate::lora::urc::{JoinUrcView, MessageReceivedView};

verus! {

/// A downlink frame handed to the application.
#[derive(Debug, Clone)]
pub struct ReceivedMessage {
    /// LoRaWAN port the frame arrived on.
    pub port: u8,
    /// The decoded payload bytes.
    pub payload: Vec<u8>,
    /// Number of payload bytes; equals `payload.len()`.
    pub length: usize,
}

/// Ghost image of a received downlink frame.
pub struct ReceivedMessageView {
    /// LoRaWAN port the frame arrived on.
    pub port: u8,
    /// The decoded payload bytes.
    pub payload: Seq<u8>,
}

impl View for ReceivedMessage {
    type V = ReceivedMessageView;

    open spec fn view(&self) -> ReceivedMessageView {
        ReceivedMessageView { port: self.port, payload: self.payload@ }
    }
}

impl ReceivedMessage {
    /// The length field counts the payload bytes, and a LoRaWAN frame
    /// carries at most 243 of them.
    pub open spec fn wf(&self) -> bool {
        self.length == self@.payload.len() && self.length <= 243
    }

    /// Reads the port.
    pub fn port(&self) -> (r: u8)
        ensures
            r == self@.port,
    {
        self.port
    }

    /// Reads the payload bytes.
    pub fn payload_bytes(&self) -> (r: &[u8])
        ensures
            r@ == self@.payload,
    {
        self.payload.as_slice()
    }
}

/// Receive-window quality of one frame.  The signal-to-noise ratio is
/// held in hundredths of a decibel.
#[derive(Debug, Clone, Copy, PartialEq, Eq, Structural)]
pub struct MessageStats {
    /// Receive window index.
    pub rxwin: u8,
    /// Received signal strength, dBm.
    pub rssi: i8,
    /// Signal-to-noise ratio, hundredths of a dB.
    pub snr_centi: i32,
}

/// Outcome of a confirmed send.
#[derive(Debug, Clone, Copy, PartialEq, Eq, Structural)]
pub enum SentMessage {
    /// The send did not complete.
    Failed,
    /// The send completed with these receive-window statistics.
    Success(MessageStats),
}

/// A classified unsolicited line.
#[derive(Debug, Clone)]
pub enum URCMessages {
    /// A complete URC-tagged line whose body no grammar recognised.
    Unknown,
    /// Join progress.
    Join(JoinUrc),
    /// Send progress.
    MessageHexSend(MessageHexSend),
    /// Downlink progress.
    MessageReceived(MessageReceived),
}

/// Ghost image of a classified unsolicited line.
pub enum URCView {
    /// A complete URC-tagged line whose body no grammar recognised.
    Unknown,
    /// Join progress.
    Join(JoinUrcView),
    /// Send progress.
    MessageHexSend(MessageHexSend),
    /// Downlink progress.
    MessageReceived(MessageReceivedView),
}

impl View for URCMessages {
    type V = URCView;

    open spec fn view(&self) -> URCView {
        match self {
            URCMessages::Unknown => URCView::Unknown,
            URCMessages::Join(j) => URCView::Join(j@),
            URCMessages::MessageHexSend(m) => URCView::MessageHexSend(*m),
            URCMessages::MessageReceived(m) => URCView::MessageReceived(m@),
        }
    }
}

impl URCMessages {
    /// A downlink payload event must carry a well-formed frame.
    pub open spec fn wf(&self) -> bool {
        match self {
            URCMessages::MessageReceived(m) => m.wf(),
            _ => true,
        }
    }

    /// The typed reading of one complete URC line, by its tag.
    pub open spec fn spec_parse(line: Seq<u8>) -> Option<URCView> {
        if crate::scan::has_prefix(line, crate::tags::spec_join_tag()) {
            match crate::lora::urc::join_line_spec(line) {
                Some(j) => Some(URCView::Join(j)),
                None => None,
            }
        } else if crate::scan::has_prefix(line, crate::tags::spec_msghex_tag())
            || crate::scan::has_prefix(line, crate::tags::spec_cmsghex_tag()) {
            match crate::lora::urc::msghex_line_spec(line) {
                Some(m) => Some(URCView::MessageHexSend(m)),
                None => None,
            }
        } else if crate::scan::has_prefix(line, crate::tags::spec_msg_tag()) {
            match crate::lora::urc::msg_line_spec(line) {
                Some(m) => Some(URCView::MessageReceived(m)),
                None => None,
            }
        } else {
            None
        }
    }

    /// Parses one complete URC line (terminator stripped) into its typed
    /// event, or nothing if no URC grammar matches it.
    pub fn parse(resp: &[u8]) -> (r: Option<URCMessages>)
        ensures
            match r {
                Some(u) => Self::spec_parse(resp@) == Some(u@) && u.wf(),
                None => Self::spec_parse(resp@) is None,
            },
    {
        let jt = crate::tags::join_tag();
        let mt = crate::tags::msghex_tag();
        let ct = crate::tags::cmsghex_tag();
        let gt = crate::tags::msg_tag();
        if crate::scan::starts_with(resp, jt.as_slice()) {
            match JoinUrc::parse(resp) {
                Some(j) => Some(URCMessages::Join(j)),
                None => None,
            }
        } else if crate::scan::starts_with(resp, mt.as_slice())
            || crate::scan::starts_with(resp, ct.as_slice()) {
            match MessageHexSend::parse(resp) {
                Some(m) => Some(URCMessages::MessageHexSend(m)),
                None => None,
            }
        } else if crate::scan::starts_with(resp, gt.as_slice()) {
            match MessageReceived::parse(resp) {
                Some(m) => Some(URCMessages::MessageReceived(m)),
                None => None,
            }
        } else {
            None
        }
    }
}

impl From<JoinUrc> for URCMessages {
    fn from(value: JoinUrc) -> (r: Self) {
        URCMessages::Join(value)
    }
}

impl vstd::std_specs::convert::FromSpecImpl<JoinUrc> for URCMessages {
    open spec fn obeys_from_spec() -> bool {
        true
    }

    open spec fn from_spec(t: JoinUrc) -> Self {
        URCMessages::Join(t)
    }
}

impl From<MessageHexSend> for URCMessages {
    fn from(value: MessageHexSend) -> (r: Self) {
        URCMessages::MessageHexSend(value)
    }
}

impl vstd::std_specs::convert::FromSpecImpl<MessageHexSend> for URCMessages {
    open spec fn obeys_from_spec() -> bool {
        true
    }

    open spec fn from_spec(t: MessageHexSend) -> Self {
        URCMessages::MessageHexSend(t)
    }
}

impl From<MessageReceived> for URCMessages {
    fn from(value: MessageReceived) -> (r: Self) {
        URCMessages::MessageReceived(value)
    }
}

impl vstd::std_specs::convert::FromSpecImpl<MessageReceived> for URCMessages {
    open spec fn obeys_from_spec() -> bool {
        true
    }

    open spec fn from_spec(t: MessageReceived) -> Self {
        URCMessages::MessageReceived(t)
    }
}


/// The driver's event bus: the latching signals URC handling writes and
/// client operations read, plus the last network identifiers seen.
#[derive(Debug)]
pub struct EventBus {
    /// The last downlink frame, until a receive consumes it.
    pub last_downlink: crate::signal::Signal<ReceivedMessage>,
    /// Downlink frames seen so far, wrapping past `u32::MAX` to zero.
    pub downlink_count: crate::signal::Signal<u32>,
    /// Receive-window statistics of the current frame.
    pub rx_stats: crate::signal::Signal<MessageStats>,
    /// Where the join stands.
    pub join_status: crate::signal::Signal<crate::client::JoinStatus>,
    /// The network identifier of the last successful join.
    pub net_id: Option<crate::bounded::BoundedText<12>>,
    /// The device address of the last successful join.
    pub dev_addr: Option<crate::bounded::BoundedText<22>>,
}

/// Ghost image of the event bus.
pub struct BusView {
    /// The last downlink frame.
    pub last_downlink: Option<ReceivedMessageView>,
    /// Downlink frames seen so far.
    pub downlink_count: Option<u32>,
    /// Receive-window statistics of the current frame.
    pub rx_stats: Option<MessageStats>,
    /// Where the join stands.
    pub join_status: Option<crate::client::JoinStatus>,
    /// The network identifier of the last successful join.
    pub net_id: Option<Seq<u8>>,
    /// The device address of the last successful join.
    pub dev_addr: Option<Seq<u8>>,
}

impl View for EventBus {
    type V = BusView;

    open spec fn view(&self) -> BusView {
        BusView {
            last_downlink: match self.last_downlink@ {
                Some(m) => Some(m@),
                None => None,
            },
            downlink_count: self.downlink_count@,
            rx_stats: self.rx_stats@,
            join_status: self.join_status@,
            net_id: match self.net_id {
                Some(t) => Some(t@),
                None => None,
            },
            dev_addr: match self.dev_addr {
                Some(t) => Some(t@),
                None => None,
            },
        }
    }
}

/// An empty bus: nothing latched, nothing known.
pub open spec fn empty_bus() -> BusView {
    BusView {
        last_downlink: None,
        downlink_count: None,
        rx_stats: None,
        join_status: None,
        net_id: None,
        dev_addr: None,
    }
}

/// The downlink counter after one more frame: the slot starts at one,
/// counts up, and wraps past `u32::MAX` to zero.
pub open spec fn next_count(c: Option<u32>) -> u32 {
    match c {
        Option::None => 1u32,
        Option::Some(v) => if v == u32::MAX {
            0u32
        } else {
            (v + 1) as u32
        },
    }
}

/// What one URC event does to the bus.
///
///  - join progress moves the join status: `Start` and `Join failed`
///    latch `Joining` (the modem retries on its own); `Joined already`,
///    `Network joined` and a `NetID` line latch `Success`, the last also
///    recording the identifiers;
///  - a downlink payload clears the statistics slot, latches the frame
///    and counts it;
///  - a receive-window line from either a send or a downlink latches the
///    statistics;
///  - everything else leaves the bus alone.
pub open spec fn apply_spec(b: BusView, u: URCView) -> BusView {
    match u {
        URCView::Join(j) => match j {
            crate::lora::urc::JoinUrcView::Start => BusView {
                join_status: Some(crate::client::JoinStatus::Joining),
                ..b
            },
            crate::lora::urc::JoinUrcView::Failed => BusView {
                join_status: Some(crate::client::JoinStatus::Joining),
                ..b
            },
            crate::lora::urc::JoinUrcView::JoinedAlready => BusView {
                join_status: Some(crate::client::JoinStatus::Success),
                ..b
            },
            crate::lora::urc::JoinUrcView::NetworkJoined => BusView {
                join_status: Some(crate::client::JoinStatus::Success),
                ..b
            },
            crate::lora::urc::JoinUrcView::Success(n, a) => BusView {
                join_status: Some(crate::client::JoinStatus::Success),
                net_id: Some(n),
                dev_addr: Some(a),
                ..b
            },
            _ => b,
        },
        URCView::MessageHexSend(m) => match m {
            MessageHexSend::RxWinRssiSnr(w, r, sn) => BusView {
                rx_stats: Some(MessageStats { rxwin: w, rssi: r, snr_centi: sn }),
                ..b
            },
            _ => b,
        },
        URCView::MessageReceived(m) => match m {
            MessageReceivedView::Payload(rm) => BusView {
                rx_stats: None,
                last_downlink: Some(rm),
                downlink_count: Some(next_count(b.downlink_count)),
                ..b
            },
            MessageReceivedView::RxWinRssiSnr(w, r, sn) => BusView {
                rx_stats: Some(MessageStats { rxwin: w, rssi: r, snr_centi: sn }),
                ..b
            },
            _ => b,
        },
        URCView::Unknown => b,
    }
}

impl EventBus {
    /// A bus with nothing latched and nothing known.
    pub fn new() -> (r: Self)
        ensures
            r@ == empty_bus(),
    {
        EventBus {
            last_downlink: crate::signal::Signal::new(),
            downlink_count: crate::signal::Signal::new(),
            rx_stats: crate::signal::Signal::new(),
            join_status: crate::signal::Signal::new(),
            net_id: None,
            dev_addr: None,
        }
    }

    /// Lets one URC event act on the bus, exactly as [`apply_spec`]
    /// says.
    pub fn apply_urc(&mut self, urc: URCMessages)
        ensures
            final(self)@ == apply_spec(old(self)@, urc@),
    {
        match urc {
            URCMessages::Join(j) => match j {
                JoinUrc::Start => {
                    self.join_status.signal(crate::client::JoinStatus::Joining);
                },
                JoinUrc::Failed => {
                    self.join_status.signal(crate::client::JoinStatus::Joining);
                },
                JoinUrc::JoinedAlready => {
                    self.join_status.signal(crate::client::JoinStatus::Success);
                },
                JoinUrc::NetworkJoined => {
                    self.join_status.signal(crate::client::JoinStatus::Success);
                },
                JoinUrc::Success(n, a) => {
                    self.join_status.signal(crate::client::JoinStatus::Success);
                    self.net_id = Some(n);
                    self.dev_addr = Some(a);
                },
                _ => {},
            },
            URCMessages::MessageHexSend(m) => match m {
                MessageHexSend::RxWinRssiSnr(w, r, sn) => {
                    self.rx_stats.signal(MessageStats { rxwin: w, rssi: r, snr_centi: sn });
                },
                _ => {},
            },
            URCMessages::MessageReceived(m) => match m {
                MessageReceived::Payload(rm) => {
                    self.rx_stats.reset();
                    self.last_downlink.signal(rm);
                    let count = match self.downlink_count.try_signaled_value() {
                        Some(v) => if v == u32::MAX {
                            0
                        } else {
                            v + 1
                        },
                        None => 1,
                    };
                    self.downlink_count.signal(count);
                },
                MessageReceived::RxWinRssiSnr(w, r, sn) => {
                    self.rx_stats.signal(MessageStats { rxwin: w, rssi: r, snr_centi: sn });
                },
                _ => {},
            },
            URCMessages::Unknown => {},
        }
    }
}

/// Law: within one downlink burst, the payload is latched strictly
/// before its statistics.  Latching the payload clears the statistics
/// slot, so any statistics present afterwards were latched later; the
/// statistics line then fills the slot without touching the payload.
pub proof fn lemma_downlink_before_stats(b: BusView, m: ReceivedMessageView, w: u8, r: i8, sn: i32)
    ensures
        ({
            let b1 = apply_spec(b, URCView::MessageReceived(MessageReceivedView::Payload(m)));
            let b2 = apply_spec(b1, URCView::MessageReceived(
                MessageReceivedView::RxWinRssiSnr(w, r, sn)));
            b1.last_downlink == Some(m) && b1.rx_stats is None
                && b2.last_downlink == Some(m)
                && b2.rx_stats == Some(MessageStats { rxwin: w, rssi: r, snr_centi: sn })
        }),
{
}

/// The bus after a whole sequence of events.
pub open spec fn apply_all(b: BusView, evs: Seq<URCView>) -> BusView
    decreases evs.len(),
{
    if evs.len() == 0 {
        b
    } else {
        apply_all(apply_spec(b, evs[0]), evs.skip(1))
    }
}

/// Is this event a complete downlink payload record?
pub open spec fn is_payload_event(u: URCView) -> bool {
    u matches URCView::MessageReceived(MessageReceivedView::Payload(_))
}

/// How many downlink payload records a sequence of events carries.
pub open spec fn payload_count(evs: Seq<URCView>) -> nat
    decreases evs.len(),
{
    if evs.len() == 0 {
        0
    } else {
        (if is_payload_event(evs[0]) {
            1nat
        } else {
            0nat
        }) + payload_count(evs.skip(1))
    }
}

/// The counter slot stands for `k` frames seen: empty for none, else the
/// count modulo 2^32.
pub open spec fn count_models(slot: Option<u32>, k: nat) -> bool {
    if k == 0 {
        slot is None
    } else {
        slot == Some((k % 0x100000000) as u32)
    }
}

/// The counter keeps modelling the number of frames seen, whatever
/// events pass.
pub proof fn lemma_downlink_count_step(b: BusView, evs: Seq<URCView>, k: nat)
    requires
        count_models(b.downlink_count, k),
    ensures
        count_models(apply_all(b, evs).downlink_count, k + payload_count(evs)),
    decreases evs.len(),
{
    if evs.len() > 0 {
        let b1 = apply_spec(b, evs[0]);
        if is_payload_event(evs[0]) {
            assert(count_models(b1.downlink_count, k + 1)) by {
                if k == 0 {
                    assert(next_count(b.downlink_count) == 1);
                } else {
                    let v = (k % 0x100000000) as u32;
                    if v == u32::MAX {
                        assert((k + 1) % 0x100000000 == 0);
                    } else {
                        assert((k + 1) % 0x100000000 == v + 1);
                    }
                }
            }
            lemma_downlink_count_step(b1, evs.skip(1), k + 1);
        } else {
            assert(b1.downlink_count == b.downlink_count);
            lemma_downlink_count_step(b1, evs.skip(1), k);
        }
    }
}

/// Law: starting from an empty bus, after any sequence of events the
/// downlink counter equals the number of complete downlink payload
/// records, modulo 2^32; it stays unlatched until the first frame.
pub proof fn lemma_downlink_count(evs: Seq<URCView>)
    ensures
        count_models(apply_all(empty_bus(), evs).downlink_count, payload_count(evs)),
{
    lemma_downlink_count_step(empty_bus(), evs, 0);
}

} // verus!
