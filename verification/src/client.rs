//! The client's own state and decisions.
//!
//! The driver talks to the modem through a transport that the caller
//! supplies; what stands here is everything the client decides without
//! it: its join bookkeeping, the confirmed-send flag, the start-up retry
//! policy, the plan a send follows, and the step the join loop takes on
//! each status it consumes.

use vstd::prelude::*;

use crate::bounded::BoundedText;
use crate::lora::commands::{
    LoraJoinOtaa, LoraPortSet, MessageHexConfirmed, MessageHexUnconfirmed, RepeatSet, RetrySet,
};
use crate::urc::EventBus;
use crate::Error;

verus! {

/// Where a join stands.
#[derive(Debug, Clone, Copy, PartialEq, Eq, Structural)]
pub enum JoinStatus {
    /// An attempt is under way; failed attempts stay here while the
    /// modem retries.
    Joining,
    /// The network accepted the device.
    Success,
    /// The client gave the join up.
    Failure,
    /// No attempt has been made, or the last one was abandoned.
    NotJoined,
    /// Nothing is known.
    Unknown,
}

/// The client's view of its join: the status and the identifiers the
/// network assigned, once known.
#[derive(Debug, Clone)]
pub struct OtaaJoinStatus {
    /// Where the join stands.
    pub join_status: JoinStatus,
    /// The network identifier, once a join reported it.
    pub net_id: Option<BoundedText<12>>,
    /// The device address, once a join reported it.
    pub dev_addr: Option<BoundedText<22>>,
}

/// Only these statuses end the join loop.
pub open spec fn join_terminal(s: JoinStatus) -> bool {
    s == JoinStatus::Success || s == JoinStatus::Failure || s == JoinStatus::NotJoined
}

/// What the join loop does with one consumed status: return it, or wait
/// for the next one.
pub open spec fn join_wait_decision_spec(s: JoinStatus) -> Option<JoinStatus> {
    if join_terminal(s) {
        Some(s)
    } else {
        None
    }
}

/// Law: once `Success` is latched and a waiter consumes it, the join
/// loop's very next decision is to stop and return it.
pub proof fn lemma_join_success_terminates(slot: Option<JoinStatus>)
    requires
        slot == Some(JoinStatus::Success),
    ensures
        join_wait_decision_spec(slot.unwrap()) == Some(JoinStatus::Success),
{
}

/// What the start-up handshake does next.
#[derive(Debug, Clone, Copy, PartialEq, Eq, Structural)]
pub enum InitStep {
    /// The modem answered; the client is ready.
    Ready,
    /// No answer yet; try again with this many attempts left.
    Retry(u8),
    /// The attempts are exhausted; reset to factory settings and give up
    /// with a timeout.
    GiveUp,
}

/// The plan one send follows: set the port, set the retry or repeat
/// count, then issue the payload, confirmed or not.
#[derive(Debug, Clone)]
pub enum SendPlan {
    /// A confirmed send: port, retries, payload.
    Confirmed(LoraPortSet, RetrySet, MessageHexConfirmed),
    /// An unconfirmed send: port, repeats, payload.
    Unconfirmed(LoraPortSet, RepeatSet, MessageHexUnconfirmed),
}

/// The driver's client-side state.
#[derive(Debug, Clone)]
pub struct SeeedLoraE5Client {
    /// The client's view of its join.
    pub join_status: OtaaJoinStatus,
    /// Whether sends ask the server for confirmation.
    pub confirmed_sending: bool,
}

impl SeeedLoraE5Client {
    /// A fresh client: not joined, unconfirmed sends.
    pub fn new() -> (r: Self)
        ensures
            r.join_status.join_status == JoinStatus::NotJoined,
            r.join_status.net_id is None,
            r.join_status.dev_addr is None,
            !r.confirmed_sending,
    {
        SeeedLoraE5Client {
            join_status: OtaaJoinStatus {
                join_status: JoinStatus::NotJoined,
                net_id: None,
                dev_addr: None,
            },
            confirmed_sending: false,
        }
    }

    /// One step of the start-up handshake: the modem either answered, or
    /// the client retries until its attempts run out.
    pub fn init_step(count_down: u8, at_ok: bool) -> (r: InitStep)
        ensures
            at_ok ==> r == InitStep::Ready,
            !at_ok && count_down > 0 ==> r == InitStep::Retry((count_down - 1) as u8),
            !at_ok && count_down == 0 ==> r == InitStep::GiveUp,
    {
        if at_ok {
            InitStep::Ready
        } else if count_down > 0 {
            InitStep::Retry(count_down - 1)
        } else {
            InitStep::GiveUp
        }
    }

    /// Does this client send confirmed payloads?
    pub fn confirm_send(&self) -> (r: bool)
        ensures
            r == self.confirmed_sending,
    {
        self.confirmed_sending
    }

    /// Switches confirmed sending, a local flag that never reaches the
    /// modem.
    pub fn confirm_send_set(&mut self, is_on: bool) -> (r: bool)
        ensures
            final(self).confirmed_sending == is_on,
            final(self).join_status == old(self).join_status,
            r == is_on,
    {
        self.confirmed_sending = is_on;
        is_on
    }

    /// Opens a join attempt: both the client and the bus read `Joining`,
    /// and the join command to send comes back.
    pub fn join_begin(&mut self, bus: &mut EventBus) -> (r: LoraJoinOtaa)
        ensures
            final(self).join_status.join_status == JoinStatus::Joining,
            final(self).confirmed_sending == old(self).confirmed_sending,
            final(bus)@.join_status == Some(JoinStatus::Joining),
            final(bus)@.last_downlink == old(bus)@.last_downlink,
            final(bus)@.downlink_count == old(bus)@.downlink_count,
            final(bus)@.rx_stats == old(bus)@.rx_stats,
    {
        self.join_status.join_status = JoinStatus::Joining;
        bus.join_status.signal(JoinStatus::Joining);
        LoraJoinOtaa {}
    }

    /// Records that the join command could not be sent: the attempt is
    /// abandoned on both the client and the bus.
    pub fn join_send_failed(&mut self, bus: &mut EventBus)
        ensures
            final(self).join_status.join_status == JoinStatus::NotJoined,
            final(self).confirmed_sending == old(self).confirmed_sending,
            final(bus)@.join_status == Some(JoinStatus::NotJoined),
            final(bus)@.last_downlink == old(bus)@.last_downlink,
            final(bus)@.downlink_count == old(bus)@.downlink_count,
            final(bus)@.rx_stats == old(bus)@.rx_stats,
    {
        self.join_status.join_status = JoinStatus::NotJoined;
        bus.join_status.signal(JoinStatus::NotJoined);
    }

    /// Reads the join status latched on the bus without consuming it;
    /// an empty slot reads as not joined.
    pub fn lora_join_status(&self, bus: &EventBus) -> (r: JoinStatus)
        ensures
            r == match bus@.join_status {
                Some(s) => s,
                None => JoinStatus::NotJoined,
            },
    {
        match bus.join_status.try_signaled_value() {
            Some(s) => s,
            None => JoinStatus::NotJoined,
        }
    }

    /// What the join loop does with one consumed status.
    pub fn join_wait_decision(status: JoinStatus) -> (r: Option<JoinStatus>)
        ensures
            r == join_wait_decision_spec(status),
    {
        match status {
            JoinStatus::Success => Some(JoinStatus::Success),
            JoinStatus::Failure => Some(JoinStatus::Failure),
            JoinStatus::NotJoined => Some(JoinStatus::NotJoined),
            _ => None,
        }
    }

    /// Plans one send.  The port must be 1 to 255 and the payload at
    /// most 242 bytes; the confirmed-send flag picks the payload command
    /// and whether retries or repeats carry the count.
    pub fn send_plan(&self, retransmission_times: u8, port: u8, data: &[u8]) -> (r: Result<
        SendPlan,
        Error,
    >)
        ensures
            (port == 0 || data@.len() > 242) <==> (r matches Err(e) && e
                == Error::InvalidArgument),
            port != 0 && data@.len() <= 242 ==> match r {
                Ok(plan) => match plan {
                    SendPlan::Confirmed(p, rt, m) => self.confirmed_sending && p.port == port
                        && rt.retry == retransmission_times && m.message@ == data@ && m.wf(),
                    SendPlan::Unconfirmed(p, rp, m) => !self.confirmed_sending && p.port == port
                        && rp.repeat == retransmission_times && m.message@ == data@ && m.wf(),
                },
                Err(_) => false,
            },
    {
        if port == 0 || data.len() > 242 {
            return Err(Error::InvalidArgument);
        }
        let payload = match crate::bounded::BoundedBytes::<242>::from_bytes(data) {
            Ok(b) => b,
            Err(_) => {
                proof {
                    assert(false);
                }
                return Err(Error::InvalidArgument);
            },
        };
        let port_cmd = LoraPortSet { port };
        if self.confirmed_sending {
            Ok(SendPlan::Confirmed(
                port_cmd,
                RetrySet { retry: retransmission_times },
                MessageHexConfirmed { message: payload },
            ))
        } else {
            Ok(SendPlan::Unconfirmed(
                port_cmd,
                RepeatSet { repeat: retransmission_times },
                MessageHexUnconfirmed { message: payload },
            ))
        }
    }

    /// Takes one downlink and its statistics off the bus, once both are
    /// latched, clearing both slots.  With either still missing, nothing
    /// is consumed: the caller waits for the next signal.
    pub fn receive_take(bus: &mut EventBus) -> (r: Option<(
        crate::urc::ReceivedMessage,
        crate::urc::MessageStats,
    )>)
        ensures
            old(bus)@.last_downlink is Some && old(bus)@.rx_stats is Some ==> match r {
                Some(pair) => pair.0@ == old(bus)@.last_downlink.unwrap()
                    && Some(pair.1) == old(bus)@.rx_stats
                    && final(bus)@.last_downlink is None
                    && final(bus)@.rx_stats is None
                    && final(bus)@.downlink_count == old(bus)@.downlink_count
                    && final(bus)@.join_status == old(bus)@.join_status,
                None => false,
            },
            !(old(bus)@.last_downlink is Some && old(bus)@.rx_stats is Some) ==> r is None
                && final(bus)@ == old(bus)@,
    {
        if bus.last_downlink.signaled() && bus.rx_stats.signaled() {
            let msg = match bus.last_downlink.try_take() {
                Some(m) => m,
                None => {
                    proof {
                        assert(false);
                    }
                    return None;
                },
            };
            let stats = match bus.rx_stats.try_take() {
                Some(s) => s,
                None => {
                    proof {
                        assert(false);
                    }
                    return None;
                },
            };
            Some((msg, stats))
        } else {
            None
        }
    }

    /// Reads the downlink counter latched on the bus without consuming
    /// it; an empty slot reads as zero.
    pub fn downlink_message_count(&self, bus: &EventBus) -> (r: u32)
        ensures
            r == match bus@.downlink_count {
                Some(v) => v,
                None => 0u32,
            },
    {
        match bus.downlink_count.try_signaled_value() {
            Some(v) => v,
            None => 0,
        }
    }
}

} // verus!
