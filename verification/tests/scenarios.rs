//! End-to-end exchanges: command bytes out, modem bytes in, events and
//! values observed by the client.

use seeed_lora_e5::client::{InitStep, JoinStatus, SeeedLoraE5Client};
use seeed_lora_e5::digester::{DigestResult, InternalError, LoraE5Digester};
use seeed_lora_e5::general::commands::FirmwareVersion;
use seeed_lora_e5::lora::commands::LoraJoinOtaa;
use seeed_lora_e5::lora::responses::ModeGetSetResponse;
use seeed_lora_e5::lora::types::LoraJoinMode;
use seeed_lora_e5::urc::{EventBus, URCMessages};
use seeed_lora_e5::Error;

/// Digests a whole byte stream, applying URCs to the bus and collecting
/// response bodies.
fn run_stream(bus: &mut EventBus, buf: &[u8]) -> Vec<Result<Vec<u8>, InternalError>> {
    let mut digester = LoraE5Digester::new();
    let mut pos = 0usize;
    let mut responses = Vec::new();
    loop {
        let (r, n) = digester.digest(&buf[pos..]);
        match r {
            DigestResult::Nothing => {
                if n == 0 {
                    break;
                }
            },
            DigestResult::Response(res) => responses.push(res),
            DigestResult::Urc(u) => bus.apply_urc(u),
        }
        pos += n;
    }
    assert_eq!(pos, buf.len(), "the stream should be consumed exactly");
    responses
}

#[test]
fn version_round_trip() {
    assert_eq!(FirmwareVersion {}.as_bytes(), b"AT+VER\r\n");
    let mut bus = EventBus::new();
    let responses = run_stream(&mut bus, b"+VER: 5.0.11\r\nOK\r\n");
    assert_eq!(responses.len(), 1);
    let body = responses[0].as_ref().unwrap();
    let v = FirmwareVersion {}.parse(body).unwrap();
    assert_eq!((v.major, v.minor, v.patch), (5, 0, 11));
}

#[test]
fn set_mode_round_trip() {
    let cmd = seeed_lora_e5::lora::commands::ModeSet::otaa();
    assert_eq!(cmd.as_bytes(), b"AT+MODE=LWOTAA\r\n");
    let mut bus = EventBus::new();
    let responses = run_stream(&mut bus, b"+MODE: LWOTAA\r\nOK\r\n");
    let body = responses[0].as_ref().unwrap();
    let mode = ModeGetSetResponse::parse_body(body).unwrap().mode();
    assert_eq!(mode, LoraJoinMode::Otaa);
}

#[test]
fn join_success_latches_and_terminates_the_wait() {
    let mut client = SeeedLoraE5Client::new();
    let mut bus = EventBus::new();
    let cmd: LoraJoinOtaa = client.join_begin(&mut bus);
    assert_eq!(cmd.as_bytes(), b"AT+JOIN\r\n");
    assert_eq!(client.lora_join_status(&bus), JoinStatus::Joining);
    run_stream(&mut bus,
        b"+JOIN: Start\r\n+JOIN: NORMAL\r\n+JOIN: NetID 000013 DevAddr 26:01:1B:8A\r\n\
          +JOIN: Network joined\r\n+JOIN: Done\r\nOK\r\n");
    assert_eq!(client.lora_join_status(&bus), JoinStatus::Success);
    assert_eq!(bus.net_id.as_ref().unwrap().as_bytes(), b"000013");
    assert_eq!(bus.dev_addr.as_ref().unwrap().as_bytes(), b"26:01:1B:8A");
    // The waiter consumes the latched status; the loop stops on it.
    let status = bus.join_status.try_take().unwrap();
    assert_eq!(SeeedLoraE5Client::join_wait_decision(status), Some(JoinStatus::Success));
}

#[test]
fn join_failure_keeps_the_loop_going() {
    let mut client = SeeedLoraE5Client::new();
    let mut bus = EventBus::new();
    client.join_begin(&mut bus);
    run_stream(&mut bus, b"+JOIN: Start\r\n+JOIN: Join failed\r\n+JOIN: Done\r\nOK\r\n");
    assert_eq!(client.lora_join_status(&bus), JoinStatus::Joining);
    let status = bus.join_status.try_take().unwrap();
    assert_eq!(status, JoinStatus::Joining);
    // Not terminal: the loop waits for the next status, or reissues.
    assert_eq!(SeeedLoraE5Client::join_wait_decision(status), None);
}

#[test]
fn confirmed_send_plans_its_three_commands() {
    let mut client = SeeedLoraE5Client::new();
    assert!(client.confirm_send_set(true));
    assert!(client.confirm_send());
    let plan = client.send_plan(3, 12, &[0xDE, 0xAD, 0xBE]).unwrap();
    match plan {
        seeed_lora_e5::client::SendPlan::Confirmed(port, retry, msg) => {
            assert_eq!(port.as_bytes(), b"AT+PORT=12\r\n");
            assert_eq!(retry.as_bytes(), b"AT+RETRY=3\r\n");
            assert_eq!(msg.as_bytes(), b"AT+CMSGHEX=deadbe\r\n");
        },
        _ => panic!("expected a confirmed plan"),
    }
    // The modem acknowledges each step, then reports the send.
    let mut bus = EventBus::new();
    let responses = run_stream(&mut bus, b"+PORT: 12\r\nOK\r\n+RETRY: 3\r\nOK\r\n");
    assert_eq!(responses.len(), 2);
    run_stream(&mut bus,
        b"+CMSGHEX: Start\r\n+CMSGHEX: Wait ACK\r\n+CMSGHEX: ACK Received\r\n\
          +CMSGHEX: RXWIN1, RSSI -95, SNR 7.5\r\n+CMSGHEX: Done\r\nOK\r\n");
    let stats = bus.rx_stats.try_take().unwrap();
    assert_eq!(stats.rxwin, 1);
    assert_eq!(stats.rssi, -95);
    assert_eq!(stats.snr_centi, 750);
}

#[test]
fn unconfirmed_send_uses_repeat_and_msghex() {
    let client = SeeedLoraE5Client::new();
    let plan = client.send_plan(2, 8, &[0x01]).unwrap();
    match plan {
        seeed_lora_e5::client::SendPlan::Unconfirmed(port, repeat, msg) => {
            assert_eq!(port.as_bytes(), b"AT+PORT=8\r\n");
            assert_eq!(repeat.as_bytes(), b"AT+REPT=2\r\n");
            assert_eq!(msg.as_bytes(), b"AT+MSGHEX=01\r\n");
        },
        _ => panic!("expected an unconfirmed plan"),
    }
}

#[test]
fn send_rejects_bad_arguments() {
    let client = SeeedLoraE5Client::new();
    assert!(matches!(client.send_plan(1, 0, &[0x01]), Err(Error::InvalidArgument)));
    assert!(matches!(client.send_plan(1, 5, &[0u8; 243]), Err(Error::InvalidArgument)));
    assert!(client.send_plan(1, 5, &[0u8; 242]).is_ok());
}

#[test]
fn downlink_round_trip() {
    let mut bus = EventBus::new();
    run_stream(&mut bus,
        b"+MSG: PORT: 5; RX: \"48656C6C6F\"\r\n+MSG: RXWIN2, RSSI -101, SNR 3.2\r\n\
          +MSG: Done\r\nOK\r\n");
    assert_eq!(bus.downlink_count.try_signaled_value(), Some(1));
    let (msg, stats) = SeeedLoraE5Client::receive_take(&mut bus).unwrap();
    assert_eq!(msg.port, 5);
    assert_eq!(msg.length, 5);
    assert_eq!(msg.payload.as_slice(), b"Hello");
    assert_eq!(stats.rxwin, 2);
    assert_eq!(stats.rssi, -101);
    assert_eq!(stats.snr_centi, 320);
    // Both slots were consumed; a second receive finds nothing.
    assert!(SeeedLoraE5Client::receive_take(&mut bus).is_none());
}

#[test]
fn downlink_latches_payload_before_stats() {
    let mut bus = EventBus::new();
    // Stale statistics from an earlier frame sit in the slot.
    run_stream(&mut bus, b"+MSG: RXWIN1, RSSI -90, SNR 1\r\n");
    assert!(bus.rx_stats.signaled());
    // The payload line clears them: its own statistics come later.
    run_stream(&mut bus, b"+MSG: PORT: 7; RX: \"AA\"\r\n");
    assert!(bus.last_downlink.signaled());
    assert!(!bus.rx_stats.signaled());
    run_stream(&mut bus, b"+MSG: RXWIN2, RSSI -80, SNR 2\r\n");
    assert!(bus.rx_stats.signaled());
}

#[test]
fn downlink_counter_counts_and_wraps() {
    let mut bus = EventBus::new();
    assert_eq!(bus.downlink_count.try_signaled_value(), None);
    for expected in 1u32..=3 {
        run_stream(&mut bus, b"+MSG: PORT: 1; RX: \"00\"\r\n");
        assert_eq!(bus.downlink_count.try_signaled_value(), Some(expected));
    }
    // At the top of the range the counter wraps to zero.
    bus.downlink_count.signal(u32::MAX);
    let urc = URCMessages::parse(b"+MSG: PORT: 1; RX: \"00\"").unwrap();
    bus.apply_urc(urc);
    assert_eq!(bus.downlink_count.try_signaled_value(), Some(0));
    let urc2 = URCMessages::parse(b"+MSG: PORT: 1; RX: \"00\"").unwrap();
    bus.apply_urc(urc2);
    assert_eq!(bus.downlink_count.try_signaled_value(), Some(1));
}

#[test]
fn start_up_handshake_retries_then_gives_up() {
    assert_eq!(SeeedLoraE5Client::init_step(10, true), InitStep::Ready);
    assert_eq!(SeeedLoraE5Client::init_step(10, false), InitStep::Retry(9));
    assert_eq!(SeeedLoraE5Client::init_step(1, false), InitStep::Retry(0));
    assert_eq!(SeeedLoraE5Client::init_step(0, false), InitStep::GiveUp);
}

#[test]
fn join_status_reads_without_consuming() {
    let client = SeeedLoraE5Client::new();
    let mut bus = EventBus::new();
    assert_eq!(client.lora_join_status(&bus), JoinStatus::NotJoined);
    bus.join_status.signal(JoinStatus::Success);
    assert_eq!(client.lora_join_status(&bus), JoinStatus::Success);
    assert_eq!(client.lora_join_status(&bus), JoinStatus::Success);
    assert_eq!(client.downlink_message_count(&bus), 0);
}

#[test]
fn stale_success_overwritten_by_new_attempt() {
    // The slot keeps only the last value: a fresh attempt overwrites a
    // stale success that nobody consumed.
    let mut client = SeeedLoraE5Client::new();
    let mut bus = EventBus::new();
    run_stream(&mut bus, b"+JOIN: Network joined\r\n");
    assert_eq!(client.lora_join_status(&bus), JoinStatus::Success);
    client.join_begin(&mut bus);
    assert_eq!(client.lora_join_status(&bus), JoinStatus::Joining);
}
