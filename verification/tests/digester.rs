//! The digester on wire bytes: classification, framing, edge cases.

use seeed_lora_e5::digester::{DigestResult, InternalError, LoraE5Digester, ParseError};
use seeed_lora_e5::lora::urc::{JoinUrc, MessageHexSend, MessageReceived};
use seeed_lora_e5::urc::URCMessages;

fn digest(input: &[u8]) -> (DigestResult, usize) {
    let mut d = LoraE5Digester::new();
    d.digest(input)
}

fn expect_response_ok(input: &[u8], body: &[u8], consumed: usize) {
    let (r, n) = digest(input);
    match r {
        DigestResult::Response(Ok(b)) => assert_eq!(b.as_slice(), body),
        _ => panic!("expected a successful response"),
    }
    assert_eq!(n, consumed);
}

fn expect_incomplete(input: &[u8]) {
    let (r, n) = digest(input);
    assert!(matches!(r, DigestResult::Nothing));
    assert_eq!(n, 0);
}

#[test]
fn stray_ok_is_swallowed() {
    let (r, n) = digest(b"OK\r\n");
    assert!(matches!(r, DigestResult::Nothing));
    assert_eq!(n, 4);
    let (r2, n2) = digest(b"OK\r\n+MODE: LWOTAA\r\n");
    assert!(matches!(r2, DigestResult::Nothing));
    assert_eq!(n2, 4);
}

#[test]
fn stray_ok_prefixes_wait() {
    expect_incomplete(b"O");
    expect_incomplete(b"OK");
    expect_incomplete(b"OK\r");
}

#[test]
fn custom_success_strips_envelope() {
    expect_response_ok(b"+VER: 5.0.11\r\n", b"5.0.11", 14);
    expect_response_ok(b"+MODE: LWOTAA\r\n", b"LWOTAA", 15);
    expect_response_ok(b"+DR: US915 DR0\r\n", b"US915 DR0", 16);
}

#[test]
fn subkey_envelope_drops_subkey() {
    expect_response_ok(b"+ID: DevEui, 2C F7 F1 20 32 30 AA BB\r\n",
        b"2C F7 F1 20 32 30 AA BB", 38);
    expect_response_ok(b"+KEY: APPKEY 2B7E151628AED2A6ABF7158809CF4F3C\r\n",
        b"2B7E151628AED2A6ABF7158809CF4F3C", 47);
}

#[test]
fn whole_line_envelopes_keep_the_tag() {
    expect_response_ok(b"+UP_CNT: 17\r\n", b"+UP_CNT: 17", 13);
    expect_response_ok(b"+DOWN_CNT: 4\r\n", b"+DOWN_CNT: 4", 14);
}

#[test]
fn reset_preamble_ends_at_the_stray_nul() {
    expect_response_ok(b"+RESET: OK\r\n\x00", b"OK", 13);
    expect_incomplete(b"+RESET: OK\r\n");
}

#[test]
fn generic_success_trims_the_body() {
    expect_response_ok(b"\r\nfirmware ready\r\nOK\r\n", b"firmware ready", 22);
}

#[test]
fn custom_error_carries_its_token() {
    let (r, n) = digest(b"+MSGHEX: ERROR(-20)\r\n".as_slice());
    // A URC-tagged line is consumed whole even when unreadable.
    assert!(matches!(r, DigestResult::Urc(URCMessages::Unknown)));
    assert_eq!(n, 21);
    let (r2, n2) = digest(b"+FOO: ERROR(-20)\r\n");
    match r2 {
        DigestResult::Response(Err(InternalError::Custom(t))) => {
            assert_eq!(t.as_slice(), b"ERROR(-20)");
        },
        _ => panic!("expected a numbered error"),
    }
    assert_eq!(n2, 18);
    let code = seeed_lora_e5::digester::custom_error_code(b"ERROR(-20)");
    assert_eq!(code, Some(20));
}

#[test]
fn every_known_error_code_is_recognised() {
    for code in [1u8, 2, 3, 5, 7, 10, 11, 12, 20, 21, 22, 23, 24] {
        let mut line = b"+X: ERROR(-".to_vec();
        line.extend_from_slice(code.to_string().as_bytes());
        line.extend_from_slice(b")\r\n");
        let (r, n) = digest(&line);
        match r {
            DigestResult::Response(Err(InternalError::Custom(t))) => {
                assert_eq!(seeed_lora_e5::digester::custom_error_code(&t), Some(code));
            },
            _ => panic!("expected a numbered error"),
        }
        assert_eq!(n, line.len());
    }
}

#[test]
fn unknown_error_codes_fall_through() {
    // -15 is not a recognised code, so nothing classifies yet.
    expect_incomplete(b"+X: ERROR(-15)\r\n");
}

#[test]
fn generic_error_needs_its_own_terminator() {
    let (r, n) = digest(b"x: y\r\nERROR\r\n");
    assert!(matches!(r, DigestResult::Response(Err(InternalError::Generic))));
    assert_eq!(n, 13);
}

#[test]
fn join_lines_are_urcs_as_soon_as_complete() {
    // Even with the closing OK already in the buffer, the URC line wins.
    let (r, n) = digest(b"+JOIN: Start\r\nOK\r\n");
    assert!(matches!(r, DigestResult::Urc(URCMessages::Join(JoinUrc::Start))));
    assert_eq!(n, 14);
}

#[test]
fn prefix_safety_on_concrete_records() {
    // No strict prefix of a record classifies or consumes anything.
    let records: &[&[u8]] = &[
        b"OK\r\n",
        b"+JOIN: Start\r\n",
        b"+MODE: LWOTAA\r\n",
        b"+VER: 5.0.11\r\n",
        b"+MSG: PORT: 5; RX: \"48656C6C6F\"\r\n",
        b"+RESET: OK\r\n\x00",
        b"+FOO: ERROR(-1)\r\n",
        b"body\r\nOK\r\n",
    ];
    for rec in records {
        let (_, consumed) = digest(rec);
        assert_eq!(consumed, rec.len());
        for k in 0..rec.len() {
            expect_incomplete(&rec[..k]);
        }
    }
}

#[test]
fn exact_framing_on_concrete_records() {
    // A complete record keeps its length when more bytes follow.
    let (r, n) = digest(b"+JOIN: Done\r\n+JOIN: Start\r\nOK\r\n");
    assert!(matches!(r, DigestResult::Urc(URCMessages::Join(JoinUrc::Done))));
    assert_eq!(n, 13);
    let (_, n2) = digest(b"+MODE: LWOTAA\r\n+PORT: 8\r\n");
    assert_eq!(n2, 15);
}

#[test]
fn digest_is_pure() {
    let input = b"+VER: 5.0.11\r\nOK\r\n";
    let (r1, n1) = digest(input);
    let (r2, n2) = digest(input);
    assert_eq!(n1, n2);
    match (r1, r2) {
        (DigestResult::Response(Ok(a)), DigestResult::Response(Ok(b))) => assert_eq!(a, b),
        _ => panic!("expected matching successful responses"),
    }
}

#[test]
fn custom_rules_report_their_own_outcomes() {
    assert!(matches!(LoraE5Digester::custom_success(b"+MODE: LW"),
        Err(ParseError::Incomplete)));
    let (body, n) = LoraE5Digester::custom_success(b"+MODE: LWOTAA\r\n").unwrap();
    assert_eq!(body.as_slice(), b"LWOTAA");
    assert_eq!(n, 15);
    assert!(matches!(LoraE5Digester::custom_success(b"nonsense"),
        Err(ParseError::NoMatch)));
    let (tok, n2) = LoraE5Digester::custom_error(b"+FOO: ERROR(-1)\r\n").unwrap();
    assert_eq!(tok.as_slice(), b"ERROR(-1)");
    assert_eq!(n2, 17);
    assert!(matches!(LoraE5Digester::custom_error(b"+FOO: ERR"),
        Err(ParseError::Incomplete)));
}

#[test]
fn msg_urc_decodes_odd_nibble_payload() {
    // An odd final digit is the high nibble of the last byte.
    let (r, _) = digest(b"+MSG: PORT: 5; RX: \"48656C6C6F4\"\r\n");
    match r {
        DigestResult::Urc(URCMessages::MessageReceived(MessageReceived::Payload(m))) => {
            assert_eq!(m.port, 5);
            assert_eq!(m.length, 6);
            assert_eq!(m.payload.as_slice(), b"Hello\x40");
        },
        _ => panic!("expected a downlink payload"),
    }
}

#[test]
fn msg_urc_rejects_out_of_range_port() {
    let (r, n) = digest(b"+MSG: PORT: 300; RX: \"00\"\r\n");
    assert!(matches!(r, DigestResult::Urc(URCMessages::Unknown)));
    assert_eq!(n, 27);
}

#[test]
fn send_progress_lines_parse() {
    let (r, _) = digest(b"+CMSGHEX: RXWIN1, RSSI -95, SNR 7.5\r\n");
    match r {
        DigestResult::Urc(URCMessages::MessageHexSend(MessageHexSend::RxWinRssiSnr(
            w, rssi, snr))) => {
            assert_eq!(w, 1);
            assert_eq!(rssi, -95);
            assert_eq!(snr, 750);
        },
        _ => panic!("expected send statistics"),
    }
    let (r2, _) = digest(b"+MSGHEX: Wait ACK\r\n");
    assert!(matches!(r2,
        DigestResult::Urc(URCMessages::MessageHexSend(MessageHexSend::WaitAck))));
}

#[test]
fn join_urc_reads_network_identifiers() {
    let (r, _) = digest(b"+JOIN: NetID 000013 DevAddr 26:01:1B:8A\r\n");
    match r {
        DigestResult::Urc(URCMessages::Join(JoinUrc::Success(net, addr))) => {
            assert_eq!(net.as_bytes(), b"000013");
            assert_eq!(addr.as_bytes(), b"26:01:1B:8A");
        },
        _ => panic!("expected a join success"),
    }
}
