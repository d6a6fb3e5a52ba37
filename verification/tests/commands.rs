//! Command encoders and reply decoders against exact wire bytes.

use seeed_lora_e5::general::commands::{
    FactoryReset, FirmwareVersion, LowPowerDeepSleepDisable, LowPowerDeepSleepEnable,
    LowPowerForMilliseconds, LowPowerUntilWokenUp, Reset, VerifyComIsWorking,
};
use seeed_lora_e5::lora::commands::{
    AppEuiSet, AppKeySet, DataRateSchemeSet, DevEuiGet, DevEuiSet, LinkCheck,
    LoraAdrSet, LoraAutoJoinOtaaDisable, LoraAutoJoinOtaaMode, LoraAutoJoinOtaaMode0,
    LoraClassGet, LoraClassSet, LoraDrSet, LoraJoinOtaa, LoraJoinOtaaForce,
    LoraMaxTxLengthGet, LoraPortGet, LoraPortSet, LoraUplinkDownlinkCounterGet,
    MessageHexConfirmed, MessageHexUnconfirmed, ModeGet, ModeSet, RepeatSet, RetrySet,
    TxPowerForceSet, TxPowerTableGet,
};
use seeed_lora_e5::lora::responses::{
    AdrGetSetResponse, DataRateGetSetResponse, LoRaWANClassGetSetResponse,
    MaxPayloadLengthGetResponse, ModeGetSetResponse, OtaaDevEuiResponse, PortGetSetResponse,
    RetryGetSetResponse, TxPowerTable,
};
use seeed_lora_e5::bounded::{BoundedBytes, BoundedText};
use seeed_lora_e5::lora::types::{LoraClass, LoraJoinMode, LoraRegion};
use seeed_lora_e5::Error;

#[test]
fn fixed_commands_encode_exactly() {
    assert_eq!(VerifyComIsWorking {}.as_bytes(), b"AT\r\n");
    assert_eq!(FirmwareVersion {}.as_bytes(), b"AT+VER\r\n");
    assert_eq!(Reset {}.as_bytes(), b"AT+RESET\r\n");
    assert_eq!(FactoryReset {}.as_bytes(), b"AT+FDEFAULT=Seeed\r\n");
    assert_eq!(LowPowerUntilWokenUp {}.as_bytes(), b"AT+LOWPOWER\r\n");
    assert_eq!(LowPowerDeepSleepEnable {}.as_bytes(), b"AT+LOWPOWER=AUTOON\r\n");
    assert_eq!(LowPowerDeepSleepDisable {}.as_bytes(), b"AT+LOWPOWER=AUTOOFF\r\n");
    assert_eq!(ModeGet {}.as_bytes(), b"AT+MODE\r\n");
    assert_eq!(LoraJoinOtaa {}.as_bytes(), b"AT+JOIN\r\n");
    assert_eq!(LoraJoinOtaaForce {}.as_bytes(), b"AT+JOIN=FORCE\r\n");
    assert_eq!(LoraAutoJoinOtaaDisable {}.as_bytes(), b"AT+JOIN=0\r\n");
    assert_eq!(LoraClassGet {}.as_bytes(), b"AT+CLASS=?\r\n");
    assert_eq!(LoraPortGet {}.as_bytes(), b"AT+PORT=?\r\n");
    assert_eq!(LinkCheck {}.as_bytes(), b"AT+MSG\r\n");
    assert_eq!(DevEuiGet {}.as_bytes(), b"AT+ID=DevEui\r\n");
    assert_eq!(LoraUplinkDownlinkCounterGet {}.as_bytes(), b"AT+LW=ULDL\r\n");
}

#[test]
fn parameter_commands_encode_exactly() {
    assert_eq!(LoraPortSet { port: 12 }.as_bytes(), b"AT+PORT=12\r\n");
    assert_eq!(RetrySet { retry: 3 }.as_bytes(), b"AT+RETRY=3\r\n");
    assert_eq!(RepeatSet { repeat: 2 }.as_bytes(), b"AT+REPT=2\r\n");
    assert_eq!(ModeSet::otaa().as_bytes(), b"AT+MODE=LWOTAA\r\n");
    assert_eq!(ModeSet::abp().as_bytes(), b"AT+MODE=LWABP\r\n");
    assert_eq!(ModeSet::test().as_bytes(), b"AT+MODE=TEST\r\n");
    assert_eq!(LoraAdrSet::on().as_bytes(), b"AT+ADR=ON\r\n");
    assert_eq!(LoraAdrSet::off().as_bytes(), b"AT+ADR=OFF\r\n");
    assert_eq!(LoraDrSet::new(5).as_bytes(), b"AT+DR=DR5\r\n");
    assert_eq!(LoraDrSet::new(15).as_bytes(), b"AT+DR=DR15\r\n");
    assert_eq!(DataRateSchemeSet::region(LoraRegion::Eu868).as_bytes(),
        b"AT+DR=EU868\r\n");
    assert_eq!(LoraClassSet::class(LoraClass::ClassC).as_bytes(), b"AT+CLASS=C\r\n");
    assert_eq!(LoraClass::ClassA.set_cmd().as_bytes(), b"AT+CLASS=A\r\n");
    assert_eq!(TxPowerForceSet::new(14).as_bytes(), b"AT+POWER=14, FORCE\r\n");
    assert_eq!(TxPowerTableGet::default().as_bytes(), b"AT+POWER=TABLE\r\n");
    assert_eq!(LoraMaxTxLengthGet::default().as_bytes(), b"AT+LW=LEN\r\n");
    assert_eq!(LoraAutoJoinOtaaMode0 { interval: 600 }.as_bytes(),
        b"AT+JOIN=AUTO,600\r\n");
    assert_eq!(LoraAutoJoinOtaaMode::mode2(8, 16, 4).as_bytes(),
        b"AT+JOIN=AUTO,8,16,4\r\n");
    assert_eq!(LowPowerForMilliseconds { sleep_for_millis: 2000 }.as_bytes(),
        b"AT+LOWPOWER=2000\r\n");
}

#[test]
fn identifier_commands_use_spaced_upper_hex() {
    assert_eq!(DevEuiSet::dev_eui(0x2CF7F1203230AABB).as_bytes(),
        b"AT+ID=DevEui,2C F7 F1 20 32 30 AA BB\r\n".as_slice());
    assert_eq!(DevEuiSet::dev_eui(0x2A).as_bytes(),
        b"AT+ID=DevEui,00 00 00 00 00 00 00 2A\r\n".as_slice());
    assert_eq!(AppEuiSet::app_eui(0x8000000000000006).as_bytes(),
        b"AT+ID=AppEui,80 00 00 00 00 00 00 06\r\n".as_slice());
}

#[test]
fn app_key_encodes_its_sixteen_bytes_least_significant_first() {
    let cmd = AppKeySet::app_key(0x000102030405060708090A0B0C0D0E0F);
    assert_eq!(cmd.as_bytes(),
        b"AT+KEY=APPKEY,0F0E0D0C0B0A09080706050403020100\r\n".as_slice());
}

#[test]
fn hex_payload_commands_trim_zero_tails() {
    let msg = MessageHexConfirmed {
        message: BoundedBytes::<242>::from_bytes(&[0xDE, 0xAD, 0xBE]).unwrap(),
    };
    assert_eq!(msg.as_bytes(), b"AT+CMSGHEX=deadbe\r\n");
    let trimmed = MessageHexUnconfirmed {
        message: BoundedBytes::<242>::from_bytes(&[0xDE, 0x00, 0x00]).unwrap(),
    };
    assert_eq!(trimmed.as_bytes(), b"AT+MSGHEX=de\r\n");
    let empty = MessageHexUnconfirmed {
        message: BoundedBytes::<242>::from_bytes(&[]).unwrap(),
    };
    assert_eq!(empty.as_bytes(), b"AT+MSGHEX=00\r\n");
}

#[test]
fn every_encoding_stays_under_its_bound_and_ends_in_crlf() {
    let lines: Vec<(Vec<u8>, usize)> = vec![
        (VerifyComIsWorking {}.as_bytes(), 4),
        (FirmwareVersion {}.as_bytes(), 16),
        (FactoryReset {}.as_bytes(), 20),
        (LoraPortSet { port: 255 }.as_bytes(), 13),
        (DevEuiSet::dev_eui(u64::MAX).as_bytes(), 44),
        (AppKeySet::app_key(u128::MAX).as_bytes(), 124),
        (MessageHexConfirmed {
            message: BoundedBytes::<242>::from_bytes(&[0xAB; 242]).unwrap(),
        }.as_bytes(), 506),
        (LoraAutoJoinOtaaMode::mode2(u32::MAX, u32::MAX, u32::MAX).as_bytes(), 51),
    ];
    for (line, bound) in lines {
        assert!(line.len() <= bound);
        assert!(line.ends_with(b"\r\n"));
    }
}

#[test]
fn timeouts_follow_the_command() {
    assert_eq!(VerifyComIsWorking {}.timeout_ms(), 1000);
    assert_eq!(Reset {}.timeout_ms(), 5000);
    assert_eq!(ModeSet::otaa().timeout_ms(), 10000);
    assert_eq!(LoraJoinOtaa {}.timeout_ms(), 10000);
    assert_eq!(TxPowerForceSet::new(20).timeout_ms(), 30000);
    assert_eq!(FactoryReset {}.timeout_ms(), 15000);
}

#[test]
fn version_reply_decodes_its_triple() {
    let v = FirmwareVersion {}.parse(b"5.0.11").unwrap();
    assert_eq!((v.major, v.minor, v.patch), (5, 0, 11));
    let enveloped = FirmwareVersion {}.parse(b"+VER: 5.0.11").unwrap();
    assert_eq!((enveloped.major, enveloped.minor, enveloped.patch), (5, 0, 11));
    assert!(matches!(FirmwareVersion {}.parse(b"5.0"), Err(Error::Parse)));
    assert!(matches!(FirmwareVersion {}.parse(b"5.x.1"), Err(Error::Parse)));
}

#[test]
fn counter_reply_decodes_both_counters() {
    let c = LoraUplinkDownlinkCounterGet {}.parse(b"ULDL, 10, 20").unwrap();
    assert_eq!(c.uplink(), 10);
    assert_eq!(c.downlink(), 20);
    let with_envelope = LoraUplinkDownlinkCounterGet {}.parse(b"+LW: ULDL, 3, 4").unwrap();
    assert_eq!((with_envelope.uplink, with_envelope.downlink), (3, 4));
    assert!(matches!(LoraUplinkDownlinkCounterGet {}.parse(b"ULDL"), Err(Error::Parse)));
}

#[test]
fn reply_decoders_strip_their_envelopes() {
    let m = ModeGetSetResponse::parse_body(b"+MODE: LWOTAA").unwrap();
    assert_eq!(m.mode(), LoraJoinMode::Otaa);
    let m2 = ModeGetSetResponse::parse_body(b"TEST").unwrap();
    assert_eq!(m2.mode(), LoraJoinMode::Test);
    let p = PortGetSetResponse::parse_body(b"+PORT: 12").unwrap();
    assert_eq!(p.port, 12);
    let r = RetryGetSetResponse::parse_body(b"3").unwrap();
    assert_eq!(r.retry, 3);
    let a = AdrGetSetResponse::parse_body(b"+ADR: ON").unwrap();
    assert!(a.is_on());
    let a2 = AdrGetSetResponse::parse_body(b"OFF").unwrap();
    assert!(!a2.is_on());
    let c = LoRaWANClassGetSetResponse::parse_body(b"+CLASS: A").unwrap();
    assert_eq!(c.class.as_bytes(), b"A");
    let len = MaxPayloadLengthGetResponse::parse_body(b"+LW: LEN, 21").unwrap();
    assert_eq!(len.max, 21);
    let dr = DataRateGetSetResponse::parse_body(b"US915 DR0 SF10 BW125K").unwrap();
    assert_eq!(dr.region(), LoraRegion::US915);
}

#[test]
fn eui_reply_accepts_any_separator_layout() {
    let spaced = OtaaDevEuiResponse::parse_body(b"DevEui, 2C F7 F1 20 32 30 AA BB").unwrap();
    assert_eq!(spaced.dev_eui, 0x2CF7F1203230AABB);
    let plain = OtaaDevEuiResponse::parse_body(b"2CF7F1203230AABB").unwrap();
    assert_eq!(plain.dev_eui, 0x2CF7F1203230AABB);
    let prefixed = OtaaDevEuiResponse::parse_body(b"0x2C:F7:F1:20:32:30:AA:BB").unwrap();
    assert_eq!(prefixed.dev_eui, 0x2CF7F1203230AABB);
    assert!(matches!(
        OtaaDevEuiResponse::parse_body(b"2C F7 F1 20 32 30 AA BB 01"),
        Err(Error::Parse)));
}

#[test]
fn power_table_reads_its_steps() {
    let t = TxPowerTable::parse_body(b"+POWER: 10 12 14 16").unwrap();
    assert_eq!(t.db_m_list().unwrap(), vec![10, 12, 14, 16]);
    let bad = TxPowerTable::parse_body(b"10 twelve").unwrap();
    assert!(matches!(bad.db_m_list(), Err(Error::Parse)));
}

#[test]
fn bounded_containers_refuse_overflow() {
    assert!(BoundedText::<4>::from_bytes(b"OK").is_ok());
    assert!(matches!(BoundedText::<4>::from_bytes(b"TOO LONG"),
        Err(Error::CapacityExceeded)));
    let mut t = BoundedText::<2>::new();
    assert!(t.push(b'a').is_ok());
    assert!(t.push(b'b').is_ok());
    assert!(matches!(t.push(b'c'), Err(Error::CapacityExceeded)));
    assert_eq!(t.as_bytes(), b"ab");
}

#[test]
fn data_rate_set_covers_the_whole_range() {
    for dr in 0u8..=15 {
        let line = LoraDrSet::new(dr).as_bytes();
        let expected = format!("AT+DR=DR{}\r\n", dr);
        assert_eq!(line, expected.as_bytes());
    }
}
