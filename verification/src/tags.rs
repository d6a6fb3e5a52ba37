//! The byte tags of the modem's line protocol.
//!
//! Every recognisable piece of the wire grammar is named here once, as a
//! specification-level byte sequence beside an executable constructor
//! proved to build exactly that sequence.

use vstd::prelude::*;

verus! {

/// Bytes of the stray success terminator `OK\r\n`.
pub open spec fn spec_ok_line() -> Seq<u8> {
    seq![79u8, 75u8, 13u8, 10u8]
}

/// Builds the stray success terminator `OK\r\n`.
pub fn ok_line() -> (r: Vec<u8>)
    ensures
        r@ == spec_ok_line(),
{
    let r: Vec<u8> = vec![79u8, 75u8, 13u8, 10u8];
    proof {
        assert(r@ =~= spec_ok_line());
    }
    r
}

/// Bytes of the generic success terminator `\r\nOK\r\n`.
pub open spec fn spec_ok_term() -> Seq<u8> {
    seq![13u8, 10u8, 79u8, 75u8, 13u8, 10u8]
}

/// Builds the generic success terminator `\r\nOK\r\n`.
pub fn ok_term() -> (r: Vec<u8>)
    ensures
        r@ == spec_ok_term(),
{
    let r: Vec<u8> = vec![13u8, 10u8, 79u8, 75u8, 13u8, 10u8];
    proof {
        assert(r@ =~= spec_ok_term());
    }
    r
}

/// Bytes of the line terminator `\r\n`.
pub open spec fn spec_crlf() -> Seq<u8> {
    seq![13u8, 10u8]
}

/// Builds the line terminator `\r\n`.
pub fn crlf() -> (r: Vec<u8>)
    ensures
        r@ == spec_crlf(),
{
    let r: Vec<u8> = vec![13u8, 10u8];
    proof {
        assert(r@ =~= spec_crlf());
    }
    r
}

/// Bytes of the reset preamble terminator `\r\n` plus a stray NUL.
pub open spec fn spec_reset_term() -> Seq<u8> {
    seq![13u8, 10u8, 0u8]
}

/// Builds the reset preamble terminator `\r\n` plus a stray NUL.
pub fn reset_term() -> (r: Vec<u8>)
    ensures
        r@ == spec_reset_term(),
{
    let r: Vec<u8> = vec![13u8, 10u8, 0u8];
    proof {
        assert(r@ =~= spec_reset_term());
    }
    r
}

/// Bytes of the tag separator `: `.
pub open spec fn spec_colon_sp() -> Seq<u8> {
    seq![58u8, 32u8]
}

/// Builds the tag separator `: `.
pub fn colon_sp() -> (r: Vec<u8>)
    ensures
        r@ == spec_colon_sp(),
{
    let r: Vec<u8> = vec![58u8, 32u8];
    proof {
        assert(r@ =~= spec_colon_sp());
    }
    r
}

/// Bytes of the generic error terminator `\r\nERROR\r\n`.
pub open spec fn spec_error_term() -> Seq<u8> {
    seq![13u8, 10u8, 69u8, 82u8, 82u8, 79u8, 82u8, 13u8, 10u8]
}

/// Builds the generic error terminator `\r\nERROR\r\n`.
pub fn error_term() -> (r: Vec<u8>)
    ensures
        r@ == spec_error_term(),
{
    let r: Vec<u8> = vec![13u8, 10u8, 69u8, 82u8, 82u8, 79u8, 82u8, 13u8, 10u8];
    proof {
        assert(r@ =~= spec_error_term());
    }
    r
}

/// Bytes of the opening of a numbered error token.
pub open spec fn spec_error_open() -> Seq<u8> {
    seq![69u8, 82u8, 82u8, 79u8, 82u8, 40u8, 45u8]
}

/// Builds the opening of a numbered error token.
pub fn error_open() -> (r: Vec<u8>)
    ensures
        r@ == spec_error_open(),
{
    let r: Vec<u8> = vec![69u8, 82u8, 82u8, 79u8, 82u8, 40u8, 45u8];
    proof {
        assert(r@ =~= spec_error_open());
    }
    r
}

/// Bytes of the join URC tag.
pub open spec fn spec_join_tag() -> Seq<u8> {
    seq![43u8, 74u8, 79u8, 73u8, 78u8, 58u8, 32u8]
}

/// Builds the join URC tag.
pub fn join_tag() -> (r: Vec<u8>)
    ensures
        r@ == spec_join_tag(),
{
    let r: Vec<u8> = vec![43u8, 74u8, 79u8, 73u8, 78u8, 58u8, 32u8];
    proof {
        assert(r@ =~= spec_join_tag());
    }
    r
}

/// Bytes of the unconfirmed-send progress URC tag.
pub open spec fn spec_msghex_tag() -> Seq<u8> {
    seq![43u8, 77u8, 83u8, 71u8, 72u8, 69u8, 88u8, 58u8, 32u8]
}

/// Builds the unconfirmed-send progress URC tag.
pub fn msghex_tag() -> (r: Vec<u8>)
    ensures
        r@ == spec_msghex_tag(),
{
    let r: Vec<u8> = vec![43u8, 77u8, 83u8, 71u8, 72u8, 69u8, 88u8, 58u8, 32u8];
    proof {
        assert(r@ =~= spec_msghex_tag());
    }
    r
}

/// Bytes of the confirmed-send progress URC tag.
pub open spec fn spec_cmsghex_tag() -> Seq<u8> {
    seq![43u8, 67u8, 77u8, 83u8, 71u8, 72u8, 69u8, 88u8, 58u8, 32u8]
}

/// Builds the confirmed-send progress URC tag.
pub fn cmsghex_tag() -> (r: Vec<u8>)
    ensures
        r@ == spec_cmsghex_tag(),
{
    let r: Vec<u8> = vec![43u8, 67u8, 77u8, 83u8, 71u8, 72u8, 69u8, 88u8, 58u8, 32u8];
    proof {
        assert(r@ =~= spec_cmsghex_tag());
    }
    r
}

/// Bytes of the downlink URC tag.
pub open spec fn spec_msg_tag() -> Seq<u8> {
    seq![43u8, 77u8, 83u8, 71u8, 58u8, 32u8]
}

/// Builds the downlink URC tag.
pub fn msg_tag() -> (r: Vec<u8>)
    ensures
        r@ == spec_msg_tag(),
{
    let r: Vec<u8> = vec![43u8, 77u8, 83u8, 71u8, 58u8, 32u8];
    proof {
        assert(r@ =~= spec_msg_tag());
    }
    r
}

/// Bytes of the AT echo reply tag.
pub open spec fn spec_at_tag() -> Seq<u8> {
    seq![43u8, 65u8, 84u8, 58u8, 32u8]
}

/// Builds the AT echo reply tag.
pub fn at_tag() -> (r: Vec<u8>)
    ensures
        r@ == spec_at_tag(),
{
    let r: Vec<u8> = vec![43u8, 65u8, 84u8, 58u8, 32u8];
    proof {
        assert(r@ =~= spec_at_tag());
    }
    r
}

/// Bytes of the echo setting reply tag.
pub open spec fn spec_ate_tag() -> Seq<u8> {
    seq![43u8, 65u8, 84u8, 69u8, 58u8, 32u8]
}

/// Builds the echo setting reply tag.
pub fn ate_tag() -> (r: Vec<u8>)
    ensures
        r@ == spec_ate_tag(),
{
    let r: Vec<u8> = vec![43u8, 65u8, 84u8, 69u8, 58u8, 32u8];
    proof {
        assert(r@ =~= spec_ate_tag());
    }
    r
}

/// Bytes of the reset preamble tag.
pub open spec fn spec_reset_tag() -> Seq<u8> {
    seq![43u8, 82u8, 69u8, 83u8, 69u8, 84u8, 58u8, 32u8]
}

/// Builds the reset preamble tag.
pub fn reset_tag() -> (r: Vec<u8>)
    ensures
        r@ == spec_reset_tag(),
{
    let r: Vec<u8> = vec![43u8, 82u8, 69u8, 83u8, 69u8, 84u8, 58u8, 32u8];
    proof {
        assert(r@ =~= spec_reset_tag());
    }
    r
}

/// Bytes of the firmware version reply tag.
pub open spec fn spec_ver_tag() -> Seq<u8> {
    seq![43u8, 86u8, 69u8, 82u8, 58u8, 32u8]
}

/// Builds the firmware version reply tag.
pub fn ver_tag() -> (r: Vec<u8>)
    ensures
        r@ == spec_ver_tag(),
{
    let r: Vec<u8> = vec![43u8, 86u8, 69u8, 82u8, 58u8, 32u8];
    proof {
        assert(r@ =~= spec_ver_tag());
    }
    r
}

/// Bytes of the identifier reply tag.
pub open spec fn spec_id_tag() -> Seq<u8> {
    seq![43u8, 73u8, 68u8, 58u8, 32u8]
}

/// Builds the identifier reply tag.
pub fn id_tag() -> (r: Vec<u8>)
    ensures
        r@ == spec_id_tag(),
{
    let r: Vec<u8> = vec![43u8, 73u8, 68u8, 58u8, 32u8];
    proof {
        assert(r@ =~= spec_id_tag());
    }
    r
}

/// Bytes of the mode reply tag.
pub open spec fn spec_mode_tag() -> Seq<u8> {
    seq![43u8, 77u8, 79u8, 68u8, 69u8, 58u8, 32u8]
}

/// Builds the mode reply tag.
pub fn mode_tag() -> (r: Vec<u8>)
    ensures
        r@ == spec_mode_tag(),
{
    let r: Vec<u8> = vec![43u8, 77u8, 79u8, 68u8, 69u8, 58u8, 32u8];
    proof {
        assert(r@ =~= spec_mode_tag());
    }
    r
}

/// Bytes of the data rate reply tag.
pub open spec fn spec_dr_tag() -> Seq<u8> {
    seq![43u8, 68u8, 82u8, 58u8, 32u8]
}

/// Builds the data rate reply tag.
pub fn dr_tag() -> (r: Vec<u8>)
    ensures
        r@ == spec_dr_tag(),
{
    let r: Vec<u8> = vec![43u8, 68u8, 82u8, 58u8, 32u8];
    proof {
        assert(r@ =~= spec_dr_tag());
    }
    r
}

/// Bytes of the device class reply tag.
pub open spec fn spec_class_tag() -> Seq<u8> {
    seq![43u8, 67u8, 76u8, 65u8, 83u8, 83u8, 58u8, 32u8]
}

/// Builds the device class reply tag.
pub fn class_tag() -> (r: Vec<u8>)
    ensures
        r@ == spec_class_tag(),
{
    let r: Vec<u8> = vec![43u8, 67u8, 76u8, 65u8, 83u8, 83u8, 58u8, 32u8];
    proof {
        assert(r@ =~= spec_class_tag());
    }
    r
}

/// Bytes of the adaptive data rate reply tag.
pub open spec fn spec_adr_tag() -> Seq<u8> {
    seq![43u8, 65u8, 68u8, 82u8, 58u8, 32u8]
}

/// Builds the adaptive data rate reply tag.
pub fn adr_tag() -> (r: Vec<u8>)
    ensures
        r@ == spec_adr_tag(),
{
    let r: Vec<u8> = vec![43u8, 65u8, 68u8, 82u8, 58u8, 32u8];
    proof {
        assert(r@ =~= spec_adr_tag());
    }
    r
}

/// Bytes of the LoRaWAN settings reply tag.
pub open spec fn spec_lw_tag() -> Seq<u8> {
    seq![43u8, 76u8, 87u8, 58u8, 32u8]
}

/// Builds the LoRaWAN settings reply tag.
pub fn lw_tag() -> (r: Vec<u8>)
    ensures
        r@ == spec_lw_tag(),
{
    let r: Vec<u8> = vec![43u8, 76u8, 87u8, 58u8, 32u8];
    proof {
        assert(r@ =~= spec_lw_tag());
    }
    r
}

/// Bytes of the key reply tag.
pub open spec fn spec_key_tag() -> Seq<u8> {
    seq![43u8, 75u8, 69u8, 89u8, 58u8, 32u8]
}

/// Builds the key reply tag.
pub fn key_tag() -> (r: Vec<u8>)
    ensures
        r@ == spec_key_tag(),
{
    let r: Vec<u8> = vec![43u8, 75u8, 69u8, 89u8, 58u8, 32u8];
    proof {
        assert(r@ =~= spec_key_tag());
    }
    r
}

/// Bytes of the join status reply tag.
pub open spec fn spec_join_std_tag() -> Seq<u8> {
    seq![43u8, 74u8, 79u8, 73u8, 78u8, 95u8, 83u8, 84u8, 68u8, 58u8, 32u8]
}

/// Builds the join status reply tag.
pub fn join_std_tag() -> (r: Vec<u8>)
    ensures
        r@ == spec_join_std_tag(),
{
    let r: Vec<u8> = vec![43u8, 74u8, 79u8, 73u8, 78u8, 95u8, 83u8, 84u8, 68u8, 58u8, 32u8];
    proof {
        assert(r@ =~= spec_join_std_tag());
    }
    r
}

/// Bytes of the received bytes reply tag.
pub open spec fn spec_recvb_tag() -> Seq<u8> {
    seq![43u8, 82u8, 69u8, 67u8, 86u8, 66u8, 58u8, 32u8]
}

/// Builds the received bytes reply tag.
pub fn recvb_tag() -> (r: Vec<u8>)
    ensures
        r@ == spec_recvb_tag(),
{
    let r: Vec<u8> = vec![43u8, 82u8, 69u8, 67u8, 86u8, 66u8, 58u8, 32u8];
    proof {
        assert(r@ =~= spec_recvb_tag());
    }
    r
}

/// Bytes of the uplink counter reply tag.
pub open spec fn spec_up_cnt_tag() -> Seq<u8> {
    seq![43u8, 85u8, 80u8, 95u8, 67u8, 78u8, 84u8, 58u8, 32u8]
}

/// Builds the uplink counter reply tag.
pub fn up_cnt_tag() -> (r: Vec<u8>)
    ensures
        r@ == spec_up_cnt_tag(),
{
    let r: Vec<u8> = vec![43u8, 85u8, 80u8, 95u8, 67u8, 78u8, 84u8, 58u8, 32u8];
    proof {
        assert(r@ =~= spec_up_cnt_tag());
    }
    r
}

/// Bytes of the downlink counter reply tag.
pub open spec fn spec_down_cnt_tag() -> Seq<u8> {
    seq![43u8, 68u8, 79u8, 87u8, 78u8, 95u8, 67u8, 78u8, 84u8, 58u8, 32u8]
}

/// Builds the downlink counter reply tag.
pub fn down_cnt_tag() -> (r: Vec<u8>)
    ensures
        r@ == spec_down_cnt_tag(),
{
    let r: Vec<u8> = vec![43u8, 68u8, 79u8, 87u8, 78u8, 95u8, 67u8, 78u8, 84u8, 58u8, 32u8];
    proof {
        assert(r@ =~= spec_down_cnt_tag());
    }
    r
}

/// Bytes of the join-start body.
pub open spec fn spec_start_word() -> Seq<u8> {
    seq![83u8, 116u8, 97u8, 114u8, 116u8]
}

/// Builds the join-start body.
pub fn start_word() -> (r: Vec<u8>)
    ensures
        r@ == spec_start_word(),
{
    let r: Vec<u8> = vec![83u8, 116u8, 97u8, 114u8, 116u8];
    proof {
        assert(r@ =~= spec_start_word());
    }
    r
}

/// Bytes of the auto-join body.
pub open spec fn spec_auto_join_word() -> Seq<u8> {
    seq![65u8, 117u8, 116u8, 111u8, 45u8, 74u8, 111u8, 105u8, 110u8]
}

/// Builds the auto-join body.
pub fn auto_join_word() -> (r: Vec<u8>)
    ensures
        r@ == spec_auto_join_word(),
{
    let r: Vec<u8> = vec![65u8, 117u8, 116u8, 111u8, 45u8, 74u8, 111u8, 105u8, 110u8];
    proof {
        assert(r@ =~= spec_auto_join_word());
    }
    r
}

/// Bytes of the normal-join body.
pub open spec fn spec_normal_word() -> Seq<u8> {
    seq![78u8, 79u8, 82u8, 77u8, 65u8, 76u8]
}

/// Builds the normal-join body.
pub fn normal_word() -> (r: Vec<u8>)
    ensures
        r@ == spec_normal_word(),
{
    let r: Vec<u8> = vec![78u8, 79u8, 82u8, 77u8, 65u8, 76u8];
    proof {
        assert(r@ =~= spec_normal_word());
    }
    r
}

/// Bytes of the failed-join body.
pub open spec fn spec_failed_word() -> Seq<u8> {
    seq![74u8, 111u8, 105u8, 110u8, 32u8, 102u8, 97u8, 105u8, 108u8, 101u8, 100u8]
}

/// Builds the failed-join body.
pub fn failed_word() -> (r: Vec<u8>)
    ensures
        r@ == spec_failed_word(),
{
    let r: Vec<u8> = vec![74u8, 111u8, 105u8, 110u8, 32u8, 102u8, 97u8, 105u8, 108u8, 101u8, 100u8];
    proof {
        assert(r@ =~= spec_failed_word());
    }
    r
}

/// Bytes of the already-joined body.
pub open spec fn spec_joined_already_word() -> Seq<u8> {
    seq![74u8, 111u8, 105u8, 110u8, 101u8, 100u8, 32u8, 97u8, 108u8, 114u8, 101u8, 97u8, 100u8, 121u8]
}

/// Builds the already-joined body.
pub fn joined_already_word() -> (r: Vec<u8>)
    ensures
        r@ == spec_joined_already_word(),
{
    let r: Vec<u8> = vec![74u8, 111u8, 105u8, 110u8, 101u8, 100u8, 32u8, 97u8, 108u8, 114u8, 101u8, 97u8, 100u8, 121u8];
    proof {
        assert(r@ =~= spec_joined_already_word());
    }
    r
}

/// Bytes of the network-joined body.
pub open spec fn spec_network_joined_word() -> Seq<u8> {
    seq![78u8, 101u8, 116u8, 119u8, 111u8, 114u8, 107u8, 32u8, 106u8, 111u8, 105u8, 110u8, 101u8, 100u8]
}

/// Builds the network-joined body.
pub fn network_joined_word() -> (r: Vec<u8>)
    ensures
        r@ == spec_network_joined_word(),
{
    let r: Vec<u8> = vec![78u8, 101u8, 116u8, 119u8, 111u8, 114u8, 107u8, 32u8, 106u8, 111u8, 105u8, 110u8, 101u8, 100u8];
    proof {
        assert(r@ =~= spec_network_joined_word());
    }
    r
}

/// Bytes of the join-success body opening.
pub open spec fn spec_netid_word() -> Seq<u8> {
    seq![78u8, 101u8, 116u8, 73u8, 68u8]
}

/// Builds the join-success body opening.
pub fn netid_word() -> (r: Vec<u8>)
    ensures
        r@ == spec_netid_word(),
{
    let r: Vec<u8> = vec![78u8, 101u8, 116u8, 73u8, 68u8];
    proof {
        assert(r@ =~= spec_netid_word());
    }
    r
}

/// Bytes of the done body.
pub open spec fn spec_done_word() -> Seq<u8> {
    seq![68u8, 111u8, 110u8, 101u8]
}

/// Builds the done body.
pub fn done_word() -> (r: Vec<u8>)
    ensures
        r@ == spec_done_word(),
{
    let r: Vec<u8> = vec![68u8, 111u8, 110u8, 101u8];
    proof {
        assert(r@ =~= spec_done_word());
    }
    r
}

/// Bytes of the acknowledgement body.
pub open spec fn spec_ack_received_word() -> Seq<u8> {
    seq![65u8, 67u8, 75u8, 32u8, 82u8, 101u8, 99u8, 101u8, 105u8, 118u8, 101u8, 100u8]
}

/// Builds the acknowledgement body.
pub fn ack_received_word() -> (r: Vec<u8>)
    ensures
        r@ == spec_ack_received_word(),
{
    let r: Vec<u8> = vec![65u8, 67u8, 75u8, 32u8, 82u8, 101u8, 99u8, 101u8, 105u8, 118u8, 101u8, 100u8];
    proof {
        assert(r@ =~= spec_ack_received_word());
    }
    r
}

/// Bytes of the wait-acknowledgement body.
pub open spec fn spec_wait_ack_word() -> Seq<u8> {
    seq![87u8, 97u8, 105u8, 116u8, 32u8, 65u8, 67u8, 75u8]
}

/// Builds the wait-acknowledgement body.
pub fn wait_ack_word() -> (r: Vec<u8>)
    ensures
        r@ == spec_wait_ack_word(),
{
    let r: Vec<u8> = vec![87u8, 97u8, 105u8, 116u8, 32u8, 65u8, 67u8, 75u8];
    proof {
        assert(r@ =~= spec_wait_ack_word());
    }
    r
}

/// Bytes of the frame-pending body.
pub open spec fn spec_fpending_word() -> Seq<u8> {
    seq![70u8, 80u8, 69u8, 78u8, 68u8, 73u8, 78u8, 71u8]
}

/// Builds the frame-pending body.
pub fn fpending_word() -> (r: Vec<u8>)
    ensures
        r@ == spec_fpending_word(),
{
    let r: Vec<u8> = vec![70u8, 80u8, 69u8, 78u8, 68u8, 73u8, 78u8, 71u8];
    proof {
        assert(r@ =~= spec_fpending_word());
    }
    r
}

/// Bytes of the receive-window body opening.
pub open spec fn spec_rxwin_word() -> Seq<u8> {
    seq![82u8, 88u8, 87u8, 73u8, 78u8]
}

/// Builds the receive-window body opening.
pub fn rxwin_word() -> (r: Vec<u8>)
    ensures
        r@ == spec_rxwin_word(),
{
    let r: Vec<u8> = vec![82u8, 88u8, 87u8, 73u8, 78u8];
    proof {
        assert(r@ =~= spec_rxwin_word());
    }
    r
}

/// Bytes of the separator before the signal strength.
pub open spec fn spec_rssi_sep() -> Seq<u8> {
    seq![44u8, 32u8, 82u8, 83u8, 83u8, 73u8, 32u8]
}

/// Builds the separator before the signal strength.
pub fn rssi_sep() -> (r: Vec<u8>)
    ensures
        r@ == spec_rssi_sep(),
{
    let r: Vec<u8> = vec![44u8, 32u8, 82u8, 83u8, 83u8, 73u8, 32u8];
    proof {
        assert(r@ =~= spec_rssi_sep());
    }
    r
}

/// Bytes of the separator before the signal-to-noise ratio.
pub open spec fn spec_snr_sep() -> Seq<u8> {
    seq![44u8, 32u8, 83u8, 78u8, 82u8, 32u8]
}

/// Builds the separator before the signal-to-noise ratio.
pub fn snr_sep() -> (r: Vec<u8>)
    ensures
        r@ == spec_snr_sep(),
{
    let r: Vec<u8> = vec![44u8, 32u8, 83u8, 78u8, 82u8, 32u8];
    proof {
        assert(r@ =~= spec_snr_sep());
    }
    r
}

/// Bytes of the downlink port body opening.
pub open spec fn spec_port_word() -> Seq<u8> {
    seq![80u8, 79u8, 82u8, 84u8, 58u8, 32u8]
}

/// Builds the downlink port body opening.
pub fn port_word() -> (r: Vec<u8>)
    ensures
        r@ == spec_port_word(),
{
    let r: Vec<u8> = vec![80u8, 79u8, 82u8, 84u8, 58u8, 32u8];
    proof {
        assert(r@ =~= spec_port_word());
    }
    r
}

/// Bytes of the separator before the downlink payload.
pub open spec fn spec_rx_sep() -> Seq<u8> {
    seq![59u8, 32u8, 82u8, 88u8, 58u8, 32u8, 34u8]
}

/// Builds the separator before the downlink payload.
pub fn rx_sep() -> (r: Vec<u8>)
    ensures
        r@ == spec_rx_sep(),
{
    let r: Vec<u8> = vec![59u8, 32u8, 82u8, 88u8, 58u8, 32u8, 34u8];
    proof {
        assert(r@ =~= spec_rx_sep());
    }
    r
}

/// Bytes of the closing quote of the downlink payload.
pub open spec fn spec_quote() -> Seq<u8> {
    seq![34u8]
}

/// Builds the closing quote of the downlink payload.
pub fn quote() -> (r: Vec<u8>)
    ensures
        r@ == spec_quote(),
{
    let r: Vec<u8> = vec![34u8];
    proof {
        assert(r@ =~= spec_quote());
    }
    r
}

/// Bytes of a single space.
pub open spec fn spec_space() -> Seq<u8> {
    seq![32u8]
}

/// Builds a single space.
pub fn space() -> (r: Vec<u8>)
    ensures
        r@ == spec_space(),
{
    let r: Vec<u8> = vec![32u8];
    proof {
        assert(r@ =~= spec_space());
    }
    r
}

/// Bytes of the command opening `AT`.
pub open spec fn spec_at_open() -> Seq<u8> {
    seq![65u8, 84u8]
}

/// Builds the command opening `AT`.
pub fn at_open() -> (r: Vec<u8>)
    ensures
        r@ == spec_at_open(),
{
    let r: Vec<u8> = vec![65u8, 84u8];
    proof {
        assert(r@ =~= spec_at_open());
    }
    r
}

/// Bytes of the parameter separator `=`.
pub open spec fn spec_eq() -> Seq<u8> {
    seq![61u8]
}

/// Builds the parameter separator `=`.
pub fn eq() -> (r: Vec<u8>)
    ensures
        r@ == spec_eq(),
{
    let r: Vec<u8> = vec![61u8];
    proof {
        assert(r@ =~= spec_eq());
    }
    r
}

/// Bytes of the parameter list separator `,`.
pub open spec fn spec_comma() -> Seq<u8> {
    seq![44u8]
}

/// Builds the parameter list separator `,`.
pub fn comma() -> (r: Vec<u8>)
    ensures
        r@ == spec_comma(),
{
    let r: Vec<u8> = vec![44u8];
    proof {
        assert(r@ =~= spec_comma());
    }
    r
}

/// Bytes of a comma followed by a space.
pub open spec fn spec_comma_sp() -> Seq<u8> {
    seq![44u8, 32u8]
}

/// Builds a comma followed by a space.
pub fn comma_sp() -> (r: Vec<u8>)
    ensures
        r@ == spec_comma_sp(),
{
    let r: Vec<u8> = vec![44u8, 32u8];
    proof {
        assert(r@ =~= spec_comma_sp());
    }
    r
}

/// Bytes of the firmware version command prefix.
pub open spec fn spec_p_ver() -> Seq<u8> {
    seq![43u8, 86u8, 69u8, 82u8]
}

/// Builds the firmware version command prefix.
pub fn p_ver() -> (r: Vec<u8>)
    ensures
        r@ == spec_p_ver(),
{
    let r: Vec<u8> = vec![43u8, 86u8, 69u8, 82u8];
    proof {
        assert(r@ =~= spec_p_ver());
    }
    r
}

/// Bytes of the reset command prefix.
pub open spec fn spec_p_reset() -> Seq<u8> {
    seq![43u8, 82u8, 69u8, 83u8, 69u8, 84u8]
}

/// Builds the reset command prefix.
pub fn p_reset() -> (r: Vec<u8>)
    ensures
        r@ == spec_p_reset(),
{
    let r: Vec<u8> = vec![43u8, 82u8, 69u8, 83u8, 69u8, 84u8];
    proof {
        assert(r@ =~= spec_p_reset());
    }
    r
}

/// Bytes of the factory reset command line.
pub open spec fn spec_p_fdefault_seeed() -> Seq<u8> {
    seq![43u8, 70u8, 68u8, 69u8, 70u8, 65u8, 85u8, 76u8, 84u8, 61u8, 83u8, 101u8, 101u8, 101u8, 100u8]
}

/// Builds the factory reset command line.
pub fn p_fdefault_seeed() -> (r: Vec<u8>)
    ensures
        r@ == spec_p_fdefault_seeed(),
{
    let r: Vec<u8> = vec![43u8, 70u8, 68u8, 69u8, 70u8, 65u8, 85u8, 76u8, 84u8, 61u8, 83u8, 101u8, 101u8, 101u8, 100u8];
    proof {
        assert(r@ =~= spec_p_fdefault_seeed());
    }
    r
}

/// Bytes of the low power command prefix.
pub open spec fn spec_p_lowpower() -> Seq<u8> {
    seq![43u8, 76u8, 79u8, 87u8, 80u8, 79u8, 87u8, 69u8, 82u8]
}

/// Builds the low power command prefix.
pub fn p_lowpower() -> (r: Vec<u8>)
    ensures
        r@ == spec_p_lowpower(),
{
    let r: Vec<u8> = vec![43u8, 76u8, 79u8, 87u8, 80u8, 79u8, 87u8, 69u8, 82u8];
    proof {
        assert(r@ =~= spec_p_lowpower());
    }
    r
}

/// Bytes of the deep sleep enable word.
pub open spec fn spec_w_autoon() -> Seq<u8> {
    seq![65u8, 85u8, 84u8, 79u8, 79u8, 78u8]
}

/// Builds the deep sleep enable word.
pub fn w_autoon() -> (r: Vec<u8>)
    ensures
        r@ == spec_w_autoon(),
{
    let r: Vec<u8> = vec![65u8, 85u8, 84u8, 79u8, 79u8, 78u8];
    proof {
        assert(r@ =~= spec_w_autoon());
    }
    r
}

/// Bytes of the deep sleep disable word.
pub open spec fn spec_w_autooff() -> Seq<u8> {
    seq![65u8, 85u8, 84u8, 79u8, 79u8, 70u8, 70u8]
}

/// Builds the deep sleep disable word.
pub fn w_autooff() -> (r: Vec<u8>)
    ensures
        r@ == spec_w_autooff(),
{
    let r: Vec<u8> = vec![65u8, 85u8, 84u8, 79u8, 79u8, 70u8, 70u8];
    proof {
        assert(r@ =~= spec_w_autooff());
    }
    r
}

/// Bytes of the identifier command prefix.
pub open spec fn spec_p_id() -> Seq<u8> {
    seq![43u8, 73u8, 68u8]
}

/// Builds the identifier command prefix.
pub fn p_id() -> (r: Vec<u8>)
    ensures
        r@ == spec_p_id(),
{
    let r: Vec<u8> = vec![43u8, 73u8, 68u8];
    proof {
        assert(r@ =~= spec_p_id());
    }
    r
}

/// Bytes of the device EUI query line.
pub open spec fn spec_p_id_deveui() -> Seq<u8> {
    seq![43u8, 73u8, 68u8, 61u8, 68u8, 101u8, 118u8, 69u8, 117u8, 105u8]
}

/// Builds the device EUI query line.
pub fn p_id_deveui() -> (r: Vec<u8>)
    ensures
        r@ == spec_p_id_deveui(),
{
    let r: Vec<u8> = vec![43u8, 73u8, 68u8, 61u8, 68u8, 101u8, 118u8, 69u8, 117u8, 105u8];
    proof {
        assert(r@ =~= spec_p_id_deveui());
    }
    r
}

/// Bytes of the application EUI query line.
pub open spec fn spec_p_id_appeui() -> Seq<u8> {
    seq![43u8, 73u8, 68u8, 61u8, 65u8, 112u8, 112u8, 69u8, 117u8, 105u8]
}

/// Builds the application EUI query line.
pub fn p_id_appeui() -> (r: Vec<u8>)
    ensures
        r@ == spec_p_id_appeui(),
{
    let r: Vec<u8> = vec![43u8, 73u8, 68u8, 61u8, 65u8, 112u8, 112u8, 69u8, 117u8, 105u8];
    proof {
        assert(r@ =~= spec_p_id_appeui());
    }
    r
}

/// Bytes of the device EUI subkey.
pub open spec fn spec_w_deveui() -> Seq<u8> {
    seq![68u8, 101u8, 118u8, 69u8, 117u8, 105u8]
}

/// Builds the device EUI subkey.
pub fn w_deveui() -> (r: Vec<u8>)
    ensures
        r@ == spec_w_deveui(),
{
    let r: Vec<u8> = vec![68u8, 101u8, 118u8, 69u8, 117u8, 105u8];
    proof {
        assert(r@ =~= spec_w_deveui());
    }
    r
}

/// Bytes of the application EUI subkey.
pub open spec fn spec_w_appeui() -> Seq<u8> {
    seq![65u8, 112u8, 112u8, 69u8, 117u8, 105u8]
}

/// Builds the application EUI subkey.
pub fn w_appeui() -> (r: Vec<u8>)
    ensures
        r@ == spec_w_appeui(),
{
    let r: Vec<u8> = vec![65u8, 112u8, 112u8, 69u8, 117u8, 105u8];
    proof {
        assert(r@ =~= spec_w_appeui());
    }
    r
}

/// Bytes of the string message command prefix.
pub open spec fn spec_p_msg() -> Seq<u8> {
    seq![43u8, 77u8, 83u8, 71u8]
}

/// Builds the string message command prefix.
pub fn p_msg() -> (r: Vec<u8>)
    ensures
        r@ == spec_p_msg(),
{
    let r: Vec<u8> = vec![43u8, 77u8, 83u8, 71u8];
    proof {
        assert(r@ =~= spec_p_msg());
    }
    r
}

/// Bytes of the confirmed string message command prefix.
pub open spec fn spec_p_cmsg() -> Seq<u8> {
    seq![43u8, 67u8, 77u8, 83u8, 71u8]
}

/// Builds the confirmed string message command prefix.
pub fn p_cmsg() -> (r: Vec<u8>)
    ensures
        r@ == spec_p_cmsg(),
{
    let r: Vec<u8> = vec![43u8, 67u8, 77u8, 83u8, 71u8];
    proof {
        assert(r@ =~= spec_p_cmsg());
    }
    r
}

/// Bytes of the hex message command prefix.
pub open spec fn spec_p_msghex() -> Seq<u8> {
    seq![43u8, 77u8, 83u8, 71u8, 72u8, 69u8, 88u8]
}

/// Builds the hex message command prefix.
pub fn p_msghex() -> (r: Vec<u8>)
    ensures
        r@ == spec_p_msghex(),
{
    let r: Vec<u8> = vec![43u8, 77u8, 83u8, 71u8, 72u8, 69u8, 88u8];
    proof {
        assert(r@ =~= spec_p_msghex());
    }
    r
}

/// Bytes of the confirmed hex message command prefix.
pub open spec fn spec_p_cmsghex() -> Seq<u8> {
    seq![43u8, 67u8, 77u8, 83u8, 71u8, 72u8, 69u8, 88u8]
}

/// Builds the confirmed hex message command prefix.
pub fn p_cmsghex() -> (r: Vec<u8>)
    ensures
        r@ == spec_p_cmsghex(),
{
    let r: Vec<u8> = vec![43u8, 67u8, 77u8, 83u8, 71u8, 72u8, 69u8, 88u8];
    proof {
        assert(r@ =~= spec_p_cmsghex());
    }
    r
}

/// Bytes of the proprietary string message command prefix.
pub open spec fn spec_p_pmsg() -> Seq<u8> {
    seq![43u8, 80u8, 77u8, 83u8, 71u8]
}

/// Builds the proprietary string message command prefix.
pub fn p_pmsg() -> (r: Vec<u8>)
    ensures
        r@ == spec_p_pmsg(),
{
    let r: Vec<u8> = vec![43u8, 80u8, 77u8, 83u8, 71u8];
    proof {
        assert(r@ =~= spec_p_pmsg());
    }
    r
}

/// Bytes of the proprietary hex message command prefix.
pub open spec fn spec_p_pmsghex() -> Seq<u8> {
    seq![43u8, 80u8, 77u8, 83u8, 71u8, 72u8, 69u8, 88u8]
}

/// Builds the proprietary hex message command prefix.
pub fn p_pmsghex() -> (r: Vec<u8>)
    ensures
        r@ == spec_p_pmsghex(),
{
    let r: Vec<u8> = vec![43u8, 80u8, 77u8, 83u8, 71u8, 72u8, 69u8, 88u8];
    proof {
        assert(r@ =~= spec_p_pmsghex());
    }
    r
}

/// Bytes of the port query line.
pub open spec fn spec_p_port_q() -> Seq<u8> {
    seq![43u8, 80u8, 79u8, 82u8, 84u8, 61u8, 63u8]
}

/// Builds the port query line.
pub fn p_port_q() -> (r: Vec<u8>)
    ensures
        r@ == spec_p_port_q(),
{
    let r: Vec<u8> = vec![43u8, 80u8, 79u8, 82u8, 84u8, 61u8, 63u8];
    proof {
        assert(r@ =~= spec_p_port_q());
    }
    r
}

/// Bytes of the port command prefix.
pub open spec fn spec_p_port() -> Seq<u8> {
    seq![43u8, 80u8, 79u8, 82u8, 84u8]
}

/// Builds the port command prefix.
pub fn p_port() -> (r: Vec<u8>)
    ensures
        r@ == spec_p_port(),
{
    let r: Vec<u8> = vec![43u8, 80u8, 79u8, 82u8, 84u8];
    proof {
        assert(r@ =~= spec_p_port());
    }
    r
}

/// Bytes of the adaptive data rate query line.
pub open spec fn spec_p_adr_q() -> Seq<u8> {
    seq![43u8, 65u8, 68u8, 82u8, 61u8, 63u8]
}

/// Builds the adaptive data rate query line.
pub fn p_adr_q() -> (r: Vec<u8>)
    ensures
        r@ == spec_p_adr_q(),
{
    let r: Vec<u8> = vec![43u8, 65u8, 68u8, 82u8, 61u8, 63u8];
    proof {
        assert(r@ =~= spec_p_adr_q());
    }
    r
}

/// Bytes of the adaptive data rate command prefix.
pub open spec fn spec_p_adr() -> Seq<u8> {
    seq![43u8, 65u8, 68u8, 82u8]
}

/// Builds the adaptive data rate command prefix.
pub fn p_adr() -> (r: Vec<u8>)
    ensures
        r@ == spec_p_adr(),
{
    let r: Vec<u8> = vec![43u8, 65u8, 68u8, 82u8];
    proof {
        assert(r@ =~= spec_p_adr());
    }
    r
}

/// Bytes of the switch-on word.
pub open spec fn spec_w_on() -> Seq<u8> {
    seq![79u8, 78u8]
}

/// Builds the switch-on word.
pub fn w_on() -> (r: Vec<u8>)
    ensures
        r@ == spec_w_on(),
{
    let r: Vec<u8> = vec![79u8, 78u8];
    proof {
        assert(r@ =~= spec_w_on());
    }
    r
}

/// Bytes of the switch-off word.
pub open spec fn spec_w_off() -> Seq<u8> {
    seq![79u8, 70u8, 70u8]
}

/// Builds the switch-off word.
pub fn w_off() -> (r: Vec<u8>)
    ensures
        r@ == spec_w_off(),
{
    let r: Vec<u8> = vec![79u8, 70u8, 70u8];
    proof {
        assert(r@ =~= spec_w_off());
    }
    r
}

/// Bytes of the data rate command prefix.
pub open spec fn spec_p_dr() -> Seq<u8> {
    seq![43u8, 68u8, 82u8]
}

/// Builds the data rate command prefix.
pub fn p_dr() -> (r: Vec<u8>)
    ensures
        r@ == spec_p_dr(),
{
    let r: Vec<u8> = vec![43u8, 68u8, 82u8];
    proof {
        assert(r@ =~= spec_p_dr());
    }
    r
}

/// Bytes of the data rate value opening.
pub open spec fn spec_w_dr() -> Seq<u8> {
    seq![68u8, 82u8]
}

/// Builds the data rate value opening.
pub fn w_dr() -> (r: Vec<u8>)
    ensures
        r@ == spec_w_dr(),
{
    let r: Vec<u8> = vec![68u8, 82u8];
    proof {
        assert(r@ =~= spec_w_dr());
    }
    r
}

/// Bytes of the data rate scheme query line.
pub open spec fn spec_p_dr_scheme() -> Seq<u8> {
    seq![43u8, 68u8, 82u8, 61u8, 83u8, 67u8, 72u8, 69u8, 77u8, 69u8]
}

/// Builds the data rate scheme query line.
pub fn p_dr_scheme() -> (r: Vec<u8>)
    ensures
        r@ == spec_p_dr_scheme(),
{
    let r: Vec<u8> = vec![43u8, 68u8, 82u8, 61u8, 83u8, 67u8, 72u8, 69u8, 77u8, 69u8];
    proof {
        assert(r@ =~= spec_p_dr_scheme());
    }
    r
}

/// Bytes of the transmit power command prefix.
pub open spec fn spec_p_power() -> Seq<u8> {
    seq![43u8, 80u8, 79u8, 87u8, 69u8, 82u8]
}

/// Builds the transmit power command prefix.
pub fn p_power() -> (r: Vec<u8>)
    ensures
        r@ == spec_p_power(),
{
    let r: Vec<u8> = vec![43u8, 80u8, 79u8, 87u8, 69u8, 82u8];
    proof {
        assert(r@ =~= spec_p_power());
    }
    r
}

/// Bytes of the force argument of the power command.
pub open spec fn spec_w_force_arg() -> Seq<u8> {
    seq![44u8, 32u8, 70u8, 79u8, 82u8, 67u8, 69u8]
}

/// Builds the force argument of the power command.
pub fn w_force_arg() -> (r: Vec<u8>)
    ensures
        r@ == spec_w_force_arg(),
{
    let r: Vec<u8> = vec![44u8, 32u8, 70u8, 79u8, 82u8, 67u8, 69u8];
    proof {
        assert(r@ =~= spec_w_force_arg());
    }
    r
}

/// Bytes of the power table subkey.
pub open spec fn spec_w_table() -> Seq<u8> {
    seq![84u8, 65u8, 66u8, 76u8, 69u8]
}

/// Builds the power table subkey.
pub fn w_table() -> (r: Vec<u8>)
    ensures
        r@ == spec_w_table(),
{
    let r: Vec<u8> = vec![84u8, 65u8, 66u8, 76u8, 69u8];
    proof {
        assert(r@ =~= spec_w_table());
    }
    r
}

/// Bytes of the repeat query line.
pub open spec fn spec_p_rept_q() -> Seq<u8> {
    seq![43u8, 82u8, 69u8, 80u8, 84u8, 61u8, 63u8]
}

/// Builds the repeat query line.
pub fn p_rept_q() -> (r: Vec<u8>)
    ensures
        r@ == spec_p_rept_q(),
{
    let r: Vec<u8> = vec![43u8, 82u8, 69u8, 80u8, 84u8, 61u8, 63u8];
    proof {
        assert(r@ =~= spec_p_rept_q());
    }
    r
}

/// Bytes of the repeat command prefix.
pub open spec fn spec_p_rept() -> Seq<u8> {
    seq![43u8, 82u8, 69u8, 80u8, 84u8]
}

/// Builds the repeat command prefix.
pub fn p_rept() -> (r: Vec<u8>)
    ensures
        r@ == spec_p_rept(),
{
    let r: Vec<u8> = vec![43u8, 82u8, 69u8, 80u8, 84u8];
    proof {
        assert(r@ =~= spec_p_rept());
    }
    r
}

/// Bytes of the retry query line.
pub open spec fn spec_p_retry_q() -> Seq<u8> {
    seq![43u8, 82u8, 69u8, 84u8, 82u8, 89u8, 61u8, 63u8]
}

/// Builds the retry query line.
pub fn p_retry_q() -> (r: Vec<u8>)
    ensures
        r@ == spec_p_retry_q(),
{
    let r: Vec<u8> = vec![43u8, 82u8, 69u8, 84u8, 82u8, 89u8, 61u8, 63u8];
    proof {
        assert(r@ =~= spec_p_retry_q());
    }
    r
}

/// Bytes of the retry command prefix.
pub open spec fn spec_p_retry() -> Seq<u8> {
    seq![43u8, 82u8, 69u8, 84u8, 82u8, 89u8]
}

/// Builds the retry command prefix.
pub fn p_retry() -> (r: Vec<u8>)
    ensures
        r@ == spec_p_retry(),
{
    let r: Vec<u8> = vec![43u8, 82u8, 69u8, 84u8, 82u8, 89u8];
    proof {
        assert(r@ =~= spec_p_retry());
    }
    r
}

/// Bytes of the key command prefix.
pub open spec fn spec_p_key() -> Seq<u8> {
    seq![43u8, 75u8, 69u8, 89u8]
}

/// Builds the key command prefix.
pub fn p_key() -> (r: Vec<u8>)
    ensures
        r@ == spec_p_key(),
{
    let r: Vec<u8> = vec![43u8, 75u8, 69u8, 89u8];
    proof {
        assert(r@ =~= spec_p_key());
    }
    r
}

/// Bytes of the application key subkey.
pub open spec fn spec_w_appkey() -> Seq<u8> {
    seq![65u8, 80u8, 80u8, 75u8, 69u8, 89u8]
}

/// Builds the application key subkey.
pub fn w_appkey() -> (r: Vec<u8>)
    ensures
        r@ == spec_w_appkey(),
{
    let r: Vec<u8> = vec![65u8, 80u8, 80u8, 75u8, 69u8, 89u8];
    proof {
        assert(r@ =~= spec_w_appkey());
    }
    r
}

/// Bytes of the mode command prefix.
pub open spec fn spec_p_mode() -> Seq<u8> {
    seq![43u8, 77u8, 79u8, 68u8, 69u8]
}

/// Builds the mode command prefix.
pub fn p_mode() -> (r: Vec<u8>)
    ensures
        r@ == spec_p_mode(),
{
    let r: Vec<u8> = vec![43u8, 77u8, 79u8, 68u8, 69u8];
    proof {
        assert(r@ =~= spec_p_mode());
    }
    r
}

/// Bytes of the over-the-air activation mode word.
pub open spec fn spec_w_lwotaa() -> Seq<u8> {
    seq![76u8, 87u8, 79u8, 84u8, 65u8, 65u8]
}

/// Builds the over-the-air activation mode word.
pub fn w_lwotaa() -> (r: Vec<u8>)
    ensures
        r@ == spec_w_lwotaa(),
{
    let r: Vec<u8> = vec![76u8, 87u8, 79u8, 84u8, 65u8, 65u8];
    proof {
        assert(r@ =~= spec_w_lwotaa());
    }
    r
}

/// Bytes of the personalised activation mode word.
pub open spec fn spec_w_lwabp() -> Seq<u8> {
    seq![76u8, 87u8, 65u8, 66u8, 80u8]
}

/// Builds the personalised activation mode word.
pub fn w_lwabp() -> (r: Vec<u8>)
    ensures
        r@ == spec_w_lwabp(),
{
    let r: Vec<u8> = vec![76u8, 87u8, 65u8, 66u8, 80u8];
    proof {
        assert(r@ =~= spec_w_lwabp());
    }
    r
}

/// Bytes of the test mode word.
pub open spec fn spec_w_test() -> Seq<u8> {
    seq![84u8, 69u8, 83u8, 84u8]
}

/// Builds the test mode word.
pub fn w_test() -> (r: Vec<u8>)
    ensures
        r@ == spec_w_test(),
{
    let r: Vec<u8> = vec![84u8, 69u8, 83u8, 84u8];
    proof {
        assert(r@ =~= spec_w_test());
    }
    r
}

/// Bytes of the join command prefix.
pub open spec fn spec_p_join() -> Seq<u8> {
    seq![43u8, 74u8, 79u8, 73u8, 78u8]
}

/// Builds the join command prefix.
pub fn p_join() -> (r: Vec<u8>)
    ensures
        r@ == spec_p_join(),
{
    let r: Vec<u8> = vec![43u8, 74u8, 79u8, 73u8, 78u8];
    proof {
        assert(r@ =~= spec_p_join());
    }
    r
}

/// Bytes of the forced join line.
pub open spec fn spec_p_join_force() -> Seq<u8> {
    seq![43u8, 74u8, 79u8, 73u8, 78u8, 61u8, 70u8, 79u8, 82u8, 67u8, 69u8]
}

/// Builds the forced join line.
pub fn p_join_force() -> (r: Vec<u8>)
    ensures
        r@ == spec_p_join_force(),
{
    let r: Vec<u8> = vec![43u8, 74u8, 79u8, 73u8, 78u8, 61u8, 70u8, 79u8, 82u8, 67u8, 69u8];
    proof {
        assert(r@ =~= spec_p_join_force());
    }
    r
}

/// Bytes of the auto join word.
pub open spec fn spec_w_auto() -> Seq<u8> {
    seq![65u8, 85u8, 84u8, 79u8]
}

/// Builds the auto join word.
pub fn w_auto() -> (r: Vec<u8>)
    ensures
        r@ == spec_w_auto(),
{
    let r: Vec<u8> = vec![65u8, 85u8, 84u8, 79u8];
    proof {
        assert(r@ =~= spec_w_auto());
    }
    r
}

/// Bytes of the device class query line.
pub open spec fn spec_p_class_q() -> Seq<u8> {
    seq![43u8, 67u8, 76u8, 65u8, 83u8, 83u8, 61u8, 63u8]
}

/// Builds the device class query line.
pub fn p_class_q() -> (r: Vec<u8>)
    ensures
        r@ == spec_p_class_q(),
{
    let r: Vec<u8> = vec![43u8, 67u8, 76u8, 65u8, 83u8, 83u8, 61u8, 63u8];
    proof {
        assert(r@ =~= spec_p_class_q());
    }
    r
}

/// Bytes of the device class command prefix.
pub open spec fn spec_p_class() -> Seq<u8> {
    seq![43u8, 67u8, 76u8, 65u8, 83u8, 83u8]
}

/// Builds the device class command prefix.
pub fn p_class() -> (r: Vec<u8>)
    ensures
        r@ == spec_p_class(),
{
    let r: Vec<u8> = vec![43u8, 67u8, 76u8, 65u8, 83u8, 83u8];
    proof {
        assert(r@ =~= spec_p_class());
    }
    r
}

/// Bytes of the LoRaWAN settings command prefix.
pub open spec fn spec_p_lw() -> Seq<u8> {
    seq![43u8, 76u8, 87u8]
}

/// Builds the LoRaWAN settings command prefix.
pub fn p_lw() -> (r: Vec<u8>)
    ensures
        r@ == spec_p_lw(),
{
    let r: Vec<u8> = vec![43u8, 76u8, 87u8];
    proof {
        assert(r@ =~= spec_p_lw());
    }
    r
}

/// Bytes of the counter subkey.
pub open spec fn spec_w_uldl() -> Seq<u8> {
    seq![85u8, 76u8, 68u8, 76u8]
}

/// Builds the counter subkey.
pub fn w_uldl() -> (r: Vec<u8>)
    ensures
        r@ == spec_w_uldl(),
{
    let r: Vec<u8> = vec![85u8, 76u8, 68u8, 76u8];
    proof {
        assert(r@ =~= spec_w_uldl());
    }
    r
}

/// Bytes of the maximum payload length subkey.
pub open spec fn spec_w_len() -> Seq<u8> {
    seq![76u8, 69u8, 78u8]
}

/// Builds the maximum payload length subkey.
pub fn w_len() -> (r: Vec<u8>)
    ensures
        r@ == spec_w_len(),
{
    let r: Vec<u8> = vec![76u8, 69u8, 78u8];
    proof {
        assert(r@ =~= spec_w_len());
    }
    r
}

/// Bytes of class A.
pub open spec fn spec_w_class_a() -> Seq<u8> {
    seq![65u8]
}

/// Builds class A.
pub fn w_class_a() -> (r: Vec<u8>)
    ensures
        r@ == spec_w_class_a(),
{
    let r: Vec<u8> = vec![65u8];
    proof {
        assert(r@ =~= spec_w_class_a());
    }
    r
}

/// Bytes of class B.
pub open spec fn spec_w_class_b() -> Seq<u8> {
    seq![66u8]
}

/// Builds class B.
pub fn w_class_b() -> (r: Vec<u8>)
    ensures
        r@ == spec_w_class_b(),
{
    let r: Vec<u8> = vec![66u8];
    proof {
        assert(r@ =~= spec_w_class_b());
    }
    r
}

/// Bytes of class C.
pub open spec fn spec_w_class_c() -> Seq<u8> {
    seq![67u8]
}

/// Builds class C.
pub fn w_class_c() -> (r: Vec<u8>)
    ensures
        r@ == spec_w_class_c(),
{
    let r: Vec<u8> = vec![67u8];
    proof {
        assert(r@ =~= spec_w_class_c());
    }
    r
}

/// Bytes of the EU868 region word.
pub open spec fn spec_w_eu868() -> Seq<u8> {
    seq![69u8, 85u8, 56u8, 54u8, 56u8]
}

/// Builds the EU868 region word.
pub fn w_eu868() -> (r: Vec<u8>)
    ensures
        r@ == spec_w_eu868(),
{
    let r: Vec<u8> = vec![69u8, 85u8, 56u8, 54u8, 56u8];
    proof {
        assert(r@ =~= spec_w_eu868());
    }
    r
}

/// Bytes of the US915 region word.
pub open spec fn spec_w_us915() -> Seq<u8> {
    seq![85u8, 83u8, 57u8, 49u8, 53u8]
}

/// Builds the US915 region word.
pub fn w_us915() -> (r: Vec<u8>)
    ensures
        r@ == spec_w_us915(),
{
    let r: Vec<u8> = vec![85u8, 83u8, 57u8, 49u8, 53u8];
    proof {
        assert(r@ =~= spec_w_us915());
    }
    r
}

/// Bytes of the US915HYBRID region word.
pub open spec fn spec_w_us915hybrid() -> Seq<u8> {
    seq![85u8, 83u8, 57u8, 49u8, 53u8, 72u8, 89u8, 66u8, 82u8, 73u8, 68u8]
}

/// Builds the US915HYBRID region word.
pub fn w_us915hybrid() -> (r: Vec<u8>)
    ensures
        r@ == spec_w_us915hybrid(),
{
    let r: Vec<u8> = vec![85u8, 83u8, 57u8, 49u8, 53u8, 72u8, 89u8, 66u8, 82u8, 73u8, 68u8];
    proof {
        assert(r@ =~= spec_w_us915hybrid());
    }
    r
}

/// Bytes of the CN779 region word.
pub open spec fn spec_w_cn779() -> Seq<u8> {
    seq![67u8, 78u8, 55u8, 55u8, 57u8]
}

/// Builds the CN779 region word.
pub fn w_cn779() -> (r: Vec<u8>)
    ensures
        r@ == spec_w_cn779(),
{
    let r: Vec<u8> = vec![67u8, 78u8, 55u8, 55u8, 57u8];
    proof {
        assert(r@ =~= spec_w_cn779());
    }
    r
}

/// Bytes of the EU433 region word.
pub open spec fn spec_w_eu433() -> Seq<u8> {
    seq![69u8, 85u8, 52u8, 51u8, 51u8]
}

/// Builds the EU433 region word.
pub fn w_eu433() -> (r: Vec<u8>)
    ensures
        r@ == spec_w_eu433(),
{
    let r: Vec<u8> = vec![69u8, 85u8, 52u8, 51u8, 51u8];
    proof {
        assert(r@ =~= spec_w_eu433());
    }
    r
}

/// Bytes of the AU915 region word.
pub open spec fn spec_w_au915() -> Seq<u8> {
    seq![65u8, 85u8, 57u8, 49u8, 53u8]
}

/// Builds the AU915 region word.
pub fn w_au915() -> (r: Vec<u8>)
    ensures
        r@ == spec_w_au915(),
{
    let r: Vec<u8> = vec![65u8, 85u8, 57u8, 49u8, 53u8];
    proof {
        assert(r@ =~= spec_w_au915());
    }
    r
}

/// Bytes of the AU915OLD region word.
pub open spec fn spec_w_au915old() -> Seq<u8> {
    seq![65u8, 85u8, 57u8, 49u8, 53u8, 79u8, 76u8, 68u8]
}

/// Builds the AU915OLD region word.
pub fn w_au915old() -> (r: Vec<u8>)
    ensures
        r@ == spec_w_au915old(),
{
    let r: Vec<u8> = vec![65u8, 85u8, 57u8, 49u8, 53u8, 79u8, 76u8, 68u8];
    proof {
        assert(r@ =~= spec_w_au915old());
    }
    r
}

/// Bytes of the CN470 region word.
pub open spec fn spec_w_cn470() -> Seq<u8> {
    seq![67u8, 78u8, 52u8, 55u8, 48u8]
}

/// Builds the CN470 region word.
pub fn w_cn470() -> (r: Vec<u8>)
    ensures
        r@ == spec_w_cn470(),
{
    let r: Vec<u8> = vec![67u8, 78u8, 52u8, 55u8, 48u8];
    proof {
        assert(r@ =~= spec_w_cn470());
    }
    r
}

/// Bytes of the AS923 region word.
pub open spec fn spec_w_as923() -> Seq<u8> {
    seq![65u8, 83u8, 57u8, 50u8, 51u8]
}

/// Builds the AS923 region word.
pub fn w_as923() -> (r: Vec<u8>)
    ensures
        r@ == spec_w_as923(),
{
    let r: Vec<u8> = vec![65u8, 83u8, 57u8, 50u8, 51u8];
    proof {
        assert(r@ =~= spec_w_as923());
    }
    r
}

/// Bytes of the KR920 region word.
pub open spec fn spec_w_kr920() -> Seq<u8> {
    seq![75u8, 82u8, 57u8, 50u8, 48u8]
}

/// Builds the KR920 region word.
pub fn w_kr920() -> (r: Vec<u8>)
    ensures
        r@ == spec_w_kr920(),
{
    let r: Vec<u8> = vec![75u8, 82u8, 57u8, 50u8, 48u8];
    proof {
        assert(r@ =~= spec_w_kr920());
    }
    r
}

/// Bytes of the IN865 region word.
pub open spec fn spec_w_in865() -> Seq<u8> {
    seq![73u8, 78u8, 56u8, 54u8, 53u8]
}

/// Builds the IN865 region word.
pub fn w_in865() -> (r: Vec<u8>)
    ensures
        r@ == spec_w_in865(),
{
    let r: Vec<u8> = vec![73u8, 78u8, 56u8, 54u8, 53u8];
    proof {
        assert(r@ =~= spec_w_in865());
    }
    r
}

/// Bytes of the RU864 region word.
pub open spec fn spec_w_ru864() -> Seq<u8> {
    seq![82u8, 85u8, 56u8, 54u8, 52u8]
}

/// Builds the RU864 region word.
pub fn w_ru864() -> (r: Vec<u8>)
    ensures
        r@ == spec_w_ru864(),
{
    let r: Vec<u8> = vec![82u8, 85u8, 56u8, 54u8, 52u8];
    proof {
        assert(r@ =~= spec_w_ru864());
    }
    r
}

/// Bytes of the CN470PREQUEL region word.
pub open spec fn spec_w_cn470prequel() -> Seq<u8> {
    seq![67u8, 78u8, 52u8, 55u8, 48u8, 80u8, 82u8, 69u8, 81u8, 85u8, 69u8, 76u8]
}

/// Builds the CN470PREQUEL region word.
pub fn w_cn470prequel() -> (r: Vec<u8>)
    ensures
        r@ == spec_w_cn470prequel(),
{
    let r: Vec<u8> = vec![67u8, 78u8, 52u8, 55u8, 48u8, 80u8, 82u8, 69u8, 81u8, 85u8, 69u8, 76u8];
    proof {
        assert(r@ =~= spec_w_cn470prequel());
    }
    r
}

/// Bytes of the STE920 region word.
pub open spec fn spec_w_ste920() -> Seq<u8> {
    seq![83u8, 84u8, 69u8, 57u8, 50u8, 48u8]
}

/// Builds the STE920 region word.
pub fn w_ste920() -> (r: Vec<u8>)
    ensures
        r@ == spec_w_ste920(),
{
    let r: Vec<u8> = vec![83u8, 84u8, 69u8, 57u8, 50u8, 48u8];
    proof {
        assert(r@ =~= spec_w_ste920());
    }
    r
}

/// Bytes of the JP920 region word.
pub open spec fn spec_w_jp920() -> Seq<u8> {
    seq![74u8, 80u8, 57u8, 50u8, 48u8]
}

/// Builds the JP920 region word.
pub fn w_jp920() -> (r: Vec<u8>)
    ensures
        r@ == spec_w_jp920(),
{
    let r: Vec<u8> = vec![74u8, 80u8, 57u8, 50u8, 48u8];
    proof {
        assert(r@ =~= spec_w_jp920());
    }
    r
}

/// Bytes of the unknown region word.
pub open spec fn spec_w_unknown() -> Seq<u8> {
    seq![85u8, 78u8, 75u8, 78u8, 79u8, 87u8, 78u8]
}

/// Builds the unknown region word.
pub fn w_unknown() -> (r: Vec<u8>)
    ensures
        r@ == spec_w_unknown(),
{
    let r: Vec<u8> = vec![85u8, 78u8, 75u8, 78u8, 79u8, 87u8, 78u8];
    proof {
        assert(r@ =~= spec_w_unknown());
    }
    r
}

/// Bytes of the bare success word.
pub open spec fn spec_w_ok() -> Seq<u8> {
    seq![79u8, 75u8]
}

/// Builds the bare success word.
pub fn w_ok() -> (r: Vec<u8>)
    ensures
        r@ == spec_w_ok(),
{
    let r: Vec<u8> = vec![79u8, 75u8];
    proof {
        assert(r@ =~= spec_w_ok());
    }
    r
}

/// Bytes of the starting reply text.
pub open spec fn spec_w_starting() -> Seq<u8> {
    seq![83u8, 116u8, 97u8, 114u8, 116u8, 105u8, 110u8, 103u8]
}

/// Builds the starting reply text.
pub fn w_starting() -> (r: Vec<u8>)
    ensures
        r@ == spec_w_starting(),
{
    let r: Vec<u8> = vec![83u8, 116u8, 97u8, 114u8, 116u8, 105u8, 110u8, 103u8];
    proof {
        assert(r@ =~= spec_w_starting());
    }
    r
}

/// Bytes of the busy reply text.
pub open spec fn spec_w_busy() -> Seq<u8> {
    seq![76u8, 111u8, 82u8, 97u8, 87u8, 65u8, 78u8, 32u8, 109u8, 111u8, 100u8, 101u8, 109u8, 32u8, 105u8, 115u8, 32u8, 98u8, 117u8, 115u8, 121u8]
}

/// Builds the busy reply text.
pub fn w_busy() -> (r: Vec<u8>)
    ensures
        r@ == spec_w_busy(),
{
    let r: Vec<u8> = vec![76u8, 111u8, 82u8, 97u8, 87u8, 65u8, 78u8, 32u8, 109u8, 111u8, 100u8, 101u8, 109u8, 32u8, 105u8, 115u8, 32u8, 98u8, 117u8, 115u8, 121u8];
    proof {
        assert(r@ =~= spec_w_busy());
    }
    r
}

/// Bytes of the join-success reply text opening.
pub open spec fn spec_w_netid_lower() -> Seq<u8> {
    seq![78u8, 101u8, 116u8, 73u8, 100u8]
}

/// Builds the join-success reply text opening.
pub fn w_netid_lower() -> (r: Vec<u8>)
    ensures
        r@ == spec_w_netid_lower(),
{
    let r: Vec<u8> = vec![78u8, 101u8, 116u8, 73u8, 100u8];
    proof {
        assert(r@ =~= spec_w_netid_lower());
    }
    r
}

/// Bytes of the version separator.
pub open spec fn spec_dot() -> Seq<u8> {
    seq![46u8]
}

/// Builds the version separator.
pub fn dot() -> (r: Vec<u8>)
    ensures
        r@ == spec_dot(),
{
    let r: Vec<u8> = vec![46u8];
    proof {
        assert(r@ =~= spec_dot());
    }
    r
}
} // verus!