use generic_cong_avoid::extract::{interpret_raw, CcpError, RawReport};
use generic_cong_avoid::rate::{MLCC, RATE_TRANS_RATIO};

fn full_raw(uid: u32) -> RawReport {
    RawReport {
        program_uid: uid,
        acked: Some(3000),
        sacked: Some(1),
        timeout: Some(0),
        inflight: Some(12),
        loss: Some(2),
        rtt: Some(45_000),
    }
}

// A report produced under another program is a protocol mismatch.
#[test]
fn stale_report_is_mismatch() {
    let raw = full_raw(7);
    assert_eq!(interpret_raw(&raw, 8), Err(CcpError::ProtocolMismatch));
}

// A matching report with every field decodes to the typed measurement.
#[test]
fn full_report_decodes() {
    let raw = full_raw(7);
    let m = interpret_raw(&raw, 7).unwrap();
    assert_eq!(m.acked, 3000);
    assert!(!m.was_timeout);
    assert_eq!(m.sacked, 1);
    assert_eq!(m.loss, 2);
    assert_eq!(m.rtt, 45_000);
    assert_eq!(m.inflight, 12);
}

// Any absent field is fatal for the flow: the decoder and the installed
// program have drifted apart.
#[test]
fn missing_field_is_fatal() {
    let mut raw = full_raw(7);
    raw.rtt = None;
    assert_eq!(interpret_raw(&raw, 7), Err(CcpError::MissingField));
    let mut raw2 = full_raw(7);
    raw2.acked = None;
    assert_eq!(interpret_raw(&raw2, 7), Err(CcpError::MissingField));
}

// The timeout flag is set only by the exact value 1; any other nonzero
// value is not silently treated as true.
#[test]
fn timeout_flag_is_equality_to_one() {
    let mut raw = full_raw(7);
    raw.timeout = Some(1);
    assert!(interpret_raw(&raw, 7).unwrap().was_timeout);
    raw.timeout = Some(2);
    assert!(!interpret_raw(&raw, 7).unwrap().was_timeout);
    raw.timeout = Some(0);
    assert!(!interpret_raw(&raw, 7).unwrap().was_timeout);
}

// The rate-based controller ignores reports from other programs and fires a
// pending rate test exactly once.
#[test]
fn rate_controller_decisions() {
    let mut m = MLCC::new(50);
    m.set_program_handle(7);
    m.test_rate_flag = true;
    assert_eq!(m.on_report(8), None);
    assert!(m.test_rate_flag);
    assert_eq!(m.on_report(7), Some(200 * RATE_TRANS_RATIO));
    assert!(!m.test_rate_flag);
    assert_eq!(m.on_report(7), None);
}

// The initial register values for the rate-based program: a 400 Mbps rate,
// ten times the initial window, the time slot in microseconds.
#[test]
fn rate_initial_settings() {
    let m = MLCC::new(50);
    let (rate, cwnd, slot) = m.initial_settings(14_600);
    assert_eq!(rate, 400 * RATE_TRANS_RATIO);
    assert_eq!(cwnd, 146_000);
    assert_eq!(slot, 50_000);
}
