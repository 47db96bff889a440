use generic_cong_avoid::cubic::Cubic;
use generic_cong_avoid::flow::{Alg, ProgramKind};
use generic_cong_avoid::{
    GenericCongAvoidConfigReport, GenericCongAvoidConfigSS, GenericCongAvoidFlow,
    GenericCongAvoidMeasurements, DEFAULT_SS_THRESH,
};

fn meas(acked: u32, was_timeout: bool, sacked: u32, loss: u32, rtt: u32, inflight: u32)
    -> GenericCongAvoidMeasurements {
    GenericCongAvoidMeasurements { acked, was_timeout, sacked, loss, rtt, inflight }
}

fn alg_config(
    report: GenericCongAvoidConfigReport,
    ss: GenericCongAvoidConfigSS,
    ss_thresh: u32,
    use_compensation: bool,
) -> Alg<Cubic> {
    Alg {
        deficit_timeout: 0,
        init_cwnd: 15000,
        report_option: report,
        ss,
        ss_thresh,
        use_compensation,
        alg: Cubic::default(),
    }
}

// End to end: a flow created with mss = 1500, an initial window of ten
// packets and per-ack reports grows by exactly one packet on its first
// report of one acked packet, fires no reduction, and pushes the window.
#[test]
fn first_report_grows_one_packet() {
    let alg = alg_config(
        GenericCongAvoidConfigReport::Ack,
        GenericCongAvoidConfigSS::Ccp,
        DEFAULT_SS_THRESH,
        false,
    );
    let (mut flow, kind) = alg.new_flow(0, 1500, 0);
    assert_eq!(kind, ProgramKind::AckUpdateProg);
    let acts = flow.on_report(meas(1500, false, 0, 0, 50_000, 10), 600_000);
    assert_eq!(acts.install, None);
    assert_eq!(acts.cwnd_push, Some(1500 * 11));
    assert_eq!(flow.curr_cwnd(), 16500);
    assert_eq!(flow.curr_cwnd_reduction, 0);
    assert_eq!(flow.ss_thresh, DEFAULT_SS_THRESH);
    assert_eq!(flow.rtt, 50_000);
}

// Timeout recovery: ss_thresh is halved (1000 -> 500 packets), the window
// returns to the initial window, and the deficit is cleared.
#[test]
fn timeout_halves_ss_thresh() {
    let alg = alg_config(
        GenericCongAvoidConfigReport::Ack,
        GenericCongAvoidConfigSS::Ccp,
        1000 * 1500,
        false,
    );
    let (mut flow, _) = alg.new_flow(0, 1500, 0);
    let acts = flow.on_report(meas(0, true, 0, 0, 50_000, 10), 600_000);
    assert_eq!(flow.ss_thresh, 500 * 1500);
    assert_eq!(flow.curr_cwnd(), 15000);
    assert_eq!(flow.curr_cwnd_reduction, 0);
    assert_eq!(acts.cwnd_push, Some(15000));
}

// Repeated timeouts never push ss_thresh below the initial window.
#[test]
fn timeouts_keep_ss_thresh_above_floor() {
    let alg = alg_config(
        GenericCongAvoidConfigReport::Ack,
        GenericCongAvoidConfigSS::Ccp,
        1000 * 1500,
        false,
    );
    let (mut flow, _) = alg.new_flow(0, 1500, 0);
    let mut prev = flow.ss_thresh;
    for _ in 0..16 {
        flow.handle_timeout();
        assert!(flow.ss_thresh <= prev);
        assert!(flow.ss_thresh >= 15000);
        prev = flow.ss_thresh;
    }
    assert_eq!(flow.ss_thresh, 15000);
}

// Slow start below the threshold consumes the whole ack: the window grows by
// exactly the acked bytes and nothing is left over.
#[test]
fn slow_start_full_consumption() {
    let alg = alg_config(
        GenericCongAvoidConfigReport::Ack,
        GenericCongAvoidConfigSS::Ccp,
        DEFAULT_SS_THRESH,
        false,
    );
    let (mut flow, _) = alg.new_flow(0, 1500, 0);
    let leftover = flow.slow_start_increase(4500);
    assert_eq!(leftover, 0);
    assert_eq!(flow.curr_cwnd(), 15000 + 4500);
}

// Slow start crossing the threshold stops exactly at ss_thresh and returns
// the acked bytes beyond it.
#[test]
fn slow_start_crosses_threshold() {
    let alg = alg_config(
        GenericCongAvoidConfigReport::Ack,
        GenericCongAvoidConfigSS::Ccp,
        16000,
        false,
    );
    let (mut flow, _) = alg.new_flow(0, 1500, 0);
    let leftover = flow.slow_start_increase(1500);
    assert_eq!(leftover, 1500 - (16000 - 15000));
    assert_eq!(flow.curr_cwnd(), 16000);
}

// Slow start already exited: the ack passes through untouched.
#[test]
fn slow_start_already_exited() {
    let alg = alg_config(
        GenericCongAvoidConfigReport::Ack,
        GenericCongAvoidConfigSS::Ccp,
        15000,
        false,
    );
    let (mut flow, _) = alg.new_flow(0, 1500, 0);
    let leftover = flow.slow_start_increase(7000);
    assert_eq!(leftover, 7000);
    assert_eq!(flow.curr_cwnd(), 15000);
}

// Under compensation the window grows by acked / ln 2 in fixed point:
// 1000 acked bytes become 1442.
#[test]
fn slow_start_compensated_growth() {
    let alg = alg_config(
        GenericCongAvoidConfigReport::Ack,
        GenericCongAvoidConfigSS::Ccp,
        DEFAULT_SS_THRESH,
        true,
    );
    let (mut flow, _) = alg.new_flow(0, 1500, 0);
    let leftover = flow.slow_start_increase(1000);
    assert_eq!(leftover, 0);
    assert_eq!(flow.curr_cwnd(), 15000 + 1442);
}

// Deficit accounting: a report with loss 3 and sacked 2 against a clear
// deficit fires a reduction and leaves a deficit of 5; a loss-free report
// with enough acked bytes clears it.
#[test]
fn deficit_charge_and_clear() {
    let alg = alg_config(
        GenericCongAvoidConfigReport::Ack,
        GenericCongAvoidConfigSS::Ccp,
        DEFAULT_SS_THRESH,
        false,
    );
    let (mut flow, _) = alg.new_flow(0, 1500, 0);
    flow.set_program_handle(1);
    flow.alg.set_cwnd(100 * 1500);
    let before = flow.curr_cwnd();
    let push = flow.maybe_reduce_cwnd(&meas(0, false, 2, 3, 100_000, 10), 1_000_000);
    assert!(push.is_some());
    assert!(flow.curr_cwnd() < before);
    assert_eq!(flow.curr_cwnd_reduction, 5);
    assert_eq!(flow.ss_thresh, flow.curr_cwnd());
    let push2 = flow.maybe_reduce_cwnd(&meas(5 * 1500, false, 0, 0, 100_000, 10), 2_000_000);
    assert_eq!(push2, None);
    assert_eq!(flow.curr_cwnd_reduction, 0);
}

// The deficit pay-down deliberately mixes units: acked bytes are compared
// against the packet-valued deficit, and fewer acked bytes than deficit
// packets pay down floor(acked / mss) packets.
#[test]
fn deficit_paydown_unit_mix() {
    let alg = alg_config(
        GenericCongAvoidConfigReport::Ack,
        GenericCongAvoidConfigSS::Ccp,
        DEFAULT_SS_THRESH,
        false,
    );
    let (mut flow, _) = alg.new_flow(0, 1500, 0);
    flow.maybe_reduce_cwnd(&meas(0, false, 2, 3, 100_000, 10), 1_000_000);
    assert_eq!(flow.curr_cwnd_reduction, 5);
    // 3 acked bytes are fewer than 5 deficit packets; 3 / 1500 packets = 0.
    let push = flow.maybe_reduce_cwnd(&meas(3, false, 0, 0, 100_000, 10), 1_100_000);
    assert_eq!(push, None);
    assert_eq!(flow.curr_cwnd_reduction, 5);
}

// While the deficit is positive, a lossy report does not fire a second
// reduction and the window is not pushed.
#[test]
fn no_second_reduction_while_deficit() {
    let alg = alg_config(
        GenericCongAvoidConfigReport::Ack,
        GenericCongAvoidConfigSS::Ccp,
        DEFAULT_SS_THRESH,
        false,
    );
    let (mut flow, _) = alg.new_flow(0, 1500, 0);
    flow.alg.set_cwnd(100 * 1500);
    flow.maybe_reduce_cwnd(&meas(0, false, 0, 1, 100_000, 10), 1_000_000);
    let w = flow.curr_cwnd();
    let push = flow.maybe_reduce_cwnd(&meas(0, false, 0, 1, 100_000, 10), 1_100_000);
    assert_eq!(push, None);
    assert_eq!(flow.curr_cwnd(), w);
    assert_eq!(flow.curr_cwnd_reduction, 2);
}

// A configured deficit timeout forgives a stale deficit, so a later loss
// fires a reduction again.
#[test]
fn deficit_timeout_forgives() {
    let mut alg = alg_config(
        GenericCongAvoidConfigReport::Ack,
        GenericCongAvoidConfigSS::Ccp,
        DEFAULT_SS_THRESH,
        false,
    );
    alg.deficit_timeout = 2;
    let (mut flow, _) = alg.new_flow(0, 1500, 0);
    flow.alg.set_cwnd(100 * 1500);
    flow.maybe_reduce_cwnd(&meas(0, false, 0, 1, 1000, 10), 1_000_000);
    assert_eq!(flow.curr_cwnd_reduction, 1);
    let w = flow.curr_cwnd();
    // rtt 1000 us * timeout 2 is taken as 2000 ms; 3 seconds later the debt
    // is forgiven and the loss reduces again.
    let push = flow.maybe_reduce_cwnd(&meas(0, false, 0, 1, 1000, 10), 4_100_000);
    assert!(push.is_some());
    assert!(flow.curr_cwnd() < w);
    assert_eq!(flow.curr_cwnd_reduction, 1);
}

// Datapath-driven slow start: the flow starts on the slow-start program,
// and the first report installs the steady program, snapshots the window
// from the packets in flight, and leaves startup exactly once.
#[test]
fn startup_transition_once() {
    let alg = alg_config(
        GenericCongAvoidConfigReport::Rtt,
        GenericCongAvoidConfigSS::Datapath,
        DEFAULT_SS_THRESH,
        false,
    );
    let (mut flow, kind) = alg.new_flow(0, 1500, 0);
    assert_eq!(kind, ProgramKind::SsUpdateProg);
    assert!(flow.in_startup);
    let acts = flow.on_report(meas(0, false, 0, 0, 40_000, 20), 700_000);
    assert_eq!(acts.install, Some(ProgramKind::DatapathIntervalRttProg));
    assert!(!flow.in_startup);
    assert_eq!(flow.curr_cwnd(), 20 * 1500);
    assert_eq!(acts.cwnd_push, Some(20 * 1500));
    let acts2 = flow.on_report(meas(0, false, 0, 0, 40_000, 20), 800_000);
    assert_eq!(acts2.install, None);
}

// The initial window override: 0 defers to the datapath-supplied value.
#[test]
fn init_cwnd_resolution() {
    let mut alg = alg_config(
        GenericCongAvoidConfigReport::Ack,
        GenericCongAvoidConfigSS::Ccp,
        DEFAULT_SS_THRESH,
        false,
    );
    alg.init_cwnd = 0;
    let (flow, _) = alg.new_flow(29_200, 1460, 0);
    assert_eq!(flow.init_cwnd, 29_200);
    assert_eq!(flow.curr_cwnd(), 29_200);
}

// An interval report mode carries its period into the installed program; a
// non-positive period is refused by validation.
#[test]
fn interval_program_and_validation() {
    let alg = alg_config(
        GenericCongAvoidConfigReport::Interval(5000),
        GenericCongAvoidConfigSS::Ccp,
        DEFAULT_SS_THRESH,
        false,
    );
    assert!(alg.validate());
    let (_, kind) = alg.new_flow(0, 1500, 0);
    assert_eq!(kind, ProgramKind::DatapathIntervalProg { report_time_us: 5000 });
    let bad = alg_config(
        GenericCongAvoidConfigReport::Interval(0),
        GenericCongAvoidConfigSS::Ccp,
        DEFAULT_SS_THRESH,
        false,
    );
    assert!(!bad.validate());
}

// A configured ss_thresh below the initial window is raised to it at flow
// creation, so the threshold invariant holds from the start.
#[test]
fn ss_thresh_clamped_at_creation() {
    let alg = alg_config(
        GenericCongAvoidConfigReport::Ack,
        GenericCongAvoidConfigSS::Ccp,
        1000,
        false,
    );
    let (flow, _) = alg.new_flow(0, 1500, 0);
    assert_eq!(flow.ss_thresh, 15000);
}

// The compensated slow-start growth saturates at the largest representable
// window instead of wrapping.
#[test]
fn slow_start_compensation_saturates() {
    let alg = alg_config(
        GenericCongAvoidConfigReport::Ack,
        GenericCongAvoidConfigSS::Ccp,
        u32::MAX,
        true,
    );
    let (mut flow, _) = alg.new_flow(0, 1500, 0);
    let leftover = flow.slow_start_increase(4_000_000_000);
    assert_eq!(leftover, 0);
    assert_eq!(flow.curr_cwnd(), u32::MAX);
}

// The loss deficit saturates at the largest representable count instead of
// wrapping.
#[test]
fn deficit_saturates() {
    let alg = alg_config(
        GenericCongAvoidConfigReport::Ack,
        GenericCongAvoidConfigSS::Ccp,
        DEFAULT_SS_THRESH,
        false,
    );
    let (mut flow, _) = alg.new_flow(0, 1500, 0);
    flow.maybe_reduce_cwnd(&meas(0, false, u32::MAX, u32::MAX, 100_000, 10), 1_000_000);
    assert_eq!(flow.curr_cwnd_reduction, u32::MAX);
}

// The engine is generic over the algorithm: the same first-report scenario
// runs unchanged on the Reno-like variant.
#[test]
fn reno_flow_first_report() {
    let alg = Alg {
        deficit_timeout: 0,
        init_cwnd: 15000,
        report_option: GenericCongAvoidConfigReport::Ack,
        ss: GenericCongAvoidConfigSS::Ccp,
        ss_thresh: DEFAULT_SS_THRESH,
        use_compensation: false,
        alg: generic_cong_avoid::reno::Reno::default(),
    };
    let (mut flow, kind) = alg.new_flow(0, 1500, 0);
    assert_eq!(kind, ProgramKind::AckUpdateProg);
    let acts = flow.on_report(meas(1500, false, 0, 0, 50_000, 10), 600_000);
    assert_eq!(acts.cwnd_push, Some(16500));
    assert_eq!(flow.curr_cwnd(), 16500);
}
