//! The per-flow congestion-avoidance engine.
//!
//! `Flow` is the state machine that a transport flow runs on every
//! measurement report: it drives slow start, delegates growth and reduction
//! to the pluggable algorithm, keeps the loss-deficit account, and recovers
//! from timeouts. The engine performs no I/O itself: each report returns the
//! actions the caller must carry out against the datapath (installing an
//! aggregation program, pushing a window value), and every time-dependent
//! decision takes a monotonic clock sample in microseconds as an argument.

use vstd::prelude::*;

use crate::{
    GenericCongAvoidAlg, GenericCongAvoidConfigReport, GenericCongAvoidConfigSS,
    GenericCongAvoidFlow, GenericCongAvoidMeasurements,
};

verus! {

/// Numerator of the fixed-point slow-start compensation factor `1/ln 2`,
/// scaled by `2^32`.
pub const INV_LN2_Q32: u64 = 6196328019;

/// The four report-aggregation strategies the datapath can run.
#[derive(Debug, Clone, Copy, PartialEq, Eq, Structural)]
pub enum ProgramKind {
    /// Accumulate and report on a fixed wall-clock interval, or at once on
    /// loss or timeout.
    DatapathIntervalProg { report_time_us: u32 },
    /// Accumulate and report once per measured round-trip time, or at once
    /// on loss or timeout.
    DatapathIntervalRttProg,
    /// Report on every ack.
    AckUpdateProg,
    /// Datapath-driven slow start: grow the datapath window directly and
    /// report only on loss or timeout.
    SsUpdateProg,
}

/// What the caller must do against the datapath after a report: first
/// install the program, if any, then push the window, if any.
#[derive(Debug, Clone, Copy, PartialEq, Eq, Structural)]
pub struct ReportActions {
    pub install: Option<ProgramKind>,
    pub cwnd_push: Option<u32>,
}

/// The steady-state aggregation program for a report-mode configuration.
pub open spec fn spec_steady_program(r: GenericCongAvoidConfigReport) -> ProgramKind {
    match r {
        GenericCongAvoidConfigReport::Ack => ProgramKind::AckUpdateProg,
        GenericCongAvoidConfigReport::Rtt => ProgramKind::DatapathIntervalRttProg,
        GenericCongAvoidConfigReport::Interval(us) => ProgramKind::DatapathIntervalProg {
            report_time_us: us,
        },
    }
}

/// The program installed at flow creation: datapath-driven slow start when
/// slow start is delegated, otherwise the steady-state program.
pub open spec fn spec_initial_program(
    ss: GenericCongAvoidConfigSS,
    r: GenericCongAvoidConfigReport,
) -> ProgramKind {
    match ss {
        GenericCongAvoidConfigSS::Datapath => ProgramKind::SsUpdateProg,
        GenericCongAvoidConfigSS::Ccp => spec_steady_program(r),
    }
}

/// Clamp an unbounded count into `u32`.
pub open spec fn spec_cap_u32(v: int) -> int {
    if v > 0xffff_ffff {
        0xffff_ffff as int
    } else {
        v
    }
}

/// The slow-start compensation of an acked-byte count: `acked / ln 2`,
/// evaluated in fixed point as `acked * (2^32 / ln 2) / 2^32`.
pub open spec fn spec_compensated(acked: int) -> int {
    (acked * INV_LN2_Q32) / 4294967296
}

/// The bytes of an ack that slow start leaves for congestion avoidance.
pub open spec fn spec_ss_leftover(cwnd0: int, thresh: int, acked: int) -> int {
    if cwnd0 >= thresh {
        acked
    } else if cwnd0 + acked > thresh {
        acked - (thresh - cwnd0)
    } else {
        0
    }
}

/// The window after the slow-start step.
pub open spec fn spec_ss_new_cwnd(cwnd0: int, thresh: int, acked: int, comp: bool) -> int {
    if cwnd0 >= thresh {
        cwnd0
    } else if cwnd0 + acked > thresh {
        thresh
    } else if comp {
        spec_cap_u32(cwnd0 + spec_compensated(acked))
    } else {
        cwnd0 + acked
    }
}

/// Whether the loss deficit is forgiven: a deficit timeout is configured and
/// more than `rtt * deficit_timeout` milliseconds have passed since the last
/// reduction. (`rtt` is a microsecond sample; the product is taken as a
/// millisecond count.)
pub open spec fn spec_forgiven(deficit_timeout: u32, last_us: u64, rtt: u32, now_us: u64) -> bool {
    &&& deficit_timeout > 0
    &&& (if now_us > last_us {
        now_us - last_us
    } else {
        0
    }) > (rtt as int) * (deficit_timeout as int) * 1000
}

/// The slow-start threshold after a timeout: halved, but never below the
/// initial window.
pub open spec fn spec_ss_thresh_after_timeout(ss_thresh: u32, init_cwnd: u32) -> int {
    if ss_thresh / 2 < init_cwnd {
        init_cwnd as int
    } else {
        (ss_thresh / 2) as int
    }
}

/// The generic-cong-avoid per-flow state. One value exists per transport
/// flow and is mutated only by that flow's events, one at a time.
pub struct Flow<A: GenericCongAvoidFlow> {
    /// The pluggable growth/reduction algorithm state.
    pub alg: A,
    /// Reduction-forgiveness bound, in units of the current RTT; 0 disables.
    pub deficit_timeout: u32,
    /// The window floor fixed at creation, in bytes.
    pub init_cwnd: u32,
    /// How the datapath aggregates reports for this flow.
    pub report_option: GenericCongAvoidConfigReport,
    /// Slow-start threshold, in bytes.
    pub ss_thresh: u32,
    /// Overshoot slow-start growth by `1/ln 2` to compensate for infrequent
    /// updates.
    pub use_compensation: bool,
    /// Outstanding unaccounted loss/reorder count, in packets.
    pub curr_cwnd_reduction: u32,
    /// Monotonic clock sample at the last reduction, in microseconds.
    pub last_cwnd_reduction_us: u64,
    /// True while slow start runs inside the datapath; cleared on the first
    /// report.
    pub in_startup: bool,
    /// Segment size, in bytes.
    pub mss: u32,
    /// Last reported round-trip time, in microseconds.
    pub rtt: u32,
    /// Identifier of the installed aggregation program; reports carrying any
    /// other identifier are stale and must be ignored.
    pub program_handle: u32,
}

impl<A: GenericCongAvoidFlow> Flow<A> {
    /// Flow well-formedness: the algorithm is sound, its floor is this
    /// flow's initial window, and the slow-start threshold never sits below
    /// that floor.
    pub open spec fn wf(self) -> bool {
        &&& self.mss >= 1
        &&& self.alg.wf()
        &&& self.alg.floor() == self.init_cwnd
        &&& self.ss_thresh >= self.init_cwnd
    }

    /// Record the identifier of the program the caller installed.
    pub fn set_program_handle(&mut self, uid: u32)
        ensures
            final(self).program_handle == uid,
            final(self).alg == old(self).alg,
            final(self).deficit_timeout == old(self).deficit_timeout,
            final(self).init_cwnd == old(self).init_cwnd,
            final(self).report_option == old(self).report_option,
            final(self).ss_thresh == old(self).ss_thresh,
            final(self).use_compensation == old(self).use_compensation,
            final(self).curr_cwnd_reduction == old(self).curr_cwnd_reduction,
            final(self).last_cwnd_reduction_us == old(self).last_cwnd_reduction_us,
            final(self).in_startup == old(self).in_startup,
            final(self).mss == old(self).mss,
            final(self).rtt == old(self).rtt,
    {
        self.program_handle = uid;
    }

    /// The algorithm's current window, in bytes.
    pub fn curr_cwnd(&self) -> (r: u32)
        requires
            self.wf(),
        ensures
            r == self.alg.cwnd(),
    {
        self.alg.curr_cwnd()
    }

    /// Slow start: while the window sits below `ss_thresh`, grow it by the
    /// acked bytes (compensated if configured), stopping exactly at
    /// `ss_thresh`; return the acked bytes slow start did not consume.
    pub fn slow_start_increase(&mut self, acked: u32) -> (leftover: u32)
        requires
            old(self).wf(),
        ensures
            final(self).wf(),
            leftover == spec_ss_leftover(
                old(self).alg.cwnd() as int,
                old(self).ss_thresh as int,
                acked as int,
            ),
            final(self).alg.cwnd() == spec_ss_new_cwnd(
                old(self).alg.cwnd() as int,
                old(self).ss_thresh as int,
                acked as int,
                old(self).use_compensation,
            ),
            old(self).alg.cwnd() >= old(self).ss_thresh ==> final(self).alg == old(self).alg,
            final(self).alg.floor() == old(self).alg.floor(),
            final(self).deficit_timeout == old(self).deficit_timeout,
            final(self).init_cwnd == old(self).init_cwnd,
            final(self).report_option == old(self).report_option,
            final(self).ss_thresh == old(self).ss_thresh,
            final(self).use_compensation == old(self).use_compensation,
            final(self).curr_cwnd_reduction == old(self).curr_cwnd_reduction,
            final(self).last_cwnd_reduction_us == old(self).last_cwnd_reduction_us,
            final(self).in_startup == old(self).in_startup,
            final(self).mss == old(self).mss,
            final(self).rtt == old(self).rtt,
            final(self).program_handle == old(self).program_handle,
    {
        let cwnd0: u32 = self.alg.curr_cwnd();
        if cwnd0 >= self.ss_thresh {
            return acked;
        }
        if (cwnd0 as u64) + (acked as u64) > (self.ss_thresh as u64) {
            let consumed: u32 = self.ss_thresh - cwnd0;
            self.alg.set_cwnd(self.ss_thresh);
            acked - consumed
        } else {
            if self.use_compensation {
                let comp128: u128 = (acked as u128) * (INV_LN2_Q32 as u128);
                let comp: u64 = (comp128 / 4294967296) as u64;
                let sum: u64 = (cwnd0 as u64) + comp;
                let grown: u32 = if sum > 0xffff_ffff {
                    0xffff_ffff
                } else {
                    sum as u32
                };
                self.alg.set_cwnd(grown);
            } else {
                self.alg.set_cwnd(cwnd0 + acked);
            }
            0
        }
    }

    /// Deficit accounting and the reduction decision. On a loss signal,
    /// forgive a stale deficit if the configured bound has passed, fire a
    /// reduction when the deficit is clear (or a partial ack probes
    /// `ss_thresh`), and charge the new losses to the deficit; on a clean
    /// report, pay the deficit down with the acked bytes. Returns the window
    /// to push when a reduction fired.
    pub fn maybe_reduce_cwnd(&mut self, m: &GenericCongAvoidMeasurements, now_us: u64) -> (push:
        Option<u32>)
        requires
            old(self).wf(),
        ensures
            final(self).wf(),
            final(self).alg.floor() == old(self).alg.floor(),
            final(self).deficit_timeout == old(self).deficit_timeout,
            final(self).init_cwnd == old(self).init_cwnd,
            final(self).report_option == old(self).report_option,
            final(self).use_compensation == old(self).use_compensation,
            final(self).in_startup == old(self).in_startup,
            final(self).mss == old(self).mss,
            final(self).rtt == old(self).rtt,
            final(self).program_handle == old(self).program_handle,
            (m.loss > 0 || m.sacked > 0) ==> ({
                let def0 = if spec_forgiven(
                    old(self).deficit_timeout,
                    old(self).last_cwnd_reduction_us,
                    old(self).rtt,
                    now_us,
                ) {
                    0int
                } else {
                    old(self).curr_cwnd_reduction as int
                };
                let fired = (m.loss > 0 && def0 == 0) || (m.acked > 0 && old(self).alg.cwnd()
                    == old(self).ss_thresh);
                &&& final(self).curr_cwnd_reduction == spec_cap_u32(
                    def0 + m.sacked as int + m.loss as int,
                )
                &&& (fired ==> {
                    &&& final(self).ss_thresh == final(self).alg.cwnd()
                    &&& final(self).alg.cwnd() >= final(self).alg.floor()
                    &&& final(self).last_cwnd_reduction_us == now_us
                    &&& push == Some(final(self).alg.cwnd())
                })
                &&& (!fired ==> {
                    &&& final(self).alg == old(self).alg
                    &&& final(self).ss_thresh == old(self).ss_thresh
                    &&& final(self).last_cwnd_reduction_us == old(self).last_cwnd_reduction_us
                    &&& push is None
                })
            }),
            (m.loss == 0 && m.sacked == 0) ==> {
                &&& final(self).alg == old(self).alg
                &&& final(self).ss_thresh == old(self).ss_thresh
                &&& final(self).last_cwnd_reduction_us == old(self).last_cwnd_reduction_us
                &&& push is None
                &&& final(self).curr_cwnd_reduction == (if m.acked < old(self).curr_cwnd_reduction {
                    old(self).curr_cwnd_reduction - (m.acked / old(self).mss) as int
                } else {
                    0int
                })
            },
    {
        if m.loss > 0 || m.sacked > 0 {
            if self.deficit_timeout > 0 {
                let elapsed: u64 = if now_us > self.last_cwnd_reduction_us {
                    now_us - self.last_cwnd_reduction_us
                } else {
                    0
                };
                proof {
                    assert((self.rtt as int) * (self.deficit_timeout as int) <= 0xffff_ffff
                        * 0xffff_ffff) by (nonlinear_arith)
                        requires
                            0 <= (self.rtt as int) <= 0xffff_ffff,
                            0 <= (self.deficit_timeout as int) <= 0xffff_ffff,
                    ;
                }
                let bound: u128 = (self.rtt as u128) * (self.deficit_timeout as u128) * 1000;
                if (elapsed as u128) > bound {
                    self.curr_cwnd_reduction = 0;
                }
            }
            let mut push: Option<u32> = None;
            if (m.loss > 0 && self.curr_cwnd_reduction == 0) || (m.acked > 0 && self.alg.curr_cwnd()
                == self.ss_thresh) {
                self.alg.reduction(m);
                self.last_cwnd_reduction_us = now_us;
                let reduced: u32 = self.alg.curr_cwnd();
                self.ss_thresh = reduced;
                push = Some(reduced);
            }
            let charged: u64 = (self.curr_cwnd_reduction as u64) + (m.sacked as u64) + (
            m.loss as u64);
            self.curr_cwnd_reduction = if charged > 0xffff_ffff {
                0xffff_ffff
            } else {
                charged as u32
            };
            push
        } else if m.acked < self.curr_cwnd_reduction {
            let paid: u32 = m.acked / self.mss;
            proof {
                assert(m.acked as int / (self.mss as int) <= m.acked as int) by (nonlinear_arith)
                    requires
                        self.mss >= 1,
                        m.acked >= 0,
                ;
            }
            self.curr_cwnd_reduction = self.curr_cwnd_reduction - paid;
            None
        } else {
            self.curr_cwnd_reduction = 0;
            None
        }
    }

    /// Timeout recovery: halve `ss_thresh` (never below the initial
    /// window), reset the algorithm to the initial window, and clear the
    /// deficit. Returns the window to push.
    pub fn handle_timeout(&mut self) -> (push: u32)
        requires
            old(self).wf(),
        ensures
            final(self).wf(),
            final(self).ss_thresh == spec_ss_thresh_after_timeout(
                old(self).ss_thresh,
                old(self).init_cwnd,
            ),
            final(self).ss_thresh <= old(self).ss_thresh,
            final(self).alg.cwnd() == old(self).init_cwnd,
            final(self).alg.floor() == old(self).alg.floor(),
            final(self).curr_cwnd_reduction == 0,
            push == old(self).init_cwnd,
            final(self).deficit_timeout == old(self).deficit_timeout,
            final(self).init_cwnd == old(self).init_cwnd,
            final(self).report_option == old(self).report_option,
            final(self).use_compensation == old(self).use_compensation,
            final(self).last_cwnd_reduction_us == old(self).last_cwnd_reduction_us,
            final(self).in_startup == old(self).in_startup,
            final(self).mss == old(self).mss,
            final(self).rtt == old(self).rtt,
            final(self).program_handle == old(self).program_handle,
    {
        let halved: u32 = self.ss_thresh / 2;
        self.ss_thresh = if halved < self.init_cwnd {
            self.init_cwnd
        } else {
            halved
        };
        self.alg.reset();
        self.alg.set_cwnd(self.init_cwnd);
        self.curr_cwnd_reduction = 0;
        self.alg.curr_cwnd()
    }

    /// One valid (program-matched) report, in order: leave startup and pick
    /// the steady-state program; record the RTT; on timeout, recover and
    /// stop; otherwise run slow start, hand the leftover to the algorithm's
    /// increase, settle the deficit account, and push the window unless a
    /// reduction is still being accounted for.
    pub fn on_report(&mut self, m: GenericCongAvoidMeasurements, now_us: u64) -> (acts:
        ReportActions)
        requires
            old(self).wf(),
        ensures
            final(self).wf(),
            final(self).deficit_timeout == old(self).deficit_timeout,
            final(self).init_cwnd == old(self).init_cwnd,
            final(self).report_option == old(self).report_option,
            final(self).use_compensation == old(self).use_compensation,
            final(self).mss == old(self).mss,
            final(self).program_handle == old(self).program_handle,
            final(self).alg.floor() == old(self).alg.floor(),
            final(self).in_startup == false,
            final(self).rtt == m.rtt,
            acts.install == (if old(self).in_startup {
                Some(spec_steady_program(old(self).report_option))
            } else {
                None::<ProgramKind>
            }),
            m.was_timeout ==> {
                &&& final(self).ss_thresh == spec_ss_thresh_after_timeout(
                    old(self).ss_thresh,
                    old(self).init_cwnd,
                )
                &&& final(self).ss_thresh <= old(self).ss_thresh
                &&& final(self).alg.cwnd() == old(self).init_cwnd
                &&& final(self).curr_cwnd_reduction == 0
                &&& acts.cwnd_push == Some(old(self).init_cwnd)
            },
            !m.was_timeout ==> ({
                let cwnd0 = if old(self).in_startup {
                    spec_cap_u32((m.inflight as int) * (old(self).mss as int))
                } else {
                    old(self).alg.cwnd() as int
                };
                let leftover = spec_ss_leftover(cwnd0, old(self).ss_thresh as int, m.acked as int);
                let def0 = if spec_forgiven(
                    old(self).deficit_timeout,
                    old(self).last_cwnd_reduction_us,
                    m.rtt,
                    now_us,
                ) {
                    0int
                } else {
                    old(self).curr_cwnd_reduction as int
                };
                &&& ((m.loss > 0 || m.sacked > 0) ==> {
                    &&& final(self).curr_cwnd_reduction == spec_cap_u32(
                        def0 + m.sacked as int + m.loss as int,
                    )
                    &&& (final(self).ss_thresh == old(self).ss_thresh || final(self).ss_thresh
                        == final(self).alg.cwnd())
                    &&& (acts.cwnd_push is None || acts.cwnd_push == Some(final(self).ss_thresh))
                    &&& ((m.loss > 0 && def0 == 0) ==> {
                        &&& final(self).ss_thresh == final(self).alg.cwnd()
                        &&& final(self).last_cwnd_reduction_us == now_us
                        &&& acts.cwnd_push == Some(final(self).ss_thresh)
                    })
                })
                &&& ((m.loss == 0 && m.sacked == 0) ==> {
                    &&& final(self).alg.cwnd() >= spec_ss_new_cwnd(
                        cwnd0,
                        old(self).ss_thresh as int,
                        m.acked as int,
                        old(self).use_compensation,
                    )
                    &&& (leftover == 0 ==> final(self).alg.cwnd() == spec_ss_new_cwnd(
                        cwnd0,
                        old(self).ss_thresh as int,
                        m.acked as int,
                        old(self).use_compensation,
                    ))
                    &&& final(self).ss_thresh == old(self).ss_thresh
                    &&& final(self).last_cwnd_reduction_us == old(self).last_cwnd_reduction_us
                    &&& final(self).curr_cwnd_reduction == (if leftover
                        < old(self).curr_cwnd_reduction {
                        old(self).curr_cwnd_reduction - leftover / (old(self).mss as int)
                    } else {
                        0int
                    })
                    &&& acts.cwnd_push == (if final(self).curr_cwnd_reduction == 0 {
                        Some(final(self).alg.cwnd())
                    } else {
                        None::<u32>
                    })
                })
            }),
    {
        let mut ms = m;
        let mut install: Option<ProgramKind> = None;
        if self.in_startup {
            install = Some(
                match self.report_option {
                    GenericCongAvoidConfigReport::Ack => ProgramKind::AckUpdateProg,
                    GenericCongAvoidConfigReport::Rtt => ProgramKind::DatapathIntervalRttProg,
                    GenericCongAvoidConfigReport::Interval(us) => ProgramKind::DatapathIntervalProg {
                        report_time_us: us,
                    },
                },
            );
            proof {
                assert((ms.inflight as int) * (self.mss as int) <= 0xffff_ffff * 0xffff_ffff)
                    by (nonlinear_arith)
                    requires
                        0 <= (ms.inflight as int) <= 0xffff_ffff,
                        0 <= (self.mss as int) <= 0xffff_ffff,
                ;
            }
            let snap128: u64 = (ms.inflight as u64) * (self.mss as u64);
            let snap: u32 = if snap128 > 0xffff_ffff {
                0xffff_ffff
            } else {
                snap128 as u32
            };
            self.alg.set_cwnd(snap);
            self.in_startup = false;
        }
        self.rtt = ms.rtt;
        if ms.was_timeout {
            let push = self.handle_timeout();
            return ReportActions { install, cwnd_push: Some(push) };
        }
        ms.acked = self.slow_start_increase(ms.acked);
        self.alg.increase(&ms, now_us);
        let reduce_push = self.maybe_reduce_cwnd(&ms, now_us);
        if self.curr_cwnd_reduction > 0 {
            return ReportActions { install, cwnd_push: reduce_push };
        }
        ReportActions { install, cwnd_push: Some(self.alg.curr_cwnd()) }
    }
}

/// The generic-cong-avoid algorithm configuration: what the process resolves
/// once at startup and every flow is created from.
pub struct Alg<A: GenericCongAvoidAlg> {
    /// Reduction-forgiveness bound, in units of the current RTT; 0 disables.
    pub deficit_timeout: u32,
    /// Initial-window override in bytes; 0 means use the datapath's default.
    pub init_cwnd: u32,
    /// How the datapath aggregates reports.
    pub report_option: GenericCongAvoidConfigReport,
    /// Which implementation of slow start to use.
    pub ss: GenericCongAvoidConfigSS,
    /// Initial slow-start threshold, in bytes.
    pub ss_thresh: u32,
    /// Overshoot slow-start growth by `1/ln 2`.
    pub use_compensation: bool,
    /// The algorithm the flows of this configuration run.
    pub alg: A,
}

impl<A: GenericCongAvoidAlg> Alg<A> {
    /// The configuration is valid: a fixed report interval must be positive.
    pub open spec fn wf(self) -> bool {
        match self.report_option {
            GenericCongAvoidConfigReport::Interval(us) => us > 0,
            _ => true,
        }
    }

    /// Check the configuration before any flow is created; a flow must not
    /// be started on a configuration this refuses.
    pub fn validate(&self) -> (ok: bool)
        ensures
            ok == self.wf(),
    {
        match self.report_option {
            GenericCongAvoidConfigReport::Interval(us) => us > 0,
            _ => true,
        }
    }

    /// A new flow from the datapath's connection parameters: resolve the
    /// initial window, clamp `ss_thresh` to it, and choose the aggregation
    /// program the caller must install. `now_us` is a monotonic clock
    /// sample; the last reduction is back-dated half a second so that a
    /// fresh flow does not forgive its first loss.
    pub fn new_flow(&self, info_init_cwnd: u32, mss: u32, now_us: u64) -> (r: (
        Flow<A::Flow>,
        ProgramKind,
    ))
        requires
            self.wf(),
            mss >= 1,
        ensures
            ({
                let init = if self.init_cwnd != 0 {
                    self.init_cwnd
                } else {
                    info_init_cwnd
                };
                &&& r.0.wf()
                &&& r.0.mss == mss
                &&& r.0.init_cwnd == init
                &&& r.0.alg.cwnd() == init
                &&& r.0.alg.floor() == init
                &&& r.0.ss_thresh == (if self.ss_thresh < init {
                    init
                } else {
                    self.ss_thresh
                })
                &&& r.0.in_startup == (self.ss is Datapath)
                &&& r.0.rtt == 0
                &&& r.0.curr_cwnd_reduction == 0
                &&& r.0.last_cwnd_reduction_us == (if now_us > 500000 {
                    now_us - 500000
                } else {
                    0int
                })
                &&& r.0.program_handle == 0
                &&& r.0.report_option == self.report_option
                &&& r.0.use_compensation == self.use_compensation
                &&& r.0.deficit_timeout == self.deficit_timeout
                &&& r.1 == spec_initial_program(self.ss, self.report_option)
            }),
    {
        let init_cwnd: u32 = if self.init_cwnd != 0 {
            self.init_cwnd
        } else {
            info_init_cwnd
        };
        let flow = Flow {
            alg: self.alg.new_flow(init_cwnd, mss),
            deficit_timeout: self.deficit_timeout,
            init_cwnd,
            report_option: self.report_option,
            ss_thresh: if self.ss_thresh < init_cwnd {
                init_cwnd
            } else {
                self.ss_thresh
            },
            use_compensation: self.use_compensation,
            curr_cwnd_reduction: 0,
            last_cwnd_reduction_us: if now_us > 500000 {
                now_us - 500000
            } else {
                0
            },
            in_startup: matches!(self.ss, GenericCongAvoidConfigSS::Datapath),
            mss,
            rtt: 0,
            program_handle: 0,
        };
        let kind = match self.ss {
            GenericCongAvoidConfigSS::Datapath => ProgramKind::SsUpdateProg,
            GenericCongAvoidConfigSS::Ccp => match self.report_option {
                GenericCongAvoidConfigReport::Ack => ProgramKind::AckUpdateProg,
                GenericCongAvoidConfigReport::Rtt => ProgramKind::DatapathIntervalRttProg,
                GenericCongAvoidConfigReport::Interval(us) => ProgramKind::DatapathIntervalProg {
                    report_time_us: us,
                },
            },
        };
        (flow, kind)
    }
}

} // verus!
