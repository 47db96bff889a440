//! Cubic window growth and reduction.
//!
//! All window quantities are held in milli-bytes (thousandths of a byte), so
//! the fractional window and the fractional accumulators of the cubic curve
//! are exact integers. The tunables `beta` and `c` are held in thousandths as
//! well: the defaults `beta_m = 300` and `c_m = 400` stand for 0.3 and 0.4.
//! Time enters as a monotonic clock sample in microseconds; the cubic curve is
//! evaluated in milliseconds.

use vstd::prelude::*;

use crate::{GenericCongAvoidAlg, GenericCongAvoidFlow, GenericCongAvoidMeasurements};

verus! {

/// Largest window in milli-bytes: `u32::MAX` bytes.
pub const CWND_MB_MAX: u64 = 0xffff_ffff * 1000;

/// Cap on the per-epoch ack counter feeding the Reno-equivalent estimate.
pub const ACK_CNT_CAP: u64 = 1048576;

/// Default minimum-RTT estimate when no sample has been observed yet, in
/// microseconds.
pub const D_MIN_DEFAULT_US: u64 = 100000;

/// Cap on the epoch time fed to the cubic curve, in milliseconds.
pub const T_MS_CAP: u64 = 1000000000;

/// Exclusive bound on every cube root this module takes.
pub const CBRT_ARG_BOUND: u128 = 0x1000000000000000000;

/// Cubic per-flow state. Windows are in milli-bytes, times in microseconds,
/// the time-to-origin `k_ms` in milliseconds.
pub struct Cubic {
    pkt_size: u32,
    init_cwnd: u32,
    cwnd_mb: u64,
    cwnd_cnt_m: u64,
    tcp_friendliness: bool,
    beta_m: u32,
    fast_convergence: bool,
    c_m: u32,
    wlast_max_mb: u64,
    epoch_start_us: Option<u64>,
    origin_point_mb: u64,
    d_min_us: Option<u64>,
    wtcp_mb: u64,
    k_ms: u64,
    ack_cnt: u64,
    cnt_m: u64,
}

/// `r` is the floor of the real cube root of `x`.
pub open spec fn is_cbrt_floor(r: int, x: int) -> bool {
    &&& 0 <= r
    &&& r * r * r <= x
    &&& x < (r + 1) * (r + 1) * (r + 1)
}

/// The floor of the real cube root of `x`, for `x >= 0`.
pub open spec fn cbrt_floor(x: int) -> int {
    choose|r: int| is_cbrt_floor(r, x)
}

proof fn lemma_cube_ordered(a: int, b: int)
    requires
        0 <= a <= b,
    ensures
        a * a * a <= b * b * b,
{
    assert(a * a * a <= b * b * b) by (nonlinear_arith)
        requires 0 <= a <= b;
}

/// Any witness of `is_cbrt_floor` is the cube root: the floor is unique.
pub proof fn lemma_cbrt_floor_unique(r: int, x: int)
    requires
        is_cbrt_floor(r, x),
    ensures
        cbrt_floor(x) == r,
{
    assert(exists|w: int| is_cbrt_floor(w, x)) by {
        assert(is_cbrt_floor(r, x));
    }
    let w = cbrt_floor(x);
    assert(is_cbrt_floor(w, x));
    if w < r {
        lemma_cube_ordered(w + 1, r);
        assert(false);
    }
    if r < w {
        lemma_cube_ordered(r + 1, w);
        assert(false);
    }
}

/// Integer cube root by bisection, for arguments below `2^72`.
fn icbrt72(x: u128) -> (r: u64)
    requires
        x < CBRT_ARG_BOUND,
    ensures
        is_cbrt_floor(r as int, x as int),
        r < 0x1000000,
{
    let mut lo: u64 = 0;
    let mut hi: u64 = 0x1000000;
    proof {
        assert((0x1000000 as int) * (0x1000000 as int) * (0x1000000 as int) == CBRT_ARG_BOUND as int);
    }
    while lo + 1 < hi
        invariant
            lo < hi <= 0x1000000,
            (lo as int) * (lo as int) * (lo as int) <= x as int,
            (x as int) < (hi as int) * (hi as int) * (hi as int),
        decreases hi - lo,
    {
        let mid: u64 = lo + (hi - lo) / 2;
        proof {
            assert((mid as int) * (mid as int) <= 0x1000000 * 0x1000000) by (nonlinear_arith)
                requires mid <= 0x1000000;
            assert((mid as int) * (mid as int) * (mid as int) < CBRT_ARG_BOUND as int)
                by (nonlinear_arith)
                requires mid <= 0x1000000 - 1 && (0x1000000 as int) * (0x1000000 as int) * (0x1000000 as int) == CBRT_ARG_BOUND as int;
        }
        let cube: u128 = (mid as u128) * (mid as u128) * (mid as u128);
        if cube <= x {
            lo = mid;
        } else {
            hi = mid;
        }
    }
    lo
}

impl Cubic {
    /// Internal well-formedness: tunables in range, every stored window at
    /// most `CWND_MB_MAX`, counters within their caps.
    pub closed spec fn wf_spec(self) -> bool {
        &&& 1 <= self.pkt_size
        &&& 1 <= self.beta_m < 1000
        &&& 1 <= self.c_m <= 1000000
        &&& self.cwnd_mb <= CWND_MB_MAX
        &&& self.wlast_max_mb <= CWND_MB_MAX
        &&& self.origin_point_mb <= CWND_MB_MAX
        &&& self.wtcp_mb <= CWND_MB_MAX
        &&& self.ack_cnt <= ACK_CNT_CAP
        &&& self.k_ms < 0x1000000
    }

    /// The fields the start of a growth epoch sets: the epoch timestamp, the
    /// time-to-origin `k`, the origin point, and the Reno-equivalent counters.
    ///
    /// `k` solves `c * k^3 = wlast_max - cwnd` with the windows in packets
    /// and `k` in seconds; in milli-byte windows and milliseconds that is
    /// `k_ms^3 = (wlast_max_mb - cwnd_mb) * 10^9 / (c_m * pkt_size)`.
    pub closed spec fn spec_epoch_fields(self, now_us: u64) -> Cubic {
        match self.epoch_start_us {
            None => {
                if self.cwnd_mb < self.wlast_max_mb {
                    let arg = ((self.wlast_max_mb - self.cwnd_mb) * 1000000000) / (
                    (self.c_m as int) * (self.pkt_size as int));
                    Cubic {
                        epoch_start_us: Some(now_us),
                        k_ms: cbrt_floor(arg) as u64,
                        origin_point_mb: self.wlast_max_mb,
                        ack_cnt: 1,
                        wtcp_mb: self.cwnd_mb,
                        ..self
                    }
                } else {
                    Cubic {
                        epoch_start_us: Some(now_us),
                        k_ms: 0,
                        origin_point_mb: self.cwnd_mb,
                        ack_cnt: 1,
                        wtcp_mb: self.cwnd_mb,
                        ..self
                    }
                }
            },
            Some(_) => {
                if self.ack_cnt < ACK_CNT_CAP {
                    Cubic { ack_cnt: (self.ack_cnt + 1) as u64, ..self }
                } else {
                    self
                }
            },
        }
    }

    /// One evaluation of the cubic curve: elapsed epoch time, distance of the
    /// cubic target from the window, and the resulting per-packet increase
    /// counter `cnt_m`, blended with the Reno-equivalent estimate when TCP
    /// friendliness is on.
    pub closed spec fn spec_cubic_update(self, now_us: u64) -> Cubic {
        let s = self.spec_epoch_fields(now_us);
        let dmin = match s.d_min_us {
            Some(d) => d as int,
            None => D_MIN_DEFAULT_US as int,
        };
        let es = match s.epoch_start_us {
            Some(e) => e as int,
            None => 0,
        };
        let t1 = if now_us as int > dmin { now_us - dmin } else { 0 };
        let t2 = if t1 > es { t1 - es } else { 0 };
        let tq = t2 / 1000;
        let t_ms = if tq > T_MS_CAP as int { T_MS_CAP as int } else { tq };
        let dt = t_ms - s.k_ms;
        let mag = if dt >= 0 { dt } else { 0 - dt };
        let delta = (((s.c_m as int) * (mag * mag * mag)) / 1000000000) * (s.pkt_size as int);
        let target = if dt >= 0 {
            s.origin_point_mb + delta
        } else if s.origin_point_mb as int > delta {
            s.origin_point_mb - delta
        } else {
            0
        };
        let cnt1 = if target > s.cwnd_mb as int {
            (1000 * s.cwnd_mb) / (target - s.cwnd_mb)
        } else {
            (100 * s.cwnd_mb) / (s.pkt_size as int)
        };
        if s.tcp_friendliness {
            let inc = if s.cwnd_mb == 0 {
                0
            } else {
                ((3 * s.beta_m) * s.ack_cnt * ((1000 * s.pkt_size) * (1000 * s.pkt_size)))
                    / ((2000 - s.beta_m) * s.cwnd_mb)
            };
            let w1 = if s.wtcp_mb + inc > CWND_MB_MAX as int {
                CWND_MB_MAX as int
            } else {
                s.wtcp_mb + inc
            };
            let cnt2 = if w1 > s.cwnd_mb as int {
                let mc = (1000 * s.cwnd_mb) / (w1 - s.cwnd_mb);
                if cnt1 > mc { mc } else { cnt1 }
            } else {
                cnt1
            };
            Cubic { wtcp_mb: w1 as u64, ack_cnt: 0, cnt_m: cnt2 as u64, ..s }
        } else {
            Cubic { cnt_m: cnt1 as u64, ..s }
        }
    }

    /// One acked-packet unit: fold in the RTT sample, evaluate the cubic
    /// curve, then either grow the window by one packet or accumulate.
    pub closed spec fn spec_ack_unit(self, rtt_us: u32, now_us: u64) -> Cubic {
        let s0 = match self.d_min_us {
            None => Cubic { d_min_us: Some(rtt_us as u64), ..self },
            Some(d) => {
                if (rtt_us as u64) < d {
                    Cubic { d_min_us: Some(rtt_us as u64), ..self }
                } else {
                    self
                }
            },
        };
        let s1 = s0.spec_cubic_update(now_us);
        if s1.cwnd_cnt_m > s1.cnt_m {
            let grown = s1.cwnd_mb + 1000 * s1.pkt_size;
            let cw = if grown > CWND_MB_MAX as int { CWND_MB_MAX as int } else { grown };
            Cubic { cwnd_mb: cw as u64, cwnd_cnt_m: 0, ..s1 }
        } else {
            let acc = if s1.cwnd_cnt_m + 1000 > u64::MAX as int {
                s1.cwnd_cnt_m as int
            } else {
                s1.cwnd_cnt_m + 1000
            };
            Cubic { cwnd_cnt_m: acc as u64, ..s1 }
        }
    }

    /// `n` acked-packet units in sequence.
    pub closed spec fn spec_increase_n(self, rtt_us: u32, now_us: u64, n: nat) -> Cubic
        decreases n,
    {
        if n == 0 {
            self
        } else {
            self.spec_increase_n(rtt_us, now_us, (n - 1) as nat).spec_ack_unit(rtt_us, now_us)
        }
    }

    /// A reduction: close the epoch, remember the window at reduction
    /// (shrunk once more under fast convergence), multiply the window by
    /// `1 - beta`, and clamp it to the floor.
    pub closed spec fn spec_reduction(self) -> Cubic {
        let wl = if self.cwnd_mb < self.wlast_max_mb && self.fast_convergence {
            (self.cwnd_mb * (2000 - self.beta_m)) / 2000
        } else {
            self.cwnd_mb as int
        };
        let shrunk = (self.cwnd_mb * (1000 - self.beta_m)) / 1000;
        let floor_mb = (self.init_cwnd as int) * 1000;
        let cw = if shrunk < floor_mb { floor_mb } else { shrunk };
        Cubic { epoch_start_us: None, wlast_max_mb: wl as u64, cwnd_mb: cw as u64, ..self }
    }

    /// A timeout reset: clear every epoch accumulator, keep the tunables,
    /// the window, and the per-packet counters.
    pub closed spec fn spec_reset(self) -> Cubic {
        Cubic {
            wlast_max_mb: 0,
            epoch_start_us: None,
            origin_point_mb: 0,
            d_min_us: None,
            wtcp_mb: 0,
            k_ms: 0,
            ack_cnt: 0,
            ..self
        }
    }

    /// The segment size this flow was created with, in bytes.
    pub closed spec fn spec_pkt_size(self) -> u32 {
        self.pkt_size
    }

    /// The window at the last reduction, in milli-bytes.
    pub closed spec fn spec_wlast_max_mb(self) -> u64 {
        self.wlast_max_mb
    }

    /// The multiplicative-decrease factor `beta`, in thousandths.
    pub closed spec fn spec_beta_m(self) -> u32 {
        self.beta_m
    }

    /// The cubic scaling constant `c`, in thousandths.
    pub closed spec fn spec_c_m(self) -> u32 {
        self.c_m
    }

    /// Whether the Reno-equivalent blending is on.
    pub closed spec fn spec_tcp_friendliness(self) -> bool {
        self.tcp_friendliness
    }

    /// Whether a reduction below the last maximum shrinks the remembered
    /// maximum further.
    pub closed spec fn spec_fast_convergence(self) -> bool {
        self.fast_convergence
    }

    /// The start of the active growth epoch, a clock sample in microseconds.
    pub closed spec fn spec_epoch_start_us(self) -> Option<u64> {
        self.epoch_start_us
    }

    /// The least observed round-trip time, in microseconds.
    pub closed spec fn spec_d_min_us(self) -> Option<u64> {
        self.d_min_us
    }

    /// Overriding the window moves the window field alone.
    pub closed spec fn spec_set_cwnd(self, cwnd: u32) -> Cubic {
        Cubic { cwnd_mb: ((cwnd as int) * 1000) as u64, ..self }
    }

    /// The window at the last reduction, in milli-bytes.
    pub fn wlast_max_millibytes(&self) -> (r: u64)
        ensures
            r == self.spec_wlast_max_mb(),
    {
        self.wlast_max_mb
    }

    fn epoch_fields(&mut self, now_us: u64)
        requires
            old(self).wf_spec(),
        ensures
            *final(self) == old(self).spec_epoch_fields(now_us),
            final(self).wf_spec(),
            final(self).epoch_start_us is Some,
    {
        match self.epoch_start_us {
            None => {
                if self.cwnd_mb < self.wlast_max_mb {
                    let diff: u64 = self.wlast_max_mb - self.cwnd_mb;
                    proof {
                        assert((self.c_m as u128) * (self.pkt_size as u128) <= 1000000
                            * 0x100000000u128) by (nonlinear_arith)
                            requires
                                1 <= (self.c_m as u128) <= 1000000,
                                1 <= (self.pkt_size as u128) <= 0x100000000u128,
                        ;
                        assert((self.c_m as u128) * (self.pkt_size as u128) >= 1)
                            by (nonlinear_arith)
                            requires
                                1 <= (self.c_m as u128),
                                1 <= (self.pkt_size as u128),
                        ;
                    }
                    let den: u128 = (self.c_m as u128) * (self.pkt_size as u128);
                    let arg: u128 = ((diff as u128) * 1000000000) / den;
                    proof {
                        assert(arg < CBRT_ARG_BOUND) by {
                            assert(((diff as int) * 1000000000) / (den as int) <= (diff as int)
                                * 1000000000) by (nonlinear_arith)
                                requires
                                    (den as int) >= 1,
                                    (diff as int) >= 0,
                            ;
                            assert((diff as int) * 1000000000 <= (CWND_MB_MAX as int) * 1000000000);
                            assert((CWND_MB_MAX as int) * 1000000000 < CBRT_ARG_BOUND as int);
                        }
                    }
                    let k: u64 = icbrt72(arg);
                    proof {
                        lemma_cbrt_floor_unique(k as int, arg as int);
                    }
                    self.k_ms = k;
                    self.origin_point_mb = self.wlast_max_mb;
                } else {
                    self.k_ms = 0;
                    self.origin_point_mb = self.cwnd_mb;
                }
                self.epoch_start_us = Some(now_us);
                self.ack_cnt = 1;
                self.wtcp_mb = self.cwnd_mb;
            },
            Some(_) => {
                if self.ack_cnt < ACK_CNT_CAP {
                    self.ack_cnt = self.ack_cnt + 1;
                }
            },
        }
    }

    fn cubic_update(&mut self, now_us: u64)
        requires
            old(self).wf_spec(),
        ensures
            *final(self) == old(self).spec_cubic_update(now_us),
            final(self).wf_spec(),
    {
        self.epoch_fields(now_us);
        let dmin: u64 = match self.d_min_us {
            Some(d) => d,
            None => D_MIN_DEFAULT_US,
        };
        let es: u64 = match self.epoch_start_us {
            Some(e) => e,
            None => 0,
        };
        let t1: u64 = if now_us > dmin { now_us - dmin } else { 0 };
        let t2: u64 = if t1 > es { t1 - es } else { 0 };
        let tq: u64 = t2 / 1000;
        let t_ms: u64 = if tq > T_MS_CAP { T_MS_CAP } else { tq };
        let neg: bool = t_ms < self.k_ms;
        let mag: u64 = if neg { self.k_ms - t_ms } else { t_ms - self.k_ms };
        proof {
            assert(mag <= T_MS_CAP);
            assert((mag as int) * (mag as int) <= (T_MS_CAP as int) * (T_MS_CAP as int))
                by (nonlinear_arith)
                requires 0 <= (mag as int) <= (T_MS_CAP as int);
            assert((mag as int) * (mag as int) * (mag as int)
                <= (T_MS_CAP as int) * (T_MS_CAP as int) * (T_MS_CAP as int))
                by (nonlinear_arith)
                requires 0 <= mag as int <= T_MS_CAP as int;
            assert((self.c_m as int) * ((mag as int) * (mag as int) * (mag as int))
                <= 1000000 * ((T_MS_CAP as int) * (T_MS_CAP as int) * (T_MS_CAP as int)))
                by (nonlinear_arith)
                requires
                    0 <= (mag as int) * (mag as int) * (mag as int)
                        <= (T_MS_CAP as int) * (T_MS_CAP as int) * (T_MS_CAP as int)
                        && 0 <= self.c_m as int <= 1000000;
            assert(1000000 * ((T_MS_CAP as int) * (T_MS_CAP as int) * (T_MS_CAP as int)) < u128::MAX);
        }
        let cube: u128 = (mag as u128) * (mag as u128) * (mag as u128);
        let dq: u128 = ((self.c_m as u128) * cube) / 1000000000;
        proof {
            assert(dq * (self.pkt_size as u128) <= dq * 0x100000000) by (nonlinear_arith)
                requires 0 <= dq && self.pkt_size as u128 <= 0x100000000;
            assert(((self.c_m as u128) * cube) / 1000000000 * 0x100000000 < u128::MAX) by {
                assert((self.c_m as u128) * cube <= 1000000 * ((T_MS_CAP as u128) * (T_MS_CAP as u128) * (T_MS_CAP as u128)));
                assert(1000000 * ((T_MS_CAP as u128) * (T_MS_CAP as u128) * (T_MS_CAP as u128)) / 1000000000 * 0x100000000 < u128::MAX);
                assert((self.c_m as u128) * cube / 1000000000
                    <= 1000000 * ((T_MS_CAP as u128) * (T_MS_CAP as u128) * (T_MS_CAP as u128)) / 1000000000);
            }
        }
        let delta: u128 = dq * (self.pkt_size as u128);
        let cwnd128: u128 = self.cwnd_mb as u128;
        let target: u128 = if !neg {
            (self.origin_point_mb as u128) + delta
        } else if (self.origin_point_mb as u128) > delta {
            (self.origin_point_mb as u128) - delta
        } else {
            0
        };
        if target > cwnd128 {
            let c: u128 = (1000 * cwnd128) / (target - cwnd128);
            proof {
                assert(c <= 1000 * cwnd128);
            }
            self.cnt_m = c as u64;
        } else {
            self.cnt_m = (100 * self.cwnd_mb) / (self.pkt_size as u64);
        }
        if self.tcp_friendliness {
            if self.cwnd_mb > 0 {
                let p128: u128 = 1000 * (self.pkt_size as u128);
                proof {
                    assert(p128 * p128 <= (1000 * 0x100000000u128) * (1000 * 0x100000000u128))
                        by (nonlinear_arith)
                        requires 0 <= p128 <= 1000 * 0x100000000u128;
                    assert(((3 * self.beta_m as u128) * (self.ack_cnt as u128))
                        <= 3000 * (ACK_CNT_CAP as u128))
                        by (nonlinear_arith)
                        requires
                            0 <= (self.beta_m as u128) < 1000 && 0 <= self.ack_cnt as u128 <= ACK_CNT_CAP as u128;
                    assert(((3 * self.beta_m as u128) * (self.ack_cnt as u128)) * (p128 * p128)
                        <= (3000 * (ACK_CNT_CAP as u128)) * ((1000 * 0x100000000u128) * (1000 * 0x100000000u128)))
                        by (nonlinear_arith)
                        requires
                            0 <= ((3 * self.beta_m as u128) * (self.ack_cnt as u128)) <= 3000 * (ACK_CNT_CAP as u128)
                                && 0 <= p128 * p128 <= (1000 * 0x100000000u128) * (1000 * 0x100000000u128);
                    assert((3000 * (ACK_CNT_CAP as u128)) * ((1000 * 0x100000000u128) * (1000 * 0x100000000u128)) < u128::MAX);
                    assert(((2000 - self.beta_m as u128) * (self.cwnd_mb as u128)) <= 2000 * (CWND_MB_MAX as u128))
                        by (nonlinear_arith)
                        requires
                            0 <= 2000 - self.beta_m as u128 <= 2000 && 0 <= self.cwnd_mb as u128 <= CWND_MB_MAX as u128;
                    assert((2000 - self.beta_m as u128) * (self.cwnd_mb as u128) >= 1) by (nonlinear_arith)
                        requires (self.beta_m as u128) < 1000 && self.cwnd_mb as u128 >= 1;
                }
                let num: u128 = ((3 * self.beta_m as u128) * (self.ack_cnt as u128)) * (p128 * p128);
                let den: u128 = (2000 - self.beta_m as u128) * (self.cwnd_mb as u128);
                let inc: u128 = num / den;
                let w: u128 = (self.wtcp_mb as u128) + inc;
                self.wtcp_mb = if w > CWND_MB_MAX as u128 { CWND_MB_MAX } else { w as u64 };
            }
            self.ack_cnt = 0;
            if self.wtcp_mb > self.cwnd_mb {
                let mc: u128 = (1000 * (self.cwnd_mb as u128)) / ((self.wtcp_mb - self.cwnd_mb) as u128);
                proof {
                    assert(mc <= 1000 * (self.cwnd_mb as u128));
                }
                let mc64: u64 = mc as u64;
                if self.cnt_m > mc64 {
                    self.cnt_m = mc64;
                }
            }
        }
    }
}

impl GenericCongAvoidFlow for Cubic {
    closed spec fn cwnd(&self) -> u32 {
        (self.cwnd_mb / 1000) as u32
    }

    closed spec fn floor(&self) -> u32 {
        self.init_cwnd
    }

    closed spec fn wf(&self) -> bool {
        self.wf_spec()
    }

    fn curr_cwnd(&self) -> (r: u32) {
        (self.cwnd_mb / 1000) as u32
    }

    fn set_cwnd(&mut self, cwnd: u32)
        ensures
            *final(self) == old(self).spec_set_cwnd(cwnd),
    {
        self.cwnd_mb = (cwnd as u64) * 1000;
    }

    fn increase(&mut self, m: &GenericCongAvoidMeasurements, now_us: u64)
        ensures
            *final(self) == old(self).spec_increase_n(
                m.rtt,
                now_us,
                (m.acked / old(self).spec_pkt_size()) as nat,
            ),
            m.acked < old(self).spec_pkt_size() ==> *final(self) == *old(self),
    {
        let ghost s0 = *self;
        let no_of_acks: u32 = m.acked / self.pkt_size;
        proof {
            if m.acked < s0.pkt_size {
                vstd::arithmetic::div_mod::lemma_basic_div(m.acked as int, s0.pkt_size as int);
            }
        }
        let mut i: u32 = 0;
        while i < no_of_acks
            invariant
                i <= no_of_acks,
                self.wf_spec(),
                self.cwnd_mb >= s0.cwnd_mb,
                self.pkt_size == s0.pkt_size,
                self.init_cwnd == s0.init_cwnd,
                *self == s0.spec_increase_n(m.rtt, now_us, i as nat),
            decreases no_of_acks - i,
        {
            let ghost before = *self;
            match self.d_min_us {
                None => {
                    self.d_min_us = Some(m.rtt as u64);
                },
                Some(d) => {
                    if (m.rtt as u64) < d {
                        self.d_min_us = Some(m.rtt as u64);
                    }
                },
            }
            self.cubic_update(now_us);
            if self.cwnd_cnt_m > self.cnt_m {
                let grown: u64 = if self.cwnd_mb > CWND_MB_MAX - 1000 * (self.pkt_size as u64) {
                    CWND_MB_MAX
                } else {
                    self.cwnd_mb + 1000 * (self.pkt_size as u64)
                };
                self.cwnd_mb = grown;
                self.cwnd_cnt_m = 0;
            } else {
                if self.cwnd_cnt_m <= u64::MAX - 1000 {
                    self.cwnd_cnt_m = self.cwnd_cnt_m + 1000;
                }
            }
            i = i + 1;
            proof {
                assert(*self == before.spec_ack_unit(m.rtt, now_us));
                assert(s0.spec_increase_n(m.rtt, now_us, i as nat)
                    == s0.spec_increase_n(m.rtt, now_us, (i - 1) as nat).spec_ack_unit(m.rtt, now_us));
            }
        }
    }

    fn reduction(&mut self, m: &GenericCongAvoidMeasurements)
        ensures
            *final(self) == old(self).spec_reduction(),
    {
        self.epoch_start_us = None;
        if self.cwnd_mb < self.wlast_max_mb && self.fast_convergence {
            proof {
                assert((self.cwnd_mb as int) * (2000 - self.beta_m as int) <= (CWND_MB_MAX as int) * 2000)
                    by (nonlinear_arith)
                    requires
                        0 <= self.cwnd_mb as int <= CWND_MB_MAX as int
                            && 0 <= 2000 - self.beta_m as int <= 2000;
                assert((CWND_MB_MAX as int) * 2000 < u128::MAX);
            }
            let scaled: u128 = (self.cwnd_mb as u128) * ((2000 - self.beta_m) as u128);
            let wl: u128 = scaled / 2000;
            proof {
                assert(wl <= CWND_MB_MAX as u128) by (nonlinear_arith)
                    requires
                        wl == ((self.cwnd_mb as u128) * ((2000 - self.beta_m) as u128)) / 2000
                            && self.cwnd_mb as u128 <= CWND_MB_MAX as u128
                            && (2000 - self.beta_m) as u128 <= 2000;
            }
            self.wlast_max_mb = wl as u64;
        } else {
            self.wlast_max_mb = self.cwnd_mb;
        }
        proof {
            assert((self.cwnd_mb as int) * (1000 - self.beta_m as int) <= (CWND_MB_MAX as int) * 1000)
                by (nonlinear_arith)
                requires
                    0 <= self.cwnd_mb as int <= CWND_MB_MAX as int
                        && 0 <= 1000 - self.beta_m as int <= 1000;
            assert((CWND_MB_MAX as int) * 1000 < u128::MAX);
        }
        let scaled2: u128 = (self.cwnd_mb as u128) * ((1000 - self.beta_m) as u128);
        let shrunk: u128 = scaled2 / 1000;
        proof {
            assert(shrunk <= CWND_MB_MAX as u128) by (nonlinear_arith)
                requires
                    shrunk == ((self.cwnd_mb as u128) * ((1000 - self.beta_m) as u128)) / 1000
                        && self.cwnd_mb as u128 <= CWND_MB_MAX as u128
                        && (1000 - self.beta_m) as u128 <= 1000;
        }
        let floor_mb: u64 = (self.init_cwnd as u64) * 1000;
        let shrunk64: u64 = shrunk as u64;
        self.cwnd_mb = if shrunk64 < floor_mb { floor_mb } else { shrunk64 };
        proof {
            vstd::arithmetic::div_mod::lemma_div_is_ordered(
                (self.init_cwnd as int) * 1000,
                self.cwnd_mb as int,
                1000,
            );
            assert((self.init_cwnd as int) * 1000 / 1000 == self.init_cwnd as int);
        }
    }

    fn reset(&mut self)
        ensures
            *final(self) == old(self).spec_reset(),
    {
        self.wlast_max_mb = 0;
        self.epoch_start_us = None;
        self.origin_point_mb = 0;
        self.d_min_us = None;
        self.wtcp_mb = 0;
        self.k_ms = 0;
        self.ack_cnt = 0;
    }
}

impl GenericCongAvoidAlg for Cubic {
    type Flow = Cubic;

    fn name() -> (r: &'static str) {
        "cubic"
    }

    fn new_flow(&self, init_cwnd: u32, mss: u32) -> (f: Cubic)
        ensures
            f.spec_pkt_size() == mss,
            f.spec_beta_m() == 300,
            f.spec_c_m() == 400,
            f.spec_tcp_friendliness(),
            f.spec_fast_convergence(),
            f.spec_epoch_start_us() is None,
            f.spec_d_min_us() is None,
            f.spec_wlast_max_mb() == 0,
    {
        Cubic {
            pkt_size: mss,
            init_cwnd,
            cwnd_mb: (init_cwnd as u64) * 1000,
            cwnd_cnt_m: 0,
            tcp_friendliness: true,
            beta_m: 300,
            fast_convergence: true,
            c_m: 400,
            wlast_max_mb: 0,
            epoch_start_us: None,
            origin_point_mb: 0,
            d_min_us: None,
            wtcp_mb: 0,
            k_ms: 0,
            ack_cnt: 0,
            cnt_m: 0,
        }
    }
}

/// A default Cubic factory, as the binaries construct it.
impl Default for Cubic {
    fn default() -> (c: Cubic)
        ensures
            c.wf(),
            c.wf_spec(),
            c.cwnd() == 15000,
            c.floor() == 15000,
            c.spec_pkt_size() == 1500,
            c.spec_beta_m() == 300,
            c.spec_c_m() == 400,
            c.spec_tcp_friendliness(),
            c.spec_fast_convergence(),
            c.spec_epoch_start_us() is None,
            c.spec_d_min_us() is None,
            c.spec_wlast_max_mb() == 0,
    {
        Cubic {
            pkt_size: 1500,
            init_cwnd: 15000,
            cwnd_mb: 15000000,
            cwnd_cnt_m: 0,
            tcp_friendliness: true,
            beta_m: 300,
            fast_convergence: true,
            c_m: 400,
            wlast_max_mb: 0,
            epoch_start_us: None,
            origin_point_mb: 0,
            d_min_us: None,
            wtcp_mb: 0,
            k_ms: 0,
            ack_cnt: 0,
            cnt_m: 0,
        }
    }
}

} // verus!
