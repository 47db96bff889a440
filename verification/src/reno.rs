//! Reno-like window growth and reduction.
//!
//! The window is held in milli-bytes, as in the cubic variant. Growth is
//! additive-increase per report — `mss * acked / cwnd` bytes — and reduction
//! halves the window, never below the floor fixed at creation.

use vstd::prelude::*;

use crate::cubic::CWND_MB_MAX;
use crate::{GenericCongAvoidAlg, GenericCongAvoidFlow, GenericCongAvoidMeasurements};

verus! {

/// Reno per-flow state. The window is in milli-bytes.
pub struct Reno {
    mss: u32,
    init_cwnd: u32,
    cwnd_mb: u64,
}

impl Reno {
    /// Internal well-formedness: a positive segment size and a representable
    /// window.
    pub closed spec fn wf_spec(self) -> bool {
        &&& 1 <= self.mss
        &&& self.cwnd_mb <= CWND_MB_MAX
    }

    /// The segment size this flow was created with, in bytes.
    pub closed spec fn spec_mss(self) -> u32 {
        self.mss
    }

    /// Overriding the window moves the window field alone.
    pub closed spec fn spec_set_cwnd(self, cwnd: u32) -> Reno {
        Reno { cwnd_mb: ((cwnd as int) * 1000) as u64, ..self }
    }

    /// One report's additive increase: `mss * acked / cwnd` bytes, clamped
    /// to the largest representable window.
    pub closed spec fn spec_increase(self, acked: u32) -> Reno {
        let inc = if self.cwnd_mb == 0 {
            0int
        } else {
            (1000000 * (self.mss as int) * (acked as int)) / (self.cwnd_mb as int)
        };
        let grown = if self.cwnd_mb + inc > CWND_MB_MAX as int {
            CWND_MB_MAX as int
        } else {
            self.cwnd_mb + inc
        };
        Reno { cwnd_mb: grown as u64, ..self }
    }

    /// A reduction: halve the window, never below the floor.
    pub closed spec fn spec_reduction(self) -> Reno {
        let floor_mb = (self.init_cwnd as int) * 1000;
        let halved = (self.cwnd_mb / 2) as int;
        let cw = if halved < floor_mb {
            floor_mb
        } else {
            halved
        };
        Reno { cwnd_mb: cw as u64, ..self }
    }
}

impl GenericCongAvoidFlow for Reno {
    closed spec fn cwnd(&self) -> u32 {
        (self.cwnd_mb / 1000) as u32
    }

    closed spec fn floor(&self) -> u32 {
        self.init_cwnd
    }

    closed spec fn wf(&self) -> bool {
        self.wf_spec()
    }

    fn curr_cwnd(&self) -> (r: u32) {
        (self.cwnd_mb / 1000) as u32
    }

    fn set_cwnd(&mut self, cwnd: u32)
        ensures
            *final(self) == old(self).spec_set_cwnd(cwnd),
    {
        self.cwnd_mb = (cwnd as u64) * 1000;
    }

    fn increase(&mut self, m: &GenericCongAvoidMeasurements, now_us: u64)
        ensures
            *final(self) == old(self).spec_increase(m.acked),
            m.acked == 0 ==> *final(self) == *old(self),
    {
        if self.cwnd_mb > 0 {
            proof {
                assert(1000000 * (self.mss as int) * (m.acked as int) <= 1000000 * (0xffff_ffff
                    * 0xffff_ffff)) by (nonlinear_arith)
                    requires
                        0 <= (self.mss as int) <= 0xffff_ffff,
                        0 <= (m.acked as int) <= 0xffff_ffff,
                ;
            }
            proof {
                if m.acked == 0 {
                    assert(1000000 * (self.mss as int) * (m.acked as int) == 0)
                        by (nonlinear_arith)
                        requires (m.acked as int) == 0;
                }
            }
            let inc128: u128 = (1000000 * (self.mss as u128) * (m.acked as u128)) / (
            self.cwnd_mb as u128);
            let grown: u128 = (self.cwnd_mb as u128) + inc128;
            self.cwnd_mb = if grown > CWND_MB_MAX as u128 {
                CWND_MB_MAX
            } else {
                grown as u64
            };
        }
    }

    fn reduction(&mut self, m: &GenericCongAvoidMeasurements)
        ensures
            *final(self) == old(self).spec_reduction(),
    {
        let floor_mb: u64 = (self.init_cwnd as u64) * 1000;
        let halved: u64 = self.cwnd_mb / 2;
        self.cwnd_mb = if halved < floor_mb {
            floor_mb
        } else {
            halved
        };
        proof {
            vstd::arithmetic::div_mod::lemma_div_is_ordered(
                (self.init_cwnd as int) * 1000,
                self.cwnd_mb as int,
                1000,
            );
            assert((self.init_cwnd as int) * 1000 / 1000 == self.init_cwnd as int);
        }
    }

    fn reset(&mut self) {
    }
}

impl GenericCongAvoidAlg for Reno {
    type Flow = Reno;

    fn name() -> (r: &'static str) {
        "reno"
    }

    fn new_flow(&self, init_cwnd: u32, mss: u32) -> (f: Reno)
        ensures
            f.spec_mss() == mss,
    {
        Reno { mss, init_cwnd, cwnd_mb: (init_cwnd as u64) * 1000 }
    }
}

/// A default Reno factory, as the binaries construct it.
impl Default for Reno {
    fn default() -> (c: Reno)
        ensures
            c.wf(),
            c.wf_spec(),
            c.cwnd() == 15000,
            c.floor() == 15000,
            c.spec_mss() == 1500,
    {
        Reno { mss: 1500, init_cwnd: 15000, cwnd_mb: 15000000 }
    }
}

} // verus!
