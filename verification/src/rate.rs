//! The rate-based variant.
//!
//! This controller installs a time-slotted measurement program and steers
//! the flow by its sending rate rather than its window. Per report it only
//! decides: a report from another program is ignored, and a pending
//! rate-control test is turned into one rate update. The transport work —
//! logging the report and sending the update — stays with the caller.

use vstd::prelude::*;

use crate::flow::spec_cap_u32;

verus! {

/// Default report time-slot length, in milliseconds.
pub const TIME_SLOT_INTERVAL_MSEC: u32 = 50;

/// Bytes-per-microsecond units per megabit-per-second: a rate in Mbps times
/// this ratio is the value the datapath's rate register takes.
pub const RATE_TRANS_RATIO: u32 = 125000;

/// Per-flow state of the rate-based controller.
pub struct MLCC {
    /// Converts a rate in Mbps into datapath rate-register units.
    pub rate_trans_ratio: u32,
    /// Report time-slot length, in milliseconds.
    pub time_slot_interval: u32,
    /// When set, the next report triggers one rate update, to test rate
    /// stability.
    pub test_rate_flag: bool,
    /// Identifier of the installed measurement program.
    pub program_handle: u32,
}

impl MLCC {
    /// A fresh flow: the default unit ratio, no pending rate test, no
    /// program installed yet.
    pub fn new(time_slot_interval: u32) -> (m: MLCC)
        ensures
            m.rate_trans_ratio == RATE_TRANS_RATIO,
            m.time_slot_interval == time_slot_interval,
            m.test_rate_flag == false,
            m.program_handle == 0,
    {
        MLCC {
            rate_trans_ratio: RATE_TRANS_RATIO,
            time_slot_interval,
            test_rate_flag: false,
            program_handle: 0,
        }
    }

    /// Record the identifier of the program the caller installed.
    pub fn set_program_handle(&mut self, uid: u32)
        ensures
            final(self).program_handle == uid,
            final(self).rate_trans_ratio == old(self).rate_trans_ratio,
            final(self).time_slot_interval == old(self).time_slot_interval,
            final(self).test_rate_flag == old(self).test_rate_flag,
    {
        self.program_handle = uid;
    }

    /// The register values the initial program is installed with: a 400
    /// Mbps starting rate, ten times the datapath's initial window, and the
    /// time slot in microseconds.
    pub fn initial_settings(&self, info_init_cwnd: u32) -> (r: (u32, u32, u32))
        ensures
            r.0 == spec_cap_u32(400 * (self.rate_trans_ratio as int)),
            r.1 == spec_cap_u32(10 * (info_init_cwnd as int)),
            r.2 == spec_cap_u32(1000 * (self.time_slot_interval as int)),
    {
        let rate: u64 = 400 * (self.rate_trans_ratio as u64);
        let cwnd: u64 = 10 * (info_init_cwnd as u64);
        let slot: u64 = 1000 * (self.time_slot_interval as u64);
        (
            if rate > 0xffff_ffff {
                0xffff_ffff
            } else {
                rate as u32
            },
            if cwnd > 0xffff_ffff {
                0xffff_ffff
            } else {
                cwnd as u32
            },
            if slot > 0xffff_ffff {
                0xffff_ffff
            } else {
                slot as u32
            },
        )
    }

    /// One report: a report from another program changes nothing; otherwise
    /// a pending rate test fires exactly once, as a 200 Mbps rate update the
    /// caller must send.
    pub fn on_report(&mut self, report_uid: u32) -> (rate_update: Option<u32>)
        ensures
            final(self).rate_trans_ratio == old(self).rate_trans_ratio,
            final(self).time_slot_interval == old(self).time_slot_interval,
            final(self).program_handle == old(self).program_handle,
            report_uid != old(self).program_handle ==> {
                &&& rate_update is None
                &&& final(self).test_rate_flag == old(self).test_rate_flag
            },
            report_uid == old(self).program_handle ==> {
                &&& final(self).test_rate_flag == false
                &&& rate_update == (if old(self).test_rate_flag {
                    Some(
                        spec_cap_u32(200 * (old(self).rate_trans_ratio as int)) as u32,
                    )
                } else {
                    None::<u32>
                })
            },
    {
        if report_uid != self.program_handle {
            return None;
        }
        if self.test_rate_flag {
            self.test_rate_flag = false;
            let rate: u64 = 200 * (self.rate_trans_ratio as u64);
            Some(
                if rate > 0xffff_ffff {
                    0xffff_ffff
                } else {
                    rate as u32
                },
            )
        } else {
            None
        }
    }
}

} // verus!
