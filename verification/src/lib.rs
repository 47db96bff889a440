//! A generic congestion-avoidance engine for CCP-style congestion control.
//!
//! The crate separates the per-flow control logic, which is verified, from the
//! transport that carries reports and window updates between this process and
//! the datapath, which is not. The engine receives decoded measurement
//! reports, drives slow start, delegates growth and reduction decisions to a
//! pluggable algorithm, and decides when a new window value must be pushed to
//! the datapath. All timing is taken from a monotonic clock sample, in
//! microseconds, that the caller provides with each event.

use vstd::prelude::*;

pub mod cubic;
pub mod extract;
pub mod flow;
pub mod rate;
pub mod reno;

verus! {

/// Default slow-start threshold when the configuration does not set one.
pub const DEFAULT_SS_THRESH: u32 = 0x7fff_ffff;

/// The fixed list of measurements available to generic-cong-avoid algorithms.
#[derive(Debug, Clone, Copy, PartialEq, Eq, Structural)]
pub struct GenericCongAvoidMeasurements {
    /// In bytes.
    pub acked: u32,
    pub was_timeout: bool,
    /// In packets.
    pub sacked: u32,
    /// In packets.
    pub loss: u32,
    /// In microseconds.
    pub rtt: u32,
    /// In packets.
    pub inflight: u32,
}

/// Configuration option: how often should reports be collected?
#[derive(Debug, Clone, Copy, PartialEq, Eq, Structural)]
pub enum GenericCongAvoidConfigReport {
    /// On every ack.
    Ack,
    /// Once per round-trip time.
    Rtt,
    /// On a fixed wall-clock interval, in microseconds.
    Interval(u32),
}

/// Configuration option: which implementation of slow start?
#[derive(Debug, Clone, Copy, PartialEq, Eq, Structural)]
pub enum GenericCongAvoidConfigSS {
    /// Slow start is run inside the datapath until the first loss.
    Datapath,
    /// Slow start is run by this process.
    Ccp,
}

/// An individual generic-cong-avoid flow: the pluggable numeric state that
/// the engine delegates growth and reduction decisions to.
///
/// `cwnd` is the abstract current window in bytes, `floor` the window the
/// algorithm may never report below after a reduction, and `wf` the
/// implementation's internal well-formedness condition.
pub trait GenericCongAvoidFlow: Sized {
    /// The current congestion window, in bytes.
    spec fn cwnd(&self) -> u32;

    /// The window floor fixed at flow creation, in bytes.
    spec fn floor(&self) -> u32;

    /// Internal well-formedness; established at creation, kept by every call.
    spec fn wf(&self) -> bool;

    /// Return the current cwnd.
    fn curr_cwnd(&self) -> (r: u32)
        requires
            self.wf(),
        ensures
            r == self.cwnd(),
    ;

    /// If the cwnd has been overridden, this method is called to tell the
    /// implementation about it.
    fn set_cwnd(&mut self, cwnd: u32)
        requires
            old(self).wf(),
        ensures
            final(self).wf(),
            final(self).cwnd() == cwnd,
            final(self).floor() == old(self).floor(),
    ;

    /// A congestion increase event occurred: bytes were acked without an
    /// indication of loss. `now_us` is a monotonic clock sample. With no
    /// acked bytes there is no event: the state stays as it is.
    fn increase(&mut self, m: &GenericCongAvoidMeasurements, now_us: u64)
        requires
            old(self).wf(),
        ensures
            final(self).wf(),
            final(self).floor() == old(self).floor(),
            final(self).cwnd() >= old(self).cwnd(),
            m.acked == 0 ==> *final(self) == *old(self),
    ;

    /// A congestion reduction event occurred: an indication of loss was
    /// present. The resulting window never falls below the floor.
    fn reduction(&mut self, m: &GenericCongAvoidMeasurements)
        requires
            old(self).wf(),
        ensures
            final(self).wf(),
            final(self).floor() == old(self).floor(),
            final(self).cwnd() >= final(self).floor(),
    ;

    /// A timeout occurred. The implementation should reset its state.
    fn reset(&mut self)
        requires
            old(self).wf(),
        ensures
            final(self).wf(),
            final(self).floor() == old(self).floor(),
    ;
}

/// A generic-cong-avoid algorithm: a configuration that can instantiate new
/// per-flow state.
pub trait GenericCongAvoidAlg: Sized {
    type Flow: GenericCongAvoidFlow;

    /// The algorithm's name, for logging and registration.
    fn name() -> (r: &'static str);

    /// Fresh per-flow state whose window and floor both start at `init_cwnd`.
    fn new_flow(&self, init_cwnd: u32, mss: u32) -> (f: Self::Flow)
        requires
            mss >= 1,
        ensures
            f.wf(),
            f.cwnd() == init_cwnd,
            f.floor() == init_cwnd,
    ;
}

} // verus!
