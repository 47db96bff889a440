//! The measurement extractor.
//!
//! A datapath report arrives as an opaque `portus::Report` together with the
//! `portus::lang::Scope` of the installed aggregation program. The trusted
//! items below only read the report's program identifier and look single
//! fields up; everything that decides — the stale-report check against the
//! flow's stored handle, the missing-field rule, and the exact conversion of
//! raw field values into a typed measurement — is verified over the plain
//! `RawReport` values the lookups produce.

use vstd::prelude::*;

use crate::flow::Flow;
use crate::{GenericCongAvoidFlow, GenericCongAvoidMeasurements};

verus! {

/// Why a report could not be turned into a measurement.
#[derive(Debug, Clone, Copy, PartialEq, Eq, Structural)]
pub enum CcpError {
    /// The report carries another program's identifier: it is stale or
    /// misrouted and must be ignored without any state change.
    ProtocolMismatch,
    /// The installed program does not provide an expected field: the
    /// decoder and the program have drifted apart, which is fatal for the
    /// flow.
    MissingField,
}

/// The raw values read out of one datapath report: the program identifier
/// it was produced under, and each expected field if the program provides
/// it.
#[derive(Debug, Clone, Copy)]
pub struct RawReport {
    pub program_uid: u32,
    pub acked: Option<u64>,
    pub sacked: Option<u64>,
    pub timeout: Option<u64>,
    pub inflight: Option<u64>,
    pub loss: Option<u64>,
    pub rtt: Option<u64>,
}

#[verifier::external_type_specification]
#[verifier::external_body]
pub struct ExReport(portus::Report);

#[verifier::external_type_specification]
#[verifier::external_body]
pub struct ExScope(portus::lang::Scope);

/// The program identifier a report carries: what the public field
/// `portus::Report::program_uid` holds.
pub uninterp spec fn spec_report_uid(m: portus::Report) -> u32;

/// The value `portus::Report::get_field` resolves a field name to against a
/// program scope: a function of the report, the name and the scope alone,
/// `None` standing for its error.
pub uninterp spec fn spec_report_field(
    m: portus::Report,
    field: Seq<char>,
    sc: portus::lang::Scope,
) -> Option<u64>;

/// Relies on the public `program_uid` field of `portus::Report`: the
/// identifier of the program that produced the report.
#[verifier::external_body]
fn report_program_uid(m: &portus::Report) -> (r: u32)
    ensures
        r == spec_report_uid(*m),
{
    m.program_uid
}

/// Relies on `portus::Report::get_field`, which resolves a field name
/// against the program scope and returns the reported value, or an error
/// when the name is absent from the scope, is not a report register, or the
/// scope belongs to another program. The result depends on the three
/// arguments alone.
#[verifier::external_body]
fn report_get_field(m: &portus::Report, field: &str, sc: &portus::lang::Scope) -> (r: Option<u64>)
    ensures
        r == spec_report_field(*m, field@, *sc),
{
    m.get_field(field, sc).ok()
}

/// The raw record one report reads as: its program identifier and the six
/// expected fields as `portus::Report::get_field` resolves them against the
/// installed program's scope.
pub open spec fn spec_raw_of(m: portus::Report, sc: portus::lang::Scope) -> RawReport {
    RawReport {
        program_uid: spec_report_uid(m),
        acked: spec_report_field(m, "Report.acked"@, sc),
        sacked: spec_report_field(m, "Report.sacked"@, sc),
        timeout: spec_report_field(m, "Report.timeout"@, sc),
        inflight: spec_report_field(m, "Report.inflight"@, sc),
        loss: spec_report_field(m, "Report.loss"@, sc),
        rtt: spec_report_field(m, "Report.rtt"@, sc),
    }
}

/// The measurement a raw report decodes to: a stale identifier is a
/// `ProtocolMismatch`, a missing field a `MissingField`, and otherwise each
/// counter is taken as `u32` with the timeout flag set exactly when the
/// reported value is 1.
pub open spec fn spec_interpret_raw(raw: RawReport, expected_uid: u32) -> Result<
    GenericCongAvoidMeasurements,
    CcpError,
> {
    if raw.program_uid != expected_uid {
        Err(CcpError::ProtocolMismatch)
    } else {
        match (raw.acked, raw.sacked, raw.timeout, raw.inflight, raw.loss, raw.rtt) {
            (Some(a), Some(s), Some(t), Some(i), Some(l), Some(r)) => Ok(
                GenericCongAvoidMeasurements {
                    acked: a as u32,
                    was_timeout: t == 1,
                    sacked: s as u32,
                    loss: l as u32,
                    rtt: r as u32,
                    inflight: i as u32,
                },
            ),
            _ => Err(CcpError::MissingField),
        }
    }
}

/// Turn the raw values of one report into a typed measurement; exactly
/// `spec_interpret_raw`.
pub fn interpret_raw(raw: &RawReport, expected_uid: u32) -> (r: Result<
    GenericCongAvoidMeasurements,
    CcpError,
>)
    ensures
        r == spec_interpret_raw(*raw, expected_uid),
{
    if raw.program_uid != expected_uid {
        return Err(CcpError::ProtocolMismatch);
    }
    match (raw.acked, raw.sacked, raw.timeout, raw.inflight, raw.loss, raw.rtt) {
        (Some(a), Some(s), Some(t), Some(i), Some(l), Some(r)) => Ok(
            GenericCongAvoidMeasurements {
                acked: #[verifier::truncate] (a as u32),
                was_timeout: t == 1,
                sacked: #[verifier::truncate] (s as u32),
                loss: #[verifier::truncate] (l as u32),
                rtt: #[verifier::truncate] (r as u32),
                inflight: #[verifier::truncate] (i as u32),
            },
        ),
        _ => Err(CcpError::MissingField),
    }
}

/// Read the expected fields out of a datapath report and decode them
/// against the handle of the installed program: exactly the interpretation
/// of what the report holds, so a stale identifier is rejected and an
/// absent field is fatal at this boundary.
pub fn decode(m: &portus::Report, sc: &portus::lang::Scope, expected_uid: u32) -> (r: Result<
    GenericCongAvoidMeasurements,
    CcpError,
>)
    ensures
        r == spec_interpret_raw(spec_raw_of(*m, *sc), expected_uid),
{
    let raw = RawReport {
        program_uid: report_program_uid(m),
        acked: report_get_field(m, "Report.acked", sc),
        sacked: report_get_field(m, "Report.sacked", sc),
        timeout: report_get_field(m, "Report.timeout", sc),
        inflight: report_get_field(m, "Report.inflight", sc),
        loss: report_get_field(m, "Report.loss", sc),
        rtt: report_get_field(m, "Report.rtt", sc),
    };
    proof {
        assert(raw == spec_raw_of(*m, *sc));
    }
    interpret_raw(&raw, expected_uid)
}

impl<A: GenericCongAvoidFlow> Flow<A> {
    /// Decode a report against this flow's installed program handle.
    pub fn get_fields(&self, m: &portus::Report, sc: &portus::lang::Scope) -> (r: Result<
        GenericCongAvoidMeasurements,
        CcpError,
    >)
        ensures
            r == spec_interpret_raw(spec_raw_of(*m, *sc), self.program_handle),
    {
        decode(m, sc, self.program_handle)
    }
}

} // verus!
