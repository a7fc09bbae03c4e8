//! A plain-value model of an observed child exit status, its classification,
//! and the derivation of the supervisor's exit code from it.

use vstd::prelude::*;

verus! {

/// What the operating system reports about a terminated child: an exit code
/// if the child exited normally, otherwise the terminating signal if one can
/// be extracted, otherwise neither.
#[derive(Clone, Copy, Debug, PartialEq, Eq)]
pub struct ProcessStatus {
    /// The child's exit code, when it exited with one.
    pub code: Option<i32>,
    /// The signal that terminated the child, when no code exists and the
    /// platform exposes one.
    pub signal: Option<i32>,
}

/// How a terminated child's status is reported and turned into an exit code:
/// a normal code is kept, a terminating signal is converted, and a status
/// from which neither can be extracted falls back to a sentinel.
#[derive(Clone, Copy, Debug, PartialEq, Eq, Structural)]
pub enum StatusReport {
    /// The child exited with this code.
    Coded(i32),
    /// The child was terminated by this signal.
    Signaled(i32),
    /// Neither a code nor a signal could be determined.
    Unknown,
}

/// The sentinel exit code used when a child's status is unobservable.
pub const UNOBSERVABLE_STATUS_CODE: i32 = 1;

/// Classification of a status: the exit code when present wins, then the
/// signal, and a status carrying neither is unknown.
pub open spec fn report_of_status(st: ProcessStatus) -> StatusReport {
    match st.code {
        Some(c) => StatusReport::Coded(c),
        None => match st.signal {
            Some(s) => StatusReport::Signaled(s),
            None => StatusReport::Unknown,
        },
    }
}

/// The exit code the supervisor adopts for a report: the child's own code,
/// `128 +` the signal number for a signal death, and the sentinel `1` when
/// the status was unobservable.
pub open spec fn exit_code_of_report(r: StatusReport) -> int {
    match r {
        StatusReport::Coded(c) => c as int,
        StatusReport::Signaled(s) => 128 + s as int,
        StatusReport::Unknown => UNOBSERVABLE_STATUS_CODE as int,
    }
}

/// A report whose converted exit code fits the machine's `i32`. Only a
/// signal near `i32::MAX`, which no platform produces, falls outside.
pub open spec fn report_code_fits(r: StatusReport) -> bool {
    r matches StatusReport::Signaled(s) ==> s + 128 <= i32::MAX
}

/// Classifies an observed status into how it will be reported.
pub fn classify_status(st: &ProcessStatus) -> (r: StatusReport)
    ensures
        r == report_of_status(*st),
{
    match st.code {
        Some(c) => StatusReport::Coded(c),
        None => match st.signal {
            Some(s) => StatusReport::Signaled(s),
            None => StatusReport::Unknown,
        },
    }
}

/// Derives the supervisor's exit code from a report.
pub fn report_exit_code(r: &StatusReport) -> (c: i32)
    requires
        report_code_fits(*r),
    ensures
        c as int == exit_code_of_report(*r),
{
    match r {
        StatusReport::Coded(c) => *c,
        StatusReport::Signaled(s) => 128 + *s,
        StatusReport::Unknown => UNOBSERVABLE_STATUS_CODE,
    }
}

/// Whether a report is the success outcome: a normal exit with code `0`.
pub open spec fn report_is_success(r: StatusReport) -> bool {
    r == StatusReport::Coded(0i32)
}

/// Returns whether the report is a normal exit with code `0`; the
/// human-readable status line for a successful report goes to the
/// supervisor's stdout, all others to its stderr.
pub fn is_success_report(r: &StatusReport) -> (b: bool)
    ensures
        b == report_is_success(*r),
{
    match r {
        StatusReport::Coded(c) => *c == 0,
        _ => false,
    }
}

} // verus!
