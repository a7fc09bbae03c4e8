//! The exit race: which supervised process terminates first, under the
//! asymmetric policy that a successful check is not terminal.

use vstd::prelude::*;
use crate::role::Role;
use crate::status::{ProcessStatus, StatusReport, report_of_status, exit_code_of_report,
    classify_status};

verus! {

/// The result of one poll of both children. Each poll looks at the check
/// process first, then the run process, and either settles the race or
/// leaves it pending.
#[derive(Clone, Copy, Debug, PartialEq, Eq)]
pub enum RaceOutcome {
    /// Neither terminating condition was met; monitoring continues.
    /// `check_succeeded` records that the check process was seen to have
    /// exited with code `0`, which by policy does not settle the race.
    Pending { check_succeeded: bool },
    /// The race is settled: `role` terminated in a way that ends monitoring,
    /// and `report` is how its status is reported.
    Settled { role: Role, report: StatusReport },
}

/// The race outcome when the check process does not settle the race:
/// any termination of the run process settles it, for the run role.
pub open spec fn run_side_resolution(run: Option<ProcessStatus>, check_succeeded: bool) -> RaceOutcome {
    match run {
        Some(rst) => RaceOutcome::Settled { role: Role::Run, report: report_of_status(rst) },
        None => RaceOutcome::Pending { check_succeeded },
    }
}

/// The asymmetric race policy over one poll of both children.
///
/// The check process settles the race exactly when it terminated other than
/// by a normal exit with code `0`; a successful check is not terminal. When
/// the check does not settle the race, any termination of the run process
/// settles it, whatever its status.
pub open spec fn race_resolution(check: Option<ProcessStatus>, run: Option<ProcessStatus>) -> RaceOutcome {
    match check {
        Some(cst) => {
            if report_of_status(cst) == StatusReport::Coded(0i32) {
                run_side_resolution(run, true)
            } else {
                RaceOutcome::Settled { role: Role::Check, report: report_of_status(cst) }
            }
        },
        None => run_side_resolution(run, false),
    }
}

/// Resolves one poll of the race. `check` and `run` are the statuses the
/// poll observed, `None` for a child still running.
pub fn race_step(check: Option<ProcessStatus>, run: Option<ProcessStatus>) -> (r: RaceOutcome)
    ensures
        r == race_resolution(check, run),
{
    match check {
        Some(cst) => {
            let creport = classify_status(&cst);
            let settled = match creport {
                StatusReport::Coded(c) => c != 0,
                _ => true,
            };
            if settled {
                return RaceOutcome::Settled { role: Role::Check, report: creport };
            }
            match run {
                Some(rst) => RaceOutcome::Settled { role: Role::Run, report: classify_status(&rst) },
                None => RaceOutcome::Pending { check_succeeded: true },
            }
        },
        None => {
            match run {
                Some(rst) => RaceOutcome::Settled { role: Role::Run, report: classify_status(&rst) },
                None => RaceOutcome::Pending { check_succeeded: false },
            }
        },
    }
}

/// A failing check settles the race: whenever the check process has exited
/// with a non-zero code `c`, whatever the run process has done, the race
/// resolves for the check role and the supervisor's exit code is `c` itself.
pub proof fn lemma_check_failure_settles(check: ProcessStatus, run: Option<ProcessStatus>, c: i32)
    requires
        check.code == Some(c),
        c != 0,
    ensures
        race_resolution(Some(check), run) == (RaceOutcome::Settled {
            role: Role::Check,
            report: StatusReport::Coded(c),
        }),
        exit_code_of_report(StatusReport::Coded(c)) == c as int,
{
}

/// Any exit of the run process settles the race while the check has not
/// failed: whenever the run process has exited with code `c`, zero or not,
/// and the check process is still running or exited successfully, the race
/// resolves for the run role and the supervisor's exit code is `c` itself.
pub proof fn lemma_run_exit_settles(check: Option<ProcessStatus>, run: ProcessStatus, c: i32)
    requires
        run.code == Some(c),
        check matches Some(cst) ==> cst.code == Some(0i32),
    ensures
        race_resolution(check, Some(run)) == (RaceOutcome::Settled {
            role: Role::Run,
            report: StatusReport::Coded(c),
        }),
        exit_code_of_report(StatusReport::Coded(c)) == c as int,
{
}

/// A successful check is not terminal: whenever the check process has exited
/// with code `0` and the run process is still running, the race stays
/// pending, so the supervisor keeps relaying the run process's output.
pub proof fn lemma_check_success_not_terminal(check: ProcessStatus)
    requires
        check.code == Some(0i32),
    ensures
        race_resolution(Some(check), None) == (RaceOutcome::Pending { check_succeeded: true }),
{
}

/// The race settles exactly when a terminating condition holds: the check
/// process terminated other than with code `0`, or the run process
/// terminated at all.
pub proof fn lemma_settles_iff_terminating_condition(check: Option<ProcessStatus>, run: Option<ProcessStatus>)
    ensures
        (race_resolution(check, run) is Settled) <==> {
            ||| check matches Some(cst) && report_of_status(cst) != StatusReport::Coded(0i32)
            ||| run is Some
        },
{
}

} // verus!
