//! Teardown bookkeeping: the supervisor may exit only once both children
//! have been force-terminated, every pump worker has been joined, the
//! channel senders have been released and the printing workers have drained
//! and finished.

use vstd::prelude::*;
use crate::race::{race_resolution, RaceOutcome};
use crate::role::{Role, StreamKind};
use crate::status::{exit_code_of_report, report_code_fits, report_exit_code, ProcessStatus,
    StatusReport};

verus! {

/// A record of the teardown steps performed so far. The recording methods
/// require the steps in a safe order: a pump worker is only joined after its
/// child was killed (the kill is what closes the pipe and unblocks the
/// pump's read), the senders are only released after every pump worker
/// finished, and the printing workers are only joined after the senders were
/// released (their channels end only once every sender is gone).
pub struct Teardown {
    /// The run child was force-terminated.
    pub run_killed: bool,
    /// The check child was force-terminated.
    pub check_killed: bool,
    /// The run child's stdout pump worker finished.
    pub run_stdout_joined: bool,
    /// The run child's stderr pump worker finished.
    pub run_stderr_joined: bool,
    /// The check child's stdout pump worker finished.
    pub check_stdout_joined: bool,
    /// The check child's stderr pump worker finished.
    pub check_stderr_joined: bool,
    /// The supervisor's own sending handles were dropped.
    pub senders_released: bool,
    /// The printing workers drained their channels and finished.
    pub printers_joined: bool,
}

impl Teardown {
    /// Both children have been force-terminated.
    pub open spec fn children_killed(self) -> bool {
        self.run_killed && self.check_killed
    }

    /// All four pump workers have been joined.
    pub open spec fn pumps_joined(self) -> bool {
        &&& self.run_stdout_joined
        &&& self.run_stderr_joined
        &&& self.check_stdout_joined
        &&& self.check_stderr_joined
    }

    /// Whether this pump worker's join has been recorded.
    pub open spec fn pump_joined(self, role: Role, stream: StreamKind) -> bool {
        match (role, stream) {
            (Role::Run, StreamKind::Stdout) => self.run_stdout_joined,
            (Role::Run, StreamKind::Stderr) => self.run_stderr_joined,
            (Role::Check, StreamKind::Stdout) => self.check_stdout_joined,
            (Role::Check, StreamKind::Stderr) => self.check_stderr_joined,
        }
    }

    /// Whether this child's kill has been recorded.
    pub open spec fn child_killed(self, role: Role) -> bool {
        match role {
            Role::Run => self.run_killed,
            Role::Check => self.check_killed,
        }
    }

    /// Teardown is complete: both children killed, every worker joined, the
    /// senders released. Only then may the supervisor exit.
    pub open spec fn complete(self) -> bool {
        &&& self.children_killed()
        &&& self.pumps_joined()
        &&& self.senders_released
        &&& self.printers_joined
    }

    /// Starts a teardown with nothing done yet.
    pub fn begin() -> (t: Self)
        ensures
            t == (Teardown {
                run_killed: false,
                check_killed: false,
                run_stdout_joined: false,
                run_stderr_joined: false,
                check_stdout_joined: false,
                check_stderr_joined: false,
                senders_released: false,
                printers_joined: false,
            }),
            !t.complete(),
    {
        Teardown {
            run_killed: false,
            check_killed: false,
            run_stdout_joined: false,
            run_stderr_joined: false,
            check_stdout_joined: false,
            check_stderr_joined: false,
            senders_released: false,
            printers_joined: false,
        }
    }

    /// Records that `role`'s child was force-terminated (a safe no-op on the
    /// already-exited winner of the race).
    pub fn record_killed(&mut self, role: Role)
        ensures
            final(self).child_killed(role),
            forall|r: Role| old(self).child_killed(r) ==> final(self).child_killed(r),
            final(self).run_stdout_joined == old(self).run_stdout_joined,
            final(self).run_stderr_joined == old(self).run_stderr_joined,
            final(self).check_stdout_joined == old(self).check_stdout_joined,
            final(self).check_stderr_joined == old(self).check_stderr_joined,
            final(self).senders_released == old(self).senders_released,
            final(self).printers_joined == old(self).printers_joined,
    {
        match role {
            Role::Run => self.run_killed = true,
            Role::Check => self.check_killed = true,
        }
    }

    /// Records that the pump worker for `role`'s `stream` finished; its
    /// child must have been killed first, since only the child's death
    /// closes the pipe the pump blocks on.
    pub fn record_pump_joined(&mut self, role: Role, stream: StreamKind)
        requires
            old(self).child_killed(role),
        ensures
            final(self).pump_joined(role, stream),
            forall|r: Role, s: StreamKind| old(self).pump_joined(r, s) ==> final(self).pump_joined(r, s),
            final(self).run_killed == old(self).run_killed,
            final(self).check_killed == old(self).check_killed,
            final(self).senders_released == old(self).senders_released,
            final(self).printers_joined == old(self).printers_joined,
    {
        match (role, stream) {
            (Role::Run, StreamKind::Stdout) => self.run_stdout_joined = true,
            (Role::Run, StreamKind::Stderr) => self.run_stderr_joined = true,
            (Role::Check, StreamKind::Stdout) => self.check_stdout_joined = true,
            (Role::Check, StreamKind::Stderr) => self.check_stderr_joined = true,
        }
    }

    /// Records that the supervisor dropped its own sending handles; every
    /// pump worker must have finished first, so that no sender is released
    /// while a pump could still forward lines.
    pub fn record_senders_released(&mut self)
        requires
            old(self).pumps_joined(),
        ensures
            *final(self) == (Teardown { senders_released: true, ..*old(self) }),
    {
        self.senders_released = true;
    }

    /// Records that the printing workers drained their channels and
    /// finished; the senders must have been released first, since a printing
    /// worker's channel only ends once every sender is gone.
    pub fn record_printers_joined(&mut self)
        requires
            old(self).senders_released,
        ensures
            *final(self) == (Teardown { printers_joined: true, ..*old(self) }),
            final(self).pumps_joined() == old(self).pumps_joined(),
    {
        self.printers_joined = true;
    }

    /// Returns whether every teardown step has been recorded.
    pub fn is_complete(&self) -> (b: bool)
        ensures
            b == self.complete(),
    {
        self.run_killed && self.check_killed && self.run_stdout_joined && self.run_stderr_joined
            && self.check_stdout_joined && self.check_stderr_joined && self.senders_released
            && self.printers_joined
    }
}

/// The code the supervisor exits with, available only for a settled race and
/// only after teardown is complete — so in particular only after both
/// children, the race's loser included, were force-terminated and every
/// worker was joined.
pub fn supervisor_exit_code(outcome: &RaceOutcome, teardown: &Teardown) -> (c: i32)
    requires
        teardown.complete(),
        outcome matches RaceOutcome::Settled { report, .. } && report_code_fits(*report),
    ensures
        outcome matches RaceOutcome::Settled { report, .. } ==> c as int == exit_code_of_report(*report),
{
    match outcome {
        RaceOutcome::Settled { report, .. } => report_exit_code(report),
        RaceOutcome::Pending { .. } => vstd::pervasive::unreached(),
    }
}

/// For every non-zero code from the check command: the race settles for the
/// check role, the code the supervisor exits with is that code itself, and
/// in any teardown complete enough to pass the exit gate the run child was
/// terminated beforehand.
pub proof fn lemma_supervisor_code_for_failed_check(
    check: ProcessStatus,
    run: Option<ProcessStatus>,
    c: i32,
    t: Teardown,
)
    requires
        check.code == Some(c),
        c != 0,
        t.complete(),
    ensures
        race_resolution(Some(check), run) == (RaceOutcome::Settled {
            role: Role::Check,
            report: StatusReport::Coded(c),
        }),
        exit_code_of_report(StatusReport::Coded(c)) == c as int,
        t.child_killed(Role::Run),
{
}

/// For every code from the run command, zero included: while the check has
/// not failed, the race settles for the run role, the code the supervisor
/// exits with is that code itself, and in any teardown complete enough to
/// pass the exit gate the check child was terminated beforehand.
pub proof fn lemma_supervisor_code_for_run_exit(
    check: Option<ProcessStatus>,
    run: ProcessStatus,
    c: i32,
    t: Teardown,
)
    requires
        run.code == Some(c),
        check matches Some(cst) ==> cst.code == Some(0i32),
        t.complete(),
    ensures
        race_resolution(check, Some(run)) == (RaceOutcome::Settled {
            role: Role::Run,
            report: StatusReport::Coded(c),
        }),
        exit_code_of_report(StatusReport::Coded(c)) == c as int,
        t.child_killed(Role::Check),
{
}

/// Teardown completes only with every worker joined and both children
/// killed: whatever steps were recorded, a complete teardown record implies
/// that both kills, all four pump joins, the sender release and the printer
/// join were each recorded, in the order the recording methods require.
pub proof fn lemma_complete_teardown_accounts_for_everything(t: Teardown)
    requires
        t.complete(),
    ensures
        t.children_killed(),
        t.pumps_joined(),
        t.senders_released,
        t.printers_joined,
        forall|r: Role| t.child_killed(r),
        forall|r: Role, s: StreamKind| t.pump_joined(r, s),
{
    assert forall|r: Role| t.child_killed(r) by {
        match r {
            Role::Run => {},
            Role::Check => {},
        }
    }
    assert forall|r: Role, s: StreamKind| t.pump_joined(r, s) by {
        match (r, s) {
            (Role::Run, StreamKind::Stdout) => {},
            (Role::Run, StreamKind::Stderr) => {},
            (Role::Check, StreamKind::Stdout) => {},
            (Role::Check, StreamKind::Stderr) => {},
        }
    }
}

} // verus!
