//! The human-readable status line printed before the supervisor exits,
//! identifying which command ended and with what code or signal.

use vstd::prelude::*;
use crate::decimal::{dec_int, i32_decimal};
use crate::role::{Role, role_word, role_word_str};
use crate::status::StatusReport;

verus! {

/// The status line for a role's report: the role's name and its exit code
/// for a coded exit, the terminating signal for a signal death, and a fatal
/// observability notice when neither could be determined.
pub open spec fn status_line(role: Role, r: StatusReport) -> Seq<char> {
    match r {
        StatusReport::Coded(c) => role_word(role) + " command exited with code: "@ + dec_int(
            c as int,
        ),
        StatusReport::Signaled(s) => role_word(role) + " command exited with signal: "@ + dec_int(
            s as int,
        ),
        StatusReport::Unknown => "error attempting to get exit code or signal from "@ + role_word(
            role,
        ) + " command"@,
    }
}

/// Renders the status line for `role`'s report. A successful report's line
/// belongs on the supervisor's stdout, every other on its stderr.
pub fn render_status_line(role: Role, r: &StatusReport) -> (line: String)
    ensures
        line@ == status_line(role, *r),
{
    match r {
        StatusReport::Coded(c) => {
            let mut line = String::from_str(role_word_str(role));
            line.append(" command exited with code: ");
            line.append(i32_decimal(*c).as_str());
            line
        },
        StatusReport::Signaled(s) => {
            let mut line = String::from_str(role_word_str(role));
            line.append(" command exited with signal: ");
            line.append(i32_decimal(*s).as_str());
            line
        },
        StatusReport::Unknown => {
            let mut line = String::from_str("error attempting to get exit code or signal from ");
            line.append(role_word_str(role));
            line.append(" command");
            line
        },
    }
}

} // verus!
