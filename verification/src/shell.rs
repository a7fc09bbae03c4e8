//! Construction of the shell invocation that launches a supervised command,
//! and of the plan for force-terminating a child and its process tree.

use vstd::prelude::*;
use crate::decimal::{dec_digits, u32_decimal};

verus! {

/// A process invocation: a program and its arguments, ready to be spawned
/// with stdin closed and both output streams piped.
#[derive(Debug, PartialEq, Eq)]
pub struct ShellInvocation {
    /// The shell to launch.
    pub program: String,
    /// Its arguments; the command string itself is the last one.
    pub args: Vec<String>,
}

/// The shell a command string is wrapped in: the environment's override when
/// one is set, otherwise the platform's standard shell.
pub open spec fn chosen_shell(windows: bool, shell_override: Option<Seq<char>>) -> Seq<char> {
    match shell_override {
        Some(s) => s,
        None => if windows {
            "cmd.exe"@
        } else {
            "/bin/sh"@
        },
    }
}

/// Builds the invocation that runs `command` through the host shell:
/// `/d /s /c` style on the Windows command processor, `-c` style on a POSIX
/// shell, with the command string as the single final argument, unmodified.
/// `shell_override` is the value of the platform's shell environment
/// variable, when set.
pub fn shell_invocation(windows: bool, shell_override: Option<String>, command: &str) -> (inv: ShellInvocation)
    ensures
        inv.program@ == chosen_shell(windows, match shell_override {
            Some(s) => Some(s@),
            None => None,
        }),
        windows ==> {
            &&& inv.args@.len() == 4
            &&& inv.args@[0]@ == "/d"@
            &&& inv.args@[1]@ == "/s"@
            &&& inv.args@[2]@ == "/c"@
            &&& inv.args@[3]@ == command@
        },
        !windows ==> {
            &&& inv.args@.len() == 2
            &&& inv.args@[0]@ == "-c"@
            &&& inv.args@[1]@ == command@
        },
{
    let program = match shell_override {
        Some(s) => s,
        None => if windows {
            String::from_str("cmd.exe")
        } else {
            String::from_str("/bin/sh")
        },
    };
    let mut args: Vec<String> = Vec::new();
    if windows {
        args.push(String::from_str("/d"));
        args.push(String::from_str("/s"));
        args.push(String::from_str("/c"));
    } else {
        args.push(String::from_str("-c"));
    }
    args.push(String::from_str(command));
    ShellInvocation { program, args }
}

/// How a child is force-terminated, chosen per platform: a direct kill of
/// the child's own process on POSIX-like systems, or an invocation of the
/// operating system's kill-process-tree utility by pid on Windows, where a
/// shell-spawned command may own subprocesses that killing the shell's pid
/// alone would not reach. Both are safe no-ops on an already-exited child.
#[derive(Debug, PartialEq, Eq)]
pub enum KillPlan {
    /// Kill the child process directly through its handle.
    DirectKill,
    /// Run this program with these arguments and wait for it.
    KillTree { program: String, args: Vec<String> },
}

/// Builds the termination plan for a child with process id `pid`.
pub fn kill_plan(windows: bool, pid: u32) -> (p: KillPlan)
    ensures
        !windows ==> p == KillPlan::DirectKill,
        windows ==> (p matches KillPlan::KillTree { program, args } && {
            &&& program@ == "taskkill"@
            &&& args@.len() == 4
            &&& args@[0]@ == "/F"@
            &&& args@[1]@ == "/T"@
            &&& args@[2]@ == "/PID"@
            &&& args@[3]@ == dec_digits(pid as nat)
        }),
{
    if windows {
        let mut args: Vec<String> = Vec::new();
        args.push(String::from_str("/F"));
        args.push(String::from_str("/T"));
        args.push(String::from_str("/PID"));
        args.push(u32_decimal(pid));
        KillPlan::KillTree { program: String::from_str("taskkill"), args }
    } else {
        KillPlan::DirectKill
    }
}

} // verus!
