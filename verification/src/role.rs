//! The two supervised roles and the two output streams.

use vstd::prelude::*;

verus! {

/// Which of the two supervised processes a value belongs to.
#[derive(Clone, Copy, Debug, PartialEq, Eq, Structural)]
pub enum Role {
    Run,
    Check,
}

/// Which output stream of a child a line was read from; lines from a child's
/// stdout go to the supervisor's stdout, lines from its stderr to the
/// supervisor's stderr.
#[derive(Clone, Copy, Debug, PartialEq, Eq, Structural)]
pub enum StreamKind {
    Stdout,
    Stderr,
}

/// The word naming a role in human-readable status lines.
pub open spec fn role_word(role: Role) -> Seq<char> {
    match role {
        Role::Run => "run"@,
        Role::Check => "check"@,
    }
}

/// Returns the word naming `role` in status lines.
pub fn role_word_str(role: Role) -> (r: &'static str)
    ensures
        r@ == role_word(role),
{
    match role {
        Role::Run => "run",
        Role::Check => "check",
    }
}

} // verus!
