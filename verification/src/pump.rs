//! Line labeling done by the output pumps, and its guarantees: every line a
//! child writes to one stream is forwarded exactly once, correctly prefixed,
//! in the child's own order.

use vstd::prelude::*;
use crate::role::{Role, StreamKind};

verus! {

/// One line read from one stream of one supervised process, produced once by
/// a pump and consumed once by the multiplexer. Messages from the children's
/// stdout streams are printed to the supervisor's stdout, messages from
/// their stderr streams to its stderr.
#[derive(Debug, PartialEq, Eq)]
pub struct LineMessage {
    /// The supervised process the line came from.
    pub role: Role,
    /// The stream of that process the line was read on, which is also the
    /// supervisor stream the rendered line is printed to.
    pub stream: StreamKind,
    /// The line's text, unmodified.
    pub text: String,
}

/// The role-identifying prefix put before every forwarded line.
pub open spec fn role_prefix(role: Role) -> Seq<char> {
    match role {
        Role::Run => "[RUN] "@,
        Role::Check => "[CHECK] "@,
    }
}

/// A forwarded line as printed: the role's prefix, then the text unmodified.
pub open spec fn labeled_line(role: Role, text: Seq<char>) -> Seq<char> {
    role_prefix(role) + text
}

/// Renders one line as the supervisor prints it for `role`.
pub fn format_line(role: Role, text: &str) -> (r: String)
    ensures
        r@ == labeled_line(role, text@),
{
    let prefix: &str = match role {
        Role::Run => "[RUN] ",
        Role::Check => "[CHECK] ",
    };
    let mut s = String::from_str(prefix);
    s.append(text);
    s
}

/// Renders a pumped message as the supervisor prints it, on the supervisor
/// stream matching the message's stream kind.
pub fn render_message(m: &LineMessage) -> (r: String)
    ensures
        r@ == labeled_line(m.role, m.text@),
{
    format_line(m.role, m.text.as_str())
}

/// The pump for one stream of one process, over the whole sequence of lines
/// the child wrote to that stream: each line becomes exactly one message,
/// tagged with the pump's role and stream, text unmodified, in the child's
/// own order.
pub fn pump_lines(role: Role, stream: StreamKind, lines: &Vec<String>) -> (msgs: Vec<LineMessage>)
    ensures
        msgs@.len() == lines@.len(),
        forall|i: int| 0 <= i < lines@.len() ==> {
            &&& (#[trigger] msgs@[i]).role == role
            &&& msgs@[i].stream == stream
            &&& msgs@[i].text@ == lines@[i]@
        },
{
    let mut msgs: Vec<LineMessage> = Vec::new();
    let mut idx: usize = 0;
    while idx < lines.len()
        invariant
            idx <= lines@.len(),
            msgs@.len() == idx,
            forall|i: int| 0 <= i < idx ==> {
                &&& (#[trigger] msgs@[i]).role == role
                &&& msgs@[i].stream == stream
                &&& msgs@[i].text@ == lines@[i]@
            },
        decreases lines@.len() - idx,
    {
        let text = lines[idx].clone();
        msgs.push(LineMessage { role, stream, text });
        idx = idx + 1;
    }
    msgs
}

/// A labeled line identifies its role and carries its text faithfully: two
/// equal printed lines can only have come from the same role with the same
/// text. Together with `pump_lines`, which keeps length and order, this
/// says no forwarded line is duplicated, dropped, conflated or reattributed
/// by labeling.
pub proof fn lemma_labeling_injective(r1: Role, t1: Seq<char>, r2: Role, t2: Seq<char>)
    ensures
        labeled_line(r1, t1) == labeled_line(r2, t2) ==> r1 == r2 && t1 == t2,
{
    reveal_strlit("[RUN] ");
    reveal_strlit("[CHECK] ");
    if labeled_line(r1, t1) == labeled_line(r2, t2) {
        if r1 != r2 {
            assert(labeled_line(r1, t1)[1] != labeled_line(r2, t2)[1]);
        }
        let p = role_prefix(r1).len() as int;
        assert(t1 =~= labeled_line(r1, t1).subrange(p, labeled_line(r1, t1).len() as int));
        assert(t2 =~= labeled_line(r2, t2).subrange(p, labeled_line(r2, t2).len() as int));
    }
}

} // verus!
