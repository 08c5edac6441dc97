//! The problem log: errors and warnings that page scripts cause are written
//! to it, one line each, for the browser to show.

use vstd::prelude::*;
use vstd::string::*;

use crate::text::same_text;

verus! {

/// The label of a problem kind: `ERROR` for "error", `WARNING` for
/// "warning", `UNKNOWN` for anything else.
pub open spec fn severity_label(kind: Seq<char>) -> Seq<char> {
    if kind == "error"@ {
        "ERROR"@
    } else if kind == "warning"@ {
        "WARNING"@
    } else {
        "UNKNOWN"@
    }
}

/// The line that one problem adds to the log.
pub open spec fn problem_line(kind: Seq<char>, message: Seq<char>) -> Seq<char> {
    severity_label(kind) + ": "@ + message + "\n"@
}

/// The log text after the problems `kinds[i]`, `messages[i]` were recorded
/// in order.
pub open spec fn log_of(kinds: Seq<Seq<char>>, messages: Seq<Seq<char>>) -> Seq<char>
    decreases kinds.len(),
{
    if kinds.len() == 0 {
        Seq::empty()
    } else {
        log_of(kinds.drop_last(), messages.drop_last()) + problem_line(
            kinds.last(),
            messages[kinds.len() - 1],
        )
    }
}

/// The label of a problem kind.
pub fn severity_label_of(kind: &str) -> (r: &'static str)
    ensures
        r@ == severity_label(kind@),
{
    if same_text(kind, "error") {
        "ERROR"
    } else if same_text(kind, "warning") {
        "WARNING"
    } else {
        "UNKNOWN"
    }
}

/// The text of the problem log.
pub struct ProblemLog {
    text: String,
}

impl View for ProblemLog {
    type V = Seq<char>;

    closed spec fn view(&self) -> Seq<char> {
        self.text@
    }
}

impl ProblemLog {
    /// An empty log.
    pub fn new() -> (r: ProblemLog)
        ensures
            r@ == Seq::<char>::empty(),
    {
        ProblemLog { text: String::new() }
    }

    /// Appends the line of one problem: its label, a colon and a space, the
    /// message, and a newline.
    pub fn record(&mut self, kind: &str, message: &str)
        ensures
            final(self)@ == old(self)@ + problem_line(kind@, message@),
    {
        let label = severity_label_of(kind);
        self.text.append(label);
        self.text.append(": ");
        self.text.append(message);
        self.text.append("\n");
        assert(self.text@ =~= old(self)@ + problem_line(kind@, message@));
    }

    /// The text written so far.
    pub fn text(&self) -> (r: &str)
        ensures
            r@ == self@,
    {
        self.text.as_str()
    }
}

/// The line of a problem: `ERROR: ` before an error's message, `WARNING: `
/// before a warning's, `UNKNOWN: ` before any other's, and a newline after.
pub proof fn law_problem_line(kind: Seq<char>, message: Seq<char>)
    ensures
        kind == "error"@ ==> problem_line(kind, message) == "ERROR: "@ + message + "\n"@,
        kind == "warning"@ ==> problem_line(kind, message) == "WARNING: "@ + message + "\n"@,
        kind != "error"@ && kind != "warning"@ ==> problem_line(kind, message) == "UNKNOWN: "@
            + message + "\n"@,
{
    reveal_strlit("error");
    reveal_strlit("warning");
    reveal_strlit("ERROR");
    reveal_strlit("WARNING");
    reveal_strlit("UNKNOWN");
    reveal_strlit(": ");
    reveal_strlit("ERROR: ");
    reveal_strlit("WARNING: ");
    reveal_strlit("UNKNOWN: ");
    if kind == "error"@ {
        assert("error"@ != "warning"@) by {
            assert("error"@[0] != "warning"@[0]);
        }
        assert(problem_line(kind, message) =~= "ERROR: "@ + message + "\n"@);
    } else if kind == "warning"@ {
        assert(problem_line(kind, message) =~= "WARNING: "@ + message + "\n"@);
    } else {
        assert(problem_line(kind, message) =~= "UNKNOWN: "@ + message + "\n"@);
    }
}

/// The log keeps its history: recording problems one after another, from an
/// empty log, leaves exactly their lines in the order they were recorded.
pub proof fn law_log_is_history(
    kinds: Seq<Seq<char>>,
    messages: Seq<Seq<char>>,
    kind: Seq<char>,
    message: Seq<char>,
)
    requires
        kinds.len() == messages.len(),
    ensures
        log_of(kinds.push(kind), messages.push(message)) == log_of(kinds, messages) + problem_line(
            kind,
            message,
        ),
        log_of(kinds, messages).is_prefix_of(log_of(kinds.push(kind), messages.push(message))),
{
    assert(kinds.push(kind).drop_last() =~= kinds);
    assert(messages.push(message).drop_last() =~= messages);
    let whole = log_of(kinds.push(kind), messages.push(message));
    assert(log_of(kinds, messages) =~= whole.subrange(0, log_of(kinds, messages).len() as int));
}

} // verus!
