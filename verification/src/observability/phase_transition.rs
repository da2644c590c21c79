//! Log of the changes of question phase.
use vstd::prelude::*;

use crate::controller::gemma_controller::{question_phase_name, QuestionPhase};
use crate::paths::{joined_path, path_join};
use crate::text::{decimal, push_decimal, push_str};

verus! {

/// One change of phase.
#[derive(Debug, Clone)]
pub struct PhaseTransition {
    /// When it happened.
    pub timestamp: String,
    /// The phase before.
    pub from: QuestionPhase,
    /// The phase after.
    pub to: QuestionPhase,
    /// What caused it.
    pub reason: String,
    /// The node count at the time.
    pub node_count: usize,
}

/// The log of phase changes, a Markdown table in `phase_transitions.md`.
#[derive(Debug, Clone)]
pub struct PhaseTransitionLogger {
    log_path: std::path::PathBuf,
    initialized: bool,
}

/// The name of a phase.
pub fn phase_name(phase: &QuestionPhase) -> (s: &'static str)
    ensures
        s@ == question_phase_name(*phase),
{
    phase.name()
}

/// The table row of a phase change.
pub open spec fn transition_row_spec(t: PhaseTransition) -> Seq<char> {
    "| "@ + t.timestamp@ + " | "@ + question_phase_name(t.from) + " | "@ + question_phase_name(t.to)
        + " | "@ + t.reason@ + " | "@ + decimal(t.node_count as nat) + " |\n"@
}

/// The table row of a phase change (see `transition_row_spec`).
pub fn transition_row(t: &PhaseTransition) -> (s: String)
    ensures
        s@ == transition_row_spec(*t),
{
    let mut s = String::from_str("| ");
    push_str(&mut s, t.timestamp.as_str());
    push_str(&mut s, " | ");
    push_str(&mut s, phase_name(&t.from));
    push_str(&mut s, " | ");
    push_str(&mut s, phase_name(&t.to));
    push_str(&mut s, " | ");
    push_str(&mut s, t.reason.as_str());
    push_str(&mut s, " | ");
    push_decimal(&mut s, t.node_count as u64);
    push_str(&mut s, " |\n");
    assert(s@ =~= transition_row_spec(*t));
    s
}

/// The header written into a new log file.
pub open spec fn transition_log_header() -> Seq<char> {
    "# 階段轉換記錄\n\n"@ + "| 時間 | 從 | 到 | 觸發原因 | 節點數 |\n"@ + "|------|----|----|---------|-------|\n"@
}

impl PhaseTransitionLogger {
    /// The log path.
    pub closed spec fn log_path_spec(&self) -> std::path::PathBuf {
        self.log_path
    }

    /// A logger writing to `phase_transitions.md` in the given directory.
    pub fn for_dir(logs_dir: &std::path::PathBuf) -> (l: Self)
        ensures
            l.log_path_spec() == joined_path(*logs_dir, "phase_transitions.md"@),
    {
        PhaseTransitionLogger { log_path: path_join(logs_dir, "phase_transitions.md"), initialized: true }
    }

    /// The header written into a new log file.
    pub fn header() -> (s: String)
        ensures
            s@ == transition_log_header(),
    {
        let mut s = String::from_str("# 階段轉換記錄\n\n");
        push_str(&mut s, "| 時間 | 從 | 到 | 觸發原因 | 節點數 |\n");
        push_str(&mut s, "|------|----|----|---------|-------|\n");
        s
    }

    /// The log file.
    pub fn log_path(&self) -> (p: &std::path::PathBuf)
        ensures
            *p == self.log_path_spec(),
    {
        &self.log_path
    }
}

} // verus!
