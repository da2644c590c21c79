//! Session summaries: counts kept while a session runs, and the Markdown
//! written when it ends.
//!
//! The complexity is in thousandths. The application writes the file.
use vstd::prelude::*;

use crate::fixed::{digit_char_exec, fixed2, push_decimal_wide, push_fixed2};
use crate::paths::{joined_path, path_join};
use crate::stamp::Timestamp;
use crate::text::{decimal, digit_char, push_decimal, push_str};

verus! {

/// What a session did.
#[derive(Debug, Clone)]
pub struct SessionStats {
    /// The topic discussed.
    pub topic: String,
    /// The rounds.
    pub total_rounds: usize,
    /// The nodes added.
    pub nodes_added: usize,
    /// The changes of constraints.
    pub constraints_changed: usize,
    /// The changes of phase.
    pub phase_transitions: usize,
    /// The questions asked (an estimate).
    pub questions_asked: usize,
    /// The node count at the end.
    pub final_node_count: usize,
    /// The edge count at the end.
    pub final_edge_count: usize,
    /// The complexity at the end, in thousandths.
    pub final_complexity: u128,
    /// The phase at the end.
    pub final_phase: String,
}

impl SessionStats {
    /// Nothing counted yet, on a topic.
    pub fn new(topic: &str) -> (s: Self)
        ensures
            s.topic@ == topic@,
            s.total_rounds == 0,
            s.nodes_added == 0,
            s.constraints_changed == 0,
            s.phase_transitions == 0,
            s.questions_asked == 0,
            s.final_node_count == 0,
            s.final_edge_count == 0,
            s.final_complexity == 0,
            s.final_phase@.len() == 0,
    {
        SessionStats {
            topic: String::from_str(topic),
            total_rounds: 0,
            nodes_added: 0,
            constraints_changed: 0,
            phase_transitions: 0,
            questions_asked: 0,
            final_node_count: 0,
            final_edge_count: 0,
            final_complexity: 0,
            final_phase: String::new(),
        }
    }
}

/// Questions per round, in tenths, the last place rounded half up; none
/// without rounds.
pub open spec fn density_tenths(questions: nat, rounds: nat) -> nat {
    if rounds == 0 {
        0
    } else {
        (questions * 20 + rounds) / (rounds * 2)
    }
}

/// A value in tenths with one decimal.
pub open spec fn tenths_text(v: nat) -> Seq<char> {
    decimal(v / 10) + seq!['.', digit_char(v % 10)]
}

/// How often questions come: at least one a round, at least one in two,
/// or fewer.
pub open spec fn density_word(questions: nat, rounds: nat) -> Seq<char> {
    if rounds > 0 && questions >= rounds {
        "高（符合探索期特徵）"@
    } else if rounds > 0 && questions * 2 >= rounds {
        "中（正常對話）"@
    } else {
        "低（可能進入成熟期）"@
    }
}

/// The first part of a summary: the time and the counts of the session.
pub open spec fn summary_head(s: SessionStats, time: Seq<char>) -> Seq<char> {
    "# Session 摘要\n\n"@ + "**時間：** "@ + time + "\n"@ + "\n"@ + "---\n\n"@ + "## 基本資訊\n\n"@
        + "- **討論主題：** "@ + s.topic@ + "\n"@ + "- **總回合數：** "@ + decimal(s.total_rounds as nat) + "\n"@
        + "- **新增節點數：** "@ + decimal(s.nodes_added as nat) + "\n"@ + "- **約束變化次數：** "@ + decimal(
        s.constraints_changed as nat,
    ) + "\n"@ + "- **階段轉換次數：** "@ + decimal(s.phase_transitions as nat) + "\n"@
        + "- **提問總數（估算）：** "@ + decimal(s.questions_asked as nat) + "\n"@ + "\n"@
}

/// The final state part of a summary.
pub open spec fn summary_final(s: SessionStats) -> Seq<char> {
    "## 最終狀態\n\n"@ + "- **節點數：** "@ + decimal(s.final_node_count as nat) + "\n"@ + "- **邊數：** "@
        + decimal(s.final_edge_count as nat) + "\n"@ + "- **總複雜度：** "@ + fixed2(s.final_complexity as nat)
        + "\n"@ + "- **最終階段：** "@ + s.final_phase@ + "\n"@ + "\n"@
}

/// The questions part of a summary, and its end.
pub open spec fn summary_questions(s: SessionStats) -> Seq<char> {
    "## 提問習慣分析\n\n"@ + "- **平均每回合提問數：** "@ + tenths_text(
        density_tenths(s.questions_asked as nat, s.total_rounds as nat),
    ) + "\n"@ + "- **提問密度評估：** "@ + density_word(s.questions_asked as nat, s.total_rounds as nat) + "\n"@
        + "\n"@ + "---\n\n"@ + "*此摘要由 Evolution Reasoning Tool v0.6 自動產生*\n\n"@
}

/// The second part of a summary: the final state and the questions.
pub open spec fn summary_tail(s: SessionStats) -> Seq<char> {
    summary_final(s) + summary_questions(s)
}

/// The Markdown of a session's summary, written at the given time.
pub open spec fn summary_markdown(s: SessionStats, time: Seq<char>) -> Seq<char> {
    summary_head(s, time) + summary_tail(s)
}

/// Keeps the counts of a session and where its summary goes
/// (`session_` and the time, in the logs directory).
#[derive(Debug, Clone)]
pub struct SessionSummaryLogger {
    stats: SessionStats,
    log_path: std::path::PathBuf,
}

impl SessionSummaryLogger {
    /// The counts.
    pub closed spec fn stats_spec(&self) -> SessionStats {
        self.stats
    }

    /// The file of the summary.
    pub closed spec fn log_path_spec(&self) -> std::path::PathBuf {
        self.log_path
    }

    /// A logger on a topic, nothing counted, its file named by the time
    /// now in the given logs directory.
    pub fn new(logs_dir: &std::path::PathBuf, topic: &str) -> (l: Self)
        ensures
            l.stats_spec().topic@ == topic@,
            l.stats_spec().total_rounds == 0,
            l.stats_spec().nodes_added == 0,
            l.stats_spec().constraints_changed == 0,
            l.stats_spec().phase_transitions == 0,
            l.stats_spec().questions_asked == 0,
            l.stats_spec().final_node_count == 0,
            l.stats_spec().final_edge_count == 0,
            l.stats_spec().final_complexity == 0,
            l.stats_spec().final_phase@.len() == 0,
            exists|stamp: Seq<char>|
                l.log_path_spec() == #[trigger] joined_path(*logs_dir, "session_"@ + stamp + ".md"@),
    {
        let mut name = String::from_str("session_");
        let now = Timestamp::now();
        push_str(&mut name, now.compact.as_str());
        push_str(&mut name, ".md");
        let l = SessionSummaryLogger { stats: SessionStats::new(topic), log_path: path_join(logs_dir, name.as_str()) };
        assert(l.log_path_spec() == joined_path(*logs_dir, "session_"@ + now.compact@ + ".md"@));
        l
    }

    /// Replaces the counts.
    pub fn update_stats(&mut self, stats: SessionStats)
        ensures
            final(self).stats_spec() == stats,
            final(self).log_path_spec() == old(self).log_path_spec(),
    {
        self.stats = stats;
    }

    /// Counts a round.
    pub fn increment_rounds(&mut self)
        requires
            old(self).stats_spec().total_rounds < usize::MAX,
        ensures
            final(self).stats_spec() == (SessionStats {
                total_rounds: (old(self).stats_spec().total_rounds + 1) as usize,
                ..old(self).stats_spec()
            }),
            final(self).log_path_spec() == old(self).log_path_spec(),
    {
        self.stats.total_rounds = self.stats.total_rounds + 1;
    }

    /// Counts added nodes.
    pub fn add_nodes(&mut self, count: usize)
        requires
            old(self).stats_spec().nodes_added + count <= usize::MAX,
        ensures
            final(self).stats_spec() == (SessionStats {
                nodes_added: (old(self).stats_spec().nodes_added + count) as usize,
                ..old(self).stats_spec()
            }),
            final(self).log_path_spec() == old(self).log_path_spec(),
    {
        self.stats.nodes_added = self.stats.nodes_added + count;
    }

    /// Counts a change of constraints.
    pub fn add_constraint_change(&mut self)
        requires
            old(self).stats_spec().constraints_changed < usize::MAX,
        ensures
            final(self).stats_spec() == (SessionStats {
                constraints_changed: (old(self).stats_spec().constraints_changed + 1) as usize,
                ..old(self).stats_spec()
            }),
            final(self).log_path_spec() == old(self).log_path_spec(),
    {
        self.stats.constraints_changed = self.stats.constraints_changed + 1;
    }

    /// Counts a change of phase.
    pub fn add_phase_transition(&mut self)
        requires
            old(self).stats_spec().phase_transitions < usize::MAX,
        ensures
            final(self).stats_spec() == (SessionStats {
                phase_transitions: (old(self).stats_spec().phase_transitions + 1) as usize,
                ..old(self).stats_spec()
            }),
            final(self).log_path_spec() == old(self).log_path_spec(),
    {
        self.stats.phase_transitions = self.stats.phase_transitions + 1;
    }

    /// Counts a question.
    pub fn add_question(&mut self)
        requires
            old(self).stats_spec().questions_asked < usize::MAX,
        ensures
            final(self).stats_spec() == (SessionStats {
                questions_asked: (old(self).stats_spec().questions_asked + 1) as usize,
                ..old(self).stats_spec()
            }),
            final(self).log_path_spec() == old(self).log_path_spec(),
    {
        self.stats.questions_asked = self.stats.questions_asked + 1;
    }

    /// Records the state at the end.
    pub fn set_final_state(&mut self, node_count: usize, edge_count: usize, complexity: u128, phase: &str)
        ensures
            final(self).stats_spec().final_node_count == node_count,
            final(self).stats_spec().final_edge_count == edge_count,
            final(self).stats_spec().final_complexity == complexity,
            final(self).stats_spec().final_phase@ == phase@,
            final(self).stats_spec().topic == old(self).stats_spec().topic,
            final(self).stats_spec().total_rounds == old(self).stats_spec().total_rounds,
            final(self).stats_spec().nodes_added == old(self).stats_spec().nodes_added,
            final(self).stats_spec().constraints_changed == old(self).stats_spec().constraints_changed,
            final(self).stats_spec().phase_transitions == old(self).stats_spec().phase_transitions,
            final(self).stats_spec().questions_asked == old(self).stats_spec().questions_asked,
            final(self).log_path_spec() == old(self).log_path_spec(),
    {
        self.stats.final_node_count = node_count;
        self.stats.final_edge_count = edge_count;
        self.stats.final_complexity = complexity;
        self.stats.final_phase = String::from_str(phase);
    }

    /// The summary's Markdown, written at the given time (see
    /// `summary_markdown`).
    pub fn summary_at(&self, time: &str) -> (s: String)
        ensures
            s@ == summary_markdown(self.stats_spec(), time@),
    {
        let st = &self.stats;
        let mut out = String::from_str("# Session 摘要\n\n");
        push_str(&mut out, "**時間：** ");
        push_str(&mut out, time);
        push_str(&mut out, "\n");
        push_str(&mut out, "\n");
        push_str(&mut out, "---\n\n");
        push_str(&mut out, "## 基本資訊\n\n");
        push_str(&mut out, "- **討論主題：** ");
        push_str(&mut out, st.topic.as_str());
        push_str(&mut out, "\n");
        push_str(&mut out, "- **總回合數：** ");
        push_decimal(&mut out, st.total_rounds as u64);
        push_str(&mut out, "\n");
        push_str(&mut out, "- **新增節點數：** ");
        push_decimal(&mut out, st.nodes_added as u64);
        push_str(&mut out, "\n");
        push_str(&mut out, "- **約束變化次數：** ");
        push_decimal(&mut out, st.constraints_changed as u64);
        push_str(&mut out, "\n");
        push_str(&mut out, "- **階段轉換次數：** ");
        push_decimal(&mut out, st.phase_transitions as u64);
        push_str(&mut out, "\n");
        push_str(&mut out, "- **提問總數（估算）：** ");
        push_decimal(&mut out, st.questions_asked as u64);
        push_str(&mut out, "\n");
        push_str(&mut out, "\n");
        assert(out@ =~= summary_head(*st, time@));
        let ghost head = out@;
        push_summary_tail(&mut out, st);
        assert(out@ =~= summary_markdown(*st, time@));
        out
    }

    /// The summary's Markdown, written now (the local time in
    /// `%Y-%m-%d %H:%M:%S`).
    pub fn summary(&self) -> (s: String)
        ensures
            exists|time: Seq<char>| s@ == summary_markdown(self.stats_spec(), time),
    {
        let now = Timestamp::now();
        self.summary_at(now.date_time.as_str())
    }

    /// The counts.
    pub fn stats(&self) -> (s: &SessionStats)
        ensures
            *s == self.stats_spec(),
    {
        &self.stats
    }

    /// The file of the summary.
    pub fn log_path(&self) -> (p: &std::path::PathBuf)
        ensures
            *p == self.log_path_spec(),
    {
        &self.log_path
    }
}

/// Questions per round in tenths (see `density_tenths`).
fn density(q: usize, r: usize) -> (t: u128)
    ensures
        t == density_tenths(q as nat, r as nat),
{
    if r == 0 {
        0
    } else {
        let qq = q as u128;
        let rr = r as u128;
        assert(qq * 20 + rr <= 0xffff_ffff_ffff_ffff * 21) by (nonlinear_arith)
            requires
                qq <= 0xffff_ffff_ffff_ffff,
                rr <= 0xffff_ffff_ffff_ffff,
        ;
        (qq * 20 + rr) / (rr * 2)
    }
}

/// Appends the second part of a summary.
fn push_summary_tail(out: &mut String, st: &SessionStats)
    ensures
        final(out)@ == old(out)@ + summary_tail(*st),
{
    push_str(out, "## 最終狀態\n\n");
    push_str(out, "- **節點數：** ");
    push_decimal(out, st.final_node_count as u64);
    push_str(out, "\n");
    push_str(out, "- **邊數：** ");
    push_decimal(out, st.final_edge_count as u64);
    push_str(out, "\n");
    push_str(out, "- **總複雜度：** ");
    push_fixed2(out, st.final_complexity);
    push_str(out, "\n");
    push_str(out, "- **最終階段：** ");
    push_str(out, st.final_phase.as_str());
    push_str(out, "\n");
    push_str(out, "\n");
    assert(out@ =~= old(out)@ + summary_final(*st));
    let ghost mid = out@;
    push_summary_questions(out, st);
    assert(out@ =~= old(out)@ + summary_tail(*st));
}

/// Appends the questions part of a summary.
fn push_summary_questions(out: &mut String, st: &SessionStats)
    ensures
        final(out)@ == old(out)@ + summary_questions(*st),
{
    push_str(out, "## 提問習慣分析\n\n");
    push_str(out, "- **平均每回合提問數：** ");
    let t = density(st.questions_asked, st.total_rounds);
    push_decimal_wide(out, t / 10);
    out.push('.');
    out.push(digit_char_exec(t % 10));
    push_str(out, "\n");
    push_str(out, "- **提問密度評估：** ");
    let q = st.questions_asked as u128;
    let r = st.total_rounds as u128;
    if r > 0 && q >= r {
        push_str(out, "高（符合探索期特徵）");
    } else if r > 0 && q * 2 >= r {
        push_str(out, "中（正常對話）");
    } else {
        push_str(out, "低（可能進入成熟期）");
    }
    push_str(out, "\n");
    push_str(out, "\n");
    push_str(out, "---\n\n");
    push_str(out, "*此摘要由 Evolution Reasoning Tool v0.6 自動產生*\n\n");
    assert(out@ =~= old(out)@ + summary_questions(*st));
}

} // verus!
