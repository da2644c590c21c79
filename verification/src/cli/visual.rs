//! Coloured terminal output with ANSI escape codes.
use vstd::prelude::*;

use crate::controller::gemma_controller::{question_phase_name, QuestionPhase};
use crate::engine::backtrack::take_chars_string;
use crate::fixed::{fixed2, push_fixed2};
use crate::models::graph::{
    as_question_phase, children_of, derefs, is_live_node, is_root_node, lemma_reach_count_bounds, lemma_unique_index_topic,
    reach_count, topic_phase_for_count, Graph, Topic, TopicPhase,
};
use crate::models::node::{Node, NodeStatus};
use crate::text::{decimal, push_decimal, push_str, take_chars};

verus! {

/// ANSI colours.
#[derive(Debug, Clone, Copy, PartialEq, Eq, Structural)]
pub enum Color {
    /// White (the default).
    White,
    /// Black.
    Black,
    /// Red.
    Red,
    /// Green.
    Green,
    /// Yellow.
    Yellow,
    /// Blue.
    Blue,
    /// Magenta.
    Magenta,
    /// Cyan.
    Cyan,
    /// Dark grey.
    DarkGray,
    /// Light grey.
    LightGray,
}

/// ANSI text styles.
#[derive(Debug, Clone, Copy, PartialEq, Eq, Structural)]
pub enum Style {
    /// Plain.
    Normal,
    /// Bold.
    Bold,
    /// Dim.
    Dim,
}

/// The foreground code of each colour.
pub open spec fn fg_code_spec(c: Color) -> Seq<char> {
    match c {
        Color::Black => "30"@,
        Color::Red => "31"@,
        Color::Green => "32"@,
        Color::Yellow => "33"@,
        Color::Blue => "34"@,
        Color::Magenta => "35"@,
        Color::Cyan => "36"@,
        Color::White => "37"@,
        Color::DarkGray => "90"@,
        Color::LightGray => "97"@,
    }
}

/// The background code of each colour.
pub open spec fn bg_code_spec(c: Color) -> Seq<char> {
    match c {
        Color::Black => "40"@,
        Color::Red => "41"@,
        Color::Green => "42"@,
        Color::Yellow => "43"@,
        Color::Blue => "44"@,
        Color::Magenta => "45"@,
        Color::Cyan => "46"@,
        Color::White => "47"@,
        Color::DarkGray => "100"@,
        Color::LightGray => "107"@,
    }
}

/// The SGR attribute code of each style: 0 normal, 1 bold, 2 dim.
pub open spec fn style_code_spec(s: Style) -> Seq<char> {
    match s {
        Style::Normal => "0"@,
        Style::Bold => "1"@,
        Style::Dim => "2"@,
    }
}

/// The escape sequence that starts a code.
pub open spec fn ansi_prefix() -> Seq<char> {
    "\x1b["@
}

/// The escape sequence that resets all attributes.
pub open spec fn ansi_reset() -> Seq<char> {
    "\x1b[0m"@
}

/// Text wrapped in the escape codes of a colour and style: the prefix, the
/// style's code, `;`, the colour's code, `m`, the text and the reset
/// sequence.
pub open spec fn ansi_spec(color: Color, style: Style, text: Seq<char>) -> Seq<char> {
    ansi_prefix() + style_code_spec(style) + ";"@ + fg_code_spec(color) + "m"@ + text + ansi_reset()
}

impl Color {
    /// The foreground code.
    pub fn fg_code(&self) -> (s: &'static str)
        ensures
            s@ == fg_code_spec(*self),
    {
        match self {
            Color::Black => "30",
            Color::Red => "31",
            Color::Green => "32",
            Color::Yellow => "33",
            Color::Blue => "34",
            Color::Magenta => "35",
            Color::Cyan => "36",
            Color::White => "37",
            Color::DarkGray => "90",
            Color::LightGray => "97",
        }
    }

    /// The background code.
    pub fn bg_code(&self) -> (s: &'static str)
        ensures
            s@ == bg_code_spec(*self),
    {
        match self {
            Color::Black => "40",
            Color::Red => "41",
            Color::Green => "42",
            Color::Yellow => "43",
            Color::Blue => "44",
            Color::Magenta => "45",
            Color::Cyan => "46",
            Color::White => "47",
            Color::DarkGray => "100",
            Color::LightGray => "107",
        }
    }
}

/// The style's attribute code.
fn style_code(style: Style) -> (s: &'static str)
    ensures
        s@ == style_code_spec(style),
{
    match style {
        Style::Normal => "0",
        Style::Bold => "1",
        Style::Dim => "2",
    }
}

/// Wraps text in the escape codes of a colour and style.
pub fn ansi_str(color: Color, style: Style, text: &str) -> (s: String)
    ensures
        s@ == ansi_spec(color, style, text@),
{
    let mut s = String::new();
    push_str(&mut s, "\x1b[");
    push_str(&mut s, style_code(style));
    push_str(&mut s, ";");
    push_str(&mut s, color.fg_code());
    push_str(&mut s, "m");
    push_str(&mut s, text);
    push_str(&mut s, "\x1b[0m");
    assert(s@ =~= ansi_spec(color, style, text@));
    s
}

/// The colour of each question phase.
pub open spec fn phase_color_spec(p: QuestionPhase) -> Color {
    match p {
        QuestionPhase::Exploration => Color::White,
        QuestionPhase::Development => Color::Cyan,
        QuestionPhase::Mature => Color::Magenta,
    }
}

/// The colour of a question phase.
pub fn get_phase_color(phase: QuestionPhase) -> (c: Color)
    ensures
        c == phase_color_spec(phase),
{
    match phase {
        QuestionPhase::Exploration => Color::White,
        QuestionPhase::Development => Color::Cyan,
        QuestionPhase::Mature => Color::Magenta,
    }
}

/// The name of a question phase.
pub fn get_phase_name(phase: QuestionPhase) -> (s: &'static str)
    ensures
        s@ == question_phase_name(phase),
{
    phase.name()
}

/// A panel that renders text for the terminal, with or without colour.
#[derive(Debug, Clone, Copy)]
pub struct VisualPanel {
    /// Whether colour codes are written.
    pub colored: bool,
}

impl Default for VisualPanel {
    fn default() -> (p: Self)
        ensures
            p.colored,
    {
        Self::new()
    }
}

impl VisualPanel {
    /// A panel that writes colour.
    pub fn new() -> (p: Self)
        ensures
            p.colored,
    {
        VisualPanel { colored: true }
    }

    /// A panel that writes plain text.
    pub fn no_color() -> (p: Self)
        ensures
            !p.colored,
    {
        VisualPanel { colored: false }
    }

    /// Turns colour on or off.
    pub fn set_color(&mut self, enabled: bool)
        ensures
            final(self).colored == enabled,
    {
        self.colored = enabled;
    }

    /// The text, wrapped in colour codes when the panel writes colour.
    pub fn format(&self, color: Color, style: Style, text: &str) -> (s: String)
        ensures
            s@ == (if self.colored {
                ansi_spec(color, style, text@)
            } else {
                text@
            }),
    {
        if self.colored {
            ansi_str(color, style, text)
        } else {
            String::from_str(text)
        }
    }
}

/// What `VisualPanel::format` gives: the text, in colour where the panel
/// writes colour.
pub open spec fn paint(p: VisualPanel, color: Color, style: Style, text: Seq<char>) -> Seq<char> {
    if p.colored {
        ansi_spec(color, style, text)
    } else {
        text
    }
}

/// A character `n` times.
pub open spec fn rule(c: char, n: nat) -> Seq<char> {
    Seq::new(n, |i: int| c)
}

/// The colour of a node: blue when locked, else green above a confidence
/// of 0.8, yellow from 0.5, red below.
pub open spec fn node_color(n: Node) -> Color {
    if n.status == NodeStatus::Locked {
        Color::Blue
    } else if n.confidence > 800 {
        Color::Green
    } else if n.confidence >= 500 {
        Color::Yellow
    } else {
        Color::Red
    }
}

/// The coloured marker of a status.
pub open spec fn status_marker(p: VisualPanel, s: NodeStatus) -> Seq<char> {
    match s {
        NodeStatus::Draft => paint(p, Color::DarkGray, Style::Normal, "[草]"@),
        NodeStatus::Active => paint(p, Color::White, Style::Normal, "[活]"@),
        NodeStatus::Pruned => paint(p, Color::Red, Style::Dim, "[刪]"@),
        NodeStatus::Locked => paint(p, Color::Blue, Style::Bold, "[鎖]"@),
        NodeStatus::Failed => paint(p, Color::Red, Style::Bold, "[敗]"@),
    }
}

/// The coloured marker of a phase.
pub open spec fn phase_marker(p: VisualPanel, q: QuestionPhase) -> Seq<char> {
    match q {
        QuestionPhase::Exploration => paint(p, Color::White, Style::Dim, "[探索]"@),
        QuestionPhase::Development => paint(p, Color::Cyan, Style::Dim, "[發展]"@),
        QuestionPhase::Mature => paint(p, Color::Magenta, Style::Dim, "[成熟]"@),
    }
}

/// The colour of a confidence: green above 0.8, yellow from 0.5, red below.
pub open spec fn confidence_color(c: u32) -> Color {
    if c > 800 {
        Color::Green
    } else if c >= 500 {
        Color::Yellow
    } else {
        Color::Red
    }
}

/// The line of a node: phase and status markers, its first 40 characters,
/// its confidence and weight (two decimals), and a lock when locked.
pub open spec fn node_text(p: VisualPanel, n: Node, q: QuestionPhase) -> Seq<char> {
    let preview = take_chars(n.content@, 40);
    phase_marker(p, q) + " "@ + status_marker(p, n.status) + " "@ + (if n.status == NodeStatus::Locked {
        paint(p, Color::Blue, Style::Bold, preview)
    } else {
        paint(p, node_color(n), Style::Normal, preview)
    }) + " conf:"@ + paint(p, confidence_color(n.confidence), Style::Normal, fixed2(n.confidence as nat))
        + " weight:"@ + fixed2(n.weight as nat) + " "@ + (if n.status == NodeStatus::Locked {
        paint(p, Color::Blue, Style::Bold, "🔒"@)
    } else {
        Seq::empty()
    })
}

/// The legend.
pub open spec fn legend_text(p: VisualPanel) -> Seq<char> {
    paint(p, Color::DarkGray, Style::Normal, rule('─', 50)) + "\n"@ + paint(p, Color::White, Style::Dim, "圖例："@)
        + "\n"@ + "  "@ + paint(p, Color::Blue, Style::Bold, "[鎖]"@) + " "@ + paint(
        p,
        Color::DarkGray,
        Style::Normal,
        "鎖定節點"@,
    ) + "\n"@ + legend_confidence(p) + legend_phases(p)
}

/// The legend's lines on confidence.
pub open spec fn legend_confidence(p: VisualPanel) -> Seq<char> {
    "  "@ + paint(p, Color::Green, Style::Normal, "conf > 0.8"@) + " "@ + paint(p, Color::DarkGray, Style::Normal, "="@)
        + " "@ + paint(p, Color::Green, Style::Normal, "高信心"@) + " "@ + paint(
        p,
        Color::Yellow,
        Style::Normal,
        "0.5-0.8"@,
    ) + " "@ + paint(p, Color::DarkGray, Style::Normal, "中"@) + "\n"@ + "  "@ + paint(
        p,
        Color::Red,
        Style::Normal,
        "conf < 0.5"@,
    ) + " "@ + paint(p, Color::DarkGray, Style::Normal, "低信心"@) + "\n"@
}

/// The legend's line on phases.
pub open spec fn legend_phases(p: VisualPanel) -> Seq<char> {
    "  "@ + paint(p, Color::White, Style::Dim, "[探索]"@) + " "@ + paint(p, Color::DarkGray, Style::Normal, "探索期"@)
        + "  "@ + paint(p, Color::Cyan, Style::Dim, "[發展]"@) + " "@ + paint(
        p,
        Color::DarkGray,
        Style::Normal,
        "發展期"@,
    ) + "  "@ + paint(p, Color::Magenta, Style::Dim, "[成熟]"@) + " "@ + paint(
        p,
        Color::DarkGray,
        Style::Normal,
        "成熟期"@,
    ) + "\n"@
}

/// The average confidence of the nodes not pruned, in hundredths, the last
/// place rounded half up; none without such nodes.
pub open spec fn average_confidence(ns: Seq<Node>) -> nat {
    let live = ns.filter(is_live_node());
    if live.len() == 0 {
        0
    } else {
        (confidence_sum(live) * 2 + 10 * live.len()) / (20 * live.len())
    }
}

/// The confidences of nodes, added up.
pub open spec fn confidence_sum(ns: Seq<Node>) -> nat
    decreases ns.len(),
{
    if ns.len() == 0 {
        0
    } else {
        confidence_sum(ns.drop_last()) + ns.last().confidence as nat
    }
}

/// A value in hundredths with two decimals.
pub open spec fn hundredths_text(v: nat) -> Seq<char> {
    decimal(v / 100) + seq!['.', crate::text::digit_char((v / 10) % 10), crate::text::digit_char(v % 10)]
}

/// The status bar: phase, node count, locked count and the average
/// confidence.
pub open spec fn status_bar_text(p: VisualPanel, g: Graph, q: QuestionPhase) -> Seq<char> {
    "  "@ + paint(p, phase_color_spec(q), Style::Bold, "[階段]"@) + " "@ + paint(
        p,
        Color::White,
        Style::Normal,
        question_phase_name(q),
    ) + " | "@ + "節點:"@ + decimal(g.nodes@.filter(is_live_node()).len()) + " "@ + "鎖定:"@ + decimal(
        g.nodes@.filter(|n: Node| n.status == NodeStatus::Locked).len(),
    ) + " "@ + "平均信心:"@ + hundredths_text(average_confidence(g.nodes@)) + "\n"@
}

/// The numbered lines of constraints from index `i` on.
pub open spec fn constraint_lines(p: VisualPanel, cs: Seq<String>, i: int) -> Seq<char>
    decreases cs.len() - i,
{
    if i < 0 || i >= cs.len() {
        Seq::empty()
    } else {
        "  "@ + paint(p, Color::Yellow, Style::Normal, "["@ + decimal((i + 1) as nat) + "]"@) + " "@ + cs[i]@ + "\n"@
            + constraint_lines(p, cs, i + 1)
    }
}

/// The list of constraints.
pub open spec fn constraints_text(p: VisualPanel, cs: Seq<String>) -> Seq<char> {
    if cs.len() == 0 {
        paint(p, Color::DarkGray, Style::Normal, "（無約束條件）"@) + "\n"@
    } else {
        paint(p, Color::White, Style::Bold, "約束條件："@) + "\n"@ + constraint_lines(p, cs, 0)
    }
}

/// A character `n` times, as text.
pub fn rule_text(c: char, n: usize) -> (s: String)
    ensures
        s@ == rule(c, n as nat),
{
    let mut s = String::new();
    let mut i: usize = 0;
    while i < n
        invariant
            i <= n,
            s@ == rule(c, i as nat),
        decreases n - i,
    {
        s.push(c);
        assert(s@ =~= rule(c, (i + 1) as nat));
        i = i + 1;
    }
    s
}

impl VisualPanel {
    /// Appends text in colour where the panel writes colour.
    fn paint_into(&self, out: &mut String, color: Color, style: Style, text: &str)
        ensures
            final(out)@ == old(out)@ + paint(*self, color, style, text@),
    {
        let t = self.format(color, style, text);
        push_str(out, t.as_str());
    }

    /// The line of a node (see `node_text`).
    pub fn format_node(&self, node: &Node, phase: QuestionPhase) -> (s: String)
        ensures
            s@ == node_text(*self, *node, phase),
    {
        let mut out = String::new();
        match phase {
            QuestionPhase::Exploration => self.paint_into(&mut out, Color::White, Style::Dim, "[探索]"),
            QuestionPhase::Development => self.paint_into(&mut out, Color::Cyan, Style::Dim, "[發展]"),
            QuestionPhase::Mature => self.paint_into(&mut out, Color::Magenta, Style::Dim, "[成熟]"),
        }
        push_str(&mut out, " ");
        match node.status {
            NodeStatus::Draft => self.paint_into(&mut out, Color::DarkGray, Style::Normal, "[草]"),
            NodeStatus::Active => self.paint_into(&mut out, Color::White, Style::Normal, "[活]"),
            NodeStatus::Pruned => self.paint_into(&mut out, Color::Red, Style::Dim, "[刪]"),
            NodeStatus::Locked => self.paint_into(&mut out, Color::Blue, Style::Bold, "[鎖]"),
            NodeStatus::Failed => self.paint_into(&mut out, Color::Red, Style::Bold, "[敗]"),
        }
        push_str(&mut out, " ");
        let preview = take_chars_string(node.content.as_str(), 40);
        let locked = node.status == NodeStatus::Locked;
        let color = if locked {
            Color::Blue
        } else if node.confidence > 800 {
            Color::Green
        } else if node.confidence >= 500 {
            Color::Yellow
        } else {
            Color::Red
        };
        if locked {
            self.paint_into(&mut out, Color::Blue, Style::Bold, preview.as_str());
        } else {
            self.paint_into(&mut out, color, Style::Normal, preview.as_str());
        }
        push_str(&mut out, " conf:");
        let mut conf = String::new();
        push_fixed2(&mut conf, node.confidence as u128);
        let cc = if node.confidence > 800 {
            Color::Green
        } else if node.confidence >= 500 {
            Color::Yellow
        } else {
            Color::Red
        };
        self.paint_into(&mut out, cc, Style::Normal, conf.as_str());
        push_str(&mut out, " weight:");
        push_fixed2(&mut out, node.weight as u128);
        push_str(&mut out, " ");
        if locked {
            self.paint_into(&mut out, Color::Blue, Style::Bold, "🔒");
        }
        assert(out@ =~= node_text(*self, *node, phase));
        out
    }

    /// The legend (see `legend_text`).
    pub fn display_legend(&self) -> (s: String)
        ensures
            s@ == legend_text(*self),
    {
        let mut out = String::new();
        let line = rule_text('─', 50);
        self.paint_into(&mut out, Color::DarkGray, Style::Normal, line.as_str());
        push_str(&mut out, "\n");
        self.paint_into(&mut out, Color::White, Style::Dim, "圖例：");
        push_str(&mut out, "\n");
        push_str(&mut out, "  ");
        self.paint_into(&mut out, Color::Blue, Style::Bold, "[鎖]");
        push_str(&mut out, " ");
        self.paint_into(&mut out, Color::DarkGray, Style::Normal, "鎖定節點");
        push_str(&mut out, "\n");
        let ghost mid = out@;
        self.push_legend_confidence(&mut out);
        self.push_legend_phases(&mut out);
        assert(out@ =~= legend_text(*self));
        out
    }

    /// Appends the legend's lines on confidence.
    fn push_legend_confidence(&self, out: &mut String)
        ensures
            final(out)@ == old(out)@ + legend_confidence(*self),
    {
        push_str(out, "  ");
        self.paint_into(out, Color::Green, Style::Normal, "conf > 0.8");
        push_str(out, " ");
        self.paint_into(out, Color::DarkGray, Style::Normal, "=");
        push_str(out, " ");
        self.paint_into(out, Color::Green, Style::Normal, "高信心");
        push_str(out, " ");
        self.paint_into(out, Color::Yellow, Style::Normal, "0.5-0.8");
        push_str(out, " ");
        self.paint_into(out, Color::DarkGray, Style::Normal, "中");
        push_str(out, "\n");
        push_str(out, "  ");
        self.paint_into(out, Color::Red, Style::Normal, "conf < 0.5");
        push_str(out, " ");
        self.paint_into(out, Color::DarkGray, Style::Normal, "低信心");
        push_str(out, "\n");
        assert(out@ =~= old(out)@ + legend_confidence(*self));
    }

    /// Appends the legend's line on phases.
    fn push_legend_phases(&self, out: &mut String)
        ensures
            final(out)@ == old(out)@ + legend_phases(*self),
    {
        push_str(out, "  ");
        self.paint_into(out, Color::White, Style::Dim, "[探索]");
        push_str(out, " ");
        self.paint_into(out, Color::DarkGray, Style::Normal, "探索期");
        push_str(out, "  ");
        self.paint_into(out, Color::Cyan, Style::Dim, "[發展]");
        push_str(out, " ");
        self.paint_into(out, Color::DarkGray, Style::Normal, "發展期");
        push_str(out, "  ");
        self.paint_into(out, Color::Magenta, Style::Dim, "[成熟]");
        push_str(out, " ");
        self.paint_into(out, Color::DarkGray, Style::Normal, "成熟期");
        push_str(out, "\n");
        assert(out@ =~= old(out)@ + legend_phases(*self));
    }

    /// The list of constraints (see `constraints_text`).
    pub fn display_constraints(&self, constraints: &[String]) -> (s: String)
        ensures
            s@ == constraints_text(*self, constraints@),
    {
        let mut out = String::new();
        if constraints.len() == 0 {
            self.paint_into(&mut out, Color::DarkGray, Style::Normal, "（無約束條件）");
            push_str(&mut out, "\n");
            assert(out@ =~= constraints_text(*self, constraints@));
            return out;
        }
        self.paint_into(&mut out, Color::White, Style::Bold, "約束條件：");
        push_str(&mut out, "\n");
        let ghost start = out@;
        let mut i: usize = 0;
        while i < constraints.len()
            invariant
                i <= constraints@.len(),
                out@ + constraint_lines(*self, constraints@, i as int) == start + constraint_lines(*self, constraints@, 0),
            decreases constraints.len() - i,
        {
            let ghost before = out@;
            push_str(&mut out, "  ");
            let mut label = String::from_str("[");
            push_decimal(&mut label, (i + 1) as u64);
            push_str(&mut label, "]");
            self.paint_into(&mut out, Color::Yellow, Style::Normal, label.as_str());
            push_str(&mut out, " ");
            push_str(&mut out, constraints[i].as_str());
            push_str(&mut out, "\n");
            assert(out@ + constraint_lines(*self, constraints@, i + 1) =~= before + constraint_lines(
                *self,
                constraints@,
                i as int,
            ));
            i = i + 1;
        }
        assert(out@ =~= start + constraint_lines(*self, constraints@, 0));
        assert(out@ =~= constraints_text(*self, constraints@));
        out
    }
}

/// The branch drawn before a node at a depth: nothing at the root, else
/// indentation and a corner (`└─` for the last child, `├─` otherwise).
pub open spec fn tree_prefix(depth: nat, is_last: bool) -> Seq<char> {
    if depth == 0 {
        Seq::empty()
    } else if is_last {
        repeat_text("  "@, (depth - 1) as nat) + "└─"@
    } else {
        repeat_text("│ "@, (depth - 1) as nat) + "├─"@
    }
}

/// A text `n` times.
pub open spec fn repeat_text(t: Seq<char>, n: nat) -> Seq<char>
    decreases n,
{
    if n == 0 {
        Seq::empty()
    } else {
        repeat_text(t, (n - 1) as nat) + t
    }
}

/// The lines of a node and, going `fuel` levels down, of its children.
pub open spec fn tree_lines(p: VisualPanel, g: Graph, n: Node, depth: nat, is_last: bool, q: QuestionPhase, fuel: nat) -> Seq<
    char,
>
    decreases fuel, 0nat, 0nat,
{
    tree_prefix(depth, is_last) + node_text(p, n, q) + "\n"@ + if fuel == 0 {
        Seq::empty()
    } else {
        child_lines(p, g, children_of(g, n.id@), 0, depth + 1, q, (fuel - 1) as nat)
    }
}

/// The lines of the children from index `i` on, the last marked so.
pub open spec fn child_lines(
    p: VisualPanel,
    g: Graph,
    cs: Seq<Node>,
    i: int,
    depth: nat,
    q: QuestionPhase,
    fuel: nat,
) -> Seq<char>
    decreases fuel, 1nat, cs.len() - i,
{
    if i < 0 || i >= cs.len() {
        Seq::empty()
    } else {
        tree_lines(p, g, cs[i], depth, i == cs.len() - 1, q, fuel) + child_lines(p, g, cs, i + 1, depth, q, fuel)
    }
}

/// A bold white rule of `n` characters `c`, and a line break.
pub open spec fn rule_line(p: VisualPanel, c: char, n: nat) -> Seq<char> {
    paint(p, Color::White, Style::Bold, rule(c, n)) + "\n"@
}

/// The header of the graph view.
pub open spec fn graph_header(p: VisualPanel, q: QuestionPhase, count: nat) -> Seq<char> {
    rule_line(p, '═', 50) + "  "@ + paint(p, phase_color_spec(q), Style::Bold, "[階段]"@) + " "@ + paint(
        p,
        Color::White,
        Style::Normal,
        question_phase_name(q),
    ) + " | 節點數: "@ + decimal(count) + "\n"@ + rule_line(p, '═', 50)
}

/// The trees of a list of roots, each drawn as a last child.
pub open spec fn root_trees(p: VisualPanel, g: Graph, rs: Seq<Node>, i: int, q: QuestionPhase) -> Seq<char>
    decreases rs.len() - i,
{
    if i < 0 || i >= rs.len() {
        Seq::empty()
    } else {
        tree_lines(p, g, rs[i], 0, true, q, g.nodes@.len() as nat) + root_trees(p, g, rs, i + 1, q)
    }
}

/// The graph view: every node without incoming edges with its children
/// below it, as many levels down as the graph has nodes; a note for a
/// graph without such nodes.
pub open spec fn graph_view_text(p: VisualPanel, g: Graph, q: QuestionPhase) -> Seq<char> {
    let rs = g.nodes@.filter(is_root_node());
    if rs.len() == 0 {
        paint(p, Color::Yellow, Style::Normal, "（圖是空的）"@) + "\n"@
    } else {
        "\n"@ + graph_header(p, q, g.nodes@.filter(is_live_node()).len()) + "\n"@ + root_trees(p, g, rs, 0, q)
            + "\n"@ + legend_text(p)
    }
}

/// The colour of a topic phase.
pub open spec fn topic_color(t: TopicPhase) -> Color {
    phase_color_spec(as_question_phase(t))
}

/// The node count of a topic (as many levels down as the graph has nodes).
pub open spec fn topic_count(g: Graph, t: Topic) -> int {
    reach_count(g, t.root_node_id@, g.nodes@.len() as nat)
}

/// The phase of a topic.
pub open spec fn topic_phase(g: Graph, t: Topic) -> TopicPhase {
    topic_phase_for_count(topic_count(g, t) as nat)
}

/// The title line of a topic: marked when current, with its phase and
/// node count.
pub open spec fn topic_title_line(p: VisualPanel, g: Graph, t: Topic) -> Seq<char> {
    let current = match g.current_topic_id {
        Some(c) => c@ == t.id@,
        None => false,
    };
    (if current {
        paint(p, Color::Green, Style::Bold, " ▶ "@)
    } else {
        "   "@
    }) + " "@ + paint(p, Color::Yellow, Style::Bold, "主題："@ + t.title@) + " "@ + paint(
        p,
        topic_color(topic_phase(g, t)),
        Style::Dim,
        "("@ + question_phase_name(as_question_phase(topic_phase(g, t))) + ")"@,
    ) + " "@ + paint(p, Color::DarkGray, Style::Normal, "• "@ + decimal(topic_count(g, t) as nat) + " 節點"@) + "\n"@
}

/// The tree of a topic's root, where the root is there.
pub open spec fn topic_tree_text(p: VisualPanel, g: Graph, t: Topic) -> Seq<char> {
    if g.has_node(t.root_node_id@) {
        tree_lines(
            p,
            g,
            g.node_of(t.root_node_id@),
            0,
            true,
            as_question_phase(topic_phase(g, t)),
            g.nodes@.len() as nat,
        )
    } else {
        Seq::empty()
    }
}

/// The block of one topic: a rule, its title line and its root's tree.
pub open spec fn topic_block_text(p: VisualPanel, g: Graph, t: Topic) -> Seq<char> {
    paint(p, Color::White, Style::Bold, rule('─', 40)) + "\n"@ + topic_title_line(p, g, t) + topic_tree_text(p, g, t)
        + "\n"@
}

/// The blocks of the topics from index `i` on.
pub open spec fn topic_blocks_text(p: VisualPanel, g: Graph, ts: Seq<Topic>, i: int) -> Seq<char>
    decreases ts.len() - i,
{
    if i < 0 || i >= ts.len() {
        Seq::empty()
    } else {
        topic_block_text(p, g, ts[i]) + topic_blocks_text(p, g, ts, i + 1)
    }
}

/// The view of every topic; a note without topics.
pub open spec fn multi_topic_text(p: VisualPanel, g: Graph) -> Seq<char> {
    if g.topics@.len() == 0 {
        paint(p, Color::Yellow, Style::Normal, "（尚無主題）\n"@) + "\n"@
    } else {
        "\n"@ + rule_line(p, '═', 50) + "  "@ + paint(p, Color::Cyan, Style::Bold, "[階段]"@) + " 多主題視圖 | 主題數: "@
            + decimal(g.topics@.len()) + "\n"@ + rule_line(p, '═', 50) + "\n"@ + topic_blocks_text(
            p,
            g,
            g.topics@,
            0,
        ) + rule_line(p, '═', 50) + legend_text(p)
    }
}

/// Appends the branch drawn before a node (see `tree_prefix`).
pub(crate) fn push_prefix(out: &mut String, depth: usize, is_last: bool)
    ensures
        final(out)@ == old(out)@ + tree_prefix(depth as nat, is_last),
{
    if depth > 0 {
        if is_last {
            push_repeat(out, "  ", depth - 1);
            push_str(out, "└─");
        } else {
            push_repeat(out, "│ ", depth - 1);
            push_str(out, "├─");
        }
    }
    assert(out@ =~= old(out)@ + tree_prefix(depth as nat, is_last));
}

/// A text `n` times, appended.
fn push_repeat(out: &mut String, t: &str, n: usize)
    ensures
        final(out)@ == old(out)@ + repeat_text(t@, n as nat),
{
    let mut i: usize = 0;
    while i < n
        invariant
            i <= n,
            out@ == old(out)@ + repeat_text(t@, i as nat),
        decreases n - i,
    {
        push_str(out, t);
        assert(out@ =~= old(out)@ + repeat_text(t@, (i + 1) as nat));
        i = i + 1;
    }
}

impl VisualPanel {
    /// Appends a bold white rule and a line break.
    fn push_rule_line(&self, out: &mut String, c: char, n: usize)
        ensures
            final(out)@ == old(out)@ + rule_line(*self, c, n as nat),
    {
        let line = rule_text(c, n);
        self.paint_into(out, Color::White, Style::Bold, line.as_str());
        push_str(out, "\n");
    }

    /// Appends the lines of a node and its children (see `tree_lines`).
    fn push_tree(
        &self,
        out: &mut String,
        graph: &Graph,
        node: &Node,
        depth: usize,
        is_last: bool,
        phase: QuestionPhase,
        fuel: usize,
    )
        requires
            graph.wf(),
            depth + fuel <= usize::MAX,
        ensures
            final(out)@ == old(out)@ + tree_lines(*self, *graph, *node, depth as nat, is_last, phase, fuel as nat),
        decreases fuel, 0nat,
    {
        push_prefix(out, depth, is_last);
        let line = self.format_node(node, phase);
        push_str(out, line.as_str());
        push_str(out, "\n");
        let ghost head = out@;
        if fuel > 0 {
            let cs = graph.get_children(node.id.as_str());
            assert(derefs(cs@) == children_of(*graph, node.id@));
            self.push_children(out, graph, &cs, depth + 1, phase, fuel - 1);
        }
        assert(out@ =~= old(out)@ + tree_lines(*self, *graph, *node, depth as nat, is_last, phase, fuel as nat));
    }

    /// Appends the lines of children (see `child_lines`).
    fn push_children(
        &self,
        out: &mut String,
        graph: &Graph,
        cs: &Vec<&Node>,
        depth: usize,
        phase: QuestionPhase,
        fuel: usize,
    )
        requires
            graph.wf(),
            depth + fuel <= usize::MAX,
        ensures
            final(out)@ == old(out)@ + child_lines(*self, *graph, derefs(cs@), 0, depth as nat, phase, fuel as nat),
        decreases fuel, 1nat,
    {
        let ghost all = derefs(cs@);
        let ghost head = out@;
        let mut i: usize = 0;
        while i < cs.len()
            invariant
                graph.wf(),
                depth + fuel <= usize::MAX,
                i <= cs@.len(),
                all == derefs(cs@),
                out@ + child_lines(*self, *graph, all, i as int, depth as nat, phase, fuel as nat) == head
                    + child_lines(*self, *graph, all, 0, depth as nat, phase, fuel as nat),
            decreases cs.len() - i,
        {
            let ghost before = out@;
            let last = i + 1 == cs.len();
            self.push_tree(out, graph, cs[i], depth, last, phase, fuel);
            assert(out@ + child_lines(*self, *graph, all, i + 1, depth as nat, phase, fuel as nat) =~= before
                + child_lines(*self, *graph, all, i as int, depth as nat, phase, fuel as nat));
            i = i + 1;
        }
        assert(out@ =~= head + child_lines(*self, *graph, all, 0, depth as nat, phase, fuel as nat));
    }

    /// Appends the header of the graph view.
    fn push_graph_header(&self, out: &mut String, phase: QuestionPhase, count: usize)
        ensures
            final(out)@ == old(out)@ + graph_header(*self, phase, count as nat),
    {
        self.push_rule_line(out, '═', 50);
        push_str(out, "  ");
        self.paint_into(out, get_phase_color(phase), Style::Bold, "[階段]");
        push_str(out, " ");
        self.paint_into(out, Color::White, Style::Normal, get_phase_name(phase));
        push_str(out, " | 節點數: ");
        push_decimal(out, count as u64);
        push_str(out, "\n");
        self.push_rule_line(out, '═', 50);
        assert(out@ =~= old(out)@ + graph_header(*self, phase, count as nat));
    }

    /// The graph view (see `graph_view_text`).
    pub fn display_graph(&self, graph: &Graph, phase: QuestionPhase) -> (s: String)
        requires
            graph.wf(),
        ensures
            s@ == graph_view_text(*self, *graph, phase),
    {
        let roots = graph.get_root_nodes();
        let mut out = String::new();
        if roots.len() == 0 {
            self.paint_into(&mut out, Color::Yellow, Style::Normal, "（圖是空的）");
            push_str(&mut out, "\n");
            assert(out@ =~= graph_view_text(*self, *graph, phase));
            return out;
        }
        let ghost rs = derefs(roots@);
        push_str(&mut out, "\n");
        self.push_graph_header(&mut out, phase, graph.node_count());
        push_str(&mut out, "\n");
        let ghost start = out@;
        let mut i: usize = 0;
        while i < roots.len()
            invariant
                graph.wf(),
                i <= roots@.len(),
                rs == derefs(roots@),
                out@ + root_trees(*self, *graph, rs, i as int, phase) == start + root_trees(*self, *graph, rs, 0, phase),
            decreases roots.len() - i,
        {
            let ghost before = out@;
            self.push_tree(&mut out, graph, roots[i], 0, true, phase, graph.nodes.len());
            assert(out@ + root_trees(*self, *graph, rs, i + 1, phase) =~= before + root_trees(*self, *graph, rs, i as int, phase));
            i = i + 1;
        }
        assert(out@ =~= start + root_trees(*self, *graph, rs, 0, phase));
        push_str(&mut out, "\n");
        let legend = self.display_legend();
        push_str(&mut out, legend.as_str());
        assert(out@ =~= graph_view_text(*self, *graph, phase));
        out
    }

    /// Appends the title line of a topic (see `topic_title_line`).
    fn push_topic_title(&self, out: &mut String, graph: &Graph, k: usize)
        requires
            graph.wf(),
            k < graph.topics@.len(),
        ensures
            final(out)@ == old(out)@ + topic_title_line(*self, *graph, graph.topics@[k as int]),
    {
        let topic = &graph.topics[k];
        proof {
            lemma_unique_index_topic(graph.topics@, k as int);
            lemma_reach_count_bounds(*graph, topic.root_node_id@, graph.nodes@.len() as nat);
        }
        let node_count = graph.count_topic_nodes(topic.id.as_str());
        let phase = graph.get_topic_phase(topic.id.as_str());
        let is_current = match &graph.current_topic_id {
            Some(c) => crate::text::same_text(c.as_str(), topic.id.as_str()),
            None => false,
        };
        let phase_color = match phase {
            TopicPhase::Exploration => Color::White,
            TopicPhase::Development => Color::Cyan,
            TopicPhase::Mature => Color::Magenta,
        };
        if is_current {
            self.paint_into(out, Color::Green, Style::Bold, " ▶ ");
        } else {
            push_str(out, "   ");
        }
        push_str(out, " ");
        let mut title = String::from_str("主題：");
        push_str(&mut title, topic.title.as_str());
        self.paint_into(out, Color::Yellow, Style::Bold, title.as_str());
        push_str(out, " ");
        let mut pname = String::from_str("(");
        push_str(&mut pname, phase.name());
        push_str(&mut pname, ")");
        self.paint_into(out, phase_color, Style::Dim, pname.as_str());
        push_str(out, " ");
        let mut count_text = String::from_str("• ");
        push_decimal(&mut count_text, node_count as u64);
        push_str(&mut count_text, " 節點");
        self.paint_into(out, Color::DarkGray, Style::Normal, count_text.as_str());
        push_str(out, "\n");
        assert(out@ =~= old(out)@ + topic_title_line(*self, *graph, graph.topics@[k as int]));
    }

    /// Appends the tree of a topic's root (see `topic_tree_text`).
    #[verifier::spinoff_prover]
    fn push_topic_tree(&self, out: &mut String, graph: &Graph, k: usize)
        requires
            graph.wf(),
            k < graph.topics@.len(),
        ensures
            final(out)@ == old(out)@ + topic_tree_text(*self, *graph, graph.topics@[k as int]),
    {
        let topic = &graph.topics[k];
        proof {
            lemma_unique_index_topic(graph.topics@, k as int);
        }
        let phase = graph.get_topic_phase(topic.id.as_str());
        match graph.get_node(topic.root_node_id.as_str()) {
            Some(root) => {
                let q = phase.to_question_phase();
                self.push_tree(out, graph, root, 0, true, q, graph.nodes.len());
            },
            None => {},
        }
        assert(out@ =~= old(out)@ + topic_tree_text(*self, *graph, graph.topics@[k as int]));
    }

    /// Appends the block of one topic (see `topic_block_text`).
    fn push_topic_block(&self, out: &mut String, graph: &Graph, k: usize)
        requires
            graph.wf(),
            k < graph.topics@.len(),
        ensures
            final(out)@ == old(out)@ + topic_block_text(*self, *graph, graph.topics@[k as int]),
    {
        let line = rule_text('─', 40);
        self.paint_into(out, Color::White, Style::Bold, line.as_str());
        push_str(out, "\n");
        self.push_topic_title(out, graph, k);
        self.push_topic_tree(out, graph, k);
        push_str(out, "\n");
        assert(out@ =~= old(out)@ + topic_block_text(*self, *graph, graph.topics@[k as int]));
    }

    /// The view of every topic (see `multi_topic_text`).
    pub fn display_multi_topic_graph(&self, graph: &Graph) -> (s: String)
        requires
            graph.wf(),
        ensures
            s@ == multi_topic_text(*self, *graph),
    {
        let mut out = String::new();
        if graph.topics.len() == 0 {
            self.paint_into(&mut out, Color::Yellow, Style::Normal, "（尚無主題）\n");
            push_str(&mut out, "\n");
            assert(out@ =~= multi_topic_text(*self, *graph));
            return out;
        }
        push_str(&mut out, "\n");
        self.push_rule_line(&mut out, '═', 50);
        push_str(&mut out, "  ");
        self.paint_into(&mut out, Color::Cyan, Style::Bold, "[階段]");
        push_str(&mut out, " 多主題視圖 | 主題數: ");
        push_decimal(&mut out, graph.topics.len() as u64);
        push_str(&mut out, "\n");
        self.push_rule_line(&mut out, '═', 50);
        push_str(&mut out, "\n");
        let ghost start = out@;
        let mut k: usize = 0;
        while k < graph.topics.len()
            invariant
                graph.wf(),
                k <= graph.topics@.len(),
                out@ + topic_blocks_text(*self, *graph, graph.topics@, k as int) == start + topic_blocks_text(
                    *self,
                    *graph,
                    graph.topics@,
                    0,
                ),
            decreases graph.topics.len() - k,
        {
            let ghost before = out@;
            self.push_topic_block(&mut out, graph, k);
            assert(out@ + topic_blocks_text(*self, *graph, graph.topics@, k + 1) =~= before + topic_blocks_text(
                *self,
                *graph,
                graph.topics@,
                k as int,
            ));
            k = k + 1;
        }
        assert(out@ =~= start + topic_blocks_text(*self, *graph, graph.topics@, 0));
        self.push_rule_line(&mut out, '═', 50);
        let legend = self.display_legend();
        push_str(&mut out, legend.as_str());
        assert(out@ =~= multi_topic_text(*self, *graph));
        out
    }

    /// The status bar (see `status_bar_text`).
    pub fn display_status_bar(&self, graph: &Graph, phase: QuestionPhase) -> (s: String)
        ensures
            s@ == status_bar_text(*self, *graph, phase),
    {
        let mut out = String::from_str("  ");
        self.paint_into(&mut out, get_phase_color(phase), Style::Bold, "[階段]");
        push_str(&mut out, " ");
        self.paint_into(&mut out, Color::White, Style::Normal, get_phase_name(phase));
        push_str(&mut out, " | ");
        push_str(&mut out, "節點:");
        push_decimal(&mut out, graph.node_count() as u64);
        push_str(&mut out, " ");
        push_str(&mut out, "鎖定:");
        push_decimal(&mut out, count_locked(graph) as u64);
        push_str(&mut out, " ");
        push_str(&mut out, "平均信心:");
        let avg = average_confidence_exec(graph);
        push_hundredths_text(&mut out, avg);
        push_str(&mut out, "\n");
        assert(out@ =~= status_bar_text(*self, *graph, phase));
        out
    }
}

/// Appends a value in hundredths with two decimals.
fn push_hundredths_text(out: &mut String, v: u128)
    ensures
        final(out)@ == old(out)@ + hundredths_text(v as nat),
{
    crate::fixed::push_decimal_wide(out, v / 100);
    out.push('.');
    out.push(crate::fixed::digit_char_exec((v / 10) % 10));
    out.push(crate::fixed::digit_char_exec(v % 10));
    assert(out@ =~= old(out)@ + hundredths_text(v as nat));
}

/// The number of locked nodes.
fn count_locked(graph: &Graph) -> (c: usize)
    ensures
        c == graph.nodes@.filter(|n: Node| n.status == NodeStatus::Locked).len(),
{
    let ghost p = |n: Node| n.status == NodeStatus::Locked;
    let ghost src = graph.nodes@;
    let mut c: usize = 0;
    let mut i: usize = 0;
    assert(src.take(0) =~= Seq::<Node>::empty());
    assert(Seq::<Node>::empty().filter(p) =~= Seq::<Node>::empty()) by {
        reveal(Seq::filter);
    }
    while i < graph.nodes.len()
        invariant
            i <= src.len(),
            src == graph.nodes@,
            p == (|n: Node| n.status == NodeStatus::Locked),
            c == src.take(i as int).filter(p).len(),
            c <= i,
        decreases src.len() - i,
    {
        proof {
            assert(src.take(i + 1) =~= src.take(i as int).push(src[i as int]));
            src.take(i as int).lemma_filter_push(src[i as int], p);
        }
        if graph.nodes[i].status == NodeStatus::Locked {
            c = c + 1;
        }
        i = i + 1;
    }
    assert(src.take(src.len() as int) =~= src);
    c
}

/// The average confidence of the nodes not pruned (see
/// `average_confidence`).
fn average_confidence_exec(graph: &Graph) -> (a: u128)
    ensures
        a == average_confidence(graph.nodes@),
{
    let ghost p = is_live_node();
    let ghost src = graph.nodes@;
    let mut sum: u128 = 0;
    let mut count: u128 = 0;
    let mut i: usize = 0;
    assert(src.take(0) =~= Seq::<Node>::empty());
    assert(Seq::<Node>::empty().filter(p) =~= Seq::<Node>::empty()) by {
        reveal(Seq::filter);
    }
    while i < graph.nodes.len()
        invariant
            i <= src.len(),
            src == graph.nodes@,
            p == is_live_node(),
            count == src.take(i as int).filter(p).len(),
            sum == confidence_sum(src.take(i as int).filter(p)),
            count <= i,
            sum <= i * 0xffff_ffff,
        decreases src.len() - i,
    {
        proof {
            assert(src.take(i + 1) =~= src.take(i as int).push(src[i as int]));
            src.take(i as int).lemma_filter_push(src[i as int], p);
        }
        if graph.nodes[i].status != NodeStatus::Pruned {
            let ghost f = src.take(i as int).filter(p);
            assert(f.push(src[i as int]).drop_last() =~= f);
            sum = sum + graph.nodes[i].confidence as u128;
            count = count + 1;
        }
        i = i + 1;
    }
    assert(src.take(src.len() as int) =~= src);
    if count == 0 {
        0
    } else {
        (sum * 2 + 10 * count) / (20 * count)
    }
}

} // verus!


