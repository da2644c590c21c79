//! The state and the commands of the interactive conversation with the
//! model: what each line typed asks for, and the text each command shows.
//!
//! The application reads the lines, talks to the model and prints.
use vstd::prelude::*;

use crate::cli::visual::{get_phase_color, graph_view_text, multi_topic_text, paint, phase_color_spec, rule, rule_line, Color, Style, VisualPanel};
use crate::controller::gemma_controller::{mode_label, mode_label_spec, question_phase_name, ControllerMode, GemmaController, QuestionPhase};
use crate::engine::backtrack::{lowercase, take_chars_string, to_lowercase};
use crate::engine::constraint::{contents, ConstraintManager};
use crate::fixed::{fixed2, push_fixed2};
use crate::models::graph::{as_question_phase, complexity_sum, is_live_node, lemma_reach_count_bounds, lemma_unique_index_topic, reach_count, topic_phase_for_count, Graph, Topic};
use crate::text::{chars_of, contains, decimal, push_decimal, push_str, split, split_exec, string_of, take_chars, trim, trim_vec};

verus! {

/// The trimmed, non-empty pieces of some texts, in order.
pub open spec fn filled_pieces(parts: Seq<Seq<char>>) -> Seq<Seq<char>>
    decreases parts.len(),
{
    if parts.len() == 0 {
        Seq::empty()
    } else {
        let rest = filled_pieces(parts.drop_last());
        if trim(parts.last()).len() > 0 {
            rest.push(trim(parts.last()))
        } else {
            rest
        }
    }
}

/// The constraints a line gives: its pieces between semicolons, trimmed,
/// the empty ones left out.
pub open spec fn constraint_items(line: Seq<char>) -> Seq<Seq<char>> {
    filled_pieces(split(trim(line), seq![';']))
}

/// Reads the constraints of a line (see `constraint_items`).
pub fn parse_constraints(line: &str) -> (r: Vec<String>)
    ensures
        r@.map_values(|s: String| s@) == constraint_items(line@),
{
    let c = chars_of(line);
    let t = trim_vec(c.as_slice());
    let mut sep: Vec<char> = Vec::new();
    sep.push(';');
    assert(sep@ =~= seq![';']);
    let parts = split_exec(t.as_slice(), sep.as_slice());
    let ghost pv = parts@.map_values(|x: Vec<char>| x@);
    let mut r: Vec<String> = Vec::new();
    let mut i: usize = 0;
    while i < parts.len()
        invariant
            i <= parts@.len(),
            pv == parts@.map_values(|x: Vec<char>| x@),
            r@.map_values(|s: String| s@) == filled_pieces(pv.take(i as int)),
        decreases parts.len() - i,
    {
        let piece = trim_vec(parts[i].as_slice());
        let ghost before = r@.map_values(|s: String| s@);
        assert(pv.take(i + 1).drop_last() =~= pv.take(i as int));
        assert(pv.take(i + 1).last() == parts@[i as int]@);
        if piece.len() > 0 {
            let text = string_of(piece.as_slice());
            r.push(text);
            assert(r@.map_values(|s: String| s@) =~= before.push(piece@));
        }
        i = i + 1;
    }
    assert(pv.take(parts@.len() as int) =~= pv);
    r
}

/// The texts of a list without repeats, first occurrences kept.
pub open spec fn dedup_texts(s: Seq<Seq<char>>) -> Seq<Seq<char>>
    decreases s.len(),
{
    if s.len() == 0 {
        Seq::empty()
    } else {
        let d = dedup_texts(s.drop_last());
        if d.contains(s.last()) {
            d
        } else {
            d.push(s.last())
        }
    }
}

/// The state of the interactive conversation.
pub struct GemmaREPLState {
    /// The controller.
    pub controller: GemmaController,
    /// The topic discussed.
    pub topic: String,
    /// The user's constraints.
    pub constraint_manager: ConstraintManager,
    /// Whether the conversation goes on.
    pub running: bool,
    /// The panel that renders text.
    pub visual: VisualPanel,
    /// The rounds so far.
    pub round_count: usize,
}

impl GemmaREPLState {
    /// A conversation on a topic with the user's constraints (repeats
    /// dropped), for the default model.
    pub fn new(topic: String, constraints: Vec<String>) -> (s: Self)
        ensures
            s.topic == topic,
            s.controller.task_spec() == topic@,
            s.controller.model_spec() == "gemma4:e4b"@,
            s.controller.mode_spec() == ControllerMode::Diverge,
            contents(s.constraint_manager.constraints()) == dedup_texts(
                constraints@.map_values(|c: String| c@),
            ),
            s.running,
            s.visual.colored,
            s.round_count == 0,
    {
        Self::with_model(topic, constraints, "gemma4:e4b")
    }

    /// A conversation on a topic with the user's constraints (repeats
    /// dropped), for a model.
    pub fn with_model(topic: String, constraints: Vec<String>, model: &str) -> (s: Self)
        ensures
            s.topic == topic,
            s.controller.task_spec() == topic@,
            s.controller.model_spec() == model@,
            s.controller.mode_spec() == ControllerMode::Diverge,
            contents(s.constraint_manager.constraints()) == dedup_texts(
                constraints@.map_values(|c: String| c@),
            ),
            s.running,
            s.visual.colored,
            s.round_count == 0,
    {
        let graph = Graph::new();
        let mut controller = GemmaController::with_state(model, graph);
        controller.set_task(topic.as_str());
        let mut constraint_manager = ConstraintManager::new();
        let ghost all = constraints@.map_values(|c: String| c@);
        let mut i: usize = 0;
        assert(all.take(0) =~= Seq::<Seq<char>>::empty());
        assert(contents(constraint_manager.constraints()) =~= Seq::<Seq<char>>::empty());
        while i < constraints.len()
            invariant
                i <= constraints@.len(),
                all == constraints@.map_values(|c: String| c@),
                contents(constraint_manager.constraints()) == dedup_texts(all.take(i as int)),
            decreases constraints.len() - i,
        {
            let ghost before = constraint_manager.constraints();
            constraint_manager.add_user_constraint(constraints[i].as_str());
            proof {
                assert(all.take(i + 1).drop_last() =~= all.take(i as int));
                assert(all.take(i + 1).last() == constraints@[i as int]@);
                let c = choose|c: crate::engine::constraint::Constraint|
                    c.content@ == constraints@[i as int]@ && c.source
                        == crate::engine::constraint::ConstraintSource::User
                        && constraint_manager.constraints() == crate::engine::constraint::add_spec(before, c);
                if !contents(before).contains(c.content@) {
                    assert(contents(before.push(c)) =~= contents(before).push(c.content@));
                }
            }
            i = i + 1;
        }
        assert(all.take(all.len() as int) =~= all);
        GemmaREPLState {
            controller,
            topic,
            constraint_manager,
            running: true,
            visual: VisualPanel::new(),
            round_count: 0,
        }
    }
}

/// What a line typed in the conversation asks for.
#[derive(Debug, Clone, PartialEq, Eq)]
pub enum ReplInput {
    /// Nothing (an empty line).
    Empty,
    /// End the conversation.
    Quit,
    /// Show the help.
    Help,
    /// Show the status.
    Status,
    /// Switch between diverging and converging.
    ToggleMode,
    /// Show the graph.
    Graph,
    /// Show the topics.
    Topics,
    /// Make a topic with this title.
    NewTopic(String),
    /// `new-topic` without a title.
    NewTopicMissing,
    /// Switch to the topic of this identifier or title.
    SwitchTopic(String),
    /// Send this text to the model.
    Message(String),
}

/// `s` with every leading copy of `p` removed, then trimmed.
pub open spec fn after_command(s: Seq<char>, p: Seq<char>) -> Seq<char> {
    crate::text::trim(crate::memory::strip_all(s, p))
}

/// What a line asks for, once trimmed.
pub open spec fn repl_input_spec(line: Seq<char>) -> ReplInput {
    let t = crate::text::trim(line);
    if t.len() == 0 {
        ReplInput::Empty
    } else if t == "quit"@ || t == "exit"@ || t == "q"@ {
        ReplInput::Quit
    } else if t == "help"@ || t == "?"@ {
        ReplInput::Help
    } else if t == "status"@ || t == "s"@ {
        ReplInput::Status
    } else if t == "mode"@ {
        ReplInput::ToggleMode
    } else if t == "graph"@ || t == "show"@ {
        ReplInput::Graph
    } else if t == "topics"@ || t == "t"@ {
        ReplInput::Topics
    } else if crate::text::starts_with(t, "new-topic "@) {
        if after_command(t, "new-topic "@).len() > 0 {
            ReplInput::NewTopic(arbitrary())
        } else {
            ReplInput::NewTopicMissing
        }
    } else if crate::text::starts_with(t, "switch-topic "@) {
        ReplInput::SwitchTopic(arbitrary())
    } else {
        ReplInput::Message(arbitrary())
    }
}

/// Whether a parsed line carries the text the line gives.
pub open spec fn input_text_ok(line: Seq<char>, r: ReplInput) -> bool {
    let t = crate::text::trim(line);
    match r {
        ReplInput::NewTopic(title) => title@ == after_command(t, "new-topic "@),
        ReplInput::SwitchTopic(id) => id@ == after_command(t, "switch-topic "@),
        ReplInput::Message(m) => m@ == t,
        _ => true,
    }
}

/// The kind of a parsed line, its text set aside.
pub open spec fn same_kind(a: ReplInput, b: ReplInput) -> bool {
    match (a, b) {
        (ReplInput::NewTopic(_), ReplInput::NewTopic(_)) => true,
        (ReplInput::SwitchTopic(_), ReplInput::SwitchTopic(_)) => true,
        (ReplInput::Message(_), ReplInput::Message(_)) => true,
        _ => a == b,
    }
}

/// Reads what a line asks for (see `repl_input_spec`).
pub fn parse_repl_input(line: &str) -> (r: ReplInput)
    ensures
        same_kind(r, repl_input_spec(line@)),
        input_text_ok(line@, r),
{
    let c = crate::text::chars_of(line);
    let tv = crate::text::trim_vec(c.as_slice());
    let t = crate::text::string_of(tv.as_slice());
    let ts = t.as_str();
    proof {
        reveal_strlit("quit");
        reveal_strlit("exit");
        reveal_strlit("q");
        reveal_strlit("help");
        reveal_strlit("?");
        reveal_strlit("status");
        reveal_strlit("s");
        reveal_strlit("mode");
        reveal_strlit("graph");
        reveal_strlit("show");
        reveal_strlit("topics");
        reveal_strlit("t");
    }
    if tv.len() == 0 {
        return ReplInput::Empty;
    }
    if crate::text::same_text(ts, "quit") || crate::text::same_text(ts, "exit") || crate::text::same_text(ts, "q") {
        ReplInput::Quit
    } else if crate::text::same_text(ts, "help") || crate::text::same_text(ts, "?") {
        ReplInput::Help
    } else if crate::text::same_text(ts, "status") || crate::text::same_text(ts, "s") {
        ReplInput::Status
    } else if crate::text::same_text(ts, "mode") {
        ReplInput::ToggleMode
    } else if crate::text::same_text(ts, "graph") || crate::text::same_text(ts, "show") {
        ReplInput::Graph
    } else if crate::text::same_text(ts, "topics") || crate::text::same_text(ts, "t") {
        ReplInput::Topics
    } else {
        let nt = crate::text::chars_of("new-topic ");
        let st = crate::text::chars_of("switch-topic ");
        if crate::text::starts_with_exec(tv.as_slice(), nt.as_slice()) {
            let rest = crate::memory::strip_all_exec(tv.as_slice(), nt.as_slice());
            let title = crate::text::trim_vec(rest.as_slice());
            if title.len() > 0 {
                ReplInput::NewTopic(crate::text::string_of(title.as_slice()))
            } else {
                ReplInput::NewTopicMissing
            }
        } else if crate::text::starts_with_exec(tv.as_slice(), st.as_slice()) {
            let rest = crate::memory::strip_all_exec(tv.as_slice(), st.as_slice());
            let id = crate::text::trim_vec(rest.as_slice());
            ReplInput::SwitchTopic(crate::text::string_of(id.as_slice()))
        } else {
            ReplInput::Message(t)
        }
    }
}

/// The help of the conversation.
pub open spec fn repl_help_spec() -> Seq<char> {
    "=== Gemma REPL 指令說明 ===\n\n一般指令：\n  <任何文字>      - 傳送給 gemma4 分析\n  quit / exit / q - 結束對話\n  help / ?        - 顯示此說明\n\n狀態指令：\n  status / s      - 顯示當前推理圖狀態\n  graph / show    - 顯示推理圖結構\n  mode            - 切換發散/收斂模式\n\n主題指令（v0.7 新增多主題並行）：\n  topics / t      - 顯示所有主題\n  new-topic <標題> - 建立新主題\n  switch-topic <ID/關鍵字> - 切換到指定主題\n\ngemma4 會自動使用工具操作推理圖：\n  - diverge()     - 發散生成子節點\n  - converge()    - 收斂刪除低分節點\n  - save()        - 儲存狀態\n  - load()        - 載入狀態\n  - output()      - 產出檔案\n  - status()      - 查詢狀態\n\n"@
}

/// The help of the conversation (see `repl_help_spec`).
pub fn print_repl_help() -> (s: String)
    ensures
        s@ == repl_help_spec(),
{
    String::from_str(
        "=== Gemma REPL 指令說明 ===\n\n一般指令：\n  <任何文字>      - 傳送給 gemma4 分析\n  quit / exit / q - 結束對話\n  help / ?        - 顯示此說明\n\n狀態指令：\n  status / s      - 顯示當前推理圖狀態\n  graph / show    - 顯示推理圖結構\n  mode            - 切換發散/收斂模式\n\n主題指令（v0.7 新增多主題並行）：\n  topics / t      - 顯示所有主題\n  new-topic <標題> - 建立新主題\n  switch-topic <ID/關鍵字> - 切換到指定主題\n\ngemma4 會自動使用工具操作推理圖：\n  - diverge()     - 發散生成子節點\n  - converge()    - 收斂刪除低分節點\n  - save()        - 儲存狀態\n  - load()        - 載入狀態\n  - output()      - 產出檔案\n  - status()      - 查詢狀態\n\n",
    )
}

/// The status of a conversation.
pub open spec fn status_text(topic: Seq<char>, q: QuestionPhase, m: ControllerMode, g: Graph) -> Seq<char> {
    let n = g.nodes@.filter(is_live_node()).len();
    "\n=== 目前狀態 ===\n"@ + "主題："@ + topic + "\n"@ + "階段："@ + question_phase_name(q) + "（節點數："@ + decimal(n)
        + "）\n"@ + "模式："@ + mode_label_spec(m) + "\n"@ + "節點數："@ + decimal(n) + "\n"@ + "邊數："@ + decimal(
        g.edges@.filter(crate::models::graph::is_live_edge(g)).len(),
    ) + "\n"@ + "複雜度："@ + fixed2(complexity_sum(g.nodes@.filter(is_live_node()))) + "\n"@ + "\n"@
}

/// The status of the conversation (see `status_text`).
pub fn show_current_status(state: &GemmaREPLState) -> (s: String)
    ensures
        s@ == status_text(
            state.topic@,
            state.controller.state_spec().phase,
            state.controller.mode_spec(),
            state.controller.graph_spec(),
        ),
{
    let graph = state.controller.graph();
    let phase = state.controller.phase();
    let mut out = String::from_str("\n=== 目前狀態 ===\n");
    push_str(&mut out, "主題：");
    push_str(&mut out, state.topic.as_str());
    push_str(&mut out, "\n");
    push_str(&mut out, "階段：");
    push_str(&mut out, phase.name());
    push_str(&mut out, "（節點數：");
    let n = graph.node_count();
    push_decimal(&mut out, n as u64);
    push_str(&mut out, "）\n");
    push_str(&mut out, "模式：");
    push_str(&mut out, mode_label(state.controller.mode()));
    push_str(&mut out, "\n");
    push_str(&mut out, "節點數：");
    push_decimal(&mut out, n as u64);
    push_str(&mut out, "\n");
    push_str(&mut out, "邊數：");
    push_decimal(&mut out, graph.edge_count() as u64);
    push_str(&mut out, "\n");
    push_str(&mut out, "複雜度：");
    push_fixed2(&mut out, graph.total_complexity());
    push_str(&mut out, "\n");
    push_str(&mut out, "\n");
    assert(out@ =~= status_text(
        state.topic@,
        state.controller.state_spec().phase,
        state.controller.mode_spec(),
        state.controller.graph_spec(),
    ));
    out
}

/// Switches between diverging and converging; tells the new mode.
pub fn toggle_mode(state: &mut GemmaREPLState) -> (s: String)
    ensures
        final(state).controller.mode_spec() == (match old(state).controller.mode_spec() {
            ControllerMode::Diverge => ControllerMode::Converge,
            ControllerMode::Converge => ControllerMode::Diverge,
        }),
        final(state).controller.graph_spec() == old(state).controller.graph_spec(),
        final(state).controller.task_spec() == old(state).controller.task_spec(),
        final(state).topic == old(state).topic,
        s@ == "模式切換為："@ + mode_label_spec(final(state).controller.mode_spec()) + "\n"@,
{
    let new_mode = match state.controller.mode() {
        ControllerMode::Diverge => ControllerMode::Converge,
        ControllerMode::Converge => ControllerMode::Diverge,
    };
    state.controller.set_mode(new_mode);
    let mut out = String::from_str("模式切換為：");
    push_str(&mut out, mode_label(new_mode));
    push_str(&mut out, "\n");
    out
}

/// The graph of a conversation: a note for an empty graph, every topic
/// for more than one topic, else the graph's trees.
pub open spec fn graph_text(p: VisualPanel, g: Graph, q: QuestionPhase) -> Seq<char> {
    if g.nodes@.filter(is_live_node()).len() == 0 {
        paint(p, Color::Yellow, Style::Normal, "（圖是空的）\n"@) + "\n"@
    } else if g.topics@.len() > 1 {
        multi_topic_text(p, g)
    } else {
        graph_view_text(p, g, q)
    }
}

/// The graph of the conversation (see `graph_text`).
pub fn show_graph(state: &GemmaREPLState) -> (s: String)
    ensures
        s@ == graph_text(state.visual, state.controller.graph_spec(), state.controller.state_spec().phase),
{
    let graph = state.controller.graph();
    let phase = state.controller.phase();
    if graph.node_count() == 0 {
        let mut out = state.visual.format(Color::Yellow, Style::Normal, "（圖是空的）\n");
        push_str(&mut out, "\n");
        return out;
    }
    if graph.topics.len() > 1 {
        state.visual.display_multi_topic_graph(graph)
    } else {
        state.visual.display_graph(graph, phase)
    }
}

/// The line of a topic in the list of topics.
pub open spec fn topic_list_line(p: VisualPanel, g: Graph, t: Topic) -> Seq<char> {
    let current = match g.current_topic_id {
        Some(c) => c@ == t.id@,
        None => false,
    };
    let count = reach_count(g, t.root_node_id@, g.nodes@.len() as nat);
    let phase = topic_phase_for_count(count as nat);
    (if current {
        paint(p, Color::Green, Style::Bold, " ▶ "@)
    } else {
        "   "@
    }) + paint(p, Color::Yellow, Style::Normal, t.title@) + " "@ + paint(
        p,
        phase_color_spec(as_question_phase(phase)),
        Style::Dim,
        "("@ + question_phase_name(as_question_phase(phase)) + ")"@,
    ) + " ["@ + take_chars(t.id@, 8) + "] 節點:"@ + decimal(count as nat) + (if current {
        paint(p, Color::Green, Style::Dim, " ← 目前"@)
    } else {
        paint(p, Color::DarkGray, Style::Dim, Seq::empty())
    }) + "\n"@
}

/// The lines of the topics from index `i` on.
pub open spec fn topic_list_lines(p: VisualPanel, g: Graph, ts: Seq<Topic>, i: int) -> Seq<char>
    decreases ts.len() - i,
{
    if i < 0 || i >= ts.len() {
        Seq::empty()
    } else {
        topic_list_line(p, g, ts[i]) + topic_list_lines(p, g, ts, i + 1)
    }
}

/// The list of topics; a note without topics.
pub open spec fn topics_text(p: VisualPanel, g: Graph) -> Seq<char> {
    if g.topics@.len() == 0 {
        paint(p, Color::Yellow, Style::Normal, "（尚無主題）\n"@) + "\n"@
    } else {
        "\n"@ + rule_line(p, '═', 50) + "  "@ + paint(p, Color::Cyan, Style::Bold, "主題列表"@) + "\n"@ + rule_line(
            p,
            '═',
            50,
        ) + topic_list_lines(p, g, g.topics@, 0) + rule_line(p, '═', 50) + "\n"@
    }
}

/// Appends the line of the topic at index `k`.
#[verifier::spinoff_prover]
#[verifier::rlimit(40)]
fn push_topic_list_line(out: &mut String, p: VisualPanel, graph: &Graph, k: usize)
    requires
        graph.wf(),
        k < graph.topics@.len(),
    ensures
        final(out)@ == old(out)@ + topic_list_line(p, *graph, graph.topics@[k as int]),
{
    let topic = &graph.topics[k];
    proof {
        lemma_unique_index_topic(graph.topics@, k as int);
        lemma_reach_count_bounds(*graph, topic.root_node_id@, graph.nodes@.len() as nat);
    }
    let is_current = match &graph.current_topic_id {
        Some(c) => crate::text::same_text(c.as_str(), topic.id.as_str()),
        None => false,
    };
    let node_count = graph.count_topic_nodes(topic.id.as_str());
    let phase = graph.get_topic_phase(topic.id.as_str());
    let q = phase.to_question_phase();
    if is_current {
        push_str(out, p.format(Color::Green, Style::Bold, " ▶ ").as_str());
    } else {
        push_str(out, "   ");
    }
    push_str(out, p.format(Color::Yellow, Style::Normal, topic.title.as_str()).as_str());
    push_str(out, " ");
    let mut pname = String::from_str("(");
    push_str(&mut pname, phase.name());
    push_str(&mut pname, ")");
    push_str(out, p.format(get_phase_color(q), Style::Dim, pname.as_str()).as_str());
    push_str(out, " [");
    push_str(out, take_chars_string(topic.id.as_str(), 8).as_str());
    push_str(out, "] 節點:");
    push_decimal(out, node_count as u64);
    if is_current {
        push_str(out, p.format(Color::Green, Style::Dim, " ← 目前").as_str());
    } else {
        push_str(out, p.format(Color::DarkGray, Style::Dim, "").as_str());
    }
    push_str(out, "\n");
    proof {
        reveal_strlit("");
    }
    assert(out@ =~= old(out)@ + topic_list_line(p, *graph, graph.topics@[k as int]));
}

/// The list of topics of the conversation (see `topics_text`).
pub fn show_topics(state: &GemmaREPLState) -> (s: String)
    ensures
        s@ == topics_text(state.visual, state.controller.graph_spec()),
{
    let graph = state.controller.graph();
    let p = state.visual;
    if graph.topics.len() == 0 {
        let mut out = p.format(Color::Yellow, Style::Normal, "（尚無主題）\n");
        push_str(&mut out, "\n");
        return out;
    }
    let line = crate::cli::visual::rule_text('═', 50);
    let mut out = String::from_str("\n");
    push_str(&mut out, p.format(Color::White, Style::Bold, line.as_str()).as_str());
    push_str(&mut out, "\n");
    push_str(&mut out, "  ");
    push_str(&mut out, p.format(Color::Cyan, Style::Bold, "主題列表").as_str());
    push_str(&mut out, "\n");
    push_str(&mut out, p.format(Color::White, Style::Bold, line.as_str()).as_str());
    push_str(&mut out, "\n");
    let ghost start = out@;
    let mut k: usize = 0;
    while k < graph.topics.len()
        invariant
            graph.wf(),
            k <= graph.topics@.len(),
            out@ + topic_list_lines(p, *graph, graph.topics@, k as int) == start + topic_list_lines(
                p,
                *graph,
                graph.topics@,
                0,
            ),
        decreases graph.topics.len() - k,
    {
        let ghost before = out@;
        push_topic_list_line(&mut out, p, graph, k);
        assert(out@ + topic_list_lines(p, *graph, graph.topics@, k + 1) =~= before + topic_list_lines(
            p,
            *graph,
            graph.topics@,
            k as int,
        ));
        k = k + 1;
    }
    assert(out@ =~= start + topic_list_lines(p, *graph, graph.topics@, 0));
    push_str(&mut out, p.format(Color::White, Style::Bold, line.as_str()).as_str());
    push_str(&mut out, "\n");
    push_str(&mut out, "\n");
    assert(out@ =~= topics_text(p, *graph));
    out
}

/// The text shown for a new topic.
pub open spec fn new_topic_text(p: VisualPanel, title: Seq<char>, id: Seq<char>, root: Seq<char>) -> Seq<char> {
    "\n"@ + paint(p, Color::Green, Style::Bold, rule('✓', 25)) + "\n"@ + "  新主題已建立："@ + paint(
        p,
        Color::Yellow,
        Style::Bold,
        title,
    ) + "\n"@ + "  主題 ID："@ + id + "\n"@ + "  根節點："@ + root + "\n"@ + paint(
        p,
        Color::Green,
        Style::Bold,
        rule('✓', 25),
    ) + "\n"@ + "\n"@
}

/// Makes a topic, which becomes the current one, and tells its
/// identifier and root.
pub fn create_new_topic(state: &mut GemmaREPLState, title: &str) -> (s: String)
    ensures
        exists|id: Seq<char>, root: Seq<char>|
            #![trigger new_topic_text(old(state).visual, title@, id, root)]
            {
                let g = final(state).controller.graph_spec();
                &&& g.has_topic(id)
                &&& g.topic_of(id).title@ == title@
                &&& g.topic_of(id).root_node_id@ == root
                &&& g.current_topic_id is Some
                &&& g.current_topic_id->0@ == id
                &&& s@ == new_topic_text(old(state).visual, title@, id, root)
            },
        final(state).visual == old(state).visual,
        final(state).topic == old(state).topic,
{
    let mut graph = state.controller.get_graph();
    let topic = graph.add_topic(String::from_str(title));
    state.controller.sync_graph(graph);
    let p = state.visual;
    let checks = crate::cli::visual::rule_text('✓', 25);
    let mut out = String::from_str("\n");
    push_str(&mut out, p.format(Color::Green, Style::Bold, checks.as_str()).as_str());
    push_str(&mut out, "\n");
    push_str(&mut out, "  新主題已建立：");
    push_str(&mut out, p.format(Color::Yellow, Style::Bold, title).as_str());
    push_str(&mut out, "\n");
    push_str(&mut out, "  主題 ID：");
    push_str(&mut out, topic.id.as_str());
    push_str(&mut out, "\n");
    push_str(&mut out, "  根節點：");
    push_str(&mut out, topic.root_node_id.as_str());
    push_str(&mut out, "\n");
    push_str(&mut out, p.format(Color::Green, Style::Bold, checks.as_str()).as_str());
    push_str(&mut out, "\n");
    push_str(&mut out, "\n");
    assert(out@ =~= new_topic_text(p, title@, topic.id@, topic.root_node_id@));
    out
}

/// How many questions a round is reckoned to ask in a phase: two while
/// exploring, one while developing, none once mature.
pub fn questions_per_round(phase: QuestionPhase) -> (n: usize)
    ensures
        n == match phase {
            QuestionPhase::Exploration => 2usize,
            QuestionPhase::Development => 1usize,
            QuestionPhase::Mature => 0usize,
        },
{
    match phase {
        QuestionPhase::Exploration => 2,
        QuestionPhase::Development => 1,
        QuestionPhase::Mature => 0,
    }
}

/// Whether a topic's title holds the text looked for, case aside.
pub open spec fn title_matches(q: Seq<char>) -> spec_fn(Topic) -> bool {
    |t: Topic| contains(lowercase(t.title@), lowercase(q))
}

/// The lines of topics that several titles match.
pub open spec fn match_lines(ts: Seq<Topic>, i: int) -> Seq<char>
    decreases ts.len() - i,
{
    if i < 0 || i >= ts.len() {
        Seq::empty()
    } else {
        "  - "@ + ts[i].title@ + " ["@ + take_chars(ts[i].id@, 8) + "]\n"@ + match_lines(ts, i + 1)
    }
}

/// The text of a switch to a topic.
pub open spec fn switched_text(title: Seq<char>) -> Seq<char> {
    "已切換到主題："@ + title + "\n"@
}

/// What a switch by identifier or by part of a title gives: the topic of
/// that identifier; else the one topic whose title holds the text (case
/// aside); else a note that none or several do.
pub open spec fn switch_spec(g: Graph, q: Seq<char>, after: Graph, s: Seq<char>) -> bool {
    let ms = g.topics@.filter(title_matches(q));
    if g.has_topic(q) {
        &&& after.current_topic_id is Some && after.current_topic_id->0@ == q
        &&& s == switched_text(g.topic_of(q).title@)
    } else if ms.len() == 1 {
        &&& after.current_topic_id is Some && after.current_topic_id->0@ == ms[0].id@
        &&& s == switched_text(ms[0].title@)
    } else if ms.len() == 0 {
        &&& after.current_topic_id == g.current_topic_id
        &&& s == "找不到符合「"@ + q + "」的主題\n"@ + "使用 `topics` 指令查看所有主題\n"@
    } else {
        &&& after.current_topic_id == g.current_topic_id
        &&& s == "有多個符合「"@ + q + "」的主題，請使用更詳細的 ID：\n"@ + match_lines(ms, 0)
    }
}

/// The topics whose title holds the text, case aside, in order.
fn matching_topics(graph: &Graph, q: &str) -> (r: Vec<usize>)
    ensures
        r@.len() == graph.topics@.filter(title_matches(q@)).len(),
        forall|j: int| 0 <= j < r@.len() ==> #[trigger] r@[j] < graph.topics@.len(),
        forall|j: int|
            0 <= j < r@.len() ==> graph.topics@[r@[j] as int] == #[trigger] graph.topics@.filter(
                title_matches(q@),
            )[j],
{
    let ghost p = title_matches(q@);
    let ghost ts = graph.topics@;
    let lq = to_lowercase(q);
    let lqc = crate::text::chars_of(lq.as_str());
    let mut r: Vec<usize> = Vec::new();
    let ghost mut acc: Seq<Topic> = Seq::empty();
    let mut i: usize = 0;
    assert(ts.take(0) =~= Seq::<Topic>::empty());
    assert(Seq::<Topic>::empty().filter(p) =~= Seq::<Topic>::empty()) by {
        reveal(Seq::filter);
    }
    while i < graph.topics.len()
        invariant
            i <= ts.len(),
            ts == graph.topics@,
            p == title_matches(q@),
            lqc@ == lowercase(q@),
            acc == ts.take(i as int).filter(p),
            r@.len() == acc.len(),
            forall|j: int| 0 <= j < r@.len() ==> #[trigger] r@[j] < i,
            forall|j: int| 0 <= j < r@.len() ==> ts[r@[j] as int] == #[trigger] acc[j],
        decreases ts.len() - i,
    {
        proof {
            assert(ts.take(i + 1) =~= ts.take(i as int).push(ts[i as int]));
            ts.take(i as int).lemma_filter_push(ts[i as int], p);
        }
        let lt = to_lowercase(graph.topics[i].title.as_str());
        let ltc = crate::text::chars_of(lt.as_str());
        let ghost r0 = r@;
        let ghost a0 = acc;
        if crate::text::contains_exec(ltc.as_slice(), lqc.as_slice()) {
            r.push(i);
            proof {
                acc = acc.push(ts[i as int]);
            }
            assert(r@ == r0.push(i));
            assert forall|j: int| 0 <= j < r@.len() implies ts[r@[j] as int] == #[trigger] acc[j] by {
                if j < r0.len() {
                    assert(r@[j] == r0[j]);
                    assert(acc[j] == a0[j]);
                    assert(ts[r0[j] as int] == a0[j]);
                }
            }
        }
        i = i + 1;
    }
    assert(ts.take(ts.len() as int) =~= ts);
    r
}

/// Switches to a topic by identifier or by part of its title, and tells
/// what came of it (see `switch_spec`).
pub fn switch_topic(state: &mut GemmaREPLState, topic_id: &str) -> (s: String)
    ensures
        switch_spec(old(state).controller.graph_spec(), topic_id@, final(state).controller.graph_spec(), s@),
        final(state).controller.graph_spec().nodes == old(state).controller.graph_spec().nodes,
        final(state).controller.graph_spec().topics == old(state).controller.graph_spec().topics,
        final(state).controller.graph_spec().edges == old(state).controller.graph_spec().edges,
        final(state).topic == old(state).topic,
{
    let mut graph = state.controller.take_graph();
    let ghost g0 = graph;
    if graph.set_current_topic(topic_id) {
        let mut out = String::from_str("已切換到主題：");
        match graph.get_current_topic() {
            Some(t) => push_str(&mut out, t.title.as_str()),
            None => {},
        }
        push_str(&mut out, "\n");
        state.controller.sync_graph(graph);
        return out;
    }
    let ms = matching_topics(&graph, topic_id);
    let ghost mv = g0.topics@.filter(title_matches(topic_id@));
    if ms.len() == 1 {
        let k = ms[0];
        proof {
            lemma_unique_index_topic(graph.topics@, k as int);
        }
        let target = graph.topics[k].id.clone();
        graph.set_current_topic(target.as_str());
        let mut out = String::from_str("已切換到主題：");
        match graph.get_current_topic() {
            Some(t) => push_str(&mut out, t.title.as_str()),
            None => {},
        }
        push_str(&mut out, "\n");
        state.controller.sync_graph(graph);
        out
    } else if ms.len() == 0 {
        let mut out = String::from_str("找不到符合「");
        push_str(&mut out, topic_id);
        push_str(&mut out, "」的主題\n");
        push_str(&mut out, "使用 `topics` 指令查看所有主題\n");
        state.controller.sync_graph(graph);
        out
    } else {
        let mut out = String::from_str("有多個符合「");
        push_str(&mut out, topic_id);
        push_str(&mut out, "」的主題，請使用更詳細的 ID：\n");
        let ghost start = out@;
        let mut j: usize = 0;
        while j < ms.len()
            invariant
                j <= ms@.len(),
                ms@.len() == mv.len(),
                graph.topics@ == g0.topics@,
                mv == g0.topics@.filter(title_matches(topic_id@)),
                forall|x: int| 0 <= x < ms@.len() ==> #[trigger] ms@[x] < graph.topics@.len(),
                forall|x: int| 0 <= x < ms@.len() ==> graph.topics@[ms@[x] as int] == #[trigger] mv[x],
                out@ + match_lines(mv, j as int) == start + match_lines(mv, 0),
            decreases ms.len() - j,
        {
            let ghost before = out@;
            let t = &graph.topics[ms[j]];
            assert(*t == mv[j as int]);
            push_str(&mut out, "  - ");
            push_str(&mut out, t.title.as_str());
            push_str(&mut out, " [");
            push_str(&mut out, take_chars_string(t.id.as_str(), 8).as_str());
            push_str(&mut out, "]\n");
            assert(out@ + match_lines(mv, j + 1) =~= before + match_lines(mv, j as int));
            j = j + 1;
        }
        assert(out@ =~= start + match_lines(mv, 0));
        state.controller.sync_graph(graph);
        out
    }
}

} // verus!

