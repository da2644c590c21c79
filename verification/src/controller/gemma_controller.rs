//! Phases of the questioning strategy and the controller's own types.
use vstd::prelude::*;

use crate::json::{json_get, json_parse, json_str, json_text, json_to_string, parse_json, JsonValue};
use crate::engine::constraint::{
    chunk_content, chunk_source, constraint_chunks, constraint_prompt_lines, Constraint,
    ConstraintManager,
};
use crate::models::graph::{is_live_node, Graph};
use crate::models::node::{prompt_summary, Node, NodeStatus};
use crate::ollama::client::{
    tool_message_json, Message, OllamaError, Tool, ToolCall, ToolCallFunction, ToolMessage,
};
use crate::tools::registry::{builtin_tool_names, ToolRegistry};
use crate::text::{
    chars_of, ends_with, join, join_exec, lines, lines_exec, push_decimal, push_str, starts_with,
    string_of, trim, trim_vec, decimal,
};

verus! {

/// Controller mode.
#[derive(Debug, Clone, Copy, PartialEq, Eq, Structural)]
pub enum ControllerMode {
    /// Diverging (the default).
    Diverge,
    /// Converging.
    Converge,
}

impl Default for ControllerMode {
    fn default() -> (m: Self)
        ensures
            m == ControllerMode::Diverge,
    {
        ControllerMode::Diverge
    }
}

/// Questioning phase, chosen from the number of nodes.
#[derive(Debug, Clone, Copy, PartialEq, Eq, Structural)]
pub enum QuestionPhase {
    /// Fewer than 3 nodes: mostly ask questions.
    Exploration,
    /// 3 to 10 nodes: suggest, but still confirm.
    Development,
    /// More than 10 nodes: lead divergence and convergence.
    Mature,
}

/// The phase that a node count falls in.
pub open spec fn phase_for_count(count: nat) -> QuestionPhase {
    if count < 3 {
        QuestionPhase::Exploration
    } else if count <= 10 {
        QuestionPhase::Development
    } else {
        QuestionPhase::Mature
    }
}

/// The order of the phases: exploration, development, maturity.
pub open spec fn phase_rank(p: QuestionPhase) -> nat {
    match p {
        QuestionPhase::Exploration => 0,
        QuestionPhase::Development => 1,
        QuestionPhase::Mature => 2,
    }
}

/// The name of each phase.
pub open spec fn question_phase_name(p: QuestionPhase) -> Seq<char> {
    match p {
        QuestionPhase::Exploration => "探索期"@,
        QuestionPhase::Development => "發展期"@,
        QuestionPhase::Mature => "成熟期"@,
    }
}

/// The message told to the model on entering each phase.
pub open spec fn question_phase_message(p: QuestionPhase) -> Seq<char> {
    match p {
        QuestionPhase::Exploration => "你正處於「探索期」——節點數量少（< 3），你的主要任務是透過提問了解用戶的興趣、價值觀、經驗。不要急於給出框架或建議，每個回覆至少包含一個問題。"@,
        QuestionPhase::Development => "探索期已結束。現在進入「發展期」，你可以開始提出建議，但每次建議前仍需確認用戶想法。繼續透過提問深化理解。"@,
        QuestionPhase::Mature => "發展期已結束。現在進入「成熟期」，你可以在確認用戶想法後，主導發散和收斂操作，開始形成具體的建議框架。"@,
    }
}

/// An occurrence makes the text contain the pattern.
proof fn lemma_contains_at(s: Seq<char>, p: Seq<char>, i: int)
    requires
        crate::text::matches_at(s, p, i),
    ensures
        crate::text::contains(s, p),
{
    crate::text::lemma_find_from(s, p, 0);
}

/// Each phase's message names the phase, the three messages differ, and
/// the first one asks for questions (it holds `提問`).
pub proof fn lemma_phase_messages()
    ensures
        forall|p: QuestionPhase|
            crate::text::contains(#[trigger] question_phase_message(p), question_phase_name(p)),
        crate::text::contains(question_phase_message(QuestionPhase::Exploration), "提問"@),
        question_phase_message(QuestionPhase::Exploration) != question_phase_message(QuestionPhase::Development),
        question_phase_message(QuestionPhase::Exploration) != question_phase_message(QuestionPhase::Mature),
        question_phase_message(QuestionPhase::Development) != question_phase_message(QuestionPhase::Mature),
{
    let m1 = question_phase_message(QuestionPhase::Exploration);
    let m2 = question_phase_message(QuestionPhase::Development);
    let m3 = question_phase_message(QuestionPhase::Mature);
    reveal_strlit("你正處於「探索期」——節點數量少（< 3），你的主要任務是透過提問了解用戶的興趣、價值觀、經驗。不要急於給出框架或建議，每個回覆至少包含一個問題。");
    reveal_strlit("探索期已結束。現在進入「發展期」，你可以開始提出建議，但每次建議前仍需確認用戶想法。繼續透過提問深化理解。");
    reveal_strlit("發展期已結束。現在進入「成熟期」，你可以在確認用戶想法後，主導發散和收斂操作，開始形成具體的建議框架。");
    reveal_strlit("探索期");
    reveal_strlit("發展期");
    reveal_strlit("成熟期");
    reveal_strlit("提問");
    assert(m1.subrange(5, 8) =~= "探索期"@);
    lemma_contains_at(m1, "探索期"@, 5);
    assert(m2.subrange(12, 15) =~= "發展期"@);
    lemma_contains_at(m2, "發展期"@, 12);
    assert(m3.subrange(12, 15) =~= "成熟期"@);
    lemma_contains_at(m3, "成熟期"@, 12);
    assert(m1.subrange(31, 33) =~= "提問"@);
    lemma_contains_at(m1, "提問"@, 31);
    assert(m1[0] != m2[0]);
    assert(m1[0] != m3[0]);
    assert(m2[0] != m3[0]);
    assert forall|p: QuestionPhase|
        crate::text::contains(#[trigger] question_phase_message(p), question_phase_name(p)) by {
        match p {
            QuestionPhase::Exploration => {},
            QuestionPhase::Development => {},
            QuestionPhase::Mature => {},
        }
    }
}

impl QuestionPhase {
    /// The phase for a node count: under 3 exploration, up to 10 development,
    /// beyond that maturity.
    pub fn from_node_count(count: usize) -> (p: Self)
        ensures
            p == phase_for_count(count as nat),
    {
        if count < 3 {
            QuestionPhase::Exploration
        } else if count <= 10 {
            QuestionPhase::Development
        } else {
            QuestionPhase::Mature
        }
    }

    /// The phase's name.
    pub fn name(&self) -> (s: &'static str)
        ensures
            s@ == question_phase_name(*self),
    {
        match self {
            QuestionPhase::Exploration => "探索期",
            QuestionPhase::Development => "發展期",
            QuestionPhase::Mature => "成熟期",
        }
    }

    /// The message that announces the phase to the model.
    pub fn transition_message(&self) -> (s: &'static str)
        ensures
            s@ == question_phase_message(*self),
    {
        match self {
            QuestionPhase::Exploration => {
                "你正處於「探索期」——節點數量少（< 3），你的主要任務是透過提問了解用戶的興趣、價值觀、經驗。不要急於給出框架或建議，每個回覆至少包含一個問題。"
            },
            QuestionPhase::Development => {
                "探索期已結束。現在進入「發展期」，你可以開始提出建議，但每次建議前仍需確認用戶想法。繼續透過提問深化理解。"
            },
            QuestionPhase::Mature => {
                "發展期已結束。現在進入「成熟期」，你可以在確認用戶想法後，主導發散和收斂操作，開始形成具體的建議框架。"
            },
        }
    }
}

/// As nodes are added the phase never moves back.
pub proof fn lemma_phase_monotone(a: nat, b: nat)
    requires
        a <= b,
    ensures
        phase_rank(phase_for_count(a)) <= phase_rank(phase_for_count(b)),
{
}

/// The controller's phase and the one before its last change.
#[derive(Debug, Clone, Copy)]
pub struct PhaseState {
    /// The current phase.
    pub phase: QuestionPhase,
    /// The phase before the last change, if there was one.
    pub previous_phase: Option<QuestionPhase>,
}

impl PhaseState {
    /// The state of a controller over a graph of the given size.
    pub fn for_node_count(count: usize) -> (s: Self)
        ensures
            s.phase == phase_for_count(count as nat),
            s.previous_phase is None,
    {
        PhaseState { phase: QuestionPhase::from_node_count(count), previous_phase: None }
    }

    /// Recomputes the phase from the node count; when it changed, remembers
    /// the old one and returns the message that announces the new one (see
    /// `phase_check`).
    pub fn check_phase_transition(&mut self, node_count: usize) -> (r: Option<String>)
        ensures
            (*final(self), opt_text(r)) == phase_check(*old(self), node_count as nat),
    {
        let new_phase = QuestionPhase::from_node_count(node_count);
        if new_phase != self.phase {
            self.previous_phase = Some(self.phase);
            self.phase = new_phase;
            Some(String::from_str(new_phase.transition_message()))
        } else {
            None
        }
    }
}

/// The text of an optional string.
pub open spec fn opt_text(o: Option<String>) -> Option<Seq<char>> {
    match o {
        Some(s) => Some(s@),
        None => None,
    }
}

/// One phase check at a node count: the new state, and the announcement of
/// the new phase when it changed.
pub open spec fn phase_check(s: PhaseState, count: nat) -> (PhaseState, Option<Seq<char>>) {
    let p = phase_for_count(count);
    if p != s.phase {
        (PhaseState { phase: p, previous_phase: Some(s.phase) }, Some(question_phase_message(p)))
    } else {
        (s, None)
    }
}

/// A phase is announced only when it changes: checking twice at the same
/// node count announces nothing the second time, and after any check the
/// phase is the one of the node count.
pub proof fn lemma_transition_once(s: PhaseState, count: nat)
    ensures
        phase_check(phase_check(s, count).0, count).1 is None,
        phase_check(s, count).0.phase == phase_for_count(count),
        (phase_check(s, count).1 is Some) == (s.phase != phase_for_count(count)),
{
}

/// Errors of the controller.
#[derive(Debug)]
pub enum ControllerError {
    /// The model service failed.
    Ollama(OllamaError),
    /// A tool failed.
    ToolError(String),
    /// The round used up its iterations.
    MaxIterationsReached(usize),
}

impl ControllerError {
    /// The message that the error displays.
    pub fn message(&self) -> (s: String)
        ensures
            match self {
                ControllerError::Ollama(e) => s@ == "Ollama 錯誤: "@ + e.message_spec(),
                ControllerError::ToolError(m) => s@ == "工具錯誤: "@ + m@,
                ControllerError::MaxIterationsReached(n) => s@ == "超出最大迭代次數 ("@
                    + crate::text::decimal(*n as nat) + ")"@,
            },
    {
        let mut s = String::new();
        match self {
            ControllerError::Ollama(e) => {
                crate::text::push_str(&mut s, "Ollama 錯誤: ");
                let m = e.message();
                crate::text::push_str(&mut s, m.as_str());
            },
            ControllerError::ToolError(m) => {
                crate::text::push_str(&mut s, "工具錯誤: ");
                crate::text::push_str(&mut s, m.as_str());
            },
            ControllerError::MaxIterationsReached(n) => {
                crate::text::push_str(&mut s, "超出最大迭代次數 (");
                crate::text::push_decimal(&mut s, *n as u64);
                crate::text::push_str(&mut s, ")");
            },
        }
        s
    }
}

impl From<OllamaError> for ControllerError {
    fn from(err: OllamaError) -> (r: Self) {
        ControllerError::Ollama(err)
    }
}

impl vstd::std_specs::convert::FromSpecImpl<OllamaError> for ControllerError {
    open spec fn obeys_from_spec() -> bool {
        true
    }

    open spec fn from_spec(v: OllamaError) -> Self {
        ControllerError::Ollama(v)
    }
}

/// The label of each mode in the prompt.
pub open spec fn mode_label_spec(mode: ControllerMode) -> Seq<char> {
    match mode {
        ControllerMode::Diverge => "發散（探索）"@,
        ControllerMode::Converge => "收斂（聚焦）"@,
    }
}

/// The label of a mode in the prompt.
pub fn mode_label(mode: ControllerMode) -> (s: &'static str)
    ensures
        s@ == mode_label_spec(mode),
{
    match mode {
        ControllerMode::Diverge => "發散（探索）",
        ControllerMode::Converge => "收斂（聚焦）",
    }
}

/// The system prompt of each phase: the instructions of the phase with the
/// constraints and the memory; from the development phase on also the task,
/// the status summary and the mode.
pub open spec fn system_prompt_spec(
    phase: QuestionPhase,
    mode: ControllerMode,
    task: Seq<char>,
    status_summary: Seq<char>,
    constraints: Seq<char>,
    memory: Seq<char>,
) -> Seq<char> {
    let mode_str = mode_label_spec(mode);
    match phase {
        QuestionPhase::Exploration => "你是一個推理控制器，但你的首要任務是**提問**，而不是給答案。\n\n當前處於「探索期」——節點數量少（< 3），你的主要任務是：\n1. 透過提問了解用戶的興趣、價值觀、經驗\n2. 不要急於給出框架或建議\n3. 每個回覆至少包含一個問題\n\n"@
            + constraints
            + "\n"@
            + memory
            + "\n\n提問原則：\n- 先問開放性問題了解用戶\n- 避免問封閉性問題（是/否）\n- 問題要具體且與用戶相關\n\n興趣導向問題範本：\n- 「你對哪些領域特別有熱情？」\n- 「什麼事情讓你覺得有意義？」\n\n價值觀導向問題範本：\n- 「什麼事情對你來說最重要？」\n- 「你希望的人生畫面是什麼樣子？」\n\n經驗導向問題範本：\n- 「你過去有什麼類似的經驗？」\n- 「你之前嘗試過什麼方式？」\n\n約束導向問題範本：\n- 「有什麼限制是你必須考慮的？」\n- 「時間、資源、環境上有什麼約束？」"@,
        QuestionPhase::Development => "你是一個推理控制器，正在進入「發展期」。\n\n當前任務："@
            + task
            + "\n\n狀態摘要（讀取 workspace/status.xml）：\n"@
            + status_summary
            + "\n\n當前模式："@
            + mode_str
            + "\n\n"@
            + constraints
            + "\n\n"@
            + memory
            + "\n\n重要：你現在可以開始提出建議，但每次建議前需先問：\n「你對這個方向有什麼想法？」或「這符合你的預期嗎？」\n\n可用工具：\n- diverge(node_id, content, count) - 發散生成子節點\n- converge(threshold) - 觸發收斂\n- save(name) - 儲存狀態到 workspace\n- load(name) - 從 workspace 載入狀態\n- output(format, name) - 產出為 XML/MD 檔案\n- status() - 回傳狀態摘要\n\n規則：\n- 預設模式為發散\n- 當複雜度 > 80% 閾值，自動提醒\n- 沒有固定目標，持續探索\n- 產出存到 workspace/\n\n每次操作後，請閱讀 workspace/status.xml 了解最新狀態。"@,
        QuestionPhase::Mature => "你是一個推理控制器，正在進入「成熟期」。\n\n當前任務："@
            + task
            + "\n\n狀態摘要（讀取 workspace/status.xml）：\n"@
            + status_summary
            + "\n\n當前模式："@
            + mode_str
            + "\n\n"@
            + constraints
            + "\n\n"@
            + memory
            + "\n\n重要：在確認用戶想法後，你可以主導發散和收斂操作，開始形成具體的建議框架。\n\n可用工具：\n- diverge(node_id, content, count) - 發散生成子節點\n- converge(threshold) - 觸發收斂\n- save(name) - 儲存狀態到 workspace\n- load(name) - 從 workspace 載入狀態\n- output(format, name) - 產出為 XML/MD 檔案\n- status() - 回傳狀態摘要\n\n規則：\n- 預設模式為發散\n- 當複雜度 > 80% 閾值，自動提醒\n- 沒有固定目標，持續探索\n- 產出存到 workspace/\n\n每次操作後，請閱讀 workspace/status.xml 了解最新狀態。"@,
    }
}

/// The system prompt of a phase (see `system_prompt_spec`).
pub fn build_system_prompt(
    phase: QuestionPhase,
    mode: ControllerMode,
    task: &str,
    status_summary: &str,
    constraints: &str,
    memory: &str,
) -> (s: String)
    ensures
        s@ == system_prompt_spec(phase, mode, task@, status_summary@, constraints@, memory@),
{
    let mut s = String::new();
    match phase {
        QuestionPhase::Exploration => {
            push_str(&mut s, "你是一個推理控制器，但你的首要任務是**提問**，而不是給答案。\n\n當前處於「探索期」——節點數量少（< 3），你的主要任務是：\n1. 透過提問了解用戶的興趣、價值觀、經驗\n2. 不要急於給出框架或建議\n3. 每個回覆至少包含一個問題\n\n");
            push_str(&mut s, constraints);
            push_str(&mut s, "\n");
            push_str(&mut s, memory);
            push_str(&mut s, "\n\n提問原則：\n- 先問開放性問題了解用戶\n- 避免問封閉性問題（是/否）\n- 問題要具體且與用戶相關\n\n興趣導向問題範本：\n- 「你對哪些領域特別有熱情？」\n- 「什麼事情讓你覺得有意義？」\n\n價值觀導向問題範本：\n- 「什麼事情對你來說最重要？」\n- 「你希望的人生畫面是什麼樣子？」\n\n經驗導向問題範本：\n- 「你過去有什麼類似的經驗？」\n- 「你之前嘗試過什麼方式？」\n\n約束導向問題範本：\n- 「有什麼限制是你必須考慮的？」\n- 「時間、資源、環境上有什麼約束？」");
        },
        QuestionPhase::Development => {
            push_str(&mut s, "你是一個推理控制器，正在進入「發展期」。\n\n當前任務：");
            push_str(&mut s, task);
            push_str(&mut s, "\n\n狀態摘要（讀取 workspace/status.xml）：\n");
            push_str(&mut s, status_summary);
            push_str(&mut s, "\n\n當前模式：");
            push_str(&mut s, mode_label(mode));
            push_str(&mut s, "\n\n");
            push_str(&mut s, constraints);
            push_str(&mut s, "\n\n");
            push_str(&mut s, memory);
            push_str(&mut s, "\n\n重要：你現在可以開始提出建議，但每次建議前需先問：\n「你對這個方向有什麼想法？」或「這符合你的預期嗎？」\n\n可用工具：\n- diverge(node_id, content, count) - 發散生成子節點\n- converge(threshold) - 觸發收斂\n- save(name) - 儲存狀態到 workspace\n- load(name) - 從 workspace 載入狀態\n- output(format, name) - 產出為 XML/MD 檔案\n- status() - 回傳狀態摘要\n\n規則：\n- 預設模式為發散\n- 當複雜度 > 80% 閾值，自動提醒\n- 沒有固定目標，持續探索\n- 產出存到 workspace/\n\n每次操作後，請閱讀 workspace/status.xml 了解最新狀態。");
        },
        QuestionPhase::Mature => {
            push_str(&mut s, "你是一個推理控制器，正在進入「成熟期」。\n\n當前任務：");
            push_str(&mut s, task);
            push_str(&mut s, "\n\n狀態摘要（讀取 workspace/status.xml）：\n");
            push_str(&mut s, status_summary);
            push_str(&mut s, "\n\n當前模式：");
            push_str(&mut s, mode_label(mode));
            push_str(&mut s, "\n\n");
            push_str(&mut s, constraints);
            push_str(&mut s, "\n\n");
            push_str(&mut s, memory);
            push_str(&mut s, "\n\n重要：在確認用戶想法後，你可以主導發散和收斂操作，開始形成具體的建議框架。\n\n可用工具：\n- diverge(node_id, content, count) - 發散生成子節點\n- converge(threshold) - 觸發收斂\n- save(name) - 儲存狀態到 workspace\n- load(name) - 從 workspace 載入狀態\n- output(format, name) - 產出為 XML/MD 檔案\n- status() - 回傳狀態摘要\n\n規則：\n- 預設模式為發散\n- 當複雜度 > 80% 閾值，自動提醒\n- 沒有固定目標，持續探索\n- 產出存到 workspace/\n\n每次操作後，請閱讀 workspace/status.xml 了解最新狀態。");
        },
    }
    assert(s@ =~= system_prompt_spec(phase, mode, task@, status_summary@, constraints@, memory@));
    s
}

/// The lines of a reply that stay once JSON tool calls are taken out, from
/// line `i` on: lines of a block opened by a line starting with "```json" up
/// to its closing "```" line go, and so do lines that are a JSON object by
/// themselves.
pub open spec fn kept_lines(ls: Seq<Seq<char>>, i: int, in_block: bool) -> Seq<Seq<char>>
    decreases ls.len() - i,
{
    if i < 0 || i >= ls.len() {
        Seq::empty()
    } else {
        let t = trim(ls[i]);
        if starts_with(t, "```json"@) {
            kept_lines(ls, i + 1, true)
        } else if in_block && t == "```"@ {
            kept_lines(ls, i + 1, false)
        } else if in_block {
            kept_lines(ls, i + 1, true)
        } else if json_parse(t) is Some && starts_with(t, "{"@) && ends_with(t, "}"@) {
            kept_lines(ls, i + 1, false)
        } else {
            seq![ls[i]] + kept_lines(ls, i + 1, false)
        }
    }
}

/// A reply without its JSON tool calls, trimmed; the whole reply, trimmed,
/// when nothing else is left.
pub open spec fn stripped_reply(content: Seq<char>) -> Seq<char> {
    let cleaned = trim(join(kept_lines(lines(content), 0, false), "\n"@));
    if cleaned.len() == 0 {
        trim(content)
    } else {
        cleaned
    }
}

/// Takes the JSON tool calls out of a reply (see `stripped_reply`).
pub fn strip_json_tool_calls(content: &str) -> (r: String)
    ensures
        r@ == stripped_reply(content@),
{
    let c = chars_of(content);
    let ls = lines_exec(c.as_slice());
    let ghost lv = ls@.map_values(|x: Vec<char>| x@);
    let fence_json = chars_of("```json");
    let fence = chars_of("```");
    let open = chars_of("{");
    let close = chars_of("}");
    let mut kept: Vec<Vec<char>> = Vec::new();
    let mut in_block = false;
    let mut i: usize = 0;
    while i < ls.len()
        invariant
            i <= ls@.len(),
            lv == ls@.map_values(|x: Vec<char>| x@),
            lv == lines(content@),
            fence_json@ == "```json"@,
            fence@ == "```"@,
            open@ == "{"@,
            close@ == "}"@,
            kept@.map_values(|x: Vec<char>| x@) + kept_lines(lv, i as int, in_block) == kept_lines(lv, 0, false),
        decreases ls.len() - i,
    {
        let ghost before = kept@.map_values(|x: Vec<char>| x@);
        let t = trim_vec(ls[i].as_slice());
        assert(lv[i as int] == ls@[i as int]@);
        if crate::text::starts_with_exec(t.as_slice(), fence_json.as_slice()) {
            in_block = true;
        } else if in_block && crate::text::matches_at_exec(t.as_slice(), fence.as_slice(), 0) && t.len() == fence.len() {
            assert(t@ =~= fence@);
            in_block = false;
        } else if in_block {
            proof {
                if t@ == fence@ {
                    assert(t@.subrange(0, fence@.len() as int) =~= fence@);
                }
            }
        } else {
            let text = string_of(t.as_slice());
            let is_json = parse_json(text.as_str()).is_some();
            if is_json && crate::text::starts_with_exec(t.as_slice(), open.as_slice())
                && crate::text::ends_with_exec(t.as_slice(), close.as_slice()) {
            } else {
                let line = crate::text::slice_vec(ls[i].as_slice(), 0, ls[i].len());
                assert(ls@[i as int]@.subrange(0, ls@[i as int]@.len() as int) =~= ls@[i as int]@);
                kept.push(line);
                assert(kept@.map_values(|x: Vec<char>| x@) =~= before + seq![lv[i as int]]);
            }
        }
        i = i + 1;
    }
    assert(kept@.map_values(|x: Vec<char>| x@) =~= kept_lines(lv, 0, false));
    let joined = join_exec(&kept, "\n");
    let jc = chars_of(joined.as_str());
    let cleaned = trim_vec(jc.as_slice());
    if cleaned.len() == 0 {
        let whole = trim_vec(c.as_slice());
        string_of(whole.as_slice())
    } else {
        string_of(cleaned.as_slice())
    }
}

/// The tool call that one line of a reply writes as JSON: an object with a
/// string `name` (its `parameters` as the arguments, `{}` without), or
/// with a `function` object (its `name`, `unknown` without; its `arguments`
/// as they are when a string, as JSON otherwise, `{}` without).
pub open spec fn line_call(line: Seq<char>) -> Option<(Seq<char>, Seq<char>)> {
    match json_parse(trim(line)) {
        None => None,
        Some(v) => match json_get(v, "name"@) {
            Some(n) if json_str(n) is Some => Some(
                (
                    json_str(n)->0,
                    match json_get(v, "parameters"@) {
                        Some(p) => json_text(p@),
                        None => "{}"@,
                    },
                ),
            ),
            _ => match json_get(v, "function"@) {
                Some(JsonValue::Object(m)) => {
                    let f = JsonValue::Object(m);
                    let name = match json_get(f, "name"@) {
                        Some(n) => match json_str(n) {
                            Some(t) => t,
                            None => "unknown"@,
                        },
                        None => "unknown"@,
                    };
                    let args = match json_get(f, "arguments"@) {
                        Some(a) => match json_str(a) {
                            Some(t) => t,
                            None => json_text(a@),
                        },
                        None => "{}"@,
                    };
                    Some((name, args))
                },
                _ => None,
            },
        },
    }
}

/// The tool calls written in the lines of a reply, from line `i` on.
pub open spec fn line_calls(ls: Seq<Seq<char>>, i: int) -> Seq<(Seq<char>, Seq<char>)>
    decreases ls.len() - i,
{
    if i < 0 || i >= ls.len() {
        Seq::empty()
    } else {
        match line_call(ls[i]) {
            Some(c) => seq![c] + line_calls(ls, i + 1),
            None => line_calls(ls, i + 1),
        }
    }
}

/// A tool call as plain text: name and arguments.
pub open spec fn call_view(c: ToolCall) -> (Seq<char>, Seq<char>) {
    (c.function.name@, c.function.arguments@)
}

/// The tool call of one line (see `line_call`).
fn line_call_exec(line: &[char]) -> (r: Option<ToolCall>)
    ensures
        match r {
            Some(c) => line_call(line@) == Some(call_view(c)),
            None => line_call(line@) is None,
        },
{
    let t = trim_vec(line);
    let text = string_of(t.as_slice());
    let v = match parse_json(text.as_str()) {
        Some(v) => v,
        None => return None,
    };
    let named = match v.get("name") {
        Some(n) => match n.as_str() {
            Some(s) => Some(String::from_str(s)),
            None => None,
        },
        None => None,
    };
    match named {
        Some(name) => {
            let arguments = match v.get("parameters") {
                Some(p) => json_to_string(p),
                None => String::from_str("{}"),
            };
            Some(ToolCall { function: ToolCallFunction { name, arguments } })
        },
        None => match v.get("function") {
            Some(f) => match f {
                JsonValue::Object(_) => {
                    let name = match f.get("name") {
                        Some(n) => match n.as_str() {
                            Some(s) => String::from_str(s),
                            None => String::from_str("unknown"),
                        },
                        None => String::from_str("unknown"),
                    };
                    let arguments = match f.get("arguments") {
                        Some(a) => match a.as_str() {
                            Some(s) => String::from_str(s),
                            None => json_to_string(a),
                        },
                        None => String::from_str("{}"),
                    };
                    Some(ToolCall { function: ToolCallFunction { name, arguments } })
                },
                _ => None,
            },
            None => None,
        },
    }
}

/// The tool calls a reply writes as JSON lines (see `line_calls`).
pub fn parse_text_tool_calls(content: &str) -> (r: Vec<ToolCall>)
    ensures
        r@.map_values(|c: ToolCall| call_view(c)) == line_calls(lines(content@), 0),
{
    let c = chars_of(content);
    let ls = lines_exec(c.as_slice());
    let ghost lv = ls@.map_values(|x: Vec<char>| x@);
    let mut calls: Vec<ToolCall> = Vec::new();
    let mut i: usize = 0;
    while i < ls.len()
        invariant
            i <= ls@.len(),
            lv == ls@.map_values(|x: Vec<char>| x@),
            calls@.map_values(|c: ToolCall| call_view(c)) + line_calls(lv, i as int) == line_calls(lv, 0),
        decreases ls.len() - i,
    {
        let ghost before = calls@.map_values(|c: ToolCall| call_view(c));
        assert(lv[i as int] == ls@[i as int]@);
        match line_call_exec(ls[i].as_slice()) {
            Some(call) => {
                let ghost cv = call_view(call);
                calls.push(call);
                assert(calls@.map_values(|c: ToolCall| call_view(c)) =~= before + seq![cv]);
            },
            None => {},
        }
        i = i + 1;
    }
    assert(calls@.map_values(|c: ToolCall| call_view(c)) =~= line_calls(lv, 0));
    calls
}

/// The reply after a tool call written in the text: the cleaned reply and a
/// note of the tool and its outcome.
pub fn reply_with_tool_note(clean: &str, tool_name: &str, success: bool) -> (r: String)
    ensures
        r@ == clean@ + "\n\n[工具執行: "@ + tool_name@ + " → "@ + (if success {
            "成功"@
        } else {
            "失敗"@
        }) + "]"@,
{
    let mut r = String::from_str(clean);
    push_str(&mut r, "\n\n[工具執行: ");
    push_str(&mut r, tool_name);
    push_str(&mut r, " → ");
    if success {
        push_str(&mut r, "成功");
    } else {
        push_str(&mut r, "失敗");
    }
    push_str(&mut r, "]");
    r
}

/// The identifier of the tool answers of iteration `n`.
pub fn tool_call_id(n: usize) -> (r: String)
    ensures
        r@ == "call_"@ + decimal(n as nat),
{
    let mut r = String::from_str("call_");
    push_decimal(&mut r, n as u64);
    r
}

/// The iterations of one round of conversation: at most `max_iterations`
/// requests to the model.
#[derive(Debug, Clone, Copy)]
pub struct RoundBudget {
    /// The iterations made so far.
    pub iteration: usize,
    /// The most iterations allowed.
    pub max_iterations: usize,
}

impl RoundBudget {
    /// A round that may make ten requests.
    pub fn new() -> (b: Self)
        ensures
            b.iteration == 0,
            b.max_iterations == 10,
    {
        RoundBudget { iteration: 0, max_iterations: 10 }
    }

    /// Starts the next iteration when the budget allows it, and says whether
    /// it did.
    pub fn next_iteration(&mut self) -> (started: bool)
        requires
            old(self).iteration <= old(self).max_iterations,
        ensures
            final(self).max_iterations == old(self).max_iterations,
            started == (old(self).iteration < old(self).max_iterations),
            started ==> final(self).iteration == old(self).iteration + 1,
            !started ==> final(self).iteration == old(self).iteration,
            final(self).iteration <= final(self).max_iterations,
    {
        if self.iteration < self.max_iterations {
            self.iteration = self.iteration + 1;
            true
        } else {
            false
        }
    }

    /// The error of a round that used up its iterations.
    pub fn exhausted(&self) -> (e: ControllerError)
        ensures
            e == ControllerError::MaxIterationsReached(self.max_iterations),
    {
        ControllerError::MaxIterationsReached(self.max_iterations)
    }
}

/// The constraint text of the prompt for a list of constraints.
pub open spec fn constraints_text(v: Seq<Constraint>) -> Seq<char> {
    if v.len() == 0 {
        "（目前無約束條件）"@
    } else {
        "當前約束條件：\n"@ + constraint_prompt_lines(v, 0)
    }
}

/// The views of a list of messages.
pub open spec fn message_views(v: Seq<Message>) -> Seq<(Seq<char>, Seq<char>, Option<Seq<(Seq<char>, Seq<char>)>>)> {
    v.map_values(|m: Message| m@)
}

/// The view of a message without tool calls.
pub open spec fn plain_message(role: Seq<char>, content: Seq<char>) -> (Seq<char>, Seq<char>, Option<Seq<(Seq<char>, Seq<char>)>>) {
    (role, content, None)
}

/// What a round does after a reply of the model: hand the reply back, or
/// run the tools it asked for.
pub enum RoundStep {
    /// The reply's text, for the user.
    Reply(String),
    /// The tool calls to run.
    RunTools(Vec<ToolCall>),
}

/// The controller: the conversation with the model, its task and mode, the
/// questioning phase, the constraints and memory of the prompt, and the
/// reasoning graph that the tools work on.
///
/// The exchange with the model service runs in the application, which
/// asks the controller what to send and tells it what came back.
pub struct GemmaController {
    model: String,
    registry: ToolRegistry,
    graph: Graph,
    messages: Vec<Message>,
    task: String,
    mode: ControllerMode,
    state: PhaseState,
    constraint_manager: ConstraintManager,
    memory_prompt: String,
}

impl GemmaController {
    /// The graph is well formed and the registry holds each tool once.
    #[verifier::type_invariant]
    spec fn inv(self) -> bool {
        self.graph.wf() && self.registry.wf()
    }

    /// The model's name.
    pub closed spec fn model_spec(&self) -> Seq<char> {
        self.model@
    }

    /// The current task.
    pub closed spec fn task_spec(&self) -> Seq<char> {
        self.task@
    }

    /// The current mode.
    pub closed spec fn mode_spec(&self) -> ControllerMode {
        self.mode
    }

    /// The phase and the one before it.
    pub closed spec fn state_spec(&self) -> PhaseState {
        self.state
    }

    /// The reasoning graph.
    pub closed spec fn graph_spec(&self) -> Graph {
        self.graph
    }

    /// The registry of the tools offered to the model.
    pub closed spec fn registry_spec(&self) -> ToolRegistry {
        self.registry
    }

    /// The conversation so far.
    pub closed spec fn messages_spec(&self) -> Seq<Message> {
        self.messages@
    }

    /// The constraints of the prompt.
    pub closed spec fn constraints_spec(&self) -> Seq<Constraint> {
        self.constraint_manager.constraints()
    }

    /// The memory text of the prompt.
    pub closed spec fn memory_spec(&self) -> Seq<char> {
        self.memory_prompt@
    }

    /// A controller for a model, over an empty graph: no task, divergent
    /// mode, exploration phase, no constraints, memory or messages.
    pub fn new(model: &str) -> (c: Self)
        ensures
            c.model_spec() == model@,
            c.task_spec() == Seq::<char>::empty(),
            c.mode_spec() == ControllerMode::Diverge,
            c.state_spec() == (PhaseState { phase: QuestionPhase::Exploration, previous_phase: None }),
            c.graph_spec().nodes@.len() == 0,
            c.graph_spec().edges@.len() == 0,
            c.messages_spec().len() == 0,
            c.constraints_spec().len() == 0,
            c.memory_spec() == Seq::<char>::empty(),
            forall|i: int|
                0 <= i < builtin_tool_names().len() ==> c.registry_spec().names().contains(
                    #[trigger] builtin_tool_names()[i],
                ),
    {
        GemmaController {
            model: String::from_str(model),
            registry: ToolRegistry::new(),
            graph: Graph::new(),
            messages: Vec::new(),
            task: String::new(),
            mode: ControllerMode::Diverge,
            state: PhaseState { phase: QuestionPhase::Exploration, previous_phase: None },
            constraint_manager: ConstraintManager::new(),
            memory_prompt: String::new(),
        }
    }

    /// A controller over a graph: its phase is the one of the graph's
    /// live node count.
    pub fn with_state(model: &str, graph: Graph) -> (c: Self)
        requires
            graph.wf(),
        ensures
            c.model_spec() == model@,
            c.task_spec() == Seq::<char>::empty(),
            c.mode_spec() == ControllerMode::Diverge,
            c.state_spec().phase == phase_for_count(graph.nodes@.filter(is_live_node()).len()),
            c.state_spec().previous_phase is None,
            c.graph_spec() == graph,
            c.messages_spec().len() == 0,
            c.constraints_spec().len() == 0,
            c.memory_spec() == Seq::<char>::empty(),
            forall|i: int|
                0 <= i < builtin_tool_names().len() ==> c.registry_spec().names().contains(
                    #[trigger] builtin_tool_names()[i],
                ),
    {
        let count = graph.node_count();
        GemmaController {
            model: String::from_str(model),
            registry: ToolRegistry::new(),
            graph,
            messages: Vec::new(),
            task: String::new(),
            mode: ControllerMode::Diverge,
            state: PhaseState::for_node_count(count),
            constraint_manager: ConstraintManager::new(),
            memory_prompt: String::new(),
        }
    }

    /// Takes the constraints from the text of the constraint file: none
    /// for an empty text, otherwise those that `ConstraintManager::from_xml`
    /// reads.
    pub fn load_constraints(&mut self, xml: &str)
        ensures
            xml@.len() == 0 ==> final(self).constraints_spec().len() == 0,
            xml@.len() > 0 ==> final(self).constraints_spec().len() == constraint_chunks(xml@).len(),
            forall|i: int|
                0 <= i < final(self).constraints_spec().len() ==> {
                    let chunk = #[trigger] constraint_chunks(xml@)[i];
                    &&& final(self).constraints_spec()[i].content@ == chunk_content(chunk)
                    &&& final(self).constraints_spec()[i].source == chunk_source(chunk)
                },
            final(self).task_spec() == old(self).task_spec(),
            final(self).mode_spec() == old(self).mode_spec(),
            final(self).state_spec() == old(self).state_spec(),
            final(self).graph_spec() == old(self).graph_spec(),
            final(self).messages_spec() == old(self).messages_spec(),
            final(self).memory_spec() == old(self).memory_spec(),
    {
        proof {
            use_type_invariant(&*self);
        }
        if xml.unicode_len() == 0 {
            self.constraint_manager = ConstraintManager::new();
        } else {
            self.constraint_manager = ConstraintManager::from_xml(xml);
        }
    }

    /// Sets the memory text of the prompt.
    pub fn set_memory_prompt(&mut self, text: &str)
        ensures
            final(self).memory_spec() == text@,
            final(self).task_spec() == old(self).task_spec(),
            final(self).mode_spec() == old(self).mode_spec(),
            final(self).state_spec() == old(self).state_spec(),
            final(self).graph_spec() == old(self).graph_spec(),
            final(self).messages_spec() == old(self).messages_spec(),
            final(self).constraints_spec() == old(self).constraints_spec(),
    {
        proof {
            use_type_invariant(&*self);
        }
        self.memory_prompt = String::from_str(text);
    }

    /// Sets the current task.
    pub fn set_task(&mut self, task: &str)
        ensures
            final(self).model_spec() == old(self).model_spec(),
            final(self).task_spec() == task@,
            final(self).mode_spec() == old(self).mode_spec(),
            final(self).state_spec() == old(self).state_spec(),
            final(self).graph_spec() == old(self).graph_spec(),
            final(self).messages_spec() == old(self).messages_spec(),
            final(self).constraints_spec() == old(self).constraints_spec(),
            final(self).memory_spec() == old(self).memory_spec(),
    {
        proof {
            use_type_invariant(&*self);
        }
        self.task = String::from_str(task);
    }

    /// The current task.
    pub fn task(&self) -> (t: &str)
        ensures
            t@ == self.task_spec(),
    {
        self.task.as_str()
    }

    /// Sets the mode.
    pub fn set_mode(&mut self, mode: ControllerMode)
        ensures
            final(self).model_spec() == old(self).model_spec(),
            final(self).mode_spec() == mode,
            final(self).task_spec() == old(self).task_spec(),
            final(self).state_spec() == old(self).state_spec(),
            final(self).graph_spec() == old(self).graph_spec(),
            final(self).messages_spec() == old(self).messages_spec(),
            final(self).constraints_spec() == old(self).constraints_spec(),
            final(self).memory_spec() == old(self).memory_spec(),
    {
        proof {
            use_type_invariant(&*self);
        }
        self.mode = mode;
    }

    /// The current mode.
    pub fn mode(&self) -> (m: ControllerMode)
        ensures
            m == self.mode_spec(),
    {
        self.mode
    }

    /// The current questioning phase.
    pub fn phase(&self) -> (p: QuestionPhase)
        ensures
            p == self.state_spec().phase,
    {
        self.state.phase
    }

    /// A copy of the reasoning graph.
    pub fn get_graph(&self) -> (g: Graph)
        ensures
            g.wf(),
            crate::models::graph::graph_view_eq(g, self.graph_spec()),
    {
        proof {
            use_type_invariant(self);
        }
        self.graph.copy()
    }

    /// The reasoning graph.
    pub fn graph(&self) -> (g: &Graph)
        ensures
            *g == self.graph_spec(),
            g.wf(),
    {
        proof {
            use_type_invariant(self);
        }
        &self.graph
    }

    /// Replaces the reasoning graph (after it was changed elsewhere).
    pub fn sync_graph(&mut self, graph: Graph)
        requires
            graph.wf(),
        ensures
            final(self).model_spec() == old(self).model_spec(),
            final(self).graph_spec() == graph,
            final(self).task_spec() == old(self).task_spec(),
            final(self).mode_spec() == old(self).mode_spec(),
            final(self).state_spec() == old(self).state_spec(),
            final(self).messages_spec() == old(self).messages_spec(),
            final(self).constraints_spec() == old(self).constraints_spec(),
            final(self).memory_spec() == old(self).memory_spec(),
    {
        proof {
            use_type_invariant(&*self);
        }
        self.graph = graph;
    }

    /// Takes the reasoning graph out, leaving an empty one (give it back
    /// with `sync_graph`).
    pub fn take_graph(&mut self) -> (g: Graph)
        ensures
            g == old(self).graph_spec(),
            g.wf(),
            final(self).graph_spec().nodes@.len() == 0,
            final(self).task_spec() == old(self).task_spec(),
            final(self).mode_spec() == old(self).mode_spec(),
            final(self).state_spec() == old(self).state_spec(),
            final(self).messages_spec() == old(self).messages_spec(),
            final(self).constraints_spec() == old(self).constraints_spec(),
            final(self).memory_spec() == old(self).memory_spec(),
    {
        proof {
            use_type_invariant(&*self);
        }
        let mut g = Graph::new();
        std::mem::swap(&mut g, &mut self.graph);
        g
    }

    /// Adds a message at the end of the conversation.
    fn push_message(&mut self, m: Message)
        ensures
            final(self).messages_spec() == old(self).messages_spec().push(m),
            final(self).task_spec() == old(self).task_spec(),
            final(self).mode_spec() == old(self).mode_spec(),
            final(self).state_spec() == old(self).state_spec(),
            final(self).graph_spec() == old(self).graph_spec(),
            final(self).registry_spec() == old(self).registry_spec(),
            final(self).constraints_spec() == old(self).constraints_spec(),
            final(self).memory_spec() == old(self).memory_spec(),
    {
        proof {
            use_type_invariant(&*self);
        }
        let mut v: Vec<Message> = Vec::new();
        std::mem::swap(&mut v, &mut self.messages);
        v.push(m);
        self.messages = v;
    }

    /// The conversation so far.
    pub fn messages(&self) -> (m: &Vec<Message>)
        ensures
            m@ == self.messages_spec(),
    {
        &self.messages
    }

    /// Forgets the conversation.
    pub fn clear_messages(&mut self)
        ensures
            final(self).messages_spec().len() == 0,
            final(self).task_spec() == old(self).task_spec(),
            final(self).mode_spec() == old(self).mode_spec(),
            final(self).state_spec() == old(self).state_spec(),
            final(self).graph_spec() == old(self).graph_spec(),
            final(self).constraints_spec() == old(self).constraints_spec(),
            final(self).memory_spec() == old(self).memory_spec(),
    {
        proof {
            use_type_invariant(&*self);
        }
        self.messages = Vec::new();
    }

    /// The tools offered to the model: those of its registry, in order.
    pub fn tools(&self) -> (t: Vec<Tool>)
        ensures
            t@.len() == self.registry_spec().tools().len(),
            forall|i: int| 0 <= i < t@.len() ==> (#[trigger] t@[i])@ == self.registry_spec().tools()[i]@,
    {
        self.registry.get_all_tools()
    }

    /// Recomputes the phase from the graph's live node count (see
    /// `phase_check`); gives the announcement of a new phase.
    pub fn check_phase_transition(&mut self) -> (r: Option<String>)
        ensures
            (final(self).state_spec(), opt_text(r)) == phase_check(
                old(self).state_spec(),
                old(self).graph_spec().nodes@.filter(is_live_node()).len(),
            ),
            final(self).task_spec() == old(self).task_spec(),
            final(self).mode_spec() == old(self).mode_spec(),
            final(self).graph_spec() == old(self).graph_spec(),
            final(self).messages_spec() == old(self).messages_spec(),
            final(self).constraints_spec() == old(self).constraints_spec(),
            final(self).memory_spec() == old(self).memory_spec(),
    {
        proof {
            use_type_invariant(&*self);
        }
        let count = self.graph.node_count();
        let mut state = self.state;
        let r = state.check_phase_transition(count);
        self.state = state;
        r
    }

    /// The system prompt for the current phase, mode and task, with a
    /// status summary (see `system_prompt_spec`).
    pub fn build_system_prompt(&self, status_summary: &str) -> (s: String)
        ensures
            s@ == system_prompt_spec(
                self.state_spec().phase,
                self.mode_spec(),
                self.task_spec(),
                status_summary@,
                constraints_text(self.constraints_spec()),
                self.memory_spec(),
            ),
    {
        let constraints = self.constraint_manager.format_for_prompt();
        build_system_prompt(
            self.state.phase,
            self.mode,
            self.task.as_str(),
            status_summary,
            constraints.as_str(),
            self.memory_prompt.as_str(),
        )
    }

    /// Opens a round for a user's input: checks the phase, builds the
    /// system prompt, adds the announcement of a new phase (as a system
    /// message) and the input (as a user message). Gives the prompt.
    pub fn begin_round(&mut self, user_input: &str, status_summary: &str) -> (prompt: String)
        ensures
            ({
                let (st, note) = phase_check(
                    old(self).state_spec(),
                    old(self).graph_spec().nodes@.filter(is_live_node()).len(),
                );
                &&& final(self).state_spec() == st
                &&& prompt@ == system_prompt_spec(
                    st.phase,
                    old(self).mode_spec(),
                    old(self).task_spec(),
                    status_summary@,
                    constraints_text(old(self).constraints_spec()),
                    old(self).memory_spec(),
                )
                &&& message_views(final(self).messages_spec()) == match note {
                    Some(t) => message_views(old(self).messages_spec()).push(
                        plain_message("system"@, t),
                    ).push(plain_message("user"@, user_input@)),
                    None => message_views(old(self).messages_spec()).push(
                        plain_message("user"@, user_input@),
                    ),
                }
            }),
            final(self).task_spec() == old(self).task_spec(),
            final(self).mode_spec() == old(self).mode_spec(),
            final(self).graph_spec() == old(self).graph_spec(),
            final(self).constraints_spec() == old(self).constraints_spec(),
            final(self).memory_spec() == old(self).memory_spec(),
    {
        proof {
            use_type_invariant(&*self);
        }
        let ghost before = message_views(self.messages@);
        let transition = self.check_phase_transition();
        let prompt = self.build_system_prompt(status_summary);
        match transition {
            Some(msg) => {
                let m = Message::system(msg.as_str());
                self.push_message(m);
            },
            None => {},
        }
        let ghost mid = message_views(self.messages@);
        let u = Message::user(user_input);
        self.push_message(u);
        assert(message_views(self.messages@) =~= mid.push(plain_message("user"@, user_input@)));
        prompt
    }

    /// The messages of one request: the system prompt, then the
    /// conversation.
    pub fn request_messages(&self, system_prompt: &str) -> (r: Vec<Message>)
        ensures
            message_views(r@) == seq![plain_message("system"@, system_prompt@)] + message_views(
                self.messages_spec(),
            ),
    {
        let mut r: Vec<Message> = Vec::new();
        r.push(Message::system(system_prompt));
        let ghost head = message_views(r@);
        let mut i: usize = 0;
        while i < self.messages.len()
            invariant
                i <= self.messages@.len(),
                head == seq![plain_message("system"@, system_prompt@)],
                message_views(r@) == head + message_views(self.messages@.take(i as int)),
            decreases self.messages.len() - i,
        {
            let m = self.messages[i].clone();
            let ghost mv = m@;
            let ghost before = message_views(r@);
            r.push(m);
            assert(message_views(r@) =~= before.push(mv));
            assert(message_views(self.messages@.take(i + 1)) =~= message_views(
                self.messages@.take(i as int),
            ).push(mv));
            assert(self.messages@.take(i + 1) =~= self.messages@.take(i as int).push(
                self.messages@[i as int],
            ));
            assert(message_views(r@) =~= head + message_views(self.messages@.take(i + 1)));
            i = i + 1;
        }
        assert(self.messages@.take(self.messages@.len() as int) =~= self.messages@);
        r
    }

    /// Takes in the model's reply: it joins the conversation; without tool
    /// calls its text is the round's answer, otherwise the calls are to be
    /// run.
    pub fn on_reply(&mut self, reply: Message, tool_calls: Option<Vec<ToolCall>>) -> (step: RoundStep)
        ensures
            final(self).messages_spec() == old(self).messages_spec().push(reply),
            match tool_calls {
                Some(calls) if calls@.len() > 0 => step matches RoundStep::RunTools(c) && c == calls,
                _ => step matches RoundStep::Reply(t) && t@ == reply.content@,
            },
            final(self).task_spec() == old(self).task_spec(),
            final(self).mode_spec() == old(self).mode_spec(),
            final(self).state_spec() == old(self).state_spec(),
            final(self).graph_spec() == old(self).graph_spec(),
            final(self).constraints_spec() == old(self).constraints_spec(),
            final(self).memory_spec() == old(self).memory_spec(),
    {
        proof {
            use_type_invariant(&*self);
        }
        let content = reply.content.clone();
        self.push_message(reply);
        match tool_calls {
            Some(calls) => {
                if calls.len() > 0 {
                    RoundStep::RunTools(calls)
                } else {
                    RoundStep::Reply(content)
                }
            },
            None => RoundStep::Reply(content),
        }
    }

    /// Adds the result of a tool run in iteration `iteration` to the
    /// conversation: a tool message whose text is the JSON of the tool
    /// answer to call `call_<iteration>`.
    pub fn record_tool_result(&mut self, iteration: usize, result_message: &str)
        ensures
            message_views(final(self).messages_spec()) == message_views(old(self).messages_spec()).push(
                plain_message(
                    "tool"@,
                    tool_message_json("tool"@, result_message@, "call_"@ + decimal(iteration as nat)),
                ),
            ),
            final(self).task_spec() == old(self).task_spec(),
            final(self).mode_spec() == old(self).mode_spec(),
            final(self).state_spec() == old(self).state_spec(),
            final(self).graph_spec() == old(self).graph_spec(),
            final(self).constraints_spec() == old(self).constraints_spec(),
            final(self).memory_spec() == old(self).memory_spec(),
    {
        proof {
            use_type_invariant(&*self);
        }
        let ghost before = message_views(self.messages@);
        let id = tool_call_id(iteration);
        let answer = ToolMessage::new(id.as_str(), result_message);
        let text = answer.to_json();
        let m = Message { role: String::from_str("tool"), content: text, tool_calls: None };
        self.push_message(m);
        assert(message_views(self.messages@) =~= before.push(m@));
    }
}

/// How strongly a node asks to be the focus: its findings, ten for a
/// conclusion, and its outgoing edges.
pub open spec fn focus_score(n: Node) -> int {
    n.key_findings@.len() + (if n.conclusion is Some {
        10int
    } else {
        0int
    }) + n.child_edges@.len()
}

/// Nodes that can be the focus: drafts and active nodes.
pub open spec fn is_focus_candidate(n: Node) -> bool {
    n.status == NodeStatus::Active || n.status == NodeStatus::Draft
}

/// The place of the focus among the first `k` nodes: the last candidate
/// of the highest score, if there is a candidate.
pub open spec fn focus_index(ns: Seq<Node>, k: int) -> Option<int>
    decreases k,
{
    if k <= 0 {
        None
    } else {
        let prev = focus_index(ns, k - 1);
        if is_focus_candidate(ns[k - 1]) {
            match prev {
                None => Some(k - 1),
                Some(j) => if focus_score(ns[k - 1]) >= focus_score(ns[j]) {
                    Some(k - 1)
                } else {
                    Some(j)
                },
            }
        } else {
            prev
        }
    }
}

/// Nodes that may be shown beside the focus: neither pruned nor failed.
pub open spec fn is_related_node() -> spec_fn(Node) -> bool {
    |n: Node| n.status != NodeStatus::Pruned && n.status != NodeStatus::Failed
}

/// The summaries of some nodes, each followed by a line break.
pub open spec fn summaries_text(ns: Seq<Node>) -> Seq<char>
    decreases ns.len(),
{
    if ns.len() == 0 {
        Seq::empty()
    } else {
        summaries_text(ns.drop_last()) + prompt_summary(ns.last()) + "\n"@
    }
}

/// The graph as the model sees it: the focus node and at most two other
/// nodes that are neither pruned nor failed, each by its summary.
pub open spec fn node_context_text(g: Graph) -> Seq<char> {
    let ns = g.nodes@;
    if ns.len() == 0 {
        "## 推理圖狀態\n\n（目前沒有任何節點，從零開始）"@
    } else {
        let related = ns.filter(is_related_node());
        let shown = if related.len() > 2 {
            related.take(2)
        } else {
            related
        };
        "## 推理圖狀態（v0.8 格式）\n### 當前焦點節點\n"@ + match focus_index(ns, ns.len() as int) {
            Some(j) => prompt_summary(ns[j]),
            None => "（找不到活躍節點）"@,
        } + "\n### 其他相關節點（最多2個）\n"@ + summaries_text(shown)
    }
}

/// A node's focus score.
fn focus_score_exec(n: &Node) -> (r: u128)
    ensures
        r == focus_score(*n),
{
    let c: u128 = if n.conclusion.is_some() {
        10
    } else {
        0
    };
    (n.key_findings.len() as u128) + c + (n.child_edges.len() as u128)
}

/// The graph as the model sees it (see `node_context_text`).
pub fn build_node_context(graph: &Graph) -> (s: String)
    ensures
        s@ == node_context_text(*graph),
{
    let ns = &graph.nodes;
    if ns.len() == 0 {
        return String::from_str("## 推理圖狀態\n\n（目前沒有任何節點，從零開始）");
    }
    let mut focus: Option<usize> = None;
    let mut best: u128 = 0;
    let mut i: usize = 0;
    while i < ns.len()
        invariant
            i <= ns@.len(),
            match focus {
                Some(j) => focus_index(ns@, i as int) == Some(j as int) && j < i && best == focus_score(
                    ns@[j as int],
                ),
                None => focus_index(ns@, i as int) is None,
            },
        decreases ns.len() - i,
    {
        if ns[i].status == NodeStatus::Active || ns[i].status == NodeStatus::Draft {
            let sc = focus_score_exec(&ns[i]);
            match focus {
                None => {
                    focus = Some(i);
                    best = sc;
                },
                Some(_) => {
                    if sc >= best {
                        focus = Some(i);
                        best = sc;
                    }
                },
            }
        }
        i = i + 1;
    }
    let mut s = String::from_str("## 推理圖狀態（v0.8 格式）\n### 當前焦點節點\n");
    match focus {
        Some(j) => {
            let text = ns[j].to_prompt_summary();
            push_str(&mut s, text.as_str());
        },
        None => push_str(&mut s, "（找不到活躍節點）"),
    }
    push_str(&mut s, "\n### 其他相關節點（最多2個）\n");
    let ghost head = s@;
    let ghost related = ns@.filter(is_related_node());
    let ghost p = is_related_node();
    let mut shown: Vec<&Node> = Vec::new();
    let mut k: usize = 0;
    assert(ns@.take(0) =~= Seq::<Node>::empty());
    assert(Seq::<Node>::empty().filter(p) =~= Seq::<Node>::empty()) by {
        reveal(Seq::filter);
    }
    while k < ns.len() && shown.len() < 2
        invariant
            k <= ns@.len(),
            p == is_related_node(),
            related == ns@.filter(p),
            shown@.len() <= 2,
            shown@.map_values(|n: &Node| *n) == ns@.take(k as int).filter(p),
            s@ == head + summaries_text(shown@.map_values(|n: &Node| *n)),
        decreases ns.len() - k,
    {
        proof {
            assert(ns@.take(k + 1) =~= ns@.take(k as int).push(ns@[k as int]));
            ns@.take(k as int).lemma_filter_push(ns@[k as int], p);
        }
        if ns[k].status != NodeStatus::Pruned && ns[k].status != NodeStatus::Failed {
            let ghost before = shown@.map_values(|n: &Node| *n);
            let text = ns[k].to_prompt_summary();
            push_str(&mut s, text.as_str());
            push_str(&mut s, "\n");
            shown.push(&ns[k]);
            assert(shown@.map_values(|n: &Node| *n) =~= before.push(ns@[k as int]));
            assert(before.push(ns@[k as int]).drop_last() =~= before);
        }
        k = k + 1;
    }
    proof {
        let sh = shown@.map_values(|n: &Node| *n);
        let taken = ns@.take(k as int);
        assert(ns@ =~= taken + ns@.skip(k as int));
        crate::models::graph::lemma_filter_prefix(ns@, k as int, p);
        if shown@.len() < 2 {
            assert(taken =~= ns@);
            assert(sh =~= related);
        } else {
            assert(sh.len() == 2);
            assert(related.take(2) =~= sh);
        }
    }
    s
}

} // verus!
