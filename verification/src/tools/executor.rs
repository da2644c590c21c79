//! The tool executor: runs the tools that the model calls on the reasoning
//! graph and the backtracking state.
//!
//! Tools that touch files, processes or the environment, and those whose
//! arguments are read into typed structures, are run by the application,
//! which calls the typed entry points here where the work is logic.
use vstd::prelude::*;

use crate::engine::backtrack::{classify_spec, hypotheses_spec, lowercase, CheckpointView, FailureView, pattern_from_lowercase, pattern_text, reason_text, to_lowercase, BacktrackManager, CheckpointReason, CorrectionHypothesis, FailurePattern, FailurePatternType, HypothesisView};
use crate::engine::graph_xml::{graph_snapshot, graph_xml_error, reads_as};
use crate::stamp::Timestamp;
use crate::engine::budget::ThresholdGate;
use crate::engine::converge::{picks, pruned_where, same_but_nodes, score_bound, ConvergeEngine, PruneRule};
use crate::engine::diverge::{
    branch_ids, can_diverge, divergence_edges, is_branch, put_edges, put_ids, DivergeEngine,
};
use crate::models::edge::Edge;
use crate::fixed::{fixed2, push_fixed2};
use crate::json::{
    json_error_text, json_get, json_i64, json_parse, json_str, json_strings, json_string_elements, json_text,
    json_to_string, parse_json, parse_json_detailed, JsonValue, JsonTree, json_member, json_string, json_count, json_signed, lemma_object_tree, lemma_array_tree, count_tree,
};
use crate::models::graph::{complexity_sum, feedback_recorded, is_live_edge, is_live_node, node_ids, Graph};
use crate::models::execution::{last_feedback, no_failed_task, pushed_history, ExecutionBridge, ExecutionResult, FeedbackItem};
use crate::models::node::Node;
use crate::ollama::client::{names_view, ToolCall};
use crate::text::{chars_of, contains, decimal, join, join_exec, push_decimal, push_signed_decimal, push_str, same_text, signed_decimal};

verus! {

/// What a tool execution reports.
#[derive(Debug)]
pub struct ToolResult {
    /// Whether it succeeded.
    pub success: bool,
    /// Its message.
    pub message: String,
    /// The tool's name.
    pub tool_name: String,
}

impl ToolResult {
    /// A successful result.
    pub fn success(tool_name: &str, message: &str) -> (r: Self)
        ensures
            r.success,
            r.message@ == message@,
            r.tool_name@ == tool_name@,
    {
        ToolResult { success: true, message: String::from_str(message), tool_name: String::from_str(tool_name) }
    }

    /// A failed result.
    pub fn error(tool_name: &str, message: &str) -> (r: Self)
        ensures
            !r.success,
            r.message@ == message@,
            r.tool_name@ == tool_name@,
    {
        ToolResult {
            success: false,
            message: String::from_str(message),
            tool_name: String::from_str(tool_name),
        }
    }
}

/// What the executor makes of a tool call.
pub enum ToolStep {
    /// The call was run: its result, and whether the graph should now be
    /// saved to the workspace.
    Done(ToolResult, bool),
    /// The call is for the application to run (files, processes, the
    /// environment, or arguments read into typed structures).
    External,
}

/// The tools that the application runs.
pub open spec fn is_external_tool(name: Seq<char>) -> bool {
    ||| name == "converge"@ || name == "save"@ || name == "load"@ || name == "output"@
    ||| name == "execute"@ || name == "exec_status"@ || name == "retry"@
    ||| name == "export_graph"@ || name == "export_node"@ || name == "export_hypotheses"@
    ||| name == "export_backtrack"@ || name == "export_memory"@ || name == "query_backtrack"@
}

/// The report of the `converge` tool: the identifiers pruned and the
/// complexity left (in thousandths, written with two decimals).
pub open spec fn converge_report(ids: Seq<Seq<char>>, complexity: nat) -> Seq<char> {
    if ids.len() == 0 {
        "沒有節點需要刪除，複雜度: "@ + fixed2(complexity)
    } else {
        "已刪除 "@ + decimal(ids.len()) + " 個節點: "@ + join(ids, ", "@) + "，複雜度: "@ + fixed2(complexity)
    }
}

/// Whether the application runs a tool (see `is_external_tool`).
fn external_tool(name: &str) -> (b: bool)
    ensures
        b == is_external_tool(name@),
{
    same_text(name, "converge") || same_text(name, "save") || same_text(name, "load")
        || same_text(name, "output") || same_text(name, "execute") || same_text(name, "exec_status")
        || same_text(name, "retry") || same_text(name, "export_graph") || same_text(name, "export_node")
        || same_text(name, "export_hypotheses") || same_text(name, "export_backtrack")
        || same_text(name, "export_memory") || same_text(name, "query_backtrack")
}

/// The tools the executor runs from their argument texts are neither
/// handed to the application nor taken for one another or for its other
/// tools.
pub proof fn lemma_argument_tools_distinct()
    ensures
        !is_external_tool("checkpoint"@),
        "checkpoint"@ != "diverge"@,
        "checkpoint"@ != "status"@,
        "checkpoint"@ != "last_node_id"@,
        !is_external_tool("backtrack"@),
        "backtrack"@ != "diverge"@,
        "backtrack"@ != "status"@,
        "backtrack"@ != "last_node_id"@,
        !is_external_tool("record_failure"@),
        "record_failure"@ != "diverge"@,
        "record_failure"@ != "status"@,
        "record_failure"@ != "last_node_id"@,
        !is_external_tool("get_hypotheses"@),
        "get_hypotheses"@ != "diverge"@,
        "get_hypotheses"@ != "status"@,
        "get_hypotheses"@ != "last_node_id"@,
        !is_external_tool("verify"@),
        "verify"@ != "diverge"@,
        "verify"@ != "status"@,
        "verify"@ != "last_node_id"@,
        "checkpoint"@ != "backtrack"@,
        "checkpoint"@ != "record_failure"@,
        "checkpoint"@ != "get_hypotheses"@,
        "checkpoint"@ != "verify"@,
        "backtrack"@ != "record_failure"@,
        "backtrack"@ != "get_hypotheses"@,
        "backtrack"@ != "verify"@,
        "record_failure"@ != "get_hypotheses"@,
        "record_failure"@ != "verify"@,
        "get_hypotheses"@ != "verify"@,
{
    reveal_strlit("backtrack");
    reveal_strlit("checkpoint");
    reveal_strlit("converge");
    reveal_strlit("diverge");
    reveal_strlit("exec_status");
    reveal_strlit("execute");
    reveal_strlit("export_backtrack");
    reveal_strlit("export_graph");
    reveal_strlit("export_hypotheses");
    reveal_strlit("export_memory");
    reveal_strlit("export_node");
    reveal_strlit("get_hypotheses");
    reveal_strlit("last_node_id");
    reveal_strlit("load");
    reveal_strlit("output");
    reveal_strlit("query_backtrack");
    reveal_strlit("record_failure");
    reveal_strlit("retry");
    reveal_strlit("save");
    reveal_strlit("status");
    reveal_strlit("verify");
    assert("checkpoint"@.len() != "converge"@.len());
    assert("checkpoint"@.len() != "save"@.len());
    assert("checkpoint"@.len() != "load"@.len());
    assert("checkpoint"@.len() != "output"@.len());
    assert("checkpoint"@.len() != "execute"@.len());
    assert("checkpoint"@.len() != "exec_status"@.len());
    assert("checkpoint"@.len() != "export_graph"@.len());
    assert("checkpoint"@.len() != "export_node"@.len());
    assert("checkpoint"@.len() != "export_hypotheses"@.len());
    assert("checkpoint"@.len() != "export_backtrack"@.len());
    assert("checkpoint"@.len() != "export_memory"@.len());
    assert("checkpoint"@.len() != "query_backtrack"@.len());
    assert("checkpoint"@.len() != "retry"@.len());
    assert("checkpoint"@.len() != "diverge"@.len());
    assert("checkpoint"@.len() != "status"@.len());
    assert("checkpoint"@.len() != "last_node_id"@.len());
    assert("backtrack"@.len() != "converge"@.len());
    assert("backtrack"@.len() != "save"@.len());
    assert("backtrack"@.len() != "load"@.len());
    assert("backtrack"@.len() != "output"@.len());
    assert("backtrack"@.len() != "execute"@.len());
    assert("backtrack"@.len() != "exec_status"@.len());
    assert("backtrack"@.len() != "export_graph"@.len());
    assert("backtrack"@.len() != "export_node"@.len());
    assert("backtrack"@.len() != "export_hypotheses"@.len());
    assert("backtrack"@.len() != "export_backtrack"@.len());
    assert("backtrack"@.len() != "export_memory"@.len());
    assert("backtrack"@.len() != "query_backtrack"@.len());
    assert("backtrack"@.len() != "retry"@.len());
    assert("backtrack"@.len() != "diverge"@.len());
    assert("backtrack"@.len() != "status"@.len());
    assert("backtrack"@.len() != "last_node_id"@.len());
    assert("record_failure"@.len() != "converge"@.len());
    assert("record_failure"@.len() != "save"@.len());
    assert("record_failure"@.len() != "load"@.len());
    assert("record_failure"@.len() != "output"@.len());
    assert("record_failure"@.len() != "execute"@.len());
    assert("record_failure"@.len() != "exec_status"@.len());
    assert("record_failure"@.len() != "export_graph"@.len());
    assert("record_failure"@.len() != "export_node"@.len());
    assert("record_failure"@.len() != "export_hypotheses"@.len());
    assert("record_failure"@.len() != "export_backtrack"@.len());
    assert("record_failure"@.len() != "export_memory"@.len());
    assert("record_failure"@.len() != "query_backtrack"@.len());
    assert("record_failure"@.len() != "retry"@.len());
    assert("record_failure"@.len() != "diverge"@.len());
    assert("record_failure"@.len() != "status"@.len());
    assert("record_failure"@.len() != "last_node_id"@.len());
    assert("get_hypotheses"@.len() != "converge"@.len());
    assert("get_hypotheses"@.len() != "save"@.len());
    assert("get_hypotheses"@.len() != "load"@.len());
    assert("get_hypotheses"@.len() != "output"@.len());
    assert("get_hypotheses"@.len() != "execute"@.len());
    assert("get_hypotheses"@.len() != "exec_status"@.len());
    assert("get_hypotheses"@.len() != "export_graph"@.len());
    assert("get_hypotheses"@.len() != "export_node"@.len());
    assert("get_hypotheses"@.len() != "export_hypotheses"@.len());
    assert("get_hypotheses"@.len() != "export_backtrack"@.len());
    assert("get_hypotheses"@.len() != "export_memory"@.len());
    assert("get_hypotheses"@.len() != "query_backtrack"@.len());
    assert("get_hypotheses"@.len() != "retry"@.len());
    assert("get_hypotheses"@.len() != "diverge"@.len());
    assert("get_hypotheses"@.len() != "status"@.len());
    assert("get_hypotheses"@.len() != "last_node_id"@.len());
    assert("verify"@.len() != "converge"@.len());
    assert("verify"@.len() != "save"@.len());
    assert("verify"@.len() != "load"@.len());
    assert("verify"@[0] != "output"@[0]);
    assert("verify"@.len() != "execute"@.len());
    assert("verify"@.len() != "exec_status"@.len());
    assert("verify"@.len() != "export_graph"@.len());
    assert("verify"@.len() != "export_node"@.len());
    assert("verify"@.len() != "export_hypotheses"@.len());
    assert("verify"@.len() != "export_backtrack"@.len());
    assert("verify"@.len() != "export_memory"@.len());
    assert("verify"@.len() != "query_backtrack"@.len());
    assert("verify"@.len() != "retry"@.len());
    assert("verify"@.len() != "diverge"@.len());
    assert("verify"@[0] != "status"@[0]);
    assert("verify"@.len() != "last_node_id"@.len());
    assert("checkpoint"@.len() != "backtrack"@.len());
    assert("checkpoint"@.len() != "record_failure"@.len());
    assert("checkpoint"@.len() != "get_hypotheses"@.len());
    assert("checkpoint"@.len() != "verify"@.len());
    assert("backtrack"@.len() != "record_failure"@.len());
    assert("backtrack"@.len() != "get_hypotheses"@.len());
    assert("backtrack"@.len() != "verify"@.len());
    assert("record_failure"@[0] != "get_hypotheses"@[0]);
    assert("record_failure"@.len() != "verify"@.len());
    assert("get_hypotheses"@.len() != "verify"@.len());
}

/// The tools the executor runs itself are not handed to the application.
pub proof fn lemma_own_tools_not_external()
    ensures
        !is_external_tool("diverge"@),
        !is_external_tool("status"@),
        !is_external_tool("last_node_id"@),
        "diverge"@ != "status"@,
        "diverge"@ != "last_node_id"@,
        "status"@ != "last_node_id"@,
{
    reveal_strlit("diverge");
    reveal_strlit("status");
    reveal_strlit("last_node_id");
    reveal_strlit("converge");
    reveal_strlit("save");
    reveal_strlit("load");
    reveal_strlit("output");
    reveal_strlit("execute");
    reveal_strlit("exec_status");
    reveal_strlit("checkpoint");
    reveal_strlit("backtrack");
    reveal_strlit("record_failure");
    reveal_strlit("get_hypotheses");
    reveal_strlit("export_graph");
    reveal_strlit("export_node");
    reveal_strlit("export_hypotheses");
    reveal_strlit("export_backtrack");
    reveal_strlit("export_memory");
    reveal_strlit("query_backtrack");
    reveal_strlit("verify");
    reveal_strlit("retry");
    assert("diverge"@.len() != "converge"@.len());
    assert("diverge"@.len() != "save"@.len());
    assert("diverge"@.len() != "load"@.len());
    assert("diverge"@.len() != "output"@.len());
    assert("diverge"@[0] != "execute"@[0]);
    assert("diverge"@.len() != "exec_status"@.len());
    assert("diverge"@.len() != "checkpoint"@.len());
    assert("diverge"@.len() != "backtrack"@.len());
    assert("diverge"@.len() != "record_failure"@.len());
    assert("diverge"@.len() != "get_hypotheses"@.len());
    assert("diverge"@.len() != "export_graph"@.len());
    assert("diverge"@.len() != "export_node"@.len());
    assert("diverge"@.len() != "export_hypotheses"@.len());
    assert("diverge"@.len() != "export_backtrack"@.len());
    assert("diverge"@.len() != "export_memory"@.len());
    assert("diverge"@.len() != "query_backtrack"@.len());
    assert("diverge"@.len() != "verify"@.len());
    assert("diverge"@.len() != "retry"@.len());
    assert("diverge"@.len() != "status"@.len());
    assert("diverge"@.len() != "last_node_id"@.len());
    assert("status"@.len() != "converge"@.len());
    assert("status"@.len() != "save"@.len());
    assert("status"@.len() != "load"@.len());
    assert("status"@[0] != "output"@[0]);
    assert("status"@.len() != "execute"@.len());
    assert("status"@.len() != "exec_status"@.len());
    assert("status"@.len() != "checkpoint"@.len());
    assert("status"@.len() != "backtrack"@.len());
    assert("status"@.len() != "record_failure"@.len());
    assert("status"@.len() != "get_hypotheses"@.len());
    assert("status"@.len() != "export_graph"@.len());
    assert("status"@.len() != "export_node"@.len());
    assert("status"@.len() != "export_hypotheses"@.len());
    assert("status"@.len() != "export_backtrack"@.len());
    assert("status"@.len() != "export_memory"@.len());
    assert("status"@.len() != "query_backtrack"@.len());
    assert("status"@[0] != "verify"@[0]);
    assert("status"@.len() != "retry"@.len());
    assert("status"@.len() != "diverge"@.len());
    assert("status"@.len() != "last_node_id"@.len());
    assert("last_node_id"@.len() != "converge"@.len());
    assert("last_node_id"@.len() != "save"@.len());
    assert("last_node_id"@.len() != "load"@.len());
    assert("last_node_id"@.len() != "output"@.len());
    assert("last_node_id"@.len() != "execute"@.len());
    assert("last_node_id"@.len() != "exec_status"@.len());
    assert("last_node_id"@.len() != "checkpoint"@.len());
    assert("last_node_id"@.len() != "backtrack"@.len());
    assert("last_node_id"@.len() != "record_failure"@.len());
    assert("last_node_id"@.len() != "get_hypotheses"@.len());
    assert("last_node_id"@[0] != "export_graph"@[0]);
    assert("last_node_id"@.len() != "export_node"@.len());
    assert("last_node_id"@.len() != "export_hypotheses"@.len());
    assert("last_node_id"@.len() != "export_backtrack"@.len());
    assert("last_node_id"@.len() != "export_memory"@.len());
    assert("last_node_id"@.len() != "query_backtrack"@.len());
    assert("last_node_id"@.len() != "verify"@.len());
    assert("last_node_id"@.len() != "retry"@.len());
    assert("last_node_id"@.len() != "diverge"@.len());
    assert("last_node_id"@.len() != "status"@.len());
}

/// The status summary of a graph.
pub open spec fn status_text(g: Graph) -> Seq<char> {
    "狀態摘要：節點數="@ + decimal(g.nodes@.filter(is_live_node()).len()) + ", 邊數="@ + decimal(
        g.edges@.filter(is_live_edge(g)).len(),
    ) + ", 複雜度="@ + fixed2(complexity_sum(g.nodes@.filter(is_live_node())))
}

/// The report of a divergence that made branches.
pub open spec fn diverge_report(ids: Seq<Seq<char>>, complexity: nat) -> Seq<char> {
    "已發散生成 "@ + decimal(ids.len()) + " 個子節點: "@ + join(ids, ", "@) + "，複雜度: "@ + fixed2(
        complexity,
    ) + "\n最後子節點ID: "@ + (if ids.len() > 0 {
        ids[0]
    } else {
        Seq::empty()
    })
}

/// The node a divergence call aims at, from its arguments: `None` to open
/// a root node (no `node_id`, or a null, empty or `root` one on an empty
/// graph), the first node for a null, empty or `root` one otherwise, else
/// the text given (empty when it is not a string).
pub open spec fn diverge_target(g: Graph, v: JsonValue) -> Option<Seq<char>> {
    match json_get(v, "node_id"@) {
        Some(n) => if n is Null || json_str(n) == Some(Seq::<char>::empty()) || json_str(n) == Some(
            "root"@,
        ) {
            if g.nodes@.len() == 0 {
                None
            } else {
                Some(g.nodes@[0].id@)
            }
        } else {
            match json_str(n) {
                Some(t) => Some(t),
                None => Some(Seq::empty()),
            }
        },
        None => None,
    }
}

/// A divergence aimed at the root (a null, empty or `root` node identifier)
/// of a graph that has nodes aims at the graph's first node: the branches
/// hang under that node.
pub proof fn lemma_root_target_is_first_node(g: Graph, v: JsonValue)
    requires
        g.wf(),
        g.nodes@.len() > 0,
        json_get(v, "node_id"@) matches Some(n) && (n is Null || json_str(n) == Some(Seq::<char>::empty())
            || json_str(n) == Some("root"@)),
    ensures
        diverge_target(g, v) == Some(g.nodes@[0].id@),
        g.has_node(g.nodes@[0].id@),
        g.node_of(g.nodes@[0].id@) == g.nodes@[0],
{
    let ids = crate::models::graph::node_ids(g.nodes@);
    assert(ids[0] == g.nodes@[0].id@);
    assert(ids.contains(g.nodes@[0].id@));
    let k = ids.index_of(g.nodes@[0].id@);
    assert(ids[k] == ids[0]);
}

/// Any other divergence target is the node named, and a call without a
/// node identifier opens a root node.
pub proof fn lemma_named_target(g: Graph, v: JsonValue)
    ensures
        json_get(v, "node_id"@) is None ==> diverge_target(g, v) is None,
        (json_get(v, "node_id"@) matches Some(n) && json_str(n) matches Some(t) && t.len() > 0 && t != "root"@)
            ==> diverge_target(g, v) == json_str(json_get(v, "node_id"@)->0),
{
}

/// The content of a new root node: the `content` text, or a default.
pub open spec fn root_content(v: JsonValue) -> Seq<char> {
    match json_get(v, "content"@) {
        Some(c) => match json_str(c) {
            Some(t) => t,
            None => "探索主題"@,
        },
        None => "探索主題"@,
    }
}

/// Whether `bs` are the branches a divergence made on target `t` with
/// arguments `v`: as many as asked, each a branch of the target (see
/// `is_branch`) with the contents of the arguments and in the graph; the
/// graph stores their identifiers, one after the other, and their
/// divergence edges.
pub open spec fn diverged_to(g0: Graph, g1: Graph, t: Seq<char>, v: JsonValue, bs: Seq<Node>) -> bool {
    &&& bs.len() == diverge_count(v)
    &&& forall|k: int|
        0 <= k < bs.len() ==> is_branch(#[trigger] bs[k], g0.node_of(t), diverge_contents(v), k as nat)
            && g1.has_node(bs[k].id@)
    &&& node_ids(g1.nodes@) == put_ids(node_ids(g0.nodes@), branch_ids(bs))
    &&& exists|es: Seq<Edge>| #[trigger] divergence_edges(t, bs, es) && g1.edges@ == put_edges(g0.edges@, es)
}

/// The contents handed to the divergence: the `content` text, alone.
pub open spec fn diverge_contents(v: JsonValue) -> Option<Seq<Seq<char>>> {
    match json_get(v, "content"@) {
        Some(c) => match json_str(c) {
            Some(t) => Some(seq![t]),
            None => None,
        },
        None => None,
    }
}

/// The number of branches asked for: `count`, three by default, cut to
/// 32 bits as `as i32` does.
pub open spec fn diverge_count(v: JsonValue) -> i32 {
    match json_get(v, "count"@) {
        Some(c) => match json_i64(c) {
            Some(n) => n as i32,
            None => 3,
        },
        None => 3,
    }
}

/// The JSON text of a checkpoint report: the object of the new
/// checkpoint's identifier, time, description, node and reason and the
/// number of checkpoints, as `serde_json` writes it.
pub open spec fn checkpoint_report(
    id: Seq<char>,
    created_at: Seq<char>,
    description: Seq<char>,
    node_id: Seq<char>,
    reason: Seq<char>,
    total: nat,
) -> Seq<char> {
    json_text(
        JsonTree::Object(
            seq![
                ("checkpoint_id"@, JsonTree::Str(id)),
                ("created_at"@, JsonTree::Str(created_at)),
                ("description"@, JsonTree::Str(description)),
                ("node_id"@, JsonTree::Str(node_id)),
                ("reason"@, JsonTree::Str(reason)),
                ("total_checkpoints"@, count_tree(total)),
            ],
        ),
    )
}

/// The reason a checkpoint call names: one of the known names, or manual.
pub open spec fn reason_of(s: Seq<char>) -> CheckpointReason {
    if s == "user_decision"@ {
        CheckpointReason::UserDecision
    } else if s == "phase_transition"@ {
        CheckpointReason::PhaseTransition
    } else if s == "pre_diverge"@ {
        CheckpointReason::PreDiverge
    } else if s == "pre_execute"@ {
        CheckpointReason::PreExecute
    } else {
        CheckpointReason::Manual
    }
}

/// A confidence in hundredths as JSON writes the number it stands for.
pub open spec fn hundredths_json(h: nat) -> Seq<char> {
    decimal(h / 100) + "."@ + (if h % 100 == 0 {
        "0"@
    } else if h % 10 == 0 {
        seq![crate::text::digit_char((h / 10) % 10)]
    } else {
        seq![crate::text::digit_char((h / 10) % 10), crate::text::digit_char(h % 10)]
    })
}

/// One hypothesis as a JSON value: its confidence, text, identifier,
/// failure and suggested action.
pub open spec fn hypothesis_tree(id: Seq<char>, h: HypothesisView) -> JsonTree {
    JsonTree::Object(
        seq![
            ("confidence"@, JsonTree::Number(None, hundredths_json(h.3 as nat))),
            ("hypothesis"@, JsonTree::Str(h.1)),
            ("id"@, JsonTree::Str(id)),
            ("original_failure"@, JsonTree::Str(h.0)),
            ("suggested_action"@, JsonTree::Str(h.2)),
        ],
    )
}

/// Some hypotheses as JSON values, in order.
pub open spec fn hypothesis_trees(hs: Seq<CorrectionHypothesis>) -> Seq<JsonTree> {
    hs.map_values(|h: CorrectionHypothesis| hypothesis_tree(h.id@, h@))
}

/// The JSON text of the hypotheses found: their number and the list; for
/// none, an empty list with a note.
pub open spec fn hypotheses_report(hs: Seq<CorrectionHypothesis>) -> Seq<char> {
    if hs.len() == 0 {
        json_text(
            JsonTree::Object(
                seq![
                    ("hypotheses"@, JsonTree::Array(Seq::empty())),
                    ("note"@, JsonTree::Str("沒有失敗記錄或假設"@)),
                ],
            ),
        )
    } else {
        json_text(
            JsonTree::Object(
                seq![
                    ("count"@, count_tree(hs.len())),
                    ("hypotheses"@, JsonTree::Array(hypothesis_trees(hs))),
                ],
            ),
        )
    }
}

/// The node a checkpoint hangs on: the one named, or for none the root of
/// the current topic (where both are there), else `root`.
pub open spec fn checkpoint_node(g: Graph, node_id: Seq<char>) -> Seq<char> {
    if node_id.len() > 0 {
        node_id
    } else {
        match g.current_topic() {
            Some(t) => if g.has_node(t.root_node_id@) {
                g.node_of(t.root_node_id@).id@
            } else {
                "root"@
            },
            None => "root"@,
        }
    }
}

/// An optional exit code as a JSON value: the number, or `null`.
pub open spec fn exit_code_tree(e: Option<i32>) -> JsonTree {
    match e {
        Some(c) => JsonTree::Number(Some(c as i64), crate::text::signed_decimal(c as int)),
        None => JsonTree::Null,
    }
}

/// The JSON text of a failure recorded from an execution result: the
/// object of its command, a high confidence, its exit code, identifier,
/// kind and error output, and the number of failures.
pub open spec fn failure_report(
    command: Seq<char>,
    exit_code: Option<i32>,
    id: Seq<char>,
    pattern: Seq<char>,
    stderr: Seq<char>,
    total: nat,
) -> Seq<char> {
    json_text(
        JsonTree::Object(
            seq![
                ("command"@, JsonTree::Str(command)),
                ("confidence"@, JsonTree::Str("high"@)),
                ("exit_code"@, exit_code_tree(exit_code)),
                ("failure_id"@, JsonTree::Str(id)),
                ("pattern_type"@, JsonTree::Str(pattern)),
                ("stderr"@, JsonTree::Str(stderr)),
                ("total_failures"@, count_tree(total)),
            ],
        ),
    )
}

/// The JSON text of a note: the object of its one member `note`.
pub open spec fn note_report(note: Seq<char>) -> Seq<char> {
    json_text(JsonTree::Object(seq![("note"@, JsonTree::Str(note))]))
}

/// The JSON text of a failure recorded by hand: the object of its
/// identifier and kind and the number of failures.
pub open spec fn manual_failure_report(id: Seq<char>, pattern: Seq<char>, total: nat) -> Seq<char> {
    json_text(
        JsonTree::Object(
            seq![
                ("failure_id"@, JsonTree::Str(id)),
                ("pattern_type"@, JsonTree::Str(pattern)),
                ("total_failures"@, count_tree(total)),
            ],
        ),
    )
}

/// Appends a confidence in hundredths as a JSON number.
#[verifier::spinoff_prover]
fn push_hundredths(s: &mut String, h: u32)
    ensures
        final(s)@ == old(s)@ + hundredths_json(h as nat),
{
    push_decimal(s, (h / 100) as u64);
    push_str(s, ".");
    let r = h % 100;
    if r == 0 {
        push_str(s, "0");
    } else {
        s.push(crate::fixed::digit_char_exec(((r / 10) % 10) as u128));
        if r % 10 != 0 {
            s.push(crate::fixed::digit_char_exec((r % 10) as u128));
        }
    }
    assert(s@ =~= old(s)@ + hundredths_json(h as nat));
}

/// Runs the tools on the graph, the branches engine and the backtracking
/// state, and remembers the last node made.
pub struct ToolExecutor {
    graph: Graph,
    diverge_engine: DivergeEngine,
    converge_engine: ConvergeEngine,
    backtrack_manager: BacktrackManager,
    last_node_id: Option<String>,
    complexity_budget: u64,
    execution_bridge: ExecutionBridge,
}

/// What the `checkpoint` tool gives and leaves, its arguments read (see
/// `ToolExecutor::checkpoint`).
pub open spec fn checkpoint_done(e0: ToolExecutor, e1: ToolExecutor, node_id: Seq<char>, reason: Seq<char>, description: Seq<char>, r: ToolResult) -> bool {
    &&& r.success
    &&& r.tool_name@ == "checkpoint"@
    &&& e1.graph_spec() == e0.graph_spec()
    &&& e1.last_node_spec() == e0.last_node_spec()
    &&& e1.backtrack_spec().failures_spec() == e0.backtrack_spec().failures_spec()
    &&& e1.backtrack_spec().checkpoints_spec().len() == e0.backtrack_spec().checkpoints_spec().len() + 1
    &&& ({ let c = e1.backtrack_spec().checkpoints_spec().last(); &&& e1.backtrack_spec().checkpoints_spec().drop_last() == e0.backtrack_spec().checkpoints_spec() &&& c.1 == checkpoint_node(e0.graph_spec(), node_id) &&& c.2 == graph_snapshot(e0.graph_spec()) &&& c.4 == reason_of(reason) &&& (description.len() > 0 ==> c.5 == description) &&& (description.len() == 0 ==> c.5.len() == 20 && c.5.take(14) == "checkpoint_at_"@) &&& r.message@ == checkpoint_report( c.0, c.3.0, c.5, c.1, reason_text(reason_of(reason)), e1.backtrack_spec().checkpoints_spec().len(), ) })
}

/// The JSON text of a restore: the object of the checkpoint restored, the
/// number of live nodes it gave back and success.
pub open spec fn restore_report(id: Seq<char>, count: nat) -> Seq<char> {
    json_text(
        JsonTree::Object(
            seq![
                ("restored_checkpoint_id"@, JsonTree::Str(id)),
                ("restored_node_count"@, count_tree(count)),
                ("success"@, JsonTree::Bool(true)),
            ],
        ),
    )
}

/// The checkpoint a `backtrack` call names: the last one's identifier when
/// `restore_last` is `true` in any case (none without checkpoints), else
/// `checkpoint_id`.
pub open spec fn backtrack_target(cps: Seq<CheckpointView>, checkpoint_id: Seq<char>, restore_last: Seq<char>) -> Seq<char> {
    if lowercase(restore_last) == "true"@ {
        if cps.len() > 0 {
            cps.last().0
        } else {
            Seq::empty()
        }
    } else {
        checkpoint_id
    }
}

/// Whether `i` is the first checkpoint with identifier `id`.
pub open spec fn first_checkpoint(cps: Seq<CheckpointView>, id: Seq<char>, i: int) -> bool {
    &&& 0 <= i < cps.len()
    &&& cps[i].0 == id
    &&& forall|j: int| 0 <= j < i ==> cps[j].0 != id
}

/// What the `backtrack` tool gives and leaves, its arguments read (see
/// `ToolExecutor::backtrack`): it restores the first checkpoint with the
/// identifier it names, and succeeds exactly where that checkpoint is there
/// and its snapshot can be read.
pub open spec fn backtrack_done(e0: ToolExecutor, e1: ToolExecutor, checkpoint_id: Seq<char>, restore_last: Seq<char>, r: (ToolResult, bool)) -> bool {
    let cps = e0.backtrack_spec().checkpoints_spec();
    let t = backtrack_target(cps, checkpoint_id, restore_last);
    &&& r.0.tool_name@ == "backtrack"@
    &&& e1.backtrack_spec() == e0.backtrack_spec()
    &&& e1.last_node_spec() == e0.last_node_spec()
    &&& r.1 == r.0.success
    &&& !r.1 ==> e1.graph_spec() == e0.graph_spec()
    &&& (checkpoint_id.len() == 0 && lowercase(restore_last) != "true"@) ==> !r.0.success && r.0.message@ == "需要 checkpoint_id 或 restore_last=true"@
    &&& (lowercase(restore_last) == "true"@ && t.len() == 0) ==> !r.0.success && r.0.message@ == "沒有可用的檢查點"@
    &&& (t.len() > 0 && exists|i: int| #[trigger] first_checkpoint(cps, t, i) && graph_xml_error(cps[i].2) is None) ==> r.0.success
    &&& (t.len() > 0 && !r.0.success) ==> r.0.message@ == "無法回溯到檢查點 "@ + t
    &&& r.0.success ==> exists|i: int| #[trigger] first_checkpoint(cps, t, i) && reads_as(cps[i].2, e1.graph_spec()) && graph_xml_error(cps[i].2) is None && r.0.message@ == restore_report(t, e1.graph_spec().nodes@.filter(is_live_node()).len())
}

/// Restoring the last checkpoint restores the one recorded last: with
/// `restore_last` true in any case and some checkpoint there, a successful
/// backtrack reports the last checkpoint's identifier and leaves the graph
/// read from a checkpoint of that identifier (from the last one itself
/// where no earlier one shares it); and it succeeds wherever that
/// identifier's first checkpoint can be read.
pub proof fn lemma_restore_last_is_last(
    e0: ToolExecutor,
    e1: ToolExecutor,
    checkpoint_id: Seq<char>,
    restore_last: Seq<char>,
    r: (ToolResult, bool),
)
    requires
        backtrack_done(e0, e1, checkpoint_id, restore_last, r),
        lowercase(restore_last) == "true"@,
        e0.backtrack_spec().checkpoints_spec().len() > 0,
    ensures
        ({
            let cps = e0.backtrack_spec().checkpoints_spec();
            let last = cps.len() - 1;
            &&& r.0.success ==> r.0.message@ == restore_report(cps[last].0, e1.graph_spec().nodes@.filter(is_live_node()).len())
            &&& r.0.success ==> exists|i: int| 0 <= i < cps.len() && cps[i].0 == cps[last].0 && reads_as(#[trigger] cps[i].2, e1.graph_spec())
            &&& (r.0.success && forall|j: int| 0 <= j < last ==> cps[j].0 != cps[last].0) ==> reads_as(cps[last].2, e1.graph_spec())
            &&& (cps[last].0.len() > 0 && (forall|j: int| 0 <= j < last ==> cps[j].0 != cps[last].0) && graph_xml_error(cps[last].2) is None) ==> r.0.success
        }),
{
    let cps = e0.backtrack_spec().checkpoints_spec();
    let last = cps.len() - 1;
    let t = backtrack_target(cps, checkpoint_id, restore_last);
    assert(t == cps[last].0);
    if r.0.success {
        let i = choose|i: int| #[trigger] first_checkpoint(cps, t, i) && reads_as(cps[i].2, e1.graph_spec());
        if forall|j: int| 0 <= j < last ==> cps[j].0 != cps[last].0 {
            if i < last {
                assert(cps[i].0 != cps[last].0);
            }
            assert(i == last);
        }
    }
    if cps[last].0.len() > 0 && (forall|j: int| 0 <= j < last ==> cps[j].0 != cps[last].0) && graph_xml_error(cps[last].2) is None {
        assert(first_checkpoint(cps, t, last));
    }
}

/// Restoring by identifier (without `restore_last`) restores the first
/// checkpoint of that identifier: it succeeds exactly where there is one
/// and its snapshot can be read, and the graph then reads as that
/// snapshot; the graph stays as it was otherwise.
pub proof fn lemma_restore_by_id(
    e0: ToolExecutor,
    e1: ToolExecutor,
    checkpoint_id: Seq<char>,
    restore_last: Seq<char>,
    r: (ToolResult, bool),
)
    requires
        backtrack_done(e0, e1, checkpoint_id, restore_last, r),
        lowercase(restore_last) != "true"@,
        checkpoint_id.len() > 0,
    ensures
        ({
            let cps = e0.backtrack_spec().checkpoints_spec();
            &&& r.0.success <==> exists|i: int|
                0 <= i < cps.len() && cps[i].0 == checkpoint_id && (forall|j: int| 0 <= j < i ==> cps[j].0 != checkpoint_id)
                    && #[trigger] graph_xml_error(cps[i].2) is None
            &&& r.0.success ==> exists|i: int|
                0 <= i < cps.len() && cps[i].0 == checkpoint_id && (forall|j: int| 0 <= j < i ==> cps[j].0 != checkpoint_id)
                    && reads_as(#[trigger] cps[i].2, e1.graph_spec())
            &&& !r.0.success ==> e1.graph_spec() == e0.graph_spec() && r.0.message@ == "無法回溯到檢查點 "@ + checkpoint_id
        }),
{
    let cps = e0.backtrack_spec().checkpoints_spec();
    let t = backtrack_target(cps, checkpoint_id, restore_last);
    assert(t == checkpoint_id);
    if r.0.success {
        let i = choose|i: int| #[trigger] first_checkpoint(cps, t, i) && reads_as(cps[i].2, e1.graph_spec());
        assert(graph_xml_error(cps[i].2) is None);
    } else {
        if exists|i: int|
            0 <= i < cps.len() && cps[i].0 == checkpoint_id && (forall|j: int| 0 <= j < i ==> cps[j].0 != checkpoint_id)
                && #[trigger] graph_xml_error(cps[i].2) is None {
            let i = choose|i: int|
                0 <= i < cps.len() && cps[i].0 == checkpoint_id && (forall|j: int| 0 <= j < i ==> cps[j].0 != checkpoint_id)
                    && #[trigger] graph_xml_error(cps[i].2) is None;
            assert(first_checkpoint(cps, t, i));
        }
    }
}

/// What the `record_failure` tool gives and leaves, its arguments read (see
/// `ToolExecutor::record_failure`).
pub open spec fn record_failure_done(e0: ToolExecutor, e1: ToolExecutor, node_id: Seq<char>, pattern_type: Seq<char>, command: Seq<char>, exit_code: Option<i32>, stderr: Seq<char>, execute_result_json: Seq<char>, r: ToolResult) -> bool {
    &&& r.success
    &&& r.tool_name@ == "record_failure"@
    &&& e1.graph_spec() == e0.graph_spec()
    &&& e1.last_node_spec() == e0.last_node_spec()
    &&& e1.backtrack_spec().checkpoints_spec() == e0.backtrack_spec().checkpoints_spec()
    &&& execute_result_json.len() == 0 ==> { let fs = e1.backtrack_spec().failures_spec(); &&& fs.len() == e0.backtrack_spec().failures_spec().len() + 1 &&& fs.drop_last() == e0.backtrack_spec().failures_spec() &&& fs.last().1 == pattern_from_lowercase(lowercase(pattern_type)) &&& fs.last().2 == command &&& fs.last().3 == exit_code &&& fs.last().4 == stderr &&& fs.last().5 == node_id &&& r.message@ == manual_failure_report( fs.last().0, pattern_text(fs.last().1), fs.len(), ) }
    &&& execute_result_json.len() > 0 ==> match json_parse(execute_result_json) { Some(v) if classify_spec(v) is Some => { let fs = e1.backtrack_spec().failures_spec(); &&& fs.len() == e0.backtrack_spec().failures_spec().len() + 1 &&& fs.drop_last() == e0.backtrack_spec().failures_spec() &&& classify_spec(v) == Some((fs.last().1, fs.last().2, fs.last().3, fs.last().4)) &&& fs.last().5 == node_id &&& r.message@ == failure_report( fs.last().2, fs.last().3, fs.last().0, pattern_text(fs.last().1), fs.last().4, fs.len(), ) }, _ => { &&& e1.backtrack_spec().failures_spec() == e0.backtrack_spec().failures_spec() &&& r.message@ == note_report("execute 結果成功，無需記錄失敗"@) }, }
}

/// What the `get_hypotheses` tool gives and leaves, its arguments read (see
/// `ToolExecutor::get_hypotheses`).
pub open spec fn hypotheses_done(e: ToolExecutor, failure_id: Seq<char>, get_last: Seq<char>, r: ToolResult) -> bool {
    &&& r.tool_name@ == "get_hypotheses"@
    &&& (failure_id.len() == 0 && lowercase(get_last) != "true"@) ==> !r.success && r.message@ == "需要 failure_id 或 get_last=true"@
    &&& (failure_id.len() > 0 || lowercase(get_last) == "true"@) ==> r.success
    &&& r.success ==> (exists|hs: Seq<CorrectionHypothesis>| hypotheses_for(e.backtrack_spec().failures_spec(), failure_id, lowercase(get_last) == "true"@, hs.map_values(|h: CorrectionHypothesis| h@)) && r.message@ == #[trigger] hypotheses_report(hs))
}

/// Whether `hv` are the hypotheses a `get_hypotheses` call asks for: those of
/// the first failure with identifier `failure_id` (none where there is no
/// such failure); without an identifier, for `last`, those of the last
/// failure (none without failures).
pub open spec fn hypotheses_for(fs: Seq<FailureView>, failure_id: Seq<char>, last: bool, hv: Seq<HypothesisView>) -> bool {
    if failure_id.len() > 0 {
        (exists|i: int| 0 <= i < fs.len() && #[trigger] fs[i].0 == failure_id && (forall|j: int| 0 <= j < i ==> fs[j].0 != failure_id) && hv == hypotheses_spec(fs[i]))
            || ((forall|i: int| 0 <= i < fs.len() ==> fs[i].0 != failure_id) && hv.len() == 0)
    } else if last {
        hv == if fs.len() > 0 {
            hypotheses_spec(fs.last())
        } else {
            Seq::<HypothesisView>::empty()
        }
    } else {
        false
    }
}

/// A string member of a tool's arguments: its text, the default where it is
/// missing; `None` where it is there but no string.
pub open spec fn str_arg(v: JsonValue, key: Seq<char>, default: Seq<char>) -> Option<Seq<char>> {
    match json_get(v, key) {
        None => Some(default),
        Some(x) => json_str(x),
    }
}

/// An optional integer member: `Some(None)` where it is missing or null,
/// `Some(Some(n))` for an integer that fits `i32`, `None` for anything else.
pub open spec fn opt_i32_arg(v: JsonValue, key: Seq<char>) -> Option<Option<i32>> {
    match json_get(v, key) {
        None => Some(None),
        Some(x) => if x is Null {
            Some(None)
        } else {
            match json_i64(x) {
                Some(n) => if i32::MIN <= n <= i32::MAX {
                    Some(Some(n as i32))
                } else {
                    None
                },
                None => None,
            }
        },
    }
}

/// The message for arguments that are no valid JSON.
pub open spec fn args_error(text: Seq<char>) -> Seq<char> {
    "參數解析失敗: "@ + json_error_text(text)
}

/// The message for arguments that are valid JSON of the wrong shape (not
/// an object, or a member of another type).
pub open spec fn args_shape_error() -> Seq<char> {
    "參數解析失敗: 參數型別不符"@
}

/// A refusal of a tool's arguments: the tool fails with the message and
/// the executor is left as it was.
pub open spec fn refused(e0: ToolExecutor, e1: ToolExecutor, tool: Seq<char>, message: Seq<char>, r: ToolResult) -> bool {
    &&& !r.success
    &&& r.tool_name@ == tool
    &&& r.message@ == message
    &&& e1 == e0
}

/// What the `checkpoint` tool does with its argument text: the members
/// `node_id` (default empty), `reason` (default `manual`) and `description`
/// (default empty) go to `checkpoint_done`; a refusal for other text.
pub open spec fn checkpoint_tool_done(e0: ToolExecutor, e1: ToolExecutor, args: Seq<char>, r: ToolResult) -> bool {
    match json_parse(args) {
        None => refused(e0, e1, "checkpoint"@, args_error(args), r),
        Some(v) => match (str_arg(v, "node_id"@, ""@), str_arg(v, "reason"@, "manual"@), str_arg(v, "description"@, ""@)) {
            (Some(a), Some(b), Some(c)) => if v is Object {
                checkpoint_done(e0, e1, a, b, c, r)
            } else {
                refused(e0, e1, "checkpoint"@, args_shape_error(), r)
            },
            _ => refused(e0, e1, "checkpoint"@, args_shape_error(), r),
        },
    }
}

/// What the `backtrack` tool does with its argument text: the members
/// `checkpoint_id` and `restore_last` (default empty) go to
/// `backtrack_done`; a refusal, with nothing to save, for other text.
pub open spec fn backtrack_tool_done(e0: ToolExecutor, e1: ToolExecutor, args: Seq<char>, r: (ToolResult, bool)) -> bool {
    match json_parse(args) {
        None => refused(e0, e1, "backtrack"@, args_error(args), r.0) && !r.1,
        Some(v) => match (str_arg(v, "checkpoint_id"@, ""@), str_arg(v, "restore_last"@, ""@)) {
            (Some(a), Some(b)) => if v is Object {
                backtrack_done(e0, e1, a, b, r)
            } else {
                refused(e0, e1, "backtrack"@, args_shape_error(), r.0) && !r.1
            },
            _ => refused(e0, e1, "backtrack"@, args_shape_error(), r.0) && !r.1,
        },
    }
}

/// What the `record_failure` tool does with its argument text: the string
/// members `node_id`, `pattern_type`, `command`, `stderr` and
/// `execute_result_json` (default empty) and the integer `exit_code`
/// (optional) go to `record_failure_done`; a refusal for other text.
pub open spec fn record_failure_tool_done(e0: ToolExecutor, e1: ToolExecutor, args: Seq<char>, r: ToolResult) -> bool {
    match json_parse(args) {
        None => refused(e0, e1, "record_failure"@, args_error(args), r),
        Some(v) => match (
            str_arg(v, "node_id"@, ""@),
            str_arg(v, "pattern_type"@, ""@),
            str_arg(v, "command"@, ""@),
            opt_i32_arg(v, "exit_code"@),
            str_arg(v, "stderr"@, ""@),
            str_arg(v, "execute_result_json"@, ""@),
        ) {
            (Some(a), Some(b), Some(c), Some(d), Some(f), Some(g)) => if v is Object {
                record_failure_done(e0, e1, a, b, c, d, f, g, r)
            } else {
                refused(e0, e1, "record_failure"@, args_shape_error(), r)
            },
            _ => refused(e0, e1, "record_failure"@, args_shape_error(), r),
        },
    }
}

/// What the `get_hypotheses` tool answers for its argument text: the
/// members `failure_id` and `get_last` (default empty) go to
/// `hypotheses_done`; a failure with the parse message for other text.
pub open spec fn hypotheses_tool_done(e: ToolExecutor, args: Seq<char>, r: ToolResult) -> bool {
    match json_parse(args) {
        None => !r.success && r.tool_name@ == "get_hypotheses"@ && r.message@ == args_error(args),
        Some(v) => match (str_arg(v, "failure_id"@, ""@), str_arg(v, "get_last"@, ""@)) {
            (Some(a), Some(b)) => if v is Object {
                hypotheses_done(e, a, b, r)
            } else {
                !r.success && r.tool_name@ == "get_hypotheses"@ && r.message@ == args_shape_error()
            },
            _ => !r.success && r.tool_name@ == "get_hypotheses"@ && r.message@ == args_shape_error(),
        },
    }
}

/// Reads a string member (see `str_arg`).
fn str_member(v: &JsonValue, key: &str, default: &str) -> (r: Option<String>)
    ensures
        match r {
            Some(t) => str_arg(*v, key@, default@) == Some(t@),
            None => str_arg(*v, key@, default@) is None,
        },
{
    match v.get(key) {
        None => Some(String::from_str(default)),
        Some(x) => match x.as_str() {
            Some(t) => Some(String::from_str(t)),
            None => None,
        },
    }
}

/// Reads an optional integer member (see `opt_i32_arg`).
fn opt_i32_member(v: &JsonValue, key: &str) -> (r: Option<Option<i32>>)
    ensures
        r == opt_i32_arg(*v, key@),
{
    match v.get(key) {
        None => Some(None),
        Some(x) => if x.is_null() {
            Some(None)
        } else {
            match x.as_i64() {
                Some(n) => if i32::MIN as i64 <= n && n <= i32::MAX as i64 {
                    Some(Some(n as i32))
                } else {
                    None
                },
                None => None,
            }
        },
    }
}

/// Whether a value is an object.
fn is_object(v: &JsonValue) -> (b: bool)
    ensures
        b == (*v is Object),
{
    match v {
        JsonValue::Object(_) => true,
        _ => false,
    }
}

/// The parse error of a tool's arguments as a failed result.
fn parse_failure(tool: &str, error: &str) -> (r: ToolResult)
    ensures
        !r.success,
        r.tool_name@ == tool@,
        r.message@ == "參數解析失敗: "@ + error@,
{
    let mut m = String::from_str("參數解析失敗: ");
    push_str(&mut m, error);
    ToolResult::error(tool, m.as_str())
}

/// The arguments of the `execute` tool.
#[derive(Debug)]
pub struct ExecuteArgs {
    /// The program to run.
    pub command: String,
    /// Its arguments.
    pub args: Vec<String>,
    /// The time limit in milliseconds.
    pub timeout_ms: u64,
    /// How to report the output: `json`, `exit_code`, or anything else for
    /// text.
    pub parse_mode: String,
    /// The node the outcome is recorded on.
    pub node_id: Option<String>,
}

/// The arguments of the `execute` tool as plain values.
pub type ExecuteArgsView = (Seq<char>, Seq<Seq<char>>, u64, Seq<char>, Option<Seq<char>>);

impl View for ExecuteArgs {
    type V = ExecuteArgsView;

    open spec fn view(&self) -> ExecuteArgsView {
        (
            self.command@,
            names_view(self.args@),
            self.timeout_ms,
            self.parse_mode@,
            match self.node_id {
                Some(n) => Some(n@),
                None => None,
            },
        )
    }
}

/// Whether every element of an array is a string.
pub open spec fn all_strings(a: Seq<JsonValue>) -> bool {
    forall|i: int| 0 <= i < a.len() ==> (#[trigger] a[i]) is String
}

/// The `args` member: an array of strings, empty where it is missing;
/// `None` for anything else.
pub open spec fn args_arg(v: JsonValue) -> Option<Seq<Seq<char>>> {
    match json_get(v, "args"@) {
        None => Some(Seq::empty()),
        Some(JsonValue::Array(a)) => if all_strings(a@) {
            Some(json_strings(a@))
        } else {
            None
        },
        _ => None,
    }
}

/// The `timeout_ms` member: a non-negative integer, 30000 where it is
/// missing; `None` for anything else.
pub open spec fn timeout_arg(v: JsonValue) -> Option<u64> {
    match json_get(v, "timeout_ms"@) {
        None => Some(30000),
        Some(x) => match json_i64(x) {
            Some(n) => if n >= 0 {
                Some(n as u64)
            } else {
                None
            },
            None => None,
        },
    }
}

/// The `node_id` member: `Some(None)` where it is missing or null, the
/// text of a string; `None` for anything else.
pub open spec fn opt_str_arg(v: JsonValue, key: Seq<char>) -> Option<Option<Seq<char>>> {
    match json_get(v, key) {
        None => Some(None),
        Some(x) => if x is Null {
            Some(None)
        } else {
            match json_str(x) {
                Some(t) => Some(Some(t)),
                None => None,
            }
        },
    }
}

/// The arguments of the `execute` tool read from a JSON value: an object
/// with a string `command` (required, not empty), optional `args` (strings,
/// default none), `timeout_ms` (default 30000), `parse_mode` (default
/// empty) and `node_id`; the refusal message otherwise.
pub open spec fn execute_args_spec(v: JsonValue) -> Result<ExecuteArgsView, Seq<char>> {
    let command = match json_get(v, "command"@) {
        Some(x) => json_str(x),
        None => None,
    };
    match (command, args_arg(v), timeout_arg(v), str_arg(v, "parse_mode"@, ""@), opt_str_arg(v, "node_id"@)) {
        (Some(c), Some(a), Some(t), Some(m), Some(n)) => if !(v is Object) {
            Err(args_shape_error())
        } else if c.len() == 0 {
            Err("command 不能為空"@)
        } else {
            Ok((c, a, t, m, n))
        },
        _ => Err(args_shape_error()),
    }
}

/// The arguments of the `execute` tool read from its argument text.
pub open spec fn execute_args_of(text: Seq<char>) -> Result<ExecuteArgsView, Seq<char>> {
    match json_parse(text) {
        None => Err(args_error(text)),
        Some(v) => execute_args_spec(v),
    }
}

/// Whether every element is a string (see `all_strings`).
fn all_strings_exec(a: &Vec<JsonValue>) -> (b: bool)
    ensures
        b == all_strings(a@),
{
    let mut i: usize = 0;
    while i < a.len()
        invariant
            i <= a@.len(),
            forall|j: int| 0 <= j < i ==> (#[trigger] a@[j]) is String,
        decreases a.len() - i,
    {
        match &a[i] {
            JsonValue::String(_) => {},
            _ => {
                return false;
            },
        }
        i = i + 1;
    }
    true
}

/// Reads the arguments of the `execute` tool (see `execute_args_of`).
pub fn execute_args(args: &str) -> (r: Result<ExecuteArgs, String>)
    ensures
        match r {
            Ok(a) => execute_args_of(args@) == Ok::<ExecuteArgsView, Seq<char>>(a@),
            Err(e) => execute_args_of(args@) == Err::<ExecuteArgsView, Seq<char>>(e@),
        },
{
    proof {
        reveal_strlit("");
    }
    let v = match parse_json_detailed(args) {
        Ok(v) => v,
        Err(e) => {
            let mut m = String::from_str("參數解析失敗: ");
            push_str(&mut m, e.as_str());
            return Err(m);
        },
    };
    let shape = String::from_str("參數解析失敗: 參數型別不符");
    let command = match v.get("command") {
        Some(x) => match x.as_str() {
            Some(c) => String::from_str(c),
            None => {
                return Err(shape);
            },
        },
        None => {
            return Err(shape);
        },
    };
    let list: Vec<String> = match v.get("args") {
        None => Vec::new(),
        Some(x) => match x {
            JsonValue::Array(a) => {
                if all_strings_exec(a) {
                    let l = json_string_elements(a);
                    assert(names_view(l@) =~= l@.map_values(|s: String| s@));
                    assert(args_arg(v) == Some(json_strings(a@)));
                    l
                } else {
                    return Err(shape);
                }
            },
            _ => {
                return Err(shape);
            },
        },
    };
    let timeout: u64 = match v.get("timeout_ms") {
        None => 30000,
        Some(x) => match x.as_i64() {
            Some(n) => if n >= 0 {
                n as u64
            } else {
                return Err(shape);
            },
            None => {
                return Err(shape);
            },
        },
    };
    let mode = match str_member(&v, "parse_mode", "") {
        Some(m) => m,
        None => {
            return Err(shape);
        },
    };
    let node: Option<String> = match v.get("node_id") {
        None => None,
        Some(x) => if x.is_null() {
            None
        } else {
            match x.as_str() {
                Some(t) => Some(String::from_str(t)),
                None => {
                    return Err(shape);
                },
            }
        },
    };
    if !is_object(&v) {
        return Err(shape);
    }
    if command.unicode_len() == 0 {
        return Err(String::from_str("command 不能為空"));
    }
    let a = ExecuteArgs { command, args: list, timeout_ms: timeout, parse_mode: mode, node_id: node };
    assert(args_arg(v) == Some(names_view(a.args@)));
    assert(timeout_arg(v) == Some(a.timeout_ms));
    assert(opt_str_arg(v, "node_id"@) == Some(a@.4));
    Ok(a)
}

/// Texts as JSON string values, in order.
pub open spec fn str_trees(v: Seq<Seq<char>>) -> Seq<JsonTree> {
    v.map_values(|t: Seq<char>| JsonTree::Str(t))
}

/// The members of a run's report, as `serde_json` orders them (by key):
/// the arguments, the command and the exit code; then, by parse mode, for
/// `json` the parsed standard output (or `null` with the raw text and the
/// parse error), for `exit_code` nothing more, for any other mode the two
/// outputs; and whether the exit code is zero.
pub open spec fn execute_members(
    command: Seq<char>,
    args: Seq<Seq<char>>,
    parse_mode: Seq<char>,
    exit_code: i32,
    stdout: Seq<char>,
    stderr: Seq<char>,
) -> Seq<(Seq<char>, JsonTree)> {
    let head = seq![
        ("args"@, JsonTree::Array(str_trees(args))),
        ("command"@, JsonTree::Str(command)),
        ("exit_code"@, JsonTree::Number(Some(exit_code as i64), signed_decimal(exit_code as int))),
    ];
    let parsed = if parse_mode == "json"@ {
        match json_parse(stdout) {
            Some(v) => seq![("parsed"@, v@)],
            None => seq![
                ("parse_error"@, JsonTree::Str("stdout 不是有效 JSON"@)),
                ("parsed"@, JsonTree::Null),
                ("raw"@, JsonTree::Str(stdout)),
            ],
        }
    } else {
        Seq::empty()
    };
    let outputs = if parse_mode == "exit_code"@ {
        Seq::empty()
    } else {
        seq![("stderr"@, JsonTree::Str(stderr)), ("stdout"@, JsonTree::Str(stdout))]
    };
    head + parsed + outputs + seq![("success"@, JsonTree::Bool(exit_code == 0))]
}

/// The JSON text of a run's report (see `execute_members`).
pub open spec fn execute_report_spec(
    command: Seq<char>,
    args: Seq<Seq<char>>,
    parse_mode: Seq<char>,
    exit_code: i32,
    stdout: Seq<char>,
    stderr: Seq<char>,
) -> Seq<char> {
    json_text(JsonTree::Object(execute_members(command, args, parse_mode, exit_code, stdout, stderr)))
}

/// The JSON text of the report of a command that could not be started: the
/// arguments, the command, the error and failure.
pub open spec fn spawn_failure_report_spec(command: Seq<char>, args: Seq<Seq<char>>, error: Seq<char>) -> Seq<char> {
    json_text(
        JsonTree::Object(
            seq![
                ("args"@, JsonTree::Array(str_trees(args))),
                ("command"@, JsonTree::Str(command)),
                ("error"@, JsonTree::Str("執行失敗: "@ + error)),
                ("success"@, JsonTree::Bool(false)),
            ],
        ),
    )
}

/// The JSON text of the report of a run stopped at its time limit: the
/// arguments, the command, the error naming the limit, and failure.
pub open spec fn timeout_report_spec(command: Seq<char>, args: Seq<Seq<char>>, timeout_ms: u64) -> Seq<char> {
    json_text(
        JsonTree::Object(
            seq![
                ("args"@, JsonTree::Array(str_trees(args))),
                ("command"@, JsonTree::Str(command)),
                ("error"@, JsonTree::Str("執行逾時: "@ + decimal(timeout_ms as nat) + " ms"@)),
                ("success"@, JsonTree::Bool(false)),
            ],
        ),
    )
}

/// The texts as an array of JSON strings.
fn string_array(v: &Vec<String>) -> (r: JsonValue)
    ensures
        r@ == JsonTree::Array(str_trees(names_view(v@))),
{
    let mut items: Vec<JsonValue> = Vec::new();
    let mut i: usize = 0;
    while i < v.len()
        invariant
            i <= v@.len(),
            items@.map_values(|x: JsonValue| x@) == str_trees(names_view(v@.take(i as int))),
        decreases v.len() - i,
    {
        let item = json_string(v[i].as_str());
        let ghost before = items@.map_values(|x: JsonValue| x@);
        items.push(item);
        proof {
            assert(v@.take(i + 1) =~= v@.take(i as int).push(v@[i as int]));
            assert(items@.map_values(|x: JsonValue| x@) =~= before.push(item@));
            assert(str_trees(names_view(v@.take(i + 1))) =~= str_trees(names_view(v@.take(i as int))).push(
                JsonTree::Str(v@[i as int]@),
            ));
        }
        i = i + 1;
    }
    assert(v@.take(v@.len() as int) =~= v@);
    let r = JsonValue::Array(items);
    proof {
        lemma_array_tree(items);
    }
    r
}

/// The report of a run (see `execute_report_spec`).
pub fn execute_report(a: &ExecuteArgs, exit_code: i32, stdout: &str, stderr: &str) -> (r: String)
    ensures
        r@ == execute_report_spec(a.command@, names_view(a.args@), a.parse_mode@, exit_code, stdout@, stderr@),
{
    proof {
        reveal_strlit("json");
        reveal_strlit("exit_code");
    }
    let ghost all = execute_members(a.command@, names_view(a.args@), a.parse_mode@, exit_code, stdout@, stderr@);
    let mut o: Vec<(String, JsonValue)> = Vec::new();
    o.push(json_member("args", string_array(&a.args)));
    o.push(json_member("command", json_string(a.command.as_str())));
    o.push(json_member("exit_code", json_signed(exit_code as i64)));
    let ghost head = o@.map_values(|p: (String, JsonValue)| (p.0@, p.1@));
    assert(head =~= seq![
        ("args"@, JsonTree::Array(str_trees(names_view(a.args@)))),
        ("command"@, JsonTree::Str(a.command@)),
        ("exit_code"@, JsonTree::Number(Some(exit_code as i64), signed_decimal(exit_code as int))),
    ]);
    let json_mode = same_text(a.parse_mode.as_str(), "json");
    let code_mode = same_text(a.parse_mode.as_str(), "exit_code");
    proof {
        assert(json_mode ==> !code_mode) by {
            assert("json"@.len() != "exit_code"@.len());
        }
    }
    if json_mode {
        match parse_json(stdout) {
            Some(v) => {
                let ghost pv = v@;
                o.push(json_member("parsed", v));
                assert(o@.map_values(|p: (String, JsonValue)| (p.0@, p.1@)) =~= head + seq![("parsed"@, pv)]);
            },
            None => {
                o.push(json_member("parse_error", json_string("stdout 不是有效 JSON")));
                o.push(json_member("parsed", JsonValue::Null));
                o.push(json_member("raw", json_string(stdout)));
                assert(o@.map_values(|p: (String, JsonValue)| (p.0@, p.1@)) =~= head + seq![
                    ("parse_error"@, JsonTree::Str("stdout 不是有效 JSON"@)),
                    ("parsed"@, JsonTree::Null),
                    ("raw"@, JsonTree::Str(stdout@)),
                ]);
            },
        }
    }
    let ghost mid = o@.map_values(|p: (String, JsonValue)| (p.0@, p.1@));
    if !code_mode {
        o.push(json_member("stderr", json_string(stderr)));
        o.push(json_member("stdout", json_string(stdout)));
        assert(o@.map_values(|p: (String, JsonValue)| (p.0@, p.1@)) =~= mid + seq![
            ("stderr"@, JsonTree::Str(stderr@)),
            ("stdout"@, JsonTree::Str(stdout@)),
        ]);
    }
    let ghost late = o@.map_values(|p: (String, JsonValue)| (p.0@, p.1@));
    o.push(json_member("success", JsonValue::Bool(exit_code == 0)));
    assert(o@.map_values(|p: (String, JsonValue)| (p.0@, p.1@)) =~= late + seq![
        ("success"@, JsonTree::Bool(exit_code == 0)),
    ]);
    assert(o@.map_values(|p: (String, JsonValue)| (p.0@, p.1@)) =~= all);
    let report = JsonValue::Object(o);
    proof {
        lemma_object_tree(o);
    }
    json_to_string(&report)
}

/// The report of a command that could not be started (see
/// `spawn_failure_report_spec`).
pub fn spawn_failure_report(a: &ExecuteArgs, error: &str) -> (r: String)
    ensures
        r@ == spawn_failure_report_spec(a.command@, names_view(a.args@), error@),
{
    let mut e = String::from_str("執行失敗: ");
    push_str(&mut e, error);
    let mut o: Vec<(String, JsonValue)> = Vec::new();
    o.push(json_member("args", string_array(&a.args)));
    o.push(json_member("command", json_string(a.command.as_str())));
    o.push(json_member("error", json_string(e.as_str())));
    o.push(json_member("success", JsonValue::Bool(false)));
    let report = JsonValue::Object(o);
    proof {
        lemma_object_tree(o);
        assert(o@.map_values(|p: (String, JsonValue)| (p.0@, p.1@)) =~= seq![
            ("args"@, JsonTree::Array(str_trees(names_view(a.args@)))),
            ("command"@, JsonTree::Str(a.command@)),
            ("error"@, JsonTree::Str("執行失敗: "@ + error@)),
            ("success"@, JsonTree::Bool(false)),
        ]);
    }
    json_to_string(&report)
}

/// The report of a run stopped at its time limit (see
/// `timeout_report_spec`).
pub fn timeout_report(a: &ExecuteArgs) -> (r: String)
    ensures
        r@ == timeout_report_spec(a.command@, names_view(a.args@), a.timeout_ms),
{
    let mut e = String::from_str("執行逾時: ");
    push_decimal(&mut e, a.timeout_ms);
    push_str(&mut e, " ms");
    let mut o: Vec<(String, JsonValue)> = Vec::new();
    o.push(json_member("args", string_array(&a.args)));
    o.push(json_member("command", json_string(a.command.as_str())));
    o.push(json_member("error", json_string(e.as_str())));
    o.push(json_member("success", JsonValue::Bool(false)));
    let report = JsonValue::Object(o);
    proof {
        lemma_object_tree(o);
        assert(o@.map_values(|p: (String, JsonValue)| (p.0@, p.1@)) =~= seq![
            ("args"@, JsonTree::Array(str_trees(names_view(a.args@)))),
            ("command"@, JsonTree::Str(a.command@)),
            ("error"@, JsonTree::Str("執行逾時: "@ + decimal(a.timeout_ms as nat) + " ms"@)),
            ("success"@, JsonTree::Bool(false)),
        ]);
    }
    json_to_string(&report)
}

/// Whether a feedback item is the outcome of an execution of a node: its
/// node, a success or failure carrying the message, no retry.
pub open spec fn feedback_item_for(f: FeedbackItem, id: Seq<char>, success: bool, message: Seq<char>) -> bool {
    &&& f.node_id@ == id
    &&& f.retry_count == 0
    &&& if success {
        f.result matches ExecutionResult::Success(m) && m@ == message
    } else {
        f.result matches ExecutionResult::Failure(m) && m@ == message
    }
}

/// How the bridge takes the outcome of an execution: one feedback item for
/// the node pushed onto its history (see `pushed_history`).
pub open spec fn feedback_pushed(b0: ExecutionBridge, b1: ExecutionBridge, id: Seq<char>, success: bool, message: Seq<char>) -> bool {
    &&& b1.pending_spec() == b0.pending_spec()
    &&& b1.max_history == b0.max_history
    &&& exists|f: FeedbackItem|
        #[trigger] feedback_item_for(f, id, success, message) && b1.history_spec() == pushed_history(
            b0.history_spec(),
            f,
            b0.max_history,
        )
}

/// A required string member: its text; `None` where it is missing or no
/// string.
pub open spec fn required_str(v: JsonValue, key: Seq<char>) -> Option<Seq<char>> {
    match json_get(v, key) {
        Some(x) => json_str(x),
        None => None,
    }
}

/// What the `verify` tool answers for its argument text: with string
/// members `node_id` and `expected`, success exactly where the node's
/// latest feedback carries a message containing the expected text (see
/// `ExecutionBridge::verify`), with a message saying so; a failure with the
/// parse message otherwise.
pub open spec fn verify_tool_done(e: ToolExecutor, args: Seq<char>, r: ToolResult) -> bool {
    &&& r.tool_name@ == "verify"@
    &&& match json_parse(args) {
        None => !r.success && r.message@ == args_error(args),
        Some(v) => match (required_str(v, "node_id"@), required_str(v, "expected"@)) {
            (Some(n), Some(x)) => if !(v is Object) {
                !r.success && r.message@ == args_shape_error()
            } else {
                let ok = match last_feedback(e.bridge_spec().history_spec(), n, false) {
                    Some(i) => match e.bridge_spec().history_spec()[i].result {
                        ExecutionResult::Success(m) => contains(m@, x),
                        ExecutionResult::Failure(m) => contains(m@, x),
                        _ => false,
                    },
                    None => false,
                };
                &&& r.success == ok
                &&& ok ==> r.message@ == "驗證成功：節點 "@ + n + " 結果包含「"@ + x + "」"@
                &&& !ok ==> r.message@ == "驗證失敗：節點 "@ + n + " 結果不包含「"@ + x + "」"@
            },
            _ => !r.success && r.message@ == args_shape_error(),
        },
    }
}

/// The result of the `retry` tool for the result of a retry: a success
/// with its message, or a failure naming the failure, the time-out or the
/// pending state.
pub open spec fn retry_message(result: ExecutionResult, r: ToolResult) -> bool {
    match result {
        ExecutionResult::Success(m) => r.success && r.message@ == "重試成功："@ + m@,
        ExecutionResult::Failure(m) => !r.success && r.message@ == "重試失敗："@ + m@,
        ExecutionResult::Timeout => !r.success && r.message@ == "重試逾時"@,
        ExecutionResult::Pending => !r.success && r.message@ == "重試執行中（不應發生）"@,
    }
}

impl ToolExecutor {
    /// The graph is well formed.
    pub closed spec fn wf(&self) -> bool {
        &&& self.graph.wf()
        &&& self.converge_engine.gate() == ThresholdGate::new_spec()
    }

    /// The reasoning graph.
    pub closed spec fn graph_spec(&self) -> Graph {
        self.graph
    }

    /// The backtracking state.
    pub closed spec fn backtrack_spec(&self) -> BacktrackManager {
        self.backtrack_manager
    }

    /// The execution bridge: the feedback of executions, for verify and
    /// retry.
    pub closed spec fn bridge_spec(&self) -> ExecutionBridge {
        self.execution_bridge
    }

    /// The complexity budget kept for the caller, in thousandths.
    pub closed spec fn budget_spec(&self) -> u64 {
        self.complexity_budget
    }

    /// The identifier of the last node made, if any.
    pub closed spec fn last_node_spec(&self) -> Option<Seq<char>> {
        match self.last_node_id {
            Some(s) => Some(s@),
            None => None,
        }
    }

    /// An executor over an empty graph.
    pub fn new() -> (e: Self)
        ensures
            e.wf(),
            e.graph_spec().nodes@.len() == 0,
            e.graph_spec().edges@.len() == 0,
            e.graph_spec().topics@.len() == 0,
            e.graph_spec().current_topic_id is None,
            e.budget_spec() == 0,
            e.bridge_spec().history_spec().len() == 0,
            e.bridge_spec().max_history == 100,
            e.last_node_spec() is None,
            e.backtrack_spec().checkpoints_spec().len() == 0,
            e.backtrack_spec().failures_spec().len() == 0,
    {
        ToolExecutor {
            graph: Graph::new(),
            diverge_engine: DivergeEngine::new(),
            converge_engine: ConvergeEngine::new(),
            backtrack_manager: BacktrackManager::new(),
            last_node_id: None,
            complexity_budget: 0,
            execution_bridge: ExecutionBridge::new(),
        }
    }

    /// An executor over a graph.
    pub fn with_graph(graph: Graph) -> (e: Self)
        requires
            graph.wf(),
        ensures
            e.wf(),
            e.graph_spec() == graph,
            e.budget_spec() == 0,
            e.bridge_spec().history_spec().len() == 0,
            e.bridge_spec().max_history == 100,
            e.last_node_spec() is None,
            e.backtrack_spec().checkpoints_spec().len() == 0,
            e.backtrack_spec().failures_spec().len() == 0,
    {
        ToolExecutor {
            graph,
            diverge_engine: DivergeEngine::new(),
            converge_engine: ConvergeEngine::new(),
            backtrack_manager: BacktrackManager::new(),
            last_node_id: None,
            complexity_budget: 0,
            execution_bridge: ExecutionBridge::new(),
        }
    }

    /// A copy of the graph.
    pub fn get_graph(&self) -> (g: Graph)
        requires
            self.wf(),
        ensures
            g.wf(),
            crate::models::graph::graph_view_eq(g, self.graph_spec()),
    {
        self.graph.copy()
    }

    /// The graph.
    pub fn graph(&self) -> (g: &Graph)
        ensures
            *g == self.graph_spec(),
    {
        &self.graph
    }

    /// Replaces the graph (after it was loaded or restored).
    pub fn set_graph(&mut self, graph: Graph)
        requires
            old(self).wf(),
            graph.wf(),
        ensures
            final(self).wf(),
            final(self).graph_spec() == graph,
            final(self).backtrack_spec() == old(self).backtrack_spec(),
            final(self).last_node_spec() == old(self).last_node_spec(),
    {
        self.graph = graph;
    }

    /// Remembers the last node made.
    pub fn set_last_node_id(&mut self, id: String)
        ensures
            final(self).last_node_spec() == Some(id@),
            final(self).graph_spec() == old(self).graph_spec(),
            final(self).backtrack_spec() == old(self).backtrack_spec(),
            final(self).wf() == old(self).wf(),
    {
        self.last_node_id = Some(id);
    }

    /// The last node made, if any.
    pub fn get_last_node_id(&self) -> (r: Option<String>)
        ensures
            match r {
                Some(s) => self.last_node_spec() == Some(s@),
                None => self.last_node_spec() is None,
            },
    {
        match &self.last_node_id {
            Some(s) => Some(s.clone()),
            None => None,
        }
    }

    /// The backtracking state.
    pub fn get_backtrack_manager(&self) -> (b: &BacktrackManager)
        ensures
            *b == self.backtrack_spec(),
    {
        &self.backtrack_manager
    }

    /// Runs a tool call, or hands it to the application (see
    /// `is_external_tool`); an unknown tool fails.
    pub fn execute(&mut self, tool_call: &ToolCall) -> (step: ToolStep)
        requires
            old(self).wf(),
        ensures
            final(self).wf(),
            is_external_tool(tool_call.function.name@) ==> step is External && *final(self)
                == *old(self),
            tool_call.function.name@ == "status"@ ==> (step matches ToolStep::Done(r, save) && r.success
                && r.tool_name@ == "status"@ && r.message@ == status_text(old(self).graph_spec()) && save
                && *final(self) == *old(self)),
            tool_call.function.name@ == "last_node_id"@ ==> (step matches ToolStep::Done(r, save)
                && r.success && !save),
            tool_call.function.name@ == "checkpoint"@ ==> (step matches ToolStep::Done(r, save)
                && checkpoint_tool_done(*old(self), *final(self), tool_call.function.arguments@, r) && !save),
            tool_call.function.name@ == "backtrack"@ ==> (step matches ToolStep::Done(r, save)
                && backtrack_tool_done(*old(self), *final(self), tool_call.function.arguments@, (r, save))),
            tool_call.function.name@ == "record_failure"@ ==> (step matches ToolStep::Done(r, save)
                && record_failure_tool_done(*old(self), *final(self), tool_call.function.arguments@, r) && !save),
            tool_call.function.name@ == "get_hypotheses"@ ==> (step matches ToolStep::Done(r, save)
                && hypotheses_tool_done(*old(self), tool_call.function.arguments@, r) && !save
                && *final(self) == *old(self)),
            tool_call.function.name@ == "verify"@ ==> (step matches ToolStep::Done(r, save)
                && verify_tool_done(*old(self), tool_call.function.arguments@, r) && !save
                && *final(self) == *old(self)),
            !is_external_tool(tool_call.function.name@) && tool_call.function.name@ != "status"@
                && tool_call.function.name@ != "last_node_id"@ && tool_call.function.name@
                != "diverge"@ && tool_call.function.name@ != "checkpoint"@ && tool_call.function.name@
                != "backtrack"@ && tool_call.function.name@ != "record_failure"@
                && tool_call.function.name@ != "get_hypotheses"@ && tool_call.function.name@
                != "verify"@ ==> (step matches ToolStep::Done(r, save) && !r.success
                && r.tool_name@ == tool_call.function.name@ && r.message@ == "未知的工具: "@ + tool_call.function.name@
                && !save && *final(self) == *old(self)),
    {
        let name = tool_call.function.name.as_str();
        let args = tool_call.function.arguments.as_str();
        proof {
            reveal_strlit("diverge");
            reveal_strlit("status");
            reveal_strlit("last_node_id");
        }
        proof {
            lemma_own_tools_not_external();
            lemma_argument_tools_distinct();
            reveal_strlit("checkpoint");
            reveal_strlit("backtrack");
            reveal_strlit("record_failure");
            reveal_strlit("get_hypotheses");
            reveal_strlit("verify");
        }
        if same_text(name, "checkpoint") {
            ToolStep::Done(self.execute_checkpoint(args), false)
        } else if same_text(name, "backtrack") {
            let (r, save) = self.execute_backtrack(args);
            ToolStep::Done(r, save)
        } else if same_text(name, "record_failure") {
            ToolStep::Done(self.execute_record_failure(args), false)
        } else if same_text(name, "get_hypotheses") {
            ToolStep::Done(self.execute_get_hypotheses(args), false)
        } else if same_text(name, "verify") {
            ToolStep::Done(self.execute_verify(args), false)
        } else if external_tool(name) {
            ToolStep::External
        } else if same_text(name, "diverge") {
            let (r, save) = self.execute_diverge(args);
            ToolStep::Done(r, save)
        } else if same_text(name, "status") {
            ToolStep::Done(self.execute_status(), true)
        } else if same_text(name, "last_node_id") {
            ToolStep::Done(self.execute_last_node_id(), false)
        } else {
            let mut m = String::from_str("未知的工具: ");
            push_str(&mut m, name);
            ToolStep::Done(ToolResult::error(name, m.as_str()), false)
        }
    }

    /// The `diverge` tool: reads its arguments as JSON (see
    /// `diverge_target`); opens a root node, or adds branches to the node
    /// aimed at with the divergence engine. Gives the result and whether
    /// the graph should be saved (after branches were added).
    #[verifier::rlimit(40)]
    pub fn execute_diverge(&mut self, args: &str) -> (r: (ToolResult, bool))
        requires
            old(self).wf(),
        ensures
            final(self).wf(),
            r.0.tool_name@ == "diverge"@,
            match json_parse(args@) {
                None => {
                    &&& !r.0.success
                    &&& r.0.message@ == "參數解析失敗: "@ + json_error_text(args@)
                    &&& !r.1
                    &&& final(self).graph_spec() == old(self).graph_spec()
                },
                Some(v) => match diverge_target(old(self).graph_spec(), v) {
                    None => {
                        &&& r.0.success
                        &&& !r.1
                        &&& final(self).last_node_spec() is Some
                        &&& r.0.message@ == "已建立根節點: "@ + final(self).last_node_spec()->0
                            + "\n節點ID: "@ + final(self).last_node_spec()->0
                        &&& final(self).graph_spec().has_node(final(self).last_node_spec()->0)
                        &&& final(self).graph_spec().node_of(
                            final(self).last_node_spec()->0,
                        ).question@ == root_content(v)
                        &&& final(self).graph_spec().nodes@ == crate::models::graph::put_node(
                            old(self).graph_spec().nodes@,
                            final(self).graph_spec().node_of(final(self).last_node_spec()->0),
                        )
                    },
                    Some(t) => if t.len() == 0 {
                        &&& !r.0.success
                        &&& r.0.message@ == "節點不存在，請先建立主題"@
                        &&& !r.1
                        &&& final(self).graph_spec() == old(self).graph_spec()
                    } else if !can_diverge(old(self).graph_spec(), t) || diverge_count(v) <= 0
                        || old(self).graph_spec().node_of(t).step == i32::MAX {
                        &&& !r.0.success
                        &&& r.0.message@ == "無法對節點 "@ + t + " 發散（節點不存在或狀態不允許）"@
                        &&& !r.1
                    } else {
                        &&& r.0.success
                        &&& r.1
                        &&& exists|bs: Seq<Node>|
                            #[trigger] diverged_to(old(self).graph_spec(), final(self).graph_spec(), t, v, bs)
                                && r.0.message@ == diverge_report(
                                branch_ids(bs),
                                complexity_sum(final(self).graph_spec().nodes@.filter(is_live_node())),
                            ) && final(self).last_node_spec() == Some(branch_ids(bs).last())
                    },
                },
            },
    {
        proof {
            reveal_strlit("");
            reveal_strlit("root");
        }
        assert(""@ =~= Seq::<char>::empty());
        let v = match parse_json_detailed(args) {
            Ok(v) => v,
            Err(e) => {
                let mut m = String::from_str("參數解析失敗: ");
                push_str(&mut m, e.as_str());
                return (ToolResult::error("diverge", m.as_str()), false);
            },
        };
        let target: Option<String> = match v.get("node_id") {
            Some(n) => {
                let blank = match n.as_str() {
                    Some(t) => same_text(t, "") || same_text(t, "root"),
                    None => false,
                };
                if n.is_null() || blank {
                    if self.graph.nodes.len() == 0 {
                        None
                    } else {
                        Some(self.graph.nodes[0].id.clone())
                    }
                } else {
                    match n.as_str() {
                        Some(t) => Some(String::from_str(t)),
                        None => Some(String::new()),
                    }
                }
            },
            None => None,
        };
        let node_id = match target {
            Some(id) => id,
            None => {
                let content = match v.get("content") {
                    Some(c) => match c.as_str() {
                        Some(t) => String::from_str(t),
                        None => String::from_str("探索主題"),
                    },
                    None => String::from_str("探索主題"),
                };
                let node = Node::new(content, 1);
                let ghost n = node;
                let id = node.id.clone();
                let ghost g0 = self.graph;
                self.graph.add_node(node);
                proof {
                    crate::models::graph::lemma_put_node(g0.nodes@, n);
                }
                self.last_node_id = Some(id.clone());
                let mut m = String::from_str("已建立根節點: ");
                push_str(&mut m, id.as_str());
                push_str(&mut m, "\n節點ID: ");
                push_str(&mut m, id.as_str());
                return (ToolResult::success("diverge", m.as_str()), false);
            },
        };
        if node_id.unicode_len() == 0 {
            return (ToolResult::error("diverge", "節點不存在，請先建立主題"), false);
        }
        let contents: Option<Vec<String>> = match v.get("content") {
            Some(c) => match c.as_str() {
                Some(t) => {
                    let mut one: Vec<String> = Vec::new();
                    one.push(String::from_str(t));
                    assert(names_view(one@) =~= seq![t@]);
                    Some(one)
                },
                None => None,
            },
            None => None,
        };
        let count: i32 = match v.get("count") {
            Some(c) => match c.as_i64() {
                Some(n) => n as i32,
                None => 3,
            },
            None => 3,
        };
        let too_deep = match self.graph.get_node(node_id.as_str()) {
            Some(p) => p.step == i32::MAX,
            None => false,
        };
        let ghost g0 = self.graph;
        let children = if too_deep {
            Vec::new()
        } else {
            self.diverge_engine.diverge(&mut self.graph, node_id.as_str(), count, contents)
        };
        if children.len() == 0 {
            let mut m = String::from_str("無法對節點 ");
            push_str(&mut m, node_id.as_str());
            push_str(&mut m, " 發散（節點不存在或狀態不允許）");
            return (ToolResult::error("diverge", m.as_str()), false);
        }
        let ghost ids = children@.map_values(|c: Node| c.id@);
        proof {
            assert(ids == branch_ids(children@));
            assert(diverged_to(g0, self.graph, node_id@, v, children@));
        }
        let mut m = String::from_str("已發散生成 ");
        push_decimal(&mut m, children.len() as u64);
        push_str(&mut m, " 個子節點: ");
        let mut i: usize = 0;
        let ghost head = m@;
        while i < children.len()
            invariant
                i <= children@.len(),
                ids == children@.map_values(|c: Node| c.id@),
                m@ == head + join(ids.take(i as int), ", "@),
            decreases children.len() - i,
        {
            if i > 0 {
                push_str(&mut m, ", ");
            }
            push_str(&mut m, children[i].id.as_str());
            proof {
                assert(ids.take(i + 1).drop_last() =~= ids.take(i as int));
                if i == 0 {
                    assert(join(ids.take(1), ", "@) == ids[0]);
                }
            }
            assert(m@ =~= head + join(ids.take(i + 1), ", "@));
            i = i + 1;
        }
        assert(ids.take(ids.len() as int) =~= ids);
        push_str(&mut m, "，複雜度: ");
        push_fixed2(&mut m, self.graph.total_complexity());
        push_str(&mut m, "\n最後子節點ID: ");
        push_str(&mut m, children[0].id.as_str());
        let last = children.len() - 1;
        self.last_node_id = Some(children[last].id.clone());
        assert(m@ =~= diverge_report(ids, complexity_sum(self.graph.nodes@.filter(is_live_node()))));
        (ToolResult::success("diverge", m.as_str()), true)
    }

    /// The `status` tool: the counts and complexity of the graph.
    pub fn execute_status(&self) -> (r: ToolResult)
        requires
            self.wf(),
        ensures
            r.success,
            r.message@ == status_text(self.graph_spec()),
            r.tool_name@ == "status"@,
    {
        let mut m = String::from_str("狀態摘要：節點數=");
        push_decimal(&mut m, self.graph.node_count() as u64);
        push_str(&mut m, ", 邊數=");
        push_decimal(&mut m, self.graph.edge_count() as u64);
        push_str(&mut m, ", 複雜度=");
        let c = self.graph.total_complexity();
        push_fixed2(&mut m, c);
        ToolResult::success("status", m.as_str())
    }

    /// The `converge` tool, its argument read: marks pruned every open node
    /// whose score is under the threshold (the one given, in thousandths,
    /// else fifty), then reports the identifiers pruned and the complexity
    /// left (see `converge_report`).
    pub fn execute_converge(&mut self, threshold: Option<u64>) -> (r: ToolResult)
        requires
            old(self).wf(),
        ensures
            final(self).wf(),
            r.success,
            r.tool_name@ == "converge"@,
            pruned_where(
                old(self).graph_spec().nodes@,
                final(self).graph_spec().nodes@,
                picks(PruneRule::ScoreBelow(score_bound(threshold, ThresholdGate::new_spec()) as u128)),
            ),
            same_but_nodes(old(self).graph_spec(), final(self).graph_spec()),
            r.message@ == converge_report(
                node_ids(
                    old(self).graph_spec().nodes@.filter(
                        picks(PruneRule::ScoreBelow(score_bound(threshold, ThresholdGate::new_spec()) as u128)),
                    ),
                ),
                complexity_sum(final(self).graph_spec().nodes@.filter(is_live_node())),
            ),
            final(self).backtrack_spec() == old(self).backtrack_spec(),
            final(self).last_node_spec() == old(self).last_node_spec(),
    {
        let pruned = self.converge_engine.converge(&mut self.graph, threshold);
        let c = self.graph.total_complexity();
        let mut m = String::new();
        if pruned.len() == 0 {
            push_str(&mut m, "沒有節點需要刪除，複雜度: ");
        } else {
            push_str(&mut m, "已刪除 ");
            push_decimal(&mut m, pruned.len() as u64);
            push_str(&mut m, " 個節點: ");
            let mut parts: Vec<Vec<char>> = Vec::new();
            let mut i: usize = 0;
            while i < pruned.len()
                invariant
                    i <= pruned@.len(),
                    parts@.len() == i,
                    forall|j: int| 0 <= j < i ==> (#[trigger] parts@[j])@ == pruned@[j]@,
                decreases pruned.len() - i,
            {
                parts.push(chars_of(pruned[i].as_str()));
                i = i + 1;
            }
            assert(parts@.map_values(|x: Vec<char>| x@) =~= names_view(pruned@));
            let joined = join_exec(&parts, ", ");
            push_str(&mut m, joined.as_str());
            push_str(&mut m, "，複雜度: ");
        }
        push_fixed2(&mut m, c);
        assert(m@ =~= converge_report(names_view(pruned@), c as nat));
        ToolResult::success("converge", m.as_str())
    }

    /// The complexity budget kept for the caller, in thousandths.
    pub fn complexity(&self) -> (c: u64)
        ensures
            c == self.budget_spec(),
    {
        self.complexity_budget
    }

    /// Sets the complexity budget kept for the caller.
    pub fn set_complexity(&mut self, complexity: u64)
        ensures
            final(self).budget_spec() == complexity,
            final(self).graph_spec() == old(self).graph_spec(),
            final(self).backtrack_spec() == old(self).backtrack_spec(),
            final(self).last_node_spec() == old(self).last_node_spec(),
            final(self).wf() == old(self).wf(),
    {
        self.complexity_budget = complexity;
    }

    /// The `last_node_id` tool.
    pub fn execute_last_node_id(&self) -> (r: ToolResult)
        ensures
            r.success,
            r.tool_name@ == "last_node_id"@,
            r.message@ == match self.last_node_spec() {
                Some(id) => "最後節點ID: "@ + id,
                None => "目前沒有任何節點。請先使用 diverge 建立第一個節點。"@,
            },
    {
        match &self.last_node_id {
            Some(id) => {
                let mut m = String::from_str("最後節點ID: ");
                push_str(&mut m, id.as_str());
                ToolResult::success("last_node_id", m.as_str())
            },
            None => ToolResult::success("last_node_id", "目前沒有任何節點。請先使用 diverge 建立第一個節點。"),
        }
    }

    /// The `checkpoint` tool, its arguments read: makes a checkpoint of
    /// the graph for a reason given by name (manual by default) and a
    /// description (`checkpoint_at_` and the local time for none), and
    /// reports it as JSON.
    #[verifier::rlimit(40)]
    pub fn checkpoint(&mut self, node_id: &str, reason: &str, description: &str) -> (r: ToolResult)
        requires
            old(self).wf(),
        ensures
            final(self).wf(),
            checkpoint_done(*old(self), *final(self), node_id@, reason@, description@, r),
    {
        proof {
            reveal_strlit("user_decision");
            reveal_strlit("phase_transition");
            reveal_strlit("pre_diverge");
            reveal_strlit("pre_execute");
            reveal_strlit("root");
            reveal_strlit("checkpoint_at_");
        }
        let why = if same_text(reason, "user_decision") {
            CheckpointReason::UserDecision
        } else if same_text(reason, "phase_transition") {
            CheckpointReason::PhaseTransition
        } else if same_text(reason, "pre_diverge") {
            CheckpointReason::PreDiverge
        } else if same_text(reason, "pre_execute") {
            CheckpointReason::PreExecute
        } else {
            CheckpointReason::Manual
        };
        let nid = if node_id.unicode_len() > 0 {
            String::from_str(node_id)
        } else {
            match self.graph.get_current_topic() {
                Some(t) => match self.graph.get_node(t.root_node_id.as_str()) {
                    Some(n) => n.id.clone(),
                    None => String::from_str("root"),
                },
                None => String::from_str("root"),
            }
        };
        let desc = if description.unicode_len() > 0 {
            String::from_str(description)
        } else {
            let now = Timestamp::now();
            let mut d = String::from_str("checkpoint_at_");
            let clock = crate::text::chars_of(now.clock.as_str());
            let mut k: usize = 0;
            let ghost start = d@;
            assert(start.len() == 14);
            let mut count: usize = 0;
            while k < clock.len() && count < 6
                invariant
                    k <= clock@.len(),
                    count <= 6,
                    d@.len() == start.len() + count,
                    d@.take(14) == start.take(14),
                    start == "checkpoint_at_"@,
                    start.len() == 14,
                decreases clock.len() - k,
            {
                if clock[k] != ':' {
                    let ghost before = d@;
                    d.push(clock[k]);
                    assert(d@.take(14) =~= before.take(14));
                    count = count + 1;
                }
                k = k + 1;
            }
            while count < 6
                invariant
                    count <= 6,
                    d@.len() == start.len() + count,
                    d@.take(14) == start.take(14),
                    start == "checkpoint_at_"@,
                    start.len() == 14,
                decreases 6 - count,
            {
                let ghost before = d@;
                d.push('0');
                assert(d@.take(14) =~= before.take(14));
                count = count + 1;
            }
            d
        };
        let cp = self.backtrack_manager.create_checkpoint(nid, &self.graph, why, desc.as_str());
        let total = self.backtrack_manager.checkpoint_count();
        let mut o: Vec<(String, JsonValue)> = Vec::new();
        o.push(json_member("checkpoint_id", json_string(cp.id.as_str())));
        o.push(json_member("created_at", json_string(cp.created_at.rfc3339.as_str())));
        o.push(json_member("description", json_string(cp.description.as_str())));
        o.push(json_member("node_id", json_string(cp.node_id.as_str())));
        o.push(json_member("reason", json_string(cp.reason.to_text())));
        o.push(json_member("total_checkpoints", json_count(total as u64)));
        let report = JsonValue::Object(o);
        proof {
            lemma_object_tree(o);
            assert(o@.map_values(|p: (String, JsonValue)| (p.0@, p.1@)) =~= seq![
                ("checkpoint_id"@, JsonTree::Str(cp.id@)),
                ("created_at"@, JsonTree::Str(cp.created_at.rfc3339@)),
                ("description"@, JsonTree::Str(cp.description@)),
                ("node_id"@, JsonTree::Str(cp.node_id@)),
                ("reason"@, JsonTree::Str(reason_text(cp.reason))),
                ("total_checkpoints"@, count_tree(total as nat)),
            ]);
        }
        let m = json_to_string(&report);
        assert(self.backtrack_manager.checkpoints_spec().drop_last() =~= old(self).backtrack_manager.checkpoints_spec());
        let r = ToolResult::success("checkpoint", m.as_str());
        proof {
            let e0 = *old(self);
            let e1 = *self;
            let c = e1.backtrack_spec().checkpoints_spec().last();
            assert(e1.backtrack_spec().checkpoints_spec().drop_last() == e0.backtrack_spec().checkpoints_spec());
            assert(c.1 == checkpoint_node(e0.graph_spec(), node_id@));
            assert(c.2 == graph_snapshot(e0.graph_spec()));
            assert(c.4 == reason_of(reason@));
            assert(description@.len() > 0 ==> c.5 == description@);
            assert(description@.len() == 0 ==> c.5.len() == 20 && c.5.take(14) == "checkpoint_at_"@);
            assert(r.message@ == checkpoint_report(c.0, c.3.0, c.5, c.1, reason_text(reason_of(reason@)), e1.backtrack_spec().checkpoints_spec().len()));
        }
        r
    }

    /// The `backtrack` tool, its arguments read: restores the graph from
    /// the named checkpoint, or from the last one when `restore_last` is
    /// `true` in any case. Gives the result and whether the graph should be
    /// saved (after a restore).
    #[verifier::spinoff_prover]
    #[verifier::rlimit(50)]
    pub fn backtrack(&mut self, checkpoint_id: &str, restore_last: &str) -> (r: (ToolResult, bool))
        requires
            old(self).wf(),
        ensures
            final(self).wf(),
            backtrack_done(*old(self), *final(self), checkpoint_id@, restore_last@, r),
    {
        proof {
            reveal_strlit("true");
        }
        let restore = same_text(to_lowercase(restore_last).as_str(), "true");
        if checkpoint_id.unicode_len() == 0 && !restore {
            return (ToolResult::error("backtrack", "需要 checkpoint_id 或 restore_last=true"), false);
        }
        let target = if restore {
            match self.backtrack_manager.get_last_checkpoint() {
                Some(c) => {
                    let t = c.id.clone();
                    assert(t@ == c@.0);
                    t
                },
                None => {
                    let t = String::new();
                    assert(t@ =~= Seq::<char>::empty());
                    t
                },
            }
        } else {
            String::from_str(checkpoint_id)
        };
        let ghost cps = self.backtrack_manager.checkpoints_spec();
        assert(target@ == backtrack_target(cps, checkpoint_id@, restore_last@));
        if target.unicode_len() == 0 {
            return (ToolResult::error("backtrack", "沒有可用的檢查點"), false);
        }
        match self.backtrack_manager.restore_from_checkpoint(target.as_str()) {
            Some(g) => {
                let ghost i = choose|i: int|
                    0 <= i < cps.len() && cps[i].0 == target@ && (forall|j: int|
                        0 <= j < i ==> cps[j].0 != target@) && reads_as(#[trigger] cps[i].2, g)
                        && graph_xml_error(cps[i].2) is None;
                assert(reads_as(cps[i].2, g));
                assert(first_checkpoint(cps, target@, i));
                self.graph = g;
                let count = self.graph.node_count();
                let mut o: Vec<(String, JsonValue)> = Vec::new();
                o.push(json_member("restored_checkpoint_id", json_string(target.as_str())));
                o.push(json_member("restored_node_count", json_count(count as u64)));
                o.push(json_member("success", JsonValue::Bool(true)));
                let report = JsonValue::Object(o);
                proof {
                    lemma_object_tree(o);
                    assert(o@.map_values(|p: (String, JsonValue)| (p.0@, p.1@)) =~= seq![
                        ("restored_checkpoint_id"@, JsonTree::Str(target@)),
                        ("restored_node_count"@, count_tree(count as nat)),
                        ("success"@, JsonTree::Bool(true)),
                    ]);
                }
                let m = json_to_string(&report);
                assert(old(self).backtrack_spec().checkpoints_spec() == cps);
                assert(reads_as(old(self).backtrack_spec().checkpoints_spec()[i].2, self.graph_spec()));
                assert(m@ == restore_report(
                    target@,
                    self.graph_spec().nodes@.filter(is_live_node()).len(),
                ));
                (ToolResult::success("backtrack", m.as_str()), true)
            },
            None => {
                proof {
                    assert forall|i: int| #[trigger] first_checkpoint(cps, target@, i) implies graph_xml_error(
                        cps[i].2,
                    ) is Some by {
                        if exists|k: int|
                            0 <= k < cps.len() && cps[k].0 == target@ && (forall|j: int|
                                0 <= j < k ==> cps[j].0 != target@) && graph_xml_error(
                                #[trigger] cps[k].2,
                            ) is Some {
                            let k = choose|k: int|
                                0 <= k < cps.len() && cps[k].0 == target@ && (forall|j: int|
                                    0 <= j < k ==> cps[j].0 != target@) && graph_xml_error(
                                    #[trigger] cps[k].2,
                                ) is Some;
                            if k < i {
                                assert(cps[k].0 != target@);
                            } else if i < k {
                                assert(cps[i].0 != target@);
                            }
                        } else {
                            assert(cps[i].0 != target@);
                        }
                    }
                }
                let mut m = String::from_str("無法回溯到檢查點 ");
                push_str(&mut m, target.as_str());
                (ToolResult::error("backtrack", m.as_str()), false)
            },
        }
    }

    /// The `record_failure` tool, its arguments read: with an execution
    /// result, records the failure it reports (if any); otherwise records a
    /// failure of the named kind by hand. Reports as JSON.
    pub fn record_failure(
        &mut self,
        node_id: &str,
        pattern_type: &str,
        command: &str,
        exit_code: Option<i32>,
        stderr: &str,
        execute_result_json: &str,
    ) -> (r: ToolResult)
        requires
            old(self).wf(),
        ensures
            final(self).wf(),
            record_failure_done(*old(self), *final(self), node_id@, pattern_type@, command@, exit_code, stderr@, execute_result_json@, r),
    {
        if execute_result_json.unicode_len() > 0 {
            match self.backtrack_manager.record_execute_failure(String::from_str(node_id), execute_result_json) {
                Some(f) => {
                    let total = self.backtrack_manager.failure_count();
                    let code = match f.exit_code {
                        Some(c) => json_signed(c as i64),
                        None => JsonValue::Null,
                    };
                    let mut o: Vec<(String, JsonValue)> = Vec::new();
                    o.push(json_member("command", json_string(f.command.as_str())));
                    o.push(json_member("confidence", json_string("high")));
                    o.push(json_member("exit_code", code));
                    o.push(json_member("failure_id", json_string(f.id.as_str())));
                    o.push(json_member("pattern_type", json_string(f.pattern_type.to_text())));
                    o.push(json_member("stderr", json_string(f.stderr.as_str())));
                    o.push(json_member("total_failures", json_count(total as u64)));
                    let report = JsonValue::Object(o);
                    proof {
                        lemma_object_tree(o);
                        assert(o@.map_values(|p: (String, JsonValue)| (p.0@, p.1@)) =~= seq![
                            ("command"@, JsonTree::Str(f.command@)),
                            ("confidence"@, JsonTree::Str("high"@)),
                            ("exit_code"@, exit_code_tree(f.exit_code)),
                            ("failure_id"@, JsonTree::Str(f.id@)),
                            ("pattern_type"@, JsonTree::Str(pattern_text(f.pattern_type))),
                            ("stderr"@, JsonTree::Str(f.stderr@)),
                            ("total_failures"@, count_tree(total as nat)),
                        ]);
                    }
                    let m = json_to_string(&report);
                    assert(self.backtrack_manager.failures_spec().drop_last() =~= old(self).backtrack_manager.failures_spec());
                    ToolResult::success("record_failure", m.as_str())
                },
                None => {
                    let mut o: Vec<(String, JsonValue)> = Vec::new();
                    o.push(json_member("note", json_string("execute 結果成功，無需記錄失敗")));
                    let report = JsonValue::Object(o);
                    proof {
                        lemma_object_tree(o);
                        assert(o@.map_values(|p: (String, JsonValue)| (p.0@, p.1@)) =~= seq![
                            ("note"@, JsonTree::Str("execute 結果成功，無需記錄失敗"@)),
                        ]);
                    }
                    let m = json_to_string(&report);
                    ToolResult::success("record_failure", m.as_str())
                },
            }
        } else {
            let pattern = FailurePatternType::from_str(pattern_type);
            let failure = FailurePattern::new(
                pattern,
                String::from_str(command),
                exit_code,
                String::from_str(stderr),
                String::from_str(node_id),
            );
            let id = failure.id.clone();
            self.backtrack_manager.record_failure(failure);
            let total = self.backtrack_manager.failure_count();
            let mut o: Vec<(String, JsonValue)> = Vec::new();
            o.push(json_member("failure_id", json_string(id.as_str())));
            o.push(json_member("pattern_type", json_string(pattern.to_text())));
            o.push(json_member("total_failures", json_count(total as u64)));
            let report = JsonValue::Object(o);
            proof {
                lemma_object_tree(o);
                assert(o@.map_values(|p: (String, JsonValue)| (p.0@, p.1@)) =~= seq![
                    ("failure_id"@, JsonTree::Str(id@)),
                    ("pattern_type"@, JsonTree::Str(pattern_text(pattern))),
                    ("total_failures"@, count_tree(total as nat)),
                ]);
            }
            let m = json_to_string(&report);
            assert(self.backtrack_manager.failures_spec().drop_last() =~= old(self).backtrack_manager.failures_spec());
            ToolResult::success("record_failure", m.as_str())
        }
    }

    /// The `get_hypotheses` tool, its arguments read: the hypotheses for
    /// the named failure, or for the last one when `get_last` is `true` in
    /// any case, as JSON.
    #[verifier::spinoff_prover]
    #[verifier::rlimit(30)]
    pub fn get_hypotheses(&self, failure_id: &str, get_last: &str) -> (r: ToolResult)
        ensures
            hypotheses_done(*self, failure_id@, get_last@, r),
    {
        proof {
            reveal_strlit("true");
        }
        let last = same_text(to_lowercase(get_last).as_str(), "true");
        let hs = if failure_id.unicode_len() > 0 {
            self.backtrack_manager.get_hypotheses(failure_id)
        } else if last {
            self.backtrack_manager.get_hypotheses_for_last_failure()
        } else {
            return ToolResult::error("get_hypotheses", "需要 failure_id 或 get_last=true");
        };
        if hs.len() == 0 {
            let none: Vec<JsonValue> = Vec::new();
            proof {
                lemma_array_tree(none);
                assert(none@.map_values(|x: JsonValue| x@) =~= Seq::<JsonTree>::empty());
            }
            let mut o: Vec<(String, JsonValue)> = Vec::new();
            o.push(json_member("hypotheses", JsonValue::Array(none)));
            o.push(json_member("note", json_string("沒有失敗記錄或假設")));
            let report = JsonValue::Object(o);
            proof {
                lemma_object_tree(o);
                assert(o@.map_values(|p: (String, JsonValue)| (p.0@, p.1@)) =~= seq![
                    ("hypotheses"@, JsonTree::Array(Seq::empty())),
                    ("note"@, JsonTree::Str("沒有失敗記錄或假設"@)),
                ]);
            }
            let m = json_to_string(&report);
            assert(m@ == hypotheses_report(hs@));
            return ToolResult::success("get_hypotheses", m.as_str());
        }
        let mut items: Vec<JsonValue> = Vec::new();
        let mut i: usize = 0;
        while i < hs.len()
            invariant
                i <= hs@.len(),
                items@.map_values(|x: JsonValue| x@) == hypothesis_trees(hs@.take(i as int)),
            decreases hs.len() - i,
        {
            let h = &hs[i];
            let mut t = String::new();
            push_hundredths(&mut t, h.confidence);
            assert(t@ =~= hundredths_json(h.confidence as nat));
            let mut o: Vec<(String, JsonValue)> = Vec::new();
            o.push(json_member("confidence", JsonValue::Number(None, t)));
            o.push(json_member("hypothesis", json_string(h.hypothesis.as_str())));
            o.push(json_member("id", json_string(h.id.as_str())));
            o.push(json_member("original_failure", json_string(h.original_failure.as_str())));
            o.push(json_member("suggested_action", json_string(h.suggested_action.as_str())));
            let item = JsonValue::Object(o);
            let ghost before = items@.map_values(|x: JsonValue| x@);
            proof {
                lemma_object_tree(o);
                assert(o@.map_values(|p: (String, JsonValue)| (p.0@, p.1@)) =~= seq![
                    ("confidence"@, JsonTree::Number(None, hundredths_json(h.confidence as nat))),
                    ("hypothesis"@, JsonTree::Str(h.hypothesis@)),
                    ("id"@, JsonTree::Str(h.id@)),
                    ("original_failure"@, JsonTree::Str(h.original_failure@)),
                    ("suggested_action"@, JsonTree::Str(h.suggested_action@)),
                ]);
                assert(item@ == hypothesis_tree(h.id@, h@));
            }
            items.push(item);
            proof {
                assert(hs@.take(i + 1) =~= hs@.take(i as int).push(*h));
                assert(items@.map_values(|x: JsonValue| x@) =~= before.push(item@));
                assert(hypothesis_trees(hs@.take(i + 1)) =~= hypothesis_trees(hs@.take(i as int)).push(
                    hypothesis_tree(h.id@, h@),
                ));
            }
            i = i + 1;
        }
        assert(hs@.take(hs@.len() as int) =~= hs@);
        let list = JsonValue::Array(items);
        proof {
            lemma_array_tree(items);
        }
        let mut o: Vec<(String, JsonValue)> = Vec::new();
        o.push(json_member("count", json_count(hs.len() as u64)));
        o.push(json_member("hypotheses", list));
        let report = JsonValue::Object(o);
        proof {
            lemma_object_tree(o);
            assert(o@.map_values(|p: (String, JsonValue)| (p.0@, p.1@)) =~= seq![
                ("count"@, count_tree(hs@.len())),
                ("hypotheses"@, JsonTree::Array(hypothesis_trees(hs@))),
            ]);
        }
        let m = json_to_string(&report);
        assert(m@ == hypotheses_report(hs@));
        ToolResult::success("get_hypotheses", m.as_str())
    }

    /// Records the outcome of an execution on the node it concerns, if one
    /// is named: on the node, if it is there (see `Graph::record_feedback`),
    /// and as a feedback item of the node in the execution bridge (see
    /// `feedback_pushed`).
    pub fn record_feedback_for_node(&mut self, node_id: Option<&str>, success: bool, message: &str)
        requires
            old(self).wf(),
        ensures
            final(self).wf(),
            match node_id {
                Some(id) => {
                    &&& feedback_recorded(old(self).graph_spec(), final(self).graph_spec(), id@, success, message@)
                    &&& feedback_pushed(old(self).bridge_spec(), final(self).bridge_spec(), id@, success, message@)
                },
                None => final(self).graph_spec() == old(self).graph_spec() && final(self).bridge_spec()
                    == old(self).bridge_spec(),
            },
            final(self).backtrack_spec() == old(self).backtrack_spec(),
            final(self).last_node_spec() == old(self).last_node_spec(),
            final(self).budget_spec() == old(self).budget_spec(),
    {
        match node_id {
            Some(id) => {
                self.graph.record_feedback(id, success, message);
                let result = if success {
                    ExecutionResult::Success(String::from_str(message))
                } else {
                    ExecutionResult::Failure(String::from_str(message))
                };
                let item = FeedbackItem::new(String::from_str(id), result);
                let ghost f = item;
                self.execution_bridge.push_feedback(item);
                assert(feedback_item_for(f, id@, success, message@));
            },
            None => {},
        }
    }


    /// The `checkpoint` tool on its argument text (see
    /// `checkpoint_tool_done`).
    pub fn execute_checkpoint(&mut self, args: &str) -> (r: ToolResult)
        requires
            old(self).wf(),
        ensures
            final(self).wf(),
            checkpoint_tool_done(*old(self), *final(self), args@, r),
    {
        proof {
            reveal_strlit("");
            reveal_strlit("manual");
        }
        let v = match parse_json_detailed(args) {
            Ok(v) => v,
            Err(e) => {
                return parse_failure("checkpoint", e.as_str());
            },
        };
        let a = str_member(&v, "node_id", "");
        let b = str_member(&v, "reason", "manual");
        let c = str_member(&v, "description", "");
        match (a, b, c) {
            (Some(a), Some(b), Some(c)) => {
                if is_object(&v) {
                    self.checkpoint(a.as_str(), b.as_str(), c.as_str())
                } else {
                    ToolResult::error("checkpoint", "參數解析失敗: 參數型別不符")
                }
            },
            _ => ToolResult::error("checkpoint", "參數解析失敗: 參數型別不符"),
        }
    }

    /// The `backtrack` tool on its argument text (see
    /// `backtrack_tool_done`).
    pub fn execute_backtrack(&mut self, args: &str) -> (r: (ToolResult, bool))
        requires
            old(self).wf(),
        ensures
            final(self).wf(),
            backtrack_tool_done(*old(self), *final(self), args@, r),
    {
        proof {
            reveal_strlit("");
        }
        let v = match parse_json_detailed(args) {
            Ok(v) => v,
            Err(e) => {
                return (parse_failure("backtrack", e.as_str()), false);
            },
        };
        let a = str_member(&v, "checkpoint_id", "");
        let b = str_member(&v, "restore_last", "");
        match (a, b) {
            (Some(a), Some(b)) => {
                if is_object(&v) {
                    self.backtrack(a.as_str(), b.as_str())
                } else {
                    (ToolResult::error("backtrack", "參數解析失敗: 參數型別不符"), false)
                }
            },
            _ => (ToolResult::error("backtrack", "參數解析失敗: 參數型別不符"), false),
        }
    }

    /// The `record_failure` tool on its argument text (see
    /// `record_failure_tool_done`).
    pub fn execute_record_failure(&mut self, args: &str) -> (r: ToolResult)
        requires
            old(self).wf(),
        ensures
            final(self).wf(),
            record_failure_tool_done(*old(self), *final(self), args@, r),
    {
        proof {
            reveal_strlit("");
        }
        let v = match parse_json_detailed(args) {
            Ok(v) => v,
            Err(e) => {
                return parse_failure("record_failure", e.as_str());
            },
        };
        let a = str_member(&v, "node_id", "");
        let b = str_member(&v, "pattern_type", "");
        let c = str_member(&v, "command", "");
        let d = opt_i32_member(&v, "exit_code");
        let f = str_member(&v, "stderr", "");
        let g = str_member(&v, "execute_result_json", "");
        match (a, b, c, d, f, g) {
            (Some(a), Some(b), Some(c), Some(d), Some(f), Some(g)) => {
                if is_object(&v) {
                    self.record_failure(a.as_str(), b.as_str(), c.as_str(), d, f.as_str(), g.as_str())
                } else {
                    ToolResult::error("record_failure", "參數解析失敗: 參數型別不符")
                }
            },
            _ => ToolResult::error("record_failure", "參數解析失敗: 參數型別不符"),
        }
    }

    /// The `get_hypotheses` tool on its argument text (see
    /// `hypotheses_tool_done`).
    pub fn execute_get_hypotheses(&self, args: &str) -> (r: ToolResult)
        ensures
            hypotheses_tool_done(*self, args@, r),
    {
        proof {
            reveal_strlit("");
        }
        let v = match parse_json_detailed(args) {
            Ok(v) => v,
            Err(e) => {
                return parse_failure("get_hypotheses", e.as_str());
            },
        };
        let a = str_member(&v, "failure_id", "");
        let b = str_member(&v, "get_last", "");
        match (a, b) {
            (Some(a), Some(b)) => {
                if is_object(&v) {
                    self.get_hypotheses(a.as_str(), b.as_str())
                } else {
                    ToolResult::error("get_hypotheses", "參數解析失敗: 參數型別不符")
                }
            },
            _ => ToolResult::error("get_hypotheses", "參數解析失敗: 參數型別不符"),
        }
    }

    /// Finishes the `execute` tool once the application ran the command: the
    /// outcome goes to the node named in the arguments (see
    /// `record_feedback_for_node`), and the report is the tool's successful
    /// result.
    pub fn finish_execute(&mut self, a: &ExecuteArgs, success: bool, feedback: &str, report: &str) -> (r: ToolResult)
        requires
            old(self).wf(),
        ensures
            final(self).wf(),
            r.success,
            r.tool_name@ == "execute"@,
            r.message@ == report@,
            match a.node_id {
                Some(id) => {
                    &&& feedback_recorded(old(self).graph_spec(), final(self).graph_spec(), id@, success, feedback@)
                    &&& feedback_pushed(old(self).bridge_spec(), final(self).bridge_spec(), id@, success, feedback@)
                },
                None => final(self).graph_spec() == old(self).graph_spec() && final(self).bridge_spec()
                    == old(self).bridge_spec(),
            },
            final(self).backtrack_spec() == old(self).backtrack_spec(),
            final(self).last_node_spec() == old(self).last_node_spec(),
    {
        match &a.node_id {
            Some(id) => self.record_feedback_for_node(Some(id.as_str()), success, feedback),
            None => self.record_feedback_for_node(None, success, feedback),
        }
        ToolResult::success("execute", report)
    }

    /// The `verify` tool on its argument text (see `verify_tool_done`).
    pub fn execute_verify(&self, args: &str) -> (r: ToolResult)
        ensures
            verify_tool_done(*self, args@, r),
    {
        let v = match parse_json_detailed(args) {
            Ok(v) => v,
            Err(e) => {
                return parse_failure("verify", e.as_str());
            },
        };
        let node = match v.get("node_id") {
            Some(x) => x.as_str(),
            None => None,
        };
        let expected = match v.get("expected") {
            Some(x) => x.as_str(),
            None => None,
        };
        match (node, expected) {
            (Some(n), Some(x)) => {
                if !is_object(&v) {
                    return ToolResult::error("verify", "參數解析失敗: 參數型別不符");
                }
                if self.execution_bridge.verify(n, x) {
                    let mut m = String::from_str("驗證成功：節點 ");
                    push_str(&mut m, n);
                    push_str(&mut m, " 結果包含「");
                    push_str(&mut m, x);
                    push_str(&mut m, "」");
                    ToolResult::success("verify", m.as_str())
                } else {
                    let mut m = String::from_str("驗證失敗：節點 ");
                    push_str(&mut m, n);
                    push_str(&mut m, " 結果不包含「");
                    push_str(&mut m, x);
                    push_str(&mut m, "」");
                    ToolResult::error("verify", m.as_str())
                }
            },
            _ => ToolResult::error("verify", "參數解析失敗: 參數型別不符"),
        }
    }

    /// The first step of the `retry` tool: the node its argument text names,
    /// and the command to run again for it (none where the node has no
    /// failed feedback); the refusal of the arguments otherwise.
    pub fn retry_plan(&self, args: &str) -> (r: Result<(String, Option<String>), ToolResult>)
        ensures
            match json_parse(args@) {
                None => r matches Err(t) && !t.success && t.tool_name@ == "retry"@ && t.message@ == args_error(args@),
                Some(v) => match required_str(v, "node_id"@) {
                    Some(n) => if v is Object {
                        r matches Ok(p) && p.0@ == n && match last_feedback(self.bridge_spec().history_spec(), n, true) {
                            Some(_) => p.1 is Some && p.1->0@ == "echo retry "@ + n,
                            None => p.1 is None,
                        }
                    } else {
                        r matches Err(t) && !t.success && t.tool_name@ == "retry"@ && t.message@ == args_shape_error()
                    },
                    None => r matches Err(t) && !t.success && t.tool_name@ == "retry"@ && t.message@ == args_shape_error(),
                },
            },
    {
        let v = match parse_json_detailed(args) {
            Ok(v) => v,
            Err(e) => {
                return Err(parse_failure("retry", e.as_str()));
            },
        };
        let node = match v.get("node_id") {
            Some(x) => x.as_str(),
            None => None,
        };
        match node {
            Some(n) => {
                if !is_object(&v) {
                    return Err(ToolResult::error("retry", "參數解析失敗: 參數型別不符"));
                }
                Ok((String::from_str(n), self.execution_bridge.retry_command(n)))
            },
            None => Err(ToolResult::error("retry", "參數解析失敗: 參數型別不符")),
        }
    }

    /// The second step of the `retry` tool, once the application ran the
    /// command again: the bridge records the new result (see
    /// `ExecutionBridge::retry`) and the tool reports it (see
    /// `retry_message`).
    pub fn finish_retry(&mut self, node_id: &str, result: ExecutionResult) -> (r: ToolResult)
        requires
            old(self).wf(),
        ensures
            final(self).wf(),
            r.tool_name@ == "retry"@,
            final(self).graph_spec() == old(self).graph_spec(),
            final(self).backtrack_spec() == old(self).backtrack_spec(),
            final(self).last_node_spec() == old(self).last_node_spec(),
            final(self).bridge_spec().pending_spec() == old(self).bridge_spec().pending_spec(),
            match last_feedback(old(self).bridge_spec().history_spec(), node_id@, true) {
                Some(i) => {
                    let f = old(self).bridge_spec().history_spec()[i];
                    &&& retry_message(result, r)
                    &&& exists|g: FeedbackItem|
                        g.node_id == f.node_id && g.result == result && g.retry_count == (if f.retry_count
                            < usize::MAX {
                            f.retry_count + 1
                        } else {
                            f.retry_count as int
                        }) && final(self).bridge_spec().history_spec() == pushed_history(
                            old(self).bridge_spec().history_spec(),
                            g,
                            old(self).bridge_spec().max_history,
                        )
                },
                None => !r.success && r.message@ == "重試失敗："@ + no_failed_task(node_id@)
                    && final(self).bridge_spec().history_spec() == old(self).bridge_spec().history_spec(),
            },
    {
        let out = self.execution_bridge.retry(node_id, result);
        match out {
            ExecutionResult::Success(m) => {
                let mut t = String::from_str("重試成功：");
                push_str(&mut t, m.as_str());
                ToolResult::success("retry", t.as_str())
            },
            ExecutionResult::Failure(m) => {
                let mut t = String::from_str("重試失敗：");
                push_str(&mut t, m.as_str());
                ToolResult::error("retry", t.as_str())
            },
            ExecutionResult::Timeout => ToolResult::error("retry", "重試逾時"),
            ExecutionResult::Pending => ToolResult::error("retry", "重試執行中（不應發生）"),
        }
    }
}

} // verus!
