//! The plain command line: commands that build, grow, prune and show a
//! reasoning graph. Each command gives the text it reports, or its error.
use vstd::prelude::*;

use crate::engine::budget::ComplexityBudget;
use crate::engine::converge::ConvergeEngine;
use crate::engine::diverge::DivergeEngine;
use crate::models::edge::{Edge, EdgeType};
use crate::cli::visual::{push_prefix, tree_prefix};
use crate::engine::backtrack::take_chars_string;
use crate::engine::converge::{picks, pruned_where, same_but_nodes, score_bound, PruneRule};
use crate::engine::decision_tree::{push_score2, score2};
use crate::engine::diverge::{can_diverge, is_branch};
use crate::fixed::{digit_char_exec, fixed2, fixed4, push_decimal_wide, push_fixed2, push_fixed4};
use crate::models::graph::{
    children_of, complexity_sum, derefs, is_live_edge, is_live_node, is_root_node, parents_of, lemma_put_node, linked_node, node_ids, put_edge, put_node, Graph,
};
use crate::ollama::client::names_view;
use crate::models::node::{fresh_node, node_status_name, same_but_status, Node, NodeStatus};
use crate::fixed::{parse_i32, parse_i32_spec, parse_thousandths, parse_thousandths_spec};
use crate::text::{
    chars_of, decimal, digit_char, join, join_exec, push_chars, push_decimal, push_signed_decimal, push_str, same_text,
    signed_decimal, string_of, take_chars, words, words_exec,
};

verus! {

/// The state of a session: the graph, the two engines, the budget, and
/// the node made last.
pub struct ReplState {
    /// The reasoning graph.
    pub graph: Graph,
    /// The engine that grows branches.
    pub diverge_engine: DivergeEngine,
    /// The engine that prunes weak nodes.
    pub converge_engine: ConvergeEngine,
    /// The complexity budget.
    pub complexity_budget: ComplexityBudget,
    /// The identifier of the node made last.
    pub last_node_id: Option<String>,
}

/// The number of nodes that were not pruned.
pub open spec fn live_count(g: Graph) -> nat {
    g.nodes@.filter(is_live_node()).len()
}

/// Whether the engines, the budget and the rest of the graph but its
/// nodes and edges stayed as they were.
pub open spec fn same_surroundings(s0: ReplState, s1: ReplState) -> bool {
    &&& s1.diverge_engine == s0.diverge_engine
    &&& s1.converge_engine == s0.converge_engine
    &&& s1.complexity_budget == s0.complexity_budget
    &&& s1.graph.topics == s0.graph.topics
    &&& s1.graph.current_topic_id == s0.graph.current_topic_id
}

/// The error for an unknown node.
pub open spec fn not_found_text(id: Seq<char>) -> Seq<char> {
    "找不到節點: "@ + id
}

impl ReplState {
    /// Whether every command can run: a well-formed graph whose node count
    /// and steps leave room for one more step.
    pub open spec fn ready(&self) -> bool {
        &&& self.graph.wf()
        &&& self.graph.nodes@.len() < i32::MAX
        &&& forall|k: int| 0 <= k < self.graph.nodes@.len() ==> #[trigger] self.graph.nodes@[k].step < i32::MAX
    }

    /// A new session: an empty graph, default engines and budget, no node
    /// made yet.
    pub fn new() -> (s: Self)
        ensures
            s.ready(),
            s.graph.nodes@.len() == 0,
            s.graph.edges@.len() == 0,
            s.graph.topics@.len() == 0,
            s.graph.current_topic_id is None,
            s.diverge_engine.seed is None,
            s.converge_engine.gate() == crate::engine::budget::ThresholdGate::new_spec(),
            s.complexity_budget.k == 1000,
            s.complexity_budget.max_complexity == 100_000,
            s.complexity_budget.current_complexity == 0,
            s.last_node_id is None,
    {
        ReplState {
            graph: Graph::new(),
            diverge_engine: DivergeEngine::new(),
            converge_engine: ConvergeEngine::new(),
            complexity_budget: ComplexityBudget::new(),
            last_node_id: None,
        }
    }
}

impl Default for ReplState {
    fn default() -> (s: Self)
        ensures
            s.ready(),
            s.graph.nodes@.len() == 0,
            s.last_node_id is None,
    {
        ReplState::new()
    }
}

/// The help text.
pub open spec fn repl_help_text() -> Seq<char> {
    "=== Evolution Reasoning Tool 指令說明 ===\n\n節點操作:\n  create node <內容>         - 建立新節點\n  add child <父節點ID> <內容> - 加入子節點\n  node <節點ID>              - 顯示節點詳細資訊\n  lock <節點ID>             - 鎖定節點\n  prune <節點ID>            - 刪除節點\n\n發散/收斂:\n  diverge <節點ID> [數量]    - 發散生成子節點（預設數量: 3）\n  converge [閾值]            - 收斂刪除低分節點\n\n顯示:\n  show graph                - 顯示圖結構\n  show status              - 顯示狀態統計\n\n其他:\n  help                     - 顯示此說明\n  quit                     - 結束程式\n"@
}

/// The help text of the commands.
pub fn print_help() -> (r: String)
    ensures
        r@ == repl_help_text(),
{
    String::from_str(
        "=== Evolution Reasoning Tool 指令說明 ===\n\n節點操作:\n  create node <內容>         - 建立新節點\n  add child <父節點ID> <內容> - 加入子節點\n  node <節點ID>              - 顯示節點詳細資訊\n  lock <節點ID>             - 鎖定節點\n  prune <節點ID>            - 刪除節點\n\n發散/收斂:\n  diverge <節點ID> [數量]    - 發散生成子節點（預設數量: 3）\n  converge [閾值]            - 收斂刪除低分節點\n\n顯示:\n  show graph                - 顯示圖結構\n  show status              - 顯示狀態統計\n\n其他:\n  help                     - 顯示此說明\n  quit                     - 結束程式\n",
    )
}

/// The report of a created node.
pub open spec fn created_text(id: Seq<char>, content: Seq<char>, step: nat) -> Seq<char> {
    "已建立節點: "@ + id + "\n  內容: "@ + content + "\n  步驟: "@ + decimal(step) + "\n"@
}

/// What `create node` does: a fresh draft node whose question and content
/// are the text, one step past the number of live nodes, weight one,
/// confidence one half; stored in the graph and remembered as the last
/// node; reported.
pub open spec fn create_done(s0: ReplState, s1: ReplState, content: Seq<char>, r: Result<String, String>) -> bool {
    &&& s1.last_node_id matches Some(id) && {
        let n = s1.graph.node_of(id@);
        &&& s1.graph.has_node(id@)
        &&& fresh_node(n)
        &&& n.question@ == content
        &&& n.content@ == content
        &&& n.step == live_count(s0.graph) + 1
        &&& n.weight == 1000
        &&& n.confidence == 500
        &&& n.complexity == 0
        &&& n.status == NodeStatus::Draft
        &&& s1.graph.nodes@ == put_node(s0.graph.nodes@, n)
        &&& r matches Ok(t) && t@ == created_text(id@, content, n.step as nat)
    }
    &&& s1.graph.wf()
    &&& s1.graph.edges == s0.graph.edges
    &&& same_surroundings(s0, s1)
}

/// Creates a node of the given content (see `create_done`).
pub fn cmd_create_node(state: &mut ReplState, content: &str) -> (r: Result<String, String>)
    requires
        old(state).ready(),
    ensures
        create_done(*old(state), *final(state), content@, r),
{
    let count = state.graph.node_count();
    proof {
        state.graph.nodes@.lemma_filter_len(is_live_node());
    }
    let step: i32 = (count as i32) + 1;
    let node = Node::new(String::from_str(content), step);
    let node_id = node.id.clone();
    let ghost n = node;
    let ghost nodes0 = state.graph.nodes@;
    proof {
        lemma_put_node(nodes0, n);
    }
    state.graph.add_node(node);
    state.last_node_id = Some(node_id.clone());
    let mut t = String::from_str("已建立節點: ");
    push_str(&mut t, node_id.as_str());
    push_str(&mut t, "\n  內容: ");
    push_str(&mut t, content);
    push_str(&mut t, "\n  步驟: ");
    push_decimal(&mut t, step as u64);
    push_str(&mut t, "\n");
    assert(t@ =~= created_text(node_id@, content@, step as nat));
    Ok(t)
}

/// The report of an added child.
pub open spec fn added_text(child: Seq<char>, content: Seq<char>, parent: Seq<char>) -> Seq<char> {
    "已加入子節點: "@ + child + "\n  內容: "@ + content + "\n  父節點: "@ + parent + "\n"@
}

/// How a child `c` joined by edge `e` was added under `parent`: a fresh
/// draft node of the content one step below the parent, with four fifths
/// of its weight and nine tenths of its confidence; a reasoning edge of the
/// child's weight from the parent to it; the child remembered as the last
/// node.
pub open spec fn child_added(s0: ReplState, s1: ReplState, parent: Seq<char>, content: Seq<char>, c: Node, e: Edge) -> bool {
    let p = s0.graph.node_of(parent);
    let mid = put_node(s0.graph.nodes@, c);
    &&& fresh_node(c)
    &&& c.question@ == content
    &&& c.content@ == content
    &&& c.step == p.step + 1
    &&& c.weight == p.weight * 4 / 5
    &&& c.confidence == p.confidence * 9 / 10
    &&& c.complexity == 0
    &&& c.status == NodeStatus::Draft
    &&& e.from@ == parent
    &&& e.to@ == c.id@
    &&& e.edge_type == EdgeType::Reasoning
    &&& e.weight == c.weight
    &&& s1.graph.nodes@.len() == mid.len()
    &&& forall|k: int| 0 <= k < mid.len() ==> linked_node(#[trigger] mid[k], s1.graph.nodes@[k], e)
    &&& s1.graph.edges@ == put_edge(s0.graph.edges@, e)
    &&& s1.last_node_id matches Some(id) && id@ == c.id@
}

/// What `add child` does: an error for an unknown parent, with nothing
/// changed; else a child added (see `child_added`) and reported.
pub open spec fn add_child_done(
    s0: ReplState,
    s1: ReplState,
    parent: Seq<char>,
    content: Seq<char>,
    r: Result<String, String>,
) -> bool {
    &&& s1.graph.wf()
    &&& same_surroundings(s0, s1)
    &&& if !s0.graph.has_node(parent) {
        &&& r matches Err(t) && t@ == not_found_text(parent)
        &&& s1 == s0
    } else {
        exists|c: Node, e: Edge|
            #[trigger] child_added(s0, s1, parent, content, c, e) && (r matches Ok(t) && t@ == added_text(
                c.id@,
                content,
                parent,
            ))
    }
}

/// Adds a child under a node (see `add_child_done`).
pub fn cmd_add_child(state: &mut ReplState, parent_id: &str, content: &str) -> (r: Result<String, String>)
    requires
        old(state).ready(),
    ensures
        add_child_done(*old(state), *final(state), parent_id@, content@, r),
{
    let ghost s0 = *state;
    let (step, weight, confidence) = match state.graph.get_node(parent_id) {
        Some(p) => {
            proof {
                let i = crate::models::graph::node_ids(s0.graph.nodes@).index_of(parent_id@);
                assert(s0.graph.nodes@[i].step < i32::MAX);
            }
            (p.step + 1, p.weight / 5 * 4 + p.weight % 5 * 4 / 5, p.confidence / 10 * 9 + p.confidence % 10 * 9 / 10)
        },
        None => {
            let mut t = String::from_str("找不到節點: ");
            push_str(&mut t, parent_id);
            return Err(t);
        },
    };
    assert(weight == s0.graph.node_of(parent_id@).weight * 4 / 5) by (nonlinear_arith)
        requires
            weight == s0.graph.node_of(parent_id@).weight / 5 * 4 + s0.graph.node_of(parent_id@).weight % 5 * 4 / 5,
    ;
    assert(confidence == s0.graph.node_of(parent_id@).confidence * 9 / 10) by (nonlinear_arith)
        requires
            confidence == s0.graph.node_of(parent_id@).confidence / 10 * 9 + s0.graph.node_of(parent_id@).confidence % 10 * 9 / 10,
    ;
    let child = Node::new_with(String::from_str(content), step, String::from_str(content), weight, confidence, 0);
    let child_id = child.id.clone();
    let edge = Edge::new_with_weight(String::from_str(parent_id), child_id.clone(), EdgeType::Reasoning, weight);
    let ghost c = child;
    let ghost e = edge;
    state.graph.add_node(child);
    state.graph.add_edge(edge);
    state.last_node_id = Some(child_id.clone());
    let mut t = String::from_str("已加入子節點: ");
    push_str(&mut t, child_id.as_str());
    push_str(&mut t, "\n  內容: ");
    push_str(&mut t, content);
    push_str(&mut t, "\n  父節點: ");
    push_str(&mut t, parent_id);
    push_str(&mut t, "\n");
    assert(t@ =~= added_text(c.id@, content@, parent_id@));
    assert(child_added(s0, *state, parent_id@, content@, c, e));
    Ok(t)
}

/// How a graph changes when the status of the node of an identifier is
/// set: that node takes the status, all else stays.
pub open spec fn status_set(g0: Graph, g1: Graph, id: Seq<char>, st: NodeStatus) -> bool {
    &&& g1.wf()
    &&& g1.nodes@.len() == g0.nodes@.len()
    &&& forall|k: int|
        0 <= k < g0.nodes@.len() ==> if g0.nodes@[k].id@ == id {
            same_but_status(g0.nodes@[k], #[trigger] g1.nodes@[k]) && g1.nodes@[k].status == st
        } else {
            g1.nodes@[k] == g0.nodes@[k]
        }
    &&& g1.edges == g0.edges
}

/// What `lock` and `prune` do: the node takes the status and the change is
/// reported; an error for an unknown node.
pub open spec fn status_done(
    s0: ReplState,
    s1: ReplState,
    id: Seq<char>,
    st: NodeStatus,
    done: Seq<char>,
    r: Result<String, String>,
) -> bool {
    &&& status_set(s0.graph, s1.graph, id, st)
    &&& same_surroundings(s0, s1)
    &&& s1.last_node_id == s0.last_node_id
    &&& if s0.graph.has_node(id) {
        r matches Ok(t) && t@ == done + id + "\n"@
    } else {
        r matches Err(t) && t@ == not_found_text(id)
    }
}

/// Locks a node (see `status_done`).
pub fn cmd_lock_node(state: &mut ReplState, node_id: &str) -> (r: Result<String, String>)
    requires
        old(state).graph.wf(),
    ensures
        status_done(*old(state), *final(state), node_id@, NodeStatus::Locked, "已鎖定節點: "@, r),
{
    if state.graph.lock_node(node_id) {
        let mut t = String::from_str("已鎖定節點: ");
        push_str(&mut t, node_id);
        push_str(&mut t, "\n");
        Ok(t)
    } else {
        let mut t = String::from_str("找不到節點: ");
        push_str(&mut t, node_id);
        Err(t)
    }
}

/// Marks a node pruned (see `status_done`).
pub fn cmd_prune_node(state: &mut ReplState, node_id: &str) -> (r: Result<String, String>)
    requires
        old(state).graph.wf(),
    ensures
        status_done(*old(state), *final(state), node_id@, NodeStatus::Pruned, "已刪除節點: "@, r),
{
    if state.graph.prune_node(node_id) {
        let mut t = String::from_str("已刪除節點: ");
        push_str(&mut t, node_id);
        push_str(&mut t, "\n");
        Ok(t)
    } else {
        let mut t = String::from_str("找不到節點: ");
        push_str(&mut t, node_id);
        Err(t)
    }
}

/// The lines of the branches: identifier, weight and confidence.
pub open spec fn branch_lines(cs: Seq<Node>) -> Seq<char>
    decreases cs.len(),
{
    if cs.len() == 0 {
        Seq::empty()
    } else {
        let c = cs.last();
        branch_lines(cs.drop_last()) + "  - "@ + c.id@ + " (weight: "@ + fixed2(c.weight as nat) + ", confidence: "@
            + fixed2(c.confidence as nat) + ")\n"@
    }
}

/// Whether `cs` are the branches that a diverge on `id` made: as many as
/// asked, each a branch of the parent now in the graph.
pub open spec fn diverged_into(s0: ReplState, s1: ReplState, id: Seq<char>, count: i32, cs: Seq<Node>) -> bool {
    &&& cs.len() == count
    &&& forall|k: int|
        0 <= k < cs.len() ==> is_branch(#[trigger] cs[k], s0.graph.node_of(id), None, k as nat)
            && s1.graph.has_node(cs[k].id@)
}

/// The error of a diverge that made nothing.
pub open spec fn no_branch_text(id: Seq<char>) -> Seq<char> {
    "無法對節點 "@ + id + " 發散（節點不存在或狀態不允許）"@
}

/// What `diverge` does: branches a draft or active node (see
/// `DivergeEngine::diverge`) and reports them; an error where it made
/// none, the graph untouched for a node that cannot take branches.
pub open spec fn diverge_done(s0: ReplState, s1: ReplState, id: Seq<char>, count: i32, r: Result<String, String>) -> bool {
    &&& s1.graph.wf()
    &&& same_surroundings(s0, s1)
    &&& s1.last_node_id == s0.last_node_id
    &&& forall|x: Seq<char>| s0.graph.has_node(x) ==> #[trigger] s1.graph.has_node(x)
    &&& if !can_diverge(s0.graph, id) || count <= 0 {
        &&& r matches Err(t) && t@ == no_branch_text(id)
        &&& !can_diverge(s0.graph, id) ==> s1.graph == s0.graph
    } else {
        exists|cs: Seq<Node>|
            #[trigger] diverged_into(s0, s1, id, count, cs) && (r matches Ok(t) && t@ == "已發散生成 "@ + decimal(
                count as nat,
            ) + " 個子節點:\n"@ + branch_lines(cs))
    }
}

/// Grows branches of a node (see `diverge_done`).
pub fn cmd_diverge(state: &mut ReplState, node_id: &str, count: i32) -> (r: Result<String, String>)
    requires
        old(state).ready(),
    ensures
        diverge_done(*old(state), *final(state), node_id@, count, r),
{
    let ghost s0 = *state;
    proof {
        if s0.graph.has_node(node_id@) {
            let i = crate::models::graph::node_ids(s0.graph.nodes@).index_of(node_id@);
            assert(s0.graph.nodes@[i].step < i32::MAX);
        }
    }
    let engine = state.diverge_engine;
    let children = engine.diverge(&mut state.graph, node_id, count, None);
    if children.len() == 0 {
        let mut t = String::from_str("無法對節點 ");
        push_str(&mut t, node_id);
        push_str(&mut t, " 發散（節點不存在或狀態不允許）");
        return Err(t);
    }
    let mut t = String::from_str("已發散生成 ");
    push_decimal(&mut t, children.len() as u64);
    push_str(&mut t, " 個子節點:\n");
    let ghost head = t@;
    let mut i: usize = 0;
    while i < children.len()
        invariant
            i <= children@.len(),
            t@ == head + branch_lines(children@.take(i as int)),
        decreases children.len() - i,
    {
        let c = &children[i];
        push_str(&mut t, "  - ");
        push_str(&mut t, c.id.as_str());
        push_str(&mut t, " (weight: ");
        push_fixed2(&mut t, c.weight as u128);
        push_str(&mut t, ", confidence: ");
        push_fixed2(&mut t, c.confidence as u128);
        push_str(&mut t, ")\n");
        assert(children@.take(i + 1).drop_last() =~= children@.take(i as int));
        i = i + 1;
    }
    assert(children@.take(children@.len() as int) =~= children@);
    assert(diverged_into(s0, *state, node_id@, count, children@));
    Ok(t)
}

/// One line for each identifier.
pub open spec fn id_lines(ids: Seq<Seq<char>>) -> Seq<char>
    decreases ids.len(),
{
    if ids.len() == 0 {
        Seq::empty()
    } else {
        id_lines(ids.drop_last()) + "  - "@ + ids.last() + "\n"@
    }
}

/// The report of a convergence that pruned the nodes of the identifiers.
pub open spec fn pruned_report(ids: Seq<Seq<char>>) -> Seq<char> {
    if ids.len() == 0 {
        "沒有節點需要刪除\n"@
    } else {
        "已刪除 "@ + decimal(ids.len()) + " 個節點:\n"@ + id_lines(ids)
    }
}

/// What `converge` does: prunes the open nodes whose score is under the
/// bound (the given threshold, else the engine's, in thousandths) and
/// reports them.
pub open spec fn converge_done(s0: ReplState, s1: ReplState, threshold: Option<u64>, r: Result<String, String>) -> bool {
    let rule = picks(PruneRule::ScoreBelow(score_bound(threshold, s0.converge_engine.gate()) as u128));
    &&& s1.graph.wf()
    &&& pruned_where(s0.graph.nodes@, s1.graph.nodes@, rule)
    &&& same_but_nodes(s0.graph, s1.graph)
    &&& same_surroundings(s0, s1)
    &&& s1.last_node_id == s0.last_node_id
    &&& r matches Ok(t) && t@ == pruned_report(node_ids(s0.graph.nodes@.filter(rule)))
}

/// Prunes the weak nodes (see `converge_done`).
pub fn cmd_converge(state: &mut ReplState, threshold: Option<u64>) -> (r: Result<String, String>)
    requires
        old(state).graph.wf(),
    ensures
        converge_done(*old(state), *final(state), threshold, r),
{
    let engine = state.converge_engine;
    let pruned = engine.converge(&mut state.graph, threshold);
    let ghost ids = names_view(pruned@);
    if pruned.len() == 0 {
        return Ok(String::from_str("沒有節點需要刪除\n"));
    }
    let mut t = String::from_str("已刪除 ");
    push_decimal(&mut t, pruned.len() as u64);
    push_str(&mut t, " 個節點:\n");
    let ghost head = t@;
    let mut i: usize = 0;
    while i < pruned.len()
        invariant
            i <= pruned@.len(),
            ids == names_view(pruned@),
            t@ == head + id_lines(ids.take(i as int)),
        decreases pruned.len() - i,
    {
        push_str(&mut t, "  - ");
        push_str(&mut t, pruned[i].as_str());
        push_str(&mut t, "\n");
        assert(ids.take(i + 1).drop_last() =~= ids.take(i as int));
        i = i + 1;
    }
    assert(ids.take(ids.len() as int) =~= ids);
    Ok(t)
}

/// The marker of a status.
pub open spec fn repl_marker(s: NodeStatus) -> Seq<char> {
    match s {
        NodeStatus::Draft => "[D]"@,
        NodeStatus::Active => "[A]"@,
        NodeStatus::Pruned => "[X]"@,
        NodeStatus::Locked => "[L]"@,
        NodeStatus::Failed => "[F]"@,
    }
}

/// The line of a node: its marker, its first 30 characters, its weight,
/// confidence and score with two decimals.
pub open spec fn repl_node_line(n: Node) -> Seq<char> {
    repl_marker(n.status) + " "@ + take_chars(n.content@, 30) + " (w:"@ + fixed2(n.weight as nat) + ", c:"@
        + fixed2(n.confidence as nat) + ", s:"@ + score2((n.weight * n.confidence) as nat) + ")"@
}

/// The lines of a node and, going `fuel` levels down, of its children.
pub open spec fn repl_tree(g: Graph, n: Node, depth: nat, is_last: bool, fuel: nat) -> Seq<char>
    decreases fuel, 0nat, 0nat,
{
    tree_prefix(depth, is_last) + repl_node_line(n) + "\n"@ + if fuel == 0 {
        Seq::empty()
    } else {
        repl_children(g, children_of(g, n.id@), 0, depth + 1, (fuel - 1) as nat)
    }
}

/// The lines of the children from index `i` on, the last marked so.
pub open spec fn repl_children(g: Graph, cs: Seq<Node>, i: int, depth: nat, fuel: nat) -> Seq<char>
    decreases fuel, 1nat, cs.len() - i,
{
    if i < 0 || i >= cs.len() {
        Seq::empty()
    } else {
        repl_tree(g, cs[i], depth, i == cs.len() - 1, fuel) + repl_children(g, cs, i + 1, depth, fuel)
    }
}

/// The trees of the roots from index `i` on.
pub open spec fn repl_roots(g: Graph, rs: Seq<Node>, i: int) -> Seq<char>
    decreases rs.len() - i,
{
    if i < 0 || i >= rs.len() {
        Seq::empty()
    } else {
        repl_tree(g, rs[i], 0, true, g.nodes@.len() as nat) + repl_roots(g, rs, i + 1)
    }
}

/// The view of the graph: a tree for each node without parents, as deep
/// as there are nodes; a note for a graph without roots.
pub open spec fn repl_graph_text(g: Graph) -> Seq<char> {
    let rs = g.nodes@.filter(is_root_node());
    if rs.len() == 0 {
        "（圖是空的）\n"@
    } else {
        "=== 推理圖結構 ===\n"@ + repl_roots(g, rs, 0) + "\n"@
    }
}

/// Appends the line of a node (see `repl_node_line`).
fn push_node_line(out: &mut String, n: &Node)
    ensures
        final(out)@ == old(out)@ + repl_node_line(*n),
{
    let marker = match n.status {
        NodeStatus::Draft => "[D]",
        NodeStatus::Active => "[A]",
        NodeStatus::Pruned => "[X]",
        NodeStatus::Locked => "[L]",
        NodeStatus::Failed => "[F]",
    };
    push_str(out, marker);
    push_str(out, " ");
    let preview = take_chars_string(n.content.as_str(), 30);
    push_str(out, preview.as_str());
    push_str(out, " (w:");
    push_fixed2(out, n.weight as u128);
    push_str(out, ", c:");
    push_fixed2(out, n.confidence as u128);
    push_str(out, ", s:");
    let s = n.score();
    push_score2(out, s);
    push_str(out, ")");
    assert(out@ =~= old(out)@ + repl_node_line(*n));
}

/// Appends the lines of a node and its children (see `repl_tree`).
fn push_repl_tree(out: &mut String, graph: &Graph, node: &Node, depth: usize, is_last: bool, fuel: usize)
    requires
        graph.wf(),
        depth + fuel <= usize::MAX,
    ensures
        final(out)@ == old(out)@ + repl_tree(*graph, *node, depth as nat, is_last, fuel as nat),
    decreases fuel, 0nat,
{
    push_prefix(out, depth, is_last);
    push_node_line(out, node);
    push_str(out, "\n");
    if fuel > 0 {
        let cs = graph.get_children(node.id.as_str());
        assert(derefs(cs@) == children_of(*graph, node.id@));
        push_repl_children(out, graph, &cs, depth + 1, fuel - 1);
    }
    assert(out@ =~= old(out)@ + repl_tree(*graph, *node, depth as nat, is_last, fuel as nat));
}

/// Appends the lines of children (see `repl_children`).
fn push_repl_children(out: &mut String, graph: &Graph, cs: &Vec<&Node>, depth: usize, fuel: usize)
    requires
        graph.wf(),
        depth + fuel <= usize::MAX,
    ensures
        final(out)@ == old(out)@ + repl_children(*graph, derefs(cs@), 0, depth as nat, fuel as nat),
    decreases fuel, 1nat,
{
    let ghost all = derefs(cs@);
    let ghost head = out@;
    let mut i: usize = 0;
    while i < cs.len()
        invariant
            graph.wf(),
            depth + fuel <= usize::MAX,
            i <= cs@.len(),
            all == derefs(cs@),
            out@ + repl_children(*graph, all, i as int, depth as nat, fuel as nat) == head + repl_children(
                *graph,
                all,
                0,
                depth as nat,
                fuel as nat,
            ),
        decreases cs.len() - i,
    {
        let ghost before = out@;
        let last = i + 1 == cs.len();
        push_repl_tree(out, graph, cs[i], depth, last, fuel);
        assert(out@ + repl_children(*graph, all, i + 1, depth as nat, fuel as nat) =~= before + repl_children(
            *graph,
            all,
            i as int,
            depth as nat,
            fuel as nat,
        ));
        i = i + 1;
    }
    assert(out@ =~= head + repl_children(*graph, all, 0, depth as nat, fuel as nat));
}

/// The view of the graph (see `repl_graph_text`).
pub fn cmd_show_graph(state: &ReplState) -> (r: String)
    requires
        state.graph.wf(),
    ensures
        r@ == repl_graph_text(state.graph),
{
    let graph = &state.graph;
    let roots = graph.get_root_nodes();
    if roots.len() == 0 {
        return String::from_str("（圖是空的）\n");
    }
    let ghost rs = derefs(roots@);
    let mut out = String::from_str("=== 推理圖結構 ===\n");
    let ghost head = out@;
    let fuel = graph.nodes.len();
    let mut i: usize = 0;
    while i < roots.len()
        invariant
            graph.wf(),
            fuel == graph.nodes@.len(),
            i <= roots@.len(),
            rs == derefs(roots@),
            out@ + repl_roots(*graph, rs, i as int) == head + repl_roots(*graph, rs, 0),
        decreases roots.len() - i,
    {
        let ghost before = out@;
        push_repl_tree(&mut out, graph, roots[i], 0, true, fuel);
        assert(out@ + repl_roots(*graph, rs, i + 1) =~= before + repl_roots(*graph, rs, i as int));
        i = i + 1;
    }
    push_str(&mut out, "\n");
    assert(out@ =~= repl_graph_text(*graph));
    out
}

/// The nodes of a status.
pub open spec fn has_status(st: NodeStatus) -> spec_fn(Node) -> bool {
    |n: Node| n.status == st
}

/// The number of nodes of a status.
pub open spec fn status_count(g: Graph, st: NodeStatus) -> nat {
    g.nodes@.filter(has_status(st)).len()
}

/// The statistics: live nodes, live edges, live complexity, the budget
/// (two decimals), and the number of nodes of each status.
pub open spec fn repl_status_text(s: ReplState) -> Seq<char> {
    let g = s.graph;
    "=== 狀態統計 ===\n節點數量: "@ + decimal(live_count(g)) + "\n邊數量: "@ + decimal(
        g.edges@.filter(is_live_edge(g)).len(),
    ) + "\n總複雜度: "@ + fixed2(complexity_sum(g.nodes@.filter(is_live_node()))) + "\n複雜度預算: "@ + fixed2(
        s.complexity_budget.current_complexity as nat,
    ) + " / "@ + fixed2(s.complexity_budget.max_complexity as nat) + "\n\n各狀態節點:\n  草稿 (Draft): "@ + decimal(
        status_count(g, NodeStatus::Draft),
    ) + "\n  活躍 (Active): "@ + decimal(status_count(g, NodeStatus::Active)) + "\n  已刪除 (Pruned): "@ + decimal(
        status_count(g, NodeStatus::Pruned),
    ) + "\n  鎖定 (Locked): "@ + decimal(status_count(g, NodeStatus::Locked)) + "\n  失敗 (Failed): "@ + decimal(
        status_count(g, NodeStatus::Failed),
    ) + "\n"@
}

/// Counts the nodes of a status.
fn count_status(graph: &Graph, st: NodeStatus) -> (c: usize)
    ensures
        c == status_count(*graph, st),
{
    let ghost src = graph.nodes@;
    let ghost p = has_status(st);
    let mut c: usize = 0;
    let mut i: usize = 0;
    assert(src.take(0) =~= Seq::<Node>::empty());
    assert(Seq::<Node>::empty().filter(p) =~= Seq::<Node>::empty()) by {
        reveal(Seq::filter);
    }
    while i < graph.nodes.len()
        invariant
            i <= src.len(),
            src == graph.nodes@,
            p == has_status(st),
            c == src.take(i as int).filter(p).len(),
            c <= i,
        decreases graph.nodes.len() - i,
    {
        proof {
            assert(src.take(i + 1) =~= src.take(i as int).push(src[i as int]));
            src.take(i as int).lemma_filter_push(src[i as int], p);
        }
        if graph.nodes[i].status == st {
            c = c + 1;
        }
        i = i + 1;
    }
    assert(src.take(src.len() as int) =~= src);
    c
}

/// The statistics (see `repl_status_text`).
pub fn cmd_show_status(state: &ReplState) -> (r: String)
    requires
        state.graph.wf(),
    ensures
        r@ == repl_status_text(*state),
{
    let g = &state.graph;
    let mut t = String::from_str("=== 狀態統計 ===\n節點數量: ");
    push_decimal(&mut t, g.node_count() as u64);
    push_str(&mut t, "\n邊數量: ");
    push_decimal(&mut t, g.edge_count() as u64);
    push_str(&mut t, "\n總複雜度: ");
    push_fixed2(&mut t, g.total_complexity());
    push_str(&mut t, "\n複雜度預算: ");
    push_fixed2(&mut t, state.complexity_budget.current_complexity as u128);
    push_str(&mut t, " / ");
    push_fixed2(&mut t, state.complexity_budget.max_complexity as u128);
    push_str(&mut t, "\n\n各狀態節點:\n  草稿 (Draft): ");
    push_decimal(&mut t, count_status(g, NodeStatus::Draft) as u64);
    push_str(&mut t, "\n  活躍 (Active): ");
    push_decimal(&mut t, count_status(g, NodeStatus::Active) as u64);
    push_str(&mut t, "\n  已刪除 (Pruned): ");
    push_decimal(&mut t, count_status(g, NodeStatus::Pruned) as u64);
    push_str(&mut t, "\n  鎖定 (Locked): ");
    push_decimal(&mut t, count_status(g, NodeStatus::Locked) as u64);
    push_str(&mut t, "\n  失敗 (Failed): ");
    push_decimal(&mut t, count_status(g, NodeStatus::Failed) as u64);
    push_str(&mut t, "\n");
    assert(t@ =~= repl_status_text(*state));
    t
}

/// A score in millionths with four decimals, rounded half up.
pub open spec fn score4(v: nat) -> Seq<char> {
    let h = (v + 50) / 100;
    decimal(h / 10000) + seq![
        '.',
        digit_char((h / 1000) % 10),
        digit_char((h / 100) % 10),
        digit_char((h / 10) % 10),
        digit_char(h % 10),
    ]
}

/// Appends a score with four decimals (see `score4`).
fn push_score4(s: &mut String, v: u64)
    ensures
        final(s)@ == old(s)@ + score4(v as nat),
{
    let h: u128 = ((v as u128) + 50) / 100;
    push_decimal_wide(s, h / 10000);
    s.push('.');
    s.push(digit_char_exec((h / 1000) % 10));
    s.push(digit_char_exec((h / 100) % 10));
    s.push(digit_char_exec((h / 10) % 10));
    s.push(digit_char_exec(h % 10));
    assert(s@ =~= old(s)@ + score4(v as nat));
}

/// The items of a list of texts, quoted and separated by commas.
pub open spec fn quoted_items(v: Seq<Seq<char>>) -> Seq<char>
    decreases v.len(),
{
    if v.len() == 0 {
        Seq::empty()
    } else if v.len() == 1 {
        "\""@ + v[0] + "\""@
    } else {
        quoted_items(v.drop_last()) + ", \""@ + v.last() + "\""@
    }
}

/// Appends a list of texts in brackets (see `quoted_items`).
fn push_quoted_list(out: &mut String, v: &Vec<String>)
    ensures
        final(out)@ == old(out)@ + "["@ + quoted_items(names_view(v@)) + "]"@,
{
    let ghost all = names_view(v@);
    push_str(out, "[");
    let ghost head = out@;
    let mut i: usize = 0;
    while i < v.len()
        invariant
            i <= v@.len(),
            all == names_view(v@),
            out@ == head + quoted_items(all.take(i as int)),
        decreases v.len() - i,
    {
        if i > 0 {
            push_str(out, ", \"");
        } else {
            push_str(out, "\"");
        }
        push_str(out, v[i].as_str());
        push_str(out, "\"");
        assert(all.take(i + 1).drop_last() =~= all.take(i as int));
        assert(all.take(i + 1).last() == v@[i as int]@);
        proof {
            if i == 0 {
                assert(all.take(1)[0] == v@[0]@);
            }
        }
        i = i + 1;
    }
    assert(all.take(all.len() as int) =~= all);
    push_str(out, "]");
}

/// One line for the content of each node.
pub open spec fn content_lines(ns: Seq<Node>) -> Seq<char>
    decreases ns.len(),
{
    if ns.len() == 0 {
        Seq::empty()
    } else {
        content_lines(ns.drop_last()) + "  - "@ + ns.last().content@ + "\n"@
    }
}

/// A heading and the contents of the nodes; nothing for no node.
pub open spec fn related_block(head: Seq<char>, ns: Seq<Node>) -> Seq<char> {
    if ns.len() == 0 {
        Seq::empty()
    } else {
        head + content_lines(ns)
    }
}

/// Appends a heading and node contents (see `related_block`).
fn push_related(out: &mut String, head: &str, ns: &Vec<&Node>)
    ensures
        final(out)@ == old(out)@ + related_block(head@, derefs(ns@)),
{
    let ghost all = derefs(ns@);
    if ns.len() == 0 {
        return;
    }
    push_str(out, head);
    let ghost start = out@;
    let mut i: usize = 0;
    while i < ns.len()
        invariant
            i <= ns@.len(),
            all == derefs(ns@),
            out@ == start + content_lines(all.take(i as int)),
        decreases ns.len() - i,
    {
        push_str(out, "  - ");
        push_str(out, ns[i].content.as_str());
        push_str(out, "\n");
        assert(all.take(i + 1).drop_last() =~= all.take(i as int));
        i = i + 1;
    }
    assert(all.take(all.len() as int) =~= all);
}

/// The details of a node: its fields (four decimals for the numbers, the
/// status and edge lists as `Debug` writes them), then the contents of its
/// parents and of its children.
pub open spec fn node_info_text(g: Graph, id: Seq<char>) -> Seq<char> {
    let n = g.node_of(id);
    "=== 節點資訊 ===\nID: "@ + n.id@ + "\n內容: "@ + n.content@ + "\n步驟: "@ + signed_decimal(n.step as int)
        + "\n權重: "@ + fixed4(n.weight as nat) + "\n信心度: "@ + fixed4(n.confidence as nat) + "\n複雜度貢獻: "@
        + fixed4(n.complexity as nat) + "\n分數: "@ + score4((n.weight * n.confidence) as nat) + "\n狀態: "@
        + node_status_name(n.status) + "\n父節點邊: "@ + "["@ + quoted_items(names_view(n.parent_edges@)) + "]"@
        + "\n子節點邊: "@ + "["@ + quoted_items(names_view(n.child_edges@)) + "]"@ + "\n"@ + related_block(
        "\n父節點:\n"@,
        parents_of(g, id),
    ) + related_block("\n子節點:\n"@, children_of(g, id))
}

/// What `node` gives: the details of a node, or an error for an unknown
/// one.
pub open spec fn node_info_done(g: Graph, id: Seq<char>, r: Result<String, String>) -> bool {
    if g.has_node(id) {
        r matches Ok(t) && t@ == node_info_text(g, id)
    } else {
        r matches Err(t) && t@ == not_found_text(id)
    }
}

/// The details of a node (see `node_info_done`).
pub fn cmd_show_node(state: &ReplState, node_id: &str) -> (r: Result<String, String>)
    requires
        state.graph.wf(),
    ensures
        node_info_done(state.graph, node_id@, r),
{
    let g = &state.graph;
    let n = match g.get_node(node_id) {
        Some(n) => n,
        None => {
            let mut t = String::from_str("找不到節點: ");
            push_str(&mut t, node_id);
            return Err(t);
        },
    };
    let mut t = String::from_str("=== 節點資訊 ===\nID: ");
    push_str(&mut t, n.id.as_str());
    push_str(&mut t, "\n內容: ");
    push_str(&mut t, n.content.as_str());
    push_str(&mut t, "\n步驟: ");
    push_signed_decimal(&mut t, n.step as i64);
    push_str(&mut t, "\n權重: ");
    push_fixed4(&mut t, n.weight as u128);
    push_str(&mut t, "\n信心度: ");
    push_fixed4(&mut t, n.confidence as u128);
    push_str(&mut t, "\n複雜度貢獻: ");
    push_fixed4(&mut t, n.complexity as u128);
    push_str(&mut t, "\n分數: ");
    push_score4(&mut t, n.score());
    push_str(&mut t, "\n狀態: ");
    push_str(&mut t, n.status.name());
    push_str(&mut t, "\n父節點邊: ");
    push_quoted_list(&mut t, &n.parent_edges);
    push_str(&mut t, "\n子節點邊: ");
    push_quoted_list(&mut t, &n.child_edges);
    push_str(&mut t, "\n");
    let parents = g.get_parents(node_id);
    push_related(&mut t, "\n父節點:\n", &parents);
    let children = g.get_children(node_id);
    push_related(&mut t, "\n子節點:\n", &children);
    assert(t@ =~= node_info_text(*g, node_id@));
    Ok(t)
}

/// `s` without its leading copies of `c`.
pub open spec fn drop_leading(s: Seq<char>, c: char) -> Seq<char>
    decreases s.len(),
{
    if s.len() > 0 && s[0] == c {
        drop_leading(s.drop_first(), c)
    } else {
        s
    }
}

/// `s` without its trailing copies of `c`.
pub open spec fn drop_trailing(s: Seq<char>, c: char) -> Seq<char>
    decreases s.len(),
{
    if s.len() > 0 && s.last() == c {
        drop_trailing(s.drop_last(), c)
    } else {
        s
    }
}

/// `s` without its leading and trailing copies of `c`, as
/// `str::trim_matches` with a character gives it.
pub open spec fn trim_char(s: Seq<char>, c: char) -> Seq<char> {
    drop_trailing(drop_leading(s, c), c)
}

/// Trims a character from both ends (see `trim_char`).
fn trim_char_exec(s: &[char], c: char) -> (r: Vec<char>)
    ensures
        r@ == trim_char(s@, c),
{
    let mut a: usize = 0;
    assert(s@.skip(0) =~= s@);
    while a < s.len() && s[a] == c
        invariant
            a <= s@.len(),
            drop_leading(s@.skip(a as int), c) == drop_leading(s@, c),
        decreases s@.len() - a,
    {
        assert(s@.skip(a as int).drop_first() =~= s@.skip(a + 1));
        a = a + 1;
    }
    let ghost lead = s@.skip(a as int);
    assert(drop_leading(lead, c) == lead);
    let mut b: usize = s.len();
    assert(s@.subrange(a as int, b as int) =~= lead);
    while b > a && s[b - 1] == c
        invariant
            a <= b <= s@.len(),
            drop_trailing(s@.subrange(a as int, b as int), c) == drop_trailing(lead, c),
        decreases b,
    {
        assert(s@.subrange(a as int, b as int).drop_last() =~= s@.subrange(a as int, b - 1));
        b = b - 1;
    }
    crate::text::slice_vec(s, a, b)
}

/// A command as the words of a line read it.
pub enum ReplCommand {
    /// Nothing to do (an empty line, `quit`, `exit`).
    Nothing,
    /// `help`.
    Help,
    /// `create node <content>` (the content is required).
    Create(Seq<char>),
    /// `add child <parent> [<content>]`.
    AddChild(Seq<char>, Seq<char>),
    /// `diverge <node> [<count>]`.
    Diverge(Seq<char>, i32),
    /// `converge [<threshold>]`, the threshold in thousandths.
    Converge(Option<u32>),
    /// `show graph`.
    ShowGraph,
    /// `show status`.
    ShowStatus,
    /// `node <node>`.
    ShowNode(Seq<char>),
    /// `lock <node>`.
    Lock(Seq<char>),
    /// `prune <node>`.
    Prune(Seq<char>),
    /// A line refused with the message.
    Refused(Seq<char>),
}

/// The words from index `k` on, joined by spaces, without surrounding
/// double quotes.
pub open spec fn rest_text(ws: Seq<Seq<char>>, k: int) -> Seq<char> {
    trim_char(join(ws.skip(k), " "@), '"')
}

/// The command of the words of a line.
pub open spec fn repl_command(ws: Seq<Seq<char>>) -> ReplCommand {
    if ws.len() == 0 {
        ReplCommand::Nothing
    } else if ws[0] == "help"@ {
        ReplCommand::Help
    } else if ws[0] == "create"@ {
        if ws.len() < 2 {
            ReplCommand::Refused("用法: create node <內容>"@)
        } else if ws[1] != "node"@ {
            ReplCommand::Refused("未知的 create 子指令"@)
        } else if ws.len() < 3 {
            ReplCommand::Refused("用法: create node <內容>"@)
        } else {
            ReplCommand::Create(rest_text(ws, 2))
        }
    } else if ws[0] == "add"@ {
        if ws.len() < 2 {
            ReplCommand::Refused("用法: add child <父節點ID> <內容>"@)
        } else if ws[1] != "child"@ {
            ReplCommand::Refused("未知的 add 子指令"@)
        } else if ws.len() < 3 {
            ReplCommand::Refused("用法: add child <父節點ID> <內容>"@)
        } else if ws.len() > 3 {
            ReplCommand::AddChild(ws[2], rest_text(ws, 3))
        } else {
            ReplCommand::AddChild(ws[2], "新節點"@)
        }
    } else if ws[0] == "diverge"@ {
        if ws.len() < 2 {
            ReplCommand::Refused("用法: diverge <節點ID> [數量]"@)
        } else if ws.len() > 2 {
            match parse_i32_spec(ws[2]) {
                Some(n) => ReplCommand::Diverge(ws[1], n),
                None => ReplCommand::Refused("數量必須是數字"@),
            }
        } else {
            ReplCommand::Diverge(ws[1], 3)
        }
    } else if ws[0] == "converge"@ {
        if ws.len() > 1 {
            match parse_thousandths_spec(ws[1]) {
                Some(t) => ReplCommand::Converge(Some(t)),
                None => ReplCommand::Refused("閾值必須是數字"@),
            }
        } else {
            ReplCommand::Converge(None)
        }
    } else if ws[0] == "show"@ {
        if ws.len() < 2 {
            ReplCommand::Refused("用法: show graph | status"@)
        } else if ws[1] == "graph"@ {
            ReplCommand::ShowGraph
        } else if ws[1] == "status"@ {
            ReplCommand::ShowStatus
        } else {
            ReplCommand::Refused("未知的 show 子指令"@)
        }
    } else if ws[0] == "node"@ {
        if ws.len() < 2 {
            ReplCommand::Refused("用法: node <節點ID>"@)
        } else {
            ReplCommand::ShowNode(ws[1])
        }
    } else if ws[0] == "lock"@ {
        if ws.len() < 2 {
            ReplCommand::Refused("用法: lock <節點ID>"@)
        } else {
            ReplCommand::Lock(ws[1])
        }
    } else if ws[0] == "prune"@ {
        if ws.len() < 2 {
            ReplCommand::Refused("用法: prune <節點ID>"@)
        } else {
            ReplCommand::Prune(ws[1])
        }
    } else if ws[0] == "quit"@ || ws[0] == "exit"@ {
        ReplCommand::Nothing
    } else {
        ReplCommand::Refused("未知的指令: "@ + ws[0] + "，輸入 'help' 取得說明"@)
    }
}

/// The threshold of a convergence in the engine's units.
pub open spec fn wide_threshold(t: Option<u32>) -> Option<u64> {
    match t {
        Some(x) => Some(x as u64),
        None => None,
    }
}

/// What a line does to the session and gives back (see `repl_command`):
/// the command's own effect and report, or the refusal with nothing
/// changed.
pub open spec fn command_done(s0: ReplState, s1: ReplState, input: Seq<char>, r: Result<String, String>) -> bool {
    match repl_command(words(input)) {
        ReplCommand::Nothing => s1 == s0 && (r matches Ok(t) && t@.len() == 0),
        ReplCommand::Help => s1 == s0 && (r matches Ok(t) && t@ == repl_help_text()),
        ReplCommand::Create(c) => create_done(s0, s1, c, r),
        ReplCommand::AddChild(p, c) => add_child_done(s0, s1, p, c, r),
        ReplCommand::Diverge(id, n) => diverge_done(s0, s1, id, n, r),
        ReplCommand::Converge(t) => converge_done(s0, s1, wide_threshold(t), r),
        ReplCommand::ShowGraph => s1 == s0 && (r matches Ok(t) && t@ == repl_graph_text(s0.graph)),
        ReplCommand::ShowStatus => s1 == s0 && (r matches Ok(t) && t@ == repl_status_text(s0)),
        ReplCommand::ShowNode(id) => s1 == s0 && node_info_done(s0.graph, id, r),
        ReplCommand::Lock(id) => status_done(s0, s1, id, NodeStatus::Locked, "已鎖定節點: "@, r),
        ReplCommand::Prune(id) => status_done(s0, s1, id, NodeStatus::Pruned, "已刪除節點: "@, r),
        ReplCommand::Refused(m) => s1 == s0 && (r matches Err(t) && t@ == m),
    }
}

/// Whether a word is the given text.
fn word_is(w: &Vec<char>, text: &str) -> (b: bool)
    ensures
        b == (w@ == text@),
{
    let s = string_of(w.as_slice());
    same_text(s.as_str(), text)
}

/// The words from index `k` on (see `rest_text`).
fn rest_text_exec(ws: &Vec<Vec<char>>, k: usize) -> (r: String)
    requires
        k <= ws@.len(),
    ensures
        r@ == rest_text(ws@.map_values(|w: Vec<char>| w@), k as int),
{
    let ghost all = ws@.map_values(|w: Vec<char>| w@);
    let mut rest: Vec<Vec<char>> = Vec::new();
    let mut i: usize = k;
    while i < ws.len()
        invariant
            k <= i <= ws@.len(),
            all == ws@.map_values(|w: Vec<char>| w@),
            rest@.map_values(|w: Vec<char>| w@) == all.subrange(k as int, i as int),
        decreases ws.len() - i,
    {
        let w = crate::text::slice_vec(ws[i].as_slice(), 0, ws[i].len());
        assert(ws@[i as int]@.subrange(0, ws@[i as int]@.len() as int) =~= ws@[i as int]@);
        let ghost before = rest@.map_values(|w: Vec<char>| w@);
        rest.push(w);
        let ghost mv = rest@.map_values(|w: Vec<char>| w@);
        let ghost target = all.subrange(k as int, i + 1);
        assert(before.len() == i - k);
        assert(mv.len() == target.len());
        assert forall|j: int| 0 <= j < mv.len() implies #[trigger] mv[j] == target[j] by {
            if j < before.len() {
                assert(before[j] == all.subrange(k as int, i as int)[j]);
            }
        }
        assert(mv =~= target);
        i = i + 1;
    }
    assert(all.skip(k as int) =~= all.subrange(k as int, i as int));
    let joined = join_exec(&rest, " ");
    let cs = chars_of(joined.as_str());
    let trimmed = trim_char_exec(cs.as_slice(), '"');
    string_of(trimmed.as_slice())
}

/// Runs one line: reads its command (see `repl_command`) and carries it
/// out (see `command_done`).
pub fn process_command(state: &mut ReplState, input: &str) -> (r: Result<String, String>)
    requires
        old(state).ready(),
    ensures
        command_done(*old(state), *final(state), input@, r),
{
    let cs = chars_of(input);
    let ws = words_exec(cs.as_slice());
    let ghost wv = ws@.map_values(|w: Vec<char>| w@);
    assert(wv == words(input@));
    if ws.len() == 0 {
        return Ok(String::new());
    }
    assert(wv[0] == ws@[0]@);
    if word_is(&ws[0], "help") {
        return Ok(print_help());
    }
    if word_is(&ws[0], "create") {
        if ws.len() < 2 {
            return Err(String::from_str("用法: create node <內容>"));
        }
        assert(wv[1] == ws@[1]@);
        if !word_is(&ws[1], "node") {
            return Err(String::from_str("未知的 create 子指令"));
        }
        if ws.len() < 3 {
            return Err(String::from_str("用法: create node <內容>"));
        }
        let content = rest_text_exec(&ws, 2);
        return cmd_create_node(state, content.as_str());
    }
    if word_is(&ws[0], "add") {
        if ws.len() < 2 {
            return Err(String::from_str("用法: add child <父節點ID> <內容>"));
        }
        assert(wv[1] == ws@[1]@);
        if !word_is(&ws[1], "child") {
            return Err(String::from_str("未知的 add 子指令"));
        }
        if ws.len() < 3 {
            return Err(String::from_str("用法: add child <父節點ID> <內容>"));
        }
        assert(wv[2] == ws@[2]@);
        let parent = string_of(ws[2].as_slice());
        let content = if ws.len() > 3 {
            rest_text_exec(&ws, 3)
        } else {
            String::from_str("新節點")
        };
        return cmd_add_child(state, parent.as_str(), content.as_str());
    }
    if word_is(&ws[0], "diverge") {
        if ws.len() < 2 {
            return Err(String::from_str("用法: diverge <節點ID> [數量]"));
        }
        assert(wv[1] == ws@[1]@);
        let node_id = string_of(ws[1].as_slice());
        let count: i32 = if ws.len() > 2 {
            assert(wv[2] == ws@[2]@);
            let text = string_of(ws[2].as_slice());
            match parse_i32(text.as_str()) {
                Some(n) => n,
                None => {
                    return Err(String::from_str("數量必須是數字"));
                },
            }
        } else {
            3
        };
        return cmd_diverge(state, node_id.as_str(), count);
    }
    if word_is(&ws[0], "converge") {
        let threshold: Option<u64> = if ws.len() > 1 {
            assert(wv[1] == ws@[1]@);
            let text = string_of(ws[1].as_slice());
            match parse_thousandths(text.as_str()) {
                Some(t) => Some(t as u64),
                None => {
                    return Err(String::from_str("閾值必須是數字"));
                },
            }
        } else {
            None
        };
        return cmd_converge(state, threshold);
    }
    if word_is(&ws[0], "show") {
        if ws.len() < 2 {
            return Err(String::from_str("用法: show graph | status"));
        }
        assert(wv[1] == ws@[1]@);
        if word_is(&ws[1], "graph") {
            return Ok(cmd_show_graph(state));
        }
        if word_is(&ws[1], "status") {
            return Ok(cmd_show_status(state));
        }
        return Err(String::from_str("未知的 show 子指令"));
    }
    if word_is(&ws[0], "node") {
        if ws.len() < 2 {
            return Err(String::from_str("用法: node <節點ID>"));
        }
        assert(wv[1] == ws@[1]@);
        let node_id = string_of(ws[1].as_slice());
        return cmd_show_node(state, node_id.as_str());
    }
    if word_is(&ws[0], "lock") {
        if ws.len() < 2 {
            return Err(String::from_str("用法: lock <節點ID>"));
        }
        assert(wv[1] == ws@[1]@);
        let node_id = string_of(ws[1].as_slice());
        return cmd_lock_node(state, node_id.as_str());
    }
    if word_is(&ws[0], "prune") {
        if ws.len() < 2 {
            return Err(String::from_str("用法: prune <節點ID>"));
        }
        assert(wv[1] == ws@[1]@);
        let node_id = string_of(ws[1].as_slice());
        return cmd_prune_node(state, node_id.as_str());
    }
    if word_is(&ws[0], "quit") || word_is(&ws[0], "exit") {
        return Ok(String::new());
    }
    let mut t = String::from_str("未知的指令: ");
    push_chars(&mut t, ws[0].as_slice());
    push_str(&mut t, "，輸入 'help' 取得說明");
    Err(t)
}

} // verus!
