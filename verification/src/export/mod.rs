//! Exported views of the reasoning state, for other tools and other models.
//!
//! The library builds the views and the DSL text; YAML and JSON are written
//! by the application with serde.
pub mod serializers;

use vstd::prelude::*;
use vstd::utf8::encode_utf8;

use crate::engine::backtrack::{
    hypotheses_spec, pattern_debug_name, reason_text, BacktrackManager, Checkpoint, CheckpointView,
    CorrectionHypothesis, FailurePattern, FailureView, HypothesisView,
};
use crate::memory::{keep_first, MemoryFile, MemoryManager};
use crate::models::edge::{edge_type_name, Edge};
use crate::models::graph::{complexity_sum, Graph, Topic};
use crate::models::node::{node_status_name, Node, NodeStatus};
use crate::paths::path_display;
use crate::stamp::utc_now;
use crate::text::{
    chars_of, lines, lines_exec, non_blank, not_blank, split, split_exec, string_of, take_chars,
};

verus! {

/// Export formats.
#[derive(Debug, Clone, Copy, PartialEq, Eq, Structural)]
pub enum ExportFormat {
    /// YAML.
    Yaml,
    /// JSON.
    Json,
    /// The DSL.
    Dsl,
}

impl Default for ExportFormat {
    fn default() -> (f: Self)
        ensures
            f == ExportFormat::Yaml,
    {
        ExportFormat::Yaml
    }
}

/// The name each format displays.
pub open spec fn format_name(f: ExportFormat) -> Seq<char> {
    match f {
        ExportFormat::Yaml => "yaml"@,
        ExportFormat::Json => "json"@,
        ExportFormat::Dsl => "dsl"@,
    }
}

impl ExportFormat {
    /// The name the format displays.
    pub fn name(&self) -> (s: &'static str)
        ensures
            s@ == format_name(*self),
    {
        match self {
            ExportFormat::Yaml => "yaml",
            ExportFormat::Json => "json",
            ExportFormat::Dsl => "dsl",
        }
    }
}

/// A node, as exported: amounts in thousandths.
#[derive(Debug, Clone)]
pub struct NodeExportView {
    /// Its identifier.
    pub id: String,
    /// Its step.
    pub step: i32,
    /// Its content.
    pub content: String,
    /// Its weight.
    pub weight: u32,
    /// Its confidence.
    pub confidence: u32,
    /// Its complexity.
    pub complexity: u32,
    /// Its status's name.
    pub status: String,
    /// How many edges come in.
    pub parent_count: usize,
    /// How many edges go out.
    pub child_count: usize,
}

/// An edge, as exported: the weight in thousandths.
#[derive(Debug, Clone)]
pub struct EdgeExportView {
    /// Its identifier.
    pub id: String,
    /// The node it leaves.
    pub from_id: String,
    /// The node it reaches.
    pub to_id: String,
    /// Its kind's name.
    pub edge_type: String,
    /// Its weight.
    pub weight: u32,
}

/// The graph, as exported: the total complexity in thousandths.
#[derive(Debug, Clone)]
pub struct GraphExportView {
    /// The number of nodes.
    pub node_count: usize,
    /// The number of edges.
    pub edge_count: usize,
    /// The number of topics.
    pub topic_count: usize,
    /// The nodes.
    pub nodes: Vec<NodeExportView>,
    /// The edges.
    pub edges: Vec<EdgeExportView>,
    /// The topics.
    pub topics: Vec<TopicExportView>,
    /// The complexity of all nodes.
    pub total_complexity: u128,
    /// How many nodes are locked.
    pub locked_nodes: usize,
    /// How many are drafts.
    pub draft_nodes: usize,
    /// How many are pruned.
    pub pruned_nodes: usize,
}

/// The state of backtracking, as exported.
#[derive(Debug, Clone)]
pub struct BacktrackExportView {
    /// The number of checkpoints.
    pub checkpoint_count: usize,
    /// The number of failures.
    pub failure_count: usize,
    /// The checkpoints.
    pub checkpoints: Vec<CheckpointExportView>,
    /// The failures.
    pub failures: Vec<FailureExportView>,
    /// The hypotheses for the latest failure.
    pub latest_hypotheses: Vec<HypothesisExportView>,
    /// The number of groups of hypotheses: one per failure.
    pub total_groups: usize,
}

/// All hypotheses, as exported.
#[derive(Debug, Clone)]
pub struct HypothesesExportView {
    /// The number of failures.
    pub total_failures: usize,
    /// The number of hypotheses.
    pub total_hypotheses: usize,
    /// The hypotheses.
    pub hypotheses: Vec<HypothesisExportView>,
}

/// A node's export view as plain values.
pub type NodeExportPlain = (Seq<char>, i32, Seq<char>, u32, u32, u32, Seq<char>, usize, usize);

/// The export view of a node.
pub open spec fn node_export(n: Node) -> NodeExportPlain {
    (
        n.id@,
        n.step,
        n.content@,
        n.weight,
        n.confidence,
        n.complexity,
        node_status_name(n.status),
        n.parent_edges@.len() as usize,
        n.child_edges@.len() as usize,
    )
}

/// The export view of an edge.
pub open spec fn edge_export(e: Edge) -> (Seq<char>, Seq<char>, Seq<char>, Seq<char>, u32) {
    (e.id@, e.from@, e.to@, edge_type_name(e.edge_type), e.weight)
}

/// The export view of a topic.
pub open spec fn topic_export(t: Topic) -> (Seq<char>, Seq<char>, Seq<char>, Seq<char>) {
    (t.id@, t.title@, t.root_node_id@, t.created_at@)
}

impl NodeExportView {
    /// The view as plain values.
    pub open spec fn view_spec(&self) -> NodeExportPlain {
        (
            self.id@,
            self.step,
            self.content@,
            self.weight,
            self.confidence,
            self.complexity,
            self.status@,
            self.parent_count,
            self.child_count,
        )
    }

    /// The export view of a node.
    pub fn of(n: &Node) -> (v: Self)
        ensures
            v.view_spec() == node_export(*n),
    {
        NodeExportView {
            id: n.id.clone(),
            step: n.step,
            content: n.content.clone(),
            weight: n.weight,
            confidence: n.confidence,
            complexity: n.complexity,
            status: String::from_str(n.status.name()),
            parent_count: n.parent_edges.len(),
            child_count: n.child_edges.len(),
        }
    }
}

impl EdgeExportView {
    /// The view as plain values.
    pub open spec fn view_spec(&self) -> (Seq<char>, Seq<char>, Seq<char>, Seq<char>, u32) {
        (self.id@, self.from_id@, self.to_id@, self.edge_type@, self.weight)
    }

    /// The export view of an edge.
    pub fn of(e: &Edge) -> (v: Self)
        ensures
            v.view_spec() == edge_export(*e),
    {
        EdgeExportView {
            id: e.id.clone(),
            from_id: e.from.clone(),
            to_id: e.to.clone(),
            edge_type: String::from_str(e.edge_type.name()),
            weight: e.weight,
        }
    }
}

impl TopicExportView {
    /// The view as plain values.
    pub open spec fn view_spec(&self) -> (Seq<char>, Seq<char>, Seq<char>, Seq<char>) {
        (self.id@, self.title@, self.root_node_id@, self.created_at@)
    }

    /// The export view of a topic.
    pub fn of(t: &Topic) -> (v: Self)
        ensures
            v.view_spec() == topic_export(*t),
    {
        TopicExportView {
            id: t.id.clone(),
            title: t.title.clone(),
            root_node_id: t.root_node_id.clone(),
            created_at: t.created_at.clone(),
        }
    }
}

/// How many nodes have a status.
pub open spec fn status_count(ns: Seq<Node>, s: NodeStatus) -> nat {
    ns.filter(|n: Node| n.status == s).len()
}

/// The export view of a graph.
pub open spec fn graph_view_spec(g: Graph, v: GraphExportView) -> bool {
    &&& v.node_count == g.nodes@.len()
    &&& v.edge_count == g.edges@.len()
    &&& v.topic_count == g.topics@.len()
    &&& v.nodes@.map_values(|x: NodeExportView| x.view_spec()) == g.nodes@.map_values(|n: Node| node_export(n))
    &&& v.edges@.map_values(|x: EdgeExportView| x.view_spec()) == g.edges@.map_values(|e: Edge| edge_export(e))
    &&& v.topics@.map_values(|x: TopicExportView| x.view_spec()) == g.topics@.map_values(|t: Topic| topic_export(t))
    &&& v.total_complexity == complexity_sum(g.nodes@)
    &&& v.locked_nodes == status_count(g.nodes@, NodeStatus::Locked)
    &&& v.draft_nodes == status_count(g.nodes@, NodeStatus::Draft)
    &&& v.pruned_nodes == status_count(g.nodes@, NodeStatus::Pruned)
}

/// The export view of a graph (see `graph_view_spec`).
pub fn graph_to_export_view(graph: &Graph) -> (v: GraphExportView)
    ensures
        graph_view_spec(*graph, v),
{
    let ghost src = graph.nodes@;
    let ghost pl = |n: Node| n.status == NodeStatus::Locked;
    let ghost pd = |n: Node| n.status == NodeStatus::Draft;
    let ghost pp = |n: Node| n.status == NodeStatus::Pruned;
    let mut nodes: Vec<NodeExportView> = Vec::new();
    let mut total: u128 = 0;
    let mut locked: usize = 0;
    let mut draft: usize = 0;
    let mut pruned: usize = 0;
    let mut i: usize = 0;
    assert(src.take(0) =~= Seq::<Node>::empty());
    assert(Seq::<Node>::empty().filter(pl) =~= Seq::<Node>::empty()) by {
        reveal(Seq::filter);
    }
    assert(Seq::<Node>::empty().filter(pd) =~= Seq::<Node>::empty()) by {
        reveal(Seq::filter);
    }
    assert(Seq::<Node>::empty().filter(pp) =~= Seq::<Node>::empty()) by {
        reveal(Seq::filter);
    }
    while i < graph.nodes.len()
        invariant
            i <= src.len(),
            src == graph.nodes@,
            pl == (|n: Node| n.status == NodeStatus::Locked),
            pd == (|n: Node| n.status == NodeStatus::Draft),
            pp == (|n: Node| n.status == NodeStatus::Pruned),
            nodes@.len() == i,
            forall|j: int| 0 <= j < i ==> (#[trigger] nodes@[j]).view_spec() == node_export(src[j]),
            total == complexity_sum(src.take(i as int)),
            total <= i * 0xffff_ffff,
            locked == src.take(i as int).filter(pl).len(),
            draft == src.take(i as int).filter(pd).len(),
            pruned == src.take(i as int).filter(pp).len(),
            locked <= i,
            draft <= i,
            pruned <= i,
        decreases src.len() - i,
    {
        let n = &graph.nodes[i];
        proof {
            assert(src.take(i + 1) =~= src.take(i as int).push(src[i as int]));
            assert(src.take(i + 1).drop_last() =~= src.take(i as int));
            src.take(i as int).lemma_filter_push(src[i as int], pl);
            src.take(i as int).lemma_filter_push(src[i as int], pd);
            src.take(i as int).lemma_filter_push(src[i as int], pp);
        }
        nodes.push(NodeExportView::of(n));
        total = total + n.complexity as u128;
        match n.status {
            NodeStatus::Locked => {
                locked = locked + 1;
            },
            NodeStatus::Draft => {
                draft = draft + 1;
            },
            NodeStatus::Pruned => {
                pruned = pruned + 1;
            },
            _ => {},
        }
        i = i + 1;
    }
    proof {
        assert(src.take(src.len() as int) =~= src);
        assert(nodes@.map_values(|x: NodeExportView| x.view_spec()) =~= src.map_values(|n: Node| node_export(n)));
    }
    let mut edges: Vec<EdgeExportView> = Vec::new();
    let mut k: usize = 0;
    while k < graph.edges.len()
        invariant
            k <= graph.edges@.len(),
            edges@.len() == k,
            forall|j: int| 0 <= j < k ==> (#[trigger] edges@[j]).view_spec() == edge_export(graph.edges@[j]),
        decreases graph.edges.len() - k,
    {
        edges.push(EdgeExportView::of(&graph.edges[k]));
        k = k + 1;
    }
    assert(edges@.map_values(|x: EdgeExportView| x.view_spec()) =~= graph.edges@.map_values(|e: Edge| edge_export(e)));
    let mut topics: Vec<TopicExportView> = Vec::new();
    let mut t: usize = 0;
    while t < graph.topics.len()
        invariant
            t <= graph.topics@.len(),
            topics@.len() == t,
            forall|j: int| 0 <= j < t ==> (#[trigger] topics@[j]).view_spec() == topic_export(graph.topics@[j]),
        decreases graph.topics.len() - t,
    {
        topics.push(TopicExportView::of(&graph.topics[t]));
        t = t + 1;
    }
    assert(topics@.map_values(|x: TopicExportView| x.view_spec()) =~= graph.topics@.map_values(
        |t: Topic| topic_export(t),
    ));
    GraphExportView {
        node_count: graph.nodes.len(),
        edge_count: graph.edges.len(),
        topic_count: graph.topics.len(),
        nodes,
        edges,
        topics,
        total_complexity: total,
        locked_nodes: locked,
        draft_nodes: draft,
        pruned_nodes: pruned,
    }
}

/// A topic, as exported.
#[derive(Debug, Clone)]
pub struct TopicExportView {
    /// Its identifier.
    pub id: String,
    /// Its title.
    pub title: String,
    /// Its root node.
    pub root_node_id: String,
    /// When it was made (RFC 3339).
    pub created_at: String,
}

/// A checkpoint, as exported.
#[derive(Debug, Clone)]
pub struct CheckpointExportView {
    /// Its identifier.
    pub id: String,
    /// Its node.
    pub node_id: String,
    /// Why it was made.
    pub reason: String,
    /// When it was made (RFC 3339).
    pub created_at: String,
    /// The size of its snapshot in bytes.
    pub snapshot_bytes: usize,
}

/// A failure, as exported.
#[derive(Debug, Clone)]
pub struct FailureExportView {
    /// Its identifier.
    pub id: String,
    /// Its node.
    pub node_id: String,
    /// Its kind.
    pub pattern_type: String,
    /// Its command.
    pub command: String,
    /// Its exit code.
    pub exit_code: Option<i32>,
    /// When it happened (RFC 3339).
    pub recorded_at: String,
}

/// A hypothesis, as exported.
#[derive(Debug, Clone)]
pub struct HypothesisExportView {
    /// Its identifier.
    pub id: String,
    /// The failure it explains.
    pub failure_id: String,
    /// The supposed cause.
    pub hypothesis: String,
    /// The suggested correction.
    pub suggested_action: String,
    /// The confidence, in hundredths.
    pub confidence: u32,
}

/// The long-term memory, as exported.
#[derive(Debug, Clone)]
pub struct MemoryExportView {
    /// The memory directory.
    pub memory_path: String,
    /// Whether the profile file exists.
    pub profile_exists: bool,
    /// Whether the history file exists.
    pub history_exists: bool,
    /// Whether the topics file exists.
    pub topics_exists: bool,
    /// The first 200 characters of the profile.
    pub profile_summary: String,
    /// The number of past discussions.
    pub total_history: usize,
    /// The number of topic lines.
    pub explored_topics: usize,
    /// The first five topic lines.
    pub recent_topics: Vec<String>,
}

/// A request of the query interface.
#[derive(Debug)]
pub struct QueryRequest {
    /// The resource asked for.
    pub resource: String,
    /// The format asked for.
    pub format: Option<String>,
}

/// An answer of the query interface.
#[derive(Debug)]
pub struct QueryResponse {
    /// The resource.
    pub resource: String,
    /// The format.
    pub format: String,
    /// The content.
    pub content: String,
    /// When it was answered (RFC 3339, UTC).
    pub timestamp: String,
}

impl QueryResponse {
    /// An answer made now.
    pub fn new(resource: &str, format: &str, content: String) -> (r: Self)
        ensures
            r.resource@ == resource@,
            r.format@ == format@,
            r.content@ == content@,
    {
        QueryResponse {
            resource: String::from_str(resource),
            format: String::from_str(format),
            content,
            timestamp: utc_now(),
        }
    }
}

/// A task handed in on standard input.
#[derive(Debug)]
pub struct StdinTask {
    /// The task.
    pub task: String,
    /// Its context.
    pub context: Option<String>,
    /// The output format asked for.
    pub format: Option<String>,
}

impl Default for StdinTask {
    fn default() -> (t: Self)
        ensures
            t.task@.len() == 0,
            t.context is None,
            t.format is None,
    {
        StdinTask { task: String::new(), context: None, format: None }
    }
}

/// The export view of a checkpoint.
pub open spec fn checkpoint_export(c: Checkpoint) -> (Seq<char>, Seq<char>, Seq<char>, Seq<char>, usize) {
    (c.id@, c.node_id@, reason_text(c.reason), c.created_at.rfc3339@, encode_utf8(c.snapshot@).len() as usize)
}

/// The export view of a failure.
pub open spec fn failure_export(f: FailurePattern) -> (Seq<char>, Seq<char>, Seq<char>, Seq<char>, Option<
    i32,
>, Seq<char>) {
    (f.id@, f.context_node_id@, pattern_debug_name(f.pattern_type), f.command@, f.exit_code, f.occurred_at.rfc3339@)
}

impl CheckpointExportView {
    /// The view as plain values.
    pub open spec fn view_spec(&self) -> (Seq<char>, Seq<char>, Seq<char>, Seq<char>, usize) {
        (self.id@, self.node_id@, self.reason@, self.created_at@, self.snapshot_bytes)
    }

    /// The export view of a checkpoint.
    pub fn of(c: &Checkpoint) -> (v: Self)
        ensures
            v.view_spec() == checkpoint_export(*c),
    {
        CheckpointExportView {
            id: c.id.clone(),
            node_id: c.node_id.clone(),
            reason: String::from_str(c.reason.to_text()),
            created_at: c.created_at.rfc3339.clone(),
            snapshot_bytes: c.snapshot.as_str().len(),
        }
    }
}

impl FailureExportView {
    /// The view as plain values.
    pub open spec fn view_spec(&self) -> (Seq<char>, Seq<char>, Seq<char>, Seq<char>, Option<i32>, Seq<char>) {
        (self.id@, self.node_id@, self.pattern_type@, self.command@, self.exit_code, self.recorded_at@)
    }

    /// The export view of a failure.
    pub fn of(f: &FailurePattern) -> (v: Self)
        ensures
            v.view_spec() == failure_export(*f),
    {
        FailureExportView {
            id: f.id.clone(),
            node_id: f.context_node_id.clone(),
            pattern_type: String::from_str(f.pattern_type.debug_name()),
            command: f.command.clone(),
            exit_code: f.exit_code,
            recorded_at: f.occurred_at.rfc3339.clone(),
        }
    }
}

impl HypothesisExportView {
    /// The view as plain values, without the identifier.
    pub open spec fn view_spec(&self) -> HypothesisView {
        (self.failure_id@, self.hypothesis@, self.suggested_action@, self.confidence)
    }

    /// A copy.
    pub fn clone_view(&self) -> (v: Self)
        ensures
            v.id@ == self.id@,
            v.view_spec() == self.view_spec(),
    {
        HypothesisExportView {
            id: self.id.clone(),
            failure_id: self.failure_id.clone(),
            hypothesis: self.hypothesis.clone(),
            suggested_action: self.suggested_action.clone(),
            confidence: self.confidence,
        }
    }

    /// The export view of a hypothesis.
    pub fn of(h: &CorrectionHypothesis) -> (v: Self)
        ensures
            v.id@ == h.id@,
            v.view_spec() == h@,
    {
        HypothesisExportView {
            id: h.id.clone(),
            failure_id: h.original_failure.clone(),
            hypothesis: h.hypothesis.clone(),
            suggested_action: h.suggested_action.clone(),
            confidence: h.confidence,
        }
    }
}

/// The export views of hypotheses, in order.
fn hypothesis_views(hs: &Vec<CorrectionHypothesis>) -> (v: Vec<HypothesisExportView>)
    ensures
        v@.map_values(|x: HypothesisExportView| x.view_spec()) == hs@.map_values(|h: CorrectionHypothesis| h@),
{
    let mut v: Vec<HypothesisExportView> = Vec::new();
    let mut i: usize = 0;
    while i < hs.len()
        invariant
            i <= hs@.len(),
            v@.len() == i,
            forall|j: int| 0 <= j < i ==> (#[trigger] v@[j]).view_spec() == hs@[j]@,
        decreases hs.len() - i,
    {
        v.push(HypothesisExportView::of(&hs[i]));
        i = i + 1;
    }
    assert(v@.map_values(|x: HypothesisExportView| x.view_spec()) =~= hs@.map_values(|h: CorrectionHypothesis| h@));
    v
}

/// The number of past discussions in a history file: its non-blank pieces
/// between `---` marks.
pub open spec fn history_count(history: Seq<char>) -> nat {
    split(history, "---"@).filter(not_blank()).len()
}

/// The non-blank lines of a topics file.
pub open spec fn topic_lines(topics: Seq<char>) -> Seq<Seq<char>> {
    lines(topics).filter(not_blank())
}

/// What the memory export shows of the three files.
pub open spec fn memory_view_spec(profile: MemoryFile, history: MemoryFile, topics: MemoryFile, v: MemoryExportView) -> bool {
    &&& v.profile_exists == profile.exists
    &&& v.history_exists == history.exists
    &&& v.topics_exists == topics.exists
    &&& v.profile_summary@ == take_chars(profile.content@, 200)
    &&& v.total_history == history_count(history.content@)
    &&& v.explored_topics == topic_lines(topics.content@).len()
    &&& v.recent_topics@.map_values(|s: String| s@) == keep_first(topic_lines(topics.content@), 5)
}

/// The export view of the long-term memory (see `memory_view_spec`); the
/// memory directory is written as text.
pub fn memory_export_view(mem: &MemoryManager, profile: &MemoryFile, history: &MemoryFile, topics: &MemoryFile) -> (v:
    MemoryExportView)
    ensures
        memory_view_spec(*profile, *history, *topics, v),
{
    let profile_summary = crate::engine::backtrack::take_chars_string(profile.content.as_str(), 200);
    proof {
        reveal_strlit("---");
    }
    let h = chars_of(history.content.as_str());
    let sep = chars_of("---");
    let pieces = split_exec(h.as_slice(), sep.as_slice());
    let kept = non_blank(&pieces);
    let t = chars_of(topics.content.as_str());
    let ls = lines_exec(t.as_slice());
    let topic_ls = non_blank(&ls);
    let mut recent: Vec<String> = Vec::new();
    let n = if topic_ls.len() > 5 {
        5
    } else {
        topic_ls.len()
    };
    let ghost tl = topic_ls@.map_values(|x: Vec<char>| x@);
    let mut i: usize = 0;
    while i < n
        invariant
            n <= topic_ls@.len(),
            n == keep_first(tl, 5).len(),
            tl == topic_ls@.map_values(|x: Vec<char>| x@),
            i <= n,
            recent@.len() == i,
            forall|j: int| 0 <= j < i ==> (#[trigger] recent@[j])@ == tl[j],
        decreases n - i,
    {
        recent.push(string_of(topic_ls[i].as_slice()));
        i = i + 1;
    }
    assert(recent@.map_values(|s: String| s@) =~= keep_first(tl, 5));
    MemoryExportView {
        memory_path: path_display(mem.memory_path()),
        profile_exists: profile.exists,
        history_exists: history.exists,
        topics_exists: topics.exists,
        profile_summary,
        total_history: kept.len(),
        explored_topics: topic_ls.len(),
        recent_topics: recent,
    }
}

/// The memory's export in the given format: the DSL text for the DSL; for
/// YAML and JSON nothing, as the application writes those with serde.
pub fn export_memory(view: &MemoryExportView, format: ExportFormat) -> (r: Option<String>)
    ensures
        match format {
            ExportFormat::Dsl => r is Some && r->0@ == serializers::memory_dsl(*view),
            _ => r is None,
        },
{
    match format {
        ExportFormat::Dsl => Some(serializers::to_dsl_memory(view)),
        _ => None,
    }
}

/// The graph's export in the given format: the DSL text for the DSL (see
/// `graph_dsl`, generated now); for YAML and JSON nothing, as the
/// application writes those with serde from `graph_to_export_view`.
pub fn export_graph(graph: &Graph, format: ExportFormat) -> (r: Option<String>)
    ensures
        match format {
            ExportFormat::Dsl => r is Some && exists|v: GraphExportView, t: Seq<char>|
                graph_view_spec(*graph, v) && r->0@ == serializers::graph_dsl(v, t),
            _ => r is None,
        },
{
    match format {
        ExportFormat::Dsl => {
            let view = graph_to_export_view(graph);
            let s = serializers::to_dsl_graph(&view);
            Some(s)
        },
        _ => None,
    }
}

/// A node's export in the given format: the DSL text for the DSL; for YAML
/// and JSON nothing, as the application writes those with serde.
pub fn export_node(node: &Node, format: ExportFormat) -> (r: Option<String>)
    ensures
        match format {
            ExportFormat::Dsl => r is Some && exists|v: NodeExportView|
                v.view_spec() == node_export(*node) && r->0@ == serializers::node_dsl(v),
            _ => r is None,
        },
{
    match format {
        ExportFormat::Dsl => {
            let view = NodeExportView::of(node);
            Some(serializers::to_dsl_node(&view))
        },
        _ => None,
    }
}

/// The export view of the backtracking state.
pub open spec fn backtrack_view_spec(bt: BacktrackManager, v: BacktrackExportView) -> bool {
    &&& v.checkpoint_count == bt.checkpoints_spec().len()
    &&& v.failure_count == bt.failures_spec().len()
    &&& v.total_groups == bt.failures_spec().len()
    &&& v.checkpoints@.map_values(|x: CheckpointExportView| x.view_spec()) == bt.checkpoints_spec().map_values(
        |c: CheckpointView| checkpoint_view_export(c),
    )
    &&& v.failures@.map_values(|x: FailureExportView| x.view_spec()) == bt.failures_spec().map_values(
        |f: FailureView| failure_view_export(f),
    )
    &&& v.latest_hypotheses@.map_values(|x: HypothesisExportView| x.view_spec()) == latest_hypotheses(bt)
}

/// The export view of the backtracking state (see `backtrack_view_spec`).
pub fn backtrack_export_view(bt: &BacktrackManager) -> (v: BacktrackExportView)
    ensures
        backtrack_view_spec(*bt, v),
{
    BacktrackExportView {
        checkpoint_count: bt.checkpoint_count(),
        failure_count: bt.failure_count(),
        checkpoints: checkpoint_export_views(bt),
        failures: failure_export_views(bt),
        latest_hypotheses: latest_hypothesis_views(bt),
        total_groups: bt.failure_count(),
    }
}

/// The backtracking state's export in the given format: the DSL text for
/// the DSL; for YAML and JSON nothing, as the application writes those.
pub fn export_backtrack(bt: &BacktrackManager, format: ExportFormat) -> (r: Option<String>)
    ensures
        match format {
            ExportFormat::Dsl => r is Some && exists|v: BacktrackExportView|
                backtrack_view_spec(*bt, v) && r->0@ == serializers::backtrack_dsl(v),
            _ => r is None,
        },
{
    match format {
        ExportFormat::Dsl => {
            let view = backtrack_export_view(bt);
            Some(serializers::to_dsl_backtrack(&view))
        },
        _ => None,
    }
}

/// The hypotheses for the first failure, from index `k` on, whose
/// identifier is `id`; none when there is no such failure.
pub open spec fn hypotheses_of_id(fs: Seq<FailureView>, id: Seq<char>, k: int) -> Seq<HypothesisView>
    decreases fs.len() - k,
{
    if k < 0 || k >= fs.len() {
        Seq::empty()
    } else if fs[k].0 == id {
        hypotheses_spec(fs[k])
    } else {
        hypotheses_of_id(fs, id, k + 1)
    }
}

/// For each failure from index `i` on, in order, the hypotheses that its
/// identifier gives (see `hypotheses_of_id`).
pub open spec fn all_hypotheses(fs: Seq<FailureView>, i: int) -> Seq<HypothesisView>
    decreases fs.len() - i,
{
    if i < 0 || i >= fs.len() {
        Seq::empty()
    } else {
        hypotheses_of_id(fs, fs[i].0, 0) + all_hypotheses(fs, i + 1)
    }
}

/// The first failure with an identifier gives its hypotheses.
proof fn lemma_first_with_id(fs: Seq<FailureView>, id: Seq<char>, k: int, i: int)
    requires
        0 <= k <= i < fs.len(),
        fs[i].0 == id,
        forall|j: int| k <= j < i ==> fs[j].0 != id,
    ensures
        hypotheses_of_id(fs, id, k) == hypotheses_spec(fs[i]),
    decreases i - k,
{
    if k < i {
        lemma_first_with_id(fs, id, k + 1, i);
    }
}

/// Without a failure of an identifier there are no hypotheses for it.
proof fn lemma_none_with_id(fs: Seq<FailureView>, id: Seq<char>, k: int)
    requires
        0 <= k,
        forall|j: int| k <= j < fs.len() ==> fs[j].0 != id,
    ensures
        hypotheses_of_id(fs, id, k) == Seq::<HypothesisView>::empty(),
    decreases fs.len() - k,
{
    if k < fs.len() {
        lemma_none_with_id(fs, id, k + 1);
    }
}

/// The export view of all hypotheses.
pub open spec fn hypotheses_view_spec(bt: BacktrackManager, v: HypothesesExportView) -> bool {
    &&& v.total_failures == bt.failures_spec().len()
    &&& v.total_hypotheses == v.hypotheses@.len()
    &&& v.hypotheses@.map_values(|x: HypothesisExportView| x.view_spec()) == all_hypotheses(bt.failures_spec(), 0)
}

/// The export view of all hypotheses: for each failure, in order, those
/// that its identifier gives (see `hypotheses_view_spec`).
pub fn hypotheses_export_view(bt: &BacktrackManager) -> (v: HypothesesExportView)
    ensures
        hypotheses_view_spec(*bt, v),
{
    let fs = bt.get_failure_history();
    let ghost fv = bt.failures_spec();
    let mut all: Vec<HypothesisExportView> = Vec::new();
    let mut i: usize = 0;
    while i < fs.len()
        invariant
            i <= fs@.len(),
            crate::engine::backtrack::failure_views(fs@) == fv,
            fv == bt.failures_spec(),
            all@.map_values(|x: HypothesisExportView| x.view_spec()) + all_hypotheses(fv, i as int) == all_hypotheses(
                fv,
                0,
            ),
        decreases fs.len() - i,
    {
        assert(fv[i as int] == fs@[i as int]@);
        let hs = bt.get_hypotheses(fs[i].id.as_str());
        proof {
            let id = fs@[i as int].id@;
            if exists|k: int|
                0 <= k < fv.len() && fv[k].0 == id && (forall|j: int| 0 <= j < k ==> fv[j].0 != id)
                    && hs@.map_values(|h: CorrectionHypothesis| h@) == hypotheses_spec(fv[k]) {
                let k = choose|k: int|
                    0 <= k < fv.len() && fv[k].0 == id && (forall|j: int| 0 <= j < k ==> fv[j].0 != id)
                        && hs@.map_values(|h: CorrectionHypothesis| h@) == hypotheses_spec(fv[k]);
                lemma_first_with_id(fv, id, 0, k);
            } else {
                lemma_none_with_id(fv, id, 0);
                assert(hs@.map_values(|h: CorrectionHypothesis| h@) =~= Seq::<HypothesisView>::empty());
            }
        }
        let ghost before = all@.map_values(|x: HypothesisExportView| x.view_spec());
        let views = hypothesis_views(&hs);
        let mut k: usize = 0;
        while k < views.len()
            invariant
                k <= views@.len(),
                all@.map_values(|x: HypothesisExportView| x.view_spec()) == before + views@.take(k as int).map_values(
                    |x: HypothesisExportView| x.view_spec(),
                ),
            decreases views.len() - k,
        {
            let ghost prev = all@;
            let c = views[k].clone_view();
            all.push(c);
            assert(views@.take(k + 1) =~= views@.take(k as int).push(views@[k as int]));
            assert(all@ == prev.push(c));
            assert(prev.push(c).map_values(|x: HypothesisExportView| x.view_spec()) =~= prev.map_values(
                |x: HypothesisExportView| x.view_spec(),
            ).push(c.view_spec()));
            assert(views@.take(k as int).push(views@[k as int]).map_values(|x: HypothesisExportView| x.view_spec())
                =~= views@.take(k as int).map_values(|x: HypothesisExportView| x.view_spec()).push(
                views@[k as int].view_spec(),
            ));
            assert(all@.map_values(|x: HypothesisExportView| x.view_spec()) =~= before + views@.take(k + 1).map_values(
                |x: HypothesisExportView| x.view_spec(),
            ));
            k = k + 1;
        }
        assert(views@.take(views@.len() as int) =~= views@);
        assert(all@.map_values(|x: HypothesisExportView| x.view_spec()) + all_hypotheses(fv, i + 1)
            =~= before + all_hypotheses(fv, i as int));
        i = i + 1;
    }
    assert(all@.map_values(|x: HypothesisExportView| x.view_spec()) =~= all_hypotheses(fv, 0));
    HypothesesExportView { total_failures: fs.len(), total_hypotheses: all.len(), hypotheses: all }
}

/// The hypotheses an export covers: those of the failure of the given
/// identifier (see `hypotheses_of_id`), or of every failure without one.
pub open spec fn selected_hypotheses(bt: BacktrackManager, failure_id: Option<Seq<char>>) -> Seq<HypothesisView> {
    match failure_id {
        Some(id) => hypotheses_of_id(bt.failures_spec(), id, 0),
        None => all_hypotheses(bt.failures_spec(), 0),
    }
}

/// The text of an optional identifier.
pub open spec fn opt_str_view(o: Option<&str>) -> Option<Seq<char>> {
    match o {
        Some(s) => Some(s@),
        None => None,
    }
}

/// The export view of the selected hypotheses: all failures are counted,
/// the hypotheses are those of `selected_hypotheses`.
pub open spec fn selected_view_spec(bt: BacktrackManager, failure_id: Option<Seq<char>>, v: HypothesesExportView) -> bool {
    &&& v.total_failures == bt.failures_spec().len()
    &&& v.total_hypotheses == v.hypotheses@.len()
    &&& v.hypotheses@.map_values(|x: HypothesisExportView| x.view_spec()) == selected_hypotheses(bt, failure_id)
}

/// The export view of the hypotheses of one failure, or of all of them
/// (see `selected_view_spec`).
pub fn selected_hypotheses_view(bt: &BacktrackManager, failure_id: Option<&str>) -> (v: HypothesesExportView)
    ensures
        selected_view_spec(*bt, opt_str_view(failure_id), v),
{
    match failure_id {
        None => hypotheses_export_view(bt),
        Some(id) => {
            let ghost fv = bt.failures_spec();
            let hs = bt.get_hypotheses(id);
            proof {
                if exists|k: int|
                    0 <= k < fv.len() && fv[k].0 == id@ && (forall|j: int| 0 <= j < k ==> fv[j].0 != id@)
                        && hs@.map_values(|h: CorrectionHypothesis| h@) == hypotheses_spec(fv[k]) {
                    let k = choose|k: int|
                        0 <= k < fv.len() && fv[k].0 == id@ && (forall|j: int| 0 <= j < k ==> fv[j].0 != id@)
                            && hs@.map_values(|h: CorrectionHypothesis| h@) == hypotheses_spec(fv[k]);
                    lemma_first_with_id(fv, id@, 0, k);
                } else {
                    lemma_none_with_id(fv, id@, 0);
                    assert(hs@.map_values(|h: CorrectionHypothesis| h@) =~= Seq::<HypothesisView>::empty());
                }
            }
            let views = hypothesis_views(&hs);
            let n = views.len();
            HypothesesExportView { total_failures: bt.get_failure_history().len(), total_hypotheses: n, hypotheses: views }
        },
    }
}

/// The export of the hypotheses of one failure, or of all failures without
/// an identifier (see `selected_view_spec`), in the given format: the DSL
/// text for the DSL; for YAML and JSON nothing, as the application writes
/// those.
pub fn export_hypotheses(bt: &BacktrackManager, failure_id: Option<&str>, format: ExportFormat) -> (r: Option<String>)
    ensures
        match format {
            ExportFormat::Dsl => r is Some && exists|v: HypothesesExportView|
                selected_view_spec(*bt, opt_str_view(failure_id), v) && r->0@ == serializers::hypotheses_dsl(v),
            _ => r is None,
        },
{
    match format {
        ExportFormat::Dsl => {
            let view = selected_hypotheses_view(bt, failure_id);
            Some(serializers::to_dsl_hypotheses(&view))
        },
        _ => None,
    }
}

/// What the backtracking query interface answers, before it is written as
/// JSON.
#[derive(Debug)]
pub enum BacktrackQuery {
    /// All checkpoints.
    Checkpoints(Vec<CheckpointExportView>),
    /// All failures.
    Failures(Vec<FailureExportView>),
    /// The hypotheses for the latest failure.
    Hypotheses(Vec<HypothesisExportView>),
    /// The counts of checkpoints and failures.
    Summary {
        /// The number of checkpoints.
        checkpoint_count: usize,
        /// The number of failures.
        failure_count: usize,
    },
    /// An unknown resource: the error text to answer with.
    Unknown(String),
}

/// The error text for an unknown resource.
pub open spec fn unknown_resource_text(resource: Seq<char>) -> Seq<char> {
    "{\"error\": \"unknown resource: "@ + resource + "\", \"available\": [\"checkpoints\", \"failures\", \"hypotheses\", \"summary\"]}"@
}

/// The export view of a checkpoint given as plain values.
pub open spec fn checkpoint_view_export(c: CheckpointView) -> (Seq<char>, Seq<char>, Seq<char>, Seq<char>, usize) {
    (c.0, c.1, reason_text(c.4), c.3.0, encode_utf8(c.2).len() as usize)
}

/// The export view of a failure given as plain values.
pub open spec fn failure_view_export(f: FailureView) -> (Seq<char>, Seq<char>, Seq<char>, Seq<char>, Option<i32>, Seq<char>) {
    (f.0, f.5, pattern_debug_name(f.1), f.2, f.3, f.6.0)
}

/// The hypotheses of the latest failure; none without failures.
pub open spec fn latest_hypotheses(bt: BacktrackManager) -> Seq<HypothesisView> {
    if bt.failures_spec().len() > 0 {
        hypotheses_spec(bt.failures_spec().last())
    } else {
        Seq::empty()
    }
}

/// The export views of the checkpoints, in order.
fn checkpoint_export_views(bt: &BacktrackManager) -> (v: Vec<CheckpointExportView>)
    ensures
        v@.map_values(|v: CheckpointExportView| v.view_spec()) == bt.checkpoints_spec().map_values(
            |c: CheckpointView| checkpoint_view_export(c),
        ),
{
    let cps = bt.get_checkpoints();
    let mut v: Vec<CheckpointExportView> = Vec::new();
    let mut i: usize = 0;
    let ghost target = bt.checkpoints_spec().map_values(|c: CheckpointView| checkpoint_view_export(c));
    while i < cps.len()
        invariant
            i <= cps@.len(),
            v@.len() == i,
            crate::engine::backtrack::checkpoint_views(cps@) == bt.checkpoints_spec(),
            target == bt.checkpoints_spec().map_values(|c: CheckpointView| checkpoint_view_export(c)),
            forall|j: int| 0 <= j < i ==> (#[trigger] v@[j]).view_spec() == target[j],
        decreases cps.len() - i,
    {
        v.push(CheckpointExportView::of(&cps[i]));
        assert(bt.checkpoints_spec()[i as int] == cps@[i as int]@);
        i = i + 1;
    }
    assert(v@.map_values(|v: CheckpointExportView| v.view_spec()) =~= target);
    v
}

/// The export views of the failures, in order.
fn failure_export_views(bt: &BacktrackManager) -> (v: Vec<FailureExportView>)
    ensures
        v@.map_values(|v: FailureExportView| v.view_spec()) == bt.failures_spec().map_values(
            |f: FailureView| failure_view_export(f),
        ),
{
    let fs = bt.get_failure_history();
    let mut v: Vec<FailureExportView> = Vec::new();
    let mut i: usize = 0;
    let ghost target = bt.failures_spec().map_values(|f: FailureView| failure_view_export(f));
    while i < fs.len()
        invariant
            i <= fs@.len(),
            v@.len() == i,
            crate::engine::backtrack::failure_views(fs@) == bt.failures_spec(),
            target == bt.failures_spec().map_values(|f: FailureView| failure_view_export(f)),
            forall|j: int| 0 <= j < i ==> (#[trigger] v@[j]).view_spec() == target[j],
        decreases fs.len() - i,
    {
        v.push(FailureExportView::of(&fs[i]));
        assert(bt.failures_spec()[i as int] == fs@[i as int]@);
        i = i + 1;
    }
    assert(v@.map_values(|v: FailureExportView| v.view_spec()) =~= target);
    v
}

/// The export views of the hypotheses for the latest failure.
fn latest_hypothesis_views(bt: &BacktrackManager) -> (v: Vec<HypothesisExportView>)
    ensures
        v@.map_values(|x: HypothesisExportView| x.view_spec()) == latest_hypotheses(*bt),
{
    let hs = bt.get_hypotheses_for_last_failure();
    hypothesis_views(&hs)
}

/// What the backtracking query answers for a resource.
pub open spec fn query_spec(bt: BacktrackManager, resource: Seq<char>, r: BacktrackQuery) -> bool {
    if resource == "checkpoints"@ {
        &&& r is Checkpoints
        &&& r->Checkpoints_0@.map_values(|v: CheckpointExportView| v.view_spec()) == bt.checkpoints_spec().map_values(
            |c: CheckpointView| checkpoint_view_export(c),
        )
    } else if resource == "failures"@ {
        &&& r is Failures
        &&& r->Failures_0@.map_values(|v: FailureExportView| v.view_spec()) == bt.failures_spec().map_values(
            |f: FailureView| failure_view_export(f),
        )
    } else if resource == "hypotheses"@ {
        &&& r is Hypotheses
        &&& r->Hypotheses_0@.map_values(|h: HypothesisExportView| h.view_spec()) == latest_hypotheses(bt)
    } else if resource == "summary"@ {
        &&& r is Summary
        &&& r->checkpoint_count == bt.checkpoints_spec().len()
        &&& r->failure_count == bt.failures_spec().len()
    } else {
        &&& r is Unknown
        &&& r->Unknown_0@ == unknown_resource_text(resource)
    }
}

/// The hypotheses query answers for the failure recorded last: once a
/// failure is recorded after any others, the query gives the hypotheses
/// generated for that failure; it agrees with the hypotheses of the last
/// failure (`get_hypotheses_for_last_failure`), and gives none without
/// failures.
pub proof fn lemma_hypotheses_query_latest(bt: BacktrackManager, r: BacktrackQuery, earlier: Seq<FailureView>, f: FailureView)
    requires
        query_spec(bt, "hypotheses"@, r),
    ensures
        bt.failures_spec() == earlier.push(f) ==> r->Hypotheses_0@.map_values(|h: HypothesisExportView| h.view_spec())
            == hypotheses_spec(f),
        r->Hypotheses_0@.map_values(|h: HypothesisExportView| h.view_spec()) == if bt.failures_spec().len() > 0 {
            hypotheses_spec(bt.failures_spec()[bt.failures_spec().len() - 1])
        } else {
            Seq::<HypothesisView>::empty()
        },
{
    reveal_strlit("hypotheses");
    reveal_strlit("checkpoints");
    reveal_strlit("failures");
    assert("hypotheses"@ != "checkpoints"@) by {
        assert("hypotheses"@[0] != "checkpoints"@[0]);
    }
    assert("hypotheses"@ != "failures"@) by {
        assert("hypotheses"@[0] != "failures"@[0]);
    }
    if bt.failures_spec() == earlier.push(f) {
        assert(bt.failures_spec().last() == f);
    }
}

/// Answers a query of the backtracking state: `checkpoints`, `failures`,
/// `hypotheses` (for the latest failure) or `summary`; any other resource
/// gets an error text (see `query_spec`).
pub fn query_backtrack(bt: &BacktrackManager, resource: &str) -> (r: BacktrackQuery)
    ensures
        query_spec(*bt, resource@, r),
{
    let key = String::from_str(resource);
    if key == String::from_str("checkpoints") {
        BacktrackQuery::Checkpoints(checkpoint_export_views(bt))
    } else if key == String::from_str("failures") {
        BacktrackQuery::Failures(failure_export_views(bt))
    } else if key == String::from_str("hypotheses") {
        BacktrackQuery::Hypotheses(latest_hypothesis_views(bt))
    } else if key == String::from_str("summary") {
        BacktrackQuery::Summary { checkpoint_count: bt.checkpoint_count(), failure_count: bt.failure_count() }
    } else {
        let mut s = String::from_str("{\"error\": \"unknown resource: ");
        crate::text::push_str(&mut s, resource);
        crate::text::push_str(
            &mut s,
            "\", \"available\": [\"checkpoints\", \"failures\", \"hypotheses\", \"summary\"]}",
        );
        BacktrackQuery::Unknown(s)
    }
}

} // verus!
