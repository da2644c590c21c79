//! The DSL text of exported states.
use vstd::prelude::*;

use super::{BacktrackExportView, CheckpointExportView, EdgeExportView, FailureExportView, GraphExportView, HypothesesExportView, HypothesisExportView, MemoryExportView, NodeExportView, TopicExportView};
use crate::engine::backtrack::{exit_debug, lowercase, push_exit_debug, to_lowercase};
use crate::fixed::{push_short2, push_short3, short2, short3};
use crate::stamp::utc_now;
use crate::text::{chars_of, decimal, push_decimal, push_signed_decimal, push_str, signed_decimal};

verus! {

/// What one character becomes in a quoted DSL or JSON string: backslash,
/// double quote, line feed, carriage return and tab are escaped with a
/// backslash.
pub open spec fn quote_escape_char(c: char) -> Seq<char> {
    if c == '\\' {
        seq!['\\', '\\']
    } else if c == '"' {
        seq!['\\', '"']
    } else if c == '\n' {
        seq!['\\', 'n']
    } else if c == '\r' {
        seq!['\\', 'r']
    } else if c == '\t' {
        seq!['\\', 't']
    } else {
        seq![c]
    }
}

/// A text with each character escaped for a quoted string.
pub open spec fn quote_escape(s: Seq<char>) -> Seq<char>
    decreases s.len(),
{
    if s.len() == 0 {
        Seq::empty()
    } else {
        quote_escape(s.drop_last()) + quote_escape_char(s.last())
    }
}

/// Escapes a text for a quoted string (see `quote_escape`).
pub fn escape_quoted(s: &str) -> (r: String)
    ensures
        r@ == quote_escape(s@),
{
    let v = chars_of(s);
    let mut r = String::new();
    let mut i: usize = 0;
    while i < v.len()
        invariant
            i <= v@.len(),
            r@ == quote_escape(v@.take(i as int)),
        decreases v.len() - i,
    {
        let c = v[i];
        let ghost before = r@;
        if c == '\\' {
            r.push('\\');
            r.push('\\');
        } else if c == '"' {
            r.push('\\');
            r.push('"');
        } else if c == '\n' {
            r.push('\\');
            r.push('n');
        } else if c == '\r' {
            r.push('\\');
            r.push('r');
        } else if c == '\t' {
            r.push('\\');
            r.push('t');
        } else {
            r.push(c);
        }
        assert(r@ =~= before + quote_escape_char(c));
        assert(v@.take(i + 1).drop_last() =~= v@.take(i as int));
        i = i + 1;
    }
    assert(v@.take(v@.len() as int) =~= v@);
    r
}

/// Escapes a text for a quoted DSL string.
pub fn escape_dsl_string(s: &str) -> (r: String)
    ensures
        r@ == quote_escape(s@),
{
    escape_quoted(s)
}

/// An escaped text holds no raw line break or tab, and each of its double
/// quotes follows a backslash: it cannot end its quoted string early.
pub proof fn lemma_quote_escape_safe(s: Seq<char>)
    ensures
        forall|p: int|
            0 <= p < quote_escape(s).len() ==> {
                let c = #[trigger] quote_escape(s)[p];
                c != '\n' && c != '\r' && c != '\t'
            },
        forall|p: int|
            0 <= p < quote_escape(s).len() && #[trigger] quote_escape(s)[p] == '"' ==> p > 0
                && quote_escape(s)[p - 1] == '\\',
    decreases s.len(),
{
    if s.len() > 0 {
        lemma_quote_escape_safe(s.drop_last());
        let a = quote_escape(s.drop_last());
        let b = quote_escape_char(s.last());
        assert(quote_escape(s) == a + b);
        assert forall|p: int| 0 <= p < quote_escape(s).len() implies {
            let c = #[trigger] quote_escape(s)[p];
            c != '\n' && c != '\r' && c != '\t'
        } by {
            if p >= a.len() {
                assert(quote_escape(s)[p] == b[p - a.len()]);
            } else {
                assert(quote_escape(s)[p] == a[p]);
            }
        }
        assert forall|p: int|
            0 <= p < quote_escape(s).len() && #[trigger] quote_escape(s)[p] == '"' implies p > 0
                && quote_escape(s)[p - 1] == '\\' by {
            if p >= a.len() {
                assert(quote_escape(s)[p] == b[p - a.len()]);
                assert(p - a.len() == 1);
                assert(quote_escape(s)[p - 1] == b[0]);
            } else {
                assert(quote_escape(s)[p] == a[p]);
                assert(quote_escape(s)[p - 1] == a[p - 1]);
            }
        }
    }
}

/// The quoted, escaped topics from index `i` on, separated by `, `.
pub open spec fn quoted_topics(v: Seq<String>, i: int) -> Seq<char>
    decreases v.len() - i,
{
    if i < 0 || i >= v.len() {
        Seq::empty()
    } else {
        (if i > 0 {
            ", "@
        } else {
            Seq::empty()
        }) + "\""@ + quote_escape(v[i]@) + "\""@ + quoted_topics(v, i + 1)
    }
}

/// The DSL text of the memory's state.
pub open spec fn memory_dsl(v: MemoryExportView) -> Seq<char> {
    "# Evolution Memory State — DSL Export\n\n"@ + "memory {\n"@ + "  profile: \""@ + quote_escape(
        v.profile_summary@,
    ) + "\"\n"@ + "  total_history: "@ + decimal(v.total_history as nat) + "\n"@
        + "  explored_topics: "@ + decimal(v.explored_topics as nat) + "\n"@ + "  recent_topics: ["@
        + quoted_topics(v.recent_topics@, 0) + "]\n"@ + "}\n"@
}

/// The DSL text of the memory's state (see `memory_dsl`).
pub fn to_dsl_memory(view: &MemoryExportView) -> (s: String)
    ensures
        s@ == memory_dsl(*view),
{
    let mut dsl = String::from_str("# Evolution Memory State — DSL Export\n\n");
    push_str(&mut dsl, "memory {\n");
    push_str(&mut dsl, "  profile: \"");
    let p = escape_dsl_string(view.profile_summary.as_str());
    push_str(&mut dsl, p.as_str());
    push_str(&mut dsl, "\"\n");
    push_str(&mut dsl, "  total_history: ");
    push_decimal(&mut dsl, view.total_history as u64);
    push_str(&mut dsl, "\n");
    push_str(&mut dsl, "  explored_topics: ");
    push_decimal(&mut dsl, view.explored_topics as u64);
    push_str(&mut dsl, "\n");
    push_str(&mut dsl, "  recent_topics: [");
    let ghost start = dsl@;
    let mut i: usize = 0;
    while i < view.recent_topics.len()
        invariant
            i <= view.recent_topics@.len(),
            dsl@ + quoted_topics(view.recent_topics@, i as int) == start + quoted_topics(
                view.recent_topics@,
                0,
            ),
        decreases view.recent_topics.len() - i,
    {
        let ghost before = dsl@;
        if i > 0 {
            push_str(&mut dsl, ", ");
        }
        push_str(&mut dsl, "\"");
        let t = escape_dsl_string(view.recent_topics[i].as_str());
        push_str(&mut dsl, t.as_str());
        push_str(&mut dsl, "\"");
        assert(dsl@ + quoted_topics(view.recent_topics@, i + 1) =~= before + quoted_topics(
            view.recent_topics@,
            i as int,
        ));
        i = i + 1;
    }
    assert(dsl@ =~= start + quoted_topics(view.recent_topics@, 0));
    push_str(&mut dsl, "]\n");
    push_str(&mut dsl, "}\n");
    assert(dsl@ =~= memory_dsl(*view));
    dsl
}

/// The texts that `f` gives the items of `v` from index `i` on, one after
/// the other.
pub open spec fn concat_map<T>(v: Seq<T>, f: spec_fn(T) -> Seq<char>, i: int) -> Seq<char>
    decreases v.len() - i,
{
    if i < 0 || i >= v.len() {
        Seq::empty()
    } else {
        f(v[i]) + concat_map(v, f, i + 1)
    }
}

/// The DSL line of a topic.
pub open spec fn topic_dsl_line(t: TopicExportView) -> Seq<char> {
    "    { id: "@ + t.id@ + ", title: \""@ + quote_escape(t.title@) + "\", root: "@ + t.root_node_id@ + " }\n"@
}

/// The DSL lines of a node in a graph.
pub open spec fn node_dsl_line(n: NodeExportView) -> Seq<char> {
    "    { id: "@ + n.id@ + ", step: "@ + signed_decimal(n.step as int) + ", status: "@ + lowercase(n.status@)
        + ", weight: "@ + short3(n.weight as nat) + ", confidence: "@ + short3(n.confidence as nat)
        + ", complexity: "@ + short3(n.complexity as nat) + " }\n      \""@ + quote_escape(n.content@)
        + "\"\n"@
}

/// The DSL line of an edge.
pub open spec fn edge_dsl_line(e: EdgeExportView) -> Seq<char> {
    "    { id: "@ + e.id@ + ", "@ + e.from_id@ + " => "@ + e.to_id@ + ", type: "@ + lowercase(e.edge_type@)
        + ", weight: "@ + short3(e.weight as nat) + " }\n"@
}

/// The comments that open a graph's DSL text.
pub open spec fn graph_dsl_comments(v: GraphExportView, generated_at: Seq<char>) -> Seq<char> {
    "# Evolution Reasoning Graph — DSL Export\n"@ + "# Generated at: "@ + generated_at + "\n"@ + "# Nodes: "@
        + decimal(v.node_count as nat) + ", Edges: "@ + decimal(v.edge_count as nat) + ", Topics: "@ + decimal(
        v.topic_count as nat,
    ) + "\n\n"@
}

/// The meta block of a graph's DSL text, after its opening.
pub open spec fn graph_dsl_meta(v: GraphExportView) -> Seq<char> {
    "graph {\n"@ + "  meta {\n"@ + "    total_complexity: "@ + short3(v.total_complexity as nat) + "\n"@
        + "    status_counts { locked: "@ + decimal(v.locked_nodes as nat) + ", draft: "@ + decimal(
        v.draft_nodes as nat,
    ) + ", pruned: "@ + decimal(v.pruned_nodes as nat) + " }\n"@ + "  }\n\n"@
}

/// The head of a graph's DSL text: comments and the meta block.
pub open spec fn graph_dsl_head(v: GraphExportView, generated_at: Seq<char>) -> Seq<char> {
    graph_dsl_comments(v, generated_at) + graph_dsl_meta(v)
}

/// The topics block of a graph's DSL text; nothing without topics.
pub open spec fn graph_dsl_topics(v: GraphExportView) -> Seq<char> {
    if v.topics@.len() > 0 {
        "  topics [\n"@ + concat_map(v.topics@, |t: TopicExportView| topic_dsl_line(t), 0) + "  ]\n\n"@
    } else {
        Seq::empty()
    }
}

/// The nodes block of a graph's DSL text.
pub open spec fn graph_dsl_nodes(v: GraphExportView) -> Seq<char> {
    "  nodes [\n"@ + concat_map(v.nodes@, |n: NodeExportView| node_dsl_line(n), 0) + "  ]\n\n"@
}

/// The edges block of a graph's DSL text, and its end.
pub open spec fn graph_dsl_edges(v: GraphExportView) -> Seq<char> {
    "  edges [\n"@ + concat_map(v.edges@, |e: EdgeExportView| edge_dsl_line(e), 0) + "  ]\n"@ + "}\n"@
}

/// The DSL text of a graph, generated at the given time.
pub open spec fn graph_dsl(v: GraphExportView, generated_at: Seq<char>) -> Seq<char> {
    graph_dsl_head(v, generated_at) + graph_dsl_topics(v) + graph_dsl_nodes(v) + graph_dsl_edges(v)
}

/// Appends the DSL line of a node in a graph.
fn push_node_dsl_line(dsl: &mut String, n: &NodeExportView)
    ensures
        final(dsl)@ == old(dsl)@ + node_dsl_line(*n),
{
    push_str(dsl, "    { id: ");
    push_str(dsl, n.id.as_str());
    push_str(dsl, ", step: ");
    push_signed_decimal(dsl, n.step as i64);
    push_str(dsl, ", status: ");
    let st = to_lowercase(n.status.as_str());
    push_str(dsl, st.as_str());
    push_str(dsl, ", weight: ");
    push_short3(dsl, n.weight as u128);
    push_str(dsl, ", confidence: ");
    push_short3(dsl, n.confidence as u128);
    push_str(dsl, ", complexity: ");
    push_short3(dsl, n.complexity as u128);
    push_str(dsl, " }\n      \"");
    let c = escape_dsl_string(n.content.as_str());
    push_str(dsl, c.as_str());
    push_str(dsl, "\"\n");
    assert(dsl@ =~= old(dsl)@ + node_dsl_line(*n));
}

/// Appends the DSL line of an edge.
fn push_edge_dsl_line(dsl: &mut String, e: &EdgeExportView)
    ensures
        final(dsl)@ == old(dsl)@ + edge_dsl_line(*e),
{
    push_str(dsl, "    { id: ");
    push_str(dsl, e.id.as_str());
    push_str(dsl, ", ");
    push_str(dsl, e.from_id.as_str());
    push_str(dsl, " => ");
    push_str(dsl, e.to_id.as_str());
    push_str(dsl, ", type: ");
    let t = to_lowercase(e.edge_type.as_str());
    push_str(dsl, t.as_str());
    push_str(dsl, ", weight: ");
    push_short3(dsl, e.weight as u128);
    push_str(dsl, " }\n");
    assert(dsl@ =~= old(dsl)@ + edge_dsl_line(*e));
}

/// Appends the DSL line of a topic.
fn push_topic_dsl_line(dsl: &mut String, t: &TopicExportView)
    ensures
        final(dsl)@ == old(dsl)@ + topic_dsl_line(*t),
{
    push_str(dsl, "    { id: ");
    push_str(dsl, t.id.as_str());
    push_str(dsl, ", title: \"");
    let title = escape_dsl_string(t.title.as_str());
    push_str(dsl, title.as_str());
    push_str(dsl, "\", root: ");
    push_str(dsl, t.root_node_id.as_str());
    push_str(dsl, " }\n");
    assert(dsl@ =~= old(dsl)@ + topic_dsl_line(*t));
}

/// Appends the head of a graph's DSL text.
fn push_graph_dsl_head(dsl: &mut String, view: &GraphExportView, generated_at: &str)
    ensures
        final(dsl)@ == old(dsl)@ + graph_dsl_head(*view, generated_at@),
{
    push_str(dsl, "# Evolution Reasoning Graph — DSL Export\n");
    push_str(dsl, "# Generated at: ");
    push_str(dsl, generated_at);
    push_str(dsl, "\n");
    push_str(dsl, "# Nodes: ");
    push_decimal(dsl, view.node_count as u64);
    push_str(dsl, ", Edges: ");
    push_decimal(dsl, view.edge_count as u64);
    push_str(dsl, ", Topics: ");
    push_decimal(dsl, view.topic_count as u64);
    push_str(dsl, "\n\n");
    assert(dsl@ =~= old(dsl)@ + graph_dsl_comments(*view, generated_at@));
    let ghost mid = dsl@;
    push_str(dsl, "graph {\n");
    push_str(dsl, "  meta {\n");
    push_str(dsl, "    total_complexity: ");
    push_short3(dsl, view.total_complexity);
    push_str(dsl, "\n");
    push_str(dsl, "    status_counts { locked: ");
    push_decimal(dsl, view.locked_nodes as u64);
    push_str(dsl, ", draft: ");
    push_decimal(dsl, view.draft_nodes as u64);
    push_str(dsl, ", pruned: ");
    push_decimal(dsl, view.pruned_nodes as u64);
    push_str(dsl, " }\n");
    push_str(dsl, "  }\n\n");
    assert(dsl@ =~= mid + graph_dsl_meta(*view));
    assert(dsl@ =~= old(dsl)@ + graph_dsl_head(*view, generated_at@));
}

/// Appends the topics block of a graph's DSL text.
fn push_graph_dsl_topics(dsl: &mut String, view: &GraphExportView)
    ensures
        final(dsl)@ == old(dsl)@ + graph_dsl_topics(*view),
{
    if view.topics.len() > 0 {
        push_str(dsl, "  topics [\n");
        let ghost start = dsl@;
        let ghost f = |t: TopicExportView| topic_dsl_line(t);
        let mut i: usize = 0;
        while i < view.topics.len()
            invariant
                i <= view.topics@.len(),
                f == (|t: TopicExportView| topic_dsl_line(t)),
                dsl@ + concat_map(view.topics@, f, i as int) == start + concat_map(view.topics@, f, 0),
            decreases view.topics.len() - i,
        {
            let ghost before = dsl@;
            push_topic_dsl_line(dsl, &view.topics[i]);
            assert(dsl@ + concat_map(view.topics@, f, i + 1) =~= before + concat_map(view.topics@, f, i as int));
            i = i + 1;
        }
        assert(dsl@ =~= start + concat_map(view.topics@, f, 0));
        push_str(dsl, "  ]\n\n");
    }
    assert(dsl@ =~= old(dsl)@ + graph_dsl_topics(*view));
}

/// Appends the nodes block of a graph's DSL text.
fn push_graph_dsl_nodes(dsl: &mut String, view: &GraphExportView)
    ensures
        final(dsl)@ == old(dsl)@ + graph_dsl_nodes(*view),
{
    push_str(dsl, "  nodes [\n");
    let ghost start = dsl@;
    let ghost f = |n: NodeExportView| node_dsl_line(n);
    let mut i: usize = 0;
    while i < view.nodes.len()
        invariant
            i <= view.nodes@.len(),
            f == (|n: NodeExportView| node_dsl_line(n)),
            dsl@ + concat_map(view.nodes@, f, i as int) == start + concat_map(view.nodes@, f, 0),
        decreases view.nodes.len() - i,
    {
        let ghost before = dsl@;
        push_node_dsl_line(dsl, &view.nodes[i]);
        assert(dsl@ + concat_map(view.nodes@, f, i + 1) =~= before + concat_map(view.nodes@, f, i as int));
        i = i + 1;
    }
    assert(dsl@ =~= start + concat_map(view.nodes@, f, 0));
    push_str(dsl, "  ]\n\n");
    assert(dsl@ =~= old(dsl)@ + graph_dsl_nodes(*view));
}

/// Appends the edges block of a graph's DSL text, and its end.
fn push_graph_dsl_edges(dsl: &mut String, view: &GraphExportView)
    ensures
        final(dsl)@ == old(dsl)@ + graph_dsl_edges(*view),
{
    push_str(dsl, "  edges [\n");
    let ghost start = dsl@;
    let ghost f = |e: EdgeExportView| edge_dsl_line(e);
    let mut k: usize = 0;
    while k < view.edges.len()
        invariant
            k <= view.edges@.len(),
            f == (|e: EdgeExportView| edge_dsl_line(e)),
            dsl@ + concat_map(view.edges@, f, k as int) == start + concat_map(view.edges@, f, 0),
        decreases view.edges.len() - k,
    {
        let ghost before = dsl@;
        push_edge_dsl_line(dsl, &view.edges[k]);
        assert(dsl@ + concat_map(view.edges@, f, k + 1) =~= before + concat_map(view.edges@, f, k as int));
        k = k + 1;
    }
    assert(dsl@ =~= start + concat_map(view.edges@, f, 0));
    push_str(dsl, "  ]\n");
    push_str(dsl, "}\n");
    assert(dsl@ =~= old(dsl)@ + graph_dsl_edges(*view));
}

/// The DSL text of a graph, with the given generation time (see
/// `graph_dsl`).
pub fn graph_dsl_at(view: &GraphExportView, generated_at: &str) -> (s: String)
    ensures
        s@ == graph_dsl(*view, generated_at@),
{
    let mut dsl = String::new();
    push_graph_dsl_head(&mut dsl, view, generated_at);
    push_graph_dsl_topics(&mut dsl, view);
    push_graph_dsl_nodes(&mut dsl, view);
    push_graph_dsl_edges(&mut dsl, view);
    assert(dsl@ =~= graph_dsl(*view, generated_at@));
    dsl
}

/// The DSL text of a graph, generated now: `graph_dsl` at the current UTC
/// time.
pub fn to_dsl_graph(view: &GraphExportView) -> (s: String)
    ensures
        exists|t: Seq<char>| s@ == graph_dsl(*view, t),
{
    let now = utc_now();
    graph_dsl_at(view, now.as_str())
}

/// The DSL text of a node.
pub open spec fn node_dsl(n: NodeExportView) -> Seq<char> {
    "# Node "@ + n.id@ + " — DSL Export\n\n"@ + "node {\n"@ + "  id: "@ + n.id@ + "\n"@ + "  step: "@
        + signed_decimal(n.step as int) + "\n"@ + "  status: "@ + lowercase(n.status@) + "\n"@ + "  weight: "@
        + short3(n.weight as nat) + "\n"@ + "  confidence: "@ + short3(n.confidence as nat) + "\n"@
        + "  complexity: "@ + short3(n.complexity as nat) + "\n"@ + "  parents: "@ + decimal(
        n.parent_count as nat,
    ) + "\n"@ + "  children: "@ + decimal(n.child_count as nat) + "\n"@ + "  content: \""@ + quote_escape(
        n.content@,
    ) + "\"\n"@ + "}\n"@
}

/// The DSL text of a node (see `node_dsl`).
pub fn to_dsl_node(view: &NodeExportView) -> (s: String)
    ensures
        s@ == node_dsl(*view),
{
    let mut dsl = String::from_str("# Node ");
    push_str(&mut dsl, view.id.as_str());
    push_str(&mut dsl, " — DSL Export\n\n");
    push_str(&mut dsl, "node {\n");
    push_str(&mut dsl, "  id: ");
    push_str(&mut dsl, view.id.as_str());
    push_str(&mut dsl, "\n");
    push_str(&mut dsl, "  step: ");
    push_signed_decimal(&mut dsl, view.step as i64);
    push_str(&mut dsl, "\n");
    push_str(&mut dsl, "  status: ");
    let st = to_lowercase(view.status.as_str());
    push_str(&mut dsl, st.as_str());
    push_str(&mut dsl, "\n");
    push_str(&mut dsl, "  weight: ");
    push_short3(&mut dsl, view.weight as u128);
    push_str(&mut dsl, "\n");
    push_str(&mut dsl, "  confidence: ");
    push_short3(&mut dsl, view.confidence as u128);
    push_str(&mut dsl, "\n");
    push_str(&mut dsl, "  complexity: ");
    push_short3(&mut dsl, view.complexity as u128);
    push_str(&mut dsl, "\n");
    push_str(&mut dsl, "  parents: ");
    push_decimal(&mut dsl, view.parent_count as u64);
    push_str(&mut dsl, "\n");
    push_str(&mut dsl, "  children: ");
    push_decimal(&mut dsl, view.child_count as u64);
    push_str(&mut dsl, "\n");
    push_str(&mut dsl, "  content: \"");
    let c = escape_dsl_string(view.content.as_str());
    push_str(&mut dsl, c.as_str());
    push_str(&mut dsl, "\"\n");
    push_str(&mut dsl, "}\n");
    assert(dsl@ =~= node_dsl(*view));
    dsl
}

/// The DSL line of a checkpoint.
pub open spec fn checkpoint_dsl_line(c: CheckpointExportView) -> Seq<char> {
    "    { id: "@ + c.id@ + ", node: "@ + c.node_id@ + ", reason: "@ + c.reason@ + ", at: "@ + c.created_at@
        + ", snapshot_bytes: "@ + decimal(c.snapshot_bytes as nat) + " }\n"@
}

/// The DSL line of a failure.
pub open spec fn failure_dsl_line(f: FailureExportView) -> Seq<char> {
    "    { id: "@ + f.id@ + ", node: "@ + f.node_id@ + ", pattern: "@ + f.pattern_type@ + ", exit: "@ + exit_debug(
        f.exit_code,
    ) + ", at: "@ + f.recorded_at@ + " }\n"@
}

/// The two quoted lines of a hypothesis's cause and correction.
pub open spec fn hypothesis_dsl_body(h: HypothesisExportView) -> Seq<char> {
    "      hypothesis: \""@ + quote_escape(h.hypothesis@) + "\"\n"@ + "      action: \""@ + quote_escape(
        h.suggested_action@,
    ) + "\"\n"@
}

/// The DSL lines of a hypothesis in the backtracking state.
pub open spec fn latest_hypothesis_dsl(h: HypothesisExportView) -> Seq<char> {
    "    { id: "@ + h.id@ + ", failure: "@ + h.failure_id@ + ", confidence: "@ + short2(h.confidence as nat)
        + " }\n"@ + hypothesis_dsl_body(h)
}

/// The DSL lines of a hypothesis in the list of all hypotheses.
pub open spec fn hypothesis_item_dsl(h: HypothesisExportView) -> Seq<char> {
    "    { failure: "@ + h.failure_id@ + ", confidence: "@ + short2(h.confidence as nat) + " }\n"@
        + hypothesis_dsl_body(h)
}

/// The DSL text of the backtracking state.
pub open spec fn backtrack_dsl(v: BacktrackExportView) -> Seq<char> {
    "# Evolution Backtrack State — DSL Export\n"@ + "# Checkpoints: "@ + decimal(v.checkpoint_count as nat)
        + ", Failures: "@ + decimal(v.failure_count as nat) + ", Hypothesis Groups: "@ + decimal(
        v.total_groups as nat,
    ) + "\n\n"@ + "backtrack {\n"@ + "  checkpoints [\n"@ + concat_map(
        v.checkpoints@,
        |c: CheckpointExportView| checkpoint_dsl_line(c),
        0,
    ) + "  ]\n\n"@ + "  failures [\n"@ + concat_map(v.failures@, |f: FailureExportView| failure_dsl_line(f), 0)
        + "  ]\n\n"@ + "  latest_hypotheses [\n"@ + concat_map(
        v.latest_hypotheses@,
        |h: HypothesisExportView| latest_hypothesis_dsl(h),
        0,
    ) + "  ]\n"@ + "}\n"@
}

/// The DSL text of all hypotheses.
pub open spec fn hypotheses_dsl(v: HypothesesExportView) -> Seq<char> {
    "# Evolution Hypotheses — DSL Export\n"@ + "# "@ + decimal(v.total_failures as nat) + " failures, "@
        + decimal(v.total_hypotheses as nat) + " total hypotheses\n\n"@ + "hypotheses {\n"@
        + "  total_failures: "@ + decimal(v.total_failures as nat) + "\n"@ + "  total_hypotheses: "@ + decimal(
        v.total_hypotheses as nat,
    ) + "\n"@ + "  items [\n"@ + concat_map(v.hypotheses@, |h: HypothesisExportView| hypothesis_item_dsl(h), 0)
        + "  ]\n"@ + "}\n"@
}

/// Appends the two quoted lines of a hypothesis.
fn push_hypothesis_dsl_body(dsl: &mut String, h: &HypothesisExportView)
    ensures
        final(dsl)@ == old(dsl)@ + hypothesis_dsl_body(*h),
{
    push_str(dsl, "      hypothesis: \"");
    let a = escape_dsl_string(h.hypothesis.as_str());
    push_str(dsl, a.as_str());
    push_str(dsl, "\"\n");
    push_str(dsl, "      action: \"");
    let b = escape_dsl_string(h.suggested_action.as_str());
    push_str(dsl, b.as_str());
    push_str(dsl, "\"\n");
    assert(dsl@ =~= old(dsl)@ + hypothesis_dsl_body(*h));
}

/// Appends the DSL lines of the checkpoints.
fn push_checkpoint_dsl_lines(dsl: &mut String, v: &Vec<CheckpointExportView>)
    ensures
        final(dsl)@ == old(dsl)@ + concat_map(v@, |c: CheckpointExportView| checkpoint_dsl_line(c), 0),
{
    let ghost start = dsl@;
    let ghost f = |c: CheckpointExportView| checkpoint_dsl_line(c);
    let mut i: usize = 0;
    while i < v.len()
        invariant
            i <= v@.len(),
            f == (|c: CheckpointExportView| checkpoint_dsl_line(c)),
            dsl@ + concat_map(v@, f, i as int) == start + concat_map(v@, f, 0),
        decreases v.len() - i,
    {
        let ghost before = dsl@;
        let c = &v[i];
        push_str(dsl, "    { id: ");
        push_str(dsl, c.id.as_str());
        push_str(dsl, ", node: ");
        push_str(dsl, c.node_id.as_str());
        push_str(dsl, ", reason: ");
        push_str(dsl, c.reason.as_str());
        push_str(dsl, ", at: ");
        push_str(dsl, c.created_at.as_str());
        push_str(dsl, ", snapshot_bytes: ");
        push_decimal(dsl, c.snapshot_bytes as u64);
        push_str(dsl, " }\n");
        assert(dsl@ =~= before + checkpoint_dsl_line(*c));
        assert(dsl@ + concat_map(v@, f, i + 1) =~= before + concat_map(v@, f, i as int));
        i = i + 1;
    }
    assert(dsl@ =~= start + concat_map(v@, f, 0));
}

/// Appends the DSL lines of the failures.
fn push_failure_dsl_lines(dsl: &mut String, v: &Vec<FailureExportView>)
    ensures
        final(dsl)@ == old(dsl)@ + concat_map(v@, |f: FailureExportView| failure_dsl_line(f), 0),
{
    let ghost start = dsl@;
    let ghost f = |f: FailureExportView| failure_dsl_line(f);
    let mut i: usize = 0;
    while i < v.len()
        invariant
            i <= v@.len(),
            f == (|f: FailureExportView| failure_dsl_line(f)),
            dsl@ + concat_map(v@, f, i as int) == start + concat_map(v@, f, 0),
        decreases v.len() - i,
    {
        let ghost before = dsl@;
        let x = &v[i];
        push_str(dsl, "    { id: ");
        push_str(dsl, x.id.as_str());
        push_str(dsl, ", node: ");
        push_str(dsl, x.node_id.as_str());
        push_str(dsl, ", pattern: ");
        push_str(dsl, x.pattern_type.as_str());
        push_str(dsl, ", exit: ");
        push_exit_debug(dsl, x.exit_code);
        push_str(dsl, ", at: ");
        push_str(dsl, x.recorded_at.as_str());
        push_str(dsl, " }\n");
        assert(dsl@ =~= before + failure_dsl_line(*x));
        assert(dsl@ + concat_map(v@, f, i + 1) =~= before + concat_map(v@, f, i as int));
        i = i + 1;
    }
    assert(dsl@ =~= start + concat_map(v@, f, 0));
}

/// Appends the DSL lines of hypotheses, with identifiers where `with_id`
/// (as in the backtracking state) and without (as in the list of all).
fn push_hypothesis_dsl_lines(dsl: &mut String, v: &Vec<HypothesisExportView>, with_id: bool)
    ensures
        final(dsl)@ == old(dsl)@ + if with_id {
            concat_map(v@, |h: HypothesisExportView| latest_hypothesis_dsl(h), 0)
        } else {
            concat_map(v@, |h: HypothesisExportView| hypothesis_item_dsl(h), 0)
        },
{
    let ghost start = dsl@;
    let ghost f = if with_id {
        |h: HypothesisExportView| latest_hypothesis_dsl(h)
    } else {
        |h: HypothesisExportView| hypothesis_item_dsl(h)
    };
    let mut i: usize = 0;
    while i < v.len()
        invariant
            i <= v@.len(),
            f == if with_id {
                |h: HypothesisExportView| latest_hypothesis_dsl(h)
            } else {
                |h: HypothesisExportView| hypothesis_item_dsl(h)
            },
            dsl@ + concat_map(v@, f, i as int) == start + concat_map(v@, f, 0),
        decreases v.len() - i,
    {
        let ghost before = dsl@;
        let h = &v[i];
        if with_id {
            push_str(dsl, "    { id: ");
            push_str(dsl, h.id.as_str());
            push_str(dsl, ", failure: ");
        } else {
            push_str(dsl, "    { failure: ");
        }
        push_str(dsl, h.failure_id.as_str());
        push_str(dsl, ", confidence: ");
        push_short2(dsl, h.confidence as u128);
        push_str(dsl, " }\n");
        push_hypothesis_dsl_body(dsl, h);
        assert(dsl@ =~= before + f(*h));
        assert(dsl@ + concat_map(v@, f, i + 1) =~= before + concat_map(v@, f, i as int));
        i = i + 1;
    }
    assert(dsl@ =~= start + concat_map(v@, f, 0));
}

/// The DSL text of the backtracking state (see `backtrack_dsl`).
pub fn to_dsl_backtrack(view: &BacktrackExportView) -> (s: String)
    ensures
        s@ == backtrack_dsl(*view),
{
    let mut dsl = String::from_str("# Evolution Backtrack State — DSL Export\n");
    push_str(&mut dsl, "# Checkpoints: ");
    push_decimal(&mut dsl, view.checkpoint_count as u64);
    push_str(&mut dsl, ", Failures: ");
    push_decimal(&mut dsl, view.failure_count as u64);
    push_str(&mut dsl, ", Hypothesis Groups: ");
    push_decimal(&mut dsl, view.total_groups as u64);
    push_str(&mut dsl, "\n\n");
    push_str(&mut dsl, "backtrack {\n");
    push_str(&mut dsl, "  checkpoints [\n");
    push_checkpoint_dsl_lines(&mut dsl, &view.checkpoints);
    push_str(&mut dsl, "  ]\n\n");
    push_str(&mut dsl, "  failures [\n");
    push_failure_dsl_lines(&mut dsl, &view.failures);
    push_str(&mut dsl, "  ]\n\n");
    push_str(&mut dsl, "  latest_hypotheses [\n");
    push_hypothesis_dsl_lines(&mut dsl, &view.latest_hypotheses, true);
    push_str(&mut dsl, "  ]\n");
    push_str(&mut dsl, "}\n");
    assert(dsl@ =~= backtrack_dsl(*view));
    dsl
}

/// The DSL text of all hypotheses (see `hypotheses_dsl`).
pub fn to_dsl_hypotheses(view: &HypothesesExportView) -> (s: String)
    ensures
        s@ == hypotheses_dsl(*view),
{
    let mut dsl = String::from_str("# Evolution Hypotheses — DSL Export\n");
    push_str(&mut dsl, "# ");
    push_decimal(&mut dsl, view.total_failures as u64);
    push_str(&mut dsl, " failures, ");
    push_decimal(&mut dsl, view.total_hypotheses as u64);
    push_str(&mut dsl, " total hypotheses\n\n");
    push_str(&mut dsl, "hypotheses {\n");
    push_str(&mut dsl, "  total_failures: ");
    push_decimal(&mut dsl, view.total_failures as u64);
    push_str(&mut dsl, "\n");
    push_str(&mut dsl, "  total_hypotheses: ");
    push_decimal(&mut dsl, view.total_hypotheses as u64);
    push_str(&mut dsl, "\n");
    push_str(&mut dsl, "  items [\n");
    push_hypothesis_dsl_lines(&mut dsl, &view.hypotheses, false);
    push_str(&mut dsl, "  ]\n");
    push_str(&mut dsl, "}\n");
    assert(dsl@ =~= hypotheses_dsl(*view));
    dsl
}

} // verus!


