//! Snapshots of the reasoning graph saved at the end of each round.
use vstd::prelude::*;

use crate::engine::graph_xml::snapshot_edges;
use crate::fixed::{fixed4, push_fixed4};

use crate::models::graph::{complexity_sum, is_live_edge, is_live_node, Graph};
use crate::models::node::{node_status_name, Node};
use crate::stamp::Timestamp;
use crate::text::{decimal, push_decimal, push_signed_decimal, push_str, signed_decimal};

verus! {

/// The lines of one node in a round snapshot.
pub open spec fn logged_node(n: Node) -> Seq<char> {
    "    <node id=\""@ + n.id@ + "\" step=\""@ + signed_decimal(n.step as int) + "\" weight=\""@
        + fixed4(n.weight as nat) + "\" confidence=\""@ + fixed4(n.confidence as nat)
        + "\" complexity=\""@ + fixed4(n.complexity as nat) + "\" status=\""@ + node_status_name(
        n.status,
    ) + "\">\n      <content><![CDATA["@ + n.content@ + "]]></content>\n    </node>\n"@
}

/// The lines of some nodes in a round snapshot.
pub open spec fn logged_nodes(ns: Seq<Node>) -> Seq<char>
    decreases ns.len(),
{
    if ns.len() == 0 {
        Seq::empty()
    } else {
        logged_nodes(ns.drop_last()) + logged_node(ns.last())
    }
}

/// A round snapshot of a graph taken at `time`: counts and complexity,
/// then every node and edge.
pub open spec fn round_snapshot(g: Graph, time: Seq<char>) -> Seq<char> {
    "<?xml version=\"1.0\" encoding=\"UTF-8\"?>\n<graph>\n  <meta>\n    <timestamp>"@ + time
        + "</timestamp>\n    <node_count>"@ + decimal(g.nodes@.filter(is_live_node()).len())
        + "</node_count>\n    <edge_count>"@ + decimal(g.edges@.filter(is_live_edge(g)).len())
        + "</edge_count>\n    <total_complexity>"@ + fixed4(
        complexity_sum(g.nodes@.filter(is_live_node())),
    ) + "</total_complexity>\n  </meta>\n  <nodes>\n"@ + logged_nodes(g.nodes@)
        + "  </nodes>\n  <edges>\n"@ + snapshot_edges(g.edges@) + "  </edges>\n</graph>\n"@
}

/// The file name of the snapshot of a round, from a compact time stamp.
pub open spec fn snapshot_file_name_spec(round: nat, stamp: Seq<char>) -> Seq<char> {
    "snapshot_"@ + decimal(round) + "_"@ + stamp + ".xml"@
}

/// The file name of the snapshot of a round.
pub fn snapshot_file_name(round: usize, stamp: &str) -> (s: String)
    ensures
        s@ == snapshot_file_name_spec(round as nat, stamp@),
{
    let mut s = String::from_str("snapshot_");
    push_decimal(&mut s, round as u64);
    push_str(&mut s, "_");
    push_str(&mut s, stamp);
    push_str(&mut s, ".xml");
    s
}

/// Appends the lines of one node (see `logged_node`).
fn push_logged_node(s: &mut String, n: &Node)
    ensures
        final(s)@ == old(s)@ + logged_node(*n),
{
    push_str(s, "    <node id=\"");
    push_str(s, n.id.as_str());
    push_str(s, "\" step=\"");
    push_signed_decimal(s, n.step as i64);
    push_str(s, "\" weight=\"");
    push_fixed4(s, n.weight as u128);
    push_str(s, "\" confidence=\"");
    push_fixed4(s, n.confidence as u128);
    push_str(s, "\" complexity=\"");
    push_fixed4(s, n.complexity as u128);
    push_str(s, "\" status=\"");
    push_str(s, n.status.name());
    push_str(s, "\">\n      <content><![CDATA[");
    push_str(s, n.content.as_str());
    push_str(s, "]]></content>\n    </node>\n");
    assert(s@ =~= old(s)@ + logged_node(*n));
}

/// The round snapshot of a graph at a given time (see `round_snapshot`).
pub fn graph_to_xml_at(graph: &Graph, time: &str) -> (s: String)
    requires
        graph.wf(),
    ensures
        s@ == round_snapshot(*graph, time@),
{
    let mut s = String::from_str(
        "<?xml version=\"1.0\" encoding=\"UTF-8\"?>\n<graph>\n  <meta>\n    <timestamp>",
    );
    push_str(&mut s, time);
    push_str(&mut s, "</timestamp>\n    <node_count>");
    push_decimal(&mut s, graph.node_count() as u64);
    push_str(&mut s, "</node_count>\n    <edge_count>");
    push_decimal(&mut s, graph.edge_count() as u64);
    push_str(&mut s, "</edge_count>\n    <total_complexity>");
    push_fixed4(&mut s, graph.total_complexity());
    push_str(&mut s, "</total_complexity>\n  </meta>\n  <nodes>\n");
    let ghost head = s@;
    let mut i: usize = 0;
    while i < graph.nodes.len()
        invariant
            i <= graph.nodes@.len(),
            s@ == head + logged_nodes(graph.nodes@.take(i as int)),
        decreases graph.nodes.len() - i,
    {
        push_logged_node(&mut s, &graph.nodes[i]);
        assert(graph.nodes@.take(i + 1).drop_last() =~= graph.nodes@.take(i as int));
        assert(s@ =~= head + logged_nodes(graph.nodes@.take(i + 1)));
        i = i + 1;
    }
    assert(graph.nodes@.take(graph.nodes@.len() as int) =~= graph.nodes@);
    push_str(&mut s, "  </nodes>\n  <edges>\n");
    let ghost mid = s@;
    let edges = crate::engine::graph_xml::snapshot_edge_lines(graph);
    push_str(&mut s, edges.as_str());
    push_str(&mut s, "  </edges>\n</graph>\n");
    s
}

/// Saves graph snapshots under a directory.
#[derive(Debug, Clone)]
pub struct SnapshotLogger {
    snapshots_dir: std::path::PathBuf,
}

impl SnapshotLogger {
    /// The snapshots dir.
    pub closed spec fn snapshots_dir_spec(&self) -> std::path::PathBuf {
        self.snapshots_dir
    }

    /// A logger saving under the given directory.
    pub fn new(snapshots_dir: &std::path::PathBuf) -> (l: Self)
        ensures
            l.snapshots_dir_spec() == *snapshots_dir,
    {
        SnapshotLogger { snapshots_dir: snapshots_dir.clone() }
    }

    /// The snapshots directory.
    pub fn snapshots_dir(&self) -> (p: &std::path::PathBuf)
        ensures
            *p == self.snapshots_dir_spec(),
    {
        &self.snapshots_dir
    }

    /// The round snapshot of a graph, stamped with the current local time
    /// in RFC 3339 (see `round_snapshot`).
    pub fn graph_to_xml(&self, graph: &Graph) -> (s: String)
        requires
            graph.wf(),
        ensures
            exists|t: Seq<char>| s@ == round_snapshot(*graph, t),
    {
        let now = Timestamp::now();
        graph_to_xml_at(graph, now.rfc3339.as_str())
    }
}

} // verus!
