//! Graph snapshots in XML, as checkpoints keep them: nodes with their
//! identifier, step, weight, confidence, status and content, edges with
//! their ends, type and weight, and the total complexity.
use vstd::prelude::*;

use crate::engine::backtrack::{edge_type_of, extract_xml_attr, node_status_of, parse_edge_type, parse_node_status, xml_attr_spec};
use crate::fixed::{fixed4, parse_i32, parse_i32_spec, parse_thousandths, parse_thousandths_spec, push_fixed4};
use crate::models::edge::{edge_type_name, Edge, EdgeType};
use crate::models::graph::{complexity_sum, is_live_node, linked_node, node_ids, put_node, Graph};
use crate::models::node::{node_status_name, Node, NodeStatus};
use crate::text::{chars_of, push_signed_decimal, push_str, signed_decimal, split, split_exec, string_of};

verus! {

/// The lines of one node in a snapshot.
pub open spec fn snapshot_node(n: Node) -> Seq<char> {
    "    <node id=\""@ + n.id@ + "\" step=\""@ + signed_decimal(n.step as int) + "\" weight=\""@
        + fixed4(n.weight as nat) + "\" confidence=\""@ + fixed4(n.confidence as nat)
        + "\" status=\""@ + node_status_name(n.status) + "\">\n      <content><![CDATA["@
        + n.content@ + "]]></content>\n    </node>\n"@
}

/// The lines of some nodes.
pub open spec fn snapshot_nodes(ns: Seq<Node>) -> Seq<char>
    decreases ns.len(),
{
    if ns.len() == 0 {
        Seq::empty()
    } else {
        snapshot_nodes(ns.drop_last()) + snapshot_node(ns.last())
    }
}

/// The line of one edge in a snapshot.
pub open spec fn snapshot_edge(e: Edge) -> Seq<char> {
    "    <edge id=\""@ + e.id@ + "\" from=\""@ + e.from@ + "\" to=\""@ + e.to@ + "\" type=\""@
        + edge_type_name(e.edge_type) + "\" weight=\""@ + fixed4(e.weight as nat) + "\" />\n"@
}

/// The lines of some edges.
pub open spec fn snapshot_edges(es: Seq<Edge>) -> Seq<char>
    decreases es.len(),
{
    if es.len() == 0 {
        Seq::empty()
    } else {
        snapshot_edges(es.drop_last()) + snapshot_edge(es.last())
    }
}

/// The snapshot of a graph: its nodes and edges in order, then the total
/// complexity of the live nodes.
pub open spec fn graph_snapshot(g: Graph) -> Seq<char> {
    "<?xml version=\"1.0\" encoding=\"UTF-8\"?>\n<graph>\n  <nodes>\n"@ + snapshot_nodes(g.nodes@)
        + "  </nodes>\n  <edges>\n"@ + snapshot_edges(g.edges@) + "  </edges>\n  <complexity>"@
        + fixed4(complexity_sum(g.nodes@.filter(is_live_node()))) + "</complexity>\n</graph>\n"@
}

/// Appends the lines of one node (see `snapshot_node`).
fn push_snapshot_node(s: &mut String, n: &Node)
    ensures
        final(s)@ == old(s)@ + snapshot_node(*n),
{
        push_str(s, "    <node id=\"");
        push_str(s, n.id.as_str());
        push_str(s, "\" step=\"");
        push_signed_decimal(s, n.step as i64);
        push_str(s, "\" weight=\"");
        push_fixed4(s, n.weight as u128);
        push_str(s, "\" confidence=\"");
        push_fixed4(s, n.confidence as u128);
        push_str(s, "\" status=\"");
        push_str(s, n.status.name());
        push_str(s, "\">\n      <content><![CDATA[");
        push_str(s, n.content.as_str());
        push_str(s, "]]></content>\n    </node>\n");
    assert(s@ =~= old(s)@ + snapshot_node(*n));
}

/// Appends the line of one edge (see `snapshot_edge`).
fn push_snapshot_edge(s: &mut String, e: &Edge)
    ensures
        final(s)@ == old(s)@ + snapshot_edge(*e),
{
        push_str(s, "    <edge id=\"");
        push_str(s, e.id.as_str());
        push_str(s, "\" from=\"");
        push_str(s, e.from.as_str());
        push_str(s, "\" to=\"");
        push_str(s, e.to.as_str());
        push_str(s, "\" type=\"");
        push_str(s, e.edge_type.name());
        push_str(s, "\" weight=\"");
        push_fixed4(s, e.weight as u128);
        push_str(s, "\" />\n");
    assert(s@ =~= old(s)@ + snapshot_edge(*e));
}

/// The edge lines of a graph (see `snapshot_edges`).
pub fn snapshot_edge_lines(graph: &Graph) -> (s: String)
    ensures
        s@ == snapshot_edges(graph.edges@),
{
    let mut s = String::new();
    let mut j: usize = 0;
    while j < graph.edges.len()
        invariant
            j <= graph.edges@.len(),
            s@ == snapshot_edges(graph.edges@.take(j as int)),
        decreases graph.edges.len() - j,
    {
        push_snapshot_edge(&mut s, &graph.edges[j]);
        assert(graph.edges@.take(j + 1).drop_last() =~= graph.edges@.take(j as int));
        assert(s@ =~= snapshot_edges(graph.edges@.take(j + 1)));
        j = j + 1;
    }
    assert(graph.edges@.take(graph.edges@.len() as int) =~= graph.edges@);
    s
}

/// Writes the snapshot of a graph (see `graph_snapshot`).
pub fn graph_snapshot_xml(graph: &Graph) -> (s: String)
    ensures
        s@ == graph_snapshot(*graph),
{
    let mut s = String::from_str("<?xml version=\"1.0\" encoding=\"UTF-8\"?>\n<graph>\n  <nodes>\n");
    let ghost head = s@;
    let mut i: usize = 0;
    while i < graph.nodes.len()
        invariant
            i <= graph.nodes@.len(),
            s@ == head + snapshot_nodes(graph.nodes@.take(i as int)),
        decreases graph.nodes.len() - i,
    {
        push_snapshot_node(&mut s, &graph.nodes[i]);
        assert(graph.nodes@.take(i + 1).drop_last() =~= graph.nodes@.take(i as int));
        assert(s@ =~= head + snapshot_nodes(graph.nodes@.take(i + 1)));
        i = i + 1;
    }
    assert(graph.nodes@.take(graph.nodes@.len() as int) =~= graph.nodes@);
    push_str(&mut s, "  </nodes>\n  <edges>\n");
    let ghost mid = s@;
    let mut j: usize = 0;
    while j < graph.edges.len()
        invariant
            j <= graph.edges@.len(),
            s@ == mid + snapshot_edges(graph.edges@.take(j as int)),
        decreases graph.edges.len() - j,
    {
        push_snapshot_edge(&mut s, &graph.edges[j]);
        assert(graph.edges@.take(j + 1).drop_last() =~= graph.edges@.take(j as int));
        assert(s@ =~= mid + snapshot_edges(graph.edges@.take(j + 1)));
        j = j + 1;
    }
    assert(graph.edges@.take(graph.edges@.len() as int) =~= graph.edges@);
    push_str(&mut s, "  </edges>\n  <complexity>");
    push_fixed4(&mut s, graph.total_complexity());
    push_str(&mut s, "</complexity>\n</graph>\n");
    s
}

/// What `s.split(open).nth(1)` and then `.split(close).next()` give: the
/// text after the first `open`, up to the next `open` or `close`.
pub open spec fn split_section(s: Seq<char>, open: Seq<char>, close: Seq<char>) -> Option<Seq<char>> {
    let parts = split(s, open);
    if parts.len() > 1 {
        Some(split(parts[1], close)[0])
    } else {
        None
    }
}

/// A node as a snapshot describes it: identifier, step, weight,
/// confidence, content and status.
pub type NodeDesc = (Seq<char>, i32, u32, u32, Seq<char>, NodeStatus);

/// An edge as a snapshot describes it: its ends, type and weight.
pub type EdgeDesc = (Seq<char>, Seq<char>, EdgeType, u32);

/// The description of a node.
pub open spec fn desc_of(n: Node) -> NodeDesc {
    (n.id@, n.step, n.weight, n.confidence, n.content@, n.status)
}

/// The description of an edge.
pub open spec fn edge_desc_of(e: Edge) -> EdgeDesc {
    (e.from@, e.to@, e.edge_type, e.weight)
}

/// An attribute read as an `i32`, or a default.
pub open spec fn attr_i32(chunk: Seq<char>, name: Seq<char>, default: i32) -> i32 {
    match xml_attr_spec(chunk, name) {
        Some(t) => match parse_i32_spec(t) {
            Some(v) => v,
            None => default,
        },
        None => default,
    }
}

/// An attribute read as a number in thousandths, or one.
pub open spec fn attr_thousandths(chunk: Seq<char>, name: Seq<char>) -> u32 {
    match xml_attr_spec(chunk, name) {
        Some(t) => match parse_thousandths_spec(t) {
            Some(v) => v,
            None => 1000,
        },
        None => 1000,
    }
}

/// The description of the node of a `<node ` chunk: its `id`, `step` (one
/// by default), `weight` and `confidence` (one by default), the CDATA of
/// its `content` (empty by default) and `status` (active by default).
pub open spec fn node_desc(chunk: Seq<char>) -> NodeDesc {
    (
        match xml_attr_spec(chunk, "id"@) {
            Some(i) => i,
            None => Seq::empty(),
        },
        attr_i32(chunk, "step"@, 1),
        attr_thousandths(chunk, "weight"@),
        attr_thousandths(chunk, "confidence"@),
        match split_section(chunk, "<content><![CDATA["@, "]]></content>"@) {
            Some(t) => t,
            None => Seq::empty(),
        },
        match xml_attr_spec(chunk, "status"@) {
            Some(t) => match node_status_of(t) {
                Some(st) => st,
                None => NodeStatus::Active,
            },
            None => NodeStatus::Active,
        },
    )
}

/// The description of the edge of an `<edge ` chunk that has both ends:
/// `type` (reasoning by default) and `weight` (one by default).
pub open spec fn edge_desc(chunk: Seq<char>) -> EdgeDesc {
    (
        xml_attr_spec(chunk, "from"@)->0,
        xml_attr_spec(chunk, "to"@)->0,
        match xml_attr_spec(chunk, "type"@) {
            Some(t) => match edge_type_of(t) {
                Some(et) => et,
                None => EdgeType::Reasoning,
            },
            None => EdgeType::Reasoning,
        },
        attr_thousandths(chunk, "weight"@),
    )
}

/// Descriptions with `d` stored under its identifier.
pub open spec fn put_desc(ds: Seq<NodeDesc>, d: NodeDesc) -> Seq<NodeDesc> {
    let ids = ds.map_values(|x: NodeDesc| x.0);
    if ids.contains(d.0) {
        ds.update(ids.index_of(d.0), d)
    } else {
        ds.push(d)
    }
}

/// The nodes that a list of chunks describes, each stored under its
/// identifier in turn.
pub open spec fn descs_of(chunks: Seq<Seq<char>>) -> Seq<NodeDesc>
    decreases chunks.len(),
{
    if chunks.len() == 0 {
        Seq::empty()
    } else {
        put_desc(descs_of(chunks.drop_last()), node_desc(chunks.last()))
    }
}

/// The `<node ` chunks of a snapshot.
pub open spec fn node_chunks(xml: Seq<char>) -> Seq<Seq<char>> {
    match split_section(xml, "<nodes>"@, "</nodes>"@) {
        Some(sec) => split(sec, "<node "@).skip(1),
        None => Seq::empty(),
    }
}

/// The `<edge ` chunks of a snapshot.
pub open spec fn edge_chunks(xml: Seq<char>) -> Seq<Seq<char>> {
    let sec = match split_section(xml, "<edges>"@, "</edges>"@) {
        Some(t) => t,
        None => Seq::empty(),
    };
    split(sec, "<edge "@).skip(1)
}

/// Whether a graph is what a snapshot reads as: well formed, its nodes
/// described as the node chunks say (each stored under its identifier in
/// turn), and no more edges than edge chunks, each with the ends, type and
/// weight of one of them; no topics.
pub open spec fn reads_as(xml: Seq<char>, g: Graph) -> bool {
    &&& g.wf()
    &&& g.nodes@.map_values(|m: Node| desc_of(m)) == descs_of(node_chunks(xml))
    &&& g.edges@.len() <= edge_chunks(xml).len()
    &&& forall|k: int|
        0 <= k < g.edges@.len() ==> exists|j: int|
            0 <= j < edge_chunks(xml).len() && edge_desc_of(#[trigger] g.edges@[k]) == edge_desc(
                edge_chunks(xml)[j],
            )
    &&& g.topics@.len() == 0
    &&& g.current_topic_id is None
}

/// The error of the first edge chunk, from the `i`-th on, that lacks an end.
pub open spec fn edge_error(cs: Seq<Seq<char>>, i: int) -> Option<Seq<char>>
    decreases cs.len() - i,
{
    if i < 0 || i >= cs.len() {
        None
    } else if xml_attr_spec(cs[i], "from"@) is None {
        Some("Invalid XML: missing edge from"@)
    } else if xml_attr_spec(cs[i], "to"@) is None {
        Some("Invalid XML: missing edge to"@)
    } else {
        edge_error(cs, i + 1)
    }
}

/// Why a snapshot cannot be read, if it cannot: no nodes section, a node
/// without identifier, or an edge without an end.
pub open spec fn graph_xml_error(xml: Seq<char>) -> Option<Seq<char>> {
    match split_section(xml, "<nodes>"@, "</nodes>"@) {
        None => Some("Invalid XML: missing nodes section"@),
        Some(_) => if exists|i: int|
            0 <= i < node_chunks(xml).len() && xml_attr_spec(#[trigger] node_chunks(xml)[i], "id"@)
                is None {
            Some("Invalid XML: missing node id"@)
        } else {
            edge_error(edge_chunks(xml), 0)
        },
    }
}

/// Storing a node under its identifier stores its description the same
/// way.
pub proof fn lemma_put_node_desc(ns: Seq<Node>, n: Node)
    ensures
        put_node(ns, n).map_values(|m: Node| desc_of(m)) == put_desc(
            ns.map_values(|m: Node| desc_of(m)),
            desc_of(n),
        ),
{
    let ds = ns.map_values(|m: Node| desc_of(m));
    assert(ds.map_values(|x: NodeDesc| x.0) =~= node_ids(ns));
    if node_ids(ns).contains(n.id@) {
        assert(put_node(ns, n).map_values(|m: Node| desc_of(m)) =~= ds.update(
            node_ids(ns).index_of(n.id@),
            desc_of(n),
        ));
    } else {
        assert(put_node(ns, n).map_values(|m: Node| desc_of(m)) =~= ds.push(desc_of(n)));
    }
}

/// The first piece of a split is always there.
pub proof fn lemma_split_first(s: Seq<char>, sep: Seq<char>)
    requires
        sep.len() > 0,
    ensures
        split(s, sep).len() >= 1,
{
}

/// The text of `split_section` (see there).
fn split_section_exec(s: &[char], open: &str, close: &str) -> (r: Option<Vec<char>>)
    requires
        open@.len() > 0,
        close@.len() > 0,
    ensures
        match r {
            Some(v) => split_section(s@, open@, close@) == Some(v@),
            None => split_section(s@, open@, close@) is None,
        },
{
    let o = chars_of(open);
    let c = chars_of(close);
    let parts = split_exec(s, o.as_slice());
    if parts.len() > 1 {
        assert(parts@.map_values(|x: Vec<char>| x@)[1] == parts@[1]@);
        let inner = split_exec(parts[1].as_slice(), c.as_slice());
        proof {
            lemma_split_first(parts@[1]@, c@);
        }
        assert(inner@.map_values(|x: Vec<char>| x@)[0] == inner@[0]@);
        let first = crate::text::slice_vec(inner[0].as_slice(), 0, inner[0].len());
        assert(inner@[0]@.subrange(0, inner@[0]@.len() as int) =~= inner@[0]@);
        Some(first)
    } else {
        None
    }
}

/// Reads an attribute as an `i32`, or a default (see `attr_i32`).
fn read_attr_i32(chunk: &str, name: &str, default: i32) -> (v: i32)
    ensures
        v == attr_i32(chunk@, name@, default),
{
    match extract_xml_attr(chunk, name) {
        Some(t) => match parse_i32(t.as_str()) {
            Some(v) => v,
            None => default,
        },
        None => default,
    }
}

/// Reads an attribute in thousandths, or one (see `attr_thousandths`).
fn read_attr_thousandths(chunk: &str, name: &str) -> (v: u32)
    ensures
        v == attr_thousandths(chunk@, name@),
{
    match extract_xml_attr(chunk, name) {
        Some(t) => match parse_thousandths(t.as_str()) {
            Some(v) => v,
            None => 1000,
        },
        None => 1000,
    }
}

/// The node of a chunk that has an identifier (see `node_desc`): a draft
/// whose question is its content, then given the identifier and status.
fn node_of_chunk(chunk: &str, id: String) -> (n: Node)
    requires
        xml_attr_spec(chunk@, "id"@) == Some(id@),
    ensures
        desc_of(n) == node_desc(chunk@),
        n.question@ == n.content@,
        n.complexity == 0,
{
    let step = read_attr_i32(chunk, "step", 1);
    let weight = read_attr_thousandths(chunk, "weight");
    let confidence = read_attr_thousandths(chunk, "confidence");
    let c = chars_of(chunk);
    proof {
        reveal_strlit("<content><![CDATA[");
        reveal_strlit("]]></content>");
    }
    let content = match split_section_exec(c.as_slice(), "<content><![CDATA[", "]]></content>") {
        Some(v) => string_of(v.as_slice()),
        None => String::new(),
    };
    let status = match extract_xml_attr(chunk, "status") {
        Some(t) => match parse_node_status(t.as_str()) {
            Some(st) => st,
            None => NodeStatus::Active,
        },
        None => NodeStatus::Active,
    };
    let mut node = Node::new_with(content.clone(), step, content, weight, confidence, 0);
    node.id = id;
    node.status = status;
    node
}

/// Reads a graph back from a snapshot. Nodes come first, each stored
/// under its identifier; then edges, each made anew (with a fresh
/// identifier) from its ends, type and weight and added to the graph.
/// Fails, with the reason `graph_xml_error` gives, on a snapshot without
/// nodes section, with a node without identifier or an edge without an end.
pub fn graph_from_xml(xml: &str) -> (r: Result<Graph, String>)
    ensures
        match r {
            Err(e) => graph_xml_error(xml@) == Some(e@),
            Ok(g) => graph_xml_error(xml@) is None && reads_as(xml@, g),
        },
{
    proof {
        reveal_strlit("<nodes>");
        reveal_strlit("</nodes>");
        reveal_strlit("<node ");
        reveal_strlit("<edges>");
        reveal_strlit("</edges>");
        reveal_strlit("<edge ");
    }
    let x = chars_of(xml);
    let sec = match split_section_exec(x.as_slice(), "<nodes>", "</nodes>") {
        Some(v) => v,
        None => {
            return Err(String::from_str("Invalid XML: missing nodes section"));
        },
    };
    let node_open = chars_of("<node ");
    let chunks = split_exec(sec.as_slice(), node_open.as_slice());
    proof {
        lemma_split_first(sec@, node_open@);
    }
    let ghost cv = chunks@.map_values(|v: Vec<char>| v@);
    let ghost nc = node_chunks(xml@);
    assert(nc =~= cv.skip(1));
    let mut graph = Graph::new();
    assert(graph.nodes@.map_values(|m: Node| desc_of(m)) =~= Seq::<NodeDesc>::empty());
    assert(nc.take(0) =~= Seq::<Seq<char>>::empty());
    let mut i: usize = 1;
    while i < chunks.len()
        invariant
            1 <= i <= chunks@.len(),
            cv == chunks@.map_values(|v: Vec<char>| v@),
            nc == cv.skip(1),
            nc == node_chunks(xml@),
            split_section(xml@, "<nodes>"@, "</nodes>"@) is Some,
            graph.wf(),
            graph.edges@.len() == 0,
            graph.topics@.len() == 0,
            graph.current_topic_id is None,
            graph.nodes@.map_values(|m: Node| desc_of(m)) == descs_of(nc.take(i - 1)),
            forall|j: int| 0 <= j < i - 1 ==> xml_attr_spec(#[trigger] nc[j], "id"@) is Some,
        decreases chunks.len() - i,
    {
        let chunk = string_of(chunks[i].as_slice());
        assert(chunk@ == nc[i - 1]);
        let id = match extract_xml_attr(chunk.as_str(), "id") {
            Some(v) => v,
            None => {
                assert(xml_attr_spec(nc[i - 1], "id"@) is None);
                return Err(String::from_str("Invalid XML: missing node id"));
            },
        };
        let node = node_of_chunk(chunk.as_str(), id);
        let ghost n = node;
        let ghost before = graph.nodes@;
        graph.add_node(node);
        proof {
            lemma_put_node_desc(before, n);
            assert(nc.take(i as int).drop_last() =~= nc.take(i - 1));
        }
        i = i + 1;
    }
    assert(nc.take(chunks@.len() - 1) =~= nc);
    let ghost node_descs = graph.nodes@.map_values(|m: Node| desc_of(m));
    let ghost keys = node_ids(graph.nodes@);
    let esec = match split_section_exec(x.as_slice(), "<edges>", "</edges>") {
        Some(v) => v,
        None => Vec::new(),
    };
    let edge_open = chars_of("<edge ");
    let echunks = split_exec(esec.as_slice(), edge_open.as_slice());
    proof {
        lemma_split_first(esec@, edge_open@);
    }
    let ghost ev = echunks@.map_values(|v: Vec<char>| v@);
    let ghost ec = edge_chunks(xml@);
    assert(ec =~= ev.skip(1));
    let mut k: usize = 1;
    while k < echunks.len()
        invariant
            1 <= k <= echunks@.len(),
            ev == echunks@.map_values(|v: Vec<char>| v@),
            ec == ev.skip(1),
            ec == edge_chunks(xml@),
            split_section(xml@, "<nodes>"@, "</nodes>"@) is Some,
            forall|j: int|
                0 <= j < node_chunks(xml@).len() ==> xml_attr_spec(
                    #[trigger] node_chunks(xml@)[j],
                    "id"@,
                ) is Some,
            graph.wf(),
            graph.topics@.len() == 0,
            graph.current_topic_id is None,
            graph.nodes@.map_values(|m: Node| desc_of(m)) == node_descs,
            graph.edges@.len() <= k - 1,
            forall|m: int|
                0 <= m < graph.edges@.len() ==> exists|j: int|
                    0 <= j < ec.len() && edge_desc_of(#[trigger] graph.edges@[m]) == edge_desc(
                        ec[j],
                    ),
            edge_error(ec, 0) == edge_error(ec, k - 1),
        decreases echunks.len() - k,
    {
        let chunk = string_of(echunks[k].as_slice());
        assert(chunk@ == ec[k - 1]);
        let from = match extract_xml_attr(chunk.as_str(), "from") {
            Some(v) => v,
            None => {
                return Err(String::from_str("Invalid XML: missing edge from"));
            },
        };
        let to = match extract_xml_attr(chunk.as_str(), "to") {
            Some(v) => v,
            None => {
                return Err(String::from_str("Invalid XML: missing edge to"));
            },
        };
        let weight = read_attr_thousandths(chunk.as_str(), "weight");
        let edge_type = match extract_xml_attr(chunk.as_str(), "type") {
            Some(t) => match parse_edge_type(t.as_str()) {
                Some(et) => et,
                None => EdgeType::Reasoning,
            },
            None => EdgeType::Reasoning,
        };
        assert(edge_error(ec, k - 1) == edge_error(ec, k as int));
        let edge = Edge::new_with_weight(from, to, edge_type, weight);
        let ghost e = edge;
        assert(edge_desc_of(e) == edge_desc(ec[k - 1]));
        let ghost before_nodes = graph.nodes@;
        let ghost before_edges = graph.edges@;
        graph.add_edge(edge);
        proof {
            assert(graph.nodes@.map_values(|m: Node| desc_of(m)) =~= before_nodes.map_values(
                |m: Node| desc_of(m),
            )) by {
                assert forall|q: int| 0 <= q < before_nodes.len() implies desc_of(graph.nodes@[q])
                    == desc_of(before_nodes[q]) by {
                    assert(linked_node(before_nodes[q], graph.nodes@[q], e));
                }
            }
            let ek = crate::models::graph::edge_ids(before_edges);
            assert forall|m: int| 0 <= m < graph.edges@.len() implies exists|j: int|
                0 <= j < ec.len() && edge_desc_of(#[trigger] graph.edges@[m]) == edge_desc(
                    ec[j],
                ) by {
                if ek.contains(e.id@) {
                    if m == ek.index_of(e.id@) {
                        assert(edge_desc_of(graph.edges@[m]) == edge_desc(ec[k - 1]));
                    } else {
                        assert(graph.edges@[m] == before_edges[m]);
                    }
                } else if m < before_edges.len() {
                    assert(graph.edges@[m] == before_edges[m]);
                } else {
                    assert(edge_desc_of(graph.edges@[m]) == edge_desc(ec[k - 1]));
                }
            }
        }
        k = k + 1;
    }
    assert(edge_error(ec, ec.len() as int) is None);
    Ok(graph)
}

} // verus!
