//! Finding node updates in the model's replies.
use vstd::prelude::*;

use super::node_update::{from_json_spec, from_xml_spec, NodeUpdate, NodeUpdateView};
use crate::models::graph::{lemma_put_node, node_ids, Graph};
use crate::models::node::{opt_view, with_unique, Node, NodeStatus};
use crate::ollama::client::names_view;
use crate::text::{
    chars_of, find, find_exec, lemma_find_from, rfind_char, rfind_char_exec, slice_string,
    slice_vec, string_of, trim, trim_vec, decimal, push_decimal, push_str,
};

verus! {

/// Extracts node updates from replies.
pub struct NodeUpdateParser;

/// The first index of `p` in `s`, or else of `q`.
pub open spec fn find_either(s: Seq<char>, p: Seq<char>, q: Seq<char>) -> Option<int> {
    match find(s, p) {
        Some(i) => Some(i),
        None => find(s, q),
    }
}

/// The text of a fenced block that starts at `start`: from `skip` characters
/// after it up to the next "```" (or the end), trimmed.
pub open spec fn fenced_body(s: Seq<char>, start: int, skip: int) -> Seq<char> {
    let after = s.subrange(start + skip, s.len() as int);
    let end = match find(after, "```"@) {
        Some(e) => e,
        None => after.len() as int,
    };
    trim(after.subrange(0, end))
}

/// The XML text of a reply: the body of a "```xml" (or "``` xml") block,
/// taken from six characters after the block's start; failing that, the reply
/// from its first `<node_update` on (an opening tag with or without
/// attributes).
pub open spec fn xml_text(content: Seq<char>) -> Option<Seq<char>> {
    match find_either(content, "```xml"@, "``` xml"@) {
        Some(start) => if start + 6 <= content.len() {
            Some(fenced_body(content, start, 6))
        } else {
            None
        },
        None => match find(content, "<node_update"@) {
            Some(p) => Some(content.subrange(p, content.len() as int)),
            None => None,
        },
    }
}

/// The JSON text of a reply: the body of a "```json" (or "``` json") block,
/// taken from seven characters after the block's start; failing that, the
/// span from the first `{` to the last `}` where the first comes before the
/// last.
pub open spec fn json_text(content: Seq<char>) -> Option<Seq<char>> {
    match find_either(content, "```json"@, "``` json"@) {
        Some(start) => if start + 7 <= content.len() {
            Some(fenced_body(content, start, 7))
        } else {
            None
        },
        None => match (find(content, "{"@), rfind_char(content, '}')) {
            (Some(a), Some(b)) => if a < b {
                Some(content.subrange(a, b + 1))
            } else {
                None
            },
            _ => None,
        },
    }
}

/// The update that an XML block of the reply describes.
pub open spec fn extract_xml_spec(content: Seq<char>) -> Option<NodeUpdateView> {
    match xml_text(content) {
        Some(x) => from_xml_spec(x),
        None => None,
    }
}

/// The update that a JSON block of the reply describes.
pub open spec fn extract_json_spec(content: Seq<char>) -> Option<NodeUpdateView> {
    match json_text(content) {
        Some(x) => from_json_spec(x),
        None => None,
    }
}

/// The update of a reply: from its XML block, or else from its JSON.
pub open spec fn extract_spec(content: Seq<char>) -> Option<NodeUpdateView> {
    match extract_xml_spec(content) {
        Some(u) => Some(u),
        None => extract_json_spec(content),
    }
}

/// `find_either(s, p, q)`.
fn find_either_exec(s: &[char], p: &str, q: &str) -> (r: Option<usize>)
    ensures
        match r {
            Some(i) => find_either(s@, p@, q@) == Some(i as int),
            None => find_either(s@, p@, q@) is None,
        },
{
    let pv = chars_of(p);
    match find_exec(s, pv.as_slice()) {
        Some(i) => Some(i),
        None => {
            let qv = chars_of(q);
            find_exec(s, qv.as_slice())
        },
    }
}

/// `fenced_body(s, start, skip)`.
fn fenced_body_exec(s: &[char], start: usize, skip: usize) -> (r: String)
    requires
        start + skip <= s@.len(),
    ensures
        r@ == fenced_body(s@, start as int, skip as int),
{
    let n: usize = s.len();
    assert(start + skip <= n);
    let after = slice_vec(s, start + skip, n);
    let fence = chars_of("```");
    let end = match find_exec(after.as_slice(), fence.as_slice()) {
        Some(e) => {
            proof {
                assert(crate::text::find_from(after@, fence@, 0) == Some(e as int));
                lemma_find_from(after@, fence@, 0);
            }
            e
        },
        None => after.len(),
    };
    let body = slice_vec(after.as_slice(), 0, end);
    let t = trim_vec(body.as_slice());
    string_of(t.as_slice())
}

impl NodeUpdateParser {
    /// The node update of a reply: from its XML block first, from its JSON
    /// otherwise (see `extract_spec`).
    pub fn extract(content: &str) -> (r: Option<NodeUpdate>)
        ensures
            match r {
                Some(u) => extract_spec(content@) == Some(u@),
                None => extract_spec(content@) is None,
            },
    {
        if let Some(update) = Self::extract_xml(content) {
            return Some(update);
        }
        Self::extract_json(content)
    }

    /// The node update of the reply's XML block (see `extract_xml_spec`).
    pub fn extract_xml(content: &str) -> (r: Option<NodeUpdate>)
        ensures
            match r {
                Some(u) => extract_xml_spec(content@) == Some(u@),
                None => extract_xml_spec(content@) is None,
            },
    {
        let c = chars_of(content);
        let xml_content = match find_either_exec(c.as_slice(), "```xml", "``` xml") {
            Some(start) => {
                if start > c.len() || 6 > c.len() - start {
                    return None;
                }
                fenced_body_exec(c.as_slice(), start, 6)
            },
            None => {
                let tag = chars_of("<node_update");
                match find_exec(c.as_slice(), tag.as_slice()) {
                    Some(p) => {
                        proof {
                            assert(crate::text::find_from(c@, tag@, 0) == Some(p as int));
                            lemma_find_from(c@, tag@, 0);
                        }
                        slice_string(c.as_slice(), p, c.len())
                    },
                    None => return None,
                }
            },
        };
        NodeUpdate::from_xml(xml_content.as_str())
    }

    /// The node update of the reply's JSON (see `extract_json_spec`).
    pub fn extract_json(content: &str) -> (r: Option<NodeUpdate>)
        ensures
            match r {
                Some(u) => extract_json_spec(content@) == Some(u@),
                None => extract_json_spec(content@) is None,
            },
    {
        let c = chars_of(content);
        let json_content = match find_either_exec(c.as_slice(), "```json", "``` json") {
            Some(start) => {
                if start > c.len() || 7 > c.len() - start {
                    return None;
                }
                fenced_body_exec(c.as_slice(), start, 7)
            },
            None => {
                let brace = chars_of("{");
                let first = match find_exec(c.as_slice(), brace.as_slice()) {
                    Some(a) => a,
                    None => return None,
                };
                let last = match rfind_char_exec(c.as_slice(), '}') {
                    Some(b) => b,
                    None => return None,
                };
                if first < last {
                    proof {
                        crate::text::lemma_rfind_char(c@, '}', c@.len() as int);
                    }
                    slice_string(c.as_slice(), first, last + 1)
                } else {
                    return None;
                }
            },
        };
        NodeUpdate::from_json(json_content.as_str())
    }

    /// The node that an update without a target goes to (see
    /// `active_node_index`).
    pub fn find_active_node(graph: &Graph) -> (r: Option<String>)
        ensures
            match active_node_index(graph.nodes@) {
                Some(i) => r matches Some(id) && id@ == graph.nodes@[i].id@,
                None => r is None,
            },
    {
        let ghost ns = graph.nodes@;
        let a = first_index(&graph.nodes, true);
        if let Some(i) = a {
            let id = graph.nodes[i].id.clone();
            assert(active_node_index(ns) == Some(i as int));
            return Some(id);
        }
        let b = first_index(&graph.nodes, false);
        if let Some(i) = b {
            let id = graph.nodes[i].id.clone();
            assert(active_node_index(ns) == Some(i as int));
            return Some(id);
        }
        if graph.nodes.len() > 0 {
            Some(graph.nodes[0].id.clone())
        } else {
            None
        }
    }

    /// Applies an update to its node, or to the active node when it names
    /// none (see `applied_update`); reports the node's new counts.
    pub fn apply(graph: &mut Graph, update: &NodeUpdate) -> (r: Result<String, String>)
        requires
            old(graph).wf(),
        ensures
            applied_update(*old(graph), *final(graph), update@, r),
    {
        let ghost g0 = *graph;
        let target: String = match &update.node_id {
            Some(nid) => nid.clone(),
            None => match Self::find_active_node(graph) {
                Some(id) => id,
                None => {
                    return Err(String::from_str("找不到目標節點"));
                },
            },
        };
        assert(target@ == update_target(g0.nodes@, update@)->0);
        let mut n = match graph.get_node(target.as_str()) {
            Some(node) => node.copy(),
            None => {
                return Err(String::from_str("節點不存在"));
            },
        };
        let ghost n0 = g0.node_of(target@);
        let ghost fs = names_view(update.findings@);
        let limit: usize = if update.findings.len() < 5 {
            update.findings.len()
        } else {
            5
        };
        let mut i: usize = 0;
        while i < limit
            invariant
                limit <= update.findings@.len(),
                limit == capped_len(update.findings@.len()),
                i <= limit,
                fs == names_view(update.findings@),
                updated_except_lists(n0, n),
                names_view(n.key_findings@) == capped_findings(names_view(n0.key_findings@), fs.take(i as int)),
                names_view(n.relevant_topics@) == names_view(n0.relevant_topics@),
                opt_view(n.conclusion) == opt_view(n0.conclusion),
                n.status == n0.status,
            decreases limit - i,
        {
            n.add_finding(update.findings[i].clone());
            assert(fs.take(i + 1).drop_last() =~= fs.take(i as int));
            i = i + 1;
        }
        match &update.conclusion {
            Some(c) => {
                if chars_of(c.as_str()).len() > 0 {
                    n.set_conclusion(c.clone());
                }
            },
            None => {},
        }
        let ghost ts = names_view(update.topics@);
        let ghost mid = n;
        let mut k: usize = 0;
        assert(ts.take(0) =~= Seq::<Seq<char>>::empty());
        while k < update.topics.len()
            invariant
                k <= update.topics@.len(),
                ts == names_view(update.topics@),
                updated_except_lists(n0, n),
                names_view(n.key_findings@) == names_view(mid.key_findings@),
                names_view(n.relevant_topics@) == merged_topics(names_view(n0.relevant_topics@), ts.take(k as int)),
                opt_view(n.conclusion) == opt_view(mid.conclusion),
                n.status == mid.status,
            decreases update.topics.len() - k,
        {
            n.add_topic(update.topics[k].clone());
            assert(ts.take(k + 1).drop_last() =~= ts.take(k as int));
            k = k + 1;
        }
        assert(ts.take(ts.len() as int) =~= ts);
        assert(fs.take(limit as int) =~= fs.take(capped_len(fs.len()) as int));
        let nf = n.key_findings.len();
        let nt = n.relevant_topics.len();
        let ghost n1 = n;
        proof {
            lemma_put_node(g0.nodes@, n1);
        }
        graph.add_node(n);
        let mut t = String::from_str("節點 ");
        push_str(&mut t, target.as_str());
        push_str(&mut t, " 更新成功：");
        push_decimal(&mut t, nf as u64);
        push_str(&mut t, " findings, ");
        push_decimal(&mut t, nt as u64);
        push_str(&mut t, " topics");
        assert(t@ =~= update_report(target@, n1));
        assert(updated_node(n0, n1, update@));
        Ok(t)
    }
}

/// Whether an update has a finding or a conclusion.
pub open spec fn update_has_content(u: NodeUpdateView) -> bool {
    u.1.len() > 0 || u.2 is Some
}

/// Applies the node update that a reply carries (see `applied_update`);
/// an error, with the graph untouched, when the reply has none with a
/// finding or a conclusion.
pub fn apply_node_update(graph: &mut Graph, content: &str) -> (r: Result<String, String>)
    requires
        old(graph).wf(),
    ensures
        match extract_spec(content@) {
            Some(u) => if update_has_content(u) {
                applied_update(*old(graph), *final(graph), u, r)
            } else {
                *final(graph) == *old(graph) && (r matches Err(t) && t@ == "No valid NodeUpdate found"@)
            },
            None => *final(graph) == *old(graph) && (r matches Err(t) && t@ == "No valid NodeUpdate found"@),
        },
{
    match NodeUpdateParser::extract(content) {
        Some(u) => {
            if u.has_content() {
                NodeUpdateParser::apply(graph, &u)
            } else {
                Err(String::from_str("No valid NodeUpdate found"))
            }
        },
        None => Err(String::from_str("No valid NodeUpdate found")),
    }
}

/// Whether a node is draft or active.
pub open spec fn is_open(n: Node) -> bool {
    n.status == NodeStatus::Active || n.status == NodeStatus::Draft
}

/// Whether a node is draft or active and has findings (`findings`), or just
/// draft or active (else).
pub open spec fn wanted(n: Node, findings: bool) -> bool {
    is_open(n) && (!findings || n.key_findings@.len() > 0)
}

/// The first index from `i` on of a node that is wanted.
pub open spec fn first_wanted(ns: Seq<Node>, findings: bool, i: int) -> Option<int>
    decreases ns.len() - i,
{
    if i < 0 || i >= ns.len() {
        None
    } else if wanted(ns[i], findings) {
        Some(i)
    } else {
        first_wanted(ns, findings, i + 1)
    }
}

/// The node an update without a target goes to: the first draft or active
/// node with findings, else the first draft or active node, else the first
/// node.
pub open spec fn active_node_index(ns: Seq<Node>) -> Option<int> {
    match first_wanted(ns, true, 0) {
        Some(i) => Some(i),
        None => match first_wanted(ns, false, 0) {
            Some(i) => Some(i),
            None => if ns.len() > 0 {
                Some(0)
            } else {
                None
            },
        },
    }
}

/// The first wanted node (see `first_wanted`).
fn first_index(nodes: &Vec<Node>, findings: bool) -> (r: Option<usize>)
    ensures
        match first_wanted(nodes@, findings, 0) {
            Some(i) => r matches Some(k) && k == i,
            None => r is None,
        },
        r matches Some(i) ==> i < nodes@.len(),
{
    let mut i: usize = 0;
    while i < nodes.len()
        invariant
            i <= nodes@.len(),
            first_wanted(nodes@, findings, i as int) == first_wanted(nodes@, findings, 0),
        decreases nodes.len() - i,
    {
        let n = &nodes[i];
        let open = n.status == NodeStatus::Active || n.status == NodeStatus::Draft;
        if open && (!findings || n.key_findings.len() > 0) {
            return Some(i);
        }
        i = i + 1;
    }
    None
}

/// The node an update goes to: the one it names, else the active node.
pub open spec fn update_target(ns: Seq<Node>, u: NodeUpdateView) -> Option<Seq<char>> {
    match u.0 {
        Some(id) => Some(id),
        None => match active_node_index(ns) {
            Some(i) => Some(ns[i].id@),
            None => None,
        },
    }
}

/// At most five.
pub open spec fn capped_len(n: nat) -> nat {
    if n < 5 {
        n
    } else {
        5
    }
}

/// Findings added one by one, each unless there are five already or it is
/// there.
pub open spec fn capped_findings(v: Seq<Seq<char>>, items: Seq<Seq<char>>) -> Seq<Seq<char>>
    decreases items.len(),
{
    if items.len() == 0 {
        v
    } else {
        let w = capped_findings(v, items.drop_last());
        if w.len() < 5 {
            with_unique(w, items.last())
        } else {
            w
        }
    }
}

/// Topics added one by one, each unless it is there.
pub open spec fn merged_topics(v: Seq<Seq<char>>, items: Seq<Seq<char>>) -> Seq<Seq<char>>
    decreases items.len(),
{
    if items.len() == 0 {
        v
    } else {
        with_unique(merged_topics(v, items.drop_last()), items.last())
    }
}

/// Whether `b` keeps all of `a` but its findings, topics, conclusion and
/// status.
pub open spec fn updated_except_lists(a: Node, b: Node) -> bool {
    &&& a.id@ == b.id@
    &&& a.step == b.step
    &&& a.question@ == b.question@
    &&& a.content@ == b.content@
    &&& a.weight == b.weight
    &&& a.confidence == b.confidence
    &&& a.complexity == b.complexity
    &&& names_view(a.parent_edges@) == names_view(b.parent_edges@)
    &&& names_view(a.child_edges@) == names_view(b.child_edges@)
    &&& opt_view(a.feedback_result) == opt_view(b.feedback_result)
    &&& opt_view(a.feedback_timestamp) == opt_view(b.feedback_timestamp)
}

/// How an update changes a node: its first five findings added (see
/// `capped_findings`), its topics added, and a non-empty conclusion set,
/// which locks the node.
pub open spec fn updated_node(a: Node, b: Node, u: NodeUpdateView) -> bool {
    &&& updated_except_lists(a, b)
    &&& names_view(b.key_findings@) == capped_findings(names_view(a.key_findings@), u.1.take(capped_len(u.1.len()) as int))
    &&& names_view(b.relevant_topics@) == merged_topics(names_view(a.relevant_topics@), u.3)
    &&& match u.2 {
        Some(c) => if c.len() > 0 {
            opt_view(b.conclusion) == Some(c) && b.status == NodeStatus::Locked
        } else {
            opt_view(b.conclusion) == opt_view(a.conclusion) && b.status == a.status
        },
        None => opt_view(b.conclusion) == opt_view(a.conclusion) && b.status == a.status,
    }
}

/// The report of an update.
pub open spec fn update_report(target: Seq<char>, n: Node) -> Seq<char> {
    "節點 "@ + target + " 更新成功："@ + decimal(n.key_findings@.len()) + " findings, "@ + decimal(
        n.relevant_topics@.len(),
    ) + " topics"@
}

/// What applying an update does: an error when no node can be aimed at or
/// the one named is not there, the graph untouched; else the node updated
/// (see `updated_node`) in its place and its new counts reported.
pub open spec fn applied_update(g0: Graph, g1: Graph, u: NodeUpdateView, r: Result<String, String>) -> bool {
    match update_target(g0.nodes@, u) {
        None => g1 == g0 && (r matches Err(t) && t@ == "找不到目標節點"@),
        Some(target) => if !g0.has_node(target) {
            g1 == g0 && (r matches Err(t) && t@ == "節點不存在"@)
        } else {
            let i = node_ids(g0.nodes@).index_of(target);
            let n1 = g1.nodes@[i];
            &&& g1.wf()
            &&& g1.nodes@ == g0.nodes@.update(i, n1)
            &&& updated_node(g0.nodes@[i], n1, u)
            &&& g1.edges == g0.edges
            &&& g1.topics == g0.topics
            &&& g1.current_topic_id == g0.current_topic_id
            &&& r matches Ok(t) && t@ == update_report(target, n1)
        },
    }
}

} // verus!
