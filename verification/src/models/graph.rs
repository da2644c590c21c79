//! Per-topic phases of the reasoning graph.
use vstd::prelude::*;

use crate::controller::gemma_controller::{phase_for_count, question_phase_name, QuestionPhase};
use crate::models::edge::{edge_view_eq, Edge};
use crate::models::node::{
    contains_string, fresh_node, node_view_eq, opt_view, other_text, same_but_edges, same_but_status, with_unique, Node, NodeStatus,
};
use crate::ollama::client::{clone_strings, names_view};
use crate::stamp::{new_uuid, utc_now};

verus! {

/// The phase of one topic, chosen from its node count.
#[derive(Debug, Clone, Copy, PartialEq, Eq, Structural)]
pub enum TopicPhase {
    /// Fewer than 3 nodes.
    Exploration,
    /// 3 to 10 nodes.
    Development,
    /// More than 10 nodes.
    Mature,
}

/// The question phase that a topic phase stands for.
pub open spec fn as_question_phase(p: TopicPhase) -> QuestionPhase {
    match p {
        TopicPhase::Exploration => QuestionPhase::Exploration,
        TopicPhase::Development => QuestionPhase::Development,
        TopicPhase::Mature => QuestionPhase::Mature,
    }
}

/// The topic phase for a node count.
pub open spec fn topic_phase_for_count(count: nat) -> TopicPhase {
    if count < 3 {
        TopicPhase::Exploration
    } else if count <= 10 {
        TopicPhase::Development
    } else {
        TopicPhase::Mature
    }
}

impl TopicPhase {
    /// The phase for a node count: under 3 exploration, up to 10 development,
    /// beyond that maturity.
    pub fn from_node_count(count: usize) -> (p: Self)
        ensures
            p == topic_phase_for_count(count as nat),
    {
        if count < 3 {
            TopicPhase::Exploration
        } else if count <= 10 {
            TopicPhase::Development
        } else {
            TopicPhase::Mature
        }
    }

    /// The phase's name.
    pub fn name(&self) -> (s: &'static str)
        ensures
            s@ == question_phase_name(as_question_phase(*self)),
    {
        match self {
            TopicPhase::Exploration => "探索期",
            TopicPhase::Development => "發展期",
            TopicPhase::Mature => "成熟期",
        }
    }

    /// The question phase of the same stage.
    pub fn to_question_phase(&self) -> (q: QuestionPhase)
        ensures
            q == as_question_phase(*self),
    {
        match self {
            TopicPhase::Exploration => QuestionPhase::Exploration,
            TopicPhase::Development => QuestionPhase::Development,
            TopicPhase::Mature => QuestionPhase::Mature,
        }
    }
}

/// A topic's phase and the controller's question phase divide node counts
/// the same way and bear the same names.
pub proof fn lemma_topic_phase_agrees(count: nat)
    ensures
        as_question_phase(topic_phase_for_count(count)) == phase_for_count(count),
        question_phase_name(as_question_phase(topic_phase_for_count(count))) == question_phase_name(
            phase_for_count(count),
        ),
{
}

/// A topic: one direction of exploration, with its own root node.
#[derive(Debug)]
pub struct Topic {
    /// The topic's identifier.
    pub id: String,
    /// The identifier of its root node.
    pub root_node_id: String,
    /// Its title.
    pub title: String,
    /// When it was created, in RFC 3339.
    pub created_at: String,
}

impl Topic {
    /// A new topic created now.
    pub fn new(id: String, root_node_id: String, title: String) -> (t: Topic)
        ensures
            t.id == id,
            t.root_node_id == root_node_id,
            t.title == title,
    {
        Topic { id, root_node_id, title, created_at: utc_now() }
    }

    /// A copy of the topic.
    pub fn copy(&self) -> (t: Topic)
        ensures
            t.id@ == self.id@,
            t.root_node_id@ == self.root_node_id@,
            t.title@ == self.title@,
            t.created_at@ == self.created_at@,
    {
        Topic {
            id: self.id.clone(),
            root_node_id: self.root_node_id.clone(),
            title: self.title.clone(),
            created_at: self.created_at.clone(),
        }
    }
}

/// The identifiers of nodes, in order.
pub open spec fn node_ids(ns: Seq<Node>) -> Seq<Seq<char>> {
    ns.map_values(|n: Node| n.id@)
}

/// The identifiers of edges, in order.
pub open spec fn edge_ids(es: Seq<Edge>) -> Seq<Seq<char>> {
    es.map_values(|e: Edge| e.id@)
}

/// The identifiers of topics, in order.
pub open spec fn topic_ids(ts: Seq<Topic>) -> Seq<Seq<char>> {
    ts.map_values(|t: Topic| t.id@)
}

/// The nodes with `n` stored under its identifier: in place of the node
/// of the same identifier, or at the end.
pub open spec fn put_node(ns: Seq<Node>, n: Node) -> Seq<Node> {
    if node_ids(ns).contains(n.id@) {
        ns.update(node_ids(ns).index_of(n.id@), n)
    } else {
        ns.push(n)
    }
}

/// The edges with `e` stored under its identifier.
pub open spec fn put_edge(es: Seq<Edge>, e: Edge) -> Seq<Edge> {
    if edge_ids(es).contains(e.id@) {
        es.update(edge_ids(es).index_of(e.id@), e)
    } else {
        es.push(e)
    }
}

/// How adding edge `e` changes node `a` into `b`: the edge goes into the
/// outgoing list of its source and the incoming list of its target.
pub open spec fn linked_node(a: Node, b: Node, e: Edge) -> bool {
    &&& same_but_edges(a, b)
    &&& names_view(b.child_edges@) == (if a.id@ == e.from@ {
        with_unique(names_view(a.child_edges@), e.id@)
    } else {
        names_view(a.child_edges@)
    })
    &&& names_view(b.parent_edges@) == (if a.id@ == e.to@ {
        with_unique(names_view(a.parent_edges@), e.id@)
    } else {
        names_view(a.parent_edges@)
    })
}

/// How removing edge `e` changes node `a` into `b`: the edge leaves the
/// outgoing list of its source and the incoming list of its target.
pub open spec fn unlinked_node(a: Node, b: Node, e: Edge) -> bool {
    &&& same_but_edges(a, b)
    &&& names_view(b.child_edges@) == (if a.id@ == e.from@ {
        names_view(a.child_edges@).filter(other_text(e.id@))
    } else {
        names_view(a.child_edges@)
    })
    &&& names_view(b.parent_edges@) == (if a.id@ == e.to@ {
        names_view(a.parent_edges@).filter(other_text(e.id@))
    } else {
        names_view(a.parent_edges@)
    })
}

/// In a list without repetitions, the place of an element is its index.
pub proof fn lemma_unique_index(keys: Seq<Seq<char>>, i: int)
    requires
        keys.no_duplicates(),
        0 <= i < keys.len(),
    ensures
        keys.contains(keys[i]),
        keys.index_of(keys[i]) == i,
{
    assert(keys.contains(keys[i]));
    let j = keys.index_of(keys[i]);
    assert(0 <= j < keys.len() && keys[j] == keys[i]);
}

/// A list of edge identifiers with one identifier added (once) or dropped.
pub open spec fn edited_list(l: Seq<Seq<char>>, eid: Seq<char>, add: bool) -> Seq<Seq<char>> {
    if add {
        with_unique(l, eid)
    } else {
        l.filter(other_text(eid))
    }
}

/// How editing one list of the node of identifier `key` changes node `a`
/// into `b`: the outgoing list where `outgoing`, the incoming one otherwise.
pub open spec fn edited_node(
    a: Node,
    b: Node,
    key: Seq<char>,
    eid: Seq<char>,
    outgoing: bool,
    add: bool,
) -> bool {
    &&& same_but_edges(a, b)
    &&& if outgoing {
        &&& b.parent_edges == a.parent_edges
        &&& names_view(b.child_edges@) == (if a.id@ == key {
            edited_list(names_view(a.child_edges@), eid, add)
        } else {
            names_view(a.child_edges@)
        })
    } else {
        &&& b.child_edges == a.child_edges
        &&& names_view(b.parent_edges@) == (if a.id@ == key {
            edited_list(names_view(a.parent_edges@), eid, add)
        } else {
            names_view(a.parent_edges@)
        })
    }
}

/// The place of the node with an identifier.
fn find_node(nodes: &Vec<Node>, id: &str) -> (r: Option<usize>)
    ensures
        match r {
            Some(i) => i < nodes@.len() && nodes@[i as int].id@ == id@,
            None => !node_ids(nodes@).contains(id@),
        },
{
    let key = String::from_str(id);
    let mut i: usize = 0;
    while i < nodes.len()
        invariant
            i <= nodes@.len(),
            key@ == id@,
            forall|j: int| 0 <= j < i ==> node_ids(nodes@)[j] != id@,
        decreases nodes.len() - i,
    {
        if nodes[i].id == key {
            return Some(i);
        }
        i = i + 1;
    }
    None
}

/// Adds `eid` to (or drops it from) one edge list of the node of
/// identifier `key`, if there is one.
fn edit_node_edges(nodes: &mut Vec<Node>, key: &str, eid: &str, outgoing: bool, add: bool)
    requires
        node_ids(old(nodes)@).no_duplicates(),
    ensures
        final(nodes)@.len() == old(nodes)@.len(),
        node_ids(final(nodes)@) == node_ids(old(nodes)@),
        forall|k: int|
            0 <= k < old(nodes)@.len() ==> edited_node(
                #[trigger] old(nodes)@[k],
                final(nodes)@[k],
                key@,
                eid@,
                outgoing,
                add,
            ),
{
    let ghost before = nodes@;
    let ghost keys = node_ids(nodes@);
    match find_node(nodes, key) {
        Some(i) => {
            let mut n = nodes.remove(i);
            if outgoing {
                if add {
                    n.add_child_edge(String::from_str(eid));
                } else {
                    n.remove_child_edge(eid);
                }
            } else {
                if add {
                    n.add_parent_edge(String::from_str(eid));
                } else {
                    n.remove_parent_edge(eid);
                }
            }
            nodes.insert(i, n);
            assert forall|k: int| 0 <= k < before.len() implies edited_node(
                #[trigger] before[k],
                nodes@[k],
                key@,
                eid@,
                outgoing,
                add,
            ) by {
                if k != i {
                    assert(nodes@[k] == before[k]);
                    assert(keys[k] != keys[i as int]);
                }
            }
        },
        None => {
            assert forall|k: int| 0 <= k < before.len() implies edited_node(
                #[trigger] before[k],
                nodes@[k],
                key@,
                eid@,
                outgoing,
                add,
            ) by {
                assert(keys[k] == before[k].id@);
            }
        },
    }
    assert(node_ids(nodes@) =~= keys);
}

/// Edges that touch the node of an identifier.
pub open spec fn touches(id: Seq<char>) -> spec_fn(Edge) -> bool {
    |e: Edge| e.from@ == id || e.to@ == id
}

/// Edges that do not touch the node of an identifier.
pub open spec fn avoids(id: Seq<char>) -> spec_fn(Edge) -> bool {
    |e: Edge| !(e.from@ == id || e.to@ == id)
}

/// Whether one of the removed edges has identifier `eid` and leaves node
/// `x` (where `outgoing`) or reaches it.
pub open spec fn cut_edge(removed: Seq<Edge>, x: Seq<char>, eid: Seq<char>, outgoing: bool) -> bool {
    exists|j: int|
        0 <= j < removed.len() && #[trigger] removed[j].id@ == eid && (if outgoing {
            removed[j].from@ == x
        } else {
            removed[j].to@ == x
        })
}

/// Edge identifiers of node `x` that no removed edge takes away.
pub open spec fn uncut(removed: Seq<Edge>, x: Seq<char>, outgoing: bool) -> spec_fn(Seq<char>) -> bool {
    |eid: Seq<char>| !cut_edge(removed, x, eid, outgoing)
}

/// How removing a set of edges changes node `a` into `b`: each removed edge
/// leaves the outgoing list of its source and the incoming list of its
/// target.
pub open spec fn detached_node(a: Node, b: Node, removed: Seq<Edge>) -> bool {
    &&& same_but_edges(a, b)
    &&& names_view(b.child_edges@) == names_view(a.child_edges@).filter(uncut(removed, a.id@, true))
    &&& names_view(b.parent_edges@) == names_view(a.parent_edges@).filter(
        uncut(removed, a.id@, false),
    )
}

/// The place in the old list of the `k`-th node left after the node at
/// `gone` was taken out.
pub open spec fn after_gap(k: int, gone: int) -> int {
    if k < gone {
        k
    } else {
        k + 1
    }
}

/// Filtering keeps identifiers unique, and keeps only identifiers there
/// were.
pub proof fn lemma_filter_unique_edges(s: Seq<Edge>, p: spec_fn(Edge) -> bool)
    requires
        edge_ids(s).no_duplicates(),
    ensures
        edge_ids(s.filter(p)).no_duplicates(),
        forall|x: Seq<char>| edge_ids(s.filter(p)).contains(x) ==> edge_ids(s).contains(x),
    decreases s.len(),
{
    if s.len() == 0 {
        assert(s.filter(p) =~= Seq::<Edge>::empty()) by {
            reveal(Seq::filter);
        }
        assert(edge_ids(s.filter(p)) =~= Seq::<Seq<char>>::empty());
    } else {
        let t = s.drop_last();
        let last = s.last();
        assert(edge_ids(t) =~= edge_ids(s).drop_last());
        lemma_filter_unique_edges(t, p);
        assert(s =~= t.push(last));
        t.lemma_filter_push(last, p);
        let f = t.filter(p);
        assert forall|x: Seq<char>| edge_ids(f).contains(x) implies edge_ids(t).contains(x) by {}
        if p(last) {
            assert(edge_ids(f.push(last)) =~= edge_ids(f).push(last.id@));
            assert(!edge_ids(t).contains(last.id@)) by {
                if edge_ids(t).contains(last.id@) {
                    let j = edge_ids(t).index_of(last.id@);
                    assert(edge_ids(s)[j] == edge_ids(s)[s.len() - 1]);
                }
            }
            assert forall|x: Seq<char>| edge_ids(s.filter(p)).contains(x) implies edge_ids(s).contains(x) by {
                let j = choose|j: int| 0 <= j < edge_ids(s.filter(p)).len() && edge_ids(s.filter(p))[j] == x;
                if j < f.len() {
                    assert(edge_ids(f)[j] == x);
                    assert(edge_ids(f).contains(x));
                    let m = edge_ids(t).index_of(x);
                    assert(edge_ids(s)[m] == x);
                } else {
                    assert(edge_ids(s)[s.len() - 1] == x);
                }
            }
        } else {
            assert forall|x: Seq<char>| edge_ids(s.filter(p)).contains(x) implies edge_ids(s).contains(x) by {
                let m = edge_ids(t).index_of(x);
                assert(edge_ids(s)[m] == x);
            }
        }
    }
}

/// Whether one of the removed edges takes `eid` away from node `x`.
fn is_cut(removed: &Vec<Edge>, x: &String, eid: &String, outgoing: bool) -> (b: bool)
    ensures
        b == cut_edge(removed@, x@, eid@, outgoing),
{
    let mut j: usize = 0;
    while j < removed.len()
        invariant
            j <= removed@.len(),
            forall|m: int|
                0 <= m < j ==> !(#[trigger] removed@[m].id@ == eid@ && (if outgoing {
                    removed@[m].from@ == x@
                } else {
                    removed@[m].to@ == x@
                })),
        decreases removed.len() - j,
    {
        let end_matches = if outgoing {
            removed[j].from == *x
        } else {
            removed[j].to == *x
        };
        if removed[j].id == *eid && end_matches {
            return true;
        }
        j = j + 1;
    }
    false
}

/// Drops from an edge list of node `x` the identifiers that the removed
/// edges take away.
fn drop_cut(list: &mut Vec<String>, removed: &Vec<Edge>, x: &String, outgoing: bool)
    ensures
        names_view(final(list)@) == names_view(old(list)@).filter(uncut(removed@, x@, outgoing)),
{
    let ghost src = names_view(list@);
    let ghost p = uncut(removed@, x@, outgoing);
    let mut kept: Vec<String> = Vec::new();
    let mut i: usize = 0;
    assert(src.take(0) =~= Seq::<Seq<char>>::empty());
    assert(Seq::<Seq<char>>::empty().filter(p) =~= Seq::<Seq<char>>::empty()) by {
        reveal(Seq::filter);
    }
    while i < list.len()
        invariant
            i <= list@.len(),
            src == names_view(list@),
            p == uncut(removed@, x@, outgoing),
            names_view(kept@) == src.take(i as int).filter(p),
        decreases list.len() - i,
    {
        proof {
            assert(src.take(i + 1) =~= src.take(i as int).push(src[i as int]));
            src.take(i as int).lemma_filter_push(src[i as int], p);
        }
        if !is_cut(removed, x, &list[i], outgoing) {
            let ghost before = names_view(kept@);
            let c = list[i].clone();
            kept.push(c);
            assert(names_view(kept@) =~= before.push(src[i as int]));
        }
        i = i + 1;
    }
    assert(src.take(list@.len() as int) =~= src);
    *list = kept;
}

/// The nodes at the other end of the listed edges, in order: the targets
/// where `outgoing`, the sources otherwise. An identifier without an edge,
/// or an edge whose other end is missing, gives nothing.
pub open spec fn linked_nodes(g: Graph, eids: Seq<Seq<char>>, outgoing: bool) -> Seq<Node>
    decreases eids.len(),
{
    if eids.len() == 0 {
        Seq::empty()
    } else {
        let rest = linked_nodes(g, eids.drop_last(), outgoing);
        let c = eids.last();
        if g.has_edge(c) {
            let other = if outgoing {
                g.edge_of(c).to@
            } else {
                g.edge_of(c).from@
            };
            if g.has_node(other) {
                rest.push(g.node_of(other))
            } else {
                rest
            }
        } else {
            rest
        }
    }
}

/// Nodes without incoming edges.
pub open spec fn is_root_node() -> spec_fn(Node) -> bool {
    |n: Node| n.parent_edges@.len() == 0
}

/// Nodes without outgoing edges.
pub open spec fn is_leaf_node() -> spec_fn(Node) -> bool {
    |n: Node| n.child_edges@.len() == 0
}

/// Nodes that were not pruned.
pub open spec fn is_live_node() -> spec_fn(Node) -> bool {
    |n: Node| n.status != NodeStatus::Pruned
}

/// Live nodes whose score (weight times confidence, in millionths) is
/// under the threshold.
pub open spec fn is_low_score(threshold: u64) -> spec_fn(Node) -> bool {
    |n: Node| n.status != NodeStatus::Pruned && n.weight * n.confidence < threshold
}

/// Whether the node of an identifier is there and not pruned.
pub open spec fn live_end(g: Graph, id: Seq<char>) -> bool {
    g.has_node(id) && g.node_of(id).status != NodeStatus::Pruned
}

/// Edges whose two ends are there and not pruned.
pub open spec fn is_live_edge(g: Graph) -> spec_fn(Edge) -> bool {
    |e: Edge| live_end(g, e.from@) && live_end(g, e.to@)
}

/// The sum of the complexities, in thousandths.
pub open spec fn complexity_sum(ns: Seq<Node>) -> nat
    decreases ns.len(),
{
    if ns.len() == 0 {
        0
    } else {
        complexity_sum(ns.drop_last()) + ns.last().complexity as nat
    }
}

/// The references of a list, as the values they point to.
pub open spec fn derefs(v: Seq<&Node>) -> Seq<Node> {
    v.map_values(|n: &Node| *n)
}

/// The topics with `t` stored under its identifier.
pub open spec fn put_topic(ts: Seq<Topic>, t: Topic) -> Seq<Topic> {
    if topic_ids(ts).contains(t.id@) {
        ts.update(topic_ids(ts).index_of(t.id@), t)
    } else {
        ts.push(t)
    }
}

/// Storing a node under its identifier keeps identifiers unique, and the
/// node is then the one found under its identifier.
pub proof fn lemma_put_node(ns: Seq<Node>, n: Node)
    requires
        node_ids(ns).no_duplicates(),
    ensures
        node_ids(put_node(ns, n)).no_duplicates(),
        node_ids(put_node(ns, n)).contains(n.id@),
        put_node(ns, n)[node_ids(put_node(ns, n)).index_of(n.id@)] == n,
        forall|x: Seq<char>| #[trigger]
            node_ids(put_node(ns, n)).contains(x) <==> (node_ids(ns).contains(x) || x == n.id@),
{
    let keys = node_ids(ns);
    let r = put_node(ns, n);
    if keys.contains(n.id@) {
        let i = keys.index_of(n.id@);
        assert(node_ids(r) =~= keys);
        lemma_unique_index(node_ids(r), i);
    } else {
        assert(node_ids(r) =~= keys.push(n.id@));
        lemma_unique_index(node_ids(r), ns.len() as int);
        assert forall|x: Seq<char>| #[trigger] node_ids(r).contains(x) implies (keys.contains(x)
            || x == n.id@) by {
            let j = node_ids(r).index_of(x);
            if j < ns.len() {
                assert(keys[j] == x);
            }
        }
        assert forall|x: Seq<char>| keys.contains(x) implies #[trigger] node_ids(r).contains(x) by {
            let j = keys.index_of(x);
            assert(node_ids(r)[j] == x);
        }
    }
}

/// The place of the topic with an identifier.
fn find_topic(topics: &Vec<Topic>, id: &str) -> (r: Option<usize>)
    ensures
        match r {
            Some(i) => i < topics@.len() && topics@[i as int].id@ == id@,
            None => !topic_ids(topics@).contains(id@),
        },
{
    let key = String::from_str(id);
    let mut i: usize = 0;
    while i < topics.len()
        invariant
            i <= topics@.len(),
            key@ == id@,
            forall|j: int| 0 <= j < i ==> topic_ids(topics@)[j] != id@,
        decreases topics.len() - i,
    {
        if topics[i].id == key {
            return Some(i);
        }
        i = i + 1;
    }
    None
}

/// In a topic list without repeated identifiers, the topic at a place is
/// the one found under its identifier.
pub proof fn lemma_unique_index_topic(ts: Seq<Topic>, i: int)
    requires
        topic_ids(ts).no_duplicates(),
        0 <= i < ts.len(),
    ensures
        topic_ids(ts).contains(ts[i].id@),
        topic_ids(ts).index_of(ts[i].id@) == i,
{
    assert(topic_ids(ts)[i] == ts[i].id@);
    lemma_unique_index(topic_ids(ts), i);
}

/// A sum that stops at the largest `usize`.
pub open spec fn capped(x: int) -> int {
    if x > usize::MAX {
        usize::MAX as int
    } else {
        x
    }
}

/// The nodes that the outgoing edges of a node lead to (none for an
/// unknown node).
pub open spec fn children_of(g: Graph, id: Seq<char>) -> Seq<Node> {
    if g.has_node(id) {
        linked_nodes(g, names_view(g.node_of(id).child_edges@), true)
    } else {
        Seq::empty()
    }
}

/// The number of nodes reached from `id` along child edges, itself
/// included, going at most `depth` levels down; a node reached along two
/// paths counts twice. Sums stop at the largest `usize`.
pub open spec fn reach_count(g: Graph, id: Seq<char>, depth: nat) -> int
    decreases depth, 0nat, 0nat,
{
    if depth == 0 {
        1
    } else {
        capped(1 + children_count(g, children_of(g, id), (depth - 1) as nat))
    }
}

/// The reach counts of a list of nodes, added up (stopping at the largest
/// `usize`).
pub open spec fn children_count(g: Graph, cs: Seq<Node>, depth: nat) -> int
    decreases depth, 1nat, cs.len(),
{
    if cs.len() == 0 {
        0
    } else {
        capped(children_count(g, cs.drop_last(), depth) + reach_count(g, cs.last().id@, depth))
    }
}

/// Reach counts are counts: at least one, at most the largest `usize`.
pub proof fn lemma_reach_count_bounds(g: Graph, id: Seq<char>, depth: nat)
    ensures
        1 <= reach_count(g, id, depth) <= usize::MAX,
    decreases depth, 0nat, 0nat,
{
    if depth > 0 {
        lemma_children_count_bounds(g, children_of(g, id), (depth - 1) as nat);
    }
}

/// Sums of reach counts stay between zero and the largest `usize`.
pub proof fn lemma_children_count_bounds(g: Graph, cs: Seq<Node>, depth: nat)
    ensures
        0 <= children_count(g, cs, depth) <= usize::MAX,
    decreases depth, 1nat, cs.len(),
{
    if cs.len() > 0 {
        lemma_children_count_bounds(g, cs.drop_last(), depth);
        lemma_reach_count_bounds(g, cs.last().id@, depth);
    }
}

/// Identifiers not in the visited list.
pub open spec fn not_visited(visited: Seq<Seq<char>>) -> spec_fn(Seq<char>) -> bool {
    |x: Seq<char>| !visited.contains(x)
}

/// The number of node identifiers not visited yet.
pub open spec fn unvisited(g: Graph, visited: Seq<Seq<char>>) -> nat {
    node_ids(g.nodes@).filter(not_visited(visited)).len()
}

/// The nodes that the incoming edges of a node come from (none for an
/// unknown node).
pub open spec fn parents_of(g: Graph, id: Seq<char>) -> Seq<Node> {
    if g.has_node(id) {
        linked_nodes(g, names_view(g.node_of(id).parent_edges@), false)
    } else {
        Seq::empty()
    }
}

/// A filter that lets fewer elements through, and drops one the other
/// lets through, leaves a shorter list.
pub proof fn lemma_filter_shrinks(
    s: Seq<Seq<char>>,
    wide: spec_fn(Seq<char>) -> bool,
    narrow: spec_fn(Seq<char>) -> bool,
    x: Seq<char>,
)
    requires
        forall|y: Seq<char>| #[trigger] narrow(y) ==> wide(y),
        s.contains(x),
        wide(x),
        !narrow(x),
    ensures
        s.filter(narrow).len() < s.filter(wide).len(),
    decreases s.len(),
{
    let t = s.drop_last();
    let last = s.last();
    assert(s =~= t.push(last));
    t.lemma_filter_push(last, wide);
    t.lemma_filter_push(last, narrow);
    if last == x {
        lemma_filter_no_longer(t, wide, narrow);
    } else {
        let j = s.index_of(x);
        assert(t[j] == x);
        lemma_filter_shrinks(t, wide, narrow, x);
    }
}

/// A filter that lets fewer elements through leaves no longer a list.
pub proof fn lemma_filter_no_longer(
    s: Seq<Seq<char>>,
    wide: spec_fn(Seq<char>) -> bool,
    narrow: spec_fn(Seq<char>) -> bool,
)
    requires
        forall|y: Seq<char>| #[trigger] narrow(y) ==> wide(y),
    ensures
        s.filter(narrow).len() <= s.filter(wide).len(),
    decreases s.len(),
{
    if s.len() == 0 {
        assert(s.filter(narrow) =~= Seq::<Seq<char>>::empty()) by {
            reveal(Seq::filter);
        }
    } else {
        let t = s.drop_last();
        assert(s =~= t.push(s.last()));
        t.lemma_filter_push(s.last(), wide);
        t.lemma_filter_push(s.last(), narrow);
        lemma_filter_no_longer(t, wide, narrow);
    }
}

/// Visiting a node not visited yet leaves fewer to visit.
pub proof fn lemma_visit_shrinks(g: Graph, visited: Seq<Seq<char>>, id: Seq<char>)
    requires
        g.has_node(id),
        !visited.contains(id),
    ensures
        unvisited(g, visited.push(id)) < unvisited(g, visited),
{
    assert forall|y: Seq<char>| #[trigger] not_visited(visited.push(id))(y) implies not_visited(
        visited,
    )(y) by {
        if visited.contains(y) {
            let j = visited.index_of(y);
            assert(visited.push(id)[j] == y);
        }
    }
    assert(visited.push(id)[visited.len() as int] == id);
    lemma_filter_shrinks(node_ids(g.nodes@), not_visited(visited), not_visited(visited.push(id)), id);
}

/// Every node that `linked_nodes` gives is a node of the graph, found
/// under its own identifier.
pub proof fn lemma_linked_nodes_in_graph(g: Graph, eids: Seq<Seq<char>>, outgoing: bool, k: int)
    requires
        0 <= k < linked_nodes(g, eids, outgoing).len(),
    ensures
        g.has_node(linked_nodes(g, eids, outgoing)[k].id@),
    decreases eids.len(),
{
    let rest = linked_nodes(g, eids.drop_last(), outgoing);
    if k < rest.len() {
        lemma_linked_nodes_in_graph(g, eids.drop_last(), outgoing, k);
    } else {
        let c = eids.last();
        let other = if outgoing {
            g.edge_of(c).to@
        } else {
            g.edge_of(c).from@
        };
        let i = node_ids(g.nodes@).index_of(other);
        assert(node_ids(g.nodes@)[i] == other);
        assert(g.nodes@[i].id@ == other);
    }
}

/// The depth of a node: one for a node without parents, otherwise one more
/// than its deepest parent; a node already visited (a cycle) counts zero.
pub open spec fn depth_of(g: Graph, id: Seq<char>, visited: Seq<Seq<char>>) -> int
    decreases unvisited(g, visited), 0nat, 0nat,
{
    if visited.contains(id) {
        0
    } else {
        let ps = parents_of(g, id);
        if ps.len() == 0 {
            1
        } else {
            proof {
                lemma_visit_shrinks(g, visited, id);
            }
            deepest(g, ps, visited.push(id)) + 1
        }
    }
}

/// The greatest depth among some nodes (one for none).
pub open spec fn deepest(g: Graph, ps: Seq<Node>, visited: Seq<Seq<char>>) -> int
    decreases unvisited(g, visited), 1nat, ps.len(),
{
    if ps.len() == 0 {
        1
    } else if ps.len() == 1 {
        depth_of(g, ps[0].id@, visited)
    } else {
        let a = deepest(g, ps.drop_last(), visited);
        let b = depth_of(g, ps.last().id@, visited);
        if a >= b {
            a
        } else {
            b
        }
    }
}

/// Depths lie between zero and one more than the nodes left to visit.
pub proof fn lemma_depth_bounds(g: Graph, id: Seq<char>, visited: Seq<Seq<char>>)
    ensures
        0 <= depth_of(g, id, visited) <= unvisited(g, visited) + 1,
    decreases unvisited(g, visited), 0nat, 0nat,
{
    if !visited.contains(id) && parents_of(g, id).len() > 0 {
        lemma_visit_shrinks(g, visited, id);
        lemma_deepest_bounds(g, parents_of(g, id), visited.push(id));
    }
}

/// The greatest depth among some nodes lies in the same bounds.
pub proof fn lemma_deepest_bounds(g: Graph, ps: Seq<Node>, visited: Seq<Seq<char>>)
    ensures
        0 <= deepest(g, ps, visited) <= unvisited(g, visited) + 1,
    decreases unvisited(g, visited), 1nat, ps.len(),
{
    if ps.len() == 1 {
        lemma_depth_bounds(g, ps[0].id@, visited);
    } else if ps.len() > 1 {
        lemma_deepest_bounds(g, ps.drop_last(), visited);
        lemma_depth_bounds(g, ps.last().id@, visited);
    }
}

/// The number of identifiers left to visit is at most the number of nodes.
pub proof fn lemma_unvisited_bound(g: Graph, visited: Seq<Seq<char>>)
    ensures
        unvisited(g, visited) <= g.nodes@.len(),
{
    node_ids(g.nodes@).lemma_filter_len(not_visited(visited));
}

/// Whether two topics hold the same texts.
pub open spec fn topic_view_eq(a: Topic, b: Topic) -> bool {
    &&& a.id@ == b.id@
    &&& a.root_node_id@ == b.root_node_id@
    &&& a.title@ == b.title@
    &&& a.created_at@ == b.created_at@
}

/// Whether two graphs hold the same nodes, edges and topics, in the same
/// order, and the same current topic.
pub open spec fn graph_view_eq(a: Graph, b: Graph) -> bool {
    &&& a.nodes@.len() == b.nodes@.len()
    &&& forall|i: int| 0 <= i < a.nodes@.len() ==> node_view_eq(#[trigger] a.nodes@[i], b.nodes@[i])
    &&& a.edges@.len() == b.edges@.len()
    &&& forall|i: int| 0 <= i < a.edges@.len() ==> edge_view_eq(#[trigger] a.edges@[i], b.edges@[i])
    &&& a.topics@.len() == b.topics@.len()
    &&& forall|i: int|
        0 <= i < a.topics@.len() ==> topic_view_eq(#[trigger] a.topics@[i], b.topics@[i])
    &&& opt_view(a.current_topic_id) == opt_view(b.current_topic_id)
}

/// Filtering a prefix gives a prefix of the filtered whole.
pub proof fn lemma_filter_prefix(s: Seq<Node>, k: int, p: spec_fn(Node) -> bool)
    requires
        0 <= k <= s.len(),
    ensures
        s.take(k).filter(p).len() <= s.filter(p).len(),
        s.filter(p).take(s.take(k).filter(p).len() as int) == s.take(k).filter(p),
    decreases s.len() - k,
{
    if k == s.len() {
        assert(s.take(k) =~= s);
    } else {
        lemma_filter_prefix(s, k + 1, p);
        let a = s.take(k).filter(p);
        let b = s.take(k + 1).filter(p);
        assert(s.take(k + 1) =~= s.take(k).push(s[k]));
        s.take(k).lemma_filter_push(s[k], p);
        if p(s[k]) {
            assert(b =~= a.push(s[k]));
            assert(s.filter(p).take(a.len() as int) =~= b.take(a.len() as int));
            assert(b.take(a.len() as int) =~= a);
        } else {
            assert(b =~= a);
        }
    }
}

/// How recording the feedback of an execution changes a graph: the node of
/// the identifier, if any, takes the message and a time, and the failed
/// status when the execution failed; all else stays.
pub open spec fn feedback_recorded(g0: Graph, g1: Graph, id: Seq<char>, success: bool, message: Seq<char>) -> bool {
    &&& g1.nodes@.len() == g0.nodes@.len()
    &&& forall|k: int|
        0 <= k < g0.nodes@.len() ==> if g0.nodes@[k].id@ == id {
            &&& opt_view(#[trigger] g1.nodes@[k].feedback_result) == Some(message)
            &&& g1.nodes@[k].feedback_timestamp is Some
            &&& g1.nodes@[k].status == (if success {
                g0.nodes@[k].status
            } else {
                NodeStatus::Failed
            })
            &&& g1.nodes@[k].id == g0.nodes@[k].id
            &&& g1.nodes@[k].content == g0.nodes@[k].content
            &&& g1.nodes@[k].child_edges == g0.nodes@[k].child_edges
            &&& g1.nodes@[k].parent_edges == g0.nodes@[k].parent_edges
        } else {
            g1.nodes@[k] == g0.nodes@[k]
        }
    &&& g1.edges == g0.edges
    &&& g1.topics == g0.topics
    &&& g1.current_topic_id == g0.current_topic_id
}

/// The reasoning graph: its nodes, edges and topics, each stored under
/// its identifier, and the topic being explored.
#[derive(Debug)]
pub struct Graph {
    /// The nodes.
    pub nodes: Vec<Node>,
    /// The edges.
    pub edges: Vec<Edge>,
    /// The topics.
    pub topics: Vec<Topic>,
    /// The identifier of the current topic.
    pub current_topic_id: Option<String>,
}

impl Graph {
    /// Every identifier names one node, one edge or one topic at most.
    pub open spec fn wf(&self) -> bool {
        &&& node_ids(self.nodes@).no_duplicates()
        &&& edge_ids(self.edges@).no_duplicates()
        &&& topic_ids(self.topics@).no_duplicates()
    }

    /// Whether a node has the identifier.
    pub open spec fn has_node(&self, id: Seq<char>) -> bool {
        node_ids(self.nodes@).contains(id)
    }

    /// The node of an identifier (meaningful where there is one).
    pub open spec fn node_of(&self, id: Seq<char>) -> Node {
        self.nodes@[node_ids(self.nodes@).index_of(id)]
    }

    /// Whether an edge has the identifier.
    pub open spec fn has_edge(&self, id: Seq<char>) -> bool {
        edge_ids(self.edges@).contains(id)
    }

    /// Whether a topic has the identifier.
    pub open spec fn has_topic(&self, id: Seq<char>) -> bool {
        topic_ids(self.topics@).contains(id)
    }

    /// The topic of an identifier (meaningful where there is one).
    pub open spec fn topic_of(&self, id: Seq<char>) -> Topic {
        self.topics@[topic_ids(self.topics@).index_of(id)]
    }

    /// The current topic, where the current identifier names one.
    pub open spec fn current_topic(&self) -> Option<Topic> {
        match self.current_topic_id {
            Some(id) => if self.has_topic(id@) {
                Some(self.topic_of(id@))
            } else {
                None
            },
            None => None,
        }
    }

    /// The edge of an identifier (meaningful where there is one).
    pub open spec fn edge_of(&self, id: Seq<char>) -> Edge {
        self.edges@[edge_ids(self.edges@).index_of(id)]
    }

    /// An empty graph.
    pub fn new() -> (g: Graph)
        ensures
            g.wf(),
            g.nodes@.len() == 0,
            g.edges@.len() == 0,
            g.topics@.len() == 0,
            g.current_topic_id is None,
    {
        let g = Graph {
            nodes: Vec::new(),
            edges: Vec::new(),
            topics: Vec::new(),
            current_topic_id: None,
        };
        assert(node_ids(g.nodes@) =~= Seq::<Seq<char>>::empty());
        assert(edge_ids(g.edges@) =~= Seq::<Seq<char>>::empty());
        assert(topic_ids(g.topics@) =~= Seq::<Seq<char>>::empty());
        g
    }

    /// The place of the node with an identifier.
    fn node_index(&self, id: &str) -> (r: Option<usize>)
        ensures
            match r {
                Some(i) => i < self.nodes@.len() && self.nodes@[i as int].id@ == id@,
                None => !self.has_node(id@),
            },
    {
        find_node(&self.nodes, id)
    }

    /// The place of the edge with an identifier.
    fn edge_index(&self, id: &str) -> (r: Option<usize>)
        ensures
            match r {
                Some(i) => i < self.edges@.len() && self.edges@[i as int].id@ == id@,
                None => !self.has_edge(id@),
            },
    {
        let key = String::from_str(id);
        let mut i: usize = 0;
        while i < self.edges.len()
            invariant
                i <= self.edges@.len(),
                key@ == id@,
                forall|j: int| 0 <= j < i ==> edge_ids(self.edges@)[j] != id@,
            decreases self.edges.len() - i,
        {
            if self.edges[i].id == key {
                return Some(i);
            }
            i = i + 1;
        }
        None
    }

    /// Stores a node under its identifier, in place of any node of the same
    /// identifier.
    pub fn add_node(&mut self, node: Node)
        requires
            old(self).wf(),
        ensures
            final(self).wf(),
            final(self).nodes@ == put_node(old(self).nodes@, node),
            final(self).edges == old(self).edges,
            final(self).topics == old(self).topics,
            final(self).current_topic_id == old(self).current_topic_id,
    {
        let ghost keys = node_ids(self.nodes@);
        let ghost n = node;
        match self.node_index(node.id.as_str()) {
            Some(i) => {
                proof {
                    lemma_unique_index(keys, i as int);
                }
                self.nodes.set(i, node);
                assert(node_ids(self.nodes@) =~= keys);
            },
            None => {
                self.nodes.push(node);
                assert(node_ids(self.nodes@) =~= keys.push(n.id@));
            },
        }
    }

    /// Adds an edge and records it in the lists of its two ends.
    pub fn add_edge(&mut self, edge: Edge)
        requires
            old(self).wf(),
        ensures
            final(self).wf(),
            final(self).nodes@.len() == old(self).nodes@.len(),
            forall|k: int|
                0 <= k < old(self).nodes@.len() ==> linked_node(
                    #[trigger] old(self).nodes@[k],
                    final(self).nodes@[k],
                    edge,
                ),
            final(self).edges@ == put_edge(old(self).edges@, edge),
            final(self).topics == old(self).topics,
            final(self).current_topic_id == old(self).current_topic_id,
    {
        let ghost old_nodes = self.nodes@;
        let ghost e = edge;
        edit_node_edges(&mut self.nodes, edge.from.as_str(), edge.id.as_str(), true, true);
        let ghost mid = self.nodes@;
        edit_node_edges(&mut self.nodes, edge.to.as_str(), edge.id.as_str(), false, true);
        assert forall|k: int| 0 <= k < old_nodes.len() implies linked_node(
            #[trigger] old_nodes[k],
            self.nodes@[k],
            e,
        ) by {
            assert(edited_node(old_nodes[k], mid[k], e.from@, e.id@, true, true));
            assert(edited_node(mid[k], self.nodes@[k], e.to@, e.id@, false, true));
        }
        let ghost ekeys = edge_ids(self.edges@);
        match self.edge_index(edge.id.as_str()) {
            Some(k) => {
                proof {
                    lemma_unique_index(ekeys, k as int);
                }
                self.edges.set(k, edge);
                assert(edge_ids(self.edges@) =~= ekeys);
            },
            None => {
                self.edges.push(edge);
                assert(edge_ids(self.edges@) =~= ekeys.push(e.id@));
            },
        }
    }

    /// Removes an edge and takes it out of the lists of its two ends; gives
    /// it back, or `None` when no edge has the identifier.
    pub fn remove_edge(&mut self, id: &str) -> (r: Option<Edge>)
        requires
            old(self).wf(),
        ensures
            final(self).wf(),
            final(self).topics == old(self).topics,
            final(self).current_topic_id == old(self).current_topic_id,
            match r {
                None => {
                    &&& !old(self).has_edge(id@)
                    &&& final(self).nodes == old(self).nodes
                    &&& final(self).edges == old(self).edges
                },
                Some(e) => {
                    &&& old(self).has_edge(id@)
                    &&& e == old(self).edge_of(id@)
                    &&& final(self).edges@ == old(self).edges@.remove(
                        edge_ids(old(self).edges@).index_of(id@),
                    )
                    &&& final(self).nodes@.len() == old(self).nodes@.len()
                    &&& forall|k: int|
                        0 <= k < old(self).nodes@.len() ==> unlinked_node(
                            #[trigger] old(self).nodes@[k],
                            final(self).nodes@[k],
                            e,
                        )
                },
            },
    {
        let ghost keys = node_ids(self.nodes@);
        let ghost ekeys = edge_ids(self.edges@);
        let ghost old_nodes = self.nodes@;
        let ghost old_edges = self.edges@;
        match self.edge_index(id) {
            None => None,
            Some(x) => {
                proof {
                    lemma_unique_index(ekeys, x as int);
                }
                let edge = self.edges.remove(x);
                let ghost e = edge;
                assert(e.id@ == id@);
                edit_node_edges(&mut self.nodes, edge.from.as_str(), id, true, false);
                let ghost mid = self.nodes@;
                edit_node_edges(&mut self.nodes, edge.to.as_str(), id, false, false);
                assert forall|k: int| 0 <= k < old_nodes.len() implies unlinked_node(
                    #[trigger] old_nodes[k],
                    self.nodes@[k],
                    e,
                ) by {
                    assert(edited_node(old_nodes[k], mid[k], e.from@, e.id@, true, false));
                    assert(edited_node(mid[k], self.nodes@[k], e.to@, e.id@, false, false));
                }
                assert(node_ids(self.nodes@) =~= keys);
                assert(edge_ids(self.edges@) =~= ekeys.remove(x as int));
                Some(edge)
            },
        }
    }

    /// Removes a node and every edge that touches it; gives the node back
    /// (its lists without those edges), or `None` when no node has the
    /// identifier. The edges go in either case.
    #[verifier::rlimit(40)]
    pub fn remove_node(&mut self, id: &str) -> (r: Option<Node>)
        requires
            old(self).wf(),
        ensures
            final(self).wf(),
            final(self).edges@ == old(self).edges@.filter(avoids(id@)),
            forall|i: int|
                0 <= i < final(self).edges@.len() ==> !(#[trigger] final(self).edges@[i].from@ == id@
                    || final(self).edges@[i].to@ == id@),
            !final(self).has_node(id@),
            final(self).topics == old(self).topics,
            final(self).current_topic_id == old(self).current_topic_id,
            match r {
                Some(n) => {
                    let gone = node_ids(old(self).nodes@).index_of(id@);
                    &&& old(self).has_node(id@)
                    &&& detached_node(
                        old(self).node_of(id@),
                        n,
                        old(self).edges@.filter(touches(id@)),
                    )
                    &&& final(self).nodes@.len() + 1 == old(self).nodes@.len()
                    &&& forall|k: int|
                        0 <= k < final(self).nodes@.len() ==> detached_node(
                            old(self).nodes@[after_gap(k, gone)],
                            #[trigger] final(self).nodes@[k],
                            old(self).edges@.filter(touches(id@)),
                        )
                },
                None => {
                    &&& !old(self).has_node(id@)
                    &&& final(self).nodes@.len() == old(self).nodes@.len()
                    &&& forall|k: int|
                        0 <= k < final(self).nodes@.len() ==> detached_node(
                            old(self).nodes@[k],
                            #[trigger] final(self).nodes@[k],
                            old(self).edges@.filter(touches(id@)),
                        )
                },
            },
    {
        let key = String::from_str(id);
        let ghost src = self.edges@;
        let ghost srcn = self.nodes@;
        let ghost gone = node_ids(srcn).index_of(id@);
        let mut rest: Vec<Edge> = Vec::new();
        std::mem::swap(&mut rest, &mut self.edges);
        let mut removed: Vec<Edge> = Vec::new();
        let mut kept: Vec<Edge> = Vec::new();
        let ghost mut i: int = 0;
        assert(src.skip(0) =~= src);
        assert(src.take(0) =~= Seq::<Edge>::empty());
        assert(Seq::<Edge>::empty().filter(avoids(id@)) =~= Seq::<Edge>::empty()) by {
            reveal(Seq::filter);
        }
        assert(Seq::<Edge>::empty().filter(touches(id@)) =~= Seq::<Edge>::empty()) by {
            reveal(Seq::filter);
        }
        while rest.len() > 0
            invariant
                0 <= i <= src.len(),
                rest@ == src.skip(i),
                kept@ == src.take(i).filter(avoids(id@)),
                removed@ == src.take(i).filter(touches(id@)),
                key@ == id@,
            decreases rest.len(),
        {
            let e = rest.remove(0);
            proof {
                assert(src.take(i + 1) =~= src.take(i).push(e));
                src.take(i).lemma_filter_push(e, avoids(id@));
                src.take(i).lemma_filter_push(e, touches(id@));
            }
            if e.from == key || e.to == key {
                removed.push(e);
            } else {
                kept.push(e);
            }
            proof {
                i = i + 1;
            }
            assert(rest@ =~= src.skip(i));
        }
        assert(src.take(i) =~= src);
        proof {
            lemma_filter_unique_edges(src, avoids(id@));
        }
        self.edges = kept;
        let mut rest_n: Vec<Node> = Vec::new();
        std::mem::swap(&mut rest_n, &mut self.nodes);
        let mut out: Vec<Node> = Vec::new();
        let mut found: Option<Node> = None;
        let ghost mut t: int = 0;
        assert(srcn.skip(0) =~= srcn);
        while rest_n.len() > 0
            invariant
                0 <= t <= srcn.len(),
                rest_n@ == srcn.skip(t),
                node_ids(srcn).no_duplicates(),
                key@ == id@,
                gone == node_ids(srcn).index_of(id@),
                removed@ == src.filter(touches(id@)),
                found is Some <==> node_ids(srcn.take(t)).contains(id@),
                found is Some ==> 0 <= gone < t && srcn[gone].id@ == id@,
                out@.len() == t - (if found is Some {
                    1int
                } else {
                    0int
                }),
                match found {
                    Some(n) => detached_node(srcn[gone], n, removed@),
                    None => true,
                },
                forall|k: int|
                    0 <= k < out@.len() ==> detached_node(
                        srcn[if found is Some && k >= gone {
                            k + 1
                        } else {
                            k
                        }],
                        #[trigger] out@[k],
                        removed@,
                    ),
                forall|k: int| 0 <= k < out@.len() ==> (#[trigger] out@[k]).id@ != id@,
            decreases rest_n.len(),
        {
            let mut n = rest_n.remove(0);
            let ghost old_n = n;
            assert(old_n == srcn[t]);
            assert(node_ids(srcn)[t] == old_n.id@);
            let nid = n.id.clone();
            drop_cut(&mut n.child_edges, &removed, &nid, true);
            drop_cut(&mut n.parent_edges, &removed, &nid, false);
            assert(detached_node(old_n, n, removed@));
            let ghost l = node_ids(srcn.take(t));
            proof {
                assert(node_ids(srcn.take(t + 1)) =~= l.push(old_n.id@));
                assert(l.len() == t);
            }
            if n.id == key {
                assert(l.push(old_n.id@)[t] == id@);
                proof {
                    lemma_unique_index(node_ids(srcn), t);
                    if found is Some {
                        assert(node_ids(srcn)[gone] == node_ids(srcn)[t]);
                    }
                }
                found = Some(n);
            } else {
                proof {
                    if found is Some {
                        assert(l.push(old_n.id@)[gone] == id@);
                    } else {
                        if l.push(old_n.id@).contains(id@) {
                            let j = l.push(old_n.id@).index_of(id@);
                            if j < t {
                                assert(l[j] == id@);
                            }
                        }
                    }
                }
                out.push(n);
            }
            proof {
                t = t + 1;
            }
            assert(rest_n@ =~= srcn.skip(t));
        }
        assert(srcn.take(t) =~= srcn);
        proof {
            assert forall|a: int, b: int|
                0 <= a < out@.len() && 0 <= b < out@.len() && a != b implies node_ids(out@)[a]
                != node_ids(out@)[b] by {
                let ia = if found is Some && a >= gone {
                    a + 1
                } else {
                    a
                };
                let ib = if found is Some && b >= gone {
                    b + 1
                } else {
                    b
                };
                assert(out@[a].id@ == srcn[ia].id@);
                assert(out@[b].id@ == srcn[ib].id@);
                assert(node_ids(srcn)[ia] != node_ids(srcn)[ib]);
            }
            assert forall|k: int| 0 <= k < out@.len() implies node_ids(out@)[k] != id@ by {}
        }
        self.nodes = out;
        found
    }

    /// The node of an identifier.
    pub fn get_node(&self, id: &str) -> (r: Option<&Node>)
        requires
            self.wf(),
        ensures
            match r {
                Some(n) => self.has_node(id@) && *n == self.node_of(id@),
                None => !self.has_node(id@),
            },
    {
        match self.node_index(id) {
            Some(i) => {
                proof {
                    lemma_unique_index(node_ids(self.nodes@), i as int);
                }
                Some(&self.nodes[i])
            },
            None => None,
        }
    }

    /// The nodes that an edge list leads to (see `linked_nodes`).
    fn nodes_along(&self, eids: &Vec<String>, outgoing: bool) -> (r: Vec<&Node>)
        requires
            self.wf(),
        ensures
            derefs(r@) == linked_nodes(*self, names_view(eids@), outgoing),
    {
        let ghost ev = names_view(eids@);
        let mut r: Vec<&Node> = Vec::new();
        let mut i: usize = 0;
        while i < eids.len()
            invariant
                self.wf(),
                i <= eids@.len(),
                ev == names_view(eids@),
                derefs(r@) == linked_nodes(*self, ev.take(i as int), outgoing),
            decreases eids.len() - i,
        {
            let ghost before = derefs(r@);
            assert(ev.take(i + 1).drop_last() =~= ev.take(i as int));
            assert(ev.take(i + 1).last() == eids@[i as int]@);
            if let Some(x) = self.edge_index(eids[i].as_str()) {
                proof {
                    lemma_unique_index(edge_ids(self.edges@), x as int);
                }
                let other = if outgoing {
                    self.edges[x].to.as_str()
                } else {
                    self.edges[x].from.as_str()
                };
                if let Some(y) = self.node_index(other) {
                    proof {
                        lemma_unique_index(node_ids(self.nodes@), y as int);
                    }
                    r.push(&self.nodes[y]);
                    assert(derefs(r@) =~= before.push(self.nodes@[y as int]));
                }
            }
            i = i + 1;
        }
        assert(ev.take(eids@.len() as int) =~= ev);
        r
    }

    /// The node of an identifier, to change in place; none for an unknown
    /// node. Edges, topics and the other nodes stay as they were.
    pub fn get_node_mut(&mut self, id: &str) -> (r: Option<&mut Node>)
        requires
            old(self).wf(),
        ensures
            match r {
                Some(n) => {
                    &&& old(self).has_node(id@)
                    &&& *n == old(self).node_of(id@)
                    &&& final(self).nodes@ == old(self).nodes@.update(
                        node_ids(old(self).nodes@).index_of(id@),
                        *final(n),
                    )
                },
                None => !old(self).has_node(id@) && *final(self) == *old(self),
            },
            final(self).edges == old(self).edges,
            final(self).topics == old(self).topics,
            final(self).current_topic_id == old(self).current_topic_id,
    {
        match self.node_index(id) {
            Some(i) => {
                proof {
                    lemma_unique_index(node_ids(self.nodes@), i as int);
                }
                Some(&mut self.nodes[i])
            },
            None => None,
        }
    }

    /// The nodes that the outgoing edges of a node lead to, in the order of
    /// its list; none for an unknown node.
    pub fn get_children(&self, id: &str) -> (r: Vec<&Node>)
        requires
            self.wf(),
        ensures
            derefs(r@) == (if self.has_node(id@) {
                linked_nodes(*self, names_view(self.node_of(id@).child_edges@), true)
            } else {
                Seq::empty()
            }),
    {
        match self.get_node(id) {
            Some(n) => self.nodes_along(&n.child_edges, true),
            None => {
                let r: Vec<&Node> = Vec::new();
                assert(derefs(r@) =~= Seq::<Node>::empty());
                r
            },
        }
    }

    /// The nodes that the incoming edges of a node come from, in the order
    /// of its list; none for an unknown node.
    pub fn get_parents(&self, id: &str) -> (r: Vec<&Node>)
        requires
            self.wf(),
        ensures
            derefs(r@) == (if self.has_node(id@) {
                linked_nodes(*self, names_view(self.node_of(id@).parent_edges@), false)
            } else {
                Seq::empty()
            }),
    {
        match self.get_node(id) {
            Some(n) => self.nodes_along(&n.parent_edges, false),
            None => {
                let r: Vec<&Node> = Vec::new();
                assert(derefs(r@) =~= Seq::<Node>::empty());
                r
            },
        }
    }

    /// The nodes that pass a test on their edge lists: without incoming
    /// edges where `roots`, without outgoing ones otherwise.
    fn nodes_without_edges(&self, roots: bool) -> (r: Vec<&Node>)
        ensures
            derefs(r@) == self.nodes@.filter(if roots {
                is_root_node()
            } else {
                is_leaf_node()
            }),
    {
        let ghost p = if roots {
            is_root_node()
        } else {
            is_leaf_node()
        };
        let ghost src = self.nodes@;
        let mut r: Vec<&Node> = Vec::new();
        let mut i: usize = 0;
        assert(src.take(0) =~= Seq::<Node>::empty());
        assert(Seq::<Node>::empty().filter(p) =~= Seq::<Node>::empty()) by {
            reveal(Seq::filter);
        }
        while i < self.nodes.len()
            invariant
                i <= src.len(),
                src == self.nodes@,
                p == (if roots {
                    is_root_node()
                } else {
                    is_leaf_node()
                }),
                derefs(r@) == src.take(i as int).filter(p),
            decreases self.nodes.len() - i,
        {
            proof {
                assert(src.take(i + 1) =~= src.take(i as int).push(src[i as int]));
                src.take(i as int).lemma_filter_push(src[i as int], p);
            }
            let empty = if roots {
                self.nodes[i].parent_edges.len() == 0
            } else {
                self.nodes[i].child_edges.len() == 0
            };
            if empty {
                let ghost before = derefs(r@);
                r.push(&self.nodes[i]);
                assert(derefs(r@) =~= before.push(src[i as int]));
            }
            i = i + 1;
        }
        assert(src.take(src.len() as int) =~= src);
        r
    }

    /// The nodes without incoming edges.
    pub fn get_root_nodes(&self) -> (r: Vec<&Node>)
        ensures
            derefs(r@) == self.nodes@.filter(is_root_node()),
    {
        self.nodes_without_edges(true)
    }

    /// The nodes without outgoing edges.
    pub fn get_leaf_nodes(&self) -> (r: Vec<&Node>)
        ensures
            derefs(r@) == self.nodes@.filter(is_leaf_node()),
    {
        self.nodes_without_edges(false)
    }

    /// All the nodes.
    pub fn get_all_nodes(&self) -> (r: Vec<&Node>)
        ensures
            derefs(r@) == self.nodes@,
    {
        let mut r: Vec<&Node> = Vec::new();
        let mut i: usize = 0;
        while i < self.nodes.len()
            invariant
                i <= self.nodes@.len(),
                derefs(r@) == self.nodes@.take(i as int),
            decreases self.nodes.len() - i,
        {
            let ghost before = derefs(r@);
            r.push(&self.nodes[i]);
            assert(derefs(r@) =~= before.push(self.nodes@[i as int]));
            assert(self.nodes@.take(i + 1) =~= self.nodes@.take(i as int).push(self.nodes@[i as int]));
            i = i + 1;
        }
        assert(self.nodes@.take(self.nodes@.len() as int) =~= self.nodes@);
        r
    }

    /// All the edges.
    pub fn get_all_edges(&self) -> (r: Vec<&Edge>)
        ensures
            r@.map_values(|e: &Edge| *e) == self.edges@,
    {
        let mut r: Vec<&Edge> = Vec::new();
        let mut i: usize = 0;
        while i < self.edges.len()
            invariant
                i <= self.edges@.len(),
                r@.map_values(|e: &Edge| *e) == self.edges@.take(i as int),
            decreases self.edges.len() - i,
        {
            let ghost before = r@.map_values(|e: &Edge| *e);
            r.push(&self.edges[i]);
            assert(r@.map_values(|e: &Edge| *e) =~= before.push(self.edges@[i as int]));
            assert(self.edges@.take(i + 1) =~= self.edges@.take(i as int).push(self.edges@[i as int]));
            i = i + 1;
        }
        assert(self.edges@.take(self.edges@.len() as int) =~= self.edges@);
        r
    }

    /// Gives the node of an identifier a status; says whether there was one.
    fn set_status(&mut self, id: &str, status: NodeStatus) -> (found: bool)
        requires
            old(self).wf(),
        ensures
            final(self).wf(),
            found == old(self).has_node(id@),
            final(self).nodes@.len() == old(self).nodes@.len(),
            forall|k: int|
                0 <= k < old(self).nodes@.len() ==> if old(self).nodes@[k].id@ == id@ {
                    same_but_status(old(self).nodes@[k], #[trigger] final(self).nodes@[k])
                        && final(self).nodes@[k].status == status
                } else {
                    final(self).nodes@[k] == old(self).nodes@[k]
                },
            final(self).edges == old(self).edges,
            final(self).topics == old(self).topics,
            final(self).current_topic_id == old(self).current_topic_id,
    {
        let ghost before = self.nodes@;
        let ghost keys = node_ids(self.nodes@);
        match self.node_index(id) {
            Some(i) => {
                assert(keys[i as int] == id@);
                let mut n = self.nodes.remove(i);
                n.status = status;
                self.nodes.insert(i, n);
                assert forall|k: int| 0 <= k < before.len() && k != i implies before[k].id@
                    != id@ by {
                    assert(keys[k] != keys[i as int]);
                }
                assert(node_ids(self.nodes@) =~= keys);
                true
            },
            None => {
                assert forall|k: int| 0 <= k < before.len() implies before[k].id@ != id@ by {
                    assert(keys[k] == before[k].id@);
                }
                false
            },
        }
    }

    /// Marks a node pruned; says whether there was one.
    pub fn prune_node(&mut self, id: &str) -> (found: bool)
        requires
            old(self).wf(),
        ensures
            final(self).wf(),
            found == old(self).has_node(id@),
            final(self).nodes@.len() == old(self).nodes@.len(),
            forall|k: int|
                0 <= k < old(self).nodes@.len() ==> if old(self).nodes@[k].id@ == id@ {
                    same_but_status(old(self).nodes@[k], #[trigger] final(self).nodes@[k])
                        && final(self).nodes@[k].status == NodeStatus::Pruned
                } else {
                    final(self).nodes@[k] == old(self).nodes@[k]
                },
            final(self).edges == old(self).edges,
            final(self).topics == old(self).topics,
            final(self).current_topic_id == old(self).current_topic_id,
    {
        self.set_status(id, NodeStatus::Pruned)
    }

    /// Locks a node; says whether there was one.
    pub fn lock_node(&mut self, id: &str) -> (found: bool)
        requires
            old(self).wf(),
        ensures
            final(self).wf(),
            found == old(self).has_node(id@),
            final(self).nodes@.len() == old(self).nodes@.len(),
            forall|k: int|
                0 <= k < old(self).nodes@.len() ==> if old(self).nodes@[k].id@ == id@ {
                    same_but_status(old(self).nodes@[k], #[trigger] final(self).nodes@[k])
                        && final(self).nodes@[k].status == NodeStatus::Locked
                } else {
                    final(self).nodes@[k] == old(self).nodes@[k]
                },
            final(self).edges == old(self).edges,
            final(self).topics == old(self).topics,
            final(self).current_topic_id == old(self).current_topic_id,
    {
        self.set_status(id, NodeStatus::Locked)
    }

    /// Makes a node active; says whether there was one.
    pub fn activate_node(&mut self, id: &str) -> (found: bool)
        requires
            old(self).wf(),
        ensures
            final(self).wf(),
            found == old(self).has_node(id@),
            final(self).nodes@.len() == old(self).nodes@.len(),
            forall|k: int|
                0 <= k < old(self).nodes@.len() ==> if old(self).nodes@[k].id@ == id@ {
                    same_but_status(old(self).nodes@[k], #[trigger] final(self).nodes@[k])
                        && final(self).nodes@[k].status == NodeStatus::Active
                } else {
                    final(self).nodes@[k] == old(self).nodes@[k]
                },
            final(self).edges == old(self).edges,
            final(self).topics == old(self).topics,
            final(self).current_topic_id == old(self).current_topic_id,
    {
        self.set_status(id, NodeStatus::Active)
    }

    /// The number of nodes that were not pruned.
    pub fn node_count(&self) -> (c: usize)
        ensures
            c == self.nodes@.filter(is_live_node()).len(),
    {
        let ghost src = self.nodes@;
        let ghost p = is_live_node();
        let mut c: usize = 0;
        let mut i: usize = 0;
        assert(src.take(0) =~= Seq::<Node>::empty());
        assert(Seq::<Node>::empty().filter(p) =~= Seq::<Node>::empty()) by {
            reveal(Seq::filter);
        }
        while i < self.nodes.len()
            invariant
                i <= src.len(),
                src == self.nodes@,
                p == is_live_node(),
                c == src.take(i as int).filter(p).len(),
                c <= i,
            decreases self.nodes.len() - i,
        {
            proof {
                assert(src.take(i + 1) =~= src.take(i as int).push(src[i as int]));
                src.take(i as int).lemma_filter_push(src[i as int], p);
            }
            if self.nodes[i].status != NodeStatus::Pruned {
                c = c + 1;
            }
            i = i + 1;
        }
        assert(src.take(src.len() as int) =~= src);
        c
    }

    /// Whether the node of an identifier is there and not pruned.
    fn is_live(&self, id: &str) -> (b: bool)
        requires
            self.wf(),
        ensures
            b == live_end(*self, id@),
    {
        match self.get_node(id) {
            Some(n) => n.status != NodeStatus::Pruned,
            None => false,
        }
    }

    /// The number of edges whose two ends are there and not pruned.
    pub fn edge_count(&self) -> (c: usize)
        requires
            self.wf(),
        ensures
            c == self.edges@.filter(is_live_edge(*self)).len(),
    {
        let ghost src = self.edges@;
        let ghost p = is_live_edge(*self);
        let mut c: usize = 0;
        let mut i: usize = 0;
        assert(src.take(0) =~= Seq::<Edge>::empty());
        assert(Seq::<Edge>::empty().filter(p) =~= Seq::<Edge>::empty()) by {
            reveal(Seq::filter);
        }
        while i < self.edges.len()
            invariant
                self.wf(),
                i <= src.len(),
                src == self.edges@,
                p == is_live_edge(*self),
                c == src.take(i as int).filter(p).len(),
                c <= i,
            decreases self.edges.len() - i,
        {
            proof {
                assert(src.take(i + 1) =~= src.take(i as int).push(src[i as int]));
                src.take(i as int).lemma_filter_push(src[i as int], p);
            }
            let e = &self.edges[i];
            if self.is_live(e.from.as_str()) && self.is_live(e.to.as_str()) {
                c = c + 1;
            }
            i = i + 1;
        }
        assert(src.take(src.len() as int) =~= src);
        c
    }

    /// The total complexity of the nodes that were not pruned, in
    /// thousandths.
    pub fn total_complexity(&self) -> (c: u128)
        ensures
            c == complexity_sum(self.nodes@.filter(is_live_node())),
    {
        let ghost src = self.nodes@;
        let ghost p = is_live_node();
        let mut c: u128 = 0;
        let mut i: usize = 0;
        assert(src.take(0) =~= Seq::<Node>::empty());
        assert(Seq::<Node>::empty().filter(p) =~= Seq::<Node>::empty()) by {
            reveal(Seq::filter);
        }
        while i < self.nodes.len()
            invariant
                i <= src.len(),
                src == self.nodes@,
                p == is_live_node(),
                c == complexity_sum(src.take(i as int).filter(p)),
                c <= i * 0xffff_ffff,
            decreases self.nodes.len() - i,
        {
            proof {
                assert(src.take(i + 1) =~= src.take(i as int).push(src[i as int]));
                src.take(i as int).lemma_filter_push(src[i as int], p);
            }
            if self.nodes[i].status != NodeStatus::Pruned {
                let ghost f = src.take(i as int).filter(p);
                assert(f.push(src[i as int]).drop_last() =~= f);
                c = c + self.nodes[i].complexity as u128;
            }
            i = i + 1;
        }
        assert(src.take(src.len() as int) =~= src);
        c
    }

    /// The live nodes whose score is under a threshold (in millionths).
    pub fn find_low_score_nodes(&self, threshold: u64) -> (r: Vec<&Node>)
        ensures
            derefs(r@) == self.nodes@.filter(is_low_score(threshold)),
    {
        let ghost p = is_low_score(threshold);
        let ghost src = self.nodes@;
        let mut r: Vec<&Node> = Vec::new();
        let mut i: usize = 0;
        assert(src.take(0) =~= Seq::<Node>::empty());
        assert(Seq::<Node>::empty().filter(p) =~= Seq::<Node>::empty()) by {
            reveal(Seq::filter);
        }
        while i < self.nodes.len()
            invariant
                i <= src.len(),
                src == self.nodes@,
                p == is_low_score(threshold),
                derefs(r@) == src.take(i as int).filter(p),
            decreases self.nodes.len() - i,
        {
            proof {
                assert(src.take(i + 1) =~= src.take(i as int).push(src[i as int]));
                src.take(i as int).lemma_filter_push(src[i as int], p);
            }
            if self.nodes[i].status != NodeStatus::Pruned && self.nodes[i].score() < threshold {
                let ghost before = derefs(r@);
                r.push(&self.nodes[i]);
                assert(derefs(r@) =~= before.push(src[i as int]));
            }
            i = i + 1;
        }
        assert(src.take(src.len() as int) =~= src);
        r
    }

    /// Opens a topic: a new root node whose question is the title, a new
    /// topic rooted there, which becomes the current one. Gives the topic
    /// back.
    pub fn add_topic(&mut self, title: String) -> (t: Topic)
        requires
            old(self).wf(),
        ensures
            final(self).wf(),
            t.title@ == title@,
            final(self).has_node(t.root_node_id@),
            fresh_node(final(self).node_of(t.root_node_id@)),
            final(self).node_of(t.root_node_id@).question@ == title@,
            final(self).node_of(t.root_node_id@).step == 1,
            final(self).node_of(t.root_node_id@).status == NodeStatus::Draft,
            final(self).nodes@ == put_node(
                old(self).nodes@,
                final(self).node_of(t.root_node_id@),
            ),
            final(self).has_topic(t.id@),
            final(self).topics@ == put_topic(old(self).topics@, final(self).topic_of(t.id@)),
            final(self).topic_of(t.id@).root_node_id@ == t.root_node_id@,
            final(self).topic_of(t.id@).title@ == title@,
            final(self).current_topic_id is Some,
            final(self).current_topic_id->0@ == t.id@,
            final(self).edges == old(self).edges,
    {
        let root = Node::new(title.clone(), 1);
        let ghost rn = root;
        let root_id = root.id.clone();
        let topic = Topic::new(new_uuid(), root_id, title);
        self.add_node(root);
        proof {
            lemma_put_node(old(self).nodes@, rn);
        }
        let stored = topic.copy();
        let ghost st = stored;
        let ghost tkeys = topic_ids(self.topics@);
        match find_topic(&self.topics, topic.id.as_str()) {
            Some(i) => {
                proof {
                    lemma_unique_index(tkeys, i as int);
                }
                self.topics.set(i, stored);
                assert(topic_ids(self.topics@) =~= tkeys);
                proof {
                    lemma_unique_index_topic(self.topics@, i as int);
                }
            },
            None => {
                self.topics.push(stored);
                assert(topic_ids(self.topics@) =~= tkeys.push(st.id@));
                proof {
                    lemma_unique_index_topic(self.topics@, tkeys.len() as int);
                }
            },
        }
        self.current_topic_id = Some(topic.id.clone());
        topic
    }

    /// All the topics.
    pub fn get_topics(&self) -> (r: Vec<&Topic>)
        ensures
            r@.map_values(|t: &Topic| *t) == self.topics@,
    {
        let mut r: Vec<&Topic> = Vec::new();
        let mut i: usize = 0;
        while i < self.topics.len()
            invariant
                i <= self.topics@.len(),
                r@.map_values(|t: &Topic| *t) == self.topics@.take(i as int),
            decreases self.topics.len() - i,
        {
            let ghost before = r@.map_values(|t: &Topic| *t);
            r.push(&self.topics[i]);
            assert(r@.map_values(|t: &Topic| *t) =~= before.push(self.topics@[i as int]));
            assert(self.topics@.take(i + 1) =~= self.topics@.take(i as int).push(self.topics@[i as int]));
            i = i + 1;
        }
        assert(self.topics@.take(self.topics@.len() as int) =~= self.topics@);
        r
    }

    /// The current topic, if the current identifier names one.
    pub fn get_current_topic(&self) -> (r: Option<&Topic>)
        requires
            self.wf(),
        ensures
            match r {
                Some(t) => self.current_topic() == Some(*t),
                None => self.current_topic() is None,
            },
    {
        match &self.current_topic_id {
            Some(id) => match find_topic(&self.topics, id.as_str()) {
                Some(i) => {
                    proof {
                        lemma_unique_index(topic_ids(self.topics@), i as int);
                    }
                    Some(&self.topics[i])
                },
                None => None,
            },
            None => None,
        }
    }

    /// Makes a topic the current one; says whether there is one of that
    /// identifier (nothing changes where there is none).
    pub fn set_current_topic(&mut self, id: &str) -> (found: bool)
        requires
            old(self).wf(),
        ensures
            final(self).wf(),
            found == old(self).has_topic(id@),
            found ==> final(self).current_topic_id is Some && final(self).current_topic_id->0@
                == id@,
            !found ==> final(self).current_topic_id == old(self).current_topic_id,
            final(self).nodes == old(self).nodes,
            final(self).edges == old(self).edges,
            final(self).topics == old(self).topics,
    {
        match find_topic(&self.topics, id) {
            Some(i) => {
                assert(topic_ids(self.topics@)[i as int] == id@);
                self.current_topic_id = Some(String::from_str(id));
                true
            },
            None => false,
        }
    }

    /// The root of the current topic (none when its root is gone), or every
    /// root node when no topic is current.
    pub fn get_current_topic_root_nodes(&self) -> (r: Vec<&Node>)
        requires
            self.wf(),
        ensures
            derefs(r@) == match self.current_topic() {
                Some(t) => if self.has_node(t.root_node_id@) {
                    seq![self.node_of(t.root_node_id@)]
                } else {
                    Seq::empty()
                },
                None => self.nodes@.filter(is_root_node()),
            },
    {
        match self.get_current_topic() {
            Some(topic) => {
                let mut r: Vec<&Node> = Vec::new();
                match self.get_node(topic.root_node_id.as_str()) {
                    Some(n) => {
                        r.push(n);
                        assert(derefs(r@) =~= seq![self.node_of(topic.root_node_id@)]);
                    },
                    None => {
                        assert(derefs(r@) =~= Seq::<Node>::empty());
                    },
                }
                r
            },
            None => self.get_root_nodes(),
        }
    }

    /// The reach count of a node (see `reach_count`).
    fn count_reach(&self, id: &str, depth: usize) -> (c: usize)
        requires
            self.wf(),
        ensures
            c == reach_count(*self, id@, depth as nat),
        decreases depth, 0nat, 0nat,
    {
        if depth == 0 {
            1
        } else {
            let children = self.get_children(id);
            let below = self.count_children(&children, depth - 1);
            proof {
                lemma_children_count_bounds(*self, derefs(children@), (depth - 1) as nat);
            }
            1usize.saturating_add(below)
        }
    }

    /// The reach counts of a list of nodes, added up.
    fn count_children(&self, cs: &Vec<&Node>, depth: usize) -> (c: usize)
        requires
            self.wf(),
        ensures
            c == children_count(*self, derefs(cs@), depth as nat),
        decreases depth, 1nat, cs@.len(),
    {
        let mut total: usize = 0;
        let mut i: usize = 0;
        while i < cs.len()
            invariant
                self.wf(),
                i <= cs@.len(),
                total == children_count(*self, derefs(cs@).take(i as int), depth as nat),
            decreases cs.len() - i,
        {
            assert(derefs(cs@).take(i + 1).drop_last() =~= derefs(cs@).take(i as int));
            assert(derefs(cs@).take(i + 1).last() == *cs@[i as int]);
            let one = self.count_reach(cs[i].id.as_str(), depth);
            total = total.saturating_add(one);
            i = i + 1;
        }
        assert(derefs(cs@).take(cs@.len() as int) =~= derefs(cs@));
        total
    }

    /// The number of nodes under a topic's root, the root included,
    /// following child edges as many levels down as the graph has nodes
    /// (every path of a graph without cycles); none for an unknown topic.
    pub fn count_topic_nodes(&self, topic_id: &str) -> (c: usize)
        requires
            self.wf(),
        ensures
            c == (if self.has_topic(topic_id@) {
                reach_count(
                    *self,
                    self.topic_of(topic_id@).root_node_id@,
                    self.nodes@.len() as nat,
                )
            } else {
                0
            }),
    {
        match find_topic(&self.topics, topic_id) {
            Some(i) => {
                proof {
                    lemma_unique_index(topic_ids(self.topics@), i as int);
                }
                self.count_reach(self.topics[i].root_node_id.as_str(), self.nodes.len())
            },
            None => 0,
        }
    }

    /// The phase of a topic, from the number of its nodes.
    pub fn get_topic_phase(&self, topic_id: &str) -> (p: TopicPhase)
        requires
            self.wf(),
        ensures
            p == topic_phase_for_count(
                (if self.has_topic(topic_id@) {
                    reach_count(
                        *self,
                        self.topic_of(topic_id@).root_node_id@,
                        self.nodes@.len() as nat,
                    )
                } else {
                    0
                }) as nat,
            ),
    {
        let n = self.count_topic_nodes(topic_id);
        TopicPhase::from_node_count(n)
    }

    /// The depth of a node (see `depth_of`): one for a node without parents,
    /// otherwise one more than its deepest parent, each parent looked at
    /// with this node added to the visited list; zero for a node already in
    /// that list.
    pub fn get_depth(&self, id: &str, visited: Vec<String>) -> (d: i32)
        requires
            self.wf(),
            self.nodes@.len() < i32::MAX,
        ensures
            d == depth_of(*self, id@, names_view(visited@)),
        decreases unvisited(*self, names_view(visited@)), 0nat, 0nat,
    {
        let mut visited = visited;
        let key = String::from_str(id);
        if contains_string(&visited, &key) {
            return 0;
        }
        let ghost before = names_view(visited@);
        visited.push(key);
        assert(names_view(visited@) =~= before.push(id@));
        let parents = self.get_parents(id);
        if parents.len() == 0 {
            return 1;
        }
        assert(derefs(parents@).len() == parents@.len());
        proof {
            lemma_visit_shrinks(*self, before, id@);
            lemma_deepest_bounds(*self, derefs(parents@), names_view(visited@));
            lemma_unvisited_bound(*self, names_view(visited@));
        }
        let deepest_parent = self.deepest_parent(&parents, &visited);
        deepest_parent + 1
    }

    /// The greatest depth among some nodes (see `deepest`).
    fn deepest_parent(&self, ps: &Vec<&Node>, visited: &Vec<String>) -> (d: i32)
        requires
            self.wf(),
            self.nodes@.len() < i32::MAX,
            ps@.len() > 0,
        ensures
            d == deepest(*self, derefs(ps@), names_view(visited@)),
        decreases unvisited(*self, names_view(visited@)), 1nat, ps@.len(),
    {
        let ghost vs = names_view(visited@);
        let ghost pv = derefs(ps@);
        proof {
            lemma_unvisited_bound(*self, vs);
            lemma_depth_bounds(*self, pv[0].id@, vs);
        }
        let mut best = self.get_depth(ps[0].id.as_str(), clone_strings(visited));
        let mut i: usize = 1;
        assert(pv.take(1) =~= seq![pv[0]]);
        while i < ps.len()
            invariant
                self.wf(),
                self.nodes@.len() < i32::MAX,
                1 <= i <= ps@.len(),
                pv == derefs(ps@),
                vs == names_view(visited@),
                best == deepest(*self, pv.take(i as int), vs),
            decreases ps.len() - i,
        {
            assert(pv.take(i + 1).drop_last() =~= pv.take(i as int));
            assert(pv.take(i + 1).last() == pv[i as int]);
            proof {
                lemma_unvisited_bound(*self, vs);
                lemma_depth_bounds(*self, pv[i as int].id@, vs);
            }
            let d = self.get_depth(ps[i].id.as_str(), clone_strings(visited));
            if d > best {
                best = d;
            }
            i = i + 1;
        }
        assert(pv.take(ps@.len() as int) =~= pv);
        best
    }

    /// A copy of the graph.
    pub fn copy(&self) -> (g: Graph)
        requires
            self.wf(),
        ensures
            g.wf(),
            graph_view_eq(g, *self),
    {
        let mut nodes: Vec<Node> = Vec::new();
        let mut i: usize = 0;
        while i < self.nodes.len()
            invariant
                i <= self.nodes@.len(),
                nodes@.len() == i,
                forall|k: int| 0 <= k < i ==> node_view_eq(#[trigger] nodes@[k], self.nodes@[k]),
            decreases self.nodes.len() - i,
        {
            nodes.push(self.nodes[i].copy());
            i = i + 1;
        }
        let mut edges: Vec<Edge> = Vec::new();
        let mut j: usize = 0;
        while j < self.edges.len()
            invariant
                j <= self.edges@.len(),
                edges@.len() == j,
                forall|k: int| 0 <= k < j ==> edge_view_eq(#[trigger] edges@[k], self.edges@[k]),
            decreases self.edges.len() - j,
        {
            edges.push(self.edges[j].copy());
            j = j + 1;
        }
        let mut topics: Vec<Topic> = Vec::new();
        let mut t: usize = 0;
        while t < self.topics.len()
            invariant
                t <= self.topics@.len(),
                topics@.len() == t,
                forall|k: int| 0 <= k < t ==> topic_view_eq(#[trigger] topics@[k], self.topics@[k]),
            decreases self.topics.len() - t,
        {
            topics.push(self.topics[t].copy());
            t = t + 1;
        }
        let current_topic_id = match &self.current_topic_id {
            Some(id) => Some(id.clone()),
            None => None,
        };
        let g = Graph { nodes, edges, topics, current_topic_id };
        assert(node_ids(g.nodes@) =~= node_ids(self.nodes@)) by {
            assert forall|k: int| 0 <= k < g.nodes@.len() implies node_ids(g.nodes@)[k] == node_ids(
                self.nodes@,
            )[k] by {
                assert(node_view_eq(g.nodes@[k], self.nodes@[k]));
            }
        }
        assert(edge_ids(g.edges@) =~= edge_ids(self.edges@)) by {
            assert forall|k: int| 0 <= k < g.edges@.len() implies edge_ids(g.edges@)[k] == edge_ids(
                self.edges@,
            )[k] by {
                assert(edge_view_eq(g.edges@[k], self.edges@[k]));
            }
        }
        assert(topic_ids(g.topics@) =~= topic_ids(self.topics@)) by {
            assert forall|k: int| 0 <= k < g.topics@.len() implies topic_ids(g.topics@)[k]
                == topic_ids(self.topics@)[k] by {
                assert(topic_view_eq(g.topics@[k], self.topics@[k]));
            }
        }
        g
    }

    /// Records the feedback of an execution on a node: its text and time,
    /// and a failed status when the execution failed. Says whether there
    /// was such a node.
    pub fn record_feedback(&mut self, id: &str, success: bool, message: &str) -> (found: bool)
        requires
            old(self).wf(),
        ensures
            final(self).wf(),
            found == old(self).has_node(id@),
            final(self).nodes@.len() == old(self).nodes@.len(),
            forall|k: int|
                0 <= k < old(self).nodes@.len() ==> if old(self).nodes@[k].id@ == id@ {
                    &&& opt_view(#[trigger] final(self).nodes@[k].feedback_result) == Some(message@)
                    &&& final(self).nodes@[k].feedback_timestamp is Some
                    &&& final(self).nodes@[k].status == (if success {
                        old(self).nodes@[k].status
                    } else {
                        NodeStatus::Failed
                    })
                    &&& final(self).nodes@[k].id == old(self).nodes@[k].id
                    &&& final(self).nodes@[k].content == old(self).nodes@[k].content
                    &&& final(self).nodes@[k].child_edges == old(self).nodes@[k].child_edges
                    &&& final(self).nodes@[k].parent_edges == old(self).nodes@[k].parent_edges
                } else {
                    final(self).nodes@[k] == old(self).nodes@[k]
                },
            final(self).edges == old(self).edges,
            final(self).topics == old(self).topics,
            final(self).current_topic_id == old(self).current_topic_id,
            feedback_recorded(*old(self), *final(self), id@, success, message@),
    {
        let ghost before = self.nodes@;
        let ghost keys = node_ids(self.nodes@);
        match self.node_index(id) {
            Some(i) => {
                assert(keys[i as int] == id@);
                let mut n = self.nodes.remove(i);
                n.set_feedback(String::from_str(message));
                n.apply_execution_result(success);
                self.nodes.insert(i, n);
                assert forall|k: int| 0 <= k < before.len() && k != i implies before[k].id@
                    != id@ by {
                    assert(keys[k] != keys[i as int]);
                }
                assert(node_ids(self.nodes@) =~= keys);
                true
            },
            None => {
                assert forall|k: int| 0 <= k < before.len() implies before[k].id@ != id@ by {
                    assert(keys[k] == before[k].id@);
                }
                false
            },
        }
    }
}

} // verus!
