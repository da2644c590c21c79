//! The divergence engine: branches of a node of the reasoning graph.
use vstd::prelude::*;

use rand::rngs::StdRng;
use rand::{Rng, SeedableRng};

use crate::models::edge::{Edge, EdgeType};
use crate::models::graph::{edge_ids, lemma_put_node, node_ids, put_edge, put_node, Graph};
use crate::models::node::{same_but_edges, Node, NodeStatus};
use crate::ollama::client::names_view;
use crate::text::{decimal, push_decimal, push_str};

verus! {

/// The generator of `rand` that the engine draws from.
#[verifier::external_type_specification]
#[verifier::external_body]
pub struct ExStdRng(StdRng);

/// Calls `rand::SeedableRng::seed_from_u64`: a generator whose draws the
/// seed fixes. Nothing is claimed of the generator itself.
#[verifier::external_body]
fn seeded_rng(seed: u64) -> StdRng {
    StdRng::seed_from_u64(seed)
}

/// Calls `rand::SeedableRng::from_entropy`: a generator seeded by the
/// operating system. Nothing is claimed of it.
#[verifier::external_body]
fn entropy_rng() -> StdRng {
    StdRng::from_entropy()
}

/// Calls `rand::Rng::gen_range` on `0..bound`. Claimed: the draw lies in
/// the range (which is not empty, so the call does not panic); which
/// number comes is chance.
#[verifier::external_body]
fn draw_below(rng: &mut StdRng, bound: u32) -> (r: u32)
    requires
        bound > 0,
    ensures
        r < bound,
{
    rng.gen_range(0..bound)
}

/// The identifiers of a list of nodes.
pub open spec fn branch_ids(ns: Seq<Node>) -> Seq<Seq<char>> {
    ns.map_values(|n: Node| n.id@)
}

/// An identifier list with an identifier stored: unchanged where it is
/// there, appended otherwise (as storing a node of that identifier does).
pub open spec fn put_id(ids: Seq<Seq<char>>, id: Seq<char>) -> Seq<Seq<char>> {
    if ids.contains(id) {
        ids
    } else {
        ids.push(id)
    }
}

/// An identifier list with identifiers stored one after the other.
pub open spec fn put_ids(ids: Seq<Seq<char>>, news: Seq<Seq<char>>) -> Seq<Seq<char>>
    decreases news.len(),
{
    if news.len() == 0 {
        ids
    } else {
        put_id(put_ids(ids, news.drop_last()), news.last())
    }
}

/// An edge list with edges stored one after the other (see `put_edge`).
pub open spec fn put_edges(es: Seq<Edge>, news: Seq<Edge>) -> Seq<Edge>
    decreases news.len(),
{
    if news.len() == 0 {
        es
    } else {
        put_edge(put_edges(es, news.drop_last()), news.last())
    }
}

/// Whether an edge is the divergence edge of a branch: from the parent to
/// the branch, with the branch's weight.
pub open spec fn edge_to_branch(parent: Seq<char>, b: Node, e: Edge) -> bool {
    &&& e.from@ == parent
    &&& e.to@ == b.id@
    &&& e.edge_type == EdgeType::Divergence
    &&& e.weight == b.weight
}

/// Whether `es` are the divergence edges of the branches, one for each, in
/// order.
pub open spec fn divergence_edges(parent: Seq<char>, bs: Seq<Node>, es: Seq<Edge>) -> bool {
    &&& es.len() == bs.len()
    &&& forall|k: int| 0 <= k < bs.len() ==> edge_to_branch(parent, #[trigger] bs[k], es[k])
}

/// Storing a node stores its identifier.
proof fn lemma_put_node_ids(ns: Seq<Node>, n: Node)
    ensures
        node_ids(put_node(ns, n)) == put_id(node_ids(ns), n.id@),
{
    if node_ids(ns).contains(n.id@) {
        let i = node_ids(ns).index_of(n.id@);
        assert(node_ids(put_node(ns, n)) =~= node_ids(ns));
    } else {
        assert(node_ids(put_node(ns, n)) =~= node_ids(ns).push(n.id@));
    }
}

/// With identifiers new to the list and to one another, storing them
/// appends them.
pub proof fn lemma_put_fresh_ids(ids: Seq<Seq<char>>, news: Seq<Seq<char>>)
    requires
        forall|k: int| 0 <= k < news.len() ==> !ids.contains(#[trigger] news[k]),
        news.no_duplicates(),
    ensures
        put_ids(ids, news) == ids + news,
    decreases news.len(),
{
    if news.len() > 0 {
        let front = news.drop_last();
        assert forall|a: int, b: int| 0 <= a < front.len() && 0 <= b < front.len() && a != b implies front[a] != front[b] by {
            assert(news[a] == front[a] && news[b] == front[b]);
        }
        assert forall|k: int| 0 <= k < front.len() implies !ids.contains(#[trigger] front[k]) by {
            assert(news[k] == front[k]);
        }
        lemma_put_fresh_ids(ids, front);
        let x = news.last();
        if (ids + front).contains(x) {
            let j = choose|j: int| 0 <= j < (ids + front).len() && (ids + front)[j] == x;
            if j < ids.len() {
                assert(ids[j] == x);
                assert(!ids.contains(news[news.len() - 1]));
            } else {
                assert(front[j - ids.len()] == x);
                assert(news[j - ids.len()] == news[news.len() - 1]);
            }
        }
        assert((ids + front).push(x) =~= ids + news);
    }
}

/// With edge identifiers new to the list and to one another, storing the
/// edges appends them.
pub proof fn lemma_put_fresh_edges(es: Seq<Edge>, news: Seq<Edge>)
    requires
        forall|k: int| 0 <= k < news.len() ==> !edge_ids(es).contains(#[trigger] news[k].id@),
        edge_ids(news).no_duplicates(),
    ensures
        put_edges(es, news) == es + news,
    decreases news.len(),
{
    if news.len() > 0 {
        let front = news.drop_last();
        assert forall|a: int, b: int| 0 <= a < front.len() && 0 <= b < front.len() && a != b implies edge_ids(front)[a] != edge_ids(front)[b] by {
            assert(edge_ids(news)[a] == edge_ids(front)[a] && edge_ids(news)[b] == edge_ids(front)[b]);
        }
        assert forall|k: int| 0 <= k < front.len() implies !edge_ids(es).contains(#[trigger] front[k].id@) by {
            assert(news[k] == front[k]);
        }
        lemma_put_fresh_edges(es, front);
        let x = news.last();
        if edge_ids(es + front).contains(x.id@) {
            let j = choose|j: int| 0 <= j < edge_ids(es + front).len() && edge_ids(es + front)[j] == x.id@;
            if j < es.len() {
                assert(edge_ids(es)[j] == x.id@);
                assert(!edge_ids(es).contains(news[news.len() - 1].id@));
            } else {
                assert(edge_ids(news)[j - es.len()] == edge_ids(news)[news.len() - 1]);
            }
        }
        assert((es + front).push(x) =~= es + news);
    }
}

/// Generates branches of a node; a seed makes its choices repeatable.
#[derive(Debug, Clone, Copy)]
pub struct DivergeEngine {
    /// The random seed, if one was given.
    pub seed: Option<u64>,
}

/// The content of the `i`-th branch: the given content where there is one,
/// a numbered placeholder where the given list is too short, and without a
/// list two opposite readings of the parent followed by deeper details.
pub open spec fn branch_content(parent: Seq<char>, contents: Option<Seq<Seq<char>>>, i: nat) -> Seq<char> {
    match contents {
        Some(c) => if i < c.len() {
            c[i as int]
        } else {
            "發散分支 "@ + decimal(i + 1)
        },
        None => if i == 0 {
            "探索方向 A: 基於「"@ + parent + "」的延伸思考"@
        } else if i == 1 {
            "探索方向 B: 反面假設「"@ + parent + "」"@
        } else {
            "探索方向 "@ + decimal(i + 1) + ": 細節深化"@
        },
    }
}

/// A branch's confidence: nine tenths of its parent's, at least one tenth.
pub open spec fn decayed_confidence(c: u32) -> int {
    if c * 9 / 10 > 100 {
        c * 9 / 10
    } else {
        100
    }
}

/// Whether a branch's weight is its parent's times a factor from 0.7 up to
/// (not including) 1, in thousandths, rounded down.
pub open spec fn decayed_weight(w: u32, cw: u32) -> bool {
    exists|f: int| 700 <= f < 1000 && cw == #[trigger] scaled(w, f)
}

/// A weight times a factor in thousandths, rounded down.
pub open spec fn scaled(w: u32, f: int) -> int {
    w * f / 1000
}

/// The contents handed to the engine, as texts.
pub open spec fn contents_view(contents: Option<Vec<String>>) -> Option<Seq<Seq<char>>> {
    match contents {
        Some(v) => Some(names_view(v@)),
        None => None,
    }
}

/// Whether a node can take branches: it is there, a draft or active.
pub open spec fn can_diverge(g: Graph, id: Seq<char>) -> bool {
    g.has_node(id) && (g.node_of(id).status == NodeStatus::Draft || g.node_of(id).status
        == NodeStatus::Active)
}

/// What holds of the `i`-th branch `c` of parent `p`: its content and
/// question, one step further, decayed weight and confidence, no
/// complexity, a fresh draft with the one edge from its parent.
pub open spec fn is_branch(c: Node, p: Node, contents: Option<Seq<Seq<char>>>, i: nat) -> bool {
    &&& c.content@ == branch_content(p.content@, contents, i)
    &&& c.question@ == c.content@
    &&& c.step == p.step + 1
    &&& c.confidence == decayed_confidence(p.confidence)
    &&& decayed_weight(p.weight, c.weight)
    &&& c.complexity == 0
    &&& c.status == NodeStatus::Draft
    &&& c.key_findings@.len() == 0
    &&& c.conclusion is None
    &&& c.relevant_topics@.len() == 0
    &&& c.feedback_result is None
    &&& c.feedback_timestamp is None
    &&& names_view(c.parent_edges@).len() == 1
}

/// What holds of the `i`-th branch `c` computed apart from the graph for
/// parent `p`.
pub open spec fn is_loose_branch(c: Node, p: Node, i: nat) -> bool {
    &&& c.content@ == "發散分支 "@ + decimal(i + 1) + "（待加入圖中）"@
    &&& c.question@ == c.content@
    &&& c.step == p.step + 1
    &&& c.confidence == decayed_confidence(p.confidence)
    &&& decayed_weight(p.weight, c.weight)
    &&& c.complexity == 0
    &&& c.status == NodeStatus::Draft
    &&& c.id@.len() == 36
    &&& c.key_findings@.len() == 0
    &&& c.conclusion is None
    &&& c.relevant_topics@.len() == 0
    &&& c.parent_edges@.len() == 0
    &&& c.child_edges@.len() == 0
    &&& c.feedback_result is None
    &&& c.feedback_timestamp is None
}

/// The content of the `i`-th branch (see `branch_content`).
fn branch_text(parent: &str, contents: &Option<Vec<String>>, i: i32) -> (s: String)
    requires
        0 <= i < i32::MAX,
    ensures
        s@ == branch_content(parent@, contents_view(*contents), i as nat),
{
    match contents {
        Some(c) => {
            if (i as usize) < c.len() {
                c[i as usize].clone()
            } else {
                let mut s = String::from_str("發散分支 ");
                push_decimal(&mut s, (i as u64) + 1);
                s
            }
        },
        None => {
            if i == 0 {
                let mut s = String::from_str("探索方向 A: 基於「");
                push_str(&mut s, parent);
                push_str(&mut s, "」的延伸思考");
                s
            } else if i == 1 {
                let mut s = String::from_str("探索方向 B: 反面假設「");
                push_str(&mut s, parent);
                push_str(&mut s, "」");
                s
            } else {
                let mut s = String::from_str("探索方向 ");
                push_decimal(&mut s, (i as u64) + 1);
                push_str(&mut s, ": 細節深化");
                s
            }
        },
    }
}

/// A branch's confidence (see `decayed_confidence`).
fn branch_confidence(c: u32) -> (r: u32)
    ensures
        r == decayed_confidence(c),
{
    let nine = (c as u64) * 9 / 10;
    if nine > 100 {
        nine as u32
    } else {
        100
    }
}

/// A branch's weight: the parent's times (700 + `extra`) thousandths.
fn branch_weight(w: u32, extra: u32) -> (r: u32)
    requires
        extra < 300,
    ensures
        decayed_weight(w, r),
        r == w * (700 + extra) / 1000,
{
    let f = 700 + extra as u64;
    assert(w * f <= w * 1000) by (nonlinear_arith)
        requires
            f <= 1000,
    ;
    assert(w * f / 1000 <= w) by (nonlinear_arith)
        requires
            w * f <= w * 1000,
    ;
    let r = ((w as u64) * f / 1000) as u32;
    assert(700 <= f < 1000 && r == scaled(w, f as int));
    r
}

impl DivergeEngine {
    /// An engine without a seed.
    pub fn new() -> (e: Self)
        ensures
            e.seed is None,
    {
        DivergeEngine { seed: None }
    }

    /// An engine with the given seed.
    pub fn new_with_seed(seed: u64) -> (e: Self)
        ensures
            e.seed == Some(seed),
    {
        DivergeEngine { seed: Some(seed) }
    }

    /// The generator: seeded where the engine has a seed, from the system
    /// otherwise.
    fn get_rng(&self) -> StdRng {
        match self.seed {
            Some(seed) => seeded_rng(seed),
            None => entropy_rng(),
        }
    }

    /// Adds `count` branches to a draft or active node: each a new draft
    /// node (see `is_branch`) joined to the parent by a divergence edge
    /// that carries the branch's weight. Gives copies of the branches as
    /// they stand in the graph; none, and the graph untouched, for a
    /// missing, pruned, locked or failed node.
    pub fn diverge(
        &self,
        graph: &mut Graph,
        node_id: &str,
        count: i32,
        contents: Option<Vec<String>>,
    ) -> (r: Vec<Node>)
        requires
            old(graph).wf(),
            old(graph).has_node(node_id@) ==> old(graph).node_of(node_id@).step < i32::MAX,
        ensures
            final(graph).wf(),
            !can_diverge(*old(graph), node_id@) ==> r@.len() == 0 && *final(graph) == *old(
                graph,
            ),
            can_diverge(*old(graph), node_id@) ==> r@.len() == (if count > 0 {
                count as int
            } else {
                0
            }),
            count <= 0 ==> r@.len() == 0 && *final(graph) == *old(graph),
            forall|k: int|
                0 <= k < r@.len() ==> is_branch(
                    #[trigger] r@[k],
                    old(graph).node_of(node_id@),
                    contents_view(contents),
                    k as nat,
                ) && final(graph).has_node(r@[k].id@),
            forall|x: Seq<char>| old(graph).has_node(x) ==> #[trigger] final(graph).has_node(x),
            final(graph).topics == old(graph).topics,
            final(graph).current_topic_id == old(graph).current_topic_id,
            node_ids(final(graph).nodes@) == put_ids(node_ids(old(graph).nodes@), branch_ids(r@)),
            exists|es: Seq<Edge>|
                #[trigger] divergence_edges(node_id@, r@, es) && final(graph).edges@ == put_edges(
                    old(graph).edges@,
                    es,
                ),
    {
        let ghost g0 = *graph;
        let ghost cv = contents_view(contents);
        proof {
            assert(put_ids(node_ids(g0.nodes@), branch_ids(Seq::<Node>::empty())) == node_ids(g0.nodes@));
            assert(divergence_edges(node_id@, Seq::<Node>::empty(), Seq::<Edge>::empty()));
            assert(put_edges(g0.edges@, Seq::<Edge>::empty()) == g0.edges@);
        }
        let (parent_weight, parent_confidence, parent_step, parent_content) = match graph.get_node(
            node_id,
        ) {
            Some(p) => {
                if p.status != NodeStatus::Draft && p.status != NodeStatus::Active {
                    return Vec::new();
                }
                (p.weight, p.confidence, p.step, p.content.clone())
            },
            None => {
                return Vec::new();
            },
        };
        let ghost p = g0.node_of(node_id@);
        let mut rng = self.get_rng();
        let next_step = parent_step + 1;
        let child_confidence = branch_confidence(parent_confidence);
        let mut results: Vec<Node> = Vec::new();
        let ghost mut es: Seq<Edge> = Seq::empty();
        let mut i: i32 = 0;
        while i < count
            invariant
                graph.wf(),
                0 <= i,
                count > 0 ==> i <= count,
                count <= 0 ==> i == 0,
                results@.len() == i,
                i == 0 ==> *graph == g0,
                p == g0.node_of(node_id@),
                parent_weight == p.weight,
                parent_step == p.step,
                next_step == p.step + 1,
                parent_content@ == p.content@,
                child_confidence == decayed_confidence(p.confidence),
                cv == contents_view(contents),
                forall|k: int|
                    0 <= k < results@.len() ==> is_branch(#[trigger] results@[k], p, cv, k as nat)
                        && graph.has_node(results@[k].id@),
                forall|x: Seq<char>| g0.has_node(x) ==> #[trigger] graph.has_node(x),
                graph.topics == g0.topics,
                graph.current_topic_id == g0.current_topic_id,
                node_ids(graph.nodes@) == put_ids(node_ids(g0.nodes@), branch_ids(results@)),
                divergence_edges(node_id@, results@, es),
                graph.edges@ == put_edges(g0.edges@, es),
            decreases count - i,
        {
            let content = branch_text(parent_content.as_str(), &contents, i);
            let extra = draw_below(&mut rng, 300);
            let child_weight = branch_weight(parent_weight, extra);
            let child = Node::new_with(
                content.clone(),
                next_step,
                content,
                child_weight,
                child_confidence,
                0,
            );
            let ghost cn = child;
            let child_id = child.id.clone();
            let edge = Edge::new_with_weight(
                String::from_str(node_id),
                child_id.clone(),
                EdgeType::Divergence,
                child_weight,
            );
            let ghost e = edge;
            let ghost g1 = *graph;
            graph.add_node(child);
            proof {
                lemma_put_node(g1.nodes@, cn);
                lemma_put_node_ids(g1.nodes@, cn);
            }
            let ghost g2 = *graph;
            let ghost j = node_ids(g2.nodes@).index_of(cn.id@);
            graph.add_edge(edge);
            assert(node_ids(graph.nodes@) =~= node_ids(g2.nodes@)) by {
                assert forall|k: int| 0 <= k < g2.nodes@.len() implies graph.nodes@[k].id
                    == g2.nodes@[k].id by {
                    assert(crate::models::graph::linked_node(g2.nodes@[k], graph.nodes@[k], e));
                }
            }
            assert(crate::models::graph::linked_node(g2.nodes@[j], graph.nodes@[j], e));
            assert(graph.has_node(child_id@));
            proof {
                crate::models::graph::lemma_unique_index(node_ids(graph.nodes@), j);
                assert(node_ids(graph.nodes@)[j] == cn.id@);
            }
            proof {
                assert forall|x: Seq<char>| g1.has_node(x) implies #[trigger] graph.has_node(x) by {
                    assert(node_ids(put_node(g1.nodes@, cn)).contains(x));
                }
            }
            let ghost before = results@;
            let ghost es_before = es;
            proof {
                es = es.push(e);
            }
            match graph.get_node(child_id.as_str()) {
                Some(n) => {
                    let copy = n.copy();
                    proof {
                        let orig = graph.nodes@[j];
                        assert(g2.nodes@[j] == cn);
                        assert(same_but_edges(cn, orig));
                        assert(names_view(orig.parent_edges@) =~= seq![e.id@]);
                        assert(names_view(copy.key_findings@).len() == copy.key_findings@.len());
                        assert(names_view(copy.relevant_topics@).len() == copy.relevant_topics@.len());
                        assert(names_view(cn.key_findings@).len() == cn.key_findings@.len());
                        assert(names_view(cn.relevant_topics@).len() == cn.relevant_topics@.len());
                        assert(is_branch(copy, p, cv, i as nat));
                    }
                    results.push(copy);
                    proof {
                        assert(results@.last().id@ == cn.id@);
                        assert(branch_ids(results@) =~= branch_ids(before).push(cn.id@));
                        assert(branch_ids(before).push(cn.id@).drop_last() =~= branch_ids(before));
                        assert(node_ids(graph.nodes@) == put_id(node_ids(g1.nodes@), cn.id@));
                        assert(results@.drop_last() =~= before);
                        assert(es.drop_last() =~= es_before);
                        assert(divergence_edges(node_id@, results@, es)) by {
                            assert forall|k: int| 0 <= k < results@.len() implies edge_to_branch(node_id@, #[trigger] results@[k], es[k]) by {
                                if k < before.len() {
                                    assert(results@[k] == before[k]);
                                    assert(es[k] == es_before[k]);
                                }
                            }
                        }
                    }
                },
                None => {
                    assert(false);
                },
            }
            assert forall|k: int| 0 <= k < results@.len() implies is_branch(
                #[trigger] results@[k],
                p,
                cv,
                k as nat,
            ) && graph.has_node(results@[k].id@) by {
                if k < before.len() {
                    assert(results@[k] == before[k]);
                    assert(g1.has_node(before[k].id@));
                }
            }
            i = i + 1;
        }
        results
    }

    /// Computes `count` branches of a node without adding them to a graph
    /// (see `is_loose_branch`).
    pub fn diverge_only(&self, node: &Node, count: i32) -> (r: Vec<Node>)
        requires
            node.step < i32::MAX,
        ensures
            r@.len() == (if count > 0 {
                count as int
            } else {
                0
            }),
            forall|k: int| 0 <= k < r@.len() ==> is_loose_branch(#[trigger] r@[k], *node, k as nat),
    {
        let mut rng = self.get_rng();
        let next_step = node.step + 1;
        let child_confidence = branch_confidence(node.confidence);
        let mut results: Vec<Node> = Vec::new();
        let mut i: i32 = 0;
        while i < count
            invariant
                0 <= i,
                count > 0 ==> i <= count,
                count <= 0 ==> i == 0,
                results@.len() == i,
                next_step == node.step + 1,
                child_confidence == decayed_confidence(node.confidence),
                forall|k: int|
                    0 <= k < results@.len() ==> is_loose_branch(#[trigger] results@[k], *node, k as nat),
            decreases count - i,
        {
            let mut content = String::from_str("發散分支 ");
            push_decimal(&mut content, (i as u64) + 1);
            push_str(&mut content, "（待加入圖中）");
            let extra = draw_below(&mut rng, 300);
            let child_weight = branch_weight(node.weight, extra);
            let child = Node::new_with(
                content.clone(),
                next_step,
                content,
                child_weight,
                child_confidence,
                0,
            );
            results.push(child);
            i = i + 1;
        }
        results
    }
}

impl Default for DivergeEngine {
    fn default() -> (e: Self)
        ensures
            e.seed is None,
    {
        DivergeEngine::new()
    }
}

} // verus!
