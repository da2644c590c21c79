//! Convergence: marking weak nodes of the reasoning graph pruned.
//!
//! Scores are in millionths (weight times confidence, each in thousandths);
//! thresholds of score and complexity are in thousandths.
use vstd::prelude::*;

use crate::engine::budget::{high_confidence, ThresholdGate};
use crate::models::graph::{complexity_sum, is_live_node, node_ids, Graph};
use crate::models::node::{same_but_status, Node, NodeStatus};
use crate::ollama::client::names_view;

verus! {

/// A node that convergence may still prune: neither pruned nor locked.
pub open spec fn open_node(n: Node) -> bool {
    n.status != NodeStatus::Pruned && n.status != NodeStatus::Locked
}

/// A node's score, in millionths.
pub open spec fn node_score(n: Node) -> int {
    n.weight * n.confidence
}

/// Which open nodes a pass of convergence prunes.
#[derive(Debug, Clone, Copy)]
pub enum PruneRule {
    /// Those whose score (in millionths) is under the bound.
    ScoreBelow(u128),
    /// Those whose confidence (in thousandths) is under the bound.
    ConfidenceBelow(u32),
    /// Those whose confidence (in thousandths) is over the bound.
    ConfidenceAbove(u32),
    /// All of them.
    Every,
}

/// Whether a rule picks a node.
pub open spec fn picks(rule: PruneRule) -> spec_fn(Node) -> bool {
    |n: Node|
        open_node(n) && match rule {
            PruneRule::ScoreBelow(b) => node_score(n) < b,
            PruneRule::ConfidenceBelow(c) => n.confidence < c,
            PruneRule::ConfidenceAbove(c) => n.confidence > c,
            PruneRule::Every => true,
        }
}

/// `after` is `before` with the nodes that `p` picks marked pruned.
pub open spec fn pruned_where(before: Seq<Node>, after: Seq<Node>, p: spec_fn(Node) -> bool) -> bool {
    &&& after.len() == before.len()
    &&& forall|k: int|
        0 <= k < before.len() ==> if p(before[k]) {
            same_but_status(before[k], #[trigger] after[k]) && after[k].status == NodeStatus::Pruned
        } else {
            after[k] == before[k]
        }
}

/// Everything but the nodes stays as it was.
pub open spec fn same_but_nodes(a: Graph, b: Graph) -> bool {
    &&& a.edges == b.edges
    &&& a.topics == b.topics
    &&& a.current_topic_id == b.current_topic_id
}

/// Two nodes of a well-formed list that differ in place differ in
/// identifier.
proof fn lemma_ids_differ(ns: Seq<Node>, j: int)
    requires
        node_ids(ns).no_duplicates(),
        0 <= j < ns.len(),
    ensures
        forall|k: int| 0 <= k < ns.len() && k != j ==> #[trigger] ns[k].id@ != ns[j].id@,
{
    assert forall|k: int| 0 <= k < ns.len() && k != j implies #[trigger] ns[k].id@ != ns[j].id@ by {
        assert(node_ids(ns)[k] == ns[k].id@);
        assert(node_ids(ns)[j] == ns[j].id@);
    }
}

/// Whether a rule picks a node.
fn rule_picks(rule: PruneRule, n: &Node) -> (b: bool)
    ensures
        b == picks(rule)(*n),
{
    let open = n.status != NodeStatus::Pruned && n.status != NodeStatus::Locked;
    open && match rule {
        PruneRule::ScoreBelow(bound) => (n.score() as u128) < bound,
        PruneRule::ConfidenceBelow(c) => n.confidence < c,
        PruneRule::ConfidenceAbove(c) => n.confidence > c,
        PruneRule::Every => true,
    }
}

/// Marks pruned every node that the rule picks; gives their identifiers,
/// in the order of the nodes.
fn prune_picked(graph: &mut Graph, rule: PruneRule) -> (r: Vec<String>)
    requires
        old(graph).wf(),
    ensures
        final(graph).wf(),
        pruned_where(old(graph).nodes@, final(graph).nodes@, picks(rule)),
        same_but_nodes(*old(graph), *final(graph)),
        names_view(r@) == node_ids(old(graph).nodes@.filter(picks(rule))),
{
    let ghost before = graph.nodes@;
    let ghost p = picks(rule);
    let mut r: Vec<String> = Vec::new();
    let mut i: usize = 0;
    assert(before.take(0) =~= Seq::<Node>::empty());
    assert(Seq::<Node>::empty().filter(p) =~= Seq::<Node>::empty()) by {
        reveal(Seq::filter);
    }
    while i < graph.nodes.len()
        invariant
            graph.wf(),
            p == picks(rule),
            i <= before.len(),
            graph.nodes@.len() == before.len(),
            node_ids(graph.nodes@) == node_ids(before),
            forall|k: int|
                0 <= k < i ==> if p(before[k]) {
                    same_but_status(before[k], #[trigger] graph.nodes@[k])
                        && graph.nodes@[k].status == NodeStatus::Pruned
                } else {
                    graph.nodes@[k] == before[k]
                },
            forall|k: int| i <= k < before.len() ==> #[trigger] graph.nodes@[k] == before[k],
            same_but_nodes(*old(graph), *graph),
            before == old(graph).nodes@,
            names_view(r@) == node_ids(before.take(i as int).filter(p)),
        decreases before.len() - i,
    {
        proof {
            assert(before.take(i + 1) =~= before.take(i as int).push(before[i as int]));
            before.take(i as int).lemma_filter_push(before[i as int], p);
        }
        if rule_picks(rule, &graph.nodes[i]) {
            let id = graph.nodes[i].id.clone();
            let ghost cur = graph.nodes@;
            proof {
                lemma_ids_differ(cur, i as int);
            }
            graph.prune_node(&id);
            let ghost f = before.take(i as int).filter(p);
            let ghost r0 = r@;
            assert(id@ == before[i as int].id@);
            r.push(id);
            proof {
                assert(r@ == r0.push(id));
                assert(names_view(r@) =~= names_view(r0).push(id@));
                assert(node_ids(f.push(before[i as int])) =~= node_ids(f).push(before[i as int].id@));
                assert(node_ids(graph.nodes@) =~= node_ids(before)) by {
                    assert forall|k: int| 0 <= k < before.len() implies node_ids(graph.nodes@)[k]
                        == node_ids(before)[k] by {
                        assert(node_ids(cur)[k] == node_ids(before)[k]);
                    }
                }
            }
        }
        i = i + 1;
    }
    proof {
        assert(before.take(before.len() as int) =~= before);
    }
    r
}

/// How many nodes are open.
pub open spec fn open_count(s: Seq<Node>) -> nat
    decreases s.len(),
{
    if s.len() == 0 {
        0
    } else {
        open_count(s.drop_last()) + if open_node(s.last()) {
            1nat
        } else {
            0nat
        }
    }
}

/// Closing one open node, and changing no other, leaves one open node
/// fewer.
proof fn lemma_open_count_closes(a: Seq<Node>, b: Seq<Node>, j: int)
    requires
        a.len() == b.len(),
        0 <= j < a.len(),
        forall|k: int| 0 <= k < a.len() && k != j ==> b[k] == a[k],
        open_node(a[j]),
        !open_node(b[j]),
    ensures
        open_count(b) + 1 == open_count(a),
    decreases a.len(),
{
    if j == a.len() - 1 {
        assert(a.drop_last() =~= b.drop_last());
    } else {
        lemma_open_count_closes(a.drop_last(), b.drop_last(), j);
    }
}

/// The first open node of least score, if there is an open node.
fn lowest_open(nodes: &Vec<Node>) -> (r: Option<usize>)
    ensures
        match r {
            Some(j) => {
                &&& j < nodes@.len()
                &&& open_node(nodes@[j as int])
                &&& forall|k: int|
                    0 <= k < nodes@.len() && open_node(#[trigger] nodes@[k]) ==> node_score(nodes@[j as int])
                        <= node_score(nodes@[k])
            },
            None => forall|k: int| 0 <= k < nodes@.len() ==> !open_node(#[trigger] nodes@[k]),
        },
{
    let mut best: Option<usize> = None;
    let mut best_score: u64 = 0;
    let mut i: usize = 0;
    while i < nodes.len()
        invariant
            i <= nodes@.len(),
            match best {
                Some(j) => {
                    &&& j < i
                    &&& open_node(nodes@[j as int])
                    &&& best_score == node_score(nodes@[j as int])
                    &&& forall|k: int|
                        0 <= k < i && open_node(#[trigger] nodes@[k]) ==> best_score <= node_score(nodes@[k])
                },
                None => forall|k: int| 0 <= k < i ==> !open_node(#[trigger] nodes@[k]),
            },
        decreases nodes@.len() - i,
    {
        let n = &nodes[i];
        if n.status != NodeStatus::Pruned && n.status != NodeStatus::Locked {
            let s = n.score();
            match best {
                Some(_) => {
                    if s < best_score {
                        best = Some(i);
                        best_score = s;
                    }
                },
                None => {
                    best = Some(i);
                    best_score = s;
                },
            }
        }
        i = i + 1;
    }
    best
}

/// The complexity of the nodes not pruned, in thousandths.
pub open spec fn live_complexity(ns: Seq<Node>) -> nat {
    complexity_sum(ns.filter(is_live_node()))
}

/// The convergence engine: prunes weak nodes through its threshold gate.
#[derive(Debug, Clone, Copy)]
pub struct ConvergeEngine {
    threshold_gate: ThresholdGate,
}

impl ConvergeEngine {
    /// What the engine decides with.
    pub closed spec fn gate(&self) -> ThresholdGate {
        self.threshold_gate
    }

    /// An engine with the default gate.
    pub fn new() -> (e: Self)
        ensures
            e.gate() == ThresholdGate::new_spec(),
    {
        ConvergeEngine { threshold_gate: ThresholdGate::new() }
    }

    /// An engine whose gate has the given threshold (in thousandths) and the
    /// default confidence weight.
    pub fn new_with_threshold(threshold: u64) -> (e: Self)
        ensures
            e.gate() == ThresholdGate::new_with_spec(threshold, 600),
    {
        ConvergeEngine { threshold_gate: ThresholdGate::new_with(threshold, 600) }
    }

    /// An engine with the given gate.
    pub fn new_with_gate(gate: ThresholdGate) -> (e: Self)
        ensures
            e.gate() == gate,
    {
        ConvergeEngine { threshold_gate: gate }
    }

    /// Marks pruned every open node whose score is under the threshold (the
    /// one given, else its gate's; in thousandths); gives their
    /// identifiers, in the order of the nodes.
    pub fn converge(&self, graph: &mut Graph, threshold: Option<u64>) -> (r: Vec<String>)
        requires
            old(graph).wf(),
        ensures
            final(graph).wf(),
            pruned_where(
                old(graph).nodes@,
                final(graph).nodes@,
                picks(PruneRule::ScoreBelow(score_bound(threshold, self.gate()) as u128)),
            ),
            same_but_nodes(*old(graph), *final(graph)),
            names_view(r@) == node_ids(
                old(graph).nodes@.filter(
                    picks(PruneRule::ScoreBelow(score_bound(threshold, self.gate()) as u128)),
                ),
            ),
    {
        let t: u64 = match threshold {
            Some(t) => t,
            None => self.threshold_gate.threshold,
        };
        prune_picked(graph, PruneRule::ScoreBelow((t as u128) * 1000))
    }

    /// Marks pruned every open node whose confidence (in thousandths) is
    /// under the bound; gives their identifiers, in the order of the nodes.
    pub fn converge_by_confidence(&self, graph: &mut Graph, confidence_threshold: u32) -> (r: Vec<String>)
        requires
            old(graph).wf(),
        ensures
            final(graph).wf(),
            pruned_where(old(graph).nodes@, final(graph).nodes@, picks(PruneRule::ConfidenceBelow(confidence_threshold))),
            same_but_nodes(*old(graph), *final(graph)),
            names_view(r@) == node_ids(old(graph).nodes@.filter(picks(PruneRule::ConfidenceBelow(confidence_threshold)))),
    {
        prune_picked(graph, PruneRule::ConfidenceBelow(confidence_threshold))
    }

    /// Marks pruned every open node for which its gate calls for
    /// convergence at the given complexity (in thousandths): all of them
    /// when the complexity is over the threshold, else those whose
    /// confidence is over 0.8; gives their identifiers, in order.
    pub fn converge_smart(&self, graph: &mut Graph, current_complexity: u64) -> (r: Vec<String>)
        requires
            old(graph).wf(),
        ensures
            final(graph).wf(),
            pruned_where(old(graph).nodes@, final(graph).nodes@, picks(smart_rule(self.gate(), current_complexity))),
            same_but_nodes(*old(graph), *final(graph)),
            names_view(r@) == node_ids(old(graph).nodes@.filter(picks(smart_rule(self.gate(), current_complexity)))),
    {
        if current_complexity > self.threshold_gate.threshold {
            prune_picked(graph, PruneRule::Every)
        } else {
            prune_picked(graph, PruneRule::ConfidenceAbove(800))
        }
    }

    /// While the complexity of the nodes not pruned is over the limit (in
    /// thousandths), marks pruned the first open node of least score; stops
    /// when within the limit or when no node is open. Gives the identifiers
    /// pruned, in the order they were pruned.
    pub fn converge_by_complexity(&self, graph: &mut Graph, max_complexity: u128) -> (r: Vec<String>)
        requires
            old(graph).wf(),
        ensures
            final(graph).wf(),
            same_but_nodes(*old(graph), *final(graph)),
            final(graph).nodes@.len() == old(graph).nodes@.len(),
            forall|k: int|
                0 <= k < old(graph).nodes@.len() ==> if names_view(r@).contains(old(graph).nodes@[k].id@) {
                    open_node(old(graph).nodes@[k]) && same_but_status(old(graph).nodes@[k], #[trigger] final(graph).nodes@[k])
                        && final(graph).nodes@[k].status == NodeStatus::Pruned
                } else {
                    final(graph).nodes@[k] == old(graph).nodes@[k]
                },
            names_view(r@).no_duplicates(),
            forall|i: int| 0 <= i < r@.len() ==> node_ids(old(graph).nodes@).contains(#[trigger] names_view(r@)[i]),
            live_complexity(final(graph).nodes@) <= max_complexity
                || forall|k: int| 0 <= k < final(graph).nodes@.len() ==> !open_node(#[trigger] final(graph).nodes@[k]),
            r@.len() > 0 ==> live_complexity(old(graph).nodes@) > max_complexity,
            forall|k1: int, k2: int|
                0 <= k1 < old(graph).nodes@.len() && 0 <= k2 < final(graph).nodes@.len()
                    && names_view(r@).contains(#[trigger] old(graph).nodes@[k1].id@)
                    && open_node(#[trigger] final(graph).nodes@[k2])
                    ==> node_score(old(graph).nodes@[k1]) <= node_score(final(graph).nodes@[k2]),
    {
        let ghost before = graph.nodes@;
        let mut r: Vec<String> = Vec::new();
        loop
            invariant
                graph.wf(),
                before == old(graph).nodes@,
                graph.nodes@.len() == before.len(),
                node_ids(graph.nodes@) == node_ids(before),
                same_but_nodes(*old(graph), *graph),
                forall|k: int|
                    0 <= k < before.len() ==> if names_view(r@).contains(before[k].id@) {
                        open_node(before[k]) && same_but_status(before[k], #[trigger] graph.nodes@[k])
                            && graph.nodes@[k].status == NodeStatus::Pruned
                    } else {
                        graph.nodes@[k] == before[k]
                    },
                names_view(r@).no_duplicates(),
                forall|i: int| 0 <= i < r@.len() ==> node_ids(before).contains(#[trigger] names_view(r@)[i]),
                r@.len() > 0 ==> live_complexity(before) > max_complexity,
                forall|k1: int, k2: int|
                    0 <= k1 < before.len() && 0 <= k2 < graph.nodes@.len()
                        && names_view(r@).contains(#[trigger] before[k1].id@)
                        && open_node(#[trigger] graph.nodes@[k2])
                        ==> node_score(before[k1]) <= node_score(graph.nodes@[k2]),
            ensures
                live_complexity(graph.nodes@) <= max_complexity
                    || forall|k: int| 0 <= k < graph.nodes@.len() ==> !open_node(#[trigger] graph.nodes@[k]),
            decreases open_count(graph.nodes@),
        {
            let total = graph.total_complexity();
            if total <= max_complexity {
                break;
            }
            match lowest_open(&graph.nodes) {
                None => {
                    break;
                },
                Some(j) => {
                    let ghost cur = graph.nodes@;
                    let ghost r0 = r@;
                    let id = graph.nodes[j].id.clone();
                    proof {
                        lemma_ids_differ(cur, j as int);
                        lemma_ids_differ(before, j as int);
                        assert(node_ids(cur)[j as int] == node_ids(before)[j as int]);
                        if names_view(r0).contains(before[j as int].id@) {
                            assert(!open_node(cur[j as int]));
                        }
                        assert(cur[j as int] == before[j as int]);
                        if r0.len() == 0 {
                            assert(cur =~= before);
                        }
                    }
                    graph.prune_node(&id);
                    r.push(id);
                    proof {
                        let after = graph.nodes@;
                        assert(names_view(r@) =~= names_view(r0).push(before[j as int].id@));
                        assert(node_ids(after) =~= node_ids(before)) by {
                            assert forall|k: int| 0 <= k < before.len() implies node_ids(after)[k]
                                == node_ids(before)[k] by {
                                assert(node_ids(cur)[k] == node_ids(before)[k]);
                            }
                        }
                        assert(node_ids(before)[j as int] == before[j as int].id@);
                        assert forall|k: int|
                            0 <= k < before.len() && k != j implies #[trigger] before[k].id@
                            != before[j as int].id@ by {}
                        lemma_open_count_closes(cur, after, j as int);
                        assert forall|k: int| 0 <= k < before.len() implies if names_view(r@).contains(
                            before[k].id@,
                        ) {
                            open_node(before[k]) && same_but_status(before[k], #[trigger] after[k])
                                && after[k].status == NodeStatus::Pruned
                        } else {
                            after[k] == before[k]
                        } by {
                            if k != j {
                                assert(cur[k].id@ != id@);
                                let y = before[k].id@;
                                let nr = names_view(r@);
                                let n0 = names_view(r0);
                                if n0.contains(y) {
                                    let i = n0.index_of(y);
                                    assert(nr[i] == y);
                                }
                                if nr.contains(y) {
                                    let i = nr.index_of(y);
                                    assert(i < n0.len());
                                    assert(n0[i] == y);
                                }
                            } else {
                                assert(names_view(r@)[r0.len() as int] == before[k].id@);
                            }
                        }
                    }
                },
            }
        }
        r
    }

    /// The engine's gate.
    pub fn get_threshold_gate(&self) -> (g: ThresholdGate)
        ensures
            g == self.gate(),
    {
        self.threshold_gate
    }

    /// Replaces the engine's gate.
    pub fn set_threshold_gate(&mut self, gate: ThresholdGate)
        ensures
            final(self).gate() == gate,
    {
        self.threshold_gate = gate;
    }
}

/// The score bound (in millionths) of `converge`: the threshold given, else
/// that of a threshold gate, times a thousand.
pub open spec fn score_bound(threshold: Option<u64>, gate: ThresholdGate) -> int {
    match threshold {
        Some(t) => t * 1000,
        None => gate.threshold * 1000,
    }
}

/// The rule of `converge_smart`: every open node when the complexity is
/// over the threshold, else those whose confidence is over 0.8.
pub open spec fn smart_rule(gate: ThresholdGate, complexity: u64) -> PruneRule {
    if complexity > gate.threshold {
        PruneRule::Every
    } else {
        PruneRule::ConfidenceAbove(high_confidence() as u32)
    }
}

impl Default for ConvergeEngine {
    fn default() -> (e: Self)
        ensures
            e.gate() == ThresholdGate::new_spec(),
    {
        ConvergeEngine::new()
    }
}

} // verus!
