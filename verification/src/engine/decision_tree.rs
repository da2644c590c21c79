//! Decision trees: the reasoning graph below a root, as directions,
//! branches and priorities in Markdown.
//!
//! Scores are in millionths and confidences in thousandths. A tree follows
//! child edges as many levels down as the graph has nodes, which is every
//! path of a graph without cycles.
use vstd::prelude::*;

use crate::export::serializers::concat_map;
use crate::fixed::{digit_char_exec, fixed2, push_decimal_wide, push_fixed2};
use crate::models::graph::{capped, children_of, derefs, is_root_node, lemma_unique_index_topic, node_ids, reach_count, topic_ids, Graph};
use crate::models::node::{Node, NodeStatus};
use crate::stamp::Timestamp;
use crate::text::{decimal, digit_char, push_decimal, push_str};

verus! {

/// A node of a decision tree.
#[derive(Debug)]
pub struct DecisionNode {
    /// The node's identifier.
    pub id: String,
    /// Its content.
    pub content: String,
    /// Its score, in millionths.
    pub score: u64,
    /// Its confidence, in thousandths.
    pub confidence: u32,
    /// Whether it is locked.
    pub is_locked: bool,
    /// The branches below it.
    pub children: Vec<DecisionNode>,
}

/// The children of a node that are not pruned.
pub open spec fn live_children(g: Graph, id: Seq<char>) -> Seq<Node> {
    children_of(g, id).filter(|c: Node| c.status != NodeStatus::Pruned)
}

/// `d` is the tree of node `n` of graph `g`, going `fuel` levels down: its
/// fields are the node's, its children the trees of the node's children
/// that are not pruned, in order.
pub open spec fn built_from(g: Graph, n: Node, fuel: nat, d: DecisionNode) -> bool
    decreases fuel,
{
    &&& d.id@ == n.id@
    &&& d.content@ == n.content@
    &&& d.score == n.weight * n.confidence
    &&& d.confidence == n.confidence
    &&& d.is_locked == (n.status == NodeStatus::Locked)
    &&& if fuel == 0 {
        d.children@.len() == 0
    } else {
        let cs = live_children(g, n.id@);
        &&& d.children@.len() == cs.len()
        &&& forall|i: int|
            0 <= i < cs.len() ==> built_from(g, cs[i], (fuel - 1) as nat, #[trigger] d.children@[i])
    }
}

/// The number of nodes of a tree (stopping at the largest `usize`).
pub open spec fn tree_count(d: DecisionNode) -> int
    decreases d, 1nat,
{
    capped(1 + forest_count(d.children@))
}

/// The number of nodes of a list of trees (stopping at the largest
/// `usize`).
pub open spec fn forest_count(cs: Seq<DecisionNode>) -> int
    decreases cs, 0nat,
{
    if cs.len() == 0 {
        0
    } else {
        capped(forest_count(cs.subrange(0, cs.len() - 1)) + tree_count(cs[cs.len() - 1]))
    }
}

/// The number of levels of a tree (stopping at the largest `usize`).
pub open spec fn tree_depth(d: DecisionNode) -> int
    decreases d, 1nat,
{
    capped(1 + forest_depth(d.children@))
}

/// The most levels among a list of trees, none for an empty list.
pub open spec fn forest_depth(cs: Seq<DecisionNode>) -> int
    decreases cs, 0nat,
{
    if cs.len() == 0 {
        0
    } else {
        let a = forest_depth(cs.subrange(0, cs.len() - 1));
        let b = tree_depth(cs[cs.len() - 1]);
        if a >= b {
            a
        } else {
            b
        }
    }
}

/// The tree of a node, going `fuel` levels down.
fn build(graph: &Graph, node: &Node, fuel: usize) -> (d: DecisionNode)
    requires
        graph.wf(),
    ensures
        built_from(*graph, *node, fuel as nat, d),
    decreases fuel,
{
    let mut children: Vec<DecisionNode> = Vec::new();
    if fuel > 0 {
        let cs = graph.get_children(node.id.as_str());
        let ghost all = derefs(cs@);
        let ghost p = |c: Node| c.status != NodeStatus::Pruned;
        assert(all == children_of(*graph, node.id@));
        let mut i: usize = 0;
        assert(all.take(0) =~= Seq::<Node>::empty());
        assert(Seq::<Node>::empty().filter(p) =~= Seq::<Node>::empty()) by {
            reveal(Seq::filter);
        }
        while i < cs.len()
            invariant
                graph.wf(),
                fuel > 0,
                i <= cs@.len(),
                all == derefs(cs@),
                p == (|c: Node| c.status != NodeStatus::Pruned),
                children@.len() == all.take(i as int).filter(p).len(),
                forall|j: int|
                    0 <= j < children@.len() ==> built_from(
                        *graph,
                        all.take(i as int).filter(p)[j],
                        (fuel - 1) as nat,
                        #[trigger] children@[j],
                    ),
            decreases cs.len() - i,
        {
            proof {
                assert(all.take(i + 1) =~= all.take(i as int).push(all[i as int]));
                all.take(i as int).lemma_filter_push(all[i as int], p);
            }
            let c: &Node = cs[i];
            if c.status != NodeStatus::Pruned {
                let sub = build(graph, c, fuel - 1);
                children.push(sub);
            }
            i = i + 1;
        }
        assert(all.take(all.len() as int) =~= all);
    }
    proof {
        assert(node.weight * node.confidence <= 0xffff_ffff * 0xffff_ffff) by (nonlinear_arith)
            requires
                node.weight <= 0xffff_ffff,
                node.confidence <= 0xffff_ffff,
        ;
    }
    DecisionNode {
        id: node.id.clone(),
        content: node.content.clone(),
        score: node.score(),
        confidence: node.confidence,
        is_locked: node.status == NodeStatus::Locked,
        children,
    }
}

impl DecisionNode {
    /// The tree of a graph's node (see `built_from`), as many levels down
    /// as the graph has nodes.
    pub fn from_node(graph: &Graph, node: &Node) -> (d: Self)
        requires
            graph.wf(),
        ensures
            built_from(*graph, *node, graph.nodes@.len() as nat, d),
    {
        build(graph, node, graph.nodes.len())
    }

    /// The number of levels of the tree (see `tree_depth`).
    pub fn depth(&self) -> (r: usize)
        ensures
            r == tree_depth(*self),
        decreases self,
    {
        let mut best: usize = 0;
        let mut i: usize = 0;
        while i < self.children.len()
            invariant
                i <= self.children@.len(),
                best == forest_depth(self.children@.subrange(0, i as int)),
            decreases self.children.len() - i,
        {
            assert(self.children@.subrange(0, i + 1).subrange(0, i as int) =~= self.children@.subrange(0, i as int));
            assert(decreases_to!(*self => self.children@[i as int]));
            let d = self.children[i].depth();
            if d > best {
                best = d;
            }
            i = i + 1;
        }
        assert(self.children@.subrange(0, self.children@.len() as int) =~= self.children@);
        best.saturating_add(1)
    }

    /// The number of nodes of the tree (see `tree_count`).
    pub fn count(&self) -> (r: usize)
        ensures
            r == tree_count(*self),
        decreases self,
    {
        let mut total: usize = 0;
        let mut i: usize = 0;
        while i < self.children.len()
            invariant
                i <= self.children@.len(),
                total == forest_count(self.children@.subrange(0, i as int)),
            decreases self.children.len() - i,
        {
            assert(self.children@.subrange(0, i + 1).subrange(0, i as int) =~= self.children@.subrange(0, i as int));
            assert(decreases_to!(*self => self.children@[i as int]));
            let c = self.children[i].count();
            total = total.saturating_add(c);
            i = i + 1;
        }
        assert(self.children@.subrange(0, self.children@.len() as int) =~= self.children@);
        total.saturating_add(1)
    }
}

/// A score in millionths with two decimals, the third rounded half up.
pub open spec fn score2(v: nat) -> Seq<char> {
    let h = (v + 5000) / 10000;
    decimal(h / 100) + seq!['.', digit_char((h / 10) % 10), digit_char(h % 10)]
}

/// Appends a score in millionths with two decimals (see `score2`).
pub(crate) fn push_score2(s: &mut String, v: u64)
    ensures
        final(s)@ == old(s)@ + score2(v as nat),
{
    let h: u128 = ((v as u128) + 5000) / 10000;
    push_decimal_wide(s, h / 100);
    s.push('.');
    s.push(digit_char_exec((h / 10) % 10));
    s.push(digit_char_exec(h % 10));
    assert(s@ =~= old(s)@ + score2(v as nat));
}

/// A decision tree: a topic, the tree of its root, and its node count.
#[derive(Debug)]
pub struct DecisionTree {
    /// The topic's name.
    pub topic: String,
    /// The tree of the root.
    pub root: DecisionNode,
    /// The number of nodes.
    pub total_nodes: usize,
}

/// The index of the first node of a list with an identifier.
pub open spec fn first_with_id(ns: Seq<Node>, id: Seq<char>) -> Option<int>
    decreases ns.len(),
{
    if ns.len() == 0 {
        None
    } else {
        match first_with_id(ns.drop_last(), id) {
            Some(i) => Some(i),
            None => if ns.last().id@ == id {
                Some(ns.len() - 1)
            } else {
                None
            },
        }
    }
}

/// The root a decision tree of the graph starts from: among the nodes
/// without incoming edges, the current topic's root where it is one of
/// them, else the first; none without such nodes.
pub open spec fn tree_root(g: Graph) -> Option<Node> {
    let rs = g.nodes@.filter(is_root_node());
    if rs.len() == 0 {
        None
    } else {
        match g.current_topic() {
            Some(t) => match first_with_id(rs, t.root_node_id@) {
                Some(i) => Some(rs[i]),
                None => Some(rs[0]),
            },
            None => Some(rs[0]),
        }
    }
}

/// The first node of a list with an identifier (see `first_with_id`).
fn find_with_id<'a>(ns: &Vec<&'a Node>, id: &str) -> (r: Option<usize>)
    ensures
        match r {
            Some(i) => i < ns@.len() && first_with_id(derefs(ns@), id@) == Some(i as int),
            None => first_with_id(derefs(ns@), id@) is None,
        },
{
    let ghost all = derefs(ns@);
    let mut i: usize = 0;
    while i < ns.len()
        invariant
            i <= ns@.len(),
            all == derefs(ns@),
            first_with_id(all.take(i as int), id@) is None,
        decreases ns.len() - i,
    {
        assert(all.take(i + 1).drop_last() =~= all.take(i as int));
        if crate::text::same_text(ns[i].id.as_str(), id) {
            assert(first_with_id(all.take(i + 1), id@) == Some(i as int));
            proof {
                lemma_first_with_id_prefix(all, id@, i + 1);
            }
            return Some(i);
        }
        i = i + 1;
    }
    assert(all.take(all.len() as int) =~= all);
    None
}

/// A match in a prefix is the first match of the whole list.
proof fn lemma_first_with_id_prefix(ns: Seq<Node>, id: Seq<char>, k: int)
    requires
        0 <= k <= ns.len(),
        first_with_id(ns.take(k), id) is Some,
    ensures
        first_with_id(ns, id) == first_with_id(ns.take(k), id),
    decreases ns.len() - k,
{
    if k < ns.len() {
        assert(ns.take(k + 1).drop_last() =~= ns.take(k));
        lemma_first_with_id_prefix(ns, id, k + 1);
    } else {
        assert(ns.take(k) =~= ns);
    }
}

impl DecisionTree {
    /// The decision tree of a graph under a topic name: the tree of
    /// `tree_root`, with its node count; none without a root.
    pub fn from_graph(graph: &Graph, topic: &str) -> (r: Option<Self>)
        requires
            graph.wf(),
        ensures
            match tree_root(*graph) {
                None => r is None,
                Some(n) => r is Some && r->0.topic@ == topic@ && built_from(
                    *graph,
                    n,
                    graph.nodes@.len() as nat,
                    r->0.root,
                ) && r->0.total_nodes == tree_count(r->0.root),
            },
    {
        let roots = graph.get_root_nodes();
        if roots.len() == 0 {
            return None;
        }
        let ghost rs = derefs(roots@);
        assert(rs == graph.nodes@.filter(is_root_node()));
        let idx: usize = match graph.get_current_topic() {
            Some(t) => match find_with_id(&roots, t.root_node_id.as_str()) {
                Some(i) => {
                    assert(tree_root(*graph) == Some(rs[i as int]));
                    i
                },
                None => {
                    assert(tree_root(*graph) == Some(rs[0]));
                    0
                },
            },
            None => {
                assert(tree_root(*graph) == Some(rs[0]));
                0
            },
        };
        let root_node: &Node = roots[idx];
        assert(*root_node == rs[idx as int]);
        let decision_root = DecisionNode::from_node(graph, root_node);
        let total_nodes = decision_root.count();
        Some(DecisionTree { topic: String::from_str(topic), root: decision_root, total_nodes })
    }
}

/// A branch's line: its content, score and confidence.
pub open spec fn branch_line(d: DecisionNode) -> Seq<char> {
    "- "@ + d.content@ + " (分數:"@ + score2(d.score as nat) + ", 信心:"@ + fixed2(d.confidence as nat) + ")\n"@
}

/// The letter of the direction at index `i`: `A`, `B`, and on.
pub open spec fn direction_label(i: int) -> char {
    (65 + i) as char
}

/// The block of the direction at index `i`: its title, then its branches'
/// lines, or its own score and confidence where it has no branches.
pub open spec fn direction_block(d: DecisionNode, i: int) -> Seq<char> {
    "### 方向 "@ + seq![direction_label(i)] + "："@ + d.content@ + "\n"@ + (if d.children@.len() == 0 {
        "- 分數:"@ + score2(d.score as nat) + ", 信心:"@ + fixed2(d.confidence as nat) + "\n"@
    } else {
        concat_map(d.children@, |c: DecisionNode| branch_line(c), 0)
    }) + "\n"@
}

/// The blocks of the directions from index `i` on.
pub open spec fn directions_from(cs: Seq<DecisionNode>, i: int) -> Seq<char>
    decreases cs.len() - i,
{
    if i < 0 || i >= cs.len() {
        Seq::empty()
    } else {
        direction_block(cs[i], i) + directions_from(cs, i + 1)
    }
}

/// The nodes worth ranking, in pre-order: the leaves and the locked nodes.
pub open spec fn collect(d: DecisionNode) -> Seq<DecisionNode>
    decreases d, 1nat,
{
    (if d.children@.len() == 0 || d.is_locked {
        seq![d]
    } else {
        Seq::empty()
    }) + collect_forest(d.children@)
}

/// The nodes worth ranking of a list of trees, in order.
pub open spec fn collect_forest(cs: Seq<DecisionNode>) -> Seq<DecisionNode>
    decreases cs, 0nat,
{
    if cs.len() == 0 {
        Seq::empty()
    } else {
        collect_forest(cs.subrange(0, cs.len() - 1)) + collect(cs[cs.len() - 1])
    }
}

/// The index of the first node of highest score.
pub open spec fn best_index(s: Seq<DecisionNode>) -> int
    decreases s.len(),
{
    if s.len() <= 1 {
        0
    } else {
        let j = best_index(s.drop_last());
        if s.last().score > s[j].score {
            s.len() - 1
        } else {
            j
        }
    }
}

/// The `k` first nodes by score, highest first, nodes of equal score in
/// their order: what a stable sort by descending score begins with.
pub open spec fn top(s: Seq<DecisionNode>, k: nat) -> Seq<DecisionNode>
    decreases k,
{
    if k == 0 || s.len() == 0 {
        Seq::empty()
    } else {
        let i = best_index(s);
        seq![s[i]] + top(s.remove(i), (k - 1) as nat)
    }
}

/// The word of rank `i`.
pub open spec fn rank_word(i: int) -> Seq<char> {
    if i == 0 {
        "優先"@
    } else if i == 1 {
        "其次"@
    } else if i == 2 {
        "第三"@
    } else {
        "建議"@
    }
}

/// The priority lines from index `i` on, numbered from one.
pub open spec fn priority_lines(ps: Seq<DecisionNode>, i: int) -> Seq<char>
    decreases ps.len() - i,
{
    if i < 0 || i >= ps.len() {
        Seq::empty()
    } else {
        decimal((i + 1) as nat) + ". "@ + rank_word(i) + "："@ + ps[i].content@ + " (分數:"@ + score2(
            ps[i].score as nat,
        ) + ")\n"@ + priority_lines(ps, i + 1)
    }
}

/// The Markdown of a decision tree: the title, the directions (the root's
/// children; the root's own line without any), the five best nodes worth
/// ranking, and the node count.
pub open spec fn tree_markdown(t: DecisionTree) -> Seq<char> {
    "## 決策樹："@ + t.topic@ + "\n\n"@ + (if t.root.children@.len() == 0 {
        branch_line(t.root)
    } else {
        directions_from(t.root.children@, 0)
    }) + "### 建議優先順序\n"@ + priority_lines(top(collect(t.root), 5), 0) + "\n---\n*總節點數："@ + decimal(
        t.total_nodes as nat,
    ) + "*\n"@
}

/// The values that references point to.
pub open spec fn node_refs(v: Seq<&DecisionNode>) -> Seq<DecisionNode> {
    v.map_values(|x: &DecisionNode| *x)
}

/// Appends a branch's line.
fn push_branch_line(s: &mut String, d: &DecisionNode)
    ensures
        final(s)@ == old(s)@ + branch_line(*d),
{
    push_str(s, "- ");
    push_str(s, d.content.as_str());
    push_str(s, " (分數:");
    push_score2(s, d.score);
    push_str(s, ", 信心:");
    push_fixed2(s, d.confidence as u128);
    push_str(s, ")\n");
    assert(s@ =~= old(s)@ + branch_line(*d));
}

/// Appends the block of the direction at index `i`.
fn push_direction_block(s: &mut String, d: &DecisionNode, i: usize)
    requires
        i <= 190,
    ensures
        final(s)@ == old(s)@ + direction_block(*d, i as int),
{
    push_str(s, "### 方向 ");
    let code: u8 = 65u8 + (i as u8);
    let label: char = code as char;
    assert(label == direction_label(i as int));
    s.push(label);
    push_str(s, "：");
    push_str(s, d.content.as_str());
    push_str(s, "\n");
    let ghost head = s@;
    if d.children.len() == 0 {
        push_str(s, "- 分數:");
        push_score2(s, d.score);
        push_str(s, ", 信心:");
        push_fixed2(s, d.confidence as u128);
        push_str(s, "\n");
    } else {
        let ghost f = |c: DecisionNode| branch_line(c);
        let mut k: usize = 0;
        while k < d.children.len()
            invariant
                k <= d.children@.len(),
                f == (|c: DecisionNode| branch_line(c)),
                s@ + concat_map(d.children@, f, k as int) == head + concat_map(d.children@, f, 0),
            decreases d.children.len() - k,
        {
            let ghost before = s@;
            push_branch_line(s, &d.children[k]);
            assert(s@ + concat_map(d.children@, f, k + 1) =~= before + concat_map(d.children@, f, k as int));
            k = k + 1;
        }
        assert(s@ =~= head + concat_map(d.children@, f, 0));
    }
    push_str(s, "\n");
    assert(s@ =~= old(s)@ + direction_block(*d, i as int));
}

/// Appends the nodes worth ranking of a tree (see `collect`).
fn collect_into<'a>(d: &'a DecisionNode, out: &mut Vec<&'a DecisionNode>)
    ensures
        node_refs(final(out)@) == node_refs(old(out)@) + collect(*d),
    decreases d,
{
    let ghost start = node_refs(out@);
    if d.children.len() == 0 || d.is_locked {
        out.push(d);
    }
    assert(node_refs(out@) =~= start + (if d.children@.len() == 0 || d.is_locked {
        seq![*d]
    } else {
        Seq::empty()
    }));
    let ghost mid = node_refs(out@);
    let mut i: usize = 0;
    while i < d.children.len()
        invariant
            i <= d.children@.len(),
            node_refs(out@) == mid + collect_forest(d.children@.subrange(0, i as int)),
        decreases d.children.len() - i,
    {
        assert(d.children@.subrange(0, i + 1).subrange(0, i as int) =~= d.children@.subrange(0, i as int));
        assert(decreases_to!(*d => d.children@[i as int]));
        collect_into(&d.children[i], out);
        assert(node_refs(out@) =~= mid + collect_forest(d.children@.subrange(0, i + 1)));
        i = i + 1;
    }
    assert(d.children@.subrange(0, d.children@.len() as int) =~= d.children@);
}

/// The index of the first node of highest score (see `best_index`).
fn best_of(v: &Vec<&DecisionNode>) -> (r: usize)
    requires
        v@.len() > 0,
    ensures
        r == best_index(node_refs(v@)),
        r < v@.len(),
{
    let ghost all = node_refs(v@);
    let mut best: usize = 0;
    let mut i: usize = 1;
    assert(all.take(1).len() == 1);
    while i < v.len()
        invariant
            1 <= i <= v@.len(),
            all == node_refs(v@),
            best < i,
            best == best_index(all.take(i as int)),
        decreases v.len() - i,
    {
        assert(all.take(i + 1).drop_last() =~= all.take(i as int));
        assert(all.take(i as int)[best as int] == all[best as int]);
        if v[i].score > v[best].score {
            best = i;
        }
        i = i + 1;
    }
    assert(all.take(all.len() as int) =~= all);
    best
}

/// Appends the priority line of rank `i`.
fn push_priority_line(s: &mut String, i: usize, p: &DecisionNode)
    requires
        i < 5,
    ensures
        final(s)@ == old(s)@ + decimal((i + 1) as nat) + ". "@ + rank_word(i as int) + "："@ + p.content@ + " (分數:"@
            + score2(p.score as nat) + ")\n"@,
{
    push_decimal(s, (i + 1) as u64);
    push_str(s, ". ");
    if i == 0 {
        push_str(s, "優先");
    } else if i == 1 {
        push_str(s, "其次");
    } else if i == 2 {
        push_str(s, "第三");
    } else {
        push_str(s, "建議");
    }
    push_str(s, "：");
    push_str(s, p.content.as_str());
    push_str(s, " (分數:");
    push_score2(s, p.score);
    push_str(s, ")\n");
    assert(s@ =~= old(s)@ + decimal((i + 1) as nat) + ". "@ + rank_word(i as int) + "："@ + p.content@ + " (分數:"@
        + score2(p.score as nat) + ")\n"@);
}

/// Appends the priority lines of the five best nodes worth ranking.
#[verifier::spinoff_prover]
fn push_priorities(s: &mut String, root: &DecisionNode)
    ensures
        final(s)@ == old(s)@ + priority_lines(top(collect(*root), 5), 0),
{
    let mut pool: Vec<&DecisionNode> = Vec::new();
    collect_into(root, &mut pool);
    assert(node_refs(pool@) =~= collect(*root));
    let ghost target = top(collect(*root), 5);
    let mut picked: usize = 0;
    let ghost start = s@;
    while picked < 5 && pool.len() > 0
        invariant
            picked <= 5,
            target == top(collect(*root), 5),
            top(node_refs(pool@), (5 - picked) as nat) == target.skip(picked as int),
            picked <= target.len(),
            s@ + priority_lines(target, picked as int) == start + priority_lines(target, 0),
        decreases 5 - picked,
    {
        let b = best_of(&pool);
        let p: &DecisionNode = pool[b];
        let ghost before = s@;
        let ghost ps = node_refs(pool@);
        assert(top(ps, (5 - picked) as nat) == seq![ps[b as int]] + top(ps.remove(b as int), (5 - picked - 1) as nat));
        assert(target.skip(picked as int)[0] == ps[b as int]);
        assert(target[picked as int] == *p);
        push_priority_line(s, picked, p);
        pool.remove(b);
        assert(node_refs(pool@) =~= ps.remove(b as int));
        assert(target.skip(picked + 1) =~= target.skip(picked as int).skip(1));
        assert(s@ + priority_lines(target, picked + 1) =~= before + priority_lines(target, picked as int));
        picked = picked + 1;
    }
    proof {
        if pool@.len() == 0 {
            assert(top(node_refs(pool@), (5 - picked) as nat) =~= Seq::<DecisionNode>::empty());
        }
        assert(target.skip(picked as int).len() == 0);
        assert(priority_lines(target, picked as int) =~= Seq::<char>::empty());
    }
    assert(s@ =~= start + priority_lines(target, 0));
}

impl DecisionTree {
    /// The tree's Markdown (see `tree_markdown`); at most 191 directions,
    /// as their letters run from `A` up to the last byte.
    pub fn to_markdown(&self) -> (s: String)
        requires
            self.root.children@.len() <= 191,
        ensures
            s@ == tree_markdown(*self),
    {
        let mut out = String::from_str("## 決策樹：");
        push_str(&mut out, self.topic.as_str());
        push_str(&mut out, "\n\n");
        let ghost head = out@;
        let dirs = &self.root.children;
        if dirs.len() == 0 {
            push_branch_line(&mut out, &self.root);
        } else {
            let mut i: usize = 0;
            while i < dirs.len()
                invariant
                    i <= dirs@.len(),
                    dirs@.len() <= 191,
                    out@ + directions_from(dirs@, i as int) == head + directions_from(dirs@, 0),
                decreases dirs.len() - i,
            {
                let ghost before = out@;
                push_direction_block(&mut out, &dirs[i], i);
                assert(out@ + directions_from(dirs@, i + 1) =~= before + directions_from(dirs@, i as int));
                i = i + 1;
            }
            assert(out@ =~= head + directions_from(dirs@, 0));
        }
        push_str(&mut out, "### 建議優先順序\n");
        push_priorities(&mut out, &self.root);
        push_str(&mut out, "\n---\n*總節點數：");
        push_decimal(&mut out, self.total_nodes as u64);
        push_str(&mut out, "*\n");
        assert(out@ =~= tree_markdown(*self));
        out
    }
}

/// Texts one after the other.
pub open spec fn joined(ps: Seq<Seq<char>>) -> Seq<char>
    decreases ps.len(),
{
    if ps.len() == 0 {
        Seq::empty()
    } else {
        joined(ps.drop_last()) + ps.last()
    }
}

/// The head of a full report, generated at the given time.
pub open spec fn report_header(time: Seq<char>) -> Seq<char> {
    "# 推理決策樹報告\n\n"@ + "生成時間："@ + time + "\n\n"@
}

/// Whether a topic of the graph has its root node there.
pub open spec fn topic_rooted(g: Graph, id: Seq<char>) -> bool {
    g.has_topic(id) && g.has_node(g.topic_of(id).root_node_id@)
}

/// The part of a full report for a topic identifier and title: the
/// Markdown of the tree of the topic's root under the title, counting the
/// nodes under the root, and a line break; nothing for an unknown topic or
/// a missing root.
pub open spec fn report_part(g: Graph, id: Seq<char>, title: Seq<char>, part: Seq<char>) -> bool {
    if topic_rooted(g, id) {
        let root = g.topic_of(id).root_node_id@;
        exists|t: DecisionTree|
            #![trigger tree_markdown(t)]
            t.topic@ == title && built_from(g, g.node_of(root), g.nodes@.len() as nat, t.root) && t.total_nodes
                == reach_count(g, root, g.nodes@.len() as nat) && part == tree_markdown(t) + "\n"@
    } else {
        part == Seq::<char>::empty()
    }
}

/// The topic with an identifier (see `Graph::topic_of`).
fn topic_index(graph: &Graph, id: &str) -> (r: Option<usize>)
    requires
        graph.wf(),
    ensures
        match r {
            Some(i) => i < graph.topics@.len() && graph.has_topic(id@) && graph.topics@[i as int] == graph.topic_of(
                id@,
            ),
            None => !graph.has_topic(id@),
        },
{
    let mut i: usize = 0;
    while i < graph.topics.len()
        invariant
            graph.wf(),
            i <= graph.topics@.len(),
            forall|j: int| 0 <= j < i ==> topic_ids(graph.topics@)[j] != id@,
        decreases graph.topics.len() - i,
    {
        if crate::text::same_text(graph.topics[i].id.as_str(), id) {
            proof {
                lemma_unique_index_topic(graph.topics@, i as int);
                assert(topic_ids(graph.topics@)[i as int] == id@);
            }
            return Some(i);
        }
        i = i + 1;
    }
    proof {
        if graph.has_topic(id@) {
            let j = topic_ids(graph.topics@).index_of(id@);
            assert(topic_ids(graph.topics@)[j] == id@);
        }
    }
    None
}

/// A report of the decision trees of the listed topics (identifier and
/// title), generated at the given time (see `report_part`); each listed
/// topic's root has at most 191 children not pruned, as directions are
/// lettered from `A` up to the last byte.
pub fn full_report_at(graph: &Graph, topics: &[(&str, &str)], time: &str) -> (r: String)
    requires
        graph.wf(),
        forall|i: int|
            0 <= i < topics@.len() && topic_rooted(*graph, (#[trigger] topics@[i]).0@) ==> live_children(
                *graph,
                graph.topic_of(topics@[i].0@).root_node_id@,
            ).len() <= 191,
    ensures
        exists|parts: Seq<Seq<char>>|
            parts.len() == topics@.len() && (forall|i: int|
                0 <= i < topics@.len() ==> report_part(*graph, topics@[i].0@, topics@[i].1@, #[trigger] parts[i]))
                && r@ == report_header(time@) + joined(parts),
{
    let mut report = String::from_str("# 推理決策樹報告\n\n");
    push_str(&mut report, "生成時間：");
    push_str(&mut report, time);
    push_str(&mut report, "\n\n");
    let ghost mut parts: Seq<Seq<char>> = Seq::empty();
    assert(report@ =~= report_header(time@) + joined(parts));
    let mut i: usize = 0;
    while i < topics.len()
        invariant
            graph.wf(),
            i <= topics@.len(),
            parts.len() == i,
            forall|j: int|
                0 <= j < topics@.len() && topic_rooted(*graph, (#[trigger] topics@[j]).0@) ==> live_children(
                    *graph,
                    graph.topic_of(topics@[j].0@).root_node_id@,
                ).len() <= 191,
            forall|j: int| 0 <= j < i ==> report_part(*graph, topics@[j].0@, topics@[j].1@, #[trigger] parts[j]),
            report@ == report_header(time@) + joined(parts),
        decreases topics.len() - i,
    {
        let (topic_id, topic_title) = topics[i];
        let ghost before = report@;
        let ghost part: Seq<char> = Seq::empty();
        match topic_index(graph, topic_id) {
            Some(k) => {
                let root_id = graph.topics[k].root_node_id.as_str();
                match graph.get_node(root_id) {
                    Some(root_node) => {
                        let decision_root = DecisionNode::from_node(graph, root_node);
                        let total = graph.count_topic_nodes(topic_id);
                        proof {
                            lemma_node_of_id(*graph, root_id@);
                            assert(topic_rooted(*graph, topics@[i as int].0@));
                        }
                        let tree = DecisionTree {
                            topic: String::from_str(topic_title),
                            root: decision_root,
                            total_nodes: total,
                        };
                        let md = tree.to_markdown();
                        push_str(&mut report, md.as_str());
                        push_str(&mut report, "\n");
                        proof {
                            part = md@ + "\n"@;
                            assert(report_part(*graph, topic_id@, topic_title@, part));
                        }
                    },
                    None => {},
                }
            },
            None => {},
        }
        proof {
            assert(report_part(*graph, topics@[i as int].0@, topics@[i as int].1@, part));
            assert(report@ =~= before + part);
            let old_parts = parts;
            parts = parts.push(part);
            assert(parts.drop_last() =~= old_parts);
            assert(report@ =~= report_header(time@) + joined(parts));
        }
        i = i + 1;
    }
    report
}

/// The node of an identifier carries it.
proof fn lemma_node_of_id(g: Graph, id: Seq<char>)
    requires
        g.has_node(id),
    ensures
        g.node_of(id).id@ == id,
{
    let j = node_ids(g.nodes@).index_of(id);
    assert(node_ids(g.nodes@)[j] == id);
}

/// A report of the decision trees of the listed topics, generated now
/// (see `full_report_at`; the time in `%Y-%m-%d %H:%M:%S`, local).
pub fn generate_full_report(graph: &Graph, topics: &[(&str, &str)]) -> (r: String)
    requires
        graph.wf(),
        forall|i: int|
            0 <= i < topics@.len() && topic_rooted(*graph, (#[trigger] topics@[i]).0@) ==> live_children(
                *graph,
                graph.topic_of(topics@[i].0@).root_node_id@,
            ).len() <= 191,
    ensures
        exists|time: Seq<char>, parts: Seq<Seq<char>>|
            parts.len() == topics@.len() && (forall|i: int|
                0 <= i < topics@.len() ==> report_part(*graph, topics@[i].0@, topics@[i].1@, #[trigger] parts[i]))
                && r@ == report_header(time) + joined(parts),
{
    let now = Timestamp::now();
    full_report_at(graph, topics, now.date_time.as_str())
}

} // verus!



