//! Nodes of the reasoning graph and their status.
use vstd::prelude::*;

use crate::ollama::client::{clone_strings, names_view};
use crate::stamp::{new_uuid, utc_now};
use crate::text::{decimal, join, push_decimal, push_str};

verus! {

/// The status of a node.
#[derive(Debug, Clone, Copy, PartialEq, Eq, Structural)]
pub enum NodeStatus {
    /// Being analysed.
    Draft,
    /// Confirmed.
    Active,
    /// Removed by convergence.
    Pruned,
    /// Concluded.
    Locked,
    /// Its execution failed.
    Failed,
}

impl Default for NodeStatus {
    fn default() -> (s: Self)
        ensures
            s == NodeStatus::Draft,
    {
        NodeStatus::Draft
    }
}

/// The name `Debug` gives each status.
pub open spec fn node_status_name(s: NodeStatus) -> Seq<char> {
    match s {
        NodeStatus::Draft => "Draft"@,
        NodeStatus::Active => "Active"@,
        NodeStatus::Pruned => "Pruned"@,
        NodeStatus::Locked => "Locked"@,
        NodeStatus::Failed => "Failed"@,
    }
}

impl NodeStatus {
    /// The status's name, as `Debug` writes it.
    pub fn name(&self) -> (r: &'static str)
        ensures
            r@ == node_status_name(*self),
    {
        match self {
            NodeStatus::Draft => "Draft",
            NodeStatus::Active => "Active",
            NodeStatus::Pruned => "Pruned",
            NodeStatus::Locked => "Locked",
            NodeStatus::Failed => "Failed",
        }
    }
}

/// Whether `t` differs from `s` (used to drop one text from a list).
pub open spec fn other_text(s: Seq<char>) -> spec_fn(Seq<char>) -> bool {
    |t: Seq<char>| t != s
}

/// A list with `s` added at its end, unless it already holds it.
pub open spec fn with_unique(v: Seq<Seq<char>>, s: Seq<char>) -> Seq<Seq<char>> {
    if v.contains(s) {
        v
    } else {
        v.push(s)
    }
}

/// Whether a list of strings holds a text.
pub fn contains_string(v: &Vec<String>, s: &String) -> (b: bool)
    ensures
        b == names_view(v@).contains(s@),
{
    let mut i: usize = 0;
    while i < v.len()
        invariant
            i <= v.len(),
            forall|j: int| 0 <= j < i ==> names_view(v@)[j] != s@,
        decreases v.len() - i,
    {
        if v[i] == *s {
            assert(names_view(v@)[i as int] == s@);
            return true;
        }
        i = i + 1;
    }
    false
}

/// Adds a text to a list of strings unless the list already holds it.
pub fn push_unique(v: &mut Vec<String>, s: String)
    ensures
        names_view(final(v)@) == with_unique(names_view(old(v)@), s@),
{
    if !contains_string(v, &s) {
        let ghost before = names_view(v@);
        let ghost t = s@;
        v.push(s);
        assert(names_view(v@) =~= before.push(t));
    }
}

/// Drops every occurrence of a text from a list of strings, keeping the
/// order of the others.
pub fn remove_string(v: &mut Vec<String>, s: &str)
    ensures
        names_view(final(v)@) == names_view(old(v)@).filter(other_text(s@)),
{
    let ghost src = names_view(v@);
    let key = String::from_str(s);
    let mut kept: Vec<String> = Vec::new();
    let mut i: usize = 0;
    assert(src.take(0) =~= Seq::<Seq<char>>::empty());
    assert(Seq::<Seq<char>>::empty().filter(other_text(s@)) =~= Seq::<Seq<char>>::empty()) by {
        reveal(Seq::filter);
    }
    while i < v.len()
        invariant
            i <= v@.len(),
            src == names_view(v@),
            key@ == s@,
            names_view(kept@) == src.take(i as int).filter(other_text(s@)),
        decreases v.len() - i,
    {
        proof {
            assert(src.take(i + 1) =~= src.take(i as int).push(src[i as int]));
            src.take(i as int).lemma_filter_push(src[i as int], other_text(s@));
        }
        if v[i] != key {
            let ghost before = names_view(kept@);
            let x = v[i].clone();
            kept.push(x);
            assert(names_view(kept@) =~= before.push(src[i as int]));
        }
        i = i + 1;
    }
    assert(src.take(v@.len() as int) =~= src);
    *v = kept;
}

/// A node of the reasoning graph: one unit of thought.
///
/// Weight, confidence and complexity are counted in thousandths (a weight
/// of `1000` is a weight of one).
#[derive(Debug)]
pub struct Node {
    /// The node's identifier (a UUID).
    pub id: String,
    /// Its step number.
    pub step: i32,
    /// The question the node answers.
    pub question: String,
    /// Its findings: at most five, none twice.
    pub key_findings: Vec<String>,
    /// Its conclusion, once it has one.
    pub conclusion: Option<String>,
    /// Topics it relates to, none twice.
    pub relevant_topics: Vec<String>,
    /// Its full description.
    pub content: String,
    /// Its weight, in thousandths.
    pub weight: u32,
    /// The model's confidence in it, in thousandths.
    pub confidence: u32,
    /// Its share of the complexity, in thousandths.
    pub complexity: u32,
    /// Identifiers of the edges that come in.
    pub parent_edges: Vec<String>,
    /// Identifiers of the edges that go out.
    pub child_edges: Vec<String>,
    /// Its status.
    pub status: NodeStatus,
    /// The feedback of its last execution.
    pub feedback_result: Option<String>,
    /// When that feedback came, in RFC 3339.
    pub feedback_timestamp: Option<String>,
}

/// A fresh node: a 36-character identifier, no findings, conclusion, topics,
/// edges or feedback.
pub open spec fn fresh_node(n: Node) -> bool {
    &&& n.id@.len() == 36
    &&& n.key_findings@.len() == 0
    &&& n.conclusion is None
    &&& n.relevant_topics@.len() == 0
    &&& n.parent_edges@.len() == 0
    &&& n.child_edges@.len() == 0
    &&& n.feedback_result is None
    &&& n.feedback_timestamp is None
}

/// Whether two nodes agree on everything but their edge lists.
pub open spec fn same_but_edges(a: Node, b: Node) -> bool {
    &&& a.id == b.id
    &&& a.step == b.step
    &&& a.question == b.question
    &&& a.key_findings == b.key_findings
    &&& a.conclusion == b.conclusion
    &&& a.relevant_topics == b.relevant_topics
    &&& a.content == b.content
    &&& a.weight == b.weight
    &&& a.confidence == b.confidence
    &&& a.complexity == b.complexity
    &&& a.status == b.status
    &&& a.feedback_result == b.feedback_result
    &&& a.feedback_timestamp == b.feedback_timestamp
}

/// Whether two nodes agree on everything but their status.
pub open spec fn same_but_status(a: Node, b: Node) -> bool {
    &&& a.id == b.id
    &&& a.step == b.step
    &&& a.question == b.question
    &&& a.key_findings == b.key_findings
    &&& a.conclusion == b.conclusion
    &&& a.relevant_topics == b.relevant_topics
    &&& a.content == b.content
    &&& a.weight == b.weight
    &&& a.confidence == b.confidence
    &&& a.complexity == b.complexity
    &&& a.parent_edges == b.parent_edges
    &&& a.child_edges == b.child_edges
    &&& a.feedback_result == b.feedback_result
    &&& a.feedback_timestamp == b.feedback_timestamp
}

/// The numbered lines of the findings, from the `i`-th on.
pub open spec fn numbered_findings(f: Seq<Seq<char>>, i: int) -> Seq<char>
    decreases f.len() - i,
{
    if i < 0 || i >= f.len() {
        Seq::empty()
    } else {
        "\n  "@ + decimal((i + 1) as nat) + ". "@ + f[i] + numbered_findings(f, i + 1)
    }
}

/// A node's summary for the system prompt: its identifier and question,
/// then its numbered findings, its conclusion and its topics, each where
/// it has any.
pub open spec fn prompt_summary(n: Node) -> Seq<char> {
    let f = names_view(n.key_findings@);
    let t = names_view(n.relevant_topics@);
    "## 節點 ["@ + n.id@ + "]\n問題："@ + n.question@ + (if f.len() == 0 {
        Seq::empty()
    } else {
        "\n發現："@ + numbered_findings(f, 0)
    }) + (match n.conclusion {
        Some(c) => "\n結論："@ + c@,
        None => Seq::empty(),
    }) + (if t.len() == 0 {
        Seq::empty()
    } else {
        "\n主題："@ + join(t, ", "@)
    })
}

impl Node {
    /// A new draft node whose content is its question: weight one,
    /// confidence one half, no complexity.
    pub fn new(question: String, step: i32) -> (n: Node)
        ensures
            fresh_node(n),
            n.step == step,
            n.question@ == question@,
            n.content@ == question@,
            n.weight == 1000,
            n.confidence == 500,
            n.complexity == 0,
            n.status == NodeStatus::Draft,
    {
        let content = question.clone();
        Node {
            id: new_uuid(),
            step,
            question,
            key_findings: Vec::new(),
            conclusion: None,
            relevant_topics: Vec::new(),
            content,
            weight: 1000,
            confidence: 500,
            complexity: 0,
            parent_edges: Vec::new(),
            child_edges: Vec::new(),
            status: NodeStatus::Draft,
            feedback_result: None,
            feedback_timestamp: None,
        }
    }

    /// A new draft node with all its attributes given.
    pub fn new_with(
        question: String,
        step: i32,
        content: String,
        weight: u32,
        confidence: u32,
        complexity: u32,
    ) -> (n: Node)
        ensures
            fresh_node(n),
            n.step == step,
            n.question == question,
            n.content == content,
            n.weight == weight,
            n.confidence == confidence,
            n.complexity == complexity,
            n.status == NodeStatus::Draft,
    {
        Node {
            id: new_uuid(),
            step,
            question,
            key_findings: Vec::new(),
            conclusion: None,
            relevant_topics: Vec::new(),
            content,
            weight,
            confidence,
            complexity,
            parent_edges: Vec::new(),
            child_edges: Vec::new(),
            status: NodeStatus::Draft,
            feedback_result: None,
            feedback_timestamp: None,
        }
    }

    /// The first node of a reasoning, carrying the initial task: active, at
    /// step one, with full weight and confidence.
    pub fn root(question: String) -> (n: Node)
        ensures
            fresh_node(n),
            n.step == 1,
            n.question@ == question@,
            n.content@ == "初始任務："@ + question@,
            n.weight == 1000,
            n.confidence == 1000,
            n.complexity == 0,
            n.status == NodeStatus::Active,
    {
        let mut content = String::from_str("初始任務：");
        push_str(&mut content, question.as_str());
        Node {
            id: new_uuid(),
            step: 1,
            question,
            key_findings: Vec::new(),
            conclusion: None,
            relevant_topics: Vec::new(),
            content,
            weight: 1000,
            confidence: 1000,
            complexity: 0,
            parent_edges: Vec::new(),
            child_edges: Vec::new(),
            status: NodeStatus::Active,
            feedback_result: None,
            feedback_timestamp: None,
        }
    }

    /// Adds a finding, unless the node has five already or has this one.
    pub fn add_finding(&mut self, finding: String)
        ensures
            names_view(final(self).key_findings@) == (if old(self).key_findings@.len() < 5 {
                with_unique(names_view(old(self).key_findings@), finding@)
            } else {
                names_view(old(self).key_findings@)
            }),
            final(self).key_findings@.len() <= 5 || final(self).key_findings@.len() == old(
                self,
            ).key_findings@.len(),
            same_but_findings(*old(self), *final(self)),
    {
        if self.key_findings.len() < 5 {
            push_unique(&mut self.key_findings, finding);
        }
    }

    /// Sets the conclusion, which locks the node.
    pub fn set_conclusion(&mut self, conclusion: String)
        ensures
            final(self).conclusion == Some(conclusion),
            final(self).status == NodeStatus::Locked,
            same_but_conclusion(*old(self), *final(self)),
    {
        self.conclusion = Some(conclusion);
        self.status = NodeStatus::Locked;
    }

    /// Adds a topic unless the node has it already.
    pub fn add_topic(&mut self, topic: String)
        ensures
            names_view(final(self).relevant_topics@) == with_unique(
                names_view(old(self).relevant_topics@),
                topic@,
            ),
            same_but_topics(*old(self), *final(self)),
    {
        push_unique(&mut self.relevant_topics, topic);
    }

    /// Records the feedback of an execution, stamped with the current time.
    pub fn set_feedback(&mut self, result: String)
        ensures
            final(self).feedback_result == Some(result),
            final(self).feedback_timestamp is Some,
            same_but_feedback(*old(self), *final(self)),
    {
        self.feedback_result = Some(result);
        self.feedback_timestamp = Some(utc_now());
    }

    /// Marks the node failed when its execution failed; a success changes
    /// nothing.
    pub fn apply_execution_result(&mut self, success: bool)
        ensures
            final(self).status == (if success {
                old(self).status
            } else {
                NodeStatus::Failed
            }),
            same_but_status(*old(self), *final(self)),
    {
        if !success {
            self.status = NodeStatus::Failed;
        }
    }

    /// Records an outgoing edge, once.
    pub fn add_child_edge(&mut self, edge_id: String)
        ensures
            names_view(final(self).child_edges@) == with_unique(
                names_view(old(self).child_edges@),
                edge_id@,
            ),
            final(self).parent_edges == old(self).parent_edges,
            same_but_edges(*old(self), *final(self)),
    {
        push_unique(&mut self.child_edges, edge_id);
    }

    /// Records an incoming edge, once.
    pub fn add_parent_edge(&mut self, edge_id: String)
        ensures
            names_view(final(self).parent_edges@) == with_unique(
                names_view(old(self).parent_edges@),
                edge_id@,
            ),
            final(self).child_edges == old(self).child_edges,
            same_but_edges(*old(self), *final(self)),
    {
        push_unique(&mut self.parent_edges, edge_id);
    }

    /// Forgets an outgoing edge.
    pub fn remove_child_edge(&mut self, edge_id: &str)
        ensures
            names_view(final(self).child_edges@) == names_view(old(self).child_edges@).filter(
                other_text(edge_id@),
            ),
            final(self).parent_edges == old(self).parent_edges,
            same_but_edges(*old(self), *final(self)),
    {
        remove_string(&mut self.child_edges, edge_id);
    }

    /// Forgets an incoming edge.
    pub fn remove_parent_edge(&mut self, edge_id: &str)
        ensures
            names_view(final(self).parent_edges@) == names_view(old(self).parent_edges@).filter(
                other_text(edge_id@),
            ),
            final(self).child_edges == old(self).child_edges,
            same_but_edges(*old(self), *final(self)),
    {
        remove_string(&mut self.parent_edges, edge_id);
    }

    /// Whether the node can still be edited: a draft or an active node.
    pub fn is_editable(&self) -> (b: bool)
        ensures
            b == (self.status == NodeStatus::Draft || self.status == NodeStatus::Active),
    {
        self.status == NodeStatus::Draft || self.status == NodeStatus::Active
    }

    /// Whether the node was pruned.
    pub fn is_pruned(&self) -> (b: bool)
        ensures
            b == (self.status == NodeStatus::Pruned),
    {
        self.status == NodeStatus::Pruned
    }

    /// The node's score, weight times confidence, in millionths.
    pub fn score(&self) -> (s: u64)
        ensures
            s == self.weight * self.confidence,
    {
        assert(self.weight * self.confidence <= 0xffff_ffff * 0xffff_ffff) by (nonlinear_arith)
            requires
                self.weight <= 0xffff_ffff,
                self.confidence <= 0xffff_ffff,
        ;
        (self.weight as u64) * (self.confidence as u64)
    }

    /// The node's summary for the system prompt (see `prompt_summary`).
    pub fn to_prompt_summary(&self) -> (s: String)
        ensures
            s@ == prompt_summary(*self),
    {
        let ghost f = names_view(self.key_findings@);
        let ghost t = names_view(self.relevant_topics@);
        let mut s = String::from_str("## 節點 [");
        push_str(&mut s, self.id.as_str());
        push_str(&mut s, "]\n問題：");
        push_str(&mut s, self.question.as_str());
        let ghost head = s@;
        if self.key_findings.len() > 0 {
            push_str(&mut s, "\n發現：");
            let ghost start = s@;
            let mut i: usize = 0;
            while i < self.key_findings.len()
                invariant
                    i <= f.len(),
                    f == names_view(self.key_findings@),
                    s@ + numbered_findings(f, i as int) == start + numbered_findings(f, 0),
                decreases self.key_findings.len() - i,
            {
                let ghost before = s@;
                push_str(&mut s, "\n  ");
                push_decimal(&mut s, (i as u64) + 1);
                push_str(&mut s, ". ");
                push_str(&mut s, self.key_findings[i].as_str());
                assert(s@ + numbered_findings(f, i + 1) =~= before + numbered_findings(f, i as int));
                i = i + 1;
            }
            assert(s@ =~= start + numbered_findings(f, 0));
        }
        let ghost mid = s@;
        match &self.conclusion {
            Some(c) => {
                push_str(&mut s, "\n結論：");
                push_str(&mut s, c.as_str());
            },
            None => {},
        }
        if self.relevant_topics.len() > 0 {
            push_str(&mut s, "\n主題：");
            let mut i: usize = 0;
            let ghost start = s@;
            while i < self.relevant_topics.len()
                invariant
                    i <= t.len(),
                    t == names_view(self.relevant_topics@),
                    s@ == start + join(t.take(i as int), ", "@),
                decreases self.relevant_topics.len() - i,
            {
                if i > 0 {
                    push_str(&mut s, ", ");
                }
                push_str(&mut s, self.relevant_topics[i].as_str());
                proof {
                    assert(t.take(i + 1).drop_last() =~= t.take(i as int));
                    if i == 0 {
                        assert(join(t.take(1), ", "@) == t[0]);
                    }
                }
                assert(s@ =~= start + join(t.take(i + 1), ", "@));
                i = i + 1;
            }
            assert(t.take(t.len() as int) =~= t);
        }
        assert(s@ =~= prompt_summary(*self));
        s
    }
}

/// Whether two nodes hold the same texts and values.
pub open spec fn node_view_eq(a: Node, b: Node) -> bool {
    &&& a.id@ == b.id@
    &&& a.step == b.step
    &&& a.question@ == b.question@
    &&& names_view(a.key_findings@) == names_view(b.key_findings@)
    &&& opt_view(a.conclusion) == opt_view(b.conclusion)
    &&& names_view(a.relevant_topics@) == names_view(b.relevant_topics@)
    &&& a.content@ == b.content@
    &&& a.weight == b.weight
    &&& a.confidence == b.confidence
    &&& a.complexity == b.complexity
    &&& names_view(a.parent_edges@) == names_view(b.parent_edges@)
    &&& names_view(a.child_edges@) == names_view(b.child_edges@)
    &&& a.status == b.status
    &&& opt_view(a.feedback_result) == opt_view(b.feedback_result)
    &&& opt_view(a.feedback_timestamp) == opt_view(b.feedback_timestamp)
}

/// An optional string as optional text.
pub open spec fn opt_view(o: Option<String>) -> Option<Seq<char>> {
    match o {
        Some(s) => Some(s@),
        None => None,
    }
}

/// Copies an optional string.
fn copy_opt(o: &Option<String>) -> (r: Option<String>)
    ensures
        opt_view(r) == opt_view(*o),
{
    match o {
        Some(s) => Some(s.clone()),
        None => None,
    }
}

impl Node {
    /// A copy of the node.
    pub fn copy(&self) -> (n: Node)
        ensures
            node_view_eq(n, *self),
    {
        Node {
            id: self.id.clone(),
            step: self.step,
            question: self.question.clone(),
            key_findings: clone_strings(&self.key_findings),
            conclusion: copy_opt(&self.conclusion),
            relevant_topics: clone_strings(&self.relevant_topics),
            content: self.content.clone(),
            weight: self.weight,
            confidence: self.confidence,
            complexity: self.complexity,
            parent_edges: clone_strings(&self.parent_edges),
            child_edges: clone_strings(&self.child_edges),
            status: self.status,
            feedback_result: copy_opt(&self.feedback_result),
            feedback_timestamp: copy_opt(&self.feedback_timestamp),
        }
    }
}

/// Whether two nodes agree on everything but their findings.
pub open spec fn same_but_findings(a: Node, b: Node) -> bool {
    &&& a.id == b.id
    &&& a.step == b.step
    &&& a.question == b.question
    &&& a.conclusion == b.conclusion
    &&& a.relevant_topics == b.relevant_topics
    &&& a.content == b.content
    &&& a.weight == b.weight
    &&& a.confidence == b.confidence
    &&& a.complexity == b.complexity
    &&& a.parent_edges == b.parent_edges
    &&& a.child_edges == b.child_edges
    &&& a.status == b.status
    &&& a.feedback_result == b.feedback_result
    &&& a.feedback_timestamp == b.feedback_timestamp
}

/// Whether two nodes agree on everything but their conclusion and status.
pub open spec fn same_but_conclusion(a: Node, b: Node) -> bool {
    &&& a.id == b.id
    &&& a.step == b.step
    &&& a.question == b.question
    &&& a.key_findings == b.key_findings
    &&& a.relevant_topics == b.relevant_topics
    &&& a.content == b.content
    &&& a.weight == b.weight
    &&& a.confidence == b.confidence
    &&& a.complexity == b.complexity
    &&& a.parent_edges == b.parent_edges
    &&& a.child_edges == b.child_edges
    &&& a.feedback_result == b.feedback_result
    &&& a.feedback_timestamp == b.feedback_timestamp
}

/// Whether two nodes agree on everything but their topics.
pub open spec fn same_but_topics(a: Node, b: Node) -> bool {
    &&& a.id == b.id
    &&& a.step == b.step
    &&& a.question == b.question
    &&& a.key_findings == b.key_findings
    &&& a.conclusion == b.conclusion
    &&& a.content == b.content
    &&& a.weight == b.weight
    &&& a.confidence == b.confidence
    &&& a.complexity == b.complexity
    &&& a.parent_edges == b.parent_edges
    &&& a.child_edges == b.child_edges
    &&& a.status == b.status
    &&& a.feedback_result == b.feedback_result
    &&& a.feedback_timestamp == b.feedback_timestamp
}

/// Whether two nodes agree on everything but their feedback.
pub open spec fn same_but_feedback(a: Node, b: Node) -> bool {
    &&& a.id == b.id
    &&& a.step == b.step
    &&& a.question == b.question
    &&& a.key_findings == b.key_findings
    &&& a.conclusion == b.conclusion
    &&& a.relevant_topics == b.relevant_topics
    &&& a.content == b.content
    &&& a.weight == b.weight
    &&& a.confidence == b.confidence
    &&& a.complexity == b.complexity
    &&& a.parent_edges == b.parent_edges
    &&& a.child_edges == b.child_edges
    &&& a.status == b.status
}

} // verus!
