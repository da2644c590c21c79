use evolution_reasoning::engine::diverge::DivergeEngine;
use evolution_reasoning::models::edge::{Edge, EdgeType};
use evolution_reasoning::models::graph::{Graph, TopicPhase};
use evolution_reasoning::models::node::{Node, NodeStatus};

// Weights, confidences and complexities are thousandths; scores millionths.

#[test]
fn node_test_node_new() {
    let node = Node::new("金門5天行程如何規劃？".to_string(), 1);
    assert_eq!(node.status, NodeStatus::Draft);
    assert_eq!(node.step, 1);
    assert_eq!(node.question, "金門5天行程如何規劃？");
    assert_eq!(node.content, "金門5天行程如何規劃？");
    assert!(node.key_findings.is_empty());
    assert!(node.conclusion.is_none());
    assert!(!node.id.is_empty());
    assert_eq!(node.weight, 1000);
    assert_eq!(node.confidence, 500);
    assert_eq!(node.complexity, 0);
}

#[test]
fn test_node_root() {
    let node = Node::root("測試任務".to_string());
    assert_eq!(node.status, NodeStatus::Active);
    assert_eq!(node.step, 1);
    assert!(node.content.contains("測試任務"));
    assert_eq!(node.content, "初始任務：測試任務");
    assert_eq!(node.confidence, 1000);
}

#[test]
fn test_add_finding() {
    let mut node = Node::new("問題".to_string(), 1);
    node.add_finding("發現1".to_string());
    node.add_finding("發現2".to_string());
    assert_eq!(node.key_findings.len(), 2);
    node.add_finding("發現1".to_string());
    assert_eq!(node.key_findings.len(), 2);
}

#[test]
fn test_add_finding_stops_at_five() {
    let mut node = Node::new("問題".to_string(), 1);
    for i in 0..8 {
        node.add_finding(format!("發現{}", i));
    }
    assert_eq!(node.key_findings.len(), 5);
    assert_eq!(node.key_findings[4], "發現4");
}

#[test]
fn test_set_conclusion() {
    let mut node = Node::new("問題".to_string(), 1);
    node.set_conclusion("這是結論".to_string());
    assert!(node.conclusion.is_some());
    assert_eq!(node.status, NodeStatus::Locked);
}

#[test]
fn test_add_topic() {
    let mut node = Node::new("問題".to_string(), 1);
    node.add_topic("旅行".to_string());
    node.add_topic("金門".to_string());
    assert_eq!(node.relevant_topics.len(), 2);
    node.add_topic("旅行".to_string());
    assert_eq!(node.relevant_topics.len(), 2);
}

#[test]
fn test_to_prompt_summary() {
    let mut node = Node::new("金門行程規劃".to_string(), 1);
    node.add_finding("用戶喜歡歷史古蹟".to_string());
    node.add_finding("偏好深度遊".to_string());
    node.set_conclusion("選擇時間軸深度遊".to_string());
    node.add_topic("金門".to_string());
    node.add_topic("歷史".to_string());

    let summary = node.to_prompt_summary();
    assert!(summary.contains("問題：金門行程規劃"));
    assert!(summary.contains("用戶喜歡歷史古蹟"));
    assert!(summary.contains("結論：選擇時間軸深度遊"));
    assert!(summary.contains("金門, 歷史"));
    let expected = format!(
        "## 節點 [{}]\n問題：金門行程規劃\n發現：\n  1. 用戶喜歡歷史古蹟\n  2. 偏好深度遊\n結論：選擇時間軸深度遊\n主題：金門, 歷史",
        node.id
    );
    assert_eq!(summary, expected);
}

#[test]
fn test_to_prompt_summary_bare() {
    let node = Node::new("只有問題".to_string(), 2);
    assert_eq!(node.to_prompt_summary(), format!("## 節點 [{}]\n問題：只有問題", node.id));
}

#[test]
fn node_test_node_score() {
    let node = Node::new_with("問題".to_string(), 1, "內容".to_string(), 800, 700, 1000);
    // 0.8 * 0.7 = 0.56, in millionths
    assert_eq!(node.score(), 560_000);
    assert!((node.score() as f64 / 1_000_000.0 - 0.56).abs() < 0.001);
}

#[test]
fn node_test_node_child_edges() {
    let mut node = Node::new("問題".to_string(), 1);
    node.add_child_edge("edge1".to_string());
    node.add_child_edge("edge2".to_string());
    node.add_child_edge("edge2".to_string());
    assert_eq!(node.child_edges.len(), 2);
    node.remove_child_edge("edge1");
    assert_eq!(node.child_edges.len(), 1);
    assert!(node.child_edges.contains(&"edge2".to_string()));
}

#[test]
fn node_test_node_is_editable() {
    let mut node = Node::new("問題".to_string(), 1);
    assert!(node.is_editable());
    node.status = NodeStatus::Locked;
    assert!(!node.is_editable());
    node.status = NodeStatus::Pruned;
    assert!(!node.is_editable());
    assert!(node.is_pruned());
}

#[test]
fn test_apply_execution_result_and_feedback() {
    let mut node = Node::new("問題".to_string(), 1);
    node.apply_execution_result(true);
    assert_eq!(node.status, NodeStatus::Draft);
    node.set_feedback("ok".to_string());
    assert_eq!(node.feedback_result.as_deref(), Some("ok"));
    assert!(node.feedback_timestamp.is_some());
    node.apply_execution_result(false);
    assert_eq!(node.status, NodeStatus::Failed);
}

#[test]
fn test_edge_new() {
    let edge = Edge::new("node1".to_string(), "node2".to_string(), EdgeType::Reasoning);
    assert_eq!(edge.from, "node1");
    assert_eq!(edge.to, "node2");
    assert_eq!(edge.edge_type, EdgeType::Reasoning);
    assert_eq!(edge.weight, 1000);
    assert!(!edge.id.is_empty());
}

#[test]
fn test_edge_with_weight() {
    let edge = Edge::new_with_weight("node1".to_string(), "node2".to_string(), EdgeType::Divergence, 500);
    assert_eq!(edge.weight, 500);
    assert_eq!(edge.edge_type, EdgeType::Divergence);
}

fn two_linked() -> (Graph, String, String, String) {
    let mut graph = Graph::new();
    let node1 = Node::new("節點1".to_string(), 1);
    let node2 = Node::new("節點2".to_string(), 2);
    let node1_id = node1.id.clone();
    let node2_id = node2.id.clone();
    graph.add_node(node1);
    graph.add_node(node2);
    let edge = Edge::new(node1_id.clone(), node2_id.clone(), EdgeType::Reasoning);
    let edge_id = edge.id.clone();
    graph.add_edge(edge);
    (graph, node1_id, node2_id, edge_id)
}

#[test]
fn test_graph_new() {
    let graph = Graph::new();
    assert_eq!(graph.nodes.len(), 0);
    assert_eq!(graph.edges.len(), 0);
}

#[test]
fn test_graph_add_node() {
    let mut graph = Graph::new();
    let node = Node::new("測試節點".to_string(), 1);
    let node_id = node.id.clone();
    graph.add_node(node);
    assert_eq!(graph.nodes.len(), 1);
    assert!(graph.get_node(&node_id).is_some());
}

#[test]
fn test_graph_add_node_replaces_same_id() {
    let mut graph = Graph::new();
    let node = Node::new("舊".to_string(), 1);
    let mut again = Node::new("新".to_string(), 2);
    again.id = node.id.clone();
    let id = node.id.clone();
    graph.add_node(node);
    graph.add_node(again);
    assert_eq!(graph.nodes.len(), 1);
    assert_eq!(graph.get_node(&id).unwrap().question, "新");
}

#[test]
fn test_graph_add_edge() {
    let (graph, node1_id, node2_id, edge_id) = two_linked();
    assert_eq!(graph.edges.len(), 1);
    let n1 = graph.get_node(&node1_id).unwrap();
    let n2 = graph.get_node(&node2_id).unwrap();
    assert!(n1.child_edges.contains(&edge_id));
    assert!(n2.parent_edges.contains(&edge_id));
}

#[test]
fn test_graph_remove_edge() {
    let (mut graph, node1_id, node2_id, edge_id) = two_linked();
    let removed = graph.remove_edge(&edge_id);
    assert_eq!(removed.map(|e| e.id), Some(edge_id.clone()));
    assert!(graph.remove_edge(&edge_id).is_none());
    assert!(graph.get_node(&node1_id).unwrap().child_edges.is_empty());
    assert!(graph.get_node(&node2_id).unwrap().parent_edges.is_empty());
}

#[test]
fn test_graph_remove_node() {
    let (mut graph, node1_id, node2_id, _) = two_linked();
    let removed = graph.remove_node(&node1_id);
    assert!(removed.is_some());
    assert_eq!(graph.nodes.len(), 1);
    assert_eq!(graph.edges.len(), 0);
    assert!(graph.get_node(&node1_id).is_none());
    assert!(graph.get_node(&node2_id).unwrap().parent_edges.is_empty());
    assert!(graph.remove_node(&node1_id).is_none());
}

#[test]
fn test_graph_get_children() {
    let (graph, node1_id, node2_id, _) = two_linked();
    let children = graph.get_children(&node1_id);
    assert_eq!(children.len(), 1);
    assert_eq!(children[0].id, node2_id);
    assert!(graph.get_children("nobody").is_empty());
}

#[test]
fn test_graph_get_parents() {
    let (graph, node1_id, node2_id, _) = two_linked();
    let parents = graph.get_parents(&node2_id);
    assert_eq!(parents.len(), 1);
    assert_eq!(parents[0].id, node1_id);
}

#[test]
fn test_graph_get_root_nodes() {
    let (graph, node1_id, node2_id, _) = two_linked();
    let roots = graph.get_root_nodes();
    assert_eq!(roots.len(), 1);
    assert_eq!(roots[0].id, node1_id);
    let leaves = graph.get_leaf_nodes();
    assert_eq!(leaves.len(), 1);
    assert_eq!(leaves[0].id, node2_id);
}

#[test]
fn test_graph_prune_node() {
    let mut graph = Graph::new();
    let node = Node::new("測試".to_string(), 1);
    let node_id = node.id.clone();
    graph.add_node(node);
    assert!(graph.prune_node(&node_id));
    let n = graph.get_node(&node_id).unwrap();
    assert_eq!(n.status, NodeStatus::Pruned);
    assert!(!graph.prune_node("missing"));
    assert!(graph.lock_node(&node_id));
    assert_eq!(graph.get_node(&node_id).unwrap().status, NodeStatus::Locked);
    assert!(graph.activate_node(&node_id));
    assert_eq!(graph.get_node(&node_id).unwrap().status, NodeStatus::Active);
}

#[test]
fn test_graph_total_complexity() {
    let mut graph = Graph::new();
    graph.add_node(Node::new_with("節點1".to_string(), 1, "節點1".to_string(), 1000, 1000, 10_000));
    graph.add_node(Node::new_with("節點2".to_string(), 2, "節點2".to_string(), 1000, 1000, 20_000));
    assert_eq!(graph.total_complexity(), 30_000);
}

#[test]
fn test_graph_find_low_score_nodes() {
    let mut graph = Graph::new();
    graph.add_node(Node::new_with("節點1".to_string(), 1, "節點1".to_string(), 900, 900, 0));
    graph.add_node(Node::new_with("節點2".to_string(), 2, "節點2".to_string(), 100, 100, 0));
    let low = graph.find_low_score_nodes(500_000);
    assert_eq!(low.len(), 1);
    assert_eq!(low[0].question, "節點2");
}

#[test]
fn test_graph_node_count() {
    let mut graph = Graph::new();
    graph.add_node(Node::new("節點1".to_string(), 1));
    graph.add_node(Node::new("節點2".to_string(), 2));
    assert_eq!(graph.node_count(), 2);
    let node_id = graph.get_all_nodes()[0].id.clone();
    graph.prune_node(&node_id);
    assert_eq!(graph.node_count(), 1);
}

#[test]
fn test_graph_full_lifecycle() {
    let mut graph = Graph::new();
    let root = Node::new("根節點".to_string(), 1);
    let root_id = root.id.clone();
    graph.add_node(root);
    assert_eq!(graph.node_count(), 1);

    let child1 = Node::new("子節點 1".to_string(), 2);
    let child1_id = child1.id.clone();
    graph.add_node(child1);
    graph.add_edge(Edge::new(root_id.clone(), child1_id.clone(), EdgeType::Reasoning));

    let parents = graph.get_parents(&child1_id);
    assert_eq!(parents.len(), 1);
    assert_eq!(parents[0].id, root_id);

    let children = graph.get_children(&root_id);
    assert_eq!(children.len(), 1);
    assert_eq!(children[0].id, child1_id);
}

#[test]
fn test_graph_multiple_children() {
    let mut graph = Graph::new();
    let parent = Node::new("父節點".to_string(), 1);
    let parent_id = parent.id.clone();
    graph.add_node(parent);
    for i in 1..=3 {
        let child = Node::new(format!("子節點 {}", i), 2);
        let child_id = child.id.clone();
        graph.add_node(child);
        graph.add_edge(Edge::new(parent_id.clone(), child_id, EdgeType::Divergence));
    }
    let children = graph.get_children(&parent_id);
    assert_eq!(children.len(), 3);
}

#[test]
fn test_graph_remove_with_edges() {
    let (mut graph, n1_id, _, _) = two_linked();
    assert_eq!(graph.edge_count(), 1);
    graph.remove_node(&n1_id);
    assert_eq!(graph.node_count(), 1);
    assert_eq!(graph.edge_count(), 0);
}

#[test]
fn test_graph_complexity() {
    let mut graph = Graph::new();
    graph.add_node(Node::new_with("節點1".to_string(), 1, "節點1".to_string(), 1000, 1000, 10_000));
    graph.add_node(Node::new_with("節點2".to_string(), 2, "節點2".to_string(), 1000, 1000, 20_000));
    assert_eq!(graph.total_complexity(), 30_000);
}

#[test]
fn test_graph_pruned_not_counted() {
    let mut graph = Graph::new();
    let n1 = Node::new_with("節點1".to_string(), 1, "節點1".to_string(), 1000, 1000, 10_000);
    let n2 = Node::new_with("節點2".to_string(), 2, "節點2".to_string(), 1000, 1000, 20_000);
    let n2_id = n2.id.clone();
    graph.add_node(n1);
    graph.add_node(n2);
    graph.prune_node(&n2_id);
    assert_eq!(graph.total_complexity(), 10_000);
    assert_eq!(graph.node_count(), 1);
}

#[test]
fn test_graph_edge_count_skips_pruned_ends() {
    let (mut graph, _, n2_id, _) = two_linked();
    assert_eq!(graph.edge_count(), 1);
    graph.prune_node(&n2_id);
    assert_eq!(graph.edge_count(), 0);
    assert_eq!(graph.edges.len(), 1);
}

#[test]
fn test_graph_topics() {
    let mut graph = Graph::new();
    assert!(graph.get_current_topic().is_none());
    let t1 = graph.add_topic("主題一".to_string());
    let t2 = graph.add_topic("主題二".to_string());
    assert_eq!(graph.get_topics().len(), 2);
    assert_eq!(graph.get_current_topic().unwrap().id, t2.id);
    assert!(graph.set_current_topic(&t1.id));
    assert_eq!(graph.get_current_topic().unwrap().title, "主題一");
    assert!(!graph.set_current_topic("missing"));
    assert_eq!(graph.get_current_topic().unwrap().id, t1.id);
    let roots = graph.get_current_topic_root_nodes();
    assert_eq!(roots.len(), 1);
    assert_eq!(roots[0].id, t1.root_node_id);
    assert_eq!(roots[0].question, "主題一");
}

#[test]
fn test_graph_topic_counts_and_phase() {
    let mut graph = Graph::new();
    let topic = graph.add_topic("主題".to_string());
    assert_eq!(graph.count_topic_nodes(&topic.id), 1);
    assert_eq!(graph.get_topic_phase(&topic.id), TopicPhase::Exploration);
    let engine = DivergeEngine::new_with_seed(7);
    let children = engine.diverge(&mut graph, &topic.root_node_id, 3, None);
    assert_eq!(children.len(), 3);
    assert_eq!(graph.count_topic_nodes(&topic.id), 4);
    assert_eq!(graph.get_topic_phase(&topic.id), TopicPhase::Development);
    assert_eq!(graph.count_topic_nodes("missing"), 0);
}

#[test]
fn test_graph_depth() {
    let mut graph = Graph::new();
    let a = Node::new("a".to_string(), 1);
    let b = Node::new("b".to_string(), 2);
    let c = Node::new("c".to_string(), 3);
    let (a_id, b_id, c_id) = (a.id.clone(), b.id.clone(), c.id.clone());
    graph.add_node(a);
    graph.add_node(b);
    graph.add_node(c);
    graph.add_edge(Edge::new(a_id.clone(), b_id.clone(), EdgeType::Reasoning));
    graph.add_edge(Edge::new(b_id.clone(), c_id.clone(), EdgeType::Reasoning));
    assert_eq!(graph.get_depth(&a_id, Vec::new()), 1);
    assert_eq!(graph.get_depth(&c_id, Vec::new()), 3);
    assert_eq!(graph.get_depth(&c_id, vec![c_id.clone()]), 0);
    // a cycle ends where a node comes round again
    graph.add_edge(Edge::new(c_id.clone(), a_id.clone(), EdgeType::Reasoning));
    assert_eq!(graph.get_depth(&a_id, Vec::new()), 3);
}

#[test]
fn test_diverge_basic() {
    let mut graph = Graph::new();
    let parent = Node::new("父親節點".to_string(), 1);
    let parent_id = parent.id.clone();
    graph.add_node(parent);
    let engine = DivergeEngine::new();
    let children = engine.diverge(&mut graph, &parent_id, 3, None);
    assert_eq!(children.len(), 3);
    assert_eq!(graph.node_count(), 4);
    assert_eq!(graph.edge_count(), 3);
    assert_eq!(children[0].content, "探索方向 A: 基於「父親節點」的延伸思考");
    assert_eq!(children[1].content, "探索方向 B: 反面假設「父親節點」");
    assert_eq!(children[2].content, "探索方向 3: 細節深化");
}

#[test]
fn test_diverge_creates_children() {
    let mut graph = Graph::new();
    let parent = Node::new("父親節點".to_string(), 1);
    let parent_id = parent.id.clone();
    graph.add_node(parent);
    let engine = DivergeEngine::new();
    let children = engine.diverge(&mut graph, &parent_id, 3, None);
    assert_eq!(children.len(), 3);
    assert_eq!(graph.node_count(), 4);
    assert_eq!(graph.edge_count(), 3);
}

#[test]
fn diverge_test_diverge_with_custom_contents() {
    let mut graph = Graph::new();
    let parent = Node::new("父親節點".to_string(), 1);
    let parent_id = parent.id.clone();
    graph.add_node(parent);
    let engine = DivergeEngine::new();
    let contents = vec!["自訂內容 A".to_string(), "自訂內容 B".to_string()];
    let children = engine.diverge(&mut graph, &parent_id, 2, Some(contents));
    assert_eq!(children.len(), 2);
    assert_eq!(children[0].content, "自訂內容 A");
    assert_eq!(children[1].content, "自訂內容 B");
}

#[test]
fn test_diverge_test_diverge_with_custom_contents() {
    let mut graph = Graph::new();
    let parent = Node::new("父親".to_string(), 1);
    let parent_id = parent.id.clone();
    graph.add_node(parent);
    let engine = DivergeEngine::new();
    let contents = vec!["方向 A".to_string(), "方向 B".to_string(), "方向 C".to_string()];
    let children = engine.diverge(&mut graph, &parent_id, 3, Some(contents));
    assert_eq!(children.len(), 3);
    assert_eq!(children[0].content, "方向 A");
    assert_eq!(children[1].content, "方向 B");
    assert_eq!(children[2].content, "方向 C");
}

#[test]
fn test_diverge_short_content_list() {
    let mut graph = Graph::new();
    let parent = Node::new("父親".to_string(), 1);
    let parent_id = parent.id.clone();
    graph.add_node(parent);
    let engine = DivergeEngine::new();
    let children = engine.diverge(&mut graph, &parent_id, 2, Some(vec!["唯一".to_string()]));
    assert_eq!(children[0].content, "唯一");
    assert_eq!(children[1].content, "發散分支 2");
}

#[test]
fn test_diverge_inherits_weight() {
    let mut graph = Graph::new();
    let parent = Node::new_with("父親".to_string(), 1, "父親".to_string(), 800, 900, 0);
    let parent_id = parent.id.clone();
    graph.add_node(parent);
    let engine = DivergeEngine::new();
    let children = engine.diverge(&mut graph, &parent_id, 2, None);
    for child in &children {
        assert!(child.weight < 800);
        assert!(child.weight >= 560);
        assert_eq!(child.confidence, 810);
    }
}

#[test]
fn test_diverge_child_inherits_with_decay() {
    let mut graph = Graph::new();
    let parent = Node::new_with("父親".to_string(), 1, "父親".to_string(), 1000, 900, 0);
    let parent_id = parent.id.clone();
    let parent_weight = parent.weight;
    let parent_confidence = parent.confidence;
    let parent_step = parent.step;
    graph.add_node(parent);
    let engine = DivergeEngine::new();
    let children = engine.diverge(&mut graph, &parent_id, 1, None);
    assert_eq!(children.len(), 1);
    let child = &children[0];
    assert!(child.weight < parent_weight);
    assert!(child.confidence < parent_confidence);
    assert_eq!(child.step, parent_step + 1);
    assert_eq!(child.parent_edges.len(), 1);
}

#[test]
fn test_diverge_pruned_node() {
    let mut graph = Graph::new();
    let mut parent = Node::new("父親節點".to_string(), 1);
    parent.status = NodeStatus::Pruned;
    let parent_id = parent.id.clone();
    graph.add_node(parent);
    let engine = DivergeEngine::new();
    assert_eq!(engine.diverge(&mut graph, &parent_id, 3, None).len(), 0);
}

#[test]
fn test_diverge_cannot_on_pruned() {
    let mut graph = Graph::new();
    let mut parent = Node::new("父親".to_string(), 1);
    parent.status = NodeStatus::Pruned;
    let parent_id = parent.id.clone();
    graph.add_node(parent);
    let engine = DivergeEngine::new();
    assert_eq!(engine.diverge(&mut graph, &parent_id, 3, None).len(), 0);
    assert_eq!(graph.nodes.len(), 1);
}

#[test]
fn test_diverge_cannot_on_locked() {
    let mut graph = Graph::new();
    let mut parent = Node::new("父親".to_string(), 1);
    parent.status = NodeStatus::Locked;
    let parent_id = parent.id.clone();
    graph.add_node(parent);
    let engine = DivergeEngine::new();
    assert_eq!(engine.diverge(&mut graph, &parent_id, 3, None).len(), 0);
}

#[test]
fn diverge_test_diverge_nonexistent_node() {
    let mut graph = Graph::new();
    let engine = DivergeEngine::new();
    assert_eq!(engine.diverge(&mut graph, "不存在的ID", 3, None).len(), 0);
}

#[test]
fn test_diverge_test_diverge_nonexistent_node() {
    let mut graph = Graph::new();
    let engine = DivergeEngine::new();
    let children = engine.diverge(&mut graph, "不存在的ID", 3, None);
    assert_eq!(children.len(), 0);
}

#[test]
fn test_diverge_only() {
    let parent = Node::new_with("父親".to_string(), 1, "父親".to_string(), 800, 900, 0);
    let engine = DivergeEngine::new_with_seed(123);
    let children = engine.diverge_only(&parent, 3);
    assert_eq!(children.len(), 3);
    assert_ne!(children[0].id, parent.id);
    assert_eq!(children[0].content, "發散分支 1（待加入圖中）");
}

#[test]
fn test_diverge_only_generates_nodes() {
    let parent = Node::new_with("父親".to_string(), 1, "父親".to_string(), 800, 800, 0);
    let engine = DivergeEngine::new_with_seed(42);
    let children = engine.diverge_only(&parent, 3);
    assert_eq!(children.len(), 3);
}

#[test]
fn test_diverge_seed_reproducibility() {
    let parent = Node::new_with("父親".to_string(), 1, "父親".to_string(), 800, 800, 0);
    let children1 = DivergeEngine::new_with_seed(12345).diverge_only(&parent, 3);
    let children2 = DivergeEngine::new_with_seed(12345).diverge_only(&parent, 3);
    for (c1, c2) in children1.iter().zip(children2.iter()) {
        assert_eq!(c1.content, c2.content);
        assert_eq!(c1.weight, c2.weight);
    }
}
