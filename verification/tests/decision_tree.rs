use evolution_reasoning::engine::decision_tree::{generate_full_report, DecisionNode, DecisionTree};
use evolution_reasoning::models::edge::{Edge, EdgeType};
use evolution_reasoning::models::graph::Graph;
use evolution_reasoning::models::node::Node;

// Weights and confidences are thousandths; scores millionths.

#[test]
fn test_decision_node_from_node() {
    let mut graph = Graph::new();
    let root = Node::new_with("根節點".to_string(), 1, "根節點".to_string(), 800, 900, 1000);
    let root_id = root.id.clone();
    graph.add_node(root);
    let child = Node::new_with("子節點".to_string(), 2, "子節點".to_string(), 700, 800, 1000);
    let child_id = child.id.clone();
    graph.add_node(child);
    let edge = Edge::new(root_id.clone(), child_id, EdgeType::Reasoning);
    graph.add_edge(edge);

    let node = graph.get_node(&root_id).unwrap();
    let decision_node = DecisionNode::from_node(&graph, node);
    assert_eq!(decision_node.content, "根節點");
    assert_eq!(decision_node.score, 720_000);
    assert_eq!(decision_node.children.len(), 1);
    assert_eq!(decision_node.children[0].content, "子節點");
}

#[test]
fn test_decision_tree_from_graph() {
    let mut graph = Graph::new();
    let root = Node::new_with("測試主題".to_string(), 1, "測試主題".to_string(), 800, 900, 1000);
    graph.add_node(root);
    let tree = DecisionTree::from_graph(&graph, "測試");
    assert!(tree.is_some());
    let tree = tree.unwrap();
    assert_eq!(tree.topic, "測試");
    assert_eq!(tree.root.content, "測試主題");
}

fn sleep_graph() -> (Graph, String) {
    let mut graph = Graph::new();
    let root = Node::new_with("睡眠改善".to_string(), 1, "睡眠改善".to_string(), 800, 900, 1000);
    let root_id = root.id.clone();
    graph.add_node(root);
    let dir_a = Node::new_with("方向 A：睡眠衛生".to_string(), 2, "方向 A：睡眠衛生".to_string(), 700, 850, 1000);
    let dir_a_id = dir_a.id.clone();
    graph.add_node(dir_a);
    graph.add_edge(Edge::new(root_id.clone(), dir_a_id.clone(), EdgeType::Reasoning));
    let leaf_a1 = Node::new_with("光線控制".to_string(), 3, "光線控制".to_string(), 600, 900, 500);
    let leaf_a1_id = leaf_a1.id.clone();
    graph.add_node(leaf_a1);
    graph.add_edge(Edge::new(dir_a_id.clone(), leaf_a1_id.clone(), EdgeType::Reasoning));
    let dir_b = Node::new_with("方向 B：生理調節".to_string(), 2, "方向 B：生理調節".to_string(), 800, 800, 1000);
    let dir_b_id = dir_b.id.clone();
    graph.add_node(dir_b);
    graph.add_edge(Edge::new(root_id.clone(), dir_b_id.clone(), EdgeType::Reasoning));
    (graph, root_id)
}

#[test]
fn test_decision_tree_to_markdown() {
    let (graph, _) = sleep_graph();
    let tree = DecisionTree::from_graph(&graph, "睡眠品質").unwrap();
    let markdown = tree.to_markdown();
    assert!(markdown.contains("決策樹：睡眠品質"));
    assert!(markdown.contains("方向 A"));
    assert!(markdown.contains("方向 B"));
    assert!(markdown.contains("光線控制"));
}

#[test]
fn decision_tree_markdown_is_exact() {
    let (graph, _) = sleep_graph();
    let tree = DecisionTree::from_graph(&graph, "睡眠品質").unwrap();
    assert_eq!(tree.total_nodes, 4);
    assert_eq!(tree.root.depth(), 3);
    assert_eq!(tree.root.count(), 4);
    let expected = "## 決策樹：睡眠品質\n\n\
### 方向 A：方向 A：睡眠衛生\n- 光線控制 (分數:0.54, 信心:0.90)\n\n\
### 方向 B：方向 B：生理調節\n- 分數:0.64, 信心:0.80\n\n\
### 建議優先順序\n1. 優先：方向 B：生理調節 (分數:0.64)\n2. 其次：光線控制 (分數:0.54)\n\
\n---\n*總節點數：4*\n";
    assert_eq!(tree.to_markdown(), expected);
}

#[test]
fn decision_tree_none_without_roots() {
    let graph = Graph::new();
    assert!(DecisionTree::from_graph(&graph, "x").is_none());
}

#[test]
fn full_report_lists_known_topics() {
    let mut graph = Graph::new();
    let topic = graph.add_topic("主題".to_string());
    let report = generate_full_report(&graph, &[(topic.id.as_str(), "主題"), ("missing", "無")]);
    assert!(report.starts_with("# 推理決策樹報告\n\n生成時間："));
    assert!(report.contains("## 決策樹：主題"));
    assert!(!report.contains("無"));
}
