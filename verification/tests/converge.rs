use evolution_reasoning::engine::budget::{ComplexityBudget, ThresholdGate};
use evolution_reasoning::engine::converge::ConvergeEngine;
use evolution_reasoning::models::edge::{Edge, EdgeType};
use evolution_reasoning::models::graph::Graph;
use evolution_reasoning::models::node::{Node, NodeStatus};

// Amounts are in thousandths: 0.9 is 900, 10.0 is 10_000.

#[test]
fn test_complexity_budget_new() {
    let budget = ComplexityBudget::new();
    assert_eq!(budget.k, 1000);
    assert_eq!(budget.max_complexity, 100_000);
    assert_eq!(budget.current_complexity, 0);
}

#[test]
fn test_complexity_budget_calculate() {
    let budget = ComplexityBudget::new();
    let complex = budget.calculate(3, 2);
    assert_eq!(complex, 6000);
}

#[test]
fn test_complexity_budget_is_over_budget() {
    let budget = ComplexityBudget::new_with(1000, 10_000);
    assert!(!budget.is_over_budget());

    let mut b2 = ComplexityBudget::new_with(1000, 10_000);
    b2.current_complexity = 15_000;
    assert!(b2.is_over_budget());
}

#[test]
fn test_complexity_budget_add_remove() {
    let mut budget = ComplexityBudget::new();
    budget.add_complexity(10_000);
    assert_eq!(budget.current_complexity, 10_000);
    budget.remove_complexity(5_000);
    assert_eq!(budget.current_complexity, 5_000);
}

#[test]
fn test_complexity_budget_remaining() {
    let mut budget = ComplexityBudget::new_with(1000, 100_000);
    budget.current_complexity = 30_000;
    assert_eq!(budget.remaining(), 70_000);
}

#[test]
fn test_complexity_budget_can_add() {
    let budget = ComplexityBudget::new_with(1000, 100_000);
    assert!(budget.can_add(50_000));
    assert!(budget.can_add(60_000));
    let mut budget2 = ComplexityBudget::new_with(1000, 100_000);
    budget2.current_complexity = 50_000;
    assert!(!budget2.can_add(60_000));
}

#[test]
fn test_threshold_gate_new() {
    let gate = ThresholdGate::new();
    assert_eq!(gate.confidence_weight, 600);
    assert_eq!(gate.threshold, 50_000);
}

#[test]
fn test_threshold_gate_should_converge() {
    let gate = ThresholdGate::new();
    assert!(gate.should_converge(60_000, 500));
    assert!(gate.should_converge(30_000, 850));
    assert!(!gate.should_converge(30_000, 500));
    assert!(!gate.should_converge(50_000, 500));
    assert!(!gate.should_converge(30_000, 800));
}

#[test]
fn test_threshold_gate_convergence_score() {
    let gate = ThresholdGate::new();
    // 0.6 * 0.8 + 0.3 * 5 + 0.1 * 3 = 2.28, in millionths
    let score = gate.convergence_score(800, 5, 3);
    assert_eq!(score, 2_280_000);
}

#[test]
fn test_threshold_gate_should_prune_by_score() {
    let gate = ThresholdGate::new();
    // scores in millionths: 30.0 and 60.0
    assert!(gate.should_prune_by_score(30_000_000));
    assert!(!gate.should_prune_by_score(60_000_000));
}

fn create_test_graph() -> Graph {
    let mut graph = Graph::new();
    let node1 = Node::new_with("高分節點".to_string(), 1, "高分節點".to_string(), 900, 900, 10_000);
    let node2 = Node::new_with("低分節點".to_string(), 1, "低分節點".to_string(), 100, 100, 5_000);
    let node3 = Node::new_with("中分節點".to_string(), 1, "中分節點".to_string(), 500, 500, 8_000);
    let n1_id = node1.id.clone();
    let n2_id = node2.id.clone();
    graph.add_node(node1);
    graph.add_node(node2);
    graph.add_node(node3);
    let edge = Edge::new(n1_id, n2_id, EdgeType::Reasoning);
    graph.add_edge(edge);
    graph
}

#[test]
fn test_converge_engine_new() {
    let engine = ConvergeEngine::new();
    assert_eq!(engine.get_threshold_gate().threshold, 50_000);
}

#[test]
fn test_converge_basic() {
    let mut graph = create_test_graph();
    let engine = ConvergeEngine::new();
    let pruned = engine.converge(&mut graph, Some(300));
    let low = graph.get_all_nodes().iter().find(|n| n.content == "低分節點").unwrap().id.clone();
    assert!(pruned.contains(&low));
}

#[test]
fn converge_test_converge_by_complexity() {
    let mut graph = create_test_graph();
    let engine = ConvergeEngine::new();
    assert_eq!(graph.total_complexity(), 23_000);
    let pruned = engine.converge_by_complexity(&mut graph, 15_000);
    assert!(!pruned.is_empty());
}

#[test]
fn converge_test_converge_by_confidence() {
    let mut graph = create_test_graph();
    let engine = ConvergeEngine::new();
    let pruned = engine.converge_by_confidence(&mut graph, 500);
    assert_eq!(pruned.len(), 1);
}

#[test]
fn converge_test_converge_smart() {
    let mut graph = create_test_graph();
    let engine = ConvergeEngine::new();
    let pruned = engine.converge_smart(&mut graph, 23_000);
    assert_eq!(pruned.len(), 1);
}

#[test]
fn test_converge_does_not_remove_locked() {
    let mut graph = Graph::new();
    let mut node = Node::new_with("鎖定節點".to_string(), 1, "鎖定節點".to_string(), 100, 100, 1000);
    node.status = NodeStatus::Locked;
    let node_id = node.id.clone();
    graph.add_node(node);
    let engine = ConvergeEngine::new();
    let pruned = engine.converge(&mut graph, Some(500));
    assert_eq!(pruned.len(), 0);
    assert_eq!(graph.get_node(&node_id).unwrap().status, NodeStatus::Locked);
}

#[test]
fn converge_test_converge_empty_graph() {
    let mut graph = Graph::new();
    let engine = ConvergeEngine::new();
    let pruned = engine.converge(&mut graph, Some(500));
    assert!(pruned.is_empty());
}

fn setup_test_graph() -> (Graph, String, String, String) {
    let mut graph = Graph::new();
    let high = Node::new_with("高分".to_string(), 1, "高分".to_string(), 900, 900, 10_000);
    let high_id = high.id.clone();
    let mid = Node::new_with("中分".to_string(), 1, "中分".to_string(), 500, 500, 5_000);
    let mid_id = mid.id.clone();
    let low = Node::new_with("低分".to_string(), 1, "低分".to_string(), 100, 100, 2_000);
    let low_id = low.id.clone();
    graph.add_node(high);
    graph.add_node(mid);
    graph.add_node(low);
    (graph, high_id, mid_id, low_id)
}

#[test]
fn test_converge_removes_low_score() {
    let (mut graph, high_id, mid_id, low_id) = setup_test_graph();
    let engine = ConvergeEngine::new();
    let pruned = engine.converge(&mut graph, Some(20));
    assert!(pruned.contains(&low_id));
    assert!(!pruned.contains(&high_id));
    assert!(!pruned.contains(&mid_id));
}

#[test]
fn test_converge_preserves_locked() {
    let mut graph = Graph::new();
    let mut node = Node::new_with("鎖定".to_string(), 1, "鎖定".to_string(), 100, 100, 1000);
    node.status = NodeStatus::Locked;
    graph.add_node(node);
    let engine = ConvergeEngine::new();
    let pruned = engine.converge(&mut graph, Some(300));
    assert_eq!(pruned.len(), 0);
}

#[test]
fn test_converge_test_converge_by_complexity() {
    let (mut graph, _high_id, _mid_id, _low_id) = setup_test_graph();
    let engine = ConvergeEngine::new();
    let pruned = engine.converge_by_complexity(&mut graph, 12_000);
    assert!(!pruned.is_empty());
}

#[test]
fn test_converge_test_converge_by_confidence() {
    let (mut graph, _high_id, mid_id, low_id) = setup_test_graph();
    let engine = ConvergeEngine::new();
    let pruned = engine.converge_by_confidence(&mut graph, 600);
    assert!(pruned.contains(&mid_id));
    assert!(pruned.contains(&low_id));
}

#[test]
fn test_converge_test_converge_smart() {
    let mut graph = Graph::new();
    let node = Node::new_with("高信心".to_string(), 1, "高信心".to_string(), 900, 900, 10_000);
    let node_id = node.id.clone();
    graph.add_node(node);
    let engine = ConvergeEngine::new();
    let pruned = engine.converge_smart(&mut graph, 60_000);
    assert!(pruned.contains(&node_id));
}

#[test]
fn test_converge_test_converge_empty_graph() {
    let mut graph = Graph::new();
    let engine = ConvergeEngine::new();
    let pruned = engine.converge(&mut graph, Some(500));
    assert_eq!(pruned.len(), 0);
}

#[test]
fn test_converge_custom_threshold_gate() {
    let gate = ThresholdGate::new_with(30_000, 700);
    let engine = ConvergeEngine::new_with_gate(gate);
    assert_eq!(engine.get_threshold_gate().threshold, 30_000);
    assert_eq!(engine.get_threshold_gate().confidence_weight, 700);
}

#[test]
fn test_converge_set_threshold_gate() {
    let mut engine = ConvergeEngine::new();
    let new_gate = ThresholdGate::new_with(40_000, 500);
    engine.set_threshold_gate(new_gate.clone());
    assert_eq!(engine.get_threshold_gate().threshold, 40_000);
}

// Own tests: the lowest scores go first, and pruning stops within the limit.
#[test]
fn converge_by_complexity_prunes_lowest_first_and_stops() {
    let (mut graph, high_id, mid_id, low_id) = setup_test_graph();
    let engine = ConvergeEngine::new();
    // 17 in all; dropping the low node (2) leaves 15, dropping the middle one (5) leaves 10.
    let pruned = engine.converge_by_complexity(&mut graph, 12_000);
    assert_eq!(pruned, vec![low_id.clone(), mid_id.clone()]);
    assert_eq!(graph.total_complexity(), 10_000);
    assert_eq!(graph.get_node(&high_id).unwrap().status, NodeStatus::Draft);
    assert_eq!(graph.get_node(&low_id).unwrap().status, NodeStatus::Pruned);
}

#[test]
fn converge_by_complexity_within_limit_prunes_nothing() {
    let (mut graph, _h, _m, _l) = setup_test_graph();
    let engine = ConvergeEngine::new();
    assert!(engine.converge_by_complexity(&mut graph, 17_000).is_empty());
}

#[test]
fn converge_smart_over_threshold_prunes_every_open_node() {
    let (mut graph, _h, _m, _l) = setup_test_graph();
    let engine = ConvergeEngine::new();
    assert_eq!(engine.converge_smart(&mut graph, 50_001).len(), 3);
}

#[test]
fn converge_uses_gate_threshold_by_default() {
    let (mut graph, _h, _m, _l) = setup_test_graph();
    let engine = ConvergeEngine::new_with_threshold(250);
    // scores 0.81, 0.25 and 0.01: only those under 0.25 go
    assert_eq!(engine.converge(&mut graph, None).len(), 1);
}

#[test]
fn budget_saturates() {
    let mut budget = ComplexityBudget::new_with(1000, 10);
    budget.add_complexity(u64::MAX);
    budget.add_complexity(5);
    assert_eq!(budget.current_complexity, u64::MAX);
    budget.remove_complexity(u64::MAX);
    budget.remove_complexity(1);
    assert_eq!(budget.current_complexity, 0);
    assert_eq!(budget.calculate(-2, 3), -6000);
}
