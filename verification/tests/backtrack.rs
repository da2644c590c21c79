use evolution_reasoning::engine::backtrack::{
    extract_xml_attr, parse_edge_type, parse_node_status, BacktrackManager, Checkpoint, CheckpointReason,
    CorrectionHypothesis, FailurePattern, FailurePatternType,
};
use evolution_reasoning::engine::graph_xml::{graph_from_xml, graph_snapshot_xml};
use evolution_reasoning::models::edge::{Edge, EdgeType};
use evolution_reasoning::models::graph::Graph;
use evolution_reasoning::models::node::{Node, NodeStatus};

#[test]
fn test_checkpoint_creation() {
    let cp = Checkpoint::new(
        "node-123".to_string(),
        "<graph>...</graph>".to_string(),
        CheckpointReason::PreDiverge,
        "測試檢查點",
    );
    assert_eq!(cp.node_id, "node-123");
    assert_eq!(cp.description, "測試檢查點");
    assert!(!cp.id.is_empty());
    assert_eq!(cp.id.len(), 36);
}

#[test]
fn test_backtrack_manager_create_checkpoint() {
    let mut mgr = BacktrackManager::new();
    let mut graph = Graph::new();
    let node = Node::new_with("test".to_string(), 1, "test".to_string(), 800, 900, 1000);
    let node_id = node.id.clone();
    graph.add_node(node);
    let cp = mgr.create_checkpoint(node_id, &graph, CheckpointReason::Manual, "測試");
    assert_eq!(mgr.checkpoint_count(), 1);
    assert!(!cp.node_id.is_empty());
    assert_eq!(mgr.get_checkpoint(&cp.id).unwrap().snapshot, graph_snapshot_xml(&graph));
    assert_eq!(mgr.get_last_checkpoint().unwrap().id, cp.id);
    mgr.clear_checkpoints();
    assert_eq!(mgr.checkpoint_count(), 0);
}

#[test]
fn test_correction_hypothesis_generate_exit_nonzero() {
    let failure = FailurePattern::new(
        FailurePatternType::ExitNonZero,
        "curl".to_string(),
        Some(127),
        "curl: command not found".to_string(),
        "node-1".to_string(),
    );
    let hypotheses = CorrectionHypothesis::generate(&failure);
    assert!(!hypotheses.is_empty());
    assert!(hypotheses.iter().any(|h| h.hypothesis.contains("exit code 127")));
    assert_eq!(hypotheses.len(), 3);
    assert_eq!(hypotheses[0].original_failure, "命令執行失敗，exit code: 127");
    assert_eq!(hypotheses[0].confidence, 80);
    assert_eq!(hypotheses[2].original_failure, "stderr: curl: command not found");
}

#[test]
fn test_correction_hypothesis_generate_parse_error() {
    let failure = FailurePattern::new(
        FailurePatternType::ParseError,
        "echo".to_string(),
        Some(0),
        "not json output".to_string(),
        "node-1".to_string(),
    );
    let hypotheses = CorrectionHypothesis::generate(&failure);
    assert!(hypotheses.iter().any(|h| h.hypothesis.contains("JSON")));
}

#[test]
fn test_hypotheses_other_kinds() {
    let f = FailurePattern::new(FailurePatternType::CommandNotFound, "foo".to_string(), None, "err".to_string(), "n".to_string());
    let hs = CorrectionHypothesis::generate(&f);
    assert_eq!(hs.len(), 2);
    assert_eq!(hs[0].suggested_action, "使用 which foo 確認命令是否存在，或安裝必要的工具");
    let f = FailurePattern::new(FailurePatternType::ExitNonZero, "x".to_string(), None, String::new(), "n".to_string());
    let hs = CorrectionHypothesis::generate(&f);
    assert_eq!(hs.len(), 1);
    assert_eq!(hs[0].hypothesis, "命令執行失敗，可能是參數錯誤或輸入資料有問題（exit=-1）");
    let long: String = std::iter::repeat('錯').take(150).collect();
    let f = FailurePattern::new(FailurePatternType::NodeNotFound, "x".to_string(), None, long, "n9".to_string());
    let hs = CorrectionHypothesis::generate(&f);
    assert_eq!(hs[0].original_failure, "節點不存在: n9");
    assert_eq!(hs[1].original_failure.chars().count(), "stderr: ".chars().count() + 100);
}

#[test]
fn test_failure_pattern_type_from_str() {
    assert_eq!(FailurePatternType::from_str("exit_nonzero"), FailurePatternType::ExitNonZero);
    assert_eq!(FailurePatternType::from_str("command_not_found"), FailurePatternType::CommandNotFound);
    assert_eq!(FailurePatternType::from_str("timeout"), FailurePatternType::Timeout);
    assert_eq!(FailurePatternType::from_str("unknown"), FailurePatternType::ExecutionFailed);
}

#[test]
fn test_failure_pattern_type_from_str_case() {
    assert_eq!(FailurePatternType::from_str("TIMEOUT"), FailurePatternType::Timeout);
    assert_eq!(FailurePatternType::from_str("Node_Not_Found"), FailurePatternType::NodeNotFound);
    assert_eq!(FailurePatternType::from_lowercase("Timeout"), FailurePatternType::ExecutionFailed);
    assert_eq!(FailurePatternType::ParseError.to_text(), "parse_error");
    assert_eq!(FailurePatternType::ParseError.debug_name(), "ParseError");
}

#[test]
fn test_record_execute_failure() {
    let mut mgr = BacktrackManager::new();
    let result_json = r#"{"success": false, "exit_code": 127, "stderr": "command not found", "command": "fake_cmd", "error": "無法執行"}"#;
    let failure = mgr.record_execute_failure("node-abc".to_string(), result_json);
    assert!(failure.is_some());
    let f = failure.unwrap();
    assert_eq!(f.pattern_type, FailurePatternType::CommandNotFound);
    assert_eq!(mgr.failure_count(), 1);
}

#[test]
fn test_record_execute_failure_no_error() {
    let mut mgr = BacktrackManager::new();
    let result_json = r#"{"success": true, "exit_code": 0, "stdout": "ok"}"#;
    let failure = mgr.record_execute_failure("node-abc".to_string(), result_json);
    assert!(failure.is_none());
    assert_eq!(mgr.failure_count(), 0);
}

#[test]
fn test_record_execute_failure_kinds() {
    let mut mgr = BacktrackManager::new();
    assert!(mgr.record_execute_failure("n".to_string(), "not json").is_none());
    let f = mgr.record_execute_failure("n".to_string(), r#"{"error": "逾時了"}"#).unwrap();
    assert_eq!(f.pattern_type, FailurePatternType::Timeout);
    let f = mgr.record_execute_failure("n".to_string(), r#"{"exit_code": 0}"#).unwrap();
    assert_eq!(f.pattern_type, FailurePatternType::ExecutionFailed);
    let f = mgr.record_execute_failure("n".to_string(), r#"{"exit_code": 0, "stderr": "w"}"#).unwrap();
    assert_eq!(f.pattern_type, FailurePatternType::ExitNonZero);
    assert_eq!(f.exit_code, Some(0));
    assert_eq!(mgr.failure_count(), 3);
    let hs = mgr.get_hypotheses(&f.id);
    assert_eq!(hs.len(), 2);
    assert!(mgr.get_hypotheses("no-such-id").is_empty());
}

#[test]
fn test_get_hypotheses_for_last_failure() {
    let mut mgr = BacktrackManager::new();
    let result_json = r#"{"success": false, "exit_code": 1, "stderr": "parse error", "command": "jq"}"#;
    mgr.record_execute_failure("node-1".to_string(), result_json);
    let hypotheses = mgr.get_hypotheses_for_last_failure();
    assert!(!hypotheses.is_empty());
}

#[test]
fn backtrack_test_format_for_prompt() {
    let mgr = BacktrackManager::new();
    let formatted = mgr.format_for_prompt();
    assert!(formatted.contains("尚無檢查點或失敗記錄"));
}

#[test]
fn test_format_for_prompt_lines() {
    let mut mgr = BacktrackManager::new();
    for i in 0..7 {
        mgr.create_checkpoint(format!("node{}", i), &Graph::new(), CheckpointReason::Manual, "d");
    }
    mgr.record_execute_failure("nf".to_string(), r#"{"exit_code": 2}"#);
    let text = mgr.format_for_prompt();
    assert!(text.starts_with("## 檢查點歷史\n7. ["));
    assert!(text.contains("] node6 - manual ("));
    assert!(text.contains("3. ["));
    assert!(!text.contains("2. [") || text.contains("## 失敗歷史"));
    assert!(text.contains("## 失敗歷史\n1. ["));
    assert!(text.contains("] ExitNonZero - exit=Some(2) @ nf\n"));
}

#[test]
fn test_xml_helpers() {
    assert_eq!(extract_xml_attr(r#"<node id="abc" step="2">"#, "step"), Some("2".to_string()));
    assert_eq!(extract_xml_attr(r#"<node id="abc">"#, "weight"), None);
    assert_eq!(parse_node_status("Locked"), Some(NodeStatus::Locked));
    assert_eq!(parse_node_status("Failed"), None);
    assert_eq!(parse_edge_type("Divergence"), Some(EdgeType::Divergence));
    assert_eq!(parse_edge_type("other"), None);
}

#[test]
fn test_backtrack_manager_restore() {
    let mut mgr = BacktrackManager::new();
    let mut graph = Graph::new();
    let node = Node::new_with("test".to_string(), 1, "test".to_string(), 800, 900, 1000);
    let node_id = node.id.clone();
    graph.add_node(node);
    let cp = mgr.create_checkpoint(node_id.clone(), &graph, CheckpointReason::Manual, "測試");
    let restored = mgr.restore_from_checkpoint(&cp.id);
    assert!(restored.is_some());
    let restored_graph = restored.unwrap();
    assert_eq!(restored_graph.node_count(), 1);
    let back = restored_graph.get_node(&node_id).unwrap();
    assert_eq!(back.weight, 800);
    assert_eq!(back.confidence, 900);
    assert_eq!(back.content, "test");
    assert!(mgr.restore_from_checkpoint("missing").is_none());
    assert_eq!(mgr.restore_last_checkpoint().unwrap().node_count(), 1);
}

#[test]
fn test_graph_snapshot_xml_format() {
    let mut graph = Graph::new();
    let mut a = Node::new_with("甲".to_string(), 2, "甲".to_string(), 1250, 500, 3000);
    a.id = "a".to_string();
    let mut b = Node::new("乙".to_string(), -1);
    b.id = "b".to_string();
    b.status = NodeStatus::Locked;
    graph.add_node(a);
    graph.add_node(b);
    let mut e = Edge::new_with_weight("a".to_string(), "b".to_string(), EdgeType::Divergence, 700);
    e.id = "e".to_string();
    graph.add_edge(e);
    let xml = graph_snapshot_xml(&graph);
    assert_eq!(
        xml,
        "<?xml version=\"1.0\" encoding=\"UTF-8\"?>\n<graph>\n  <nodes>\n    <node id=\"a\" step=\"2\" weight=\"1.2500\" confidence=\"0.5000\" status=\"Draft\">\n      <content><![CDATA[甲]]></content>\n    </node>\n    <node id=\"b\" step=\"-1\" weight=\"1.0000\" confidence=\"0.5000\" status=\"Locked\">\n      <content><![CDATA[乙]]></content>\n    </node>\n  </nodes>\n  <edges>\n    <edge id=\"e\" from=\"a\" to=\"b\" type=\"Divergence\" weight=\"0.7000\" />\n  </edges>\n  <complexity>3.0000</complexity>\n</graph>\n"
    );
    let back = graph_from_xml(&xml).unwrap();
    assert_eq!(back.nodes.len(), 2);
    assert_eq!(back.edges.len(), 1);
    assert_eq!(back.get_node("a").unwrap().weight, 1250);
    assert_eq!(back.get_node("b").unwrap().step, -1);
    assert_eq!(back.get_node("b").unwrap().status, NodeStatus::Locked);
    assert_eq!(back.get_children("a")[0].id, "b");
}

#[test]
fn test_graph_from_xml_errors() {
    assert_eq!(graph_from_xml("<graph/>").err().unwrap(), "Invalid XML: missing nodes section");
    assert_eq!(graph_from_xml("<nodes><node step=\"1\"></nodes>").err().unwrap(), "Invalid XML: missing node id");
    assert_eq!(
        graph_from_xml("<nodes></nodes><edges><edge to=\"x\" /></edges>").err().unwrap(),
        "Invalid XML: missing edge from"
    );
    assert_eq!(
        graph_from_xml("<nodes></nodes><edges><edge from=\"x\" /></edges>").err().unwrap(),
        "Invalid XML: missing edge to"
    );
    let g = graph_from_xml("<nodes><node id=\"n\" step=\"x\" weight=\"bad\" status=\"Failed\"></nodes>").unwrap();
    let n = g.get_node("n").unwrap();
    assert_eq!(n.step, 1);
    assert_eq!(n.weight, 1000);
    assert_eq!(n.status, NodeStatus::Active);
    assert_eq!(n.content, "");
}

#[test]
fn snapshot_reads_back_the_graph() {
    let mut graph = Graph::new();
    let mut a = Node::new_with("q".to_string(), 7, "a \"quoted\" = [x] & more".to_string(), 333, 901, 10);
    a.id = "n-1".to_string();
    let mut b = Node::new("second".to_string(), -4);
    b.id = "n-2".to_string();
    b.status = NodeStatus::Failed;
    graph.add_node(a);
    graph.add_node(b);
    let mut e = Edge::new_with_weight("n-1".to_string(), "n-2".to_string(), EdgeType::Constraint, 1);
    e.id = "e-1".to_string();
    graph.add_edge(e);
    let mut mgr = BacktrackManager::new();
    let cp = mgr.create_checkpoint("n-1".to_string(), &graph, CheckpointReason::Manual, "d");
    let back = mgr.restore_from_checkpoint(&cp.id).unwrap();
    assert_eq!(back.nodes.len(), 2);
    let a2 = back.get_node("n-1").unwrap();
    assert_eq!((a2.step, a2.weight, a2.confidence), (7, 333, 901));
    assert_eq!(a2.content, "a \"quoted\" = [x] & more");
    assert_eq!(a2.status, NodeStatus::Draft);
    let b2 = back.get_node("n-2").unwrap();
    assert_eq!(b2.step, -4);
    assert_eq!(b2.status, NodeStatus::Active);
    assert_eq!(back.edges.len(), 1);
    assert_eq!(back.edges[0].from, "n-1");
    assert_eq!(back.edges[0].to, "n-2");
    assert_eq!(back.edges[0].edge_type, EdgeType::Constraint);
    assert_eq!(back.edges[0].weight, 1);
}
