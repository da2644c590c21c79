use evolution_reasoning::models::edge::EdgeType;
use evolution_reasoning::models::execution::ExecutionResult;
use evolution_reasoning::models::node::NodeStatus;

#[test]
fn test_edge_type_default() {
    let edge_type = EdgeType::default();
    assert_eq!(edge_type, EdgeType::Reasoning);
}

#[test]
fn test_execution_result_is_success() {
    let success = ExecutionResult::Success("done".to_string());
    let failure = ExecutionResult::Failure("error".to_string());
    let timeout = ExecutionResult::Timeout;

    assert!(success.is_success());
    assert!(!failure.is_success());
    assert!(!timeout.is_success());
}

#[test]
fn test_execution_result_message_and_display() {
    assert_eq!(ExecutionResult::Failure("e".to_string()).message(), Some("e"));
    assert_eq!(ExecutionResult::Pending.message(), None);
    assert!(ExecutionResult::Pending.is_pending());
    assert!(ExecutionResult::Failure("e".to_string()).is_failure());
    assert_eq!(ExecutionResult::Success("ok".to_string()).display(), "Success: ok");
    assert_eq!(ExecutionResult::Timeout.display(), "Timeout");
}

#[test]
fn test_node_status_default_and_names() {
    assert_eq!(NodeStatus::default(), NodeStatus::Draft);
    assert_eq!(NodeStatus::Locked.name(), "Locked");
    assert_eq!(EdgeType::Divergence.name(), "Divergence");
}
