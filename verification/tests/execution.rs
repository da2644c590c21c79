use evolution_reasoning::models::execution::{ExecutionBridge, ExecutionResult, ExecutionTask, FeedbackItem};

#[test]
fn test_feedback_item_new() {
    let feedback = FeedbackItem::success("node-1".to_string(), "ok".to_string());
    assert_eq!(feedback.node_id, "node-1");
    assert!(feedback.result.is_success());
    assert_eq!(feedback.retry_count, 0);
}

#[test]
fn test_execution_task() {
    let task = ExecutionTask::new("node-1".to_string(), "ls -la".to_string())
        .with_timeout(60)
        .with_expected_result("files".to_string());
    assert_eq!(task.node_id, "node-1");
    assert_eq!(task.command, "ls -la");
    assert_eq!(task.timeout_secs, 60);
    assert!(task.expected_result.is_some());
}

#[test]
fn test_execution_bridge_new() {
    let bridge = ExecutionBridge::new();
    assert_eq!(bridge.pending_count(), 0);
    assert_eq!(bridge.feedback_count(), 0);
}

// The command runs in the application; the bridge records what came back.
#[test]
fn test_execute_command_success() {
    let mut bridge = ExecutionBridge::new();
    let result = bridge.execute_next("node-1", ExecutionResult::Success("hello".to_string()), 0);
    assert!(result.is_success());
    assert!(result.message().unwrap().contains("hello"));
}

#[test]
fn test_execute_command_failure() {
    let mut bridge = ExecutionBridge::new();
    let result = bridge.execute_next("node-1", ExecutionResult::Failure(String::new()), 0);
    assert!(result.is_failure());
}

#[test]
fn test_verify() {
    let mut bridge = ExecutionBridge::new();
    bridge.execute_next("node-1", ExecutionResult::Success("hello world".to_string()), 0);
    assert!(bridge.verify("node-1", "hello"));
    assert!(!bridge.verify("node-1", "goodbye"));
}

#[test]
fn test_retry() {
    let mut bridge = ExecutionBridge::new();
    bridge.execute_next("node-1", ExecutionResult::Failure("No such file".to_string()), 0);
    assert_eq!(bridge.retry_command("node-1"), Some("echo retry node-1".to_string()));
    let result = bridge.retry("node-1", ExecutionResult::Success("retry node-1".to_string()));
    assert!(result.is_success());
    assert_eq!(bridge.latest_feedback().unwrap().retry_count, 1);
}

#[test]
fn test_feedback_history_limit() {
    let mut bridge = ExecutionBridge::new();
    bridge.max_history = 3;
    for i in 0..5 {
        bridge.execute_next(&format!("node-{}", i), ExecutionResult::Success("ok".to_string()), 0);
    }
    assert_eq!(bridge.feedback_count(), 3);
    assert_eq!(bridge.latest_feedback().unwrap().node_id, "node-4");
}

#[test]
fn retry_without_failure_is_refused() {
    let mut bridge = ExecutionBridge::new();
    bridge.execute_next("n", ExecutionResult::Success("ok".to_string()), 0);
    assert_eq!(bridge.retry_command("n"), None);
    match bridge.retry("n", ExecutionResult::Pending) {
        ExecutionResult::Failure(m) => assert_eq!(m, "No failed task found for node n"),
        _ => panic!("a retry without a failure fails"),
    }
    assert_eq!(bridge.feedback_count(), 1);
}

#[test]
fn stale_tasks_are_dropped() {
    let mut bridge = ExecutionBridge::new();
    let mut old = ExecutionTask::new("a".to_string(), "x".to_string());
    old.created_at = 1000;
    let mut fresh = ExecutionTask::new("b".to_string(), "y".to_string());
    fresh.created_at = 1200;
    bridge.enqueue(old);
    bridge.enqueue(fresh);
    bridge.cleanup_stale_tasks_at(1300);
    assert_eq!(bridge.pending_count(), 1);
    assert_eq!(bridge.pending_tasks[0].node_id, "b");
    bridge.clear_pending();
    assert_eq!(bridge.pending_count(), 0);
    let all = {
        bridge.push_feedback(FeedbackItem::timeout("z".to_string()));
        bridge.push_feedback(FeedbackItem::pending("z".to_string()));
        bridge.get_all_feedback_for_node("z").len()
    };
    assert_eq!(all, 2);
    assert!(bridge.get_feedback_for_node("z").unwrap().result.is_pending());
}
