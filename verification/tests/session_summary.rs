use std::path::PathBuf;

use evolution_reasoning::observability::session_summary::{SessionStats, SessionSummaryLogger};

// The complexity is in thousandths: 42.5 is 42_500.

fn logs() -> PathBuf {
    PathBuf::from("test_logs")
}

#[test]
fn test_session_stats_new() {
    let stats = SessionStats::new("測試主題");
    assert_eq!(stats.topic, "測試主題");
    assert_eq!(stats.total_rounds, 0);
}

#[test]
fn test_session_summary_logger() {
    let logger = SessionSummaryLogger::new(&logs(), "測試主題");
    assert!(logger.log_path().to_str().unwrap().contains("session_"));
    assert_eq!(logger.stats().topic, "測試主題");
}

#[test]
fn test_increment_stats() {
    let mut logger = SessionSummaryLogger::new(&logs(), "測試");
    logger.increment_rounds();
    logger.add_nodes(3);
    logger.add_constraint_change();
    logger.add_phase_transition();
    logger.add_question();
    assert_eq!(logger.stats().total_rounds, 1);
    assert_eq!(logger.stats().nodes_added, 3);
    assert_eq!(logger.stats().constraints_changed, 1);
    assert_eq!(logger.stats().phase_transitions, 1);
    assert_eq!(logger.stats().questions_asked, 1);
}

#[test]
fn test_set_final_state() {
    let mut logger = SessionSummaryLogger::new(&logs(), "測試");
    logger.set_final_state(10, 15, 42_500, "成熟期");
    assert_eq!(logger.stats().final_node_count, 10);
    assert_eq!(logger.stats().final_edge_count, 15);
    assert_eq!(logger.stats().final_complexity, 42_500);
    assert_eq!(logger.stats().final_phase, "成熟期");
}

#[test]
fn test_write_summary() {
    let mut logger = SessionSummaryLogger::new(&logs(), "測試主題");
    logger.increment_rounds();
    logger.increment_rounds();
    logger.add_nodes(5);
    logger.add_question();
    logger.add_question();
    logger.set_final_state(5, 4, 25_000, "發展期");
    let content = logger.summary();
    assert!(content.contains("Session 摘要"));
    assert!(content.contains("測試主題"));
    assert!(content.contains("總回合數"));
    assert!(content.contains("發展期"));
}

#[test]
fn summary_question_density() {
    let mut logger = SessionSummaryLogger::new(&logs(), "t");
    for _ in 0..3 {
        logger.increment_rounds();
    }
    logger.add_question();
    logger.add_question();
    let content = logger.summary_at("T");
    assert!(content.starts_with("# Session 摘要\n\n**時間：** T\n\n---\n\n## 基本資訊\n\n- **討論主題：** t\n"));
    assert!(content.contains("- **平均每回合提問數：** 0.7\n- **提問密度評估：** 中（正常對話）\n"));
    assert!(content.contains("- **總複雜度：** 0.00\n"));
    let empty = SessionSummaryLogger::new(&logs(), "t").summary_at("T");
    assert!(empty.contains("- **平均每回合提問數：** 0.0\n- **提問密度評估：** 低（可能進入成熟期）\n"));
}
