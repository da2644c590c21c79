use std::path::PathBuf;

use evolution_reasoning::controller::gemma_controller::QuestionPhase;
use evolution_reasoning::engine::constraint::ConstraintSource;
use evolution_reasoning::engine::diverge::DivergeEngine;
use evolution_reasoning::observability::constraint_log::{ConstraintChange, ConstraintChangeType};
use evolution_reasoning::observability::conversation::{round_markdown, ConversationRound, ToolCallRecord};
use evolution_reasoning::observability::markdown::escape_markdown;
use evolution_reasoning::observability::phase_transition::{phase_name, transition_row, PhaseTransition};
use evolution_reasoning::observability::snapshot::{graph_to_xml_at, snapshot_file_name, SnapshotLogger};
use evolution_reasoning::models::graph::Graph;
use evolution_reasoning::models::node::Node;
use evolution_reasoning::observability::output_template::OutputData;
use evolution_reasoning::observability::ObservableLogger;

#[test]
fn test_phase_name() {
    assert_eq!(phase_name(&QuestionPhase::Exploration), "探索期");
    assert_eq!(phase_name(&QuestionPhase::Development), "發展期");
    assert_eq!(phase_name(&QuestionPhase::Mature), "成熟期");
}

#[test]
fn test_phase_transition() {
    let t = PhaseTransition {
        timestamp: "2026-05-07 10:30:00".to_string(),
        from: QuestionPhase::Exploration,
        to: QuestionPhase::Development,
        reason: "節點數達到 3".to_string(),
        node_count: 3,
    };
    assert_eq!(t.from, QuestionPhase::Exploration);
    assert_eq!(t.to, QuestionPhase::Development);
    assert_eq!(transition_row(&t), "| 2026-05-07 10:30:00 | 探索期 | 發展期 | 節點數達到 3 | 3 |\n");
}

#[test]
fn test_change_type_name() {
    assert_eq!(format!("{:?}", ConstraintChangeType::Added), "Added");
    assert_eq!(format!("{:?}", ConstraintChangeType::Removed), "Removed");
}

#[test]
fn constraint_log_test_escape_markdown() {
    let input = "**bold** and `code`";
    let escaped = escape_markdown(input);
    assert!(!escaped.contains("**"));
    assert!(!escaped.contains("`"));
}

#[test]
fn test_constraint_change() {
    let change = ConstraintChange {
        timestamp: "2026-05-07 10:30:00".to_string(),
        change_type: ConstraintChangeType::Added,
        content: "測試約束".to_string(),
        source: ConstraintSource::User,
        constraint_id: "test-id-123".to_string(),
    };
    assert_eq!(change.change_type, ConstraintChangeType::Added);
}

#[test]
fn conversation_test_escape_markdown() {
    let input = "**bold** and `code`";
    let escaped = escape_markdown(input);
    assert!(!escaped.contains("**"));
    assert!(!escaped.contains("`"));
}

#[test]
fn test_escape_markdown_exact() {
    assert_eq!(escape_markdown("a_b#c\\`"), "a\\_b\\#c\\\\&\\#96;");
}

#[test]
fn test_conversation_round() {
    let round = ConversationRound {
        round: 1,
        user_input: "測試輸入".to_string(),
        gemma_response: "測試回覆".to_string(),
        tool_calls: vec![],
    };
    assert_eq!(round.round, 1);
    assert_eq!(round_markdown(&round), "## 回合 1\n\n**使用者：** 測試輸入\n\n**gemma4：** 測試回覆\n\n---\n\n");
}

#[test]
fn test_tool_call_record() {
    let tc = ToolCallRecord {
        name: "diverge".to_string(),
        arguments: r#"{"root": "node1", "content": "test", "count": 3}"#.to_string(),
    };
    assert_eq!(tc.name, "diverge");
}

#[test]
fn test_round_markdown_with_tools() {
    let round = ConversationRound {
        round: 2,
        user_input: "*".to_string(),
        gemma_response: "ok".to_string(),
        tool_calls: vec![ToolCallRecord { name: "status".to_string(), arguments: "{}".to_string() }],
    };
    assert_eq!(
        round_markdown(&round),
        "## 回合 2\n\n**使用者：** \\*\n\n**gemma4：** ok\n\n**工具呼叫：**\n\n- `status({})`\n\n---\n\n"
    );
}

#[test]
fn test_snapshot_logger_new() {
    let logger = SnapshotLogger::new(&PathBuf::from("/tmp/snapshots"));
    assert_eq!(logger.snapshots_dir().to_str(), Some("/tmp/snapshots"));
}

#[test]
fn test_observable_logger_new() {
    let logger = ObservableLogger::new();
    assert!(logger.logs_dir().ends_with("logs"));
    assert!(logger.snapshots_dir().ends_with("snapshots"));
}

#[test]
fn test_diverge_engine_new() {
    let engine = DivergeEngine::new();
    assert!(engine.seed.is_none());
}

#[test]
fn test_diverge_engine_new_with_seed() {
    let engine = DivergeEngine::new_with_seed(42);
    assert!(engine.seed.is_some());
    assert_eq!(engine.seed.unwrap(), 42);
}

#[test]
fn test_graph_to_xml() {
    let logger = SnapshotLogger::new(&PathBuf::from("/tmp/snapshots"));
    let mut graph = Graph::new();
    graph.add_node(Node::new("節點1".to_string(), 1));
    graph.add_node(Node::new("節點2".to_string(), 2));
    let xml = logger.graph_to_xml(&graph);
    assert!(xml.contains("<?xml version=\"1.0\" encoding=\"UTF-8\"?>"));
    assert!(xml.contains("<graph>"));
    assert!(xml.contains("</graph>"));
    assert!(xml.contains("<nodes>"));
    assert!(xml.contains("<edges>"));
    assert!(xml.contains("節點1"));
    assert!(xml.contains("節點2"));
}

#[test]
fn test_graph_to_xml_at_meta() {
    let mut graph = Graph::new();
    let mut n = Node::new_with("q".to_string(), 3, "內容".to_string(), 1000, 250, 1500);
    n.id = "n1".to_string();
    graph.add_node(n);
    let xml = graph_to_xml_at(&graph, "T");
    assert_eq!(
        xml,
        "<?xml version=\"1.0\" encoding=\"UTF-8\"?>\n<graph>\n  <meta>\n    <timestamp>T</timestamp>\n    <node_count>1</node_count>\n    <edge_count>0</edge_count>\n    <total_complexity>1.5000</total_complexity>\n  </meta>\n  <nodes>\n    <node id=\"n1\" step=\"3\" weight=\"1.0000\" confidence=\"0.2500\" complexity=\"1.5000\" status=\"Draft\">\n      <content><![CDATA[內容]]></content>\n    </node>\n  </nodes>\n  <edges>\n  </edges>\n</graph>\n"
    );
    assert_eq!(snapshot_file_name(1, "20260508_101500"), "snapshot_1_20260508_101500.xml");
}

#[test]
fn test_output_data_new() {
    let data = OutputData::new("測試主題");
    assert_eq!(data.topic, "測試主題");
    assert!(data.total_nodes == 0);
    assert!(data.core_findings.is_empty());
}

#[test]
fn test_output_data_from_stats() {
    let tree = "## 決策樹\n\n- 方向 A\n- 方向 B\n";
    let data = OutputData::from_stats_and_tree("睡眠品質", 10, 15, 42_500, "發展期", tree);
    assert_eq!(data.topic, "睡眠品質");
    assert_eq!(data.total_nodes, 10);
    assert_eq!(data.total_edges, 15);
    assert_eq!(data.total_complexity, 42_500);
    assert_eq!(data.final_phase, "發展期");
}

#[test]
fn test_output_data_to_markdown() {
    let mut data = OutputData::new("測試");
    data.action_items.push("行動 1".to_string());
    data.action_items.push("行動 2".to_string());
    let markdown = data.to_markdown();
    assert!(markdown.contains("討論產出：測試"));
    assert!(markdown.contains("行動 1"));
    assert!(markdown.contains("行動 2"));
    assert!(markdown.contains("Evolution Reasoning Tool v0.7"));
}

#[test]
fn test_generate_action_items_exploration() {
    let items = OutputData::generate_action_items(2, "探索期");
    assert!(!items.is_empty());
    assert!(items[0].contains("提問"));
}

#[test]
fn test_generate_action_items_mature() {
    let items = OutputData::generate_action_items(15, "成熟期");
    assert!(!items.is_empty());
    assert!(items[0].contains("收斂") || items[0].contains("行動"));
}

#[test]
fn output_data_findings_and_items_are_exact() {
    let data = OutputData::from_stats_and_tree("題", 12, 3, 42_505, "發展期", "");
    assert_eq!(data.core_findings, "總共建立了 12 個思考節點\n總複雜度為 42.51\n目前處於發展階段，已開始形成具體的方向和策略");
    assert_eq!(
        data.action_items,
        vec![
            "對已識別的方向進行深入分析".to_string(),
            "評估每個方向的可行性".to_string(),
            "開始建立候選方案".to_string(),
            "考慮進行收斂操作以簡化圖結構".to_string(),
        ]
    );
    let unknown = OutputData::generate_action_items(1, "x");
    assert_eq!(unknown, vec!["繼續探索和發展".to_string(), "增加節點數量以獲得更完整的視角".to_string()]);
    assert_eq!(OutputData::generate_core_findings(0, 0, "x"), "總共建立了 0 個思考節點\n總複雜度為 0.00\n階段未知");
}

#[test]
fn test_timestamp_filename() {
    let logger = ObservableLogger::new();
    let ts = logger.timestamp_filename();
    assert!(!ts.is_empty());
    assert!(ts.contains("_"));
}

#[test]
fn test_timestamp_content() {
    let logger = ObservableLogger::new();
    let ts = logger.timestamp_content();
    assert!(!ts.is_empty());
    assert!(ts.contains("-"));
    assert!(ts.contains(":"));
}
