use evolution_reasoning::cli::visual::{ansi_str, get_phase_color, get_phase_name, Color, Style, VisualPanel};
use evolution_reasoning::controller::gemma_controller::QuestionPhase;
use evolution_reasoning::models::edge::{Edge, EdgeType};
use evolution_reasoning::models::graph::Graph;
use evolution_reasoning::models::node::{Node, NodeStatus};

#[test]
fn test_colored_panel_new() {
    let panel = VisualPanel::new();
    assert!(panel.colored);
}

#[test]
fn test_no_color_panel() {
    let panel = VisualPanel::no_color();
    assert!(!panel.colored);
}

#[test]
fn test_set_color() {
    let mut panel = VisualPanel::new();
    panel.set_color(false);
    assert!(!panel.colored);
}

#[test]
fn test_format_plain() {
    let panel = VisualPanel::no_color();
    let result = panel.format(Color::Red, Style::Bold, "test");
    assert_eq!(result, "test");
}

#[test]
fn test_format_colored() {
    let panel = VisualPanel::new();
    let result = panel.format(Color::Red, Style::Bold, "test");
    assert!(result.contains("test"));
    assert!(result.contains("\x1b["));
}

#[test]
fn test_get_phase_color() {
    assert_eq!(get_phase_color(QuestionPhase::Exploration), Color::White);
    assert_eq!(get_phase_color(QuestionPhase::Development), Color::Cyan);
    assert_eq!(get_phase_color(QuestionPhase::Mature), Color::Magenta);
}

#[test]
fn test_ansi_str_exact() {
    assert_eq!(ansi_str(Color::Red, Style::Bold, "x"), "\x1b[1;31mx\x1b[0m");
    assert_eq!(ansi_str(Color::DarkGray, Style::Normal, ""), "\x1b[0;90m\x1b[0m");
}

#[test]
fn test_color_codes() {
    assert_eq!(Color::LightGray.fg_code(), "97");
    assert_eq!(Color::LightGray.bg_code(), "107");
    assert_eq!(Color::Black.bg_code(), "40");
    assert_eq!(get_phase_name(QuestionPhase::Mature), "成熟期");
}

#[test]
fn test_display_legend() {
    let panel = VisualPanel::no_color();
    let legend = panel.display_legend();
    assert!(legend.contains("圖例："));
}

#[test]
fn legend_plain_is_exact() {
    let panel = VisualPanel::no_color();
    let expected = format!(
        "{}\n圖例：\n  [鎖] 鎖定節點\n  conf > 0.8 = 高信心 0.5-0.8 中\n  conf < 0.5 低信心\n  [探索] 探索期  [發展] 發展期  [成熟] 成熟期\n",
        "─".repeat(50)
    );
    assert_eq!(panel.display_legend(), expected);
}

#[test]
fn format_node_plain() {
    let panel = VisualPanel::no_color();
    let mut node = Node::new_with("q".to_string(), 1, "內容".to_string(), 1500, 900, 1000);
    assert_eq!(panel.format_node(&node, QuestionPhase::Exploration), "[探索] [草] 內容 conf:0.90 weight:1.50 ");
    node.status = NodeStatus::Locked;
    assert_eq!(panel.format_node(&node, QuestionPhase::Mature), "[成熟] [鎖] 內容 conf:0.90 weight:1.50 🔒");
}

#[test]
fn graph_view_and_status_bar() {
    let panel = VisualPanel::no_color();
    let mut graph = Graph::new();
    assert_eq!(panel.display_graph(&graph, QuestionPhase::Exploration), "（圖是空的）\n");
    let root = Node::new_with("q".to_string(), 1, "根".to_string(), 1000, 600, 1000);
    let root_id = root.id.clone();
    let child = Node::new_with("q".to_string(), 2, "子".to_string(), 1000, 300, 1000);
    let child_id = child.id.clone();
    graph.add_node(root);
    graph.add_node(child);
    graph.add_edge(Edge::new(root_id, child_id, EdgeType::Reasoning));
    let view = panel.display_graph(&graph, QuestionPhase::Exploration);
    assert!(view.contains("[探索] [草] 根 conf:0.60 weight:1.00 \n└─[探索] [草] 子 conf:0.30 weight:1.00 \n"));
    assert!(view.contains("[階段] 探索期 | 節點數: 2\n"));
    assert_eq!(panel.display_status_bar(&graph, QuestionPhase::Exploration), "  [階段] 探索期 | 節點:2 鎖定:0 平均信心:0.45\n");
}

#[test]
fn constraints_and_topics_views() {
    let panel = VisualPanel::no_color();
    assert_eq!(panel.display_constraints(&[]), "（無約束條件）\n");
    assert_eq!(
        panel.display_constraints(&["預算".to_string(), "時間".to_string()]),
        "約束條件：\n  [1] 預算\n  [2] 時間\n"
    );
    let mut graph = Graph::new();
    assert_eq!(panel.display_multi_topic_graph(&graph), "（尚無主題）\n\n");
    graph.add_topic("旅行".to_string());
    let view = panel.display_multi_topic_graph(&graph);
    assert!(view.contains(" ▶  主題：旅行 (探索期) • 1 節點\n"));
    assert!(view.contains("多主題視圖 | 主題數: 1"));
}

#[test]
fn format_colored_exact_sequence() {
    let panel = VisualPanel::new();
    assert_eq!(panel.format(Color::Red, Style::Bold, "test"), "\x1b[1;31mtest\x1b[0m");
    assert_eq!(panel.format(Color::Cyan, Style::Dim, "x"), "\x1b[2;36mx\x1b[0m");
}
