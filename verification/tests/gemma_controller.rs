use evolution_reasoning::controller::gemma_controller::{
    build_system_prompt, parse_text_tool_calls, reply_with_tool_note, strip_json_tool_calls,
    tool_call_id, build_node_context, ControllerError, ControllerMode, GemmaController, PhaseState,
    QuestionPhase, RoundBudget, RoundStep,
};
use evolution_reasoning::models::graph::Graph;
use evolution_reasoning::models::node::{Node, NodeStatus};
use evolution_reasoning::ollama::client::{Message, ToolCall, ToolCallFunction};
use evolution_reasoning::models::graph::TopicPhase;
use evolution_reasoning::ollama::client::OllamaError;

#[test]
fn gemma_controller_test_question_phase_from_node_count() {
    assert_eq!(QuestionPhase::from_node_count(0), QuestionPhase::Exploration);
    assert_eq!(QuestionPhase::from_node_count(1), QuestionPhase::Exploration);
    assert_eq!(QuestionPhase::from_node_count(2), QuestionPhase::Exploration);
    assert_eq!(QuestionPhase::from_node_count(3), QuestionPhase::Development);
    assert_eq!(QuestionPhase::from_node_count(5), QuestionPhase::Development);
    assert_eq!(QuestionPhase::from_node_count(10), QuestionPhase::Development);
    assert_eq!(QuestionPhase::from_node_count(11), QuestionPhase::Mature);
    assert_eq!(QuestionPhase::from_node_count(100), QuestionPhase::Mature);
}

#[test]
fn gemma_controller_test_question_phase_name() {
    assert_eq!(QuestionPhase::Exploration.name(), "探索期");
    assert_eq!(QuestionPhase::Development.name(), "發展期");
    assert_eq!(QuestionPhase::Mature.name(), "成熟期");
}

#[test]
fn gemma_controller_test_question_phase_transition_message() {
    let exploration_msg = QuestionPhase::Exploration.transition_message();
    assert!(exploration_msg.contains("探索期"));
    assert!(exploration_msg.contains("提問"));

    let development_msg = QuestionPhase::Development.transition_message();
    assert!(development_msg.contains("發展期"));

    let mature_msg = QuestionPhase::Mature.transition_message();
    assert!(mature_msg.contains("成熟期"));
}

#[test]
fn test_controller_mode_enum_default() {
    assert_eq!(ControllerMode::default(), ControllerMode::Diverge);
}

#[test]
fn test_phase_never_moves_back() {
    let mut last = 0;
    for n in 0..30usize {
        let rank = match QuestionPhase::from_node_count(n) {
            QuestionPhase::Exploration => 0,
            QuestionPhase::Development => 1,
            QuestionPhase::Mature => 2,
        };
        assert!(rank >= last);
        last = rank;
    }
}

#[test]
fn test_topic_phase_agrees_with_question_phase() {
    for n in 0..20usize {
        let t = TopicPhase::from_node_count(n);
        assert_eq!(t.to_question_phase(), QuestionPhase::from_node_count(n));
        assert_eq!(t.name(), QuestionPhase::from_node_count(n).name());
    }
}

#[test]
fn test_check_phase_transition() {
    let mut state = PhaseState::for_node_count(0);
    assert_eq!(state.phase, QuestionPhase::Exploration);
    assert!(state.check_phase_transition(2).is_none());
    let msg = state.check_phase_transition(3);
    assert_eq!(msg.as_deref(), Some(QuestionPhase::Development.transition_message()));
    assert_eq!(state.phase, QuestionPhase::Development);
    assert_eq!(state.previous_phase, Some(QuestionPhase::Exploration));
    // a second check at the same count announces nothing
    assert!(state.check_phase_transition(3).is_none());
    assert_eq!(state.check_phase_transition(11).as_deref(), Some(QuestionPhase::Mature.transition_message()));
}

#[test]
fn test_controller_error_messages() {
    assert_eq!(ControllerError::ToolError("x".to_string()).message(), "工具錯誤: x");
    assert_eq!(ControllerError::MaxIterationsReached(10).message(), "超出最大迭代次數 (10)");
    let e = ControllerError::Ollama(OllamaError::Other("boom".to_string()));
    assert_eq!(e.message(), "Ollama 錯誤: 錯誤: boom");
}

#[test]
fn test_build_system_prompt_by_phase() {
    let status = "<status>節點數=0</status>";
    let prompt = build_system_prompt(QuestionPhase::Exploration, ControllerMode::Diverge, "", status, "約束", "記憶");
    assert!(prompt.contains("推理控制器"));
    assert!(prompt.contains("探索期"));
    assert!(prompt.contains("約束\n記憶"));
    assert!(!prompt.contains(status));

    let status2 = "<status>節點數=3</status>";
    let prompt2 = build_system_prompt(QuestionPhase::Development, ControllerMode::Converge, "任務", status2, "", "");
    assert!(prompt2.contains("推理控制器"));
    assert!(prompt2.contains("可用工具"));
    assert!(prompt2.contains("發展期"));
    assert!(prompt2.contains("當前任務：任務"));
    assert!(prompt2.contains(status2));
    assert!(prompt2.contains("當前模式：收斂（聚焦）"));

    let prompt3 = build_system_prompt(QuestionPhase::Mature, ControllerMode::Diverge, "t", "s", "", "");
    assert!(prompt3.contains("成熟期"));
    assert!(prompt3.contains("當前模式：發散（探索）"));
}

#[test]
fn test_strip_json_tool_calls() {
    let reply = "好的，我來發散。\n```json\n{\"name\": \"diverge\"}\n```\n{\"name\": \"status\"}\n還有問題嗎？";
    assert_eq!(strip_json_tool_calls(reply), "好的，我來發散。\n還有問題嗎？");
    // nothing but a call: the whole reply comes back, trimmed
    assert_eq!(strip_json_tool_calls("  {\"name\": \"status\"}  "), "{\"name\": \"status\"}");
    // braces that are not JSON stay
    assert_eq!(strip_json_tool_calls("{not json}"), "{not json}");
}

#[test]
fn test_parse_text_tool_calls() {
    let reply = "先看看\n{\"name\": \"diverge\", \"parameters\": {\"count\": 2}}\n{\"function\": {\"name\": \"save\", \"arguments\": \"{\\\"name\\\":\\\"a\\\"}\"}}\n{\"function\": {\"arguments\": {\"x\": 1}}}\n{\"name\": \"status\"}\n[1, 2]";
    let calls = parse_text_tool_calls(reply);
    assert_eq!(calls.len(), 4);
    assert_eq!(calls[0].function.name, "diverge");
    assert_eq!(calls[0].function.arguments, "{\"count\":2}");
    assert_eq!(calls[1].function.name, "save");
    assert_eq!(calls[1].function.arguments, "{\"name\":\"a\"}");
    assert_eq!(calls[2].function.name, "unknown");
    assert_eq!(calls[2].function.arguments, "{\"x\":1}");
    assert_eq!(calls[3].function.name, "status");
    assert_eq!(calls[3].function.arguments, "{}");
    assert!(parse_text_tool_calls("沒有工具").is_empty());
}

#[test]
fn test_reply_with_tool_note_and_call_id() {
    assert_eq!(reply_with_tool_note("好", "diverge", true), "好\n\n[工具執行: diverge → 成功]");
    assert_eq!(reply_with_tool_note("", "save", false), "\n\n[工具執行: save → 失敗]");
    assert_eq!(tool_call_id(3), "call_3");
}

#[test]
fn test_round_budget() {
    let mut budget = RoundBudget::new();
    let mut rounds = 0;
    while budget.next_iteration() {
        rounds += 1;
    }
    assert_eq!(rounds, 10);
    assert!(!budget.next_iteration());
    assert_eq!(budget.exhausted().message(), "超出最大迭代次數 (10)");
}

#[test]
fn gemma_controller_test_controller_mode_default() {
    let controller = GemmaController::new("gemma4:e2b");
    assert_eq!(controller.mode(), ControllerMode::Diverge);
}

#[test]
fn gemma_controller_test_controller_set_mode() {
    let mut controller = GemmaController::new("gemma4:e2b");
    controller.set_mode(ControllerMode::Converge);
    assert_eq!(controller.mode(), ControllerMode::Converge);
}

#[test]
fn gemma_controller_test_controller_set_task() {
    let mut controller = GemmaController::new("gemma4:e2b");
    controller.set_task("測試任務");
    assert_eq!(controller.task(), "測試任務");
}

#[test]
fn gemma_controller_test_controller_with_state() {
    let graph = Graph::new();
    let controller = GemmaController::with_state("gemma4:e2b", graph);
    assert_eq!(controller.get_graph().node_count(), 0);
}

#[test]
fn gemma_controller_test_build_system_prompt() {
    let controller = GemmaController::new("gemma4:e2b");
    let status = "<status>節點數=0</status>";
    let prompt = controller.build_system_prompt(status);
    assert!(prompt.contains("推理控制器"));
    assert!(prompt.contains("探索期"));

    let mut graph = Graph::new();
    graph.add_node(Node::new("節點1".to_string(), 1));
    graph.add_node(Node::new("節點2".to_string(), 2));
    graph.add_node(Node::new("節點3".to_string(), 3));
    let controller2 = GemmaController::with_state("gemma4:e2b", graph);
    let status2 = "<status>節點數=3</status>";
    let prompt2 = controller2.build_system_prompt(status2);
    assert!(prompt2.contains("推理控制器"));
    assert!(prompt2.contains("可用工具"));
    assert!(prompt2.contains("發展期"));
}

#[test]
fn gemma_controller_test_controller_initial_phase() {
    let controller = GemmaController::new("gemma4:e2b");
    assert_eq!(controller.phase(), QuestionPhase::Exploration);
}

#[test]
fn gemma_controller_test_controller_phase_with_state() {
    let mut graph = Graph::new();
    graph.add_node(Node::new("節點1".to_string(), 1));
    graph.add_node(Node::new("節點2".to_string(), 2));
    let controller = GemmaController::with_state("gemma4:e2b", graph);
    assert_eq!(controller.phase(), QuestionPhase::Exploration);

    let mut graph2 = Graph::new();
    graph2.add_node(Node::new("節點1".to_string(), 1));
    graph2.add_node(Node::new("節點2".to_string(), 2));
    graph2.add_node(Node::new("節點3".to_string(), 3));
    let controller2 = GemmaController::with_state("gemma4:e2b", graph2);
    assert_eq!(controller2.phase(), QuestionPhase::Development);
}

#[test]
fn gemma_controller_test_controller_phase_from_graph() {
    let controller = GemmaController::new("gemma4:e2b");
    assert_eq!(controller.phase(), QuestionPhase::Exploration);
}

#[test]
fn test_controller_round_protocol() {
    let mut graph = Graph::new();
    for i in 0..3 {
        graph.add_node(Node::new(format!("節點{}", i), 1));
    }
    let mut controller = GemmaController::new("gemma4:e2b");
    controller.sync_graph(graph);
    controller.load_constraints("");
    controller.set_memory_prompt("記憶");
    let prompt = controller.begin_round("你好", "<status/>");
    assert_eq!(controller.phase(), QuestionPhase::Development);
    assert!(prompt.contains("發展期"));
    assert!(prompt.contains("記憶"));
    assert!(prompt.contains("（目前無約束條件）"));
    // the announcement of the new phase, then the input
    assert_eq!(controller.messages().len(), 2);
    assert_eq!(controller.messages()[0].role, "system");
    assert_eq!(controller.messages()[0].content, QuestionPhase::Development.transition_message());
    assert_eq!(controller.messages()[1].content, "你好");

    let request = controller.request_messages(&prompt);
    assert_eq!(request.len(), 3);
    assert_eq!(request[0].content, prompt);

    let call = ToolCall { function: ToolCallFunction { name: "status".to_string(), arguments: "{}".to_string() } };
    match controller.on_reply(Message::assistant("查一下"), Some(vec![call])) {
        RoundStep::RunTools(calls) => assert_eq!(calls[0].function.name, "status"),
        RoundStep::Reply(_) => panic!("tools expected"),
    }
    controller.record_tool_result(1, "狀態摘要：節點數=3");
    let last = controller.messages().last().unwrap();
    assert_eq!(last.role, "tool");
    assert_eq!(last.content, "{\"role\":\"tool\",\"content\":\"狀態摘要：節點數=3\",\"tool_call_id\":\"call_1\"}");
    match controller.on_reply(Message::assistant("完成"), None) {
        RoundStep::Reply(text) => assert_eq!(text, "完成"),
        RoundStep::RunTools(_) => panic!("reply expected"),
    }
    assert_eq!(controller.messages().len(), 5);
    // a second round at the same size announces nothing
    controller.begin_round("再來", "");
    assert_eq!(controller.messages().len(), 6);
    controller.clear_messages();
    assert!(controller.messages().is_empty());
    assert!(controller.tools().len() >= 21);
}

#[test]
fn test_controller_constraints_from_file_text() {
    let mut controller = GemmaController::new("m");
    controller.load_constraints("<constraints><constraint id=\"c1\" source=\"user\"><content><![CDATA[預算五萬]]></content></constraint></constraints>");
    let prompt = controller.build_system_prompt("");
    assert!(prompt.contains("預算五萬"));
}

#[test]
fn test_build_node_context() {
    let empty = Graph::new();
    assert_eq!(build_node_context(&empty), "## 推理圖狀態\n\n（目前沒有任何節點，從零開始）");

    let mut graph = Graph::new();
    let mut a = Node::new("甲".to_string(), 1);
    a.add_finding("重點".to_string());
    let mut b = Node::new("乙".to_string(), 1);
    b.status = NodeStatus::Pruned;
    let c = Node::new("丙".to_string(), 1);
    let (a_sum, c_sum) = (a.to_prompt_summary(), c.to_prompt_summary());
    graph.add_node(a);
    graph.add_node(b);
    graph.add_node(c);
    let text = build_node_context(&graph);
    let expected = format!(
        "## 推理圖狀態（v0.8 格式）\n### 當前焦點節點\n{}\n### 其他相關節點（最多2個）\n{}\n{}\n",
        a_sum, a_sum, c_sum
    );
    assert_eq!(text, expected);
}
