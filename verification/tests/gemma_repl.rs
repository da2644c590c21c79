use evolution_reasoning::cli::gemma_repl::{
    parse_constraints,
    create_new_topic, parse_repl_input, print_repl_help, questions_per_round, show_current_status, show_graph,
    show_topics, switch_topic, toggle_mode, GemmaREPLState, ReplInput,
};
use evolution_reasoning::controller::gemma_controller::{ControllerMode, QuestionPhase};

#[test]
fn test_gemma_repl_state_new() {
    let state = GemmaREPLState::new("測試主題".to_string(), vec!["約束1".to_string(), "約束2".to_string()]);
    assert_eq!(state.topic, "測試主題");
    assert_eq!(state.constraint_manager.len(), 2);
    assert!(state.running);
    assert_eq!(state.controller.task(), "測試主題");
}

#[test]
fn test_gemma_repl_state_with_model() {
    let state = GemmaREPLState::with_model("測試主題".to_string(), vec![], "gemma4:2b");
    assert_eq!(state.topic, "測試主題");
    assert_eq!(state.constraint_manager.len(), 0);
}

#[test]
fn test_toggle_mode() {
    let mut state = GemmaREPLState::new("測試".to_string(), vec![]);
    assert_eq!(state.controller.mode(), ControllerMode::Diverge);
    toggle_mode(&mut state);
    assert_eq!(state.controller.mode(), ControllerMode::Converge);
    toggle_mode(&mut state);
    assert_eq!(state.controller.mode(), ControllerMode::Diverge);
}

#[test]
fn test_print_repl_help() {
    let help = print_repl_help();
    assert!(help.starts_with("=== Gemma REPL 指令說明 ===\n"));
}

#[test]
fn repl_input_kinds() {
    assert_eq!(parse_repl_input("  "), ReplInput::Empty);
    assert_eq!(parse_repl_input(" q "), ReplInput::Quit);
    assert_eq!(parse_repl_input("?"), ReplInput::Help);
    assert_eq!(parse_repl_input("s"), ReplInput::Status);
    assert_eq!(parse_repl_input("mode"), ReplInput::ToggleMode);
    assert_eq!(parse_repl_input("show"), ReplInput::Graph);
    assert_eq!(parse_repl_input("t"), ReplInput::Topics);
    assert_eq!(parse_repl_input("new-topic  睡眠 "), ReplInput::NewTopic("睡眠".to_string()));
    assert_eq!(parse_repl_input("new-topic "), ReplInput::Message("new-topic".to_string()));
    assert_eq!(parse_repl_input("switch-topic abc"), ReplInput::SwitchTopic("abc".to_string()));
    assert_eq!(parse_repl_input(" 你好 "), ReplInput::Message("你好".to_string()));
}

#[test]
fn repl_status_graph_and_topics() {
    let mut state = GemmaREPLState::new("主題".to_string(), vec!["a".to_string(), "a".to_string()]);
    assert_eq!(state.constraint_manager.len(), 1);
    state.visual.set_color(false);
    assert_eq!(
        show_current_status(&state),
        "\n=== 目前狀態 ===\n主題：主題\n階段：探索期（節點數：0）\n模式：發散（探索）\n節點數：0\n邊數：0\n複雜度：0.00\n\n"
    );
    assert_eq!(show_graph(&state), "（圖是空的）\n\n");
    assert_eq!(show_topics(&state), "（尚無主題）\n\n");
    let made = create_new_topic(&mut state, "睡眠品質");
    assert!(made.contains("  新主題已建立：睡眠品質\n"));
    create_new_topic(&mut state, "旅行規劃");
    let listed = show_topics(&state);
    assert!(listed.contains("睡眠品質 (探索期) ["));
    assert!(listed.contains(" ← 目前\n"));
    assert_eq!(switch_topic(&mut state, "睡眠"), "已切換到主題：睡眠品質\n");
    assert_eq!(
        switch_topic(&mut state, "xyz"),
        "找不到符合「xyz」的主題\n使用 `topics` 指令查看所有主題\n"
    );
    assert!(switch_topic(&mut state, "規").starts_with("已切換到主題：旅行規劃"));
    assert_eq!(questions_per_round(QuestionPhase::Exploration), 2);
    assert_eq!(questions_per_round(QuestionPhase::Mature), 0);
}

#[test]
fn constraints_split_at_semicolons() {
    assert_eq!(parse_constraints("  預算有限 ; 一個月內;; \n"), vec!["預算有限".to_string(), "一個月內".to_string()]);
    assert!(parse_constraints("   ").is_empty());
}
