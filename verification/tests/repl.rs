use evolution_reasoning::cli::repl::{
    cmd_add_child, cmd_converge, cmd_create_node, cmd_diverge, cmd_lock_node, cmd_prune_node, cmd_show_graph,
    cmd_show_node, cmd_show_status, print_help, process_command, ReplState,
};
use evolution_reasoning::models::node::NodeStatus;

// Weights, confidences and thresholds are in thousandths: 0.9 is 900.

#[test]
fn test_repl_state_new() {
    let state = ReplState::new();
    assert_eq!(state.graph.node_count(), 0);
    assert!(state.last_node_id.is_none());
}

#[test]
fn test_print_help() {
    let help = print_help();
    assert!(help.starts_with("=== Evolution Reasoning Tool 指令說明 ===\n"));
    assert!(help.contains("  converge [閾值]            - 收斂刪除低分節點\n"));
}

#[test]
fn test_cmd_create_node() {
    let mut state = ReplState::new();
    let result = cmd_create_node(&mut state, "測試內容");
    assert!(result.is_ok());
    assert_eq!(state.graph.node_count(), 1);
}

#[test]
fn test_cmd_add_child() {
    let mut state = ReplState::new();
    cmd_create_node(&mut state, "父節點").unwrap();
    let parent_id = state.last_node_id.clone().unwrap();

    let result = cmd_add_child(&mut state, &parent_id, "子節點");
    assert!(result.is_ok());
    assert_eq!(state.graph.node_count(), 2);
    assert_eq!(state.graph.edge_count(), 1);
}

#[test]
fn test_cmd_diverge() {
    let mut state = ReplState::new();
    cmd_create_node(&mut state, "父親節點").unwrap();
    let parent_id = state.last_node_id.clone().unwrap();

    let result = cmd_diverge(&mut state, &parent_id, 3);
    assert!(result.is_ok());
    assert_eq!(state.graph.node_count(), 4); // 1 parent + 3 children
}

#[test]
fn test_cmd_converge() {
    let mut state = ReplState::new();
    cmd_create_node(&mut state, "高分節點").unwrap();
    state.graph.get_node_mut(&state.last_node_id.clone().unwrap()).unwrap().weight = 900;
    state.graph.get_node_mut(&state.last_node_id.clone().unwrap()).unwrap().confidence = 900;

    cmd_create_node(&mut state, "低分節點").unwrap();
    state.graph.get_node_mut(&state.last_node_id.clone().unwrap()).unwrap().weight = 100;
    state.graph.get_node_mut(&state.last_node_id.clone().unwrap()).unwrap().confidence = 100;

    let result = cmd_converge(&mut state, Some(300));
    assert!(result.is_ok());
    assert_eq!(state.graph.node_count(), 1);
}

#[test]
fn test_cmd_lock_node() {
    let mut state = ReplState::new();
    cmd_create_node(&mut state, "測試").unwrap();
    let node_id = state.last_node_id.clone().unwrap();

    let result = cmd_lock_node(&mut state, &node_id);
    assert!(result.is_ok());
    assert_eq!(state.graph.get_node(&node_id).unwrap().status, NodeStatus::Locked);
}

#[test]
fn test_cmd_prune_node() {
    let mut state = ReplState::new();
    cmd_create_node(&mut state, "測試").unwrap();
    let node_id = state.last_node_id.clone().unwrap();

    let result = cmd_prune_node(&mut state, &node_id);
    assert!(result.is_ok());
    assert!(state.graph.get_node(&node_id).unwrap().is_pruned());
}

#[test]
fn test_cmd_show_node() {
    let mut state = ReplState::new();
    cmd_create_node(&mut state, "測試節點").unwrap();
    let node_id = state.last_node_id.clone().unwrap();

    let result = cmd_show_node(&state, &node_id);
    assert!(result.is_ok());
}

#[test]
fn test_process_command_unknown() {
    let mut state = ReplState::new();
    let result = process_command(&mut state, "unknown_command");
    assert!(result.is_err());
    assert!(result.unwrap_err().contains("未知的指令"));
}

#[test]
fn test_process_command_empty() {
    let mut state = ReplState::new();
    let result = process_command(&mut state, "");
    assert!(result.is_ok());
}

#[test]
fn repl_create_reports_step_and_strips_quotes() {
    let mut state = ReplState::new();
    let report = process_command(&mut state, "create node \"第一 個\"").unwrap();
    let id = state.last_node_id.clone().unwrap();
    assert_eq!(report, format!("已建立節點: {}\n  內容: 第一 個\n  步驟: 1\n", id));
    assert_eq!(state.graph.get_node(&id).unwrap().content, "第一 個");
}

#[test]
fn repl_add_child_scales_weight_and_confidence() {
    let mut state = ReplState::new();
    cmd_create_node(&mut state, "根").unwrap();
    let parent = state.last_node_id.clone().unwrap();
    let report = process_command(&mut state, &format!("add child {}", parent)).unwrap();
    let child = state.last_node_id.clone().unwrap();
    assert_eq!(report, format!("已加入子節點: {}\n  內容: 新節點\n  父節點: {}\n", child, parent));
    let c = state.graph.get_node(&child).unwrap();
    assert_eq!(c.weight, 800);
    assert_eq!(c.confidence, 450);
    assert_eq!(c.step, 2);
}

#[test]
fn repl_add_child_unknown_parent() {
    let mut state = ReplState::new();
    let err = process_command(&mut state, "add child nowhere 內容").unwrap_err();
    assert_eq!(err, "找不到節點: nowhere");
    assert_eq!(state.graph.node_count(), 0);
}

#[test]
fn repl_refusals() {
    let mut state = ReplState::new();
    assert_eq!(process_command(&mut state, "create").unwrap_err(), "用法: create node <內容>");
    assert_eq!(process_command(&mut state, "create edge x").unwrap_err(), "未知的 create 子指令");
    assert_eq!(process_command(&mut state, "add thing").unwrap_err(), "未知的 add 子指令");
    assert_eq!(process_command(&mut state, "add child").unwrap_err(), "用法: add child <父節點ID> <內容>");
    assert_eq!(process_command(&mut state, "diverge").unwrap_err(), "用法: diverge <節點ID> [數量]");
    assert_eq!(process_command(&mut state, "diverge x many").unwrap_err(), "數量必須是數字");
    assert_eq!(process_command(&mut state, "converge lots").unwrap_err(), "閾值必須是數字");
    assert_eq!(process_command(&mut state, "show").unwrap_err(), "用法: show graph | status");
    assert_eq!(process_command(&mut state, "show tree").unwrap_err(), "未知的 show 子指令");
    assert_eq!(process_command(&mut state, "node").unwrap_err(), "用法: node <節點ID>");
    assert_eq!(process_command(&mut state, "lock").unwrap_err(), "用法: lock <節點ID>");
    assert_eq!(process_command(&mut state, "prune").unwrap_err(), "用法: prune <節點ID>");
    assert_eq!(
        process_command(&mut state, "fly away").unwrap_err(),
        "未知的指令: fly，輸入 'help' 取得說明"
    );
    assert_eq!(process_command(&mut state, "quit").unwrap(), "");
    assert_eq!(process_command(&mut state, "help").unwrap(), print_help());
}

#[test]
fn repl_diverge_missing_node_is_refused() {
    let mut state = ReplState::new();
    let err = cmd_diverge(&mut state, "nope", 2).unwrap_err();
    assert_eq!(err, "無法對節點 nope 發散（節點不存在或狀態不允許）");
}

#[test]
fn repl_converge_reports_nothing_to_prune() {
    let mut state = ReplState::new();
    cmd_create_node(&mut state, "a").unwrap();
    assert_eq!(process_command(&mut state, "converge 0.1").unwrap(), "沒有節點需要刪除\n");
}

#[test]
fn repl_show_graph_and_status() {
    let mut state = ReplState::new();
    assert_eq!(cmd_show_graph(&state), "（圖是空的）\n");
    cmd_create_node(&mut state, "根").unwrap();
    let root = state.last_node_id.clone().unwrap();
    cmd_add_child(&mut state, &root, "葉").unwrap();
    assert_eq!(
        cmd_show_graph(&state),
        "=== 推理圖結構 ===\n[D] 根 (w:1.00, c:0.50, s:0.50)\n└─[D] 葉 (w:0.80, c:0.45, s:0.36)\n\n"
    );
    assert_eq!(
        cmd_show_status(&state),
        "=== 狀態統計 ===\n節點數量: 2\n邊數量: 1\n總複雜度: 0.00\n複雜度預算: 0.00 / 100.00\n\n各狀態節點:\n  草稿 (Draft): 2\n  活躍 (Active): 0\n  已刪除 (Pruned): 0\n  鎖定 (Locked): 0\n  失敗 (Failed): 0\n"
    );
}

#[test]
fn repl_show_node_details() {
    let mut state = ReplState::new();
    cmd_create_node(&mut state, "根").unwrap();
    let root = state.last_node_id.clone().unwrap();
    let info = cmd_show_node(&state, &root).unwrap();
    assert_eq!(
        info,
        format!(
            "=== 節點資訊 ===\nID: {}\n內容: 根\n步驟: 1\n權重: 1.0000\n信心度: 0.5000\n複雜度貢獻: 0.0000\n分數: 0.5000\n狀態: Draft\n父節點邊: []\n子節點邊: []\n",
            root
        )
    );
    assert_eq!(cmd_show_node(&state, "x").unwrap_err(), "找不到節點: x");
}

#[test]
fn repl_create_node_needs_content() {
    let mut s = ReplState::new();
    assert_eq!(process_command(&mut s, "create node").unwrap_err(), "用法: create node <內容>");
    assert_eq!(s.graph.node_count(), 0);
    assert!(s.last_node_id.is_none());
}
