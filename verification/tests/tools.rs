use evolution_reasoning::models::node::{Node, NodeStatus};
use evolution_reasoning::ollama::client::{Message, Tool, ToolCall, ToolCallFunction, ToolMessage, ToolParameters};
use evolution_reasoning::models::execution::ExecutionResult;
use evolution_reasoning::tools::executor::{execute_args, execute_report, timeout_report, ToolExecutor, ToolResult, ToolStep};
use evolution_reasoning::tools::registry::ToolRegistry;

#[test]
fn test_tool_result_success() {
    let result = ToolResult::success("test", "成功訊息");
    assert!(result.success);
    assert_eq!(result.tool_name, "test");
    assert_eq!(result.message, "成功訊息");
}

#[test]
fn test_tool_result_error() {
    let result = ToolResult::error("test", "錯誤訊息");
    assert!(!result.success);
    assert_eq!(result.tool_name, "test");
    assert_eq!(result.message, "錯誤訊息");
}

#[test]
fn test_tool_registry_new() {
    let registry = ToolRegistry::new();
    assert!(registry.has_tool("diverge"));
    assert!(registry.has_tool("converge"));
    assert!(registry.has_tool("save"));
    assert!(registry.has_tool("load"));
    assert!(registry.has_tool("output"));
    assert!(registry.has_tool("status"));
}

#[test]
fn test_tool_registry_get_all() {
    let registry = ToolRegistry::new();
    let tools = registry.get_all_tools();
    assert_eq!(tools.len(), 21);
}

#[test]
fn test_tool_registry_tool_names() {
    let registry = ToolRegistry::new();
    let names = registry.tool_names();
    assert!(names.contains(&"diverge"));
    assert!(names.contains(&"status"));
}

#[test]
fn test_tool_registry_get_tool() {
    let registry = ToolRegistry::new();
    let diverge = registry.get_tool("diverge").unwrap();
    assert_eq!(diverge.function.name, "diverge");
}

#[test]
fn test_tool_registry_has_not() {
    let registry = ToolRegistry::new();
    assert!(!registry.has_tool("nonexistent"));
}

#[test]
fn test_record_failure_description_replaced() {
    let registry = ToolRegistry::new();
    let t = registry.get_tool("record_failure").unwrap();
    let p = t.function.parameters.properties.iter().find(|(k, _)| k == "pattern_type").unwrap();
    assert_eq!(p.1.description, "失敗類型（可選，有 execute_result_json 時自動判斷）");
    assert_eq!(t.function.parameters.required, vec!["node_id", "execute_result_json"]);
}

#[test]
fn test_message_user() {
    let msg = Message::user("Hello");
    assert_eq!(msg.role, "user");
    assert_eq!(msg.content, "Hello");
}

#[test]
fn test_message_assistant() {
    let msg = Message::assistant("Hi there");
    assert_eq!(msg.role, "assistant");
    assert_eq!(msg.content, "Hi there");
}

#[test]
fn test_message_system() {
    let msg = Message::system("You are helpful");
    assert_eq!(msg.role, "system");
    assert_eq!(msg.content, "You are helpful");
}

#[test]
fn test_tool_new() {
    let mut params = ToolParameters::new();
    params.add_string_prop("node_id", "節點 ID");
    params.add_integer_prop("count", "數量");

    let tool = Tool::new("diverge", "發散生成子節點", params);

    assert_eq!(tool.function.name, "diverge");
    assert_eq!(tool.function.parameters.properties.len(), 2);
}

#[test]
fn test_tool_parameters() {
    let mut params = ToolParameters::new();
    params.add_string_prop("name", "名稱");
    params.add_integer_prop("age", "年齡");

    assert_eq!(params.required.len(), 2);
    assert!(params.required.contains(&"name".to_string()));
    assert!(params.required.contains(&"age".to_string()));
}

#[test]
fn test_tool_parameters_redeclare() {
    let mut params = ToolParameters::new();
    params.add_string_prop("name", "名稱");
    params.add_integer_prop("name", "另一個");
    assert_eq!(params.properties.len(), 1);
    assert_eq!(params.required.len(), 1);
    assert_eq!(params.properties[0].1.param_type, "integer");
    assert_eq!(params.properties[0].1.description, "另一個");
}

#[test]
fn test_tool_message() {
    let msg = ToolMessage::new("call_123", "結果內容");
    assert_eq!(msg.role, "tool");
    assert_eq!(msg.content, "結果內容");
    assert_eq!(msg.tool_call_id, "call_123");
}

fn call(name: &str, arguments: &str) -> ToolCall {
    ToolCall { function: ToolCallFunction { name: name.to_string(), arguments: arguments.to_string() } }
}

#[test]
fn test_tool_executor_new() {
    let executor = ToolExecutor::new();
    assert_eq!(executor.graph().node_count(), 0);
}

#[test]
fn test_execute_status() {
    let mut executor = ToolExecutor::new();
    let tool_call = call("status", "{}");
    match executor.execute(&tool_call) {
        ToolStep::Done(result, _) => {
            assert!(result.success);
            assert!(result.message.contains("節點數=0"));
        }
        ToolStep::External => panic!("status runs in the library"),
    }
}

#[test]
fn test_execute_diverge_invalid_node() {
    let mut executor = ToolExecutor::new();
    let tool_call = call("diverge", r#"{"node_id": "nonexistent", "count": 3}"#);
    match executor.execute(&tool_call) {
        ToolStep::Done(result, _) => assert!(!result.success),
        ToolStep::External => panic!("diverge runs in the library"),
    }
}

#[test]
fn execute_status_text_is_exact() {
    let mut executor = ToolExecutor::new();
    match executor.execute(&call("status", "")) {
        ToolStep::Done(result, save) => {
            assert_eq!(result.message, "狀態摘要：節點數=0, 邊數=0, 複雜度=0.00");
            assert!(save);
        }
        ToolStep::External => panic!("status runs in the library"),
    }
}

#[test]
fn execute_unknown_tool_fails() {
    let mut executor = ToolExecutor::new();
    match executor.execute(&call("fly", "{}")) {
        ToolStep::Done(result, save) => {
            assert!(!result.success);
            assert_eq!(result.message, "未知的工具: fly");
            assert!(!save);
        }
        ToolStep::External => panic!("unknown tools are answered by the library"),
    }
}

#[test]
fn execute_hands_files_to_the_application() {
    let mut executor = ToolExecutor::new();
    assert!(matches!(executor.execute(&call("save", "{}")), ToolStep::External));
    assert!(matches!(executor.execute(&call("converge", "{}")), ToolStep::External));
}

#[test]
fn execute_converge_reports_pruned_nodes() {
    let mut graph = evolution_reasoning::models::graph::Graph::new();
    let low = Node::new_with("低".to_string(), 1, "低".to_string(), 100, 100, 2_000);
    let low_id = low.id.clone();
    let high = Node::new_with("高".to_string(), 1, "高".to_string(), 900, 900, 10_500);
    graph.add_node(low);
    graph.add_node(high);
    let mut executor = ToolExecutor::with_graph(graph);
    let r = executor.execute_converge(Some(100));
    assert!(r.success);
    assert_eq!(r.message, format!("已刪除 1 個節點: {}，複雜度: 10.50", low_id));
    assert_eq!(executor.graph().get_node(&low_id).unwrap().status, NodeStatus::Pruned);
    let again = executor.execute_converge(Some(100));
    assert_eq!(again.message, "沒有節點需要刪除，複雜度: 10.50");
}

#[test]
fn executor_keeps_complexity_budget() {
    let mut executor = ToolExecutor::new();
    assert_eq!(executor.complexity(), 0);
    executor.set_complexity(12_500);
    assert_eq!(executor.complexity(), 12_500);
}

#[test]
fn test_ollama_client_default() {
    let client = evolution_reasoning::ollama::client::OllamaClient::default();
    assert_eq!(client.model, "gemma4:e2b");
}

#[test]
fn test_ollama_client_with_model() {
    let client = evolution_reasoning::ollama::client::OllamaClient::new("llama2");
    assert_eq!(client.model, "llama2");
    let client2 = client.with_model("mixtral");
    assert_eq!(client2.model, "mixtral");
}


#[test]
fn registry_is_exactly_the_catalogue() {
    let r = ToolRegistry::new();
    assert_eq!(r.get_all_tools().len(), 21);
    let mut names: Vec<&str> = r.tool_names();
    names.sort();
    let mut expected = vec![
        "diverge", "converge", "save", "load", "output", "status", "execute", "exec_status", "checkpoint",
        "backtrack", "record_failure", "get_hypotheses", "export_graph", "export_node", "export_hypotheses",
        "export_backtrack", "export_memory", "query_backtrack", "verify", "retry", "last_node_id",
    ];
    expected.sort();
    assert_eq!(names, expected);
    assert!(!r.has_tool("nonexistent"));
    assert!(r.get_tool("nonexistent").is_none());
    for name in r.tool_names() {
        let t = r.get_tool(name).unwrap();
        assert_eq!(t.function.name, name);
        assert_eq!(t.tool_type, "function");
        assert_eq!(t.function.parameters.param_type, "object");
        for q in &t.function.parameters.required {
            assert!(t.function.parameters.properties.iter().any(|(n, _)| n == q));
        }
        for (n, p) in &t.function.parameters.properties {
            if p.description.contains("可選") {
                assert!(!t.function.parameters.required.contains(n));
            }
        }
    }
    let d = r.get_tool("diverge").unwrap();
    assert!(!d.function.parameters.required.contains(&"content".to_string()));
    assert!(d.function.parameters.required.contains(&"node_id".to_string()));
}

#[test]
fn execute_status_and_unknown_tool_names() {
    let mut e = ToolExecutor::new();
    match e.execute(&call("status", "{}")) {
        ToolStep::Done(r, _) => {
            assert!(r.success);
            assert_eq!(r.tool_name, "status");
            assert_eq!(r.message, "狀態摘要：節點數=0, 邊數=0, 複雜度=0.00");
        }
        ToolStep::External => panic!("status runs in the executor"),
    }
    match e.execute(&call("fly", "{}")) {
        ToolStep::Done(r, save) => {
            assert!(!r.success);
            assert!(!save);
            assert_eq!(r.tool_name, "fly");
            assert_eq!(r.message, "未知的工具: fly");
        }
        ToolStep::External => panic!("unknown tools are refused"),
    }
}

#[test]
fn test_execute_with_node_id_feedback() {
    let mut graph = evolution_reasoning::models::graph::Graph::new();
    let node = Node::new("測試節點".to_string(), 1);
    let node_id = node.id.clone();
    graph.add_node(node);
    let mut executor = ToolExecutor::with_graph(graph);
    let args = format!(r#"{{"command": "echo", "args": ["hello"], "node_id": "{}"}}"#, node_id);
    let a = evolution_reasoning::tools::executor::execute_args(&args).unwrap();
    // The application runs `echo hello`; its outcome is handed back.
    let report = evolution_reasoning::tools::executor::execute_report(&a, 0, "hello\n", "");
    let result = executor.finish_execute(&a, true, &report, &report);
    assert!(result.success);
    assert!(result.message.contains("hello"));
    let graph = executor.get_graph();
    let node = graph.get_node(&node_id).expect("節點應存在");
    assert!(node.feedback_result.is_some());
    assert!(node.feedback_timestamp.is_some());
    assert!(node.status != NodeStatus::Failed);
}

#[test]
fn test_execute_failed_sets_node_failed() {
    let mut graph = evolution_reasoning::models::graph::Graph::new();
    let node = Node::new("測試節點".to_string(), 1);
    let node_id = node.id.clone();
    graph.add_node(node);
    let mut executor = ToolExecutor::with_graph(graph);
    let args = format!(r#"{{"command": "exit", "args": ["1"], "node_id": "{}"}}"#, node_id);
    let a = evolution_reasoning::tools::executor::execute_args(&args).unwrap();
    // `exit` is no program: the application fails to start it.
    let report = evolution_reasoning::tools::executor::spawn_failure_report(&a, "No such file or directory (os error 2)");
    let result = executor.finish_execute(&a, false, "執行失敗: No such file or directory (os error 2)", &report);
    assert!(result.success);
    let graph = executor.get_graph();
    let node = graph.get_node(&node_id).expect("節點應存在");
    assert_eq!(node.status, NodeStatus::Failed);
    assert!(node.feedback_result.is_some());
}

#[test]
fn execute_arguments_and_reports() {
    assert_eq!(execute_args(r#"{"command": ""}"#).unwrap_err(), "command 不能為空");
    assert!(execute_args("not json").unwrap_err().starts_with("參數解析失敗: "));
    assert_eq!(execute_args(r#"{"args": []}"#).unwrap_err(), "參數解析失敗: 參數型別不符");
    let a = execute_args(r#"{"command": "echo", "args": ["a", "b"], "parse_mode": "exit_code"}"#).unwrap();
    assert_eq!(a.timeout_ms, 30000);
    assert_eq!(execute_report(&a, 0, "x", "y"), r#"{"args":["a","b"],"command":"echo","exit_code":0,"success":true}"#);
    let t = execute_args(r#"{"command": "ls"}"#).unwrap();
    assert_eq!(
        execute_report(&t, 2, "out", "err"),
        r#"{"args":[],"command":"ls","exit_code":2,"stderr":"err","stdout":"out","success":false}"#
    );
    let j = execute_args(r#"{"command": "cat", "parse_mode": "json"}"#).unwrap();
    assert_eq!(
        execute_report(&j, 0, "{\"k\":1}", ""),
        r#"{"args":[],"command":"cat","exit_code":0,"parsed":{"k":1},"stderr":"","stdout":"{\"k\":1}","success":true}"#
    );
    assert_eq!(
        execute_report(&j, 0, "nope", ""),
        r#"{"args":[],"command":"cat","exit_code":0,"parse_error":"stdout 不是有效 JSON","parsed":null,"raw":"nope","stderr":"","stdout":"nope","success":true}"#
    );
}

#[test]
fn tools_read_their_arguments() {
    let mut e = ToolExecutor::new();
    let r = e.execute_checkpoint("{oops");
    assert!(!r.success);
    assert!(r.message.starts_with("參數解析失敗: "));
    let r = e.execute_checkpoint(r#"{"reason": 3}"#);
    assert_eq!(r.message, "參數解析失敗: 參數型別不符");
    let r = e.execute_checkpoint(r#"{"description": "d"}"#);
    assert!(r.success);
    assert!(r.message.contains("\"reason\":\"manual\""));
    let (r, save) = e.execute_backtrack("{}");
    assert!(!save);
    assert_eq!(r.message, "需要 checkpoint_id 或 restore_last=true");
    let (r, save) = e.execute_backtrack(r#"{"restore_last": "TRUE"}"#);
    assert!(save && r.success);
    let r = e.execute_record_failure(r#"{"node_id": "n", "pattern_type": "Timeout", "exit_code": 5}"#);
    assert!(r.success);
    assert!(r.message.contains("\"pattern_type\":\"timeout\""));
    let r = e.execute_get_hypotheses(r#"{"get_last": "true"}"#);
    assert!(r.success);
    assert!(r.message.contains("\"count\":"));
    let r = e.execute_get_hypotheses("{}");
    assert_eq!(r.message, "需要 failure_id 或 get_last=true");
}

#[test]
fn verify_and_retry_use_the_feedback() {
    let mut e = ToolExecutor::new();
    e.record_feedback_for_node(Some("n1"), false, "boom happened");
    let r = e.execute_verify(r#"{"node_id": "n1", "expected": "boom"}"#);
    assert!(r.success);
    assert_eq!(r.message, "驗證成功：節點 n1 結果包含「boom」");
    let r = e.execute_verify(r#"{"node_id": "n1", "expected": "calm"}"#);
    assert!(!r.success);
    let (node, command) = e.retry_plan(r#"{"node_id": "n1"}"#).unwrap();
    assert_eq!(command.as_deref(), Some("echo retry n1"));
    let r = e.finish_retry(&node, ExecutionResult::Success("retry n1".to_string()));
    assert!(r.success);
    assert_eq!(r.message, "重試成功：retry n1");
    let (node, command) = e.retry_plan(r#"{"node_id": "n2"}"#).unwrap();
    assert!(command.is_none());
    let r = e.finish_retry(&node, ExecutionResult::Pending);
    assert!(!r.success);
    assert_eq!(r.message, "重試失敗：No failed task found for node n2");
}

#[test]
fn tool_message_json_escapes_its_texts() {
    let msg = ToolMessage::new("c1", "a\"b\\c\nd\te\u{1}f\u{1f}");
    assert_eq!(
        msg.to_json(),
        "{\"role\":\"tool\",\"content\":\"a\\\"b\\\\c\\nd\\te\\u0001f\\u001f\",\"tool_call_id\":\"c1\"}"
    );
}

#[test]
fn registry_views_agree_on_every_name() {
    let r = ToolRegistry::new();
    let all = r.get_all_tools();
    let names = r.tool_names();
    assert_eq!(all.len(), names.len());
    for (i, name) in names.iter().enumerate() {
        assert!(r.has_tool(name));
        let t = r.get_tool(name).unwrap();
        assert_eq!(t.function.name, *name);
        assert_eq!(t.function.description, all[i].function.description);
        assert_eq!(all.iter().filter(|x| x.function.name == *name).count(), 1);
    }
    assert!(!r.has_tool("nonexistent"));
    assert!(r.get_tool("nonexistent").is_none());
}

#[test]
fn executor_runs_the_backtracking_tools() {
    let mut e = ToolExecutor::new();
    match e.execute(&call("checkpoint", "{\"description\":\"first\"}")) {
        ToolStep::Done(r, save) => {
            assert!(r.success);
            assert!(!save);
            assert!(r.message.contains("\"description\":\"first\""));
            assert!(r.message.contains("\"total_checkpoints\":1"));
        }
        ToolStep::External => panic!("checkpoint runs in the library"),
    }
    let id = e.get_backtrack_manager().get_checkpoints()[0].id.clone();
    match e.execute(&call("backtrack", &format!("{{\"checkpoint_id\":\"{}\"}}", id))) {
        ToolStep::Done(r, save) => {
            assert!(r.success);
            assert!(save);
            assert_eq!(r.message, format!("{{\"restored_checkpoint_id\":\"{}\",\"restored_node_count\":0,\"success\":true}}", id));
        }
        ToolStep::External => panic!("backtrack runs in the library"),
    }
    match e.execute(&call("backtrack", "{\"restore_last\":\"TRUE\"}")) {
        ToolStep::Done(r, save) => assert!(r.success && save),
        ToolStep::External => panic!("backtrack runs in the library"),
    }
    match e.execute(&call("backtrack", "{\"checkpoint_id\":\"nope\"}")) {
        ToolStep::Done(r, save) => {
            assert!(!r.success && !save);
            assert_eq!(r.message, "無法回溯到檢查點 nope");
        }
        ToolStep::External => panic!("backtrack runs in the library"),
    }
    let failure = "{\"node_id\":\"n1\",\"execute_result_json\":\"{\\\"success\\\":false,\\\"exit_code\\\":127,\\\"command\\\":\\\"foo\\\",\\\"stderr\\\":\\\"not found\\\"}\"}";
    match e.execute(&call("record_failure", failure)) {
        ToolStep::Done(r, _) => assert!(r.success),
        ToolStep::External => panic!("record_failure runs in the library"),
    }
    let f = &e.get_backtrack_manager().get_failure_history()[0];
    assert_eq!(f.context_node_id, "n1");
    assert_eq!(f.command, "foo");
    assert_eq!(f.exit_code, Some(127));
    let fid = f.id.clone();
    match e.execute(&call("get_hypotheses", &format!("{{\"failure_id\":\"{}\"}}", fid))) {
        ToolStep::Done(r, _) => {
            assert!(r.success);
            assert!(r.message.starts_with("{\"count\":"));
            assert!(r.message.contains("127"));
        }
        ToolStep::External => panic!("get_hypotheses runs in the library"),
    }
    match e.execute(&call("get_hypotheses", "{\"failure_id\":\"none\"}")) {
        ToolStep::Done(r, _) => assert_eq!(r.message, "{\"hypotheses\":[],\"note\":\"沒有失敗記錄或假設\"}"),
        ToolStep::External => panic!("get_hypotheses runs in the library"),
    }
}

#[test]
fn timeout_report_names_the_limit() {
    let a = execute_args("{\"command\":\"sleep\",\"args\":[\"5\"],\"timeout_ms\":20}").unwrap();
    assert_eq!(
        timeout_report(&a),
        "{\"args\":[\"5\"],\"command\":\"sleep\",\"error\":\"執行逾時: 20 ms\",\"success\":false}"
    );
}
