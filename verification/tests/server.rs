use evolution_reasoning::cli::server::{
    build_export_response, build_json_response, chat_task_response, escape_json_string, export_format_of,
    export_task_response, extract_path, extract_query_param, query_task_response, route_stdin_task, status_page,
    task_export_format, task_query_resource, StdinRoute,
};
use evolution_reasoning::export::ExportFormat;

#[test]
fn test_extract_path() {
    assert_eq!(extract_path("GET /status HTTP/1.1\r\nHost: x\r\n\r\n"), "/status");
    assert_eq!(extract_path("GET\r\n"), "");
    assert_eq!(extract_path(""), "");
    assert_eq!(extract_path("  GET   /a?b=c  HTTP/1.1"), "/a?b=c");
}

#[test]
fn test_extract_query_param() {
    let req = "GET /export/graph?x=1&format=json HTTP/1.1\r\n";
    assert_eq!(extract_query_param(req, "format"), "json");
    assert_eq!(extract_query_param("GET /export/graph HTTP/1.1", "format"), "yaml");
    assert_eq!(extract_query_param("GET /e?format HTTP/1.1", "format"), "yaml");
    assert_eq!(extract_query_param("GET /e?format=dsl=x HTTP/1.1", "format"), "dsl");
}

#[test]
fn test_build_responses() {
    assert_eq!(
        build_json_response("{}"),
        "HTTP/1.1 200 OK\r\nContent-Type: application/json\r\nContent-Length: 2\r\nConnection: close\r\nAccess-Control-Allow-Origin: *\r\n\r\n{}"
    );
    let r = build_export_response("中", "yaml");
    assert!(r.contains("Content-Type: text/yaml\r\n"));
    assert!(r.contains("Content-Length: 3\r\n"));
    assert!(build_export_response("x", "other").contains("text/plain"));
    assert!(status_page().contains("\"version\":\"0.8\""));
}

#[test]
fn test_escape_json_string() {
    assert_eq!(escape_json_string("a\"b\\c\nd"), "a\\\"b\\\\c\\nd");
}

#[test]
fn test_stdin_routing() {
    assert_eq!(route_stdin_task("請匯出圖"), StdinRoute::Export);
    assert_eq!(route_stdin_task("query failures"), StdinRoute::Query);
    assert_eq!(route_stdin_task("hello"), StdinRoute::Chat);
    assert_eq!(task_export_format("export json"), "json");
    assert_eq!(task_export_format("export"), "yaml");
    assert_eq!(task_query_resource("query checkpoint"), "checkpoints");
    assert_eq!(task_query_resource("查詢假設"), "hypotheses");
    assert_eq!(task_query_resource("query"), "summary");
    assert_eq!(export_format_of("dsl"), ExportFormat::Dsl);
    assert_eq!(export_format_of("xml"), ExportFormat::Yaml);
    assert_eq!(chat_task_response("t"), r#"{"status": "ok", "task_received": "t", "mode": "gemma4_required"}"#);
    assert_eq!(export_task_response("yaml", "a\nb"), r#"{"status": "exported", "format": "yaml", "content": "a\nb"}"#);
    assert_eq!(query_task_response("summary", "{}"), r#"{"status": "ok", "resource": "summary", "data": {}}"#);
}
