//! The request parsing and response framing of the HTTP interface, and the
//! routing of tasks handed in on standard input.
//!
//! Sockets and standard input are handled by the application.
use vstd::prelude::*;
use vstd::utf8::encode_utf8;

use crate::engine::backtrack::BacktrackManager;
use crate::export::serializers::{escape_quoted, quote_escape};
use crate::export::{query_backtrack, query_spec, BacktrackQuery, ExportFormat};
use crate::text::{
    chars_of, contains, contains_exec, decimal, lines, lines_exec, push_decimal, push_str, second_word,
    split, split_exec, string_of, words,
};

verus! {

/// The second word of the request's first line (the path), or nothing.
pub open spec fn request_path(request: Seq<char>) -> Seq<char> {
    let ls = lines(request);
    if ls.len() > 0 && words(ls[0]).len() >= 2 {
        words(ls[0])[1]
    } else {
        Seq::empty()
    }
}

/// The requested path.
pub fn extract_path(request: &str) -> (r: String)
    ensures
        r@ == request_path(request@),
{
    let c = chars_of(request);
    let ls = lines_exec(c.as_slice());
    if ls.len() == 0 {
        return String::new();
    }
    assert(ls@.map_values(|x: Vec<char>| x@)[0] == ls@[0]@);
    match second_word(ls[0].as_slice()) {
        Some(w) => string_of(w.as_slice()),
        None => String::new(),
    }
}

/// The value of a query parameter: in the request's first line, the path's
/// part after its first `?` is split at `&`; the first pair whose name (the
/// part before its first `=`) is `param` gives its value (the part after
/// that `=`, or `yaml` without one). Without such a pair: `yaml`.
pub open spec fn query_param_spec(request: Seq<char>, param: Seq<char>) -> Seq<char> {
    let ls = lines(request);
    let first = if ls.len() > 0 {
        ls[0]
    } else {
        Seq::empty()
    };
    let ws = words(first);
    if ws.len() >= 2 && split(ws[1], "?"@).len() >= 2 {
        pair_value(split(split(ws[1], "?"@)[1], "&"@), param, 0)
    } else {
        "yaml"@
    }
}

/// The value of the first pair named `param`, from index `i` on.
pub open spec fn pair_value(pairs: Seq<Seq<char>>, param: Seq<char>, i: int) -> Seq<char>
    decreases pairs.len() - i,
{
    if i < 0 || i >= pairs.len() {
        "yaml"@
    } else {
        let parts = split(pairs[i], "="@);
        if parts[0] == param {
            if parts.len() >= 2 {
                parts[1]
            } else {
                "yaml"@
            }
        } else {
            pair_value(pairs, param, i + 1)
        }
    }
}

/// The value of a query parameter (see `query_param_spec`).
pub fn extract_query_param(request: &str, param: &str) -> (r: String)
    ensures
        r@ == query_param_spec(request@, param@),
{
    proof {
        reveal_strlit("?");
        reveal_strlit("&");
        reveal_strlit("=");
    }
    let c = chars_of(request);
    let ls = lines_exec(c.as_slice());
    let first: Vec<char> = if ls.len() > 0 {
        assert(ls@.map_values(|x: Vec<char>| x@)[0] == ls@[0]@);
        crate::text::slice_vec(ls[0].as_slice(), 0, ls[0].len())
    } else {
        Vec::new()
    };
    assert(ls@.len() > 0 ==> first@ =~= lines(request@)[0]);
    assert(ls@.len() == 0 ==> first@ =~= Seq::<char>::empty());
    let tok = match second_word(first.as_slice()) {
        Some(t) => t,
        None => return String::from_str("yaml"),
    };
    let q = chars_of("?");
    let halves = split_exec(tok.as_slice(), q.as_slice());
    if halves.len() < 2 {
        return String::from_str("yaml");
    }
    assert(halves@.map_values(|x: Vec<char>| x@)[1] == halves@[1]@);
    let amp = chars_of("&");
    let pairs = split_exec(halves[1].as_slice(), amp.as_slice());
    let ghost ps = pairs@.map_values(|x: Vec<char>| x@);
    assert(query_param_spec(request@, param@) == pair_value(ps, param@, 0));
    let eq = chars_of("=");
    let key = chars_of(param);
    let mut i: usize = 0;
    while i < pairs.len()
        invariant
            i <= pairs@.len(),
            ps == pairs@.map_values(|x: Vec<char>| x@),
            eq@ == "="@,
            eq@.len() > 0,
            key@ == param@,
            query_param_spec(request@, param@) == pair_value(ps, param@, 0),
            pair_value(ps, param@, 0) == pair_value(ps, param@, i as int),
        decreases pairs.len() - i,
    {
        let parts = split_exec(pairs[i].as_slice(), eq.as_slice());
        assert(ps[i as int] == pairs@[i as int]@);
        assert(split(ps[i as int], "="@).len() >= 1);
        assert(parts@.map_values(|x: Vec<char>| x@)[0] == parts@[0]@);
        assert(parts@.map_values(|x: Vec<char>| x@) == split(ps[i as int], "="@));
        if crate::text::matches_at_exec(parts[0].as_slice(), key.as_slice(), 0) && parts[0].len() == key.len() {
            assert(parts@[0]@ =~= key@);
            if parts.len() >= 2 {
                assert(parts@.map_values(|x: Vec<char>| x@)[1] == parts@[1]@);
                return string_of(parts[1].as_slice());
            } else {
                return String::from_str("yaml");
            }
        }
        assert(parts@[0]@ != key@) by {
            if parts@[0]@ == key@ {
                assert(parts@[0]@.subrange(0, key@.len() as int) =~= key@);
            }
        }
        i = i + 1;
    }
    String::from_str("yaml")
}

/// The JSON response framing: status line, headers (the length is the
/// body's UTF-8 length) and body.
pub open spec fn json_response_spec(body: Seq<char>, body_bytes: nat) -> Seq<char> {
    "HTTP/1.1 200 OK\r\nContent-Type: application/json\r\nContent-Length: "@ + decimal(body_bytes)
        + "\r\nConnection: close\r\nAccess-Control-Allow-Origin: *\r\n\r\n"@ + body
}

/// A JSON response with the given body.
pub fn build_json_response(body: &str) -> (r: String)
    ensures
        r@ == json_response_spec(body@, encode_utf8(body@).len() as usize as nat),
{
    let mut r = String::from_str("HTTP/1.1 200 OK\r\nContent-Type: application/json\r\nContent-Length: ");
    push_decimal(&mut r, body.len() as u64);
    push_str(&mut r, "\r\nConnection: close\r\nAccess-Control-Allow-Origin: *\r\n\r\n");
    push_str(&mut r, body);
    r
}

/// The content type of each export format name.
pub open spec fn content_type(format: Seq<char>) -> Seq<char> {
    if format == "json"@ {
        "application/json"@
    } else if format == "yaml"@ {
        "text/yaml"@
    } else {
        "text/plain"@
    }
}

/// The export response framing.
pub open spec fn export_response_spec(body: Seq<char>, body_bytes: nat, format: Seq<char>) -> Seq<char> {
    "HTTP/1.1 200 OK\r\nContent-Type: "@ + content_type(format) + "\r\nContent-Length: "@ + decimal(
        body_bytes,
    ) + "\r\nConnection: close\r\n\r\n"@ + body
}

/// An export response with the given body, typed by its format.
pub fn build_export_response(body: &str, format: &str) -> (r: String)
    ensures
        r@ == export_response_spec(body@, encode_utf8(body@).len() as usize as nat, format@),
{
    let f = String::from_str(format);
    let ct = if f == String::from_str("json") {
        "application/json"
    } else if f == String::from_str("yaml") {
        "text/yaml"
    } else if f == String::from_str("dsl") {
        "text/plain"
    } else {
        "text/plain"
    };
    let mut r = String::from_str("HTTP/1.1 200 OK\r\nContent-Type: ");
    push_str(&mut r, ct);
    push_str(&mut r, "\r\nContent-Length: ");
    push_decimal(&mut r, body.len() as u64);
    push_str(&mut r, "\r\nConnection: close\r\n\r\n");
    push_str(&mut r, body);
    r
}

/// The export format a format name asks for: JSON, the DSL, or YAML for
/// anything else.
pub open spec fn format_of_name(format: Seq<char>) -> ExportFormat {
    if format == "json"@ {
        ExportFormat::Json
    } else if format == "dsl"@ {
        ExportFormat::Dsl
    } else {
        ExportFormat::Yaml
    }
}

/// The export format a format name asks for.
pub fn export_format_of(format: &str) -> (f: ExportFormat)
    ensures
        f == format_of_name(format@),
{
    let k = String::from_str(format);
    if k == String::from_str("json") {
        ExportFormat::Json
    } else if k == String::from_str("dsl") {
        ExportFormat::Dsl
    } else {
        ExportFormat::Yaml
    }
}

/// The answer of the backtracking resource endpoint, on a fresh manager.
pub fn query_backtrack_resource(resource: &str) -> (r: BacktrackQuery)
    ensures
        exists|bt: BacktrackManager|
            bt.checkpoints_spec().len() == 0 && bt.failures_spec().len() == 0 && query_spec(bt, resource@, r),
{
    let bt = BacktrackManager::new();
    query_backtrack(&bt, resource)
}

/// The status page.
pub open spec fn status_page_text() -> Seq<char> {
    "{\"name\":\"Evolution Reasoning Tool\",\"version\":\"0.8\",\"endpoints\":[\"/status\",\"/backtrack/<resource>\",\"/export/graph\",\"/export/memory\"]}"@
}

/// The status page.
pub fn status_page() -> (s: String)
    ensures
        s@ == status_page_text(),
{
    String::from_str(
        "{\"name\":\"Evolution Reasoning Tool\",\"version\":\"0.8\",\"endpoints\":[\"/status\",\"/backtrack/<resource>\",\"/export/graph\",\"/export/memory\"]}",
    )
}

/// Escapes a text for a JSON string (see `quote_escape`).
pub fn escape_json_string(s: &str) -> (r: String)
    ensures
        r@ == quote_escape(s@),
{
    escape_quoted(s)
}

/// What a task handed in on standard input asks for.
#[derive(Debug, Clone, Copy, PartialEq, Eq, Structural)]
pub enum StdinRoute {
    /// An export (the task mentions "export" or "匯出").
    Export,
    /// A query (the task mentions "query" or "查詢").
    Query,
    /// A conversation with the model (anything else).
    Chat,
}

/// The route of a task.
pub open spec fn route_spec(task: Seq<char>) -> StdinRoute {
    if contains(task, "export"@) || contains(task, "匯出"@) {
        StdinRoute::Export
    } else if contains(task, "query"@) || contains(task, "查詢"@) {
        StdinRoute::Query
    } else {
        StdinRoute::Chat
    }
}

/// Whether a task mentions a word.
fn mentions(task: &[char], word: &str) -> (b: bool)
    ensures
        b == contains(task@, word@),
{
    let w = chars_of(word);
    contains_exec(task, w.as_slice())
}

/// The route of a task (see `route_spec`).
pub fn route_stdin_task(task: &str) -> (r: StdinRoute)
    ensures
        r == route_spec(task@),
{
    let t = chars_of(task);
    if mentions(t.as_slice(), "export") || mentions(t.as_slice(), "匯出") {
        StdinRoute::Export
    } else if mentions(t.as_slice(), "query") || mentions(t.as_slice(), "查詢") {
        StdinRoute::Query
    } else {
        StdinRoute::Chat
    }
}

/// The export format a task asks for.
pub open spec fn task_format_spec(task: Seq<char>) -> Seq<char> {
    if contains(task, "json"@) {
        "json"@
    } else if contains(task, "dsl"@) {
        "dsl"@
    } else {
        "yaml"@
    }
}

/// The export format a task asks for: `json`, `dsl` or `yaml`.
pub fn task_export_format(task: &str) -> (r: &'static str)
    ensures
        r@ == task_format_spec(task@),
{
    let t = chars_of(task);
    if mentions(t.as_slice(), "json") {
        "json"
    } else if mentions(t.as_slice(), "dsl") {
        "dsl"
    } else {
        "yaml"
    }
}

/// The resource a query task asks for.
pub open spec fn task_resource_spec(task: Seq<char>) -> Seq<char> {
    if contains(task, "checkpoint"@) {
        "checkpoints"@
    } else if contains(task, "failure"@) || contains(task, "fail"@) {
        "failures"@
    } else if contains(task, "hypothesis"@) || contains(task, "假設"@) {
        "hypotheses"@
    } else {
        "summary"@
    }
}

/// The resource a query task asks for.
pub fn task_query_resource(task: &str) -> (r: &'static str)
    ensures
        r@ == task_resource_spec(task@),
{
    let t = chars_of(task);
    if mentions(t.as_slice(), "checkpoint") {
        "checkpoints"
    } else if mentions(t.as_slice(), "failure") || mentions(t.as_slice(), "fail") {
        "failures"
    } else if mentions(t.as_slice(), "hypothesis") || mentions(t.as_slice(), "假設") {
        "hypotheses"
    } else {
        "summary"
    }
}

/// The answer to a task that needs the model (the task is quoted as it is).
pub fn chat_task_response(task: &str) -> (r: String)
    ensures
        r@ == "{\"status\": \"ok\", \"task_received\": \""@ + task@ + "\", \"mode\": \"gemma4_required\"}"@,
{
    let mut r = String::from_str("{\"status\": \"ok\", \"task_received\": \"");
    push_str(&mut r, task);
    push_str(&mut r, "\", \"mode\": \"gemma4_required\"}");
    r
}

/// The answer to an export task: the format and the escaped export.
pub fn export_task_response(format: &str, output: &str) -> (r: String)
    ensures
        r@ == "{\"status\": \"exported\", \"format\": \""@ + format@ + "\", \"content\": \""@ + quote_escape(
            output@,
        ) + "\"}"@,
{
    let mut r = String::from_str("{\"status\": \"exported\", \"format\": \"");
    push_str(&mut r, format);
    push_str(&mut r, "\", \"content\": \"");
    let e = escape_json_string(output);
    push_str(&mut r, e.as_str());
    push_str(&mut r, "\"}");
    r
}

/// The answer to a query task: the resource and its JSON.
pub fn query_task_response(resource: &str, data: &str) -> (r: String)
    ensures
        r@ == "{\"status\": \"ok\", \"resource\": \""@ + resource@ + "\", \"data\": "@ + data@ + "}"@,
{
    let mut r = String::from_str("{\"status\": \"ok\", \"resource\": \"");
    push_str(&mut r, resource);
    push_str(&mut r, "\", \"data\": ");
    push_str(&mut r, data);
    push_str(&mut r, "}");
    r
}

} // verus!
