//! The registry of the tools offered to the model.
use vstd::prelude::*;

use crate::ollama::client::{lemma_put_property_absent, Tool, ToolParameters};

verus! {

/// The registry of tools, looked up by name.
///
/// No two registered tools share a name.
#[derive(Debug)]
pub struct ToolRegistry {
    tools: Vec<Tool>,
}

/// The catalogue entry of each built-in tool, in registration order: its
/// name, its description, its parameters (name, type and description, in
/// order) and the names of its required parameters (those not marked
/// optional, "可選", in their descriptions).
pub open spec fn builtin_tool(i: int) -> (Seq<char>, Seq<char>, Seq<(Seq<char>, Seq<char>, Seq<char>)>, Seq<Seq<char>>) {
    if i == 0 {
        ("diverge"@, "發散：在指定節點下生成多個可能的子節點。這是探索不同思考方向的核心操作。"@, seq![("node_id"@, "string"@, "父節點 ID"@), ("content"@, "string"@, "新節點內容（可選）"@), ("count"@, "integer"@, "要生成的子節點數量（預設 3）"@)], seq!["node_id"@, "count"@])
    } else if i == 1 {
        ("converge"@, "收斂：評估並刪除圖中低分節點。當複雜度過高或需要聚焦時觸發。"@, seq![("threshold"@, "string"@, "分數閾值（可選，預設使用系統設定）"@)], seq![])
    } else if i == 2 {
        ("save"@, "儲存：將當前推理圖狀態儲存到 workspace 的命名檔案。"@, seq![("name"@, "string"@, "儲存名稱"@)], seq!["name"@])
    } else if i == 3 {
        ("load"@, "載入：從 workspace 的命名檔案載入推理圖狀態。"@, seq![("name"@, "string"@, "儲存名稱"@)], seq!["name"@])
    } else if i == 4 {
        ("output"@, "輸出：將當前狀態產出為指定格式的檔案到 workspace 目錄。"@, seq![("format"@, "string"@, "輸出格式：xml 或 md"@), ("name"@, "string"@, "輸出檔名（不含副檔名）"@)], seq!["format"@, "name"@])
    } else if i == 5 {
        ("status"@, "狀態：取得當前推理圖的狀態摘要（節點數、邊數、複雜度等）。gemma4 可讀取 workspace/status.xml 獲取詳細資訊。"@, seq![], seq![])
    } else if i == 6 {
        ("execute"@, "沙盒執行：在隔離環境中執行外部命令，並回傳結構化結果。parse_mode=json 時會嘗試將 stdout 解析為 JSON。超時或執行失敗也會回傳 error 欄位。"@, seq![("command"@, "string"@, "要執行的命令（如 echo, python3, curl）"@), ("timeout_ms"@, "integer"@, "逾時毫秒（預設 30000）"@), ("parse_mode"@, "string"@, "解析模式：json | text | exit_code（預設 text）"@), ("node_id"@, "string"@, "關聯的節點 ID（可選，填寫後 Feedback 會寫入該節點）"@)], seq!["command"@, "timeout_ms"@, "parse_mode"@])
    } else if i == 7 {
        ("exec_status"@, "沙盒狀態：取得執行環境的資訊（作業系統、可用目錄、環境變數）。"@, seq![], seq![])
    } else if i == 8 {
        ("checkpoint"@, "建立檢查點：將當前 graph 狀態 snapshot 保存到回溯系統。在重要決策點或執行外部命令前建立。可用 backtrack 回溯到此狀態。"@, seq![("node_id"@, "string"@, "掛載的節點 ID（可選，預設 current_topic root）"@), ("reason"@, "string"@, "建立原因：user_decision | phase_transition | pre_diverge | pre_execute | manual（預設 manual）"@), ("description"@, "string"@, "檢查點描述（可選）"@)], seq!["reason"@])
    } else if i == 9 {
        ("backtrack"@, "回溯：將 graph 狀態恢復到指定檢查點。執行外部命令失敗後常用於恢復到 pre_execute 檢查點。"@, seq![("checkpoint_id"@, "string"@, "目標檢查點 ID（與 restore_last 二選一）"@), ("restore_last"@, "string"@, "是否回溯到最後一個檢查點：true 或 false"@)], seq!["checkpoint_id"@, "restore_last"@])
    } else if i == 10 {
        ("record_failure"@, "記錄失敗：將 execute 失敗的模式記錄到回溯系統，並生成修正假設供後續決策參考。建議在 execute 失敗後立即呼叫。"@, seq![("node_id"@, "string"@, "失敗發生時的節點 ID"@), ("pattern_type"@, "string"@, "失敗類型（可選，有 execute_result_json 時自動判斷）"@), ("command"@, "string"@, "相關命令（可選）"@), ("exit_code"@, "integer"@, "退出碼（可選）"@), ("stderr"@, "string"@, "錯誤輸出（可選）"@), ("execute_result_json"@, "string"@, "execute 工具的完整 JSON 輸出（傳入後自動解析失敗模式）"@)], seq!["node_id"@, "execute_result_json"@])
    } else if i == 11 {
        ("get_hypotheses"@, "取得假設：根據失敗記錄生成多個可能的修正假設，每個假設包含 hypothesis（原因推測）、suggested_action（建議動作）、confidence（信心度）。"@, seq![("failure_id"@, "string"@, "失敗記錄 ID（與 get_last 二選一）"@), ("get_last"@, "string"@, "是否取得最後一筆記錄的假設：true 或 false"@)], seq!["failure_id"@, "get_last"@])
    } else if i == 12 {
        ("export_graph"@, "匯出推理圖：將當前推理圖狀態匯出為 YAML、JSON 或 DSL 格式。可用於外部工作流整合或備份。"@, seq![("format"@, "string"@, "匯出格式：yaml（預設）、json、dsl"@)], seq!["format"@])
    } else if i == 13 {
        ("export_node"@, "匯出節點：將指定節點的詳細狀態匯出為 YAML、JSON 或 DSL 格式。"@, seq![("node_id"@, "string"@, "要匯出的節點 ID"@), ("format"@, "string"@, "匯出格式：yaml（預設）、json、dsl"@)], seq!["node_id"@, "format"@])
    } else if i == 14 {
        ("export_hypotheses"@, "匯出假設：將回溯系統中的修正假設匯出為 YAML、JSON 或 DSL 格式，方便外部 AI 使用或持久化。"@, seq![("failure_id"@, "string"@, "失敗記錄 ID（可選，不提供則匯出全部）"@), ("format"@, "string"@, "匯出格式：yaml（預設）、json、dsl"@)], seq!["format"@])
    } else if i == 15 {
        ("export_backtrack"@, "匯出回溯狀態：將檢查點和失敗歷史匯出為 YAML、JSON 或 DSL 格式。"@, seq![("format"@, "string"@, "匯出格式：yaml（預設）、json、dsl"@)], seq!["format"@])
    } else if i == 16 {
        ("export_memory"@, "匯出長期記憶狀態：將用戶 profile、歷史和已探索主題匯出為 YAML、JSON 或 DSL 格式。"@, seq![("format"@, "string"@, "匯出格式：yaml（預設）、json、dsl"@)], seq!["format"@])
    } else if i == 17 {
        ("query_backtrack"@, "查詢回溯狀態：查詢檢查點、失敗歷史或假設摘要，返回 JSON 格式。"@, seq![("resource"@, "string"@, "查詢資源：checkpoints、failures、hypotheses、summary"@)], seq!["resource"@])
    } else if i == 18 {
        ("verify"@, "驗證執行結果：檢查指定節點的 Feedback 結果是否包含預期的關鍵字。"@, seq![("node_id"@, "string"@, "要驗證的節點 ID"@), ("expected"@, "string"@, "預期結果的關鍵字"@)], seq!["node_id"@, "expected"@])
    } else if i == 19 {
        ("retry"@, "重試失敗任務：對指定節點的失敗任務進行重試，並返回新的執行結果。"@, seq![("node_id"@, "string"@, "要重試的節點 ID"@)], seq!["node_id"@])
    } else if i == 20 {
        ("last_node_id"@, "查詢最後建立的節點 ID。當你需要對最新建立的節點進行操作時，先呼叫此工具取得節點 ID，再將其用於下次 diverge 的 node_id 參數。"@, seq![], seq![])
    } else {
        (Seq::empty(), Seq::empty(), Seq::empty(), Seq::empty())
    }
}

/// The number of built-in tools.
pub open spec fn builtin_count() -> int {
    21
}

/// The names of the built-in tools, in registration order.
pub open spec fn builtin_tool_names() -> Seq<Seq<char>> {
    Seq::new(21, |i: int| builtin_tool(i).0)
}

/// Whether a tool is the built-in tool `i` of the catalogue: a function
/// tool with that name and description, whose parameter object declares
/// exactly those parameters and requires exactly those names.
pub open spec fn builtin_matches(t: Tool, i: int) -> bool {
    let b = builtin_tool(i);
    &&& t.tool_type@ == "function"@
    &&& t.function.name@ == b.0
    &&& t.function.description@ == b.1
    &&& t.function.parameters.wf()
    &&& t.function.parameters.props() == b.2
    &&& t.function.parameters.required_names() == b.3
}

/// The names of the catalogue differ from one another.
pub proof fn lemma_builtin_names_distinct()
    ensures
        builtin_tool_names().no_duplicates(),
{
    reveal_strlit("diverge");
    reveal_strlit("converge");
    reveal_strlit("save");
    reveal_strlit("load");
    reveal_strlit("output");
    reveal_strlit("status");
    reveal_strlit("execute");
    reveal_strlit("exec_status");
    reveal_strlit("checkpoint");
    reveal_strlit("backtrack");
    reveal_strlit("record_failure");
    reveal_strlit("get_hypotheses");
    reveal_strlit("export_graph");
    reveal_strlit("export_node");
    reveal_strlit("export_hypotheses");
    reveal_strlit("export_backtrack");
    reveal_strlit("export_memory");
    reveal_strlit("query_backtrack");
    reveal_strlit("verify");
    reveal_strlit("retry");
    reveal_strlit("last_node_id");
    assert forall|i: int, j: int| 0 <= i < 21 && 0 <= j < 21 && i != j implies builtin_tool_names()[i] != builtin_tool_names()[j] by {
        let a = builtin_tool(i).0;
        let b = builtin_tool(j).0;
        if a.len() == b.len() && a[0] == b[0] {
            assert(a[2] != b[2]);
        }
    }
}

/// The built-in tool `diverge` (entry 0 of `builtin_tool`).
fn builtin_tool_0() -> (t: Tool)
    ensures
        builtin_matches(t, 0),
{
    proof {
        reveal_strlit("node_id");
        reveal_strlit("content");
        reveal_strlit("count");
    }
    let mut p = ToolParameters::new();
    let ghost props0 = p.props();
    let ghost req0 = p.required_names();
    proof {
        lemma_put_property_absent(p.props(), ("node_id"@, "string"@, "父節點 ID"@));
    }
    p.add_string_prop("node_id", "父節點 ID");
    assert(p.props() == props0.push(("node_id"@, "string"@, "父節點 ID"@)));
    assert(!req0.contains("node_id"@));
    assert(p.required_names() == req0.push("node_id"@));
    let ghost props0 = p.props();
    let ghost req0 = p.required_names();
    proof {
        assert("node_id"@[0] != "content"@[0]);
        assert forall|j: int| 0 <= j < p.props().len() implies p.props()[j].0 != "content"@ by {
            if j == 0 {
                assert(p.props()[j].0 == "node_id"@);
            }
        }
        lemma_put_property_absent(p.props(), ("content"@, "string"@, "新節點內容（可選）"@));
    }
    p.add_optional_string_prop("content", "新節點內容（可選）");
    assert(p.props() == props0.push(("content"@, "string"@, "新節點內容（可選）"@)));
    let ghost props0 = p.props();
    let ghost req0 = p.required_names();
    proof {
        assert("node_id"@.len() != "count"@.len());
        assert("content"@.len() != "count"@.len());
        assert forall|j: int| 0 <= j < p.props().len() implies p.props()[j].0 != "count"@ by {
            if j == 0 {
                assert(p.props()[j].0 == "node_id"@);
            }
            if j == 1 {
                assert(p.props()[j].0 == "content"@);
            }
        }
        lemma_put_property_absent(p.props(), ("count"@, "integer"@, "要生成的子節點數量（預設 3）"@));
    }
    p.add_integer_prop("count", "要生成的子節點數量（預設 3）");
    assert(p.props() == props0.push(("count"@, "integer"@, "要生成的子節點數量（預設 3）"@)));
    assert(!req0.contains("count"@));
    assert(p.required_names() == req0.push("count"@));
    let t = Tool::new("diverge", "發散：在指定節點下生成多個可能的子節點。這是探索不同思考方向的核心操作。", p);
    assert(t.function.parameters.props() =~= builtin_tool(0).2);
    assert(t.function.parameters.required_names() =~= builtin_tool(0).3);
    t
}

/// The built-in tool `converge` (entry 1 of `builtin_tool`).
fn builtin_tool_1() -> (t: Tool)
    ensures
        builtin_matches(t, 1),
{
    proof {
        reveal_strlit("threshold");
    }
    let mut p = ToolParameters::new();
    let ghost props0 = p.props();
    let ghost req0 = p.required_names();
    proof {
        lemma_put_property_absent(p.props(), ("threshold"@, "string"@, "分數閾值（可選，預設使用系統設定）"@));
    }
    p.add_optional_string_prop("threshold", "分數閾值（可選，預設使用系統設定）");
    assert(p.props() == props0.push(("threshold"@, "string"@, "分數閾值（可選，預設使用系統設定）"@)));
    let t = Tool::new("converge", "收斂：評估並刪除圖中低分節點。當複雜度過高或需要聚焦時觸發。", p);
    assert(t.function.parameters.props() =~= builtin_tool(1).2);
    assert(t.function.parameters.required_names() =~= builtin_tool(1).3);
    t
}

/// The built-in tool `save` (entry 2 of `builtin_tool`).
fn builtin_tool_2() -> (t: Tool)
    ensures
        builtin_matches(t, 2),
{
    proof {
        reveal_strlit("name");
    }
    let mut p = ToolParameters::new();
    let ghost props0 = p.props();
    let ghost req0 = p.required_names();
    proof {
        lemma_put_property_absent(p.props(), ("name"@, "string"@, "儲存名稱"@));
    }
    p.add_string_prop("name", "儲存名稱");
    assert(p.props() == props0.push(("name"@, "string"@, "儲存名稱"@)));
    assert(!req0.contains("name"@));
    assert(p.required_names() == req0.push("name"@));
    let t = Tool::new("save", "儲存：將當前推理圖狀態儲存到 workspace 的命名檔案。", p);
    assert(t.function.parameters.props() =~= builtin_tool(2).2);
    assert(t.function.parameters.required_names() =~= builtin_tool(2).3);
    t
}

/// The built-in tool `load` (entry 3 of `builtin_tool`).
fn builtin_tool_3() -> (t: Tool)
    ensures
        builtin_matches(t, 3),
{
    proof {
        reveal_strlit("name");
    }
    let mut p = ToolParameters::new();
    let ghost props0 = p.props();
    let ghost req0 = p.required_names();
    proof {
        lemma_put_property_absent(p.props(), ("name"@, "string"@, "儲存名稱"@));
    }
    p.add_string_prop("name", "儲存名稱");
    assert(p.props() == props0.push(("name"@, "string"@, "儲存名稱"@)));
    assert(!req0.contains("name"@));
    assert(p.required_names() == req0.push("name"@));
    let t = Tool::new("load", "載入：從 workspace 的命名檔案載入推理圖狀態。", p);
    assert(t.function.parameters.props() =~= builtin_tool(3).2);
    assert(t.function.parameters.required_names() =~= builtin_tool(3).3);
    t
}

/// The built-in tool `output` (entry 4 of `builtin_tool`).
fn builtin_tool_4() -> (t: Tool)
    ensures
        builtin_matches(t, 4),
{
    proof {
        reveal_strlit("format");
        reveal_strlit("name");
    }
    let mut p = ToolParameters::new();
    let ghost props0 = p.props();
    let ghost req0 = p.required_names();
    proof {
        lemma_put_property_absent(p.props(), ("format"@, "string"@, "輸出格式：xml 或 md"@));
    }
    p.add_string_prop("format", "輸出格式：xml 或 md");
    assert(p.props() == props0.push(("format"@, "string"@, "輸出格式：xml 或 md"@)));
    assert(!req0.contains("format"@));
    assert(p.required_names() == req0.push("format"@));
    let ghost props0 = p.props();
    let ghost req0 = p.required_names();
    proof {
        assert("format"@.len() != "name"@.len());
        assert forall|j: int| 0 <= j < p.props().len() implies p.props()[j].0 != "name"@ by {
            if j == 0 {
                assert(p.props()[j].0 == "format"@);
            }
        }
        lemma_put_property_absent(p.props(), ("name"@, "string"@, "輸出檔名（不含副檔名）"@));
    }
    p.add_string_prop("name", "輸出檔名（不含副檔名）");
    assert(p.props() == props0.push(("name"@, "string"@, "輸出檔名（不含副檔名）"@)));
    assert(!req0.contains("name"@));
    assert(p.required_names() == req0.push("name"@));
    let t = Tool::new("output", "輸出：將當前狀態產出為指定格式的檔案到 workspace 目錄。", p);
    assert(t.function.parameters.props() =~= builtin_tool(4).2);
    assert(t.function.parameters.required_names() =~= builtin_tool(4).3);
    t
}

/// The built-in tool `status` (entry 5 of `builtin_tool`).
fn builtin_tool_5() -> (t: Tool)
    ensures
        builtin_matches(t, 5),
{
    proof {
    }
    let mut p = ToolParameters::new();
    let t = Tool::new("status", "狀態：取得當前推理圖的狀態摘要（節點數、邊數、複雜度等）。gemma4 可讀取 workspace/status.xml 獲取詳細資訊。", p);
    assert(t.function.parameters.props() =~= builtin_tool(5).2);
    assert(t.function.parameters.required_names() =~= builtin_tool(5).3);
    t
}

/// The built-in tool `execute` (entry 6 of `builtin_tool`).
fn builtin_tool_6() -> (t: Tool)
    ensures
        builtin_matches(t, 6),
{
    proof {
        reveal_strlit("command");
        reveal_strlit("timeout_ms");
        reveal_strlit("parse_mode");
        reveal_strlit("node_id");
    }
    let mut p = ToolParameters::new();
    let ghost props0 = p.props();
    let ghost req0 = p.required_names();
    proof {
        lemma_put_property_absent(p.props(), ("command"@, "string"@, "要執行的命令（如 echo, python3, curl）"@));
    }
    p.add_string_prop("command", "要執行的命令（如 echo, python3, curl）");
    assert(p.props() == props0.push(("command"@, "string"@, "要執行的命令（如 echo, python3, curl）"@)));
    assert(!req0.contains("command"@));
    assert(p.required_names() == req0.push("command"@));
    let ghost props0 = p.props();
    let ghost req0 = p.required_names();
    proof {
        assert("command"@.len() != "timeout_ms"@.len());
        assert forall|j: int| 0 <= j < p.props().len() implies p.props()[j].0 != "timeout_ms"@ by {
            if j == 0 {
                assert(p.props()[j].0 == "command"@);
            }
        }
        lemma_put_property_absent(p.props(), ("timeout_ms"@, "integer"@, "逾時毫秒（預設 30000）"@));
    }
    p.add_integer_prop("timeout_ms", "逾時毫秒（預設 30000）");
    assert(p.props() == props0.push(("timeout_ms"@, "integer"@, "逾時毫秒（預設 30000）"@)));
    assert(!req0.contains("timeout_ms"@));
    assert(p.required_names() == req0.push("timeout_ms"@));
    let ghost props0 = p.props();
    let ghost req0 = p.required_names();
    proof {
        assert("command"@.len() != "parse_mode"@.len());
        assert("timeout_ms"@[0] != "parse_mode"@[0]);
        assert forall|j: int| 0 <= j < p.props().len() implies p.props()[j].0 != "parse_mode"@ by {
            if j == 0 {
                assert(p.props()[j].0 == "command"@);
            }
            if j == 1 {
                assert(p.props()[j].0 == "timeout_ms"@);
            }
        }
        lemma_put_property_absent(p.props(), ("parse_mode"@, "string"@, "解析模式：json | text | exit_code（預設 text）"@));
    }
    p.add_string_prop("parse_mode", "解析模式：json | text | exit_code（預設 text）");
    assert(p.props() == props0.push(("parse_mode"@, "string"@, "解析模式：json | text | exit_code（預設 text）"@)));
    assert(!req0.contains("parse_mode"@));
    assert(p.required_names() == req0.push("parse_mode"@));
    let ghost props0 = p.props();
    let ghost req0 = p.required_names();
    proof {
        assert("command"@[0] != "node_id"@[0]);
        assert("timeout_ms"@.len() != "node_id"@.len());
        assert("parse_mode"@.len() != "node_id"@.len());
        assert forall|j: int| 0 <= j < p.props().len() implies p.props()[j].0 != "node_id"@ by {
            if j == 0 {
                assert(p.props()[j].0 == "command"@);
            }
            if j == 1 {
                assert(p.props()[j].0 == "timeout_ms"@);
            }
            if j == 2 {
                assert(p.props()[j].0 == "parse_mode"@);
            }
        }
        lemma_put_property_absent(p.props(), ("node_id"@, "string"@, "關聯的節點 ID（可選，填寫後 Feedback 會寫入該節點）"@));
    }
    p.add_optional_string_prop("node_id", "關聯的節點 ID（可選，填寫後 Feedback 會寫入該節點）");
    assert(p.props() == props0.push(("node_id"@, "string"@, "關聯的節點 ID（可選，填寫後 Feedback 會寫入該節點）"@)));
    let t = Tool::new("execute", "沙盒執行：在隔離環境中執行外部命令，並回傳結構化結果。parse_mode=json 時會嘗試將 stdout 解析為 JSON。超時或執行失敗也會回傳 error 欄位。", p);
    assert(t.function.parameters.props() =~= builtin_tool(6).2);
    assert(t.function.parameters.required_names() =~= builtin_tool(6).3);
    t
}

/// The built-in tool `exec_status` (entry 7 of `builtin_tool`).
fn builtin_tool_7() -> (t: Tool)
    ensures
        builtin_matches(t, 7),
{
    proof {
    }
    let mut p = ToolParameters::new();
    let t = Tool::new("exec_status", "沙盒狀態：取得執行環境的資訊（作業系統、可用目錄、環境變數）。", p);
    assert(t.function.parameters.props() =~= builtin_tool(7).2);
    assert(t.function.parameters.required_names() =~= builtin_tool(7).3);
    t
}

/// The built-in tool `checkpoint` (entry 8 of `builtin_tool`).
fn builtin_tool_8() -> (t: Tool)
    ensures
        builtin_matches(t, 8),
{
    proof {
        reveal_strlit("node_id");
        reveal_strlit("reason");
        reveal_strlit("description");
    }
    let mut p = ToolParameters::new();
    let ghost props0 = p.props();
    let ghost req0 = p.required_names();
    proof {
        lemma_put_property_absent(p.props(), ("node_id"@, "string"@, "掛載的節點 ID（可選，預設 current_topic root）"@));
    }
    p.add_optional_string_prop("node_id", "掛載的節點 ID（可選，預設 current_topic root）");
    assert(p.props() == props0.push(("node_id"@, "string"@, "掛載的節點 ID（可選，預設 current_topic root）"@)));
    let ghost props0 = p.props();
    let ghost req0 = p.required_names();
    proof {
        assert("node_id"@.len() != "reason"@.len());
        assert forall|j: int| 0 <= j < p.props().len() implies p.props()[j].0 != "reason"@ by {
            if j == 0 {
                assert(p.props()[j].0 == "node_id"@);
            }
        }
        lemma_put_property_absent(p.props(), ("reason"@, "string"@, "建立原因：user_decision | phase_transition | pre_diverge | pre_execute | manual（預設 manual）"@));
    }
    p.add_string_prop("reason", "建立原因：user_decision | phase_transition | pre_diverge | pre_execute | manual（預設 manual）");
    assert(p.props() == props0.push(("reason"@, "string"@, "建立原因：user_decision | phase_transition | pre_diverge | pre_execute | manual（預設 manual）"@)));
    assert(!req0.contains("reason"@));
    assert(p.required_names() == req0.push("reason"@));
    let ghost props0 = p.props();
    let ghost req0 = p.required_names();
    proof {
        assert("node_id"@.len() != "description"@.len());
        assert("reason"@.len() != "description"@.len());
        assert forall|j: int| 0 <= j < p.props().len() implies p.props()[j].0 != "description"@ by {
            if j == 0 {
                assert(p.props()[j].0 == "node_id"@);
            }
            if j == 1 {
                assert(p.props()[j].0 == "reason"@);
            }
        }
        lemma_put_property_absent(p.props(), ("description"@, "string"@, "檢查點描述（可選）"@));
    }
    p.add_optional_string_prop("description", "檢查點描述（可選）");
    assert(p.props() == props0.push(("description"@, "string"@, "檢查點描述（可選）"@)));
    let t = Tool::new("checkpoint", "建立檢查點：將當前 graph 狀態 snapshot 保存到回溯系統。在重要決策點或執行外部命令前建立。可用 backtrack 回溯到此狀態。", p);
    assert(t.function.parameters.props() =~= builtin_tool(8).2);
    assert(t.function.parameters.required_names() =~= builtin_tool(8).3);
    t
}

/// The built-in tool `backtrack` (entry 9 of `builtin_tool`).
fn builtin_tool_9() -> (t: Tool)
    ensures
        builtin_matches(t, 9),
{
    proof {
        reveal_strlit("checkpoint_id");
        reveal_strlit("restore_last");
    }
    let mut p = ToolParameters::new();
    let ghost props0 = p.props();
    let ghost req0 = p.required_names();
    proof {
        lemma_put_property_absent(p.props(), ("checkpoint_id"@, "string"@, "目標檢查點 ID（與 restore_last 二選一）"@));
    }
    p.add_string_prop("checkpoint_id", "目標檢查點 ID（與 restore_last 二選一）");
    assert(p.props() == props0.push(("checkpoint_id"@, "string"@, "目標檢查點 ID（與 restore_last 二選一）"@)));
    assert(!req0.contains("checkpoint_id"@));
    assert(p.required_names() == req0.push("checkpoint_id"@));
    let ghost props0 = p.props();
    let ghost req0 = p.required_names();
    proof {
        assert("checkpoint_id"@.len() != "restore_last"@.len());
        assert forall|j: int| 0 <= j < p.props().len() implies p.props()[j].0 != "restore_last"@ by {
            if j == 0 {
                assert(p.props()[j].0 == "checkpoint_id"@);
            }
        }
        lemma_put_property_absent(p.props(), ("restore_last"@, "string"@, "是否回溯到最後一個檢查點：true 或 false"@));
    }
    p.add_string_prop("restore_last", "是否回溯到最後一個檢查點：true 或 false");
    assert(p.props() == props0.push(("restore_last"@, "string"@, "是否回溯到最後一個檢查點：true 或 false"@)));
    assert(!req0.contains("restore_last"@));
    assert(p.required_names() == req0.push("restore_last"@));
    let t = Tool::new("backtrack", "回溯：將 graph 狀態恢復到指定檢查點。執行外部命令失敗後常用於恢復到 pre_execute 檢查點。", p);
    assert(t.function.parameters.props() =~= builtin_tool(9).2);
    assert(t.function.parameters.required_names() =~= builtin_tool(9).3);
    t
}

/// The built-in tool `record_failure` (entry 10 of `builtin_tool`).
fn builtin_tool_10() -> (t: Tool)
    ensures
        builtin_matches(t, 10),
{
    proof {
        reveal_strlit("node_id");
        reveal_strlit("pattern_type");
        reveal_strlit("command");
        reveal_strlit("exit_code");
        reveal_strlit("stderr");
        reveal_strlit("execute_result_json");
    }
    let mut p = ToolParameters::new();
    let ghost props0 = p.props();
    let ghost req0 = p.required_names();
    proof {
        lemma_put_property_absent(p.props(), ("node_id"@, "string"@, "失敗發生時的節點 ID"@));
    }
    p.add_string_prop("node_id", "失敗發生時的節點 ID");
    assert(p.props() == props0.push(("node_id"@, "string"@, "失敗發生時的節點 ID"@)));
    assert(!req0.contains("node_id"@));
    assert(p.required_names() == req0.push("node_id"@));
    let ghost props0 = p.props();
    let ghost req0 = p.required_names();
    proof {
        assert("node_id"@.len() != "pattern_type"@.len());
        assert forall|j: int| 0 <= j < p.props().len() implies p.props()[j].0 != "pattern_type"@ by {
            if j == 0 {
                assert(p.props()[j].0 == "node_id"@);
            }
        }
        lemma_put_property_absent(p.props(), ("pattern_type"@, "string"@, "失敗類型（可選，有 execute_result_json 時自動判斷）"@));
    }
    p.add_optional_string_prop("pattern_type", "失敗類型（可選，有 execute_result_json 時自動判斷）");
    assert(p.props() == props0.push(("pattern_type"@, "string"@, "失敗類型（可選，有 execute_result_json 時自動判斷）"@)));
    let ghost props0 = p.props();
    let ghost req0 = p.required_names();
    proof {
        assert("node_id"@[0] != "command"@[0]);
        assert("pattern_type"@.len() != "command"@.len());
        assert forall|j: int| 0 <= j < p.props().len() implies p.props()[j].0 != "command"@ by {
            if j == 0 {
                assert(p.props()[j].0 == "node_id"@);
            }
            if j == 1 {
                assert(p.props()[j].0 == "pattern_type"@);
            }
        }
        lemma_put_property_absent(p.props(), ("command"@, "string"@, "相關命令（可選）"@));
    }
    p.add_optional_string_prop("command", "相關命令（可選）");
    assert(p.props() == props0.push(("command"@, "string"@, "相關命令（可選）"@)));
    let ghost props0 = p.props();
    let ghost req0 = p.required_names();
    proof {
        assert("node_id"@.len() != "exit_code"@.len());
        assert("pattern_type"@.len() != "exit_code"@.len());
        assert("command"@.len() != "exit_code"@.len());
        assert forall|j: int| 0 <= j < p.props().len() implies p.props()[j].0 != "exit_code"@ by {
            if j == 0 {
                assert(p.props()[j].0 == "node_id"@);
            }
            if j == 1 {
                assert(p.props()[j].0 == "pattern_type"@);
            }
            if j == 2 {
                assert(p.props()[j].0 == "command"@);
            }
        }
        lemma_put_property_absent(p.props(), ("exit_code"@, "integer"@, "退出碼（可選）"@));
    }
    p.add_optional_integer_prop("exit_code", "退出碼（可選）");
    assert(p.props() == props0.push(("exit_code"@, "integer"@, "退出碼（可選）"@)));
    let ghost props0 = p.props();
    let ghost req0 = p.required_names();
    proof {
        assert("node_id"@.len() != "stderr"@.len());
        assert("pattern_type"@.len() != "stderr"@.len());
        assert("command"@.len() != "stderr"@.len());
        assert("exit_code"@.len() != "stderr"@.len());
        assert forall|j: int| 0 <= j < p.props().len() implies p.props()[j].0 != "stderr"@ by {
            if j == 0 {
                assert(p.props()[j].0 == "node_id"@);
            }
            if j == 1 {
                assert(p.props()[j].0 == "pattern_type"@);
            }
            if j == 2 {
                assert(p.props()[j].0 == "command"@);
            }
            if j == 3 {
                assert(p.props()[j].0 == "exit_code"@);
            }
        }
        lemma_put_property_absent(p.props(), ("stderr"@, "string"@, "錯誤輸出（可選）"@));
    }
    p.add_optional_string_prop("stderr", "錯誤輸出（可選）");
    assert(p.props() == props0.push(("stderr"@, "string"@, "錯誤輸出（可選）"@)));
    let ghost props0 = p.props();
    let ghost req0 = p.required_names();
    proof {
        assert("node_id"@.len() != "execute_result_json"@.len());
        assert("pattern_type"@.len() != "execute_result_json"@.len());
        assert("command"@.len() != "execute_result_json"@.len());
        assert("exit_code"@.len() != "execute_result_json"@.len());
        assert("stderr"@.len() != "execute_result_json"@.len());
        assert forall|j: int| 0 <= j < p.props().len() implies p.props()[j].0 != "execute_result_json"@ by {
            if j == 0 {
                assert(p.props()[j].0 == "node_id"@);
            }
            if j == 1 {
                assert(p.props()[j].0 == "pattern_type"@);
            }
            if j == 2 {
                assert(p.props()[j].0 == "command"@);
            }
            if j == 3 {
                assert(p.props()[j].0 == "exit_code"@);
            }
            if j == 4 {
                assert(p.props()[j].0 == "stderr"@);
            }
        }
        lemma_put_property_absent(p.props(), ("execute_result_json"@, "string"@, "execute 工具的完整 JSON 輸出（傳入後自動解析失敗模式）"@));
    }
    p.add_string_prop("execute_result_json", "execute 工具的完整 JSON 輸出（傳入後自動解析失敗模式）");
    assert(p.props() == props0.push(("execute_result_json"@, "string"@, "execute 工具的完整 JSON 輸出（傳入後自動解析失敗模式）"@)));
    assert(!req0.contains("execute_result_json"@));
    assert(p.required_names() == req0.push("execute_result_json"@));
    let t = Tool::new("record_failure", "記錄失敗：將 execute 失敗的模式記錄到回溯系統，並生成修正假設供後續決策參考。建議在 execute 失敗後立即呼叫。", p);
    assert(t.function.parameters.props() =~= builtin_tool(10).2);
    assert(t.function.parameters.required_names() =~= builtin_tool(10).3);
    t
}

/// The built-in tool `get_hypotheses` (entry 11 of `builtin_tool`).
fn builtin_tool_11() -> (t: Tool)
    ensures
        builtin_matches(t, 11),
{
    proof {
        reveal_strlit("failure_id");
        reveal_strlit("get_last");
    }
    let mut p = ToolParameters::new();
    let ghost props0 = p.props();
    let ghost req0 = p.required_names();
    proof {
        lemma_put_property_absent(p.props(), ("failure_id"@, "string"@, "失敗記錄 ID（與 get_last 二選一）"@));
    }
    p.add_string_prop("failure_id", "失敗記錄 ID（與 get_last 二選一）");
    assert(p.props() == props0.push(("failure_id"@, "string"@, "失敗記錄 ID（與 get_last 二選一）"@)));
    assert(!req0.contains("failure_id"@));
    assert(p.required_names() == req0.push("failure_id"@));
    let ghost props0 = p.props();
    let ghost req0 = p.required_names();
    proof {
        assert("failure_id"@.len() != "get_last"@.len());
        assert forall|j: int| 0 <= j < p.props().len() implies p.props()[j].0 != "get_last"@ by {
            if j == 0 {
                assert(p.props()[j].0 == "failure_id"@);
            }
        }
        lemma_put_property_absent(p.props(), ("get_last"@, "string"@, "是否取得最後一筆記錄的假設：true 或 false"@));
    }
    p.add_string_prop("get_last", "是否取得最後一筆記錄的假設：true 或 false");
    assert(p.props() == props0.push(("get_last"@, "string"@, "是否取得最後一筆記錄的假設：true 或 false"@)));
    assert(!req0.contains("get_last"@));
    assert(p.required_names() == req0.push("get_last"@));
    let t = Tool::new("get_hypotheses", "取得假設：根據失敗記錄生成多個可能的修正假設，每個假設包含 hypothesis（原因推測）、suggested_action（建議動作）、confidence（信心度）。", p);
    assert(t.function.parameters.props() =~= builtin_tool(11).2);
    assert(t.function.parameters.required_names() =~= builtin_tool(11).3);
    t
}

/// The built-in tool `export_graph` (entry 12 of `builtin_tool`).
fn builtin_tool_12() -> (t: Tool)
    ensures
        builtin_matches(t, 12),
{
    proof {
        reveal_strlit("format");
    }
    let mut p = ToolParameters::new();
    let ghost props0 = p.props();
    let ghost req0 = p.required_names();
    proof {
        lemma_put_property_absent(p.props(), ("format"@, "string"@, "匯出格式：yaml（預設）、json、dsl"@));
    }
    p.add_string_prop("format", "匯出格式：yaml（預設）、json、dsl");
    assert(p.props() == props0.push(("format"@, "string"@, "匯出格式：yaml（預設）、json、dsl"@)));
    assert(!req0.contains("format"@));
    assert(p.required_names() == req0.push("format"@));
    let t = Tool::new("export_graph", "匯出推理圖：將當前推理圖狀態匯出為 YAML、JSON 或 DSL 格式。可用於外部工作流整合或備份。", p);
    assert(t.function.parameters.props() =~= builtin_tool(12).2);
    assert(t.function.parameters.required_names() =~= builtin_tool(12).3);
    t
}

/// The built-in tool `export_node` (entry 13 of `builtin_tool`).
fn builtin_tool_13() -> (t: Tool)
    ensures
        builtin_matches(t, 13),
{
    proof {
        reveal_strlit("node_id");
        reveal_strlit("format");
    }
    let mut p = ToolParameters::new();
    let ghost props0 = p.props();
    let ghost req0 = p.required_names();
    proof {
        lemma_put_property_absent(p.props(), ("node_id"@, "string"@, "要匯出的節點 ID"@));
    }
    p.add_string_prop("node_id", "要匯出的節點 ID");
    assert(p.props() == props0.push(("node_id"@, "string"@, "要匯出的節點 ID"@)));
    assert(!req0.contains("node_id"@));
    assert(p.required_names() == req0.push("node_id"@));
    let ghost props0 = p.props();
    let ghost req0 = p.required_names();
    proof {
        assert("node_id"@.len() != "format"@.len());
        assert forall|j: int| 0 <= j < p.props().len() implies p.props()[j].0 != "format"@ by {
            if j == 0 {
                assert(p.props()[j].0 == "node_id"@);
            }
        }
        lemma_put_property_absent(p.props(), ("format"@, "string"@, "匯出格式：yaml（預設）、json、dsl"@));
    }
    p.add_string_prop("format", "匯出格式：yaml（預設）、json、dsl");
    assert(p.props() == props0.push(("format"@, "string"@, "匯出格式：yaml（預設）、json、dsl"@)));
    assert(!req0.contains("format"@));
    assert(p.required_names() == req0.push("format"@));
    let t = Tool::new("export_node", "匯出節點：將指定節點的詳細狀態匯出為 YAML、JSON 或 DSL 格式。", p);
    assert(t.function.parameters.props() =~= builtin_tool(13).2);
    assert(t.function.parameters.required_names() =~= builtin_tool(13).3);
    t
}

/// The built-in tool `export_hypotheses` (entry 14 of `builtin_tool`).
fn builtin_tool_14() -> (t: Tool)
    ensures
        builtin_matches(t, 14),
{
    proof {
        reveal_strlit("failure_id");
        reveal_strlit("format");
    }
    let mut p = ToolParameters::new();
    let ghost props0 = p.props();
    let ghost req0 = p.required_names();
    proof {
        lemma_put_property_absent(p.props(), ("failure_id"@, "string"@, "失敗記錄 ID（可選，不提供則匯出全部）"@));
    }
    p.add_optional_string_prop("failure_id", "失敗記錄 ID（可選，不提供則匯出全部）");
    assert(p.props() == props0.push(("failure_id"@, "string"@, "失敗記錄 ID（可選，不提供則匯出全部）"@)));
    let ghost props0 = p.props();
    let ghost req0 = p.required_names();
    proof {
        assert("failure_id"@.len() != "format"@.len());
        assert forall|j: int| 0 <= j < p.props().len() implies p.props()[j].0 != "format"@ by {
            if j == 0 {
                assert(p.props()[j].0 == "failure_id"@);
            }
        }
        lemma_put_property_absent(p.props(), ("format"@, "string"@, "匯出格式：yaml（預設）、json、dsl"@));
    }
    p.add_string_prop("format", "匯出格式：yaml（預設）、json、dsl");
    assert(p.props() == props0.push(("format"@, "string"@, "匯出格式：yaml（預設）、json、dsl"@)));
    assert(!req0.contains("format"@));
    assert(p.required_names() == req0.push("format"@));
    let t = Tool::new("export_hypotheses", "匯出假設：將回溯系統中的修正假設匯出為 YAML、JSON 或 DSL 格式，方便外部 AI 使用或持久化。", p);
    assert(t.function.parameters.props() =~= builtin_tool(14).2);
    assert(t.function.parameters.required_names() =~= builtin_tool(14).3);
    t
}

/// The built-in tool `export_backtrack` (entry 15 of `builtin_tool`).
fn builtin_tool_15() -> (t: Tool)
    ensures
        builtin_matches(t, 15),
{
    proof {
        reveal_strlit("format");
    }
    let mut p = ToolParameters::new();
    let ghost props0 = p.props();
    let ghost req0 = p.required_names();
    proof {
        lemma_put_property_absent(p.props(), ("format"@, "string"@, "匯出格式：yaml（預設）、json、dsl"@));
    }
    p.add_string_prop("format", "匯出格式：yaml（預設）、json、dsl");
    assert(p.props() == props0.push(("format"@, "string"@, "匯出格式：yaml（預設）、json、dsl"@)));
    assert(!req0.contains("format"@));
    assert(p.required_names() == req0.push("format"@));
    let t = Tool::new("export_backtrack", "匯出回溯狀態：將檢查點和失敗歷史匯出為 YAML、JSON 或 DSL 格式。", p);
    assert(t.function.parameters.props() =~= builtin_tool(15).2);
    assert(t.function.parameters.required_names() =~= builtin_tool(15).3);
    t
}

/// The built-in tool `export_memory` (entry 16 of `builtin_tool`).
fn builtin_tool_16() -> (t: Tool)
    ensures
        builtin_matches(t, 16),
{
    proof {
        reveal_strlit("format");
    }
    let mut p = ToolParameters::new();
    let ghost props0 = p.props();
    let ghost req0 = p.required_names();
    proof {
        lemma_put_property_absent(p.props(), ("format"@, "string"@, "匯出格式：yaml（預設）、json、dsl"@));
    }
    p.add_string_prop("format", "匯出格式：yaml（預設）、json、dsl");
    assert(p.props() == props0.push(("format"@, "string"@, "匯出格式：yaml（預設）、json、dsl"@)));
    assert(!req0.contains("format"@));
    assert(p.required_names() == req0.push("format"@));
    let t = Tool::new("export_memory", "匯出長期記憶狀態：將用戶 profile、歷史和已探索主題匯出為 YAML、JSON 或 DSL 格式。", p);
    assert(t.function.parameters.props() =~= builtin_tool(16).2);
    assert(t.function.parameters.required_names() =~= builtin_tool(16).3);
    t
}

/// The built-in tool `query_backtrack` (entry 17 of `builtin_tool`).
fn builtin_tool_17() -> (t: Tool)
    ensures
        builtin_matches(t, 17),
{
    proof {
        reveal_strlit("resource");
    }
    let mut p = ToolParameters::new();
    let ghost props0 = p.props();
    let ghost req0 = p.required_names();
    proof {
        lemma_put_property_absent(p.props(), ("resource"@, "string"@, "查詢資源：checkpoints、failures、hypotheses、summary"@));
    }
    p.add_string_prop("resource", "查詢資源：checkpoints、failures、hypotheses、summary");
    assert(p.props() == props0.push(("resource"@, "string"@, "查詢資源：checkpoints、failures、hypotheses、summary"@)));
    assert(!req0.contains("resource"@));
    assert(p.required_names() == req0.push("resource"@));
    let t = Tool::new("query_backtrack", "查詢回溯狀態：查詢檢查點、失敗歷史或假設摘要，返回 JSON 格式。", p);
    assert(t.function.parameters.props() =~= builtin_tool(17).2);
    assert(t.function.parameters.required_names() =~= builtin_tool(17).3);
    t
}

/// The built-in tool `verify` (entry 18 of `builtin_tool`).
fn builtin_tool_18() -> (t: Tool)
    ensures
        builtin_matches(t, 18),
{
    proof {
        reveal_strlit("node_id");
        reveal_strlit("expected");
    }
    let mut p = ToolParameters::new();
    let ghost props0 = p.props();
    let ghost req0 = p.required_names();
    proof {
        lemma_put_property_absent(p.props(), ("node_id"@, "string"@, "要驗證的節點 ID"@));
    }
    p.add_string_prop("node_id", "要驗證的節點 ID");
    assert(p.props() == props0.push(("node_id"@, "string"@, "要驗證的節點 ID"@)));
    assert(!req0.contains("node_id"@));
    assert(p.required_names() == req0.push("node_id"@));
    let ghost props0 = p.props();
    let ghost req0 = p.required_names();
    proof {
        assert("node_id"@.len() != "expected"@.len());
        assert forall|j: int| 0 <= j < p.props().len() implies p.props()[j].0 != "expected"@ by {
            if j == 0 {
                assert(p.props()[j].0 == "node_id"@);
            }
        }
        lemma_put_property_absent(p.props(), ("expected"@, "string"@, "預期結果的關鍵字"@));
    }
    p.add_string_prop("expected", "預期結果的關鍵字");
    assert(p.props() == props0.push(("expected"@, "string"@, "預期結果的關鍵字"@)));
    assert(!req0.contains("expected"@));
    assert(p.required_names() == req0.push("expected"@));
    let t = Tool::new("verify", "驗證執行結果：檢查指定節點的 Feedback 結果是否包含預期的關鍵字。", p);
    assert(t.function.parameters.props() =~= builtin_tool(18).2);
    assert(t.function.parameters.required_names() =~= builtin_tool(18).3);
    t
}

/// The built-in tool `retry` (entry 19 of `builtin_tool`).
fn builtin_tool_19() -> (t: Tool)
    ensures
        builtin_matches(t, 19),
{
    proof {
        reveal_strlit("node_id");
    }
    let mut p = ToolParameters::new();
    let ghost props0 = p.props();
    let ghost req0 = p.required_names();
    proof {
        lemma_put_property_absent(p.props(), ("node_id"@, "string"@, "要重試的節點 ID"@));
    }
    p.add_string_prop("node_id", "要重試的節點 ID");
    assert(p.props() == props0.push(("node_id"@, "string"@, "要重試的節點 ID"@)));
    assert(!req0.contains("node_id"@));
    assert(p.required_names() == req0.push("node_id"@));
    let t = Tool::new("retry", "重試失敗任務：對指定節點的失敗任務進行重試，並返回新的執行結果。", p);
    assert(t.function.parameters.props() =~= builtin_tool(19).2);
    assert(t.function.parameters.required_names() =~= builtin_tool(19).3);
    t
}

/// The built-in tool `last_node_id` (entry 20 of `builtin_tool`).
fn builtin_tool_20() -> (t: Tool)
    ensures
        builtin_matches(t, 20),
{
    proof {
    }
    let mut p = ToolParameters::new();
    let t = Tool::new("last_node_id", "查詢最後建立的節點 ID。當你需要對最新建立的節點進行操作時，先呼叫此工具取得節點 ID，再將其用於下次 diverge 的 node_id 參數。", p);
    assert(t.function.parameters.props() =~= builtin_tool(20).2);
    assert(t.function.parameters.required_names() =~= builtin_tool(20).3);
    t
}

impl ToolRegistry {
    /// The registered tools, in registration order.
    pub closed spec fn tools(&self) -> Seq<Tool> {
        self.tools@
    }

    /// The registered tools' names, in registration order.
    pub open spec fn names(&self) -> Seq<Seq<char>> {
        self.tools().map_values(|t: Tool| t.function.name@)
    }

    /// Every registry is well formed (see `wf`).
    #[verifier::type_invariant]
    spec fn always_wf(self) -> bool {
        self.wf()
    }

    /// Names are unique and every tool's parameters are well formed.
    pub open spec fn wf(&self) -> bool {
        &&& self.names().no_duplicates()
        &&& forall|i: int| 0 <= i < self.tools().len() ==> (#[trigger] self.tools()[i]).function.parameters.wf()
    }

    /// The registry of all built-in tools: exactly the tools of the
    /// catalogue (see `builtin_tool`), in its order.
    pub fn new() -> (r: Self)
        ensures
            r.wf(),
            r.tools().len() == builtin_count(),
            r.names() == builtin_tool_names(),
            forall|i: int| 0 <= i < builtin_count() ==> builtin_matches(#[trigger] r.tools()[i], i),
            forall|i: int| 0 <= i < builtin_tool_names().len() ==> r.names().contains(
                #[trigger] builtin_tool_names()[i],
            ),
    {
        let mut tools: Vec<Tool> = Vec::new();
        let t0 = builtin_tool_0();
        let ghost g0 = t0;
        tools.push(t0);
        let t1 = builtin_tool_1();
        let ghost g1 = t1;
        tools.push(t1);
        let t2 = builtin_tool_2();
        let ghost g2 = t2;
        tools.push(t2);
        let t3 = builtin_tool_3();
        let ghost g3 = t3;
        tools.push(t3);
        let t4 = builtin_tool_4();
        let ghost g4 = t4;
        tools.push(t4);
        let t5 = builtin_tool_5();
        let ghost g5 = t5;
        tools.push(t5);
        let t6 = builtin_tool_6();
        let ghost g6 = t6;
        tools.push(t6);
        let t7 = builtin_tool_7();
        let ghost g7 = t7;
        tools.push(t7);
        let t8 = builtin_tool_8();
        let ghost g8 = t8;
        tools.push(t8);
        let t9 = builtin_tool_9();
        let ghost g9 = t9;
        tools.push(t9);
        let t10 = builtin_tool_10();
        let ghost g10 = t10;
        tools.push(t10);
        let t11 = builtin_tool_11();
        let ghost g11 = t11;
        tools.push(t11);
        let t12 = builtin_tool_12();
        let ghost g12 = t12;
        tools.push(t12);
        let t13 = builtin_tool_13();
        let ghost g13 = t13;
        tools.push(t13);
        let t14 = builtin_tool_14();
        let ghost g14 = t14;
        tools.push(t14);
        let t15 = builtin_tool_15();
        let ghost g15 = t15;
        tools.push(t15);
        let t16 = builtin_tool_16();
        let ghost g16 = t16;
        tools.push(t16);
        let t17 = builtin_tool_17();
        let ghost g17 = t17;
        tools.push(t17);
        let t18 = builtin_tool_18();
        let ghost g18 = t18;
        tools.push(t18);
        let t19 = builtin_tool_19();
        let ghost g19 = t19;
        tools.push(t19);
        let t20 = builtin_tool_20();
        let ghost g20 = t20;
        tools.push(t20);
        assert(tools@ =~= seq![g0, g1, g2, g3, g4, g5, g6, g7, g8, g9, g10, g11, g12, g13, g14, g15, g16, g17, g18, g19, g20]);
        let ghost ts = tools@;
        assert forall|i: int| 0 <= i < builtin_count() implies builtin_matches(#[trigger] ts[i], i) by {
            if i == 0 {
                assert(ts[i] == g0);
            } else if i == 1 {
                assert(ts[i] == g1);
            } else if i == 2 {
                assert(ts[i] == g2);
            } else if i == 3 {
                assert(ts[i] == g3);
            } else if i == 4 {
                assert(ts[i] == g4);
            } else if i == 5 {
                assert(ts[i] == g5);
            } else if i == 6 {
                assert(ts[i] == g6);
            } else if i == 7 {
                assert(ts[i] == g7);
            } else if i == 8 {
                assert(ts[i] == g8);
            } else if i == 9 {
                assert(ts[i] == g9);
            } else if i == 10 {
                assert(ts[i] == g10);
            } else if i == 11 {
                assert(ts[i] == g11);
            } else if i == 12 {
                assert(ts[i] == g12);
            } else if i == 13 {
                assert(ts[i] == g13);
            } else if i == 14 {
                assert(ts[i] == g14);
            } else if i == 15 {
                assert(ts[i] == g15);
            } else if i == 16 {
                assert(ts[i] == g16);
            } else if i == 17 {
                assert(ts[i] == g17);
            } else if i == 18 {
                assert(ts[i] == g18);
            } else if i == 19 {
                assert(ts[i] == g19);
            } else if i == 20 {
                assert(ts[i] == g20);
            }
        }
        assert(ts.map_values(|t: Tool| t.function.name@) =~= builtin_tool_names());
        proof {
            lemma_builtin_names_distinct();
        }
        assert forall|i: int| 0 <= i < builtin_tool_names().len() implies ts.map_values(|t: Tool| t.function.name@).contains(
            #[trigger] builtin_tool_names()[i],
        ) by {
            assert(ts.map_values(|t: Tool| t.function.name@)[i] == builtin_tool_names()[i]);
        }
        assert forall|i: int| 0 <= i < ts.len() implies (#[trigger] ts[i]).function.parameters.wf() by {
            assert(builtin_matches(ts[i], i));
        }
        let r = ToolRegistry { tools };
        assert(r.names() =~= ts.map_values(|t: Tool| t.function.name@));
        r
    }

    /// All tool definitions.
    pub fn get_all_tools(&self) -> (r: Vec<Tool>)
        ensures
            self.wf(),
            r@.len() == self.tools().len(),
            forall|i: int| 0 <= i < r@.len() ==> (#[trigger] r@[i])@ == self.tools()[i]@,
    {
        proof {
            use_type_invariant(self);
        }
        let mut r: Vec<Tool> = Vec::new();
        let mut i: usize = 0;
        while i < self.tools.len()
            invariant
                i <= self.tools.len(),
                r@.len() == i,
                forall|j: int| 0 <= j < i ==> (#[trigger] r@[j])@ == self.tools@[j]@,
            decreases self.tools.len() - i,
        {
            r.push(self.tools[i].clone());
            i = i + 1;
        }
        r
    }

    /// The tool of the given name.
    pub fn get_tool(&self, name: &str) -> (r: Option<&Tool>)
        ensures
            self.wf(),
            match r {
                Some(t) => t.function.name@ == name@ && exists|i: int|
                    0 <= i < self.tools().len() && self.tools()[i] == *t,
                None => !self.names().contains(name@),
            },
    {
        proof {
            use_type_invariant(self);
        }
        let key = String::from_str(name);
        let mut i: usize = 0;
        while i < self.tools.len()
            invariant
                self.wf(),
                i <= self.tools.len(),
                key@ == name@,
                forall|j: int| 0 <= j < i ==> self.names()[j] != name@,
            decreases self.tools.len() - i,
        {
            if self.tools[i].function.name == key {
                assert(self.tools()[i as int] == self.tools@[i as int]);
                return Some(&self.tools[i]);
            }
            i = i + 1;
        }
        None
    }

    /// Whether a tool of the given name is registered.
    pub fn has_tool(&self, name: &str) -> (b: bool)
        ensures
            self.wf(),
            b == self.names().contains(name@),
    {
        proof {
            use_type_invariant(self);
        }
        match self.get_tool(name) {
            Some(t) => {
                let ghost i = choose|i: int| 0 <= i < self.tools().len() && self.tools()[i] == *t;
                assert(self.names()[i] == name@);
                true
            },
            None => false,
        }
    }

    /// The names of all registered tools.
    pub fn tool_names(&self) -> (r: Vec<&str>)
        ensures
            self.wf(),
            r@.map_values(|s: &str| s@) == self.names(),
    {
        proof {
            use_type_invariant(self);
        }
        let mut r: Vec<&str> = Vec::new();
        let mut i: usize = 0;
        while i < self.tools.len()
            invariant
                i <= self.tools.len(),
                r@.len() == i,
                forall|j: int| 0 <= j < i ==> (#[trigger] r@[j])@ == self.names()[j],
            decreases self.tools.len() - i,
        {
            r.push(self.tools[i].function.name.as_str());
            i = i + 1;
        }
        assert(r@.map_values(|s: &str| s@) =~= self.names());
        r
    }
}

/// In a well-formed registry the three views agree: a name is listed by
/// `tool_names` exactly where `has_tool` holds of it, and then the tool that
/// `get_tool` finds under it is the one `get_all_tools` lists at that name's
/// place, the only tool of that name.
pub proof fn lemma_registry_views_agree(r: ToolRegistry, name: Seq<char>)
    requires
        r.wf(),
    ensures
        r.names().contains(name) ==> {
            let i = r.names().index_of(name);
            &&& 0 <= i < r.tools().len()
            &&& r.tools()[i].function.name@ == name
            &&& forall|j: int|
                0 <= j < r.tools().len() && (#[trigger] r.tools()[j]).function.name@ == name ==> j
                    == i
        },
{
    if r.names().contains(name) {
        let i = r.names().index_of(name);
        assert(r.names()[i] == name);
        assert forall|j: int|
            0 <= j < r.tools().len() && (#[trigger] r.tools()[j]).function.name@ == name implies j
                == i by {
            assert(r.names()[j] == name);
        }
    }
}

impl Default for ToolRegistry {
    fn default() -> (r: Self)
        ensures
            r.wf(),
    {
        Self::new()
    }
}

} // verus!
