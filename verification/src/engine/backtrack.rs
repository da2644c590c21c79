//! Checkpoints, failure records and the correction hypotheses drawn from them.
use vstd::prelude::*;

use crate::json::{json_bool, json_get, json_i64, json_parse, json_str, parse_json, JsonValue};
use crate::engine::graph_xml::{graph_from_xml, graph_snapshot, graph_snapshot_xml, graph_xml_error, reads_as};
use crate::models::edge::EdgeType;
use crate::models::graph::Graph;
use crate::models::node::NodeStatus;
use crate::stamp::{new_uuid, Timestamp};
use crate::text::{chars_of, contains, contains_exec, push_decimal, push_signed_decimal, push_str, signed_decimal, decimal, slice_string, take_chars};

verus! {

/// Why a checkpoint was made.
#[derive(Debug, Clone, Copy, PartialEq, Eq, Structural)]
pub enum CheckpointReason {
    /// A decision of the user.
    UserDecision,
    /// A change of phase.
    PhaseTransition,
    /// Before diverging.
    PreDiverge,
    /// By hand.
    Manual,
    /// Before executing a command.
    PreExecute,
}

/// The text each reason displays.
pub open spec fn reason_text(r: CheckpointReason) -> Seq<char> {
    match r {
        CheckpointReason::UserDecision => "user_decision"@,
        CheckpointReason::PhaseTransition => "phase_transition"@,
        CheckpointReason::PreDiverge => "pre_diverge"@,
        CheckpointReason::Manual => "manual"@,
        CheckpointReason::PreExecute => "pre_execute"@,
    }
}

impl CheckpointReason {
    /// The text the reason displays.
    pub fn to_text(&self) -> (s: &'static str)
        ensures
            s@ == reason_text(*self),
    {
        match self {
            CheckpointReason::UserDecision => "user_decision",
            CheckpointReason::PhaseTransition => "phase_transition",
            CheckpointReason::PreDiverge => "pre_diverge",
            CheckpointReason::Manual => "manual",
            CheckpointReason::PreExecute => "pre_execute",
        }
    }
}

/// A saved state of the graph.
#[derive(Debug)]
pub struct Checkpoint {
    /// Its identifier.
    pub id: String,
    /// The node it hangs on.
    pub node_id: String,
    /// The graph's snapshot.
    pub snapshot: String,
    /// When it was made.
    pub created_at: Timestamp,
    /// Why it was made.
    pub reason: CheckpointReason,
    /// What it is.
    pub description: String,
}

/// A checkpoint as plain values: id, node, snapshot, time, reason and
/// description.
pub type CheckpointView = (
    Seq<char>,
    Seq<char>,
    Seq<char>,
    (Seq<char>, Seq<char>, Seq<char>, Seq<char>),
    CheckpointReason,
    Seq<char>,
);

impl View for Checkpoint {
    type V = CheckpointView;

    open spec fn view(&self) -> CheckpointView {
        (self.id@, self.node_id@, self.snapshot@, self.created_at@, self.reason, self.description@)
    }
}

impl Clone for Checkpoint {
    fn clone(&self) -> (r: Self)
        ensures
            r@ == self@,
    {
        Checkpoint {
            id: self.id.clone(),
            node_id: self.node_id.clone(),
            snapshot: self.snapshot.clone(),
            created_at: self.created_at.copy(),
            reason: self.reason,
            description: self.description.clone(),
        }
    }
}

impl Checkpoint {
    /// A checkpoint with a fresh identifier, made now.
    pub fn new(node_id: String, snapshot: String, reason: CheckpointReason, description: &str) -> (c: Self)
        ensures
            c.id@.len() == 36,
            c.node_id@ == node_id@,
            c.snapshot@ == snapshot@,
            c.reason == reason,
            c.description@ == description@,
    {
        Checkpoint {
            id: new_uuid(),
            node_id,
            snapshot,
            created_at: Timestamp::now(),
            reason,
            description: String::from_str(description),
        }
    }
}

/// Kinds of failure.
#[derive(Debug, Clone, Copy, PartialEq, Eq, Structural)]
pub enum FailurePatternType {
    /// A non-zero exit code.
    ExitNonZero,
    /// The command does not exist.
    CommandNotFound,
    /// The command ran out of time.
    Timeout,
    /// Its output was no valid JSON.
    ParseError,
    /// Any other failure of the execution.
    ExecutionFailed,
    /// A graph node was not found.
    NodeNotFound,
}

/// The text each kind displays.
pub open spec fn pattern_text(t: FailurePatternType) -> Seq<char> {
    match t {
        FailurePatternType::ExitNonZero => "exit_nonzero"@,
        FailurePatternType::CommandNotFound => "command_not_found"@,
        FailurePatternType::Timeout => "timeout"@,
        FailurePatternType::ParseError => "parse_error"@,
        FailurePatternType::ExecutionFailed => "execution_failed"@,
        FailurePatternType::NodeNotFound => "node_not_found"@,
    }
}

/// The name `Debug` gives each kind.
pub open spec fn pattern_debug_name(t: FailurePatternType) -> Seq<char> {
    match t {
        FailurePatternType::ExitNonZero => "ExitNonZero"@,
        FailurePatternType::CommandNotFound => "CommandNotFound"@,
        FailurePatternType::Timeout => "Timeout"@,
        FailurePatternType::ParseError => "ParseError"@,
        FailurePatternType::ExecutionFailed => "ExecutionFailed"@,
        FailurePatternType::NodeNotFound => "NodeNotFound"@,
    }
}

/// The kind a lower-case name stands for; any other name is
/// `ExecutionFailed`.
pub open spec fn pattern_from_lowercase(s: Seq<char>) -> FailurePatternType {
    if s == "exit_nonzero"@ {
        FailurePatternType::ExitNonZero
    } else if s == "command_not_found"@ {
        FailurePatternType::CommandNotFound
    } else if s == "timeout"@ {
        FailurePatternType::Timeout
    } else if s == "parse_error"@ {
        FailurePatternType::ParseError
    } else if s == "execution_failed"@ {
        FailurePatternType::ExecutionFailed
    } else if s == "node_not_found"@ {
        FailurePatternType::NodeNotFound
    } else {
        FailurePatternType::ExecutionFailed
    }
}

/// Each kind's name is ASCII in lower case and reads back as that kind, so
/// `from_str` gives back the kind whose name it is handed, in any case.
pub proof fn lemma_pattern_name_round_trip(k: FailurePatternType)
    ensures
        all_ascii(pattern_text(k)),
        pattern_text(k).map_values(|c: char| ascii_lower_char(c)) == pattern_text(k),
        pattern_from_lowercase(pattern_text(k)) == k,
{
    reveal_strlit("exit_nonzero");
    reveal_strlit("command_not_found");
    reveal_strlit("timeout");
    reveal_strlit("parse_error");
    reveal_strlit("execution_failed");
    reveal_strlit("node_not_found");
    let t = pattern_text(k);
    assert(t.map_values(|c: char| ascii_lower_char(c)) =~= t);
    assert("exit_nonzero"@.len() == 12);
    assert("command_not_found"@.len() == 17);
    assert("timeout"@.len() == 7);
    assert("parse_error"@.len() == 11);
    assert("execution_failed"@.len() == 16);
    assert("node_not_found"@.len() == 14);
}

/// What `str::to_lowercase` returns.
pub uninterp spec fn lowercase(s: Seq<char>) -> Seq<char>;

/// Whether every character of a text is ASCII.
pub open spec fn all_ascii(s: Seq<char>) -> bool {
    forall|i: int| 0 <= i < s.len() ==> (#[trigger] s[i] as int) < 128
}

/// The ASCII lower-case of a character: `A`..`Z` become `a`..`z`, every
/// other character stays.
pub open spec fn ascii_lower_char(c: char) -> char {
    if 'A' <= c && c <= 'Z' {
        ((c as int) + 32) as char
    } else {
        c
    }
}

/// Lower-cases a text with `str::to_lowercase`.
///
/// Claimed: the result is what `lowercase` names for the text (Unicode
/// lower-case mapping, not written out here); on ASCII text, as the
/// documentation of `char::to_lowercase` shows for ASCII, it has the same
/// length and maps `A`..`Z` to `a`..`z`, keeping every other character.
#[verifier::external_body]
pub(crate) fn to_lowercase(s: &str) -> (r: String)
    ensures
        r@ == lowercase(s@),
        all_ascii(s@) ==> r@.len() == s@.len() && forall|i: int|
            0 <= i < s@.len() ==> #[trigger] r@[i] == ascii_lower_char(s@[i]),
{
    s.to_lowercase()
}

impl FailurePatternType {
    /// The kind a name stands for, compared case-insensitively (see
    /// `pattern_from_lowercase`).
    pub fn from_str(s: &str) -> (t: Self)
        ensures
            t == pattern_from_lowercase(lowercase(s@)),
            all_ascii(s@) ==> t == pattern_from_lowercase(s@.map_values(|c: char| ascii_lower_char(c))),
    {
        let lower = to_lowercase(s);
        proof {
            if all_ascii(s@) {
                assert(lower@ =~= s@.map_values(|c: char| ascii_lower_char(c)));
            }
        }
        Self::from_lowercase(lower.as_str())
    }

    /// The kind a lower-case name stands for.
    pub fn from_lowercase(s: &str) -> (t: Self)
        ensures
            t == pattern_from_lowercase(s@),
    {
        let k = String::from_str(s);
        if k == String::from_str("exit_nonzero") {
            FailurePatternType::ExitNonZero
        } else if k == String::from_str("command_not_found") {
            FailurePatternType::CommandNotFound
        } else if k == String::from_str("timeout") {
            FailurePatternType::Timeout
        } else if k == String::from_str("parse_error") {
            FailurePatternType::ParseError
        } else if k == String::from_str("execution_failed") {
            FailurePatternType::ExecutionFailed
        } else if k == String::from_str("node_not_found") {
            FailurePatternType::NodeNotFound
        } else {
            FailurePatternType::ExecutionFailed
        }
    }

    /// The text the kind displays.
    pub fn to_text(&self) -> (s: &'static str)
        ensures
            s@ == pattern_text(*self),
    {
        match self {
            FailurePatternType::ExitNonZero => "exit_nonzero",
            FailurePatternType::CommandNotFound => "command_not_found",
            FailurePatternType::Timeout => "timeout",
            FailurePatternType::ParseError => "parse_error",
            FailurePatternType::ExecutionFailed => "execution_failed",
            FailurePatternType::NodeNotFound => "node_not_found",
        }
    }

    /// The kind's name, as `Debug` writes it.
    pub fn debug_name(&self) -> (s: &'static str)
        ensures
            s@ == pattern_debug_name(*self),
    {
        match self {
            FailurePatternType::ExitNonZero => "ExitNonZero",
            FailurePatternType::CommandNotFound => "CommandNotFound",
            FailurePatternType::Timeout => "Timeout",
            FailurePatternType::ParseError => "ParseError",
            FailurePatternType::ExecutionFailed => "ExecutionFailed",
            FailurePatternType::NodeNotFound => "NodeNotFound",
        }
    }
}

/// A recorded failure.
#[derive(Debug)]
pub struct FailurePattern {
    /// Its identifier.
    pub id: String,
    /// Its kind.
    pub pattern_type: FailurePatternType,
    /// The command concerned.
    pub command: String,
    /// The exit code.
    pub exit_code: Option<i32>,
    /// The error output.
    pub stderr: String,
    /// The node in context.
    pub context_node_id: String,
    /// When it happened.
    pub occurred_at: Timestamp,
}

/// A failure as plain values: id, kind, command, exit code, error output,
/// node and time.
pub type FailureView = (
    Seq<char>,
    FailurePatternType,
    Seq<char>,
    Option<i32>,
    Seq<char>,
    Seq<char>,
    (Seq<char>, Seq<char>, Seq<char>, Seq<char>),
);

impl View for FailurePattern {
    type V = FailureView;

    open spec fn view(&self) -> FailureView {
        (
            self.id@,
            self.pattern_type,
            self.command@,
            self.exit_code,
            self.stderr@,
            self.context_node_id@,
            self.occurred_at@,
        )
    }
}

impl Clone for FailurePattern {
    fn clone(&self) -> (r: Self)
        ensures
            r@ == self@,
    {
        FailurePattern {
            id: self.id.clone(),
            pattern_type: self.pattern_type,
            command: self.command.clone(),
            exit_code: self.exit_code,
            stderr: self.stderr.clone(),
            context_node_id: self.context_node_id.clone(),
            occurred_at: self.occurred_at.copy(),
        }
    }
}

impl FailurePattern {
    /// A failure record with a fresh identifier, made now.
    pub fn new(
        pattern_type: FailurePatternType,
        command: String,
        exit_code: Option<i32>,
        stderr: String,
        context_node_id: String,
    ) -> (f: Self)
        ensures
            f.id@.len() == 36,
            f.pattern_type == pattern_type,
            f.command@ == command@,
            f.exit_code == exit_code,
            f.stderr@ == stderr@,
            f.context_node_id@ == context_node_id@,
    {
        FailurePattern {
            id: new_uuid(),
            pattern_type,
            command,
            exit_code,
            stderr,
            context_node_id,
            occurred_at: Timestamp::now(),
        }
    }
}

/// A hypothesis about what caused a failure and how to correct it.
#[derive(Debug)]
pub struct CorrectionHypothesis {
    /// Its identifier.
    pub id: String,
    /// The failure it explains.
    pub original_failure: String,
    /// The supposed cause.
    pub hypothesis: String,
    /// The suggested correction.
    pub suggested_action: String,
    /// The confidence, in hundredths (0 to 100).
    pub confidence: u32,
}

/// A hypothesis as plain values, without its identifier: the failure, the
/// cause, the correction and the confidence in hundredths.
pub type HypothesisView = (Seq<char>, Seq<char>, Seq<char>, u32);

impl View for CorrectionHypothesis {
    type V = HypothesisView;

    open spec fn view(&self) -> HypothesisView {
        (self.original_failure@, self.hypothesis@, self.suggested_action@, self.confidence)
    }
}

/// The hypotheses for a failure, by its kind; then, when there is error
/// output and the command was not missing, one more on its first 100
/// characters.
pub open spec fn hypotheses_spec(f: FailureView) -> Seq<HypothesisView> {
    let (pattern_type, command, exit_code, stderr, node) = (f.1, f.2, f.3, f.4, f.5);
    let base: Seq<HypothesisView> = match pattern_type {
        FailurePatternType::CommandNotFound => seq![
            ("命令不存在: "@ + command, "命令未安裝或不在 PATH 中"@, "使用 which "@ + command
                + " 確認命令是否存在，或安裝必要的工具"@, 90u32),
            ("命令不存在: "@ + command, "命令名稱拼寫錯誤"@,
                "檢查命令拼寫是否正確，嘗試使用 which 或 type 查找正確名稱"@, 60u32),
        ],
        FailurePatternType::ExitNonZero => {
            let exit: int = match exit_code {
                Some(c) => c as int,
                None => -1,
            };
            let original = "命令執行失敗，exit code: "@ + signed_decimal(exit);
            let first: HypothesisView = (
                original,
                "命令執行失敗，可能是參數錯誤或輸入資料有問題（exit="@ + signed_decimal(exit) + "）"@,
                "檢查命令參數是否正確，確認 stderr 輸出內容"@,
                80u32,
            );
            if exit == 127 {
                seq![first, (original, "exit code 127 = 命令不存在"@, "確認命令已安裝且在 PATH 中"@, 95u32)]
            } else if exit == 1 {
                seq![
                    first,
                    (original, "exit code 1 = 一般錯誤，可能需要檢查輸出"@,
                        "查看 stdout/stderr 輸出來確定錯誤原因"@, 70u32),
                ]
            } else {
                seq![first]
            }
        },
        FailurePatternType::Timeout => seq![
            ("命令逾時: "@ + command, "命令執行時間超過設定的逾時時間"@,
                "增加 timeout_ms 參數，或檢查命令是否陷入無限迴圈"@, 95u32),
        ],
        FailurePatternType::ParseError => seq![
            ("JSON 解析失敗"@, "命令輸出不是有效的 JSON 格式"@,
                "將 parse_mode 改為 'text'，或使用 jq 等工具處理輸出"@, 90u32),
            ("JSON 解析失敗"@, "輸出可能包含非 UTF-8 字元或空白字元問題"@,
                "嘗試先 echo 或 cat 查看原始輸出"@, 50u32),
        ],
        FailurePatternType::ExecutionFailed => seq![
            ("執行失敗: "@ + command, "可能是權限不足或路徑問題"@,
                "檢查檔案權限、工作目錄和路徑是否正確"@, 70u32),
        ],
        FailurePatternType::NodeNotFound => seq![
            ("節點不存在: "@ + node, "嘗試操作的節點 ID 不存在於當前 graph 中"@,
                "使用 status 工具確認目前的節點結構"@, 95u32),
        ],
    };
    if stderr.len() > 0 && pattern_type != FailurePatternType::CommandNotFound {
        let snippet = take_chars(stderr, 100);
        base.push(("stderr: "@ + snippet, "錯誤訊息提示: "@ + snippet, "根據 stderr 內容調整命令或參數"@, 85u32))
    } else {
        base
    }
}

/// A string made of two parts.
fn concat2(a: &str, b: &str) -> (s: String)
    ensures
        s@ == a@ + b@,
{
    let mut s = String::from_str(a);
    push_str(&mut s, b);
    s
}

/// A hypothesis with a fresh identifier.
fn make_hypothesis(original_failure: String, hypothesis: String, suggested_action: String, confidence: u32) -> (h:
    CorrectionHypothesis)
    ensures
        h@ == (original_failure@, hypothesis@, suggested_action@, confidence),
        h.id@.len() == 36,
{
    CorrectionHypothesis { id: new_uuid(), original_failure, hypothesis, suggested_action, confidence }
}

/// The first `n` characters of a text.
pub fn take_chars_string(s: &str, n: usize) -> (r: String)
    ensures
        r@ == take_chars(s@, n as nat),
{
    let v = chars_of(s);
    let end = if n < v.len() {
        n
    } else {
        v.len()
    };
    let r = slice_string(v.as_slice(), 0, end);
    assert(r@ =~= take_chars(s@, n as nat));
    r
}

impl CorrectionHypothesis {
    /// The hypotheses for a failure (see `hypotheses_spec`), each with a
    /// fresh identifier.
    pub fn generate(pattern: &FailurePattern) -> (r: Vec<Self>)
        ensures
            r@.map_values(|h: CorrectionHypothesis| h@) == hypotheses_spec(pattern@),
            forall|i: int| 0 <= i < r@.len() ==> (#[trigger] r@[i]).id@.len() == 36,
    {
        let mut hs: Vec<CorrectionHypothesis> = Vec::new();
        let cmd = pattern.command.as_str();
        match pattern.pattern_type {
            FailurePatternType::CommandNotFound => {
                let mut action = concat2("使用 which ", cmd);
                push_str(&mut action, " 確認命令是否存在，或安裝必要的工具");
                hs.push(make_hypothesis(concat2("命令不存在: ", cmd), String::from_str("命令未安裝或不在 PATH 中"), action, 90));
                hs.push(
                    make_hypothesis(
                        concat2("命令不存在: ", cmd),
                        String::from_str("命令名稱拼寫錯誤"),
                        String::from_str("檢查命令拼寫是否正確，嘗試使用 which 或 type 查找正確名稱"),
                        60,
                    ),
                );
            },
            FailurePatternType::ExitNonZero => {
                let exit: i32 = match pattern.exit_code {
                    Some(c) => c,
                    None => -1,
                };
                let mut original = String::from_str("命令執行失敗，exit code: ");
                push_signed_decimal(&mut original, exit as i64);
                let mut text = String::from_str("命令執行失敗，可能是參數錯誤或輸入資料有問題（exit=");
                push_signed_decimal(&mut text, exit as i64);
                push_str(&mut text, "）");
                hs.push(
                    make_hypothesis(
                        original.clone(),
                        text,
                        String::from_str("檢查命令參數是否正確，確認 stderr 輸出內容"),
                        80,
                    ),
                );
                if exit == 127 {
                    hs.push(
                        make_hypothesis(
                            original.clone(),
                            String::from_str("exit code 127 = 命令不存在"),
                            String::from_str("確認命令已安裝且在 PATH 中"),
                            95,
                        ),
                    );
                } else if exit == 1 {
                    hs.push(
                        make_hypothesis(
                            original.clone(),
                            String::from_str("exit code 1 = 一般錯誤，可能需要檢查輸出"),
                            String::from_str("查看 stdout/stderr 輸出來確定錯誤原因"),
                            70,
                        ),
                    );
                }
            },
            FailurePatternType::Timeout => {
                hs.push(
                    make_hypothesis(
                        concat2("命令逾時: ", cmd),
                        String::from_str("命令執行時間超過設定的逾時時間"),
                        String::from_str("增加 timeout_ms 參數，或檢查命令是否陷入無限迴圈"),
                        95,
                    ),
                );
            },
            FailurePatternType::ParseError => {
                hs.push(
                    make_hypothesis(
                        String::from_str("JSON 解析失敗"),
                        String::from_str("命令輸出不是有效的 JSON 格式"),
                        String::from_str("將 parse_mode 改為 'text'，或使用 jq 等工具處理輸出"),
                        90,
                    ),
                );
                hs.push(
                    make_hypothesis(
                        String::from_str("JSON 解析失敗"),
                        String::from_str("輸出可能包含非 UTF-8 字元或空白字元問題"),
                        String::from_str("嘗試先 echo 或 cat 查看原始輸出"),
                        50,
                    ),
                );
            },
            FailurePatternType::ExecutionFailed => {
                hs.push(
                    make_hypothesis(
                        concat2("執行失敗: ", cmd),
                        String::from_str("可能是權限不足或路徑問題"),
                        String::from_str("檢查檔案權限、工作目錄和路徑是否正確"),
                        70,
                    ),
                );
            },
            FailurePatternType::NodeNotFound => {
                hs.push(
                    make_hypothesis(
                        concat2("節點不存在: ", pattern.context_node_id.as_str()),
                        String::from_str("嘗試操作的節點 ID 不存在於當前 graph 中"),
                        String::from_str("使用 status 工具確認目前的節點結構"),
                        95,
                    ),
                );
            },
        }
        if !pattern.stderr.as_str().is_empty() && pattern.pattern_type != FailurePatternType::CommandNotFound {
            let snippet = take_chars_string(pattern.stderr.as_str(), 100);
            hs.push(
                make_hypothesis(
                    concat2("stderr: ", snippet.as_str()),
                    concat2("錯誤訊息提示: ", snippet.as_str()),
                    String::from_str("根據 stderr 內容調整命令或參數"),
                    85,
                ),
            );
        }
        assert(hs@.map_values(|h: CorrectionHypothesis| h@) =~= hypotheses_spec(pattern@));
        hs
    }
}

/// The kind, command, exit code and error output of a failed execution
/// result; nothing when the result reports success.
///
/// The kind is `CommandNotFound` when the error message mentions "無法執行"
/// or "No such file", `Timeout` when it mentions "timeout" or "逾時", and
/// otherwise `ExitNonZero` unless the exit code is zero with no error output
/// (`ExecutionFailed`).
pub open spec fn classify_spec(v: JsonValue) -> Option<(FailurePatternType, Seq<char>, Option<i32>, Seq<char>)> {
    let success = match json_get(v, "success"@) {
        Some(x) => match json_bool(x) {
            Some(b) => b,
            None => false,
        },
        None => false,
    };
    let text_of = |key: Seq<char>|
        match json_get(v, key) {
            Some(x) => match json_str(x) {
                Some(t) => t,
                None => Seq::empty(),
            },
            None => Seq::empty(),
        };
    let exit_code: Option<i32> = match json_get(v, "exit_code"@) {
        Some(x) => match json_i64(x) {
            Some(i) => Some(i as i32),
            None => None,
        },
        None => None,
    };
    let command = text_of("command"@);
    let stderr = text_of("stderr"@);
    let error_msg = text_of("error"@);
    if success {
        None
    } else {
        let kind = if contains(error_msg, "無法執行"@) || contains(error_msg, "No such file"@) {
            FailurePatternType::CommandNotFound
        } else if contains(error_msg, "timeout"@) || contains(error_msg, "逾時"@) {
            FailurePatternType::Timeout
        } else if exit_code == Some(0i32) && stderr.len() > 0 {
            FailurePatternType::ExitNonZero
        } else if match exit_code {
            Some(c) => c != 0,
            None => true,
        } {
            FailurePatternType::ExitNonZero
        } else {
            FailurePatternType::ExecutionFailed
        };
        Some((kind, command, exit_code, stderr))
    }
}

/// A failed execution whose error message says the program could not be
/// found or run (it mentions "No such file", as the execute tool's report
/// of a command that cannot be started does, or "無法執行") is classified
/// as a missing command, whatever its exit code and other members; the
/// command and error output recorded are the result's own.
pub proof fn lemma_missing_command_classified(v: JsonValue, error: Seq<char>)
    requires
        !(json_get(v, "success"@) matches Some(x) && json_bool(x) == Some(true)),
        json_get(v, "error"@) matches Some(x) && json_str(x) == Some(error),
        contains(error, "No such file"@) || contains(error, "無法執行"@),
    ensures
        classify_spec(v) matches Some((k, c, _e, s)) && k == FailurePatternType::CommandNotFound && c == (
            match json_get(v, "command"@) {
                Some(x) => match json_str(x) {
                    Some(t) => t,
                    None => Seq::empty(),
                },
                None => Seq::empty(),
            }) && s == (
            match json_get(v, "stderr"@) {
                Some(x) => match json_str(x) {
                    Some(t) => t,
                    None => Seq::empty(),
                },
                None => Seq::empty(),
            }),
{
}

/// How a failed execution is classified when its error message names no
/// missing program: a timeout where the message mentions "timeout" or
/// "逾時"; otherwise a non-zero exit where the exit code is missing or not
/// zero, or where it is zero but there is error output; and an execution
/// failure only for exit code zero with no error output. The exit code
/// recorded is the result's own.
pub proof fn lemma_failure_kinds(v: JsonValue, error: Seq<char>, stderr: Seq<char>)
    requires
        !(json_get(v, "success"@) matches Some(x) && json_bool(x) == Some(true)),
        match json_get(v, "error"@) {
            Some(x) => match json_str(x) {
                Some(t) => t == error,
                None => error == Seq::<char>::empty(),
            },
            None => error == Seq::<char>::empty(),
        },
        match json_get(v, "stderr"@) {
            Some(x) => match json_str(x) {
                Some(t) => t == stderr,
                None => stderr == Seq::<char>::empty(),
            },
            None => stderr == Seq::<char>::empty(),
        },
        !contains(error, "No such file"@),
        !contains(error, "無法執行"@),
    ensures
        classify_spec(v) matches Some((k, _c, e, s)) && s == stderr && e == (match json_get(v, "exit_code"@) {
            Some(x) => match json_i64(x) {
                Some(i) => Some(i as i32),
                None => None,
            },
            None => None,
        }) && (if contains(error, "timeout"@) || contains(error, "逾時"@) {
            k == FailurePatternType::Timeout
        } else if e == Some(0i32) && stderr.len() == 0 {
            k == FailurePatternType::ExecutionFailed
        } else {
            k == FailurePatternType::ExitNonZero
        }),
{
}

/// A result that reports success records no failure.
pub proof fn lemma_success_not_classified(v: JsonValue)
    requires
        json_get(v, "success"@) matches Some(x) && json_bool(x) == Some(true),
    ensures
        classify_spec(v) is None,
{
}

/// The text of a string member, or nothing.
fn member_text(v: &JsonValue, key: &str) -> (r: String)
    ensures
        r@ == match json_get(*v, key@) {
            Some(x) => match json_str(x) {
                Some(t) => t,
                None => Seq::<char>::empty(),
            },
            None => Seq::<char>::empty(),
        },
{
    match v.get(key) {
        Some(x) => match x.as_str() {
            Some(t) => String::from_str(t),
            None => String::new(),
        },
        None => String::new(),
    }
}

/// Whether a text mentions a phrase.
fn mentions(text: &String, phrase: &str) -> (b: bool)
    ensures
        b == contains(text@, phrase@),
{
    let t = chars_of(text.as_str());
    let p = chars_of(phrase);
    contains_exec(t.as_slice(), p.as_slice())
}

/// Classifies a parsed execution result (see `classify_spec`).
pub fn classify_execute_result(v: &JsonValue) -> (r: Option<(FailurePatternType, String, Option<i32>, String)>)
    ensures
        match r {
            Some((k, c, e, s)) => classify_spec(*v) == Some((k, c@, e, s@)),
            None => classify_spec(*v) is None,
        },
{
    let success = match v.get("success") {
        Some(x) => match x.as_bool() {
            Some(b) => b,
            None => false,
        },
        None => false,
    };
    let exit_code: Option<i32> = match v.get("exit_code") {
        Some(x) => match x.as_i64() {
            Some(i) => Some(#[verifier::truncate] (i as i32)),
            None => None,
        },
        None => None,
    };
    let command = member_text(v, "command");
    let stderr = member_text(v, "stderr");
    let error_msg = member_text(v, "error");
    if success {
        return None;
    }
    let kind = if mentions(&error_msg, "無法執行") || mentions(&error_msg, "No such file") {
        FailurePatternType::CommandNotFound
    } else if mentions(&error_msg, "timeout") || mentions(&error_msg, "逾時") {
        FailurePatternType::Timeout
    } else if exit_code == Some(0i32) && !stderr.as_str().is_empty() {
        FailurePatternType::ExitNonZero
    } else if match exit_code {
        Some(c) => c != 0,
        None => true,
    } {
        FailurePatternType::ExitNonZero
    } else {
        FailurePatternType::ExecutionFailed
    };
    Some((kind, command, exit_code, stderr))
}

/// Checkpoints and failure history.
#[derive(Debug)]
pub struct BacktrackManager {
    checkpoints: Vec<Checkpoint>,
    failure_history: Vec<FailurePattern>,
}

/// The checkpoints of a list, as plain values.
pub open spec fn checkpoint_views(v: Seq<Checkpoint>) -> Seq<CheckpointView> {
    v.map_values(|c: Checkpoint| c@)
}

/// The failures of a list, as plain values.
pub open spec fn failure_views(v: Seq<FailurePattern>) -> Seq<FailureView> {
    v.map_values(|f: FailurePattern| f@)
}

/// How `Debug` writes an optional exit code.
pub open spec fn exit_debug(e: Option<i32>) -> Seq<char> {
    match e {
        Some(c) => "Some("@ + signed_decimal(c as int) + ")"@,
        None => "None"@,
    }
}

/// The prompt line of the checkpoint at index `i`.
pub open spec fn checkpoint_line(i: int, c: CheckpointView) -> Seq<char> {
    decimal((i + 1) as nat) + ". ["@ + take_chars(c.0, 8) + "] "@ + c.1 + " - "@ + reason_text(c.4)
        + " ("@ + c.3.2 + ")\n"@
}

/// The prompt line of the failure at index `i`.
pub open spec fn failure_line(i: int, f: FailureView) -> Seq<char> {
    decimal((i + 1) as nat) + ". ["@ + take_chars(f.0, 8) + "] "@ + pattern_debug_name(f.1)
        + " - exit="@ + exit_debug(f.3) + " @ "@ + f.5 + "\n"@
}

/// The lines of the most recent checkpoints, newest first, at most five,
/// from the `j`-th newest on.
pub open spec fn recent_checkpoint_lines(v: Seq<CheckpointView>, j: int) -> Seq<char>
    decreases 5 - j,
{
    if j < 0 || j >= 5 || j >= v.len() {
        Seq::empty()
    } else {
        checkpoint_line(v.len() - 1 - j, v[v.len() - 1 - j]) + recent_checkpoint_lines(v, j + 1)
    }
}

/// The lines of the most recent failures, newest first, at most five, from
/// the `j`-th newest on.
pub open spec fn recent_failure_lines(v: Seq<FailureView>, j: int) -> Seq<char>
    decreases 5 - j,
{
    if j < 0 || j >= 5 || j >= v.len() {
        Seq::empty()
    } else {
        failure_line(v.len() - 1 - j, v[v.len() - 1 - j]) + recent_failure_lines(v, j + 1)
    }
}

/// The summary of checkpoints and failures written into the model's prompt.
pub open spec fn backtrack_prompt(cps: Seq<CheckpointView>, fs: Seq<FailureView>) -> Seq<char> {
    let a = if cps.len() > 0 {
        "## 檢查點歷史\n"@ + recent_checkpoint_lines(cps, 0) + "\n"@
    } else {
        Seq::empty()
    };
    let b = if fs.len() > 0 {
        "## 失敗歷史\n"@ + recent_failure_lines(fs, 0) + "\n"@
    } else {
        Seq::empty()
    };
    if a + b == Seq::<char>::empty() {
        "（尚無檢查點或失敗記錄）\n"@
    } else {
        a + b
    }
}

/// The first 8 characters of an identifier.
fn short_id(id: &String) -> (r: String)
    ensures
        r@ == take_chars(id@, 8),
{
    take_chars_string(id.as_str(), 8)
}

impl BacktrackManager {
    /// The checkpoints, oldest first.
    pub closed spec fn checkpoints_spec(&self) -> Seq<CheckpointView> {
        checkpoint_views(self.checkpoints@)
    }

    /// The failures, oldest first.
    pub closed spec fn failures_spec(&self) -> Seq<FailureView> {
        failure_views(self.failure_history@)
    }

    /// An empty manager.
    pub fn new() -> (m: Self)
        ensures
            m.checkpoints_spec() == Seq::<CheckpointView>::empty(),
            m.failures_spec() == Seq::<FailureView>::empty(),
    {
        let m = BacktrackManager { checkpoints: Vec::new(), failure_history: Vec::new() };
        assert(m.checkpoints_spec() =~= Seq::<CheckpointView>::empty());
        assert(m.failures_spec() =~= Seq::<FailureView>::empty());
        m
    }

    /// Records a checkpoint with the snapshot of a graph and returns it.
    pub fn create_checkpoint(
        &mut self,
        node_id: String,
        graph: &Graph,
        reason: CheckpointReason,
        description: &str,
    ) -> (c: Checkpoint)
        ensures
            c.node_id@ == node_id@,
            c.snapshot@ == graph_snapshot(*graph),
            c.reason == reason,
            c.description@ == description@,
            c.id@.len() == 36,
            final(self).checkpoints_spec() == old(self).checkpoints_spec().push(c@),
            final(self).failures_spec() == old(self).failures_spec(),
    {
        let snapshot = graph_snapshot_xml(graph);
        let checkpoint = Checkpoint::new(node_id, snapshot, reason, description);
        let copy = checkpoint.clone();
        self.checkpoints.push(copy);
        assert(self.checkpoints_spec() =~= old(self).checkpoints_spec().push(checkpoint@));
        checkpoint
    }

    /// The checkpoints, oldest first.
    pub fn get_checkpoints(&self) -> (r: &[Checkpoint])
        ensures
            checkpoint_views(r@) == self.checkpoints_spec(),
    {
        self.checkpoints.as_slice()
    }

    /// The first checkpoint of the given identifier.
    pub fn get_checkpoint(&self, id: &str) -> (r: Option<&Checkpoint>)
        ensures
            match r {
                Some(c) => c.id@ == id@ && exists|i: int|
                    0 <= i < self.checkpoints_spec().len() && self.checkpoints_spec()[i] == c@
                        && forall|j: int| 0 <= j < i ==> self.checkpoints_spec()[j].0 != id@,
                None => forall|i: int|
                    0 <= i < self.checkpoints_spec().len() ==> self.checkpoints_spec()[i].0 != id@,
            },
    {
        let key = String::from_str(id);
        let mut i: usize = 0;
        while i < self.checkpoints.len()
            invariant
                i <= self.checkpoints@.len(),
                key@ == id@,
                forall|j: int| 0 <= j < i ==> self.checkpoints_spec()[j].0 != id@,
            decreases self.checkpoints.len() - i,
        {
            if self.checkpoints[i].id == key {
                assert(self.checkpoints_spec()[i as int] == self.checkpoints@[i as int]@);
                return Some(&self.checkpoints[i]);
            }
            i = i + 1;
        }
        None
    }

    /// The graph of the first checkpoint with an identifier, read back
    /// from its snapshot; `None` when there is no such checkpoint or its
    /// snapshot cannot be read.
    pub fn restore_from_checkpoint(&self, checkpoint_id: &str) -> (r: Option<Graph>)
        ensures
            match r {
                Some(g) => exists|i: int|
                    0 <= i < self.checkpoints_spec().len() && self.checkpoints_spec()[i].0
                        == checkpoint_id@ && (forall|j: int|
                        0 <= j < i ==> self.checkpoints_spec()[j].0 != checkpoint_id@) && reads_as(
                        #[trigger] self.checkpoints_spec()[i].2,
                        g,
                    ) && graph_xml_error(self.checkpoints_spec()[i].2) is None,
                None => (forall|i: int|
                    0 <= i < self.checkpoints_spec().len() ==> self.checkpoints_spec()[i].0
                        != checkpoint_id@) || exists|i: int|
                    0 <= i < self.checkpoints_spec().len() && self.checkpoints_spec()[i].0
                        == checkpoint_id@ && (forall|j: int|
                        0 <= j < i ==> self.checkpoints_spec()[j].0 != checkpoint_id@)
                        && graph_xml_error(#[trigger] self.checkpoints_spec()[i].2) is Some,
            },
    {
        match self.get_checkpoint(checkpoint_id) {
            Some(c) => {
                let ghost i = choose|i: int|
                    0 <= i < self.checkpoints_spec().len() && self.checkpoints_spec()[i] == c@
                        && forall|j: int|
                        0 <= j < i ==> self.checkpoints_spec()[j].0 != checkpoint_id@;
                assert(self.checkpoints_spec()[i].2 == c.snapshot@);
                match graph_from_xml(c.snapshot.as_str()) {
                    Ok(g) => Some(g),
                    Err(_) => None,
                }
            },
            None => None,
        }
    }

    /// The graph of the last checkpoint, read back from its snapshot;
    /// `None` without checkpoints or when the snapshot cannot be read.
    pub fn restore_last_checkpoint(&self) -> (r: Option<Graph>)
        ensures
            match r {
                Some(g) => self.checkpoints_spec().len() > 0 && reads_as(
                    self.checkpoints_spec().last().2,
                    g,
                ),
                None => self.checkpoints_spec().len() == 0 || graph_xml_error(
                    self.checkpoints_spec().last().2,
                ) is Some,
            },
    {
        match self.get_last_checkpoint() {
            Some(c) => match graph_from_xml(c.snapshot.as_str()) {
                Ok(g) => Some(g),
                Err(_) => None,
            },
            None => None,
        }
    }

    /// The most recent checkpoint.
    pub fn get_last_checkpoint(&self) -> (r: Option<&Checkpoint>)
        ensures
            match r {
                Some(c) => self.checkpoints_spec().len() > 0 && c@ == self.checkpoints_spec().last(),
                None => self.checkpoints_spec().len() == 0,
            },
    {
        if self.checkpoints.len() == 0 {
            None
        } else {
            Some(&self.checkpoints[self.checkpoints.len() - 1])
        }
    }

    /// Records a failure.
    pub fn record_failure(&mut self, failure: FailurePattern)
        ensures
            final(self).failures_spec() == old(self).failures_spec().push(failure@),
            final(self).checkpoints_spec() == old(self).checkpoints_spec(),
    {
        let ghost f = failure@;
        self.failure_history.push(failure);
        assert(self.failures_spec() =~= old(self).failures_spec().push(f));
    }

    /// Reads an execution result (JSON) and records the failure it reports,
    /// if any (see `classify_spec`); nothing is recorded for text that is no
    /// valid JSON or for a successful result.
    pub fn record_execute_failure(&mut self, context_node_id: String, execute_result_json: &str) -> (r:
        Option<FailurePattern>)
        ensures
            final(self).checkpoints_spec() == old(self).checkpoints_spec(),
            match json_parse(execute_result_json@) {
                None => r is None && final(self).failures_spec() == old(self).failures_spec(),
                Some(v) => match classify_spec(v) {
                    None => r is None && final(self).failures_spec() == old(self).failures_spec(),
                    Some((k, c, e, s)) => r is Some && r->0.pattern_type == k && r->0.command@ == c
                        && r->0.exit_code == e && r->0.stderr@ == s && r->0.context_node_id@
                        == context_node_id@ && final(self).failures_spec() == old(
                        self,
                    ).failures_spec().push(r->0@),
                },
            },
    {
        let v = match parse_json(execute_result_json) {
            Some(v) => v,
            None => return None,
        };
        match classify_execute_result(&v) {
            None => None,
            Some((kind, command, exit_code, stderr)) => {
                let failure = FailurePattern::new(kind, command, exit_code, stderr, context_node_id);
                let copy = failure.clone();
                self.record_failure(copy);
                Some(failure)
            },
        }
    }

    /// The hypotheses for the most recent failure; none without failures.
    pub fn get_hypotheses_for_last_failure(&self) -> (r: Vec<CorrectionHypothesis>)
        ensures
            r@.map_values(|h: CorrectionHypothesis| h@) == if self.failures_spec().len() > 0 {
                hypotheses_spec(self.failures_spec().last())
            } else {
                Seq::<HypothesisView>::empty()
            },
    {
        if self.failure_history.len() == 0 {
            let r: Vec<CorrectionHypothesis> = Vec::new();
            assert(r@.map_values(|h: CorrectionHypothesis| h@) =~= Seq::<HypothesisView>::empty());
            r
        } else {
            let last = &self.failure_history[self.failure_history.len() - 1];
            CorrectionHypothesis::generate(last)
        }
    }

    /// The hypotheses for the first failure of the given identifier; none
    /// when there is no such failure.
    pub fn get_hypotheses(&self, failure_id: &str) -> (r: Vec<CorrectionHypothesis>)
        ensures
            (exists|i: int| 0 <= i < self.failures_spec().len() && self.failures_spec()[i].0 == failure_id@
                && (forall|j: int| 0 <= j < i ==> self.failures_spec()[j].0 != failure_id@)
                && r@.map_values(|h: CorrectionHypothesis| h@) == hypotheses_spec(self.failures_spec()[i]))
            || ((forall|i: int|
                0 <= i < self.failures_spec().len() ==> self.failures_spec()[i].0 != failure_id@)
                && r@.len() == 0),
    {
        let key = String::from_str(failure_id);
        let mut i: usize = 0;
        while i < self.failure_history.len()
            invariant
                i <= self.failure_history@.len(),
                key@ == failure_id@,
                forall|j: int| 0 <= j < i ==> self.failures_spec()[j].0 != failure_id@,
            decreases self.failure_history.len() - i,
        {
            if self.failure_history[i].id == key {
                assert(self.failures_spec()[i as int] == self.failure_history@[i as int]@);
                return CorrectionHypothesis::generate(&self.failure_history[i]);
            }
            i = i + 1;
        }
        Vec::new()
    }

    /// The failures, oldest first.
    pub fn get_failure_history(&self) -> (r: &[FailurePattern])
        ensures
            failure_views(r@) == self.failures_spec(),
    {
        self.failure_history.as_slice()
    }

    /// The number of failures.
    pub fn failure_count(&self) -> (n: usize)
        ensures
            n == self.failures_spec().len(),
    {
        self.failure_history.len()
    }

    /// The number of checkpoints.
    pub fn checkpoint_count(&self) -> (n: usize)
        ensures
            n == self.checkpoints_spec().len(),
    {
        self.checkpoints.len()
    }

    /// Forgets all checkpoints.
    pub fn clear_checkpoints(&mut self)
        ensures
            final(self).checkpoints_spec() == Seq::<CheckpointView>::empty(),
            final(self).failures_spec() == old(self).failures_spec(),
    {
        self.checkpoints.clear();
        assert(self.checkpoints_spec() =~= Seq::<CheckpointView>::empty());
    }

    /// The summary written into the model's prompt (see `backtrack_prompt`).
    pub fn format_for_prompt(&self) -> (s: String)
        ensures
            s@ == backtrack_prompt(self.checkpoints_spec(), self.failures_spec()),
    {
        let mut result = String::new();
        let ghost cps = self.checkpoints_spec();
        let ghost fs = self.failures_spec();
        assert(cps.len() == self.checkpoints@.len());
        assert(fs.len() == self.failure_history@.len());
        if self.checkpoints.len() > 0 {
            push_str(&mut result, "## 檢查點歷史\n");
            let ghost h = result@;
            push_checkpoint_lines(&mut result, &self.checkpoints);
            push_str(&mut result, "\n");
            assert(result@ =~= h + recent_checkpoint_lines(cps, 0) + "\n"@);
        }
        let ghost a = if cps.len() > 0 {
            "## 檢查點歷史\n"@ + recent_checkpoint_lines(cps, 0) + "\n"@
        } else {
            Seq::<char>::empty()
        };
        assert(result@ =~= a);
        let ghost before_b = result@;
        if self.failure_history.len() > 0 {
            push_str(&mut result, "## 失敗歷史\n");
            let ghost h = result@;
            push_failure_lines(&mut result, &self.failure_history);
            push_str(&mut result, "\n");
            assert(result@ =~= h + recent_failure_lines(fs, 0) + "\n"@);
        }
        let ghost b = if fs.len() > 0 {
            "## 失敗歷史\n"@ + recent_failure_lines(fs, 0) + "\n"@
        } else {
            Seq::<char>::empty()
        };
        assert(result@ =~= a + b);
        if result.as_str().is_empty() {
            push_str(&mut result, "（尚無檢查點或失敗記錄）\n");
            assert(a + b =~= Seq::<char>::empty());
        }
        result
    }
}

/// Appends the prompt line of a checkpoint.
fn push_checkpoint_line(result: &mut String, i: usize, cp: &Checkpoint)
    requires
        i < usize::MAX,
    ensures
        final(result)@ == old(result)@ + checkpoint_line(i as int, cp@),
{
    push_decimal(result, (i + 1) as u64);
    push_str(result, ". [");
    let sid = short_id(&cp.id);
    push_str(result, sid.as_str());
    push_str(result, "] ");
    push_str(result, cp.node_id.as_str());
    push_str(result, " - ");
    push_str(result, cp.reason.to_text());
    push_str(result, " (");
    push_str(result, cp.created_at.clock.as_str());
    push_str(result, ")\n");
    assert(result@ =~= old(result)@ + checkpoint_line(i as int, cp@));
}

/// Appends the lines of the most recent checkpoints.
fn push_checkpoint_lines(result: &mut String, cps: &Vec<Checkpoint>)
    ensures
        final(result)@ == old(result)@ + recent_checkpoint_lines(checkpoint_views(cps@), 0),
{
    let ghost v = checkpoint_views(cps@);
    let n = cps.len();
    let mut j: usize = 0;
    while j < 5 && j < n
        invariant
            n == cps@.len(),
            v == checkpoint_views(cps@),
            j <= n,
            result@ + recent_checkpoint_lines(v, j as int) == old(result)@ + recent_checkpoint_lines(v, 0),
        decreases n - j,
    {
        let i = n - 1 - j;
        let ghost before = result@;
        push_checkpoint_line(result, i, &cps[i]);
        assert(v[i as int] == cps@[i as int]@);
        assert(recent_checkpoint_lines(v, j as int) == checkpoint_line(i as int, v[i as int])
            + recent_checkpoint_lines(v, j + 1));
        assert(result@ + recent_checkpoint_lines(v, j + 1) =~= before + recent_checkpoint_lines(
            v,
            j as int,
        ));
        j = j + 1;
    }
    assert(recent_checkpoint_lines(v, j as int) == Seq::<char>::empty());
    assert(result@ =~= old(result)@ + recent_checkpoint_lines(v, 0));
}

/// Appends the prompt line of a failure.
fn push_failure_line(result: &mut String, i: usize, f: &FailurePattern)
    requires
        i < usize::MAX,
    ensures
        final(result)@ == old(result)@ + failure_line(i as int, f@),
{
    push_decimal(result, (i + 1) as u64);
    push_str(result, ". [");
    let sid = short_id(&f.id);
    push_str(result, sid.as_str());
    push_str(result, "] ");
    push_str(result, f.pattern_type.debug_name());
    push_str(result, " - exit=");
    push_exit_debug(result, f.exit_code);
    push_str(result, " @ ");
    push_str(result, f.context_node_id.as_str());
    push_str(result, "\n");
    assert(result@ =~= old(result)@ + failure_line(i as int, f@));
}

/// Appends an optional exit code as `Debug` writes it.
pub(crate) fn push_exit_debug(result: &mut String, e: Option<i32>)
    ensures
        final(result)@ == old(result)@ + exit_debug(e),
{
    match e {
        Some(c) => {
            push_str(result, "Some(");
            push_signed_decimal(result, c as i64);
            push_str(result, ")");
        },
        None => push_str(result, "None"),
    }
    assert(result@ =~= old(result)@ + exit_debug(e));
}

/// Appends the lines of the most recent failures.
fn push_failure_lines(result: &mut String, fs: &Vec<FailurePattern>)
    ensures
        final(result)@ == old(result)@ + recent_failure_lines(failure_views(fs@), 0),
{
    let ghost v = failure_views(fs@);
    let n = fs.len();
    let mut j: usize = 0;
    while j < 5 && j < n
        invariant
            n == fs@.len(),
            v == failure_views(fs@),
            j <= n,
            result@ + recent_failure_lines(v, j as int) == old(result)@ + recent_failure_lines(v, 0),
        decreases n - j,
    {
        let i = n - 1 - j;
        let ghost before = result@;
        push_failure_line(result, i, &fs[i]);
        assert(v[i as int] == fs@[i as int]@);
        assert(recent_failure_lines(v, j as int) == failure_line(i as int, v[i as int])
            + recent_failure_lines(v, j + 1));
        assert(result@ + recent_failure_lines(v, j + 1) =~= before + recent_failure_lines(
            v,
            j as int,
        ));
        j = j + 1;
    }
    assert(recent_failure_lines(v, j as int) == Seq::<char>::empty());
    assert(result@ =~= old(result)@ + recent_failure_lines(v, 0));
}

impl Default for BacktrackManager {
    fn default() -> (m: Self)
        ensures
            m.checkpoints_spec() == Seq::<CheckpointView>::empty(),
            m.failures_spec() == Seq::<FailureView>::empty(),
    {
        Self::new()
    }
}

/// The value of attribute `attr` in an XML tag: the text between `attr="`
/// and the next `"`.
pub open spec fn xml_attr_spec(xml: Seq<char>, attr: Seq<char>) -> Option<Seq<char>> {
    crate::text::section(xml, attr + "=\""@, "\""@)
}

/// The value of attribute `attr` in an XML tag (see `xml_attr_spec`).
pub fn extract_xml_attr(xml: &str, attr: &str) -> (r: Option<String>)
    ensures
        match r {
            Some(v) => xml_attr_spec(xml@, attr@) == Some(v@),
            None => xml_attr_spec(xml@, attr@) is None,
        },
{
    let x = chars_of(xml);
    let mut pattern = String::from_str(attr);
    push_str(&mut pattern, "=\"");
    let p = chars_of(pattern.as_str());
    let q = chars_of("\"");
    match crate::text::section_exec(x.as_slice(), p.as_slice(), q.as_slice()) {
        Some((a, b)) => Some(slice_string(x.as_slice(), a, b)),
        None => None,
    }
}

/// The node status of a name written by the snapshot (`Failed` is not one
/// of them).
pub open spec fn node_status_of(s: Seq<char>) -> Option<NodeStatus> {
    if s == "Draft"@ {
        Some(NodeStatus::Draft)
    } else if s == "Active"@ {
        Some(NodeStatus::Active)
    } else if s == "Pruned"@ {
        Some(NodeStatus::Pruned)
    } else if s == "Locked"@ {
        Some(NodeStatus::Locked)
    } else {
        None
    }
}

/// The node status a snapshot name stands for.
pub fn parse_node_status(s: &str) -> (r: Option<NodeStatus>)
    ensures
        r == node_status_of(s@),
{
    let k = String::from_str(s);
    if k == String::from_str("Draft") {
        Some(NodeStatus::Draft)
    } else if k == String::from_str("Active") {
        Some(NodeStatus::Active)
    } else if k == String::from_str("Pruned") {
        Some(NodeStatus::Pruned)
    } else if k == String::from_str("Locked") {
        Some(NodeStatus::Locked)
    } else {
        None
    }
}

/// The edge type of a name written by the snapshot.
pub open spec fn edge_type_of(s: Seq<char>) -> Option<EdgeType> {
    if s == "Reasoning"@ {
        Some(EdgeType::Reasoning)
    } else if s == "Constraint"@ {
        Some(EdgeType::Constraint)
    } else if s == "Divergence"@ {
        Some(EdgeType::Divergence)
    } else {
        None
    }
}

/// The edge type a snapshot name stands for.
pub fn parse_edge_type(s: &str) -> (r: Option<EdgeType>)
    ensures
        r == edge_type_of(s@),
{
    let k = String::from_str(s);
    if k == String::from_str("Reasoning") {
        Some(EdgeType::Reasoning)
    } else if k == String::from_str("Constraint") {
        Some(EdgeType::Constraint)
    } else if k == String::from_str("Divergence") {
        Some(EdgeType::Divergence)
    } else {
        None
    }
}

} // verus!
