//! Log of the conversation rounds.
use vstd::prelude::*;

pub use super::markdown::escape_markdown;
use super::markdown::md_escape;
use crate::paths::{joined_path, path_join};
use crate::text::{decimal, push_decimal, push_str};

verus! {

/// One round of conversation.
#[derive(Debug, Clone)]
pub struct ConversationRound {
    /// Its number, from 1.
    pub round: usize,
    /// What the user said.
    pub user_input: String,
    /// What the model answered.
    pub gemma_response: String,
    /// The tools the model called.
    pub tool_calls: Vec<ToolCallRecord>,
}

/// One tool call.
#[derive(Debug, Clone)]
pub struct ToolCallRecord {
    /// The tool's name.
    pub name: String,
    /// Its arguments (JSON text).
    pub arguments: String,
}

/// The log of a conversation, a Markdown file.
#[derive(Debug, Clone)]
pub struct ConversationLogger {
    log_path: std::path::PathBuf,
}

/// The lines of the tool calls from index `i` on.
pub open spec fn tool_call_lines(v: Seq<ToolCallRecord>, i: int) -> Seq<char>
    decreases v.len() - i,
{
    if i < 0 || i >= v.len() {
        Seq::empty()
    } else {
        "- `"@ + v[i].name@ + "("@ + v[i].arguments@ + ")`\n"@ + tool_call_lines(v, i + 1)
    }
}

/// The Markdown of a round: its heading, the user's words and the model's
/// answer (escaped), the tool calls if there were any, and a rule.
pub open spec fn round_markdown_spec(r: ConversationRound) -> Seq<char> {
    "## 回合 "@ + decimal(r.round as nat) + "\n\n"@ + "**使用者：** "@ + md_escape(r.user_input@)
        + "\n\n"@ + "**gemma4：** "@ + md_escape(r.gemma_response@) + "\n\n"@ + (if r.tool_calls@.len()
        > 0 {
        "**工具呼叫：**\n\n"@ + tool_call_lines(r.tool_calls@, 0) + "\n"@
    } else {
        Seq::empty()
    }) + "---\n\n"@
}

/// The Markdown of a round (see `round_markdown_spec`).
pub fn round_markdown(r: &ConversationRound) -> (s: String)
    ensures
        s@ == round_markdown_spec(*r),
{
    let mut s = String::from_str("## 回合 ");
    push_decimal(&mut s, r.round as u64);
    push_str(&mut s, "\n\n");
    push_str(&mut s, "**使用者：** ");
    let u = escape_markdown(r.user_input.as_str());
    push_str(&mut s, u.as_str());
    push_str(&mut s, "\n\n");
    push_str(&mut s, "**gemma4：** ");
    let g = escape_markdown(r.gemma_response.as_str());
    push_str(&mut s, g.as_str());
    push_str(&mut s, "\n\n");
    let ghost mid = s@;
    if r.tool_calls.len() > 0 {
        push_str(&mut s, "**工具呼叫：**\n\n");
        let ghost start = s@;
        let mut i: usize = 0;
        while i < r.tool_calls.len()
            invariant
                i <= r.tool_calls@.len(),
                s@ + tool_call_lines(r.tool_calls@, i as int) == start + tool_call_lines(r.tool_calls@, 0),
            decreases r.tool_calls.len() - i,
        {
            let ghost before = s@;
            push_str(&mut s, "- `");
            push_str(&mut s, r.tool_calls[i].name.as_str());
            push_str(&mut s, "(");
            push_str(&mut s, r.tool_calls[i].arguments.as_str());
            push_str(&mut s, ")`\n");
            assert(s@ + tool_call_lines(r.tool_calls@, i + 1) =~= before + tool_call_lines(
                r.tool_calls@,
                i as int,
            ));
            i = i + 1;
        }
        assert(s@ =~= start + tool_call_lines(r.tool_calls@, 0));
        push_str(&mut s, "\n");
    }
    push_str(&mut s, "---\n\n");
    assert(s@ =~= round_markdown_spec(*r));
    s
}

impl ConversationLogger {
    /// The log path.
    pub closed spec fn log_path_spec(&self) -> std::path::PathBuf {
        self.log_path
    }

    /// A logger writing to `conversation_<stamp>.md` in the given
    /// directory.
    pub fn for_file(logs_dir: &std::path::PathBuf, stamp: &str) -> (l: Self)
        ensures
            l.log_path_spec() == joined_path(*logs_dir, "conversation_"@ + stamp@ + ".md"@),
    {
        let mut name = String::from_str("conversation_");
        push_str(&mut name, stamp);
        push_str(&mut name, ".md");
        ConversationLogger { log_path: path_join(logs_dir, name.as_str()) }
    }

    /// The log file.
    pub fn log_path(&self) -> (p: &std::path::PathBuf)
        ensures
            *p == self.log_path_spec(),
    {
        &self.log_path
    }
}

} // verus!
