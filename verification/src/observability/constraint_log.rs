//! Log of the changes of constraints.
use vstd::prelude::*;

pub use super::markdown::escape_markdown;
use crate::engine::constraint::ConstraintSource;
use crate::paths::{joined_path, path_join};

verus! {

/// The kind of a change.
#[derive(Debug, Clone, Copy, PartialEq, Eq, Structural)]
pub enum ConstraintChangeType {
    /// A constraint was added.
    Added,
    /// A constraint was removed.
    Removed,
}

/// One change of the constraints.
#[derive(Debug, Clone)]
pub struct ConstraintChange {
    /// When it happened.
    pub timestamp: String,
    /// What happened.
    pub change_type: ConstraintChangeType,
    /// The constraint's text.
    pub content: String,
    /// Where the constraint came from.
    pub source: ConstraintSource,
    /// The constraint's identifier.
    pub constraint_id: String,
}

/// The log of constraint changes, a Markdown table in `constraints.md`.
#[derive(Debug, Clone)]
pub struct ConstraintChangeLogger {
    log_path: std::path::PathBuf,
    initialized: bool,
}

/// The label each kind of change is written with.
pub open spec fn change_label(t: ConstraintChangeType) -> Seq<char> {
    match t {
        ConstraintChangeType::Added => "新增"@,
        ConstraintChangeType::Removed => "移除"@,
    }
}

/// The label each source is written with.
pub open spec fn source_label(s: ConstraintSource) -> Seq<char> {
    match s {
        ConstraintSource::User => "用戶"@,
        ConstraintSource::Gemma => "自動萃取"@,
    }
}

impl ConstraintChangeType {
    /// The label the change is written with.
    pub fn label(&self) -> (s: &'static str)
        ensures
            s@ == change_label(*self),
    {
        match self {
            ConstraintChangeType::Added => "新增",
            ConstraintChangeType::Removed => "移除",
        }
    }
}

/// The label a source is written with.
pub fn source_label_of(s: ConstraintSource) -> (r: &'static str)
    ensures
        r@ == source_label(s),
{
    match s {
        ConstraintSource::User => "用戶",
        ConstraintSource::Gemma => "自動萃取",
    }
}

impl ConstraintChangeLogger {
    /// The log path.
    pub closed spec fn log_path_spec(&self) -> std::path::PathBuf {
        self.log_path
    }

    /// A logger writing to `constraints.md` in the given directory.
    pub fn for_dir(logs_dir: &std::path::PathBuf) -> (l: Self)
        ensures
            l.log_path_spec() == joined_path(*logs_dir, "constraints.md"@),
    {
        ConstraintChangeLogger { log_path: path_join(logs_dir, "constraints.md"), initialized: true }
    }

    /// The log file.
    pub fn log_path(&self) -> (p: &std::path::PathBuf)
        ensures
            *p == self.log_path_spec(),
    {
        &self.log_path
    }
}

} // verus!
