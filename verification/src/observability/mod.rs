//! Observability: where logs go, and the text of log entries.
pub mod constraint_log;
pub mod conversation;
pub mod markdown;
pub mod output_template;
pub mod phase_transition;
pub mod session_summary;
pub mod snapshot;

use vstd::prelude::*;

use crate::paths::{is_workspace_root, joined_path, path_join, workspace_root};

verus! {

/// The directories of the logs.
#[derive(Debug, Clone)]
pub struct ObservableLogger {
    root: std::path::PathBuf,
    logs_dir: std::path::PathBuf,
    snapshots_dir: std::path::PathBuf,
}

impl ObservableLogger {
    /// The logs dir.
    pub closed spec fn logs_dir_spec(&self) -> std::path::PathBuf {
        self.logs_dir
    }

    /// The snapshots dir.
    pub closed spec fn snapshots_dir_spec(&self) -> std::path::PathBuf {
        self.snapshots_dir
    }

    /// The current local time for file names (`%Y%m%d_%H%M%S`).
    pub fn timestamp_filename(&self) -> (s: String) {
        crate::stamp::Timestamp::now().compact
    }

    /// The current local time for file contents (`%Y-%m-%d %H:%M:%S`).
    pub fn timestamp_content(&self) -> (s: String) {
        crate::stamp::Timestamp::now().date_time
    }

    /// The root.
    pub closed spec fn root_spec(&self) -> std::path::PathBuf {
        self.root
    }

    /// The log directories of the workspace: `logs` under the workspace
    /// root, and `snapshots` under that.
    pub fn new() -> (l: Self)
        ensures
            is_workspace_root(l.root_spec()),
            l.logs_dir_spec() == joined_path(l.root_spec(), "logs"@),
            l.snapshots_dir_spec() == joined_path(l.logs_dir_spec(), "snapshots"@),
    {
        let root = workspace_root();
        let logs_dir = path_join(&root, "logs");
        let snapshots_dir = path_join(&logs_dir, "snapshots");
        ObservableLogger { root, logs_dir, snapshots_dir }
    }

    /// The logs directory.
    pub fn logs_dir(&self) -> (p: &std::path::PathBuf)
        ensures
            *p == self.logs_dir_spec(),
    {
        &self.logs_dir
    }

    /// The snapshots directory.
    pub fn snapshots_dir(&self) -> (p: &std::path::PathBuf)
        ensures
            *p == self.snapshots_dir_spec(),
    {
        &self.snapshots_dir
    }

    /// The workspace root.
    pub fn root(&self) -> (p: &std::path::PathBuf)
        ensures
            *p == self.root_spec(),
    {
        &self.root
    }
}

impl Default for ObservableLogger {
    fn default() -> (l: Self)
        ensures
            is_workspace_root(l.root_spec()),
            l.logs_dir_spec() == joined_path(l.root_spec(), "logs"@),
            l.snapshots_dir_spec() == joined_path(l.logs_dir_spec(), "snapshots"@),
    {
        Self::new()
    }
}

} // verus!
