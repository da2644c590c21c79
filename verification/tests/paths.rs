use std::path::PathBuf;

use evolution_reasoning::memory::MemoryManager;
use evolution_reasoning::observability::constraint_log::ConstraintChangeLogger;
use evolution_reasoning::observability::conversation::ConversationLogger;
use evolution_reasoning::observability::phase_transition::PhaseTransitionLogger;
use evolution_reasoning::observability::ObservableLogger;
use evolution_reasoning::paths::workspace_root;
use evolution_reasoning::stamp::Timestamp;

#[test]
fn log_files_are_named_under_their_directory() {
    let dir = PathBuf::from("/tmp/logs");
    assert_eq!(ConversationLogger::for_file(&dir, "20240101_000000").log_path(), &dir.join("conversation_20240101_000000.md"));
    assert_eq!(PhaseTransitionLogger::for_dir(&dir).log_path(), &dir.join("phase_transitions.md"));
    assert_eq!(ConstraintChangeLogger::for_dir(&dir).log_path(), &dir.join("constraints.md"));
}

#[test]
fn memory_files_are_under_the_memory_directory() {
    let root = PathBuf::from("/tmp/mem");
    let m = MemoryManager::with_path(root.clone());
    assert_eq!(m.profile_path(), root.join("profile.md"));
    assert_eq!(m.history_path(), root.join("history.md"));
    assert_eq!(m.topics_path(), root.join("topics.md"));
}

#[test]
fn workspace_layout() {
    let root = workspace_root();
    assert!(root.ends_with(".evolution_reasoning/workspace"));
    let obs = ObservableLogger::new();
    assert_eq!(obs.root(), &root);
    assert_eq!(obs.logs_dir(), &root.join("logs"));
    assert_eq!(obs.snapshots_dir(), &root.join("logs").join("snapshots"));
    assert_eq!(MemoryManager::new().memory_path(), &root.join("memory"));
}

#[test]
fn rfc3339_texts_parse_and_others_do_not() {
    assert!(Timestamp::parse("2024-01-02T03:04:05+00:00").is_some());
    assert!(Timestamp::parse("yesterday").is_none());
}
