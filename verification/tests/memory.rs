use evolution_reasoning::memory::{
    append_history_content, format_memory, topics_content_with, ExploredTopic, HistoryEntry, MemoryFile,
    MemoryManager, UserProfile,
};

#[test]
fn test_memory_manager_new() {
    let mgr = MemoryManager::new();
    assert!(mgr.memory_path().ends_with("memory"));
}

#[test]
fn test_memory_manager_format_for_prompt_empty() {
    let mgr = MemoryManager::new();
    let formatted = mgr.format_for_prompt(&MemoryFile::missing(), &MemoryFile::missing(), &MemoryFile::missing());
    assert_eq!(formatted, String::new());
}

#[test]
fn test_format_memory_sections() {
    let history = "A\n\n---\n\nB\n\n---\n\n  \n\n---\n\nD";
    let topics = "t1\n\nt2\n\n\n\nt3\n\nt4\n\nt5\n\nt6";
    let text = format_memory(true, "me", history, topics);
    assert_eq!(
        text,
        "\n\n=== 長期記憶 ===\n【用戶資料】\nme\n【歷史討論】\n- D\n- B\n\n【已探索主題】\n- t1\n- t2\n- t3\n- t4\n- t5\n\n=== 長期記憶結束 ===\n"
    );
    // an existing but empty profile still shows the frame
    assert_eq!(format_memory(true, "", "", ""), "\n\n=== 長期記憶 ===\n=== 長期記憶結束 ===\n");
}

#[test]
fn test_history_entry_new() {
    let entry = HistoryEntry::new("測試主題", "這是摘要", 5);
    assert_eq!(entry.topic, "測試主題");
    assert_eq!(entry.summary, "這是摘要");
    assert_eq!(entry.node_count, 5);
    let block = entry.to_md_block();
    assert!(block.contains("測試主題"));
    assert!(block.ends_with("\n- node_count: 5\n- summary: 這是摘要"));
}

#[test]
fn test_explored_topic_new() {
    let topic = ExploredTopic::new("生涯規劃", vec!["工作".to_string(), "生活".to_string()], "結論");
    assert_eq!(topic.name, "生涯規劃");
    assert_eq!(topic.tags.len(), 2);
    assert!(topic.to_md_block().starts_with("- name: 生涯規劃\n- tags: 工作, 生活\n- explored_at: "));
}

#[test]
fn test_append_history() {
    assert_eq!(append_history_content("", "x"), "x");
    assert_eq!(append_history_content("a", "b"), "a\n\n---\n\nb");
}

#[test]
fn test_topics_keep_last_twenty() {
    let mut content = String::new();
    for i in 0..25 {
        content = topics_content_with(&content, &format!("topic{}", i));
    }
    let blocks: Vec<&str> = content.split("\n\n").collect();
    assert_eq!(blocks.len(), 20);
    assert_eq!(blocks[0], "topic5");
    assert_eq!(blocks[19], "topic24");
}

#[test]
fn test_add_explored_topic_and_history() {
    let mgr = MemoryManager::new();
    let (t, content) = mgr.add_explored_topic("old\n\n", "新主題", vec!["a".to_string()], "c");
    assert_eq!(content, format!("old\n\n{}", t.to_md_block()));
    let (e, hist) = mgr.add_history_entry("prev", "主題", "摘要", 2);
    assert_eq!(hist, format!("prev\n\n---\n\n{}", e.to_md_block()));
}

#[test]
fn test_user_profile_new() {
    let profile = UserProfile::new();
    assert!(profile.name.is_none());
    assert_eq!(profile.preferences, "{}");
}

#[test]
fn test_user_profile_to_md() {
    let profile = UserProfile::new();
    let md = profile.to_md();
    assert!(md.contains("# User Profile"));
    assert!(md.contains("- name: null"));
}

#[test]
fn test_user_profile_from_md() {
    let md = r#"# User Profile

- name: 測試用戶
- preferences: {"theme": "dark"}
- created_at: 2026-05-07T10:00:00+08:00
- updated_at: 2026-05-07T10:00:00+08:00
"#;
    let profile = UserProfile::from_md(md);
    assert_eq!(profile.name, Some("測試用戶".to_string()));
    assert!(profile.preferences.contains("dark"));
}

#[test]
fn test_history_entry_to_md_block() {
    let entry = HistoryEntry::new("測試主題", "摘要", 3);
    let block = entry.to_md_block();
    assert!(block.contains("測試主題"));
    assert!(block.contains("3"));
}

#[test]
fn profile_from_md_keeps_last_name_and_skips_null() {
    let md = "- name: 甲\n- name: null\n- name:   \n  - preferences:    \n";
    let profile = UserProfile::from_md(md);
    assert_eq!(profile.name, Some("甲".to_string()));
    assert_eq!(profile.preferences, "{}");
    let again = UserProfile::from_md("- name:- name: 乙\r\n");
    assert_eq!(again.name, Some("乙".to_string()));
}

#[test]
fn history_entry_reads_its_block_back() {
    let entry = HistoryEntry::new("主題", "摘要一", 42);
    let back = HistoryEntry::from_md_block(&entry.to_md_block());
    assert_eq!(back.topic, "主題");
    assert_eq!(back.summary, "摘要一");
    assert_eq!(back.node_count, 42);
    assert_eq!(back.datetime.rfc3339.len() > 0, true);
    let bad = HistoryEntry::from_md_block("- node_count: 7\n- node_count: x");
    assert_eq!(bad.node_count, 0);
}

#[test]
fn explored_topic_reads_its_block_back() {
    let t = ExploredTopic::new("生涯", vec!["工作".to_string(), "生活".to_string()], "結論");
    let back = ExploredTopic::from_md_block(&t.to_md_block());
    assert_eq!(back.name, "生涯");
    assert_eq!(back.tags, vec!["工作".to_string(), "生活".to_string()]);
    assert_eq!(back.conclusion, "結論");
    let empty_tags = ExploredTopic::from_md_block("- tags:");
    assert_eq!(empty_tags.tags, vec!["".to_string()]);
}

#[test]
fn set_user_name_keeps_the_preferences() {
    let mgr = MemoryManager::new();
    let file = MemoryFile {
        exists: true,
        content: "# User Profile\n\n- name: null\n- preferences: {\"lang\":\"zh\"}\n".to_string(),
    };
    let (profile, text) = mgr.set_user_name(&file, "小明");
    assert_eq!(profile.name.as_deref(), Some("小明"));
    assert_eq!(profile.preferences, "{\"lang\":\"zh\"}");
    assert!(text.contains("- name: 小明\n"));
    assert!(text.contains("- preferences: {\"lang\":\"zh\"}\n"));
    let (fresh, _) = mgr.set_user_name(&MemoryFile { exists: false, content: String::new() }, "A");
    assert_eq!(fresh.name.as_deref(), Some("A"));
    assert_eq!(fresh.preferences, "{}");
}
