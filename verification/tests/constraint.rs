use evolution_reasoning::engine::constraint::{Constraint, ConstraintManager, ConstraintSource};

#[test]
fn test_constraint_new() {
    let c = Constraint::new("測試約束", ConstraintSource::User);
    assert_eq!(c.content, "測試約束");
    assert_eq!(c.source, ConstraintSource::User);
    assert!(!c.id.is_empty());
}

#[test]
fn test_constraint_user_and_gemma() {
    assert_eq!(Constraint::user("用戶約束").source, ConstraintSource::User);
    assert_eq!(Constraint::gemma("gemma 約束").source, ConstraintSource::Gemma);
}

#[test]
fn test_constraint_manager_new() {
    let mgr = ConstraintManager::new();
    assert!(mgr.is_empty());
}

#[test]
fn test_add_constraint() {
    let mut mgr = ConstraintManager::new();
    mgr.add(Constraint::user("約束1"));
    assert_eq!(mgr.len(), 1);
    mgr.add(Constraint::user("約束1"));
    assert_eq!(mgr.len(), 1);
    mgr.add(Constraint::user("約束2"));
    assert_eq!(mgr.len(), 2);
}

#[test]
fn test_extract_from_gemma_response() {
    let mut mgr = ConstraintManager::new();
    let response = "根據你的價值觀是誠實，所以我們應該選擇透明的方式。";
    let extracted = mgr.extract_from_gemma_response(response);
    assert!(extracted.contains(&"你的價值觀是誠實".to_string()));
    let response2 = "因為時間有限，所以我們需要優先處理重要的事項。";
    let extracted2 = mgr.extract_from_gemma_response(response2);
    assert!(extracted2.contains(&"時間有限".to_string()));
    assert!(mgr.len() >= 2);
}

#[test]
fn test_extract_short_reasons() {
    let mut mgr = ConstraintManager::new();
    // two ASCII bytes are too short, one CJK character (three bytes) is enough
    assert!(mgr.extract_from_gemma_response("根據ab，").is_empty());
    assert_eq!(mgr.extract_from_gemma_response("基於錢。"), vec!["錢".to_string()]);
    assert_eq!(mgr.len(), 1);
    assert_eq!(mgr.get_all()[0].source, ConstraintSource::Gemma);
}

#[test]
fn test_to_xml() {
    let mut mgr = ConstraintManager::new();
    mgr.add(Constraint::user("約束1"));
    mgr.add(Constraint::gemma("約束2"));
    let xml = mgr.to_xml();
    assert!(xml.contains("<constraints>"));
    assert!(xml.contains("約束1"));
    assert!(xml.contains("約束2"));
    assert!(xml.contains("user"));
    assert!(xml.contains("gemma"));
}

#[test]
fn test_from_xml() {
    let xml = r#"<?xml version="1.0" encoding="UTF-8"?>
<constraints>
  <constraint id="test-id-1" source="user" created_at="2026-05-07T10:00:00+08:00">
    <content><![CDATA[用戶約束]]></content>
  </constraint>
  <constraint id="test-id-2" source="gemma" created_at="2026-05-07T11:00:00+08:00">
    <content><![CDATA[gemma約束]]></content>
  </constraint>
</constraints>"#;
    let mgr = ConstraintManager::from_xml(xml);
    assert_eq!(mgr.len(), 2);
    assert_eq!(mgr.get_all()[0].source, ConstraintSource::User);
    assert_eq!(mgr.get_all()[1].source, ConstraintSource::Gemma);
    assert_eq!(mgr.get_all()[0].id, "test-id-1");
    assert_eq!(mgr.get_all()[1].content, "gemma約束");
}

#[test]
fn test_xml_round_trip() {
    let mut mgr = ConstraintManager::new();
    mgr.add(Constraint::user("甲"));
    mgr.add(Constraint::gemma("乙"));
    let back = ConstraintManager::from_xml(&mgr.to_xml());
    assert_eq!(back.len(), 2);
    for i in 0..2 {
        assert_eq!(back.get_all()[i].id, mgr.get_all()[i].id);
        assert_eq!(back.get_all()[i].content, mgr.get_all()[i].content);
        assert_eq!(back.get_all()[i].source, mgr.get_all()[i].source);
    }
}

#[test]
fn test_constraint_format_for_prompt() {
    let mut mgr = ConstraintManager::new();
    assert!(mgr.format_for_prompt().contains("無約束"));
    mgr.add(Constraint::user("約束1"));
    mgr.add(Constraint::gemma("約束2"));
    let formatted = mgr.format_for_prompt();
    assert!(formatted.contains("[用戶]"));
    assert!(formatted.contains("[自動]"));
    assert_eq!(formatted, "當前約束條件：\n1. [用戶] 約束1\n2. [自動] 約束2\n");
}

#[test]
fn test_remove_and_clear() {
    let mut mgr = ConstraintManager::new();
    mgr.add(Constraint::user("a"));
    mgr.add(Constraint::user("b"));
    let id = mgr.get_all()[0].id.clone();
    assert!(mgr.remove(&id));
    assert!(!mgr.remove(&id));
    assert_eq!(mgr.len(), 1);
    mgr.clear();
    assert!(mgr.is_empty());
}
