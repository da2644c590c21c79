use evolution_reasoning::summarizer::node_update::NodeUpdate;
use evolution_reasoning::summarizer::parser::{apply_node_update, NodeUpdateParser};
use evolution_reasoning::models::graph::Graph;
use evolution_reasoning::models::node::{Node, NodeStatus};

#[test]
fn test_parse_full_xml() {
    let xml = r#"<node_update node_id="abc123">
          <findings>
            <item>用戶偏好：悠閒、戰地歷史、在地美食</item>
            <item>時間：5天4夜</item>
          </findings>
          <conclusion null="true"/>
          <topics>
            <topic>金門</topic>
            <topic>戰地歷史</topic>
          </topics>
        </node_update>"#;
    let update = NodeUpdate::from_xml(xml).unwrap();
    assert_eq!(update.node_id, Some("abc123".to_string()));
    assert_eq!(update.findings.len(), 2);
    assert!(update.conclusion.is_none());
    assert_eq!(update.topics.len(), 2);
}

#[test]
fn test_parse_empty_conclusion() {
    let xml = r#"<node_update><findings><item>發現1</item></findings><conclusion null="true"/></node_update>"#;
    let update = NodeUpdate::from_xml(xml).unwrap();
    assert!(update.conclusion.is_none());
}

#[test]
fn test_parse_with_conclusion() {
    let xml = r#"<node_update><findings/><conclusion>這是最好的方案</conclusion></node_update>"#;
    let update = NodeUpdate::from_xml(xml).unwrap();
    assert_eq!(update.conclusion, Some("這是最好的方案".to_string()));
}

#[test]
fn test_parse_json() {
    let json = r#"{"findings":["發現1","發現2"],"conclusion":null,"topics":["金門","美食"]}"#;
    let update = NodeUpdate::from_json(json).unwrap();
    assert_eq!(update.findings.len(), 2);
    assert!(update.conclusion.is_none());
    assert_eq!(update.topics.len(), 2);
}

#[test]
fn test_is_empty() {
    let empty = NodeUpdate::default();
    assert!(empty.is_empty());

    let with_finding = NodeUpdate {
        node_id: None,
        findings: vec!["test".to_string()],
        conclusion: None,
        topics: vec![],
    };
    assert!(with_finding.has_content());
}

#[test]
fn test_parse_xml_edge_cases() {
    assert!(NodeUpdate::from_xml("no block here").is_none());
    assert!(NodeUpdate::from_xml("<node_update><findings></findings>").is_none());
    let u = NodeUpdate::from_xml("```xml\n<node_update><findings><item>  a  </item><item> </item><item>b</item></findings></node_update>\n```").unwrap();
    assert_eq!(u.findings, vec!["a".to_string(), "b".to_string()]);
    assert!(u.node_id.is_none());
    let u = NodeUpdate::from_xml("<node_update><conclusion>   </conclusion><topics><topic>t</topic></topics></node_update>").unwrap();
    assert!(u.conclusion.is_none());
    assert_eq!(u.topics, vec!["t".to_string()]);
    assert!(!u.has_content());
}

#[test]
fn test_parse_json_relevant_topics() {
    let u = NodeUpdate::from_json(r#"```{"node_id":"n1","findings":["a",3,"b"],"conclusion":"done","relevant_topics":["x"]}```"#).unwrap();
    assert_eq!(u.node_id, Some("n1".to_string()));
    assert_eq!(u.findings, vec!["a".to_string(), "b".to_string()]);
    assert_eq!(u.conclusion, Some("done".to_string()));
    assert_eq!(u.topics, vec!["x".to_string()]);
    assert!(NodeUpdate::from_json("not json").is_none());
    // after "```json" a second fence is expected; without it nothing is taken off
    assert!(NodeUpdate::from_json("```json\n{\"findings\":[]}\n```").is_none());
}

#[test]
fn test_extract_xml_block() {
    let content = r#"
        這是 gemma4 的回覆
        
        ```xml
        <node_update node_id="test123">
          <findings>
            <item>發現1</item>
            <item>發現2</item>
          </findings>
          <conclusion null="true"/>
          <topics>
            <topic>旅遊</topic>
          </topics>
        </node_update>
        ```
        
        以上就是我的分析。
        "#;
    let update = NodeUpdateParser::extract(content).unwrap();
    assert_eq!(update.node_id, Some("test123".to_string()));
    assert_eq!(update.findings.len(), 2);
    assert_eq!(update.topics.len(), 1);
}

#[test]
fn test_extract_json_block() {
    let content = r#"
        分析結果：
        
        ```json
        {"findings":["發現A","發現B"],"conclusion":"這是結論","topics":["主題1"]}
        ```
        "#;
    let update = NodeUpdateParser::extract(content).unwrap();
    assert_eq!(update.findings.len(), 2);
    assert_eq!(update.conclusion, Some("這是結論".to_string()));
}

#[test]
fn test_extract_direct_xml() {
    let content = "有些回覆直接帶 <node_update><findings><item>test</item></findings></node_update> 在文字裡";
    let update = NodeUpdateParser::extract(content).unwrap();
    assert_eq!(update.findings.len(), 1);
}

#[test]
fn test_extract_bare_json_and_nothing() {
    let u = NodeUpdateParser::extract(r#"結果 {"findings":["f"]} 完"#).unwrap();
    assert_eq!(u.findings, vec!["f".to_string()]);
    assert!(NodeUpdateParser::extract("} nothing {").is_none());
}

#[test]
fn parser_find_active_node_prefers_findings() {
    let mut graph = Graph::new();
    assert_eq!(NodeUpdateParser::find_active_node(&graph), None);
    let mut locked = Node::new("鎖".to_string(), 1);
    locked.status = NodeStatus::Locked;
    let locked_id = locked.id.clone();
    graph.add_node(locked);
    assert_eq!(NodeUpdateParser::find_active_node(&graph), Some(locked_id.clone()));
    let plain = Node::new("草".to_string(), 2);
    let plain_id = plain.id.clone();
    graph.add_node(plain);
    assert_eq!(NodeUpdateParser::find_active_node(&graph), Some(plain_id));
    let mut rich = Node::new("有發現".to_string(), 3);
    rich.add_finding("f".to_string());
    let rich_id = rich.id.clone();
    graph.add_node(rich);
    assert_eq!(NodeUpdateParser::find_active_node(&graph), Some(rich_id));
}

#[test]
fn parser_apply_updates_and_locks() {
    let mut graph = Graph::new();
    let node = Node::new("題".to_string(), 1);
    let id = node.id.clone();
    graph.add_node(node);
    let update = NodeUpdate {
        node_id: None,
        findings: (1..=7).map(|i| format!("f{}", i)).chain(std::iter::once("f1".to_string())).collect(),
        conclusion: Some("結論".to_string()),
        topics: vec!["旅遊".to_string(), "旅遊".to_string(), "美食".to_string()],
    };
    let report = NodeUpdateParser::apply(&mut graph, &update).unwrap();
    assert_eq!(report, format!("節點 {} 更新成功：5 findings, 2 topics", id));
    let n = graph.get_node(&id).unwrap();
    assert_eq!(n.key_findings, vec!["f1", "f2", "f3", "f4", "f5"]);
    assert_eq!(n.conclusion.as_deref(), Some("結論"));
    assert_eq!(n.status, NodeStatus::Locked);
    assert_eq!(n.relevant_topics, vec!["旅遊", "美食"]);
}

#[test]
fn parser_apply_errors() {
    let mut graph = Graph::new();
    let update = NodeUpdate { node_id: None, findings: vec![], conclusion: None, topics: vec![] };
    assert_eq!(NodeUpdateParser::apply(&mut graph, &update).unwrap_err(), "找不到目標節點");
    let named = NodeUpdate { node_id: Some("x".to_string()), findings: vec![], conclusion: None, topics: vec![] };
    assert_eq!(NodeUpdateParser::apply(&mut graph, &named).unwrap_err(), "節點不存在");
}

#[test]
fn parser_apply_node_update_from_reply() {
    let mut graph = Graph::new();
    let node = Node::new("題".to_string(), 1);
    let id = node.id.clone();
    graph.add_node(node);
    let reply = "好的\n```json\n{\"findings\": [\"a\"], \"topics\": []}\n```";
    let note = apply_node_update(&mut graph, reply).unwrap();
    assert_eq!(note, format!("節點 {} 更新成功：1 findings, 0 topics", id));
    assert_eq!(graph.get_node(&id).unwrap().key_findings, vec!["a"]);
    assert_eq!(apply_node_update(&mut graph, "沒有更新").unwrap_err(), "No valid NodeUpdate found");
}

#[test]
fn parser_extract_direct_block_with_attributes() {
    let content = "見 <node_update node_id=\"n1\"><findings><item>a</item></findings></node_update>";
    let u = NodeUpdateParser::extract(content).unwrap();
    assert_eq!(u.node_id.as_deref(), Some("n1"));
    assert_eq!(u.findings, vec!["a"]);
    assert!(u.conclusion.is_none());
    assert!(u.topics.is_empty());
}
