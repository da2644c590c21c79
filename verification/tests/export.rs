use evolution_reasoning::engine::graph_xml::graph_snapshot_xml;
use evolution_reasoning::models::graph::Graph;
use evolution_reasoning::engine::backtrack::{BacktrackManager, CheckpointReason, CorrectionHypothesis};
use evolution_reasoning::export::serializers::{
    escape_dsl_string, graph_dsl_at, to_dsl_backtrack, to_dsl_graph, to_dsl_hypotheses, to_dsl_memory, to_dsl_node,
};
use evolution_reasoning::export::{
    backtrack_export_view, export_backtrack, export_graph, export_hypotheses, export_memory, export_node,
    graph_to_export_view, hypotheses_export_view, memory_export_view, query_backtrack, selected_hypotheses_view,
    BacktrackQuery,
    ExportFormat, GraphExportView, MemoryExportView, NodeExportView, StdinTask,
};
use evolution_reasoning::models::edge::{Edge, EdgeType};
use evolution_reasoning::models::node::{Node, NodeStatus};
use evolution_reasoning::memory::{MemoryFile, MemoryManager};

#[test]
fn test_escape_dsl_string() {
    assert_eq!(escape_dsl_string("hello"), "hello");
    assert_eq!(escape_dsl_string("hello \"world\""), "hello \\\"world\\\"");
    assert_eq!(escape_dsl_string("line1\nline2"), "line1\\nline2");
}

#[test]
fn test_escape_dsl_string_all() {
    assert_eq!(escape_dsl_string("a\\b\tc\rd"), "a\\\\b\\tc\\rd");
}

#[test]
fn test_to_dsl_memory() {
    let view = MemoryExportView {
        memory_path: "/m".to_string(),
        profile_exists: true,
        history_exists: false,
        topics_exists: true,
        profile_summary: "p\"x".to_string(),
        total_history: 2,
        explored_topics: 3,
        recent_topics: vec!["a".to_string(), "b\n".to_string()],
    };
    assert_eq!(
        to_dsl_memory(&view),
        "# Evolution Memory State — DSL Export\n\nmemory {\n  profile: \"p\\\"x\"\n  total_history: 2\n  explored_topics: 3\n  recent_topics: [\"a\", \"b\\n\"]\n}\n"
    );
    assert_eq!(export_memory(&view, ExportFormat::Dsl), Some(to_dsl_memory(&view)));
    assert_eq!(export_memory(&view, ExportFormat::Json), None);
}

#[test]
fn test_memory_export_view() {
    let mgr = MemoryManager::new();
    let profile = MemoryFile { exists: true, content: "x".repeat(250) };
    let history = MemoryFile { exists: true, content: "a\n---\nb\n---\n  \n".to_string() };
    let topics = MemoryFile { exists: true, content: "t1\n\n t2\nt3\nt4\nt5\nt6\n".to_string() };
    let view = memory_export_view(&mgr, &profile, &history, &topics);
    assert_eq!(view.profile_summary.chars().count(), 200);
    assert_eq!(view.total_history, 2);
    assert_eq!(view.explored_topics, 6);
    assert_eq!(view.recent_topics, vec!["t1", " t2", "t3", "t4", "t5"]);
}

#[test]
fn test_query_backtrack() {
    let mut bt = BacktrackManager::new();
    bt.create_checkpoint("n".to_string(), &Graph::new(), CheckpointReason::PreExecute, "d");
    match query_backtrack(&bt, "checkpoints") {
        BacktrackQuery::Checkpoints(v) => {
            assert_eq!(v.len(), 1);
            assert_eq!(v[0].reason, "pre_execute");
            assert_eq!(v[0].snapshot_bytes, graph_snapshot_xml(&Graph::new()).len());
        }
        other => panic!("unexpected {:?}", other),
    }
    match query_backtrack(&bt, "summary") {
        BacktrackQuery::Summary { checkpoint_count, failure_count } => {
            assert_eq!(checkpoint_count, 1);
            assert_eq!(failure_count, 0);
        }
        other => panic!("unexpected {:?}", other),
    }
    match query_backtrack(&bt, "nope") {
        BacktrackQuery::Unknown(s) => assert_eq!(
            s,
            r#"{"error": "unknown resource: nope", "available": ["checkpoints", "failures", "hypotheses", "summary"]}"#
        ),
        other => panic!("unexpected {:?}", other),
    }
}

#[test]
fn test_export_format_and_task_defaults() {
    assert_eq!(ExportFormat::default(), ExportFormat::Yaml);
    assert_eq!(ExportFormat::Dsl.name(), "dsl");
    let t = StdinTask::default();
    assert!(t.task.is_empty() && t.context.is_none() && t.format.is_none());
}

#[test]
fn test_dsl_graph_format() {
    let view = GraphExportView {
        node_count: 2,
        edge_count: 1,
        topic_count: 0,
        nodes: vec![NodeExportView {
            id: "n1".to_string(),
            step: 1,
            content: "test content".to_string(),
            weight: 1000,
            confidence: 900,
            complexity: 500,
            status: "Active".to_string(),
            parent_count: 0,
            child_count: 1,
        }],
        edges: vec![],
        topics: vec![],
        total_complexity: 500,
        locked_nodes: 0,
        draft_nodes: 1,
        pruned_nodes: 0,
    };
    let dsl = to_dsl_graph(&view);
    assert!(dsl.contains("graph {"));
    assert!(dsl.contains("node_count") || dsl.contains("Nodes:"));
    assert!(dsl.contains("test content"));
    assert!(dsl.contains('}'));
}

fn sample_view() -> GraphExportView {
    GraphExportView {
        node_count: 1,
        edge_count: 0,
        topic_count: 0,
        nodes: vec![NodeExportView {
            id: "n1".to_string(),
            step: 1,
            content: "say \"hi\"".to_string(),
            weight: 1000,
            confidence: 900,
            complexity: 125,
            status: "Active".to_string(),
            parent_count: 0,
            child_count: 0,
        }],
        edges: vec![],
        topics: vec![],
        total_complexity: 1500,
        locked_nodes: 0,
        draft_nodes: 0,
        pruned_nodes: 0,
    }
}

#[test]
fn graph_dsl_is_exact() {
    let dsl = graph_dsl_at(&sample_view(), "T");
    let expected = [
        "# Evolution Reasoning Graph — DSL Export\n# Generated at: T\n# Nodes: 1, Edges: 0, Topics: 0\n\n",
        "graph {\n  meta {\n    total_complexity: 1.5\n    status_counts { locked: 0, draft: 0, pruned: 0 }\n  }\n\n",
        "  nodes [\n    { id: n1, step: 1, status: active, weight: 1, confidence: 0.9, complexity: 0.125 }\n",
        "      \"say \\\"hi\\\"\"\n  ]\n\n",
        "  edges [\n  ]\n}\n",
    ]
    .concat();
    assert_eq!(dsl, expected);
}

#[test]
fn node_dsl_is_exact() {
    let view = sample_view().nodes.remove(0);
    let dsl = to_dsl_node(&view);
    assert_eq!(
        dsl,
        "# Node n1 — DSL Export\n\nnode {\n  id: n1\n  step: 1\n  status: active\n  weight: 1\n  confidence: 0.9\n  complexity: 0.125\n  parents: 0\n  children: 0\n  content: \"say \\\"hi\\\"\"\n}\n"
    );
}

#[test]
fn graph_export_view_counts_statuses() {
    let mut graph = Graph::new();
    let a = Node::new_with("a".to_string(), 1, "a".to_string(), 1000, 500, 2000);
    let mut b = Node::new_with("b".to_string(), 2, "b".to_string(), 1000, 500, 3000);
    b.status = NodeStatus::Locked;
    let a_id = a.id.clone();
    let b_id = b.id.clone();
    graph.add_node(a);
    graph.add_node(b);
    graph.add_edge(Edge::new(a_id.clone(), b_id.clone(), EdgeType::Divergence));
    graph.prune_node(&a_id);
    let view = graph_to_export_view(&graph);
    assert_eq!(view.node_count, 2);
    assert_eq!(view.edge_count, 1);
    assert_eq!(view.total_complexity, 5000);
    assert_eq!(view.locked_nodes, 1);
    assert_eq!(view.pruned_nodes, 1);
    assert_eq!(view.draft_nodes, 0);
    assert_eq!(view.edges[0].edge_type, "Divergence");
    assert_eq!(view.nodes[0].child_count, 1);
    let dsl = export_graph(&graph, ExportFormat::Dsl).unwrap();
    assert!(dsl.contains("type: divergence"));
    assert!(export_graph(&graph, ExportFormat::Yaml).is_none());
    let node = graph.get_node(&b_id).unwrap();
    assert!(export_node(node, ExportFormat::Dsl).unwrap().contains("status: locked"));
    assert!(export_node(node, ExportFormat::Json).is_none());
}

#[test]
fn backtrack_and_hypotheses_dsl() {
    let mut bt = BacktrackManager::new();
    let r = bt.record_execute_failure(
        "node-1".to_string(),
        r#"{"success": false, "exit_code": 127, "stderr": "command not found", "command": "fake_cmd", "error": "無法執行"}"#,
    );
    assert!(r.is_some());
    let view = backtrack_export_view(&bt);
    assert_eq!(view.failure_count, 1);
    assert_eq!(view.total_groups, 1);
    assert!(!view.latest_hypotheses.is_empty());
    let dsl = to_dsl_backtrack(&view);
    assert!(dsl.starts_with("# Evolution Backtrack State — DSL Export\n# Checkpoints: 0, Failures: 1, Hypothesis Groups: 1\n"));
    assert!(dsl.contains("exit: Some(127)"));
    let hv = hypotheses_export_view(&bt);
    assert_eq!(hv.total_failures, 1);
    assert_eq!(hv.total_hypotheses, hv.hypotheses.len());
    let hdsl = to_dsl_hypotheses(&hv);
    assert!(hdsl.contains("  total_failures: 1\n"));
    assert!(export_backtrack(&bt, ExportFormat::Dsl).is_some());
    assert!(export_hypotheses(&bt, None, ExportFormat::Dsl).is_some());
    assert!(export_hypotheses(&bt, None, ExportFormat::Yaml).is_none());
}

#[test]
fn export_hypotheses_of_one_failure() {
    let mut bt = BacktrackManager::new();
    let f1 = bt
        .record_execute_failure("n1".to_string(), r#"{"success": false, "exit_code": 127, "stderr": "command not found", "command": "a"}"#)
        .unwrap();
    let f2 = bt
        .record_execute_failure("n2".to_string(), r#"{"success": false, "exit_code": 1, "stderr": "boom", "command": "b"}"#)
        .unwrap();
    let one = selected_hypotheses_view(&bt, Some(&f1.id));
    assert_eq!(one.total_failures, 2);
    assert_eq!(one.total_hypotheses, CorrectionHypothesis::generate(&f1).len());
    let all = selected_hypotheses_view(&bt, None);
    assert_eq!(
        all.total_hypotheses,
        CorrectionHypothesis::generate(&f1).len() + CorrectionHypothesis::generate(&f2).len()
    );
    let none = selected_hypotheses_view(&bt, Some("missing"));
    assert_eq!(none.total_hypotheses, 0);
    let dsl = export_hypotheses(&bt, Some(&f2.id), ExportFormat::Dsl).unwrap();
    assert!(!dsl.contains(&f1.id));
}
