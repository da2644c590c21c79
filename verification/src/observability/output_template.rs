//! Session reports: what a discussion produced, as Markdown, and where
//! the reports are written.
use vstd::prelude::*;

use crate::fixed::{fixed2, push_fixed2};
use crate::paths::{is_workspace_root, joined_path, path_join, workspace_root};
use crate::stamp::Timestamp;
use crate::text::{decimal, push_decimal, push_str, same_text};

verus! {

/// What a discussion produced: amounts of complexity in thousandths.
#[derive(Debug)]
pub struct OutputData {
    /// The topic discussed.
    pub topic: String,
    /// When (`%Y-%m-%d %H:%M:%S`, local).
    pub timestamp: String,
    /// The number of nodes.
    pub total_nodes: usize,
    /// The number of edges.
    pub total_edges: usize,
    /// The total complexity.
    pub total_complexity: u128,
    /// The phase reached.
    pub final_phase: String,
    /// The core findings.
    pub core_findings: String,
    /// The decision tree, as Markdown.
    pub decision_tree: String,
    /// What to do next.
    pub action_items: Vec<String>,
}

/// The description of a phase name.
pub open spec fn phase_description(phase: Seq<char>) -> Seq<char> {
    if phase == "探索期"@ {
        "目前處於探索階段，主要聚焦於了解問題的本質"@
    } else if phase == "發展期"@ {
        "目前處於發展階段，已開始形成具體的方向和策略"@
    } else if phase == "成熟期"@ {
        "目前處於成熟階段，已形成完整的決策框架"@
    } else {
        "階段未知"@
    }
}

/// The core findings: the node count, the complexity (two decimals) and the
/// phase's description, one per line.
pub open spec fn core_findings(node_count: nat, complexity: nat, phase: Seq<char>) -> Seq<char> {
    "總共建立了 "@ + decimal(node_count) + " 個思考節點"@ + "\n"@ + "總複雜度為 "@ + fixed2(complexity) + "\n"@
        + phase_description(phase)
}

/// What to do next: three steps by phase (one for an unknown phase), then
/// convergence for more than ten nodes, or more nodes for fewer than three.
pub open spec fn action_items(node_count: nat, phase: Seq<char>) -> Seq<Seq<char>> {
    (if phase == "探索期"@ {
        seq!["繼續提問以深化對問題的理解"@, "識別關鍵的約束條件和限制"@, "列舉可能的方向或選項"@]
    } else if phase == "發展期"@ {
        seq!["對已識別的方向進行深入分析"@, "評估每個方向的可行性"@, "開始建立候選方案"@]
    } else if phase == "成熟期"@ {
        seq!["收斂到最有希望的少數方案"@, "制定具體的行動計劃"@, "識別下一步的具體行動"@]
    } else {
        seq!["繼續探索和發展"@]
    }) + (if node_count > 10 {
        seq!["考慮進行收斂操作以簡化圖結構"@]
    } else {
        Seq::empty()
    }) + (if node_count < 3 {
        seq!["增加節點數量以獲得更完整的視角"@]
    } else {
        Seq::empty()
    })
}

/// The numbered action lines from index `i` on.
pub open spec fn action_lines(items: Seq<String>, i: int) -> Seq<char>
    decreases items.len() - i,
{
    if i < 0 || i >= items.len() {
        Seq::empty()
    } else {
        decimal((i + 1) as nat) + ". "@ + items[i]@ + "\n"@ + action_lines(items, i + 1)
    }
}

/// The Markdown of a report.
pub open spec fn output_markdown(d: OutputData) -> Seq<char> {
    "# 討論產出："@ + d.topic@ + "\n\n"@ + "**日期：** "@ + d.timestamp@ + "\n"@ + "**總節點數：** "@ + decimal(
        d.total_nodes as nat,
    ) + "\n"@ + "**總邊數：** "@ + decimal(d.total_edges as nat) + "\n"@ + "**總複雜度：** "@ + fixed2(
        d.total_complexity as nat,
    ) + "\n"@ + "**最終階段：** "@ + d.final_phase@ + "\n"@ + "\n"@ + "---\n\n"@ + "## 核心發現\n\n"@
        + d.core_findings@ + "\n"@ + "\n"@ + "## 決策樹\n\n"@ + d.decision_tree@ + "\n"@ + "## 後續行動建議\n\n"@
        + action_lines(d.action_items@, 0) + "\n"@ + "---\n\n"@ + "*此報告由 Evolution Reasoning Tool v0.7 自動產生*\n"@
}

impl OutputData {
    /// An empty report on a topic, dated now.
    pub fn new(topic: &str) -> (d: Self)
        ensures
            d.topic@ == topic@,
            d.total_nodes == 0,
            d.total_edges == 0,
            d.total_complexity == 0,
            d.final_phase@.len() == 0,
            d.core_findings@.len() == 0,
            d.decision_tree@.len() == 0,
            d.action_items@.len() == 0,
    {
        OutputData {
            topic: String::from_str(topic),
            timestamp: Timestamp::now().date_time,
            total_nodes: 0,
            total_edges: 0,
            total_complexity: 0,
            final_phase: String::new(),
            core_findings: String::new(),
            decision_tree: String::new(),
            action_items: Vec::new(),
        }
    }

    /// A report from a session's counts and decision tree, dated now, with
    /// its core findings and action items (see `core_findings`,
    /// `action_items`).
    pub fn from_stats_and_tree(
        topic: &str,
        node_count: usize,
        edge_count: usize,
        complexity: u128,
        phase: &str,
        decision_tree_markdown: &str,
    ) -> (d: Self)
        ensures
            d.topic@ == topic@,
            d.total_nodes == node_count,
            d.total_edges == edge_count,
            d.total_complexity == complexity,
            d.final_phase@ == phase@,
            d.core_findings@ == core_findings(node_count as nat, complexity as nat, phase@),
            d.decision_tree@ == decision_tree_markdown@,
            d.action_items@.map_values(|s: String| s@) == action_items(node_count as nat, phase@),
    {
        OutputData {
            topic: String::from_str(topic),
            timestamp: Timestamp::now().date_time,
            total_nodes: node_count,
            total_edges: edge_count,
            total_complexity: complexity,
            final_phase: String::from_str(phase),
            core_findings: Self::generate_core_findings(node_count, complexity, phase),
            decision_tree: String::from_str(decision_tree_markdown),
            action_items: Self::generate_action_items(node_count, phase),
        }
    }

    /// The core findings (see `core_findings`).
    pub fn generate_core_findings(node_count: usize, complexity: u128, phase: &str) -> (s: String)
        ensures
            s@ == core_findings(node_count as nat, complexity as nat, phase@),
    {
        let mut s = String::from_str("總共建立了 ");
        push_decimal(&mut s, node_count as u64);
        push_str(&mut s, " 個思考節點");
        push_str(&mut s, "\n");
        push_str(&mut s, "總複雜度為 ");
        push_fixed2(&mut s, complexity);
        push_str(&mut s, "\n");
        proof {
            reveal_strlit("探索期");
            reveal_strlit("發展期");
            reveal_strlit("成熟期");
        }
        if same_text(phase, "探索期") {
            push_str(&mut s, "目前處於探索階段，主要聚焦於了解問題的本質");
        } else if same_text(phase, "發展期") {
            push_str(&mut s, "目前處於發展階段，已開始形成具體的方向和策略");
        } else if same_text(phase, "成熟期") {
            push_str(&mut s, "目前處於成熟階段，已形成完整的決策框架");
        } else {
            push_str(&mut s, "階段未知");
        }
        assert(s@ =~= core_findings(node_count as nat, complexity as nat, phase@));
        s
    }

    /// What to do next (see `action_items`).
    pub fn generate_action_items(node_count: usize, phase: &str) -> (items: Vec<String>)
        ensures
            items@.map_values(|s: String| s@) == action_items(node_count as nat, phase@),
    {
        let mut items: Vec<String> = Vec::new();
        if same_text(phase, "探索期") {
            items.push(String::from_str("繼續提問以深化對問題的理解"));
            items.push(String::from_str("識別關鍵的約束條件和限制"));
            items.push(String::from_str("列舉可能的方向或選項"));
        } else if same_text(phase, "發展期") {
            items.push(String::from_str("對已識別的方向進行深入分析"));
            items.push(String::from_str("評估每個方向的可行性"));
            items.push(String::from_str("開始建立候選方案"));
        } else if same_text(phase, "成熟期") {
            items.push(String::from_str("收斂到最有希望的少數方案"));
            items.push(String::from_str("制定具體的行動計劃"));
            items.push(String::from_str("識別下一步的具體行動"));
        } else {
            items.push(String::from_str("繼續探索和發展"));
        }
        if node_count > 10 {
            items.push(String::from_str("考慮進行收斂操作以簡化圖結構"));
        }
        if node_count < 3 {
            items.push(String::from_str("增加節點數量以獲得更完整的視角"));
        }
        assert(items@.map_values(|s: String| s@) =~= action_items(node_count as nat, phase@));
        items
    }

    /// The report as Markdown (see `output_markdown`).
    pub fn to_markdown(&self) -> (s: String)
        ensures
            s@ == output_markdown(*self),
    {
        let mut out = String::from_str("# 討論產出：");
        push_str(&mut out, self.topic.as_str());
        push_str(&mut out, "\n\n");
        push_str(&mut out, "**日期：** ");
        push_str(&mut out, self.timestamp.as_str());
        push_str(&mut out, "\n");
        push_str(&mut out, "**總節點數：** ");
        push_decimal(&mut out, self.total_nodes as u64);
        push_str(&mut out, "\n");
        push_str(&mut out, "**總邊數：** ");
        push_decimal(&mut out, self.total_edges as u64);
        push_str(&mut out, "\n");
        push_str(&mut out, "**總複雜度：** ");
        push_fixed2(&mut out, self.total_complexity);
        push_str(&mut out, "\n");
        push_str(&mut out, "**最終階段：** ");
        push_str(&mut out, self.final_phase.as_str());
        push_str(&mut out, "\n");
        push_str(&mut out, "\n");
        push_str(&mut out, "---\n\n");
        let ghost a = out@;
        push_str(&mut out, "## 核心發現\n\n");
        push_str(&mut out, self.core_findings.as_str());
        push_str(&mut out, "\n");
        push_str(&mut out, "\n");
        push_str(&mut out, "## 決策樹\n\n");
        push_str(&mut out, self.decision_tree.as_str());
        push_str(&mut out, "\n");
        push_str(&mut out, "## 後續行動建議\n\n");
        let ghost start = out@;
        let mut i: usize = 0;
        while i < self.action_items.len()
            invariant
                i <= self.action_items@.len(),
                out@ + action_lines(self.action_items@, i as int) == start + action_lines(self.action_items@, 0),
            decreases self.action_items.len() - i,
        {
            let ghost before = out@;
            push_decimal(&mut out, (i + 1) as u64);
            push_str(&mut out, ". ");
            push_str(&mut out, self.action_items[i].as_str());
            push_str(&mut out, "\n");
            assert(out@ + action_lines(self.action_items@, i + 1) =~= before + action_lines(
                self.action_items@,
                i as int,
            ));
            i = i + 1;
        }
        assert(out@ =~= start + action_lines(self.action_items@, 0));
        push_str(&mut out, "\n");
        push_str(&mut out, "---\n\n");
        push_str(&mut out, "*此報告由 Evolution Reasoning Tool v0.7 自動產生*\n");
        assert(out@ =~= output_markdown(*self));
        out
    }
}

/// Writes session reports under the workspace's `output` directory.
#[derive(Debug, Clone)]
pub struct OutputLogger {
    output_dir: std::path::PathBuf,
}

impl OutputLogger {
    /// The output dir.
    pub closed spec fn output_dir_spec(&self) -> std::path::PathBuf {
        self.output_dir
    }

    /// The workspace's `output` directory.
    pub fn new() -> (l: Self)
        ensures
            exists|root: std::path::PathBuf|
                is_workspace_root(root) && l.output_dir_spec() == #[trigger] joined_path(root, "output"@),
    {
        let root = workspace_root();
        OutputLogger { output_dir: path_join(&root, "output") }
    }

    /// The output directory.
    pub fn output_dir(&self) -> (p: &std::path::PathBuf)
        ensures
            *p == self.output_dir_spec(),
    {
        &self.output_dir
    }
}

impl Default for OutputLogger {
    fn default() -> (l: Self)
        ensures
            exists|root: std::path::PathBuf|
                is_workspace_root(root) && l.output_dir_spec() == #[trigger] joined_path(root, "output"@),
    {
        Self::new()
    }
}

} // verus!
