//! The right pane: the rolling context and the task graph as lines of
//! text, with the lines at which a top-level task can be folded.

use super::model::{NodeView, WorkflowView};
use super::{TaskStatus, Workflow};
use crate::api::contracts::RightPaneToggleContract;
use crate::text::texts;
use vstd::prelude::*;
use vstd::string::StringExecFns;

verus! {

/// The lines of the right pane and its fold marks.
#[derive(Debug, Clone, PartialEq, Eq)]
pub struct RightPaneBlock {
    pub lines: Vec<String>,
    pub toggles: Vec<RightPaneToggleContract>,
}

/// Mathematical value of a [`RightPaneToggleContract`].
pub struct ToggleView {
    pub line_index: usize,
    pub task_key: Seq<char>,
}

impl View for RightPaneToggleContract {
    type V = ToggleView;

    open spec fn view(&self) -> ToggleView {
        ToggleView { line_index: self.line_index, task_key: self.task_key@ }
    }
}

/// The values of a list of fold marks.
pub open spec fn toggle_views(toggles: Seq<RightPaneToggleContract>) -> Seq<ToggleView> {
    Seq::new(toggles.len(), |i: int| toggles[i]@)
}

/// How a status is written in the pane.
pub open spec fn status_label(status: TaskStatus) -> Seq<char> {
    match status {
        TaskStatus::Pending => "pending"@,
        TaskStatus::InProgress => "in progress"@,
        TaskStatus::NeedsChanges => "needs changes"@,
        TaskStatus::Done => "done"@,
    }
}

/// The line of a task: its status in brackets and its title, indented
/// under a dash where the task is not a top-level task.
pub open spec fn task_line(node: NodeView) -> Seq<char> {
    (if node.parent_id is None {
        "["@
    } else {
        "  - ["@
    }) + status_label(node.entry.status) + "] "@ + node.entry.title
}

/// The lines of the rolling context: a heading, then each entry
/// indented, or a note that there is none.
pub open spec fn context_lines(context: Seq<Seq<char>>) -> Seq<Seq<char>> {
    if context.len() == 0 {
        seq!["Rolling context:"@, "  (none)"@]
    } else {
        seq!["Rolling context:"@] + Seq::new(context.len(), |i: int| "  "@ + context[i])
    }
}

/// The lines of the right pane: the rolling context, a heading, and the
/// tasks in the order of the graph.
pub open spec fn pane_lines(w: WorkflowView) -> Seq<Seq<char>> {
    context_lines(w.context) + seq!["Tasks:"@] + Seq::new(
        w.nodes.len(),
        |i: int| task_line(w.nodes[i]),
    )
}

/// The fold marks of the first `n` tasks, where the line of the first
/// task is line `first_line`: one for each top-level task, at its line,
/// with the id the plan gives the task as its key.
pub open spec fn pane_toggles(nodes: Seq<NodeView>, first_line: nat, n: nat) -> Seq<ToggleView>
    decreases n,
{
    if n == 0 {
        Seq::empty()
    } else if nodes[n - 1].parent_id is None {
        pane_toggles(nodes, first_line, (n - 1) as nat).push(
            ToggleView {
                line_index: (first_line + n - 1) as usize,
                task_key: nodes[n - 1].entry.id,
            },
        )
    } else {
        pane_toggles(nodes, first_line, (n - 1) as nat)
    }
}

/// The text that stands for `status` in the pane.
fn status_text(status: TaskStatus) -> (label: &'static str)
    ensures
        label@ == status_label(status),
{
    match status {
        TaskStatus::Pending => "pending",
        TaskStatus::InProgress => "in progress",
        TaskStatus::NeedsChanges => "needs changes",
        TaskStatus::Done => "done",
    }
}

impl Workflow {
    /// The right pane for the current state: the rolling context and the
    /// tasks as lines, and a fold mark at the line of each top-level task.
    pub fn right_pane_block_view(&self) -> (block: RightPaneBlock)
        ensures
            texts(block.lines@) == pane_lines(self.state()),
            toggle_views(block.toggles@) == pane_toggles(
                self.state().nodes,
                context_lines(self.state().context).len() + 1,
                self.state().nodes.len(),
            ),
    {
        let mut lines: Vec<String> = Vec::new();
        let mut toggles: Vec<RightPaneToggleContract> = Vec::new();
        lines.push(String::from_str("Rolling context:"));
        if self.rolling_context.len() == 0 {
            lines.push(String::from_str("  (none)"));
            assert(texts(lines@) =~= context_lines(self.state().context));
        } else {
            let mut i: usize = 0;
            while i < self.rolling_context.len()
                invariant
                    i <= self.rolling_context.len(),
                    lines@.len() == i + 1,
                    lines@[0]@ == "Rolling context:"@,
                    forall|j: int|
                        0 <= j < i ==> (#[trigger] lines@[j + 1])@ == "  "@
                            + self.state().context[j],
                decreases self.rolling_context.len() - i,
            {
                let mut line = String::from_str("  ");
                line.append(self.rolling_context[i].as_str());
                lines.push(line);
                i += 1;
            }
            assert forall|k: int| 0 <= k < lines@.len() implies texts(lines@)[k] == context_lines(
                self.state().context,
            )[k] by {
                if k > 0 {
                    assert(lines@[(k - 1) + 1]@ == "  "@ + self.state().context[k - 1]);
                }
            }
            assert(texts(lines@) =~= context_lines(self.state().context));
        }
        lines.push(String::from_str("Tasks:"));
        let ghost head = context_lines(self.state().context) + seq!["Tasks:"@];
        assert(texts(lines@) =~= head);
        let first_line: usize = lines.len();
        assert(toggle_views(toggles@) =~= Seq::empty());
        let mut i: usize = 0;
        while i < self.nodes.len()
            invariant
                i <= self.nodes.len(),
                first_line == head.len() == context_lines(self.state().context).len() + 1,
                lines@.len() == first_line + i,
                texts(
                    lines@) == head + Seq::new(i as nat,
                    |j: int| task_line(self.state().nodes[j]),
                ),
                toggle_views(toggles@) == pane_toggles(
                    self.state().nodes,
                    first_line as nat,
                    i as nat,
                ),
            decreases self.nodes.len() - i,
        {
            let node = &self.nodes[i];
            let mut line = if node.parent_id.is_none() {
                String::from_str("[")
            } else {
                String::from_str("  - [")
            };
            line.append(status_text(node.entry.status));
            line.append("] ");
            line.append(node.entry.title.as_str());
            let ghost earlier = texts(lines@);
            let ghost marks = toggle_views(toggles@);
            if node.parent_id.is_none() {
                toggles.push(
                    RightPaneToggleContract {
                        line_index: lines.len(),
                        task_key: node.entry.id.clone(),
                    },
                );
                assert(toggle_views(toggles@) =~= marks.push(toggles@.last()@));
            }
            assert(line@ == task_line(self.state().nodes[i as int]));
            lines.push(line);
            i += 1;
            assert(texts(lines@) =~= earlier.push(line@));
            assert(earlier.push(line@) =~= head + Seq::new(
                i as nat,
                |j: int| task_line(self.state().nodes[j]),
            ));
        }
        RightPaneBlock { lines, toggles }
    }
}

} // verus!
