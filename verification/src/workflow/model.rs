//! The engine as a mathematical state machine.
//!
//! Every operation of the workflow is first described here, as a function
//! from one state to the next over sequences and plain values. The
//! executable engine is proved to follow these functions step by step.

use crate::api::contracts::{
    EntryView, FailureView, PlannerTaskKindContract, PlannerTaskStatusContract, WorkerRoleContract,
};
use crate::text::{decimal, joined, one_line};
use vstd::prelude::*;

verus! {

/// At most this many summaries are kept in the rolling context.
pub const MAX_CONTEXT_ENTRIES: usize = 64;

/// A summary looks at no more than this many lines from the end of a transcript.
pub const SUMMARY_TAIL_LINES: usize = 20;

/// A task of the graph: its entry in the plan, under the numeric id the
/// engine gave it, with the id of its parent and of the top-level task it
/// belongs to.
pub struct NodeView {
    pub id: u64,
    pub top_task_id: u64,
    pub parent_id: Option<u64>,
    pub entry: EntryView,
}

/// What a worker job is to do.
pub enum JobKindView {
    Implementor { implementor_id: u64, pass: u8, feedback: Option<Seq<char>> },
    ImplementorAuditor {
        implementor_id: u64,
        auditor_id: u64,
        pass: u8,
        audit_report: Option<Seq<char>>,
    },
    TestWriter {
        test_writer_id: u64,
        pass: u8,
        feedback: Option<Seq<char>>,
        skip_test_runner_on_success: bool,
        resume_auditor_id: Option<u64>,
        resume_audit_pass: Option<u8>,
    },
    TestWriterAuditor {
        test_writer_id: u64,
        auditor_id: u64,
        pass: u8,
        test_report: Option<Seq<char>>,
    },
    TestRun { runner_id: u64, pass: u8, parent_context_key: Option<Seq<char>> },
    FinalAudit { node_id: u64, pass: u8 },
}

/// A unit of work waiting in the queue.
pub struct JobView {
    pub top_task_id: u64,
    pub kind: JobKindView,
}

/// The job that is running, with what it has written so far.
pub struct ActiveView {
    pub job: JobView,
    pub role: WorkerRoleContract,
    pub transcript: Seq<Seq<char>>,
}

/// The whole state of the engine.
pub struct WorkflowView {
    pub nodes: Seq<NodeView>,
    pub queue: Seq<JobView>,
    pub active: Option<ActiveView>,
    pub focus: Option<u64>,
    pub context: Seq<Seq<char>>,
    pub failures: Seq<FailureView>,
    pub tests_mode: bool,
    pub next_task_id: u64,
}

/// A state together with the messages an operation has for the user.
pub struct Outcome {
    pub state: WorkflowView,
    pub messages: Seq<Seq<char>>,
}

/// `i` is the first position in `nodes` that holds the id `id`.
pub open spec fn is_first_with_id(nodes: Seq<NodeView>, id: u64, i: int) -> bool {
    &&& 0 <= i < nodes.len()
    &&& nodes[i].id == id
    &&& forall|j: int| 0 <= j < i ==> (#[trigger] nodes[j]).id != id
}

/// Whether some node has the id `id`.
pub open spec fn has_node(nodes: Seq<NodeView>, id: u64) -> bool {
    exists|i: int| is_first_with_id(nodes, id, i)
}

/// The first position in `nodes` that holds the id `id`.
pub open spec fn node_index(nodes: Seq<NodeView>, id: u64) -> int {
    choose|i: int| is_first_with_id(nodes, id, i)
}

/// The first position with a given id is unique.
pub proof fn lemma_first_with_id_unique(nodes: Seq<NodeView>, id: u64, i: int)
    requires
        is_first_with_id(nodes, id, i),
    ensures
        has_node(nodes, id),
        node_index(nodes, id) == i,
{
    let k = node_index(nodes, id);
    assert(is_first_with_id(nodes, id, k));
    if k < i {
        assert(nodes[k].id != id);
    }
    if i < k {
        assert(nodes[i].id != id);
    }
}

/// No position up to `n` holds `id`, so no first one does.
pub proof fn lemma_no_node(nodes: Seq<NodeView>, id: u64)
    requires
        forall|j: int| 0 <= j < nodes.len() ==> (#[trigger] nodes[j]).id != id,
    ensures
        !has_node(nodes, id),
{
    if has_node(nodes, id) {
        let k = node_index(nodes, id);
        assert(nodes[k].id != id);
    }
}

/// The title of the top-level task `id`; a task that is not in the graph is
/// called by its number.
pub open spec fn task_title(nodes: Seq<NodeView>, id: u64) -> Seq<char> {
    if has_node(nodes, id) {
        nodes[node_index(nodes, id)].entry.title
    } else {
        "Task #"@ + decimal(id as int)
    }
}

/// The title of node `id`, or `fallback` where the node is missing or has
/// an empty title.
pub open spec fn node_title(nodes: Seq<NodeView>, id: u64, fallback: Seq<char>) -> Seq<char> {
    if has_node(nodes, id) && nodes[node_index(nodes, id)].entry.title.len() > 0 {
        nodes[node_index(nodes, id)].entry.title
    } else {
        fallback
    }
}

/// The details of node `id`, empty where the node is missing.
pub open spec fn node_details(nodes: Seq<NodeView>, id: u64) -> Seq<char> {
    if has_node(nodes, id) {
        nodes[node_index(nodes, id)].entry.details
    } else {
        Seq::empty()
    }
}

/// The status of node `id`, if it is in the graph.
pub open spec fn node_status(nodes: Seq<NodeView>, id: u64) -> Option<PlannerTaskStatusContract> {
    if has_node(nodes, id) {
        Some(nodes[node_index(nodes, id)].entry.status)
    } else {
        None
    }
}

/// `node` with its status replaced.
pub open spec fn node_with_status(node: NodeView, status: PlannerTaskStatusContract) -> NodeView {
    NodeView { entry: EntryView { status, ..node.entry }, ..node }
}

/// `nodes` with the status of every node called `id` replaced.
pub open spec fn nodes_with_status(
    nodes: Seq<NodeView>,
    id: u64,
    status: PlannerTaskStatusContract,
) -> Seq<NodeView> {
    Seq::new(
        nodes.len(),
        |i: int|
            if nodes[i].id == id {
                node_with_status(nodes[i], status)
            } else {
                nodes[i]
            },
    )
}

/// The state after the status of node `id` has been set.
pub open spec fn with_status(
    w: WorkflowView,
    id: u64,
    status: PlannerTaskStatusContract,
) -> WorkflowView {
    WorkflowView { nodes: nodes_with_status(w.nodes, id, status), ..w }
}

/// The state after `job` has joined the back of the queue.
pub open spec fn with_job(w: WorkflowView, job: JobView) -> WorkflowView {
    WorkflowView { queue: w.queue.push(job), ..w }
}

/// The state after `failure` has been entered in the ledger.
pub open spec fn with_failure(w: WorkflowView, failure: FailureView) -> WorkflowView {
    WorkflowView { failures: w.failures.push(failure), ..w }
}

/// A context that has taken in `entry`, and let go of its oldest entries
/// where it would otherwise exceed its bound.
pub open spec fn context_with(context: Seq<Seq<char>>, entry: Seq<char>) -> Seq<Seq<char>> {
    let all = context.push(entry);
    if all.len() > MAX_CONTEXT_ENTRIES {
        all.subrange(all.len() - MAX_CONTEXT_ENTRIES, all.len() as int)
    } else {
        all
    }
}

/// The state after `entry` has been added to the rolling context.
pub open spec fn with_context(w: WorkflowView, entry: Seq<char>) -> WorkflowView {
    WorkflowView { context: context_with(w.context, entry), ..w }
}

/// The rolling context as one block of text for a prompt.
pub open spec fn context_block(context: Seq<Seq<char>>) -> Seq<char> {
    if context.len() == 0 {
        "(no earlier context)"@
    } else {
        joined(context, "\n"@)
    }
}

/// The last lines of a transcript, at most [`SUMMARY_TAIL_LINES`] of them.
pub open spec fn transcript_tail(transcript: Seq<Seq<char>>) -> Seq<Seq<char>> {
    if transcript.len() > SUMMARY_TAIL_LINES {
        transcript.subrange(transcript.len() - SUMMARY_TAIL_LINES, transcript.len() as int)
    } else {
        transcript
    }
}

/// How a run ended, as it is written in a summary.
pub open spec fn verdict(success: bool) -> Seq<char> {
    if success {
        "ok"@
    } else {
        "fail"@
    }
}

/// The summary of one finished run: role, task title, the tail of the
/// transcript on one line, and the verdict, separated by bars. The lines
/// of the tail are set beside each other with a blank between them, and
/// a line break inside a line becomes a blank.
pub open spec fn context_summary(
    role: Seq<char>,
    task_title: Seq<char>,
    transcript: Seq<Seq<char>>,
    success: bool,
) -> Seq<char> {
    role + "|"@ + task_title + "|"@ + one_line(joined(transcript_tail(transcript), " "@)) + "|"@
        + verdict(success)
}

/// Whether the node at `i` no longer holds its top-level task open: it is
/// done, or it stands directly under a task that is done.
pub open spec fn at_rest(nodes: Seq<NodeView>, i: int) -> bool {
    ||| nodes[i].entry.status == PlannerTaskStatusContract::Done
    ||| match nodes[i].parent_id {
        Some(parent) => node_status(nodes, parent) == Some(PlannerTaskStatusContract::Done),
        None => false,
    }
}

/// Whether some job for the top-level task `top` waits in the queue.
pub open spec fn has_job_for(queue: Seq<JobView>, top: u64) -> bool {
    exists|j: int| 0 <= j < queue.len() && (#[trigger] queue[j]).top_task_id == top
}

/// Whether a job for the top-level task `top` is queued or running.
pub open spec fn is_busy(w: WorkflowView, top: u64) -> bool {
    ||| has_job_for(w.queue, top)
    ||| match w.active {
        Some(active) => active.job.top_task_id == top,
        None => false,
    }
}

/// Whether everything under the top-level task `top` has come to rest:
/// every task below it is at rest and no job for it is queued or running.
pub open spec fn branch_settled(w: WorkflowView, top: u64) -> bool {
    &&& forall|i: int|
        0 <= i < w.nodes.len() && (#[trigger] w.nodes[i]).top_task_id == top && w.nodes[i].id
            != top ==> at_rest(w.nodes, i)
    &&& !is_busy(w, top)
}

/// Whether the top-level task `top` is to be closed now: it is in the
/// graph, is not done yet, and everything under it has come to rest.
pub open spec fn closes_top(w: WorkflowView, top: u64) -> bool {
    &&& has_node(w.nodes, top)
    &&& w.nodes[node_index(w.nodes, top)].parent_id is None
    &&& w.nodes[node_index(w.nodes, top)].entry.status != PlannerTaskStatusContract::Done
    &&& branch_settled(w, top)
}

/// What is said when a top-level task is closed.
pub open spec fn top_done_message(top: u64) -> Seq<char> {
    "System: Task #"@ + decimal(top as int) + " completed."@
}

/// Closes the top-level task `top` if it is to be closed, and says so.
pub open spec fn top_checked(w: WorkflowView, top: u64) -> Outcome {
    if closes_top(w, top) {
        Outcome {
            state: with_status(w, top, PlannerTaskStatusContract::Done),
            messages: seq![top_done_message(top)],
        }
    } else {
        Outcome { state: w, messages: Seq::empty() }
    }
}

/// `first` followed by what `then` does to the state `first` left.
pub open spec fn followed_by(first: Outcome, then: Outcome) -> Outcome {
    Outcome { state: then.state, messages: first.messages + then.messages }
}

/// `outcome` with `message` said before its own messages.
pub open spec fn saying_first(message: Seq<char>, outcome: Outcome) -> Outcome {
    Outcome { state: outcome.state, messages: seq![message] + outcome.messages }
}

/// A state that has nothing to say.
pub open spec fn silent(w: WorkflowView) -> Outcome {
    Outcome { state: w, messages: Seq::empty() }
}

/// Where a node stands among its siblings: by its `order`, those without
/// one last.
pub open spec fn rank(node: NodeView) -> int {
    match node.entry.order {
        Some(order) => order as int,
        None => u32::MAX as int + 1,
    }
}

/// The node at `i` is served no later than the node at `j`: it has the
/// smaller rank, or the same rank and stands no later in the graph.
pub open spec fn served_before(nodes: Seq<NodeView>, i: int, j: int) -> bool {
    rank(nodes[i]) < rank(nodes[j]) || (rank(nodes[i]) == rank(nodes[j]) && i <= j)
}

/// An unfinished node of kind `kind` directly under `parent`.
pub open spec fn is_pending_child(
    node: NodeView,
    parent: Option<u64>,
    kind: PlannerTaskKindContract,
) -> bool {
    &&& node.parent_id == parent
    &&& node.entry.kind == kind
    &&& node.entry.status != PlannerTaskStatusContract::Done
}

/// The node at `i` is the unfinished child of `parent` of kind `kind` that
/// is served first.
pub open spec fn is_next_child(
    nodes: Seq<NodeView>,
    parent: Option<u64>,
    kind: PlannerTaskKindContract,
    i: int,
) -> bool {
    &&& 0 <= i < nodes.len()
    &&& is_pending_child(nodes[i], parent, kind)
    &&& forall|j: int|
        0 <= j < nodes.len() && is_pending_child(#[trigger] nodes[j], parent, kind)
            ==> served_before(nodes, i, j)
}

/// Whether `parent` has an unfinished child of kind `kind`.
pub open spec fn has_pending_child(
    nodes: Seq<NodeView>,
    parent: Option<u64>,
    kind: PlannerTaskKindContract,
) -> bool {
    exists|i: int| is_next_child(nodes, parent, kind, i)
}

/// The id of the unfinished child of `parent` of kind `kind` that is served first.
pub open spec fn next_child(
    nodes: Seq<NodeView>,
    parent: Option<u64>,
    kind: PlannerTaskKindContract,
) -> u64 {
    nodes[choose|i: int| is_next_child(nodes, parent, kind, i)].id
}

/// The child that is served first is unique.
pub proof fn lemma_next_child_unique(
    nodes: Seq<NodeView>,
    parent: Option<u64>,
    kind: PlannerTaskKindContract,
    i: int,
)
    requires
        is_next_child(nodes, parent, kind, i),
    ensures
        has_pending_child(nodes, parent, kind),
        next_child(nodes, parent, kind) == nodes[i].id,
{
    let k = choose|k: int| is_next_child(nodes, parent, kind, k);
    assert(is_next_child(nodes, parent, kind, k));
    assert(served_before(nodes, i, k));
    assert(served_before(nodes, k, i));
}

/// Where no node is an unfinished child, none is served first.
pub proof fn lemma_no_pending_child(
    nodes: Seq<NodeView>,
    parent: Option<u64>,
    kind: PlannerTaskKindContract,
)
    requires
        forall|j: int| 0 <= j < nodes.len() ==>
            !is_pending_child(#[trigger] nodes[j], parent, kind),
    ensures
        !has_pending_child(nodes, parent, kind),
{
    if has_pending_child(nodes, parent, kind) {
        let k = choose|k: int| is_next_child(nodes, parent, kind, k);
        assert(is_pending_child(nodes[k], parent, kind));
    }
}

/// The start of every message about the top-level task `top`.
pub open spec fn task_tag(top: u64) -> Seq<char> {
    "System: Task #"@ + decimal(top as int)
}

/// The first job of a branch of the top-level task `top`.
pub open spec fn first_job(top: u64, kind: PlannerTaskKindContract, node: u64) -> JobKindView {
    match kind {
        PlannerTaskKindContract::Implementor => JobKindView::Implementor {
            implementor_id: node,
            pass: 1,
            feedback: None,
        },
        PlannerTaskKindContract::TestWriter => JobKindView::TestWriter {
            test_writer_id: node,
            pass: 1,
            feedback: None,
            skip_test_runner_on_success: false,
            resume_auditor_id: None,
            resume_audit_pass: None,
        },
        _ => JobKindView::FinalAudit { node_id: node, pass: 1 },
    }
}

/// What is said when the first job of a branch is queued.
pub open spec fn branch_queued_message(top: u64, kind: PlannerTaskKindContract) -> Seq<char> {
    task_tag(top) + match kind {
        PlannerTaskKindContract::Implementor => " implementor queued."@,
        PlannerTaskKindContract::TestWriter => " test-writer queued."@,
        _ => " final audit queued."@,
    }
}

/// The state after the branch of kind `kind` that is served first under
/// `top` has had its first job queued.
pub open spec fn branch_started(
    w: WorkflowView,
    top: u64,
    kind: PlannerTaskKindContract,
) -> Outcome {
    Outcome {
        state: with_job(
            w,
            JobView {
                top_task_id: top,
                kind: first_job(top, kind, next_child(w.nodes, Some(top), kind)),
            },
        ),
        messages: seq![branch_queued_message(top, kind)],
    }
}

/// Moves the top-level task `top` on.
///
/// While a job for it is queued or running, nothing is to be done. Else
/// the first job of its next unfinished branch is queued: an implementor
/// before a test writer, a test writer before the final audit. With no
/// branch left, the task is closed if everything under it has come to rest.
pub open spec fn top_advanced(w: WorkflowView, top: u64) -> Outcome {
    if is_busy(w, top) {
        silent(w)
    } else if has_pending_child(w.nodes, Some(top), PlannerTaskKindContract::Implementor) {
        branch_started(w, top, PlannerTaskKindContract::Implementor)
    } else if has_pending_child(w.nodes, Some(top), PlannerTaskKindContract::TestWriter) {
        branch_started(w, top, PlannerTaskKindContract::TestWriter)
    } else if has_pending_child(w.nodes, Some(top), PlannerTaskKindContract::FinalAudit) {
        branch_started(w, top, PlannerTaskKindContract::FinalAudit)
    } else {
        top_checked(w, top)
    }
}

/// The key under which the output of a job for node `id` in role `role`
/// is filed.
pub open spec fn context_key(role: Seq<char>, id: u64) -> Seq<char> {
    role + ":"@ + decimal(id as int)
}

/// What is said when a test writer has finished a pass.
pub open spec fn test_writer_pass_message(top: u64, pass: u8, ending: Seq<char>) -> Seq<char> {
    task_tag(top) + " test-writer pass "@ + decimal(pass as int) + ending
}

/// What follows a test writer's work on node `test_writer_id`.
///
/// Where an audit is wanted first and an auditor stands under the test
/// writer, the auditor is queued with the report. Else, with tests mode
/// on, the test run under the test writer is queued. Else the test writer
/// is done and its top-level task moves on.
pub open spec fn test_writer_next_step(
    w: WorkflowView,
    top: u64,
    test_writer_id: u64,
    pass: u8,
    audit_first: bool,
    report: Option<Seq<char>>,
) -> Outcome {
    if audit_first && has_pending_child(
        w.nodes,
        Some(test_writer_id),
        PlannerTaskKindContract::Auditor,
    ) {
        Outcome {
            state: with_job(
                w,
                JobView {
                    top_task_id: top,
                    kind: JobKindView::TestWriterAuditor {
                        test_writer_id,
                        auditor_id: next_child(
                            w.nodes,
                            Some(test_writer_id),
                            PlannerTaskKindContract::Auditor,
                        ),
                        pass: 1,
                        test_report: report,
                    },
                },
            ),
            messages: seq![test_writer_pass_message(top, pass, " complete; audit queued."@)],
        }
    } else if w.tests_mode && has_pending_child(
        w.nodes,
        Some(test_writer_id),
        PlannerTaskKindContract::TestRunner,
    ) {
        Outcome {
            state: with_job(
                w,
                JobView {
                    top_task_id: top,
                    kind: JobKindView::TestRun {
                        runner_id: next_child(
                            w.nodes,
                            Some(test_writer_id),
                            PlannerTaskKindContract::TestRunner,
                        ),
                        pass,
                        parent_context_key: Some(context_key("test_writer"@, test_writer_id)),
                    },
                },
            ),
            messages: seq![test_writer_pass_message(top, pass, " complete; test run queued."@)],
        }
    } else {
        saying_first(
            test_writer_pass_message(top, pass, " complete."@),
            top_advanced(with_status(w, test_writer_id, PlannerTaskStatusContract::Done), top),
        )
    }
}

/// Every entry of the ledger counts at least one attempt and gives a reason.
pub open spec fn ledger_sound(failures: Seq<FailureView>) -> bool {
    forall|i: int|
        0 <= i < failures.len() ==> (#[trigger] failures[i]).attempts >= 1 && failures[i].reason.len()
            > 0
}

/// Every task has either no parent or a parent in the same graph.
pub open spec fn parents_present(nodes: Seq<NodeView>) -> bool {
    forall|i: int|
        0 <= i < nodes.len() ==> match (#[trigger] nodes[i]).parent_id {
            Some(parent) => has_node(nodes, parent),
            None => true,
        }
}

/// What holds of every state the engine can be in.
pub open spec fn valid(w: WorkflowView) -> bool {
    &&& parents_present(w.nodes)
    &&& ledger_sound(w.failures)
    &&& w.context.len() <= MAX_CONTEXT_ENTRIES
}

/// Setting a status moves no node and changes no id, parent or kind.
pub proof fn lemma_status_keeps_graph(
    nodes: Seq<NodeView>,
    id: u64,
    status: PlannerTaskStatusContract,
)
    ensures
        forall|x: u64| has_node(nodes_with_status(nodes, id, status), x) == has_node(nodes, x),
        forall|x: u64|
            has_node(nodes, x) ==> node_index(nodes_with_status(nodes, id, status), x)
                == node_index(nodes, x),
        parents_present(nodes) ==> parents_present(nodes_with_status(nodes, id, status)),
{
    let after = nodes_with_status(nodes, id, status);
    assert forall|x: u64| has_node(after, x) == has_node(nodes, x) by {
        if has_node(nodes, x) {
            let k = node_index(nodes, x);
            assert(is_first_with_id(after, x, k)) by {
                assert forall|j: int| 0 <= j < k implies (#[trigger] after[j]).id != x by {
                    assert(nodes[j].id != x);
                }
            }
        }
        if has_node(after, x) {
            let k = node_index(after, x);
            assert(is_first_with_id(nodes, x, k)) by {
                assert forall|j: int| 0 <= j < k implies (#[trigger] nodes[j]).id != x by {
                    assert(after[j].id != x);
                }
            }
        }
    }
    assert forall|x: u64| has_node(nodes, x) implies node_index(after, x) == node_index(
        nodes,
        x,
    ) by {
        let k = node_index(nodes, x);
        assert(is_first_with_id(after, x, k)) by {
            assert forall|j: int| 0 <= j < k implies (#[trigger] after[j]).id != x by {
                assert(nodes[j].id != x);
            }
        }
        lemma_first_with_id_unique(after, x, k);
    }
    if parents_present(nodes) {
        assert forall|i: int| 0 <= i < after.len() implies match (#[trigger] after[i]).parent_id {
            Some(parent) => has_node(after, parent),
            None => true,
        } by {
            assert(after[i].parent_id == nodes[i].parent_id);
        }
    }
}

/// Each step the engine is built from leaves a valid state valid.
pub proof fn lemma_steps_keep_valid(w: WorkflowView)
    requires
        valid(w),
    ensures
        forall|id: u64, status: PlannerTaskStatusContract| valid(
            #[trigger] with_status(w, id, status),
        ),
        forall|job: JobView| valid(#[trigger] with_job(w, job)),
        forall|entry: Seq<char>| valid(#[trigger] with_context(w, entry)),
        forall|failure: FailureView|
            failure.attempts >= 1 && failure.reason.len() > 0 ==> valid(
                #[trigger] with_failure(w, failure),
            ),
{
    assert forall|id: u64, status: PlannerTaskStatusContract| valid(
        #[trigger] with_status(w, id, status),
    ) by {
        lemma_status_keeps_graph(w.nodes, id, status);
    }
}

/// Moving a top-level task on leaves a valid state valid.
pub proof fn lemma_top_advanced_valid(w: WorkflowView, top: u64)
    requires
        valid(w),
    ensures
        valid(top_advanced(w, top).state),
{
    lemma_steps_keep_valid(w);
}

/// The step after a test writer's work leaves a valid state valid.
pub proof fn lemma_test_writer_next_step_valid(
    w: WorkflowView,
    top: u64,
    test_writer_id: u64,
    pass: u8,
    audit_first: bool,
    report: Option<Seq<char>>,
)
    requires
        valid(w),
    ensures
        valid(test_writer_next_step(w, top, test_writer_id, pass, audit_first, report).state),
{
    lemma_steps_keep_valid(w);
    lemma_top_advanced_valid(with_status(w, test_writer_id, PlannerTaskStatusContract::Done), top);
}

/// Whether an audit of the implementor `implementor_id` waits in the queue.
pub open spec fn has_audit_queued(queue: Seq<JobView>, implementor_id: u64) -> bool {
    exists|j: int|
        0 <= j < queue.len() && (#[trigger] queue[j]).kind is ImplementorAuditor
            && queue[j].kind->ImplementorAuditor_implementor_id == implementor_id
}

/// What is said when an implementor has finished a pass.
pub open spec fn implementor_pass_message(top: u64, pass: u8, ending: Seq<char>) -> Seq<char> {
    task_tag(top) + " implementor pass "@ + decimal(pass as int) + ending
}

/// What follows an implementor's work on node `implementor_id`.
///
/// Where an audit is wanted first: if one already waits in the queue
/// nothing is added, and if an auditor stands unfinished under the
/// implementor its first audit is queued. Else, with tests mode on, the
/// test run under the implementor is queued. Else the implementor is done
/// and its top-level task moves on.
pub open spec fn implementor_next_step(
    w: WorkflowView,
    top: u64,
    implementor_id: u64,
    pass: u8,
    audit_first: bool,
) -> Outcome {
    if audit_first && has_audit_queued(w.queue, implementor_id) {
        Outcome {
            state: w,
            messages: seq![implementor_pass_message(top, pass, " complete; audit follows."@)],
        }
    } else if audit_first && has_pending_child(
        w.nodes,
        Some(implementor_id),
        PlannerTaskKindContract::Auditor,
    ) {
        Outcome {
            state: with_job(
                w,
                JobView {
                    top_task_id: top,
                    kind: JobKindView::ImplementorAuditor {
                        implementor_id,
                        auditor_id: next_child(
                            w.nodes,
                            Some(implementor_id),
                            PlannerTaskKindContract::Auditor,
                        ),
                        pass: 1,
                        audit_report: None,
                    },
                },
            ),
            messages: seq![implementor_pass_message(top, pass, " complete; audit queued."@)],
        }
    } else if w.tests_mode && has_pending_child(
        w.nodes,
        Some(implementor_id),
        PlannerTaskKindContract::TestRunner,
    ) {
        Outcome {
            state: with_job(
                w,
                JobView {
                    top_task_id: top,
                    kind: JobKindView::TestRun {
                        runner_id: next_child(
                            w.nodes,
                            Some(implementor_id),
                            PlannerTaskKindContract::TestRunner,
                        ),
                        pass,
                        parent_context_key: Some(context_key("implementor"@, implementor_id)),
                    },
                },
            ),
            messages: seq![implementor_pass_message(top, pass, " complete; test run queued."@)],
        }
    } else {
        saying_first(
            implementor_pass_message(top, pass, " complete."@),
            top_advanced(with_status(w, implementor_id, PlannerTaskStatusContract::Done), top),
        )
    }
}

/// The step after an implementor's work leaves a valid state valid.
pub proof fn lemma_implementor_next_step_valid(
    w: WorkflowView,
    top: u64,
    implementor_id: u64,
    pass: u8,
    audit_first: bool,
)
    requires
        valid(w),
    ensures
        valid(implementor_next_step(w, top, implementor_id, pass, audit_first).state),
{
    lemma_steps_keep_valid(w);
    lemma_top_advanced_valid(with_status(w, implementor_id, PlannerTaskStatusContract::Done), top);
}

/// `nodes` with every finished child of `parent` of kind `kind` marked as
/// needing changes.
pub open spec fn nodes_reopened(
    nodes: Seq<NodeView>,
    parent: u64,
    kind: PlannerTaskKindContract,
) -> Seq<NodeView> {
    Seq::new(
        nodes.len(),
        |i: int|
            if nodes[i].parent_id == Some(parent) && nodes[i].entry.kind == kind {
                node_with_status(nodes[i], PlannerTaskStatusContract::NeedsChanges)
            } else {
                nodes[i]
            },
    )
}

/// The state after the children of `parent` of kind `kind` have been
/// marked as needing changes.
pub open spec fn reopened(
    w: WorkflowView,
    parent: u64,
    kind: PlannerTaskKindContract,
) -> WorkflowView {
    WorkflowView { nodes: nodes_reopened(w.nodes, parent, kind), ..w }
}

/// Reopening moves no node and changes no id or parent.
pub proof fn lemma_reopened_valid(w: WorkflowView, parent: u64, kind: PlannerTaskKindContract)
    requires
        valid(w),
    ensures
        valid(reopened(w, parent, kind)),
{
    let after = nodes_reopened(w.nodes, parent, kind);
    assert forall|i: int| 0 <= i < after.len() implies match (#[trigger] after[i]).parent_id {
        Some(p) => has_node(after, p),
        None => true,
    } by {
        assert(after[i].parent_id == w.nodes[i].parent_id);
        match w.nodes[i].parent_id {
            Some(p) => {
                assert(has_node(w.nodes, p));
                let k = node_index(w.nodes, p);
                assert(is_first_with_id(after, p, k)) by {
                    assert forall|j: int| 0 <= j < k implies (#[trigger] after[j]).id != p by {
                        assert(w.nodes[j].id != p);
                    }
                }
            },
            None => {},
        }
    }
}

/// The lines of a transcript as one text, one line under the other.
pub open spec fn transcript_text(transcript: Seq<Seq<char>>) -> Seq<char> {
    joined(transcript, "\n"@)
}

/// The last lines of a transcript as one text.
pub open spec fn transcript_tail_text(transcript: Seq<Seq<char>>) -> Seq<char> {
    joined(transcript_tail(transcript), "\n"@)
}

/// The next pass after `pass`, stopping at the largest number.
pub open spec fn next_pass(pass: u8) -> u8 {
    if pass == u8::MAX {
        pass
    } else {
        (pass + 1) as u8
    }
}

/// The parent of node `id`, none where the node is missing or has none.
pub open spec fn node_parent(nodes: Seq<NodeView>, id: u64) -> Option<u64> {
    if has_node(nodes, id) {
        nodes[node_index(nodes, id)].parent_id
    } else {
        None
    }
}

/// The kind of node `id`, if it is in the graph.
pub open spec fn node_kind(nodes: Seq<NodeView>, id: u64) -> Option<PlannerTaskKindContract> {
    if has_node(nodes, id) {
        Some(nodes[node_index(nodes, id)].entry.kind)
    } else {
        None
    }
}

/// The kind of the parent of node `id`, where it has one in the graph.
pub open spec fn parent_kind(nodes: Seq<NodeView>, id: u64) -> Option<PlannerTaskKindContract> {
    match node_parent(nodes, id) {
        Some(parent) => node_kind(nodes, parent),
        None => None,
    }
}

/// What follows the work of a node that stands under `parent`: the next
/// step of the test writer or implementor it stands under, and the next
/// branch of the top-level task where it stands under neither.
pub open spec fn parent_next_step(
    w: WorkflowView,
    top: u64,
    parent: Option<u64>,
    kind: Option<PlannerTaskKindContract>,
    pass: u8,
) -> Outcome {
    match (parent, kind) {
        (Some(p), Some(PlannerTaskKindContract::TestWriter)) => test_writer_next_step(
            w,
            top,
            p,
            pass,
            false,
            None,
        ),
        (Some(p), Some(PlannerTaskKindContract::Implementor)) => implementor_next_step(
            w,
            top,
            p,
            pass,
            false,
        ),
        _ => top_advanced(w, top),
    }
}

/// The step after the work of a node under `parent` leaves a valid state valid.
pub proof fn lemma_parent_next_step_valid(
    w: WorkflowView,
    top: u64,
    parent: Option<u64>,
    kind: Option<PlannerTaskKindContract>,
    pass: u8,
)
    requires
        valid(w),
    ensures
        valid(parent_next_step(w, top, parent, kind, pass).state),
{
    lemma_top_advanced_valid(w, top);
    if parent is Some {
        lemma_test_writer_next_step_valid(w, top, parent->0, pass, false, None);
        lemma_implementor_next_step_valid(w, top, parent->0, pass, false);
    }
}

/// What validity means: every task has either no parent or a parent in
/// the same graph, and every entry of the ledger counts at least one
/// attempt and gives a reason.
pub proof fn lemma_valid_state(w: WorkflowView)
    requires
        valid(w),
    ensures
        forall|i: int|
            0 <= i < w.nodes.len() && (#[trigger] w.nodes[i]).parent_id is Some ==> has_node(
                w.nodes,
                w.nodes[i].parent_id->0,
            ),
        forall|i: int|
            0 <= i < w.failures.len() ==> (#[trigger] w.failures[i]).attempts >= 1
                && w.failures[i].reason.len() > 0,
        w.context.len() <= MAX_CONTEXT_ENTRIES,
{
}

} // verus!
