//! The workflow engine: the task graph, the queue of worker jobs, the single
//! active job, the rolling context and the failure ledger, owned together
//! and changed only through the operations below.

pub mod auditor;
pub mod engine;
pub mod final_audit;
pub mod graph;
pub mod implementor;
pub mod model;
pub mod pane;
pub mod retries;
pub mod service;
pub mod test_runner;
pub mod test_writer;

use crate::api::contracts::{
    failure_views, PlannerTaskEntryContract, PlannerTaskKindContract, PlannerTaskStatusContract,
    TaskFailureContract, WorkerRoleContract, WorkflowFailureKindContract,
};
use crate::api::envelope::ApiErrorCode;
use crate::text::{join, join_from, optional_text, texts, to_one_line, u64_to_string, u8_to_string};
use model::{
    at_rest, branch_started, closes_top, context_block, context_summary, has_audit_queued, has_node,
    has_pending_child, implementor_next_step, is_busy, is_pending_child, lemma_first_with_id_unique,
    lemma_implementor_next_step_valid, lemma_next_child_unique, lemma_no_node,
    lemma_no_pending_child, lemma_parent_next_step_valid, lemma_reopened_valid,
    lemma_steps_keep_valid, lemma_test_writer_next_step_valid, lemma_top_advanced_valid, next_child,
    node_details, node_index, node_kind, node_parent, node_status, node_title, nodes_reopened,
    nodes_with_status, parent_next_step, rank, reopened, served_before, task_tag, task_title,
    test_writer_next_step, top_advanced, transcript_tail, transcript_tail_text, valid, with_context,
    with_failure, with_job, with_status, ActiveView, JobKindView, JobView, NodeView, WorkflowView,
    MAX_CONTEXT_ENTRIES, SUMMARY_TAIL_LINES,
};
use std::collections::VecDeque;
use vstd::prelude::*;
use vstd::string::StringExecFns;

verus! {

/// An implementor is given up after failing this many passes.
pub const MAX_IMPL_RETRIES: u8 = 3;

/// An auditor is overruled after rejecting this many passes.
pub const MAX_AUDIT_PASSES: u8 = 4;

/// A test writer or a test run is given up after failing this many passes.
pub const MAX_TEST_RETRIES: u8 = 5;

/// A final audit is overruled after rejecting this many passes.
pub const MAX_FINAL_AUDIT_PASSES: u8 = 4;

/// With this set, a workflow whose tests mode is off closes test-writing
/// work that fails instead of retrying it.
pub const ENFORCE_TESTS_MODE_RUNTIME_GATING: bool = true;

/// How far a task has come.
pub type TaskStatus = PlannerTaskStatusContract;

/// What a task is for.
pub type TaskKind = PlannerTaskKindContract;

/// Which loop gave up.
pub type WorkflowFailureKind = WorkflowFailureKindContract;

/// An entry of the failure ledger.
pub type WorkflowFailure = TaskFailureContract;

/// Why the engine refused a request.
#[derive(Debug, Clone, Copy, PartialEq, Eq, Structural)]
pub enum WorkflowError {
    /// No job is active, so none can be finished.
    NoActiveJob,
    /// Two tasks of the plan have the same id.
    DuplicateTaskId,
    /// A task of the plan names a parent that is not in the plan.
    UnknownParent,
    /// A task of the plan is its own ancestor.
    CyclicParent,
    /// The engine has no number left to give to a new task.
    TaskIdsExhausted,
}

/// The error code under which each refusal travels.
pub open spec fn error_code(error: WorkflowError) -> ApiErrorCode {
    match error {
        WorkflowError::NoActiveJob => ApiErrorCode::InvalidRequest,
        WorkflowError::DuplicateTaskId => ApiErrorCode::ValidationFailed,
        WorkflowError::UnknownParent => ApiErrorCode::ValidationFailed,
        WorkflowError::CyclicParent => ApiErrorCode::ValidationFailed,
        WorkflowError::TaskIdsExhausted => ApiErrorCode::Internal,
    }
}

/// What each refusal says.
pub open spec fn error_message(error: WorkflowError) -> Seq<char> {
    match error {
        WorkflowError::NoActiveJob => "no worker job is active"@,
        WorkflowError::DuplicateTaskId => "the plan holds a task id twice"@,
        WorkflowError::UnknownParent => "a task of the plan names an unknown parent id"@,
        WorkflowError::CyclicParent => "a task of the plan is its own ancestor"@,
        WorkflowError::TaskIdsExhausted => "no task number is left"@,
    }
}

impl WorkflowError {
    /// The error code under which this refusal travels.
    pub fn code(&self) -> (code: ApiErrorCode)
        ensures
            code == error_code(*self),
    {
        match self {
            WorkflowError::NoActiveJob => ApiErrorCode::InvalidRequest,
            WorkflowError::DuplicateTaskId => ApiErrorCode::ValidationFailed,
            WorkflowError::UnknownParent => ApiErrorCode::ValidationFailed,
            WorkflowError::CyclicParent => ApiErrorCode::ValidationFailed,
            WorkflowError::TaskIdsExhausted => ApiErrorCode::Internal,
        }
    }

    /// What this refusal says.
    pub fn message(&self) -> (message: String)
        ensures
            message@ == error_message(*self),
    {
        match self {
            WorkflowError::NoActiveJob => String::from_str("no worker job is active"),
            WorkflowError::DuplicateTaskId => String::from_str("the plan holds a task id twice"),
            WorkflowError::UnknownParent => String::from_str(
                "a task of the plan names an unknown parent id",
            ),
            WorkflowError::CyclicParent => {
                String::from_str("a task of the plan is its own ancestor")
            },
            WorkflowError::TaskIdsExhausted => String::from_str("no task number is left"),
        }
    }
}

/// A task of the graph.
#[derive(Debug, Clone)]
pub struct TaskNode {
    /// The number under which the engine knows the task.
    pub id: u64,
    /// The number of the top-level task it belongs to; its own for a top-level task.
    pub top_task_id: u64,
    /// The number of the parent, none for a top-level task.
    pub parent_id: Option<u64>,
    /// The task as the plan states it, with its current status.
    pub entry: PlannerTaskEntryContract,
}

impl View for TaskNode {
    type V = NodeView;

    open spec fn view(&self) -> NodeView {
        NodeView {
            id: self.id,
            top_task_id: self.top_task_id,
            parent_id: self.parent_id,
            entry: self.entry@,
        }
    }
}

/// What a worker job is to do.
#[derive(Debug, Clone, PartialEq, Eq)]
pub enum WorkerJobKind {
    Implementor { implementor_id: u64, pass: u8, feedback: Option<String> },
    ImplementorAuditor {
        implementor_id: u64,
        auditor_id: u64,
        pass: u8,
        audit_report: Option<String>,
    },
    TestWriter {
        test_writer_id: u64,
        pass: u8,
        feedback: Option<String>,
        skip_test_runner_on_success: bool,
        resume_auditor_id: Option<u64>,
        resume_audit_pass: Option<u8>,
    },
    TestWriterAuditor {
        test_writer_id: u64,
        auditor_id: u64,
        pass: u8,
        test_report: Option<String>,
    },
    TestRun { runner_id: u64, pass: u8, parent_context_key: Option<String> },
    FinalAudit { node_id: u64, pass: u8 },
}

impl View for WorkerJobKind {
    type V = JobKindView;

    open spec fn view(&self) -> JobKindView {
        match *self {
            WorkerJobKind::Implementor { implementor_id, pass, feedback } => {
                JobKindView::Implementor { implementor_id, pass, feedback: optional_text(feedback) }
            },
            WorkerJobKind::ImplementorAuditor {
                implementor_id,
                auditor_id,
                pass,
                audit_report,
            } => {
                JobKindView::ImplementorAuditor {
                    implementor_id,
                    auditor_id,
                    pass,
                    audit_report: optional_text(audit_report),
                }
            },
            WorkerJobKind::TestWriter {
                test_writer_id,
                pass,
                feedback,
                skip_test_runner_on_success,
                resume_auditor_id,
                resume_audit_pass,
            } => JobKindView::TestWriter {
                test_writer_id,
                pass,
                feedback: optional_text(feedback),
                skip_test_runner_on_success,
                resume_auditor_id,
                resume_audit_pass,
            },
            WorkerJobKind::TestWriterAuditor { test_writer_id, auditor_id, pass, test_report } => {
                JobKindView::TestWriterAuditor {
                    test_writer_id,
                    auditor_id,
                    pass,
                    test_report: optional_text(test_report),
                }
            },
            WorkerJobKind::TestRun { runner_id, pass, parent_context_key } => JobKindView::TestRun {
                runner_id,
                pass,
                parent_context_key: optional_text(parent_context_key),
            },
            WorkerJobKind::FinalAudit {
                node_id,
                pass,
            } => JobKindView::FinalAudit { node_id, pass },
        }
    }
}

/// A unit of work for the top-level task `top_task_id`.
#[derive(Debug, Clone, PartialEq, Eq)]
pub struct WorkerJob {
    pub top_task_id: u64,
    pub kind: WorkerJobKind,
}

impl View for WorkerJob {
    type V = JobView;

    open spec fn view(&self) -> JobView {
        JobView { top_task_id: self.top_task_id, kind: self.kind@ }
    }
}

/// The job that is running, with what it has written so far.
#[derive(Debug, Clone)]
pub struct ActiveJob {
    pub job: WorkerJob,
    pub role: WorkerRoleContract,
    pub transcript: Vec<String>,
}

impl View for ActiveJob {
    type V = ActiveView;

    open spec fn view(&self) -> ActiveView {
        ActiveView { job: self.job@, role: self.role, transcript: texts(self.transcript@) }
    }
}

/// The values of a list of nodes.
pub open spec fn node_views(nodes: Seq<TaskNode>) -> Seq<NodeView> {
    Seq::new(nodes.len(), |i: int| nodes[i]@)
}

/// The values of a list of jobs.
pub open spec fn job_views(jobs: Seq<WorkerJob>) -> Seq<JobView> {
    Seq::new(jobs.len(), |i: int| jobs[i]@)
}

/// The value of the active-job slot.
pub open spec fn active_view(active: Option<ActiveJob>) -> Option<ActiveView> {
    match active {
        Some(a) => Some(a@),
        None => None,
    }
}

/// The engine. It owns the task graph, the queue, the active-job slot, the
/// rolling context and the failure ledger.
#[derive(Debug, Clone)]
pub struct Workflow {
    pub(crate) nodes: Vec<TaskNode>,
    pub(crate) queue: VecDeque<WorkerJob>,
    pub(crate) active: Option<ActiveJob>,
    pub(crate) focus: Option<u64>,
    pub(crate) rolling_context: Vec<String>,
    pub(crate) recent_failures: Vec<WorkflowFailure>,
    pub(crate) tests_mode: bool,
    pub(crate) next_task_id: u64,
}

impl Workflow {
    /// The mathematical state of the engine.
    pub open(crate) spec fn state(&self) -> WorkflowView {
        WorkflowView {
            nodes: node_views(self.nodes@),
            queue: job_views(self.queue@),
            active: active_view(self.active),
            focus: self.focus,
            context: texts(self.rolling_context@),
            failures: failure_views(self.recent_failures@),
            tests_mode: self.tests_mode,
            next_task_id: self.next_task_id,
        }
    }

    /// Whether test writing and test runs are scheduled at all.
    pub fn tests_mode_enabled(&self) -> (enabled: bool)
        ensures
            enabled == self.state().tests_mode,
    {
        self.tests_mode
    }

    /// The position of the first node called `id`.
    pub(crate) fn find_node(&self, id: u64) -> (found: Option<usize>)
        ensures
            found is Some == has_node(self.state().nodes, id),
            found matches Some(i) ==> i == node_index(self.state().nodes, id) && i
                < self.nodes.len(),
    {
        let mut i: usize = 0;
        while i < self.nodes.len()
            invariant
                i <= self.nodes.len(),
                forall|j: int| 0 <= j < i ==> (#[trigger] self.state().nodes[j]).id != id,
            decreases self.nodes.len() - i,
        {
            if self.nodes[i].id == id {
                proof {
                    lemma_first_with_id_unique(self.state().nodes, id, i as int);
                }
                return Some(i);
            }
            i += 1;
        }
        proof {
            lemma_no_node(self.state().nodes, id);
        }
        None
    }

    /// The title of the top-level task `top_task_id`; a task that is not in
    /// the graph is called by its number.
    pub fn task_title(&self, top_task_id: u64) -> (title: String)
        ensures
            title@ == task_title(self.state().nodes, top_task_id),
    {
        match self.find_node(top_task_id) {
            Some(i) => self.nodes[i].entry.title.clone(),
            None => {
                let mut title = String::from_str("Task #");
                title.append(u64_to_string(top_task_id).as_str());
                title
            },
        }
    }

    /// The title of node `id`, or `fallback` where the node is missing or
    /// has an empty title.
    pub fn node_title(&self, id: u64, fallback: &str) -> (title: String)
        ensures
            title@ == node_title(self.state().nodes, id, fallback@),
    {
        match self.find_node(id) {
            Some(i) => {
                if self.nodes[i].entry.title.as_str().is_empty() {
                    String::from_str(fallback)
                } else {
                    self.nodes[i].entry.title.clone()
                }
            },
            None => String::from_str(fallback),
        }
    }

    /// The details of node `id`, empty where the node is missing.
    pub fn node_details(&self, id: u64) -> (details: String)
        ensures
            details@ == node_details(self.state().nodes, id),
    {
        match self.find_node(id) {
            Some(i) => self.nodes[i].entry.details.clone(),
            None => String::new(),
        }
    }

    /// The rolling context as one block of text for a prompt.
    pub fn context_block(&self) -> (block: String)
        ensures
            block@ == context_block(self.state().context),
    {
        if self.rolling_context.len() == 0 {
            String::from_str("(no earlier context)")
        } else {
            join(self.rolling_context.as_slice(), "\n")
        }
    }

    /// Adds `entry` to the rolling context, letting go of the oldest
    /// entries where the context would otherwise exceed its bound.
    pub fn push_context(&mut self, entry: String)
        ensures
            final(self).state() == with_context(old(self).state(), entry@),
            valid(old(self).state()) ==> valid(final(self).state()),
    {
        proof {
            if valid(self.state()) {
                lemma_steps_keep_valid(self.state());
            }
        }
        self.rolling_context.push(entry);
        assert(texts(self.rolling_context@) == old(self).state().context.push(entry@));
        while self.rolling_context.len() > MAX_CONTEXT_ENTRIES
            invariant
                self.nodes == old(self).nodes,
                self.queue == old(self).queue,
                self.active == old(self).active,
                self.focus == old(self).focus,
                self.recent_failures == old(self).recent_failures,
                self.tests_mode == old(self).tests_mode,
                self.next_task_id == old(self).next_task_id,
                self.rolling_context@.len() <= old(self).rolling_context@.len() + 1,
                self.rolling_context@.len() >= MAX_CONTEXT_ENTRIES || self.rolling_context@.len()
                    == old(self).rolling_context@.len() + 1,
                texts(self.rolling_context@) == old(self).state().context.push(entry@).subrange(
                    old(self).rolling_context@.len() + 1 - self.rolling_context@.len(),
                    old(self).rolling_context@.len() as int + 1,
                ),
            decreases self.rolling_context.len(),
        {
            let ghost before = self.rolling_context@;
            self.rolling_context.remove(0);
            assert(texts(self.rolling_context@) == texts(before).subrange(
                1,
                before.len() as int,
            ));
        }
    }

    /// Sets the status of node `id`. Nothing changes where no node has that id.
    pub fn set_status(&mut self, id: u64, status: TaskStatus)
        ensures
            final(self).state() == with_status(old(self).state(), id, status),
            valid(old(self).state()) ==> valid(final(self).state()),
    {
        proof {
            if valid(self.state()) {
                lemma_steps_keep_valid(self.state());
            }
        }
        let mut i: usize = 0;
        while i < self.nodes.len()
            invariant
                i <= self.nodes.len() == old(self).nodes.len(),
                self.queue == old(self).queue,
                self.active == old(self).active,
                self.focus == old(self).focus,
                self.rolling_context == old(self).rolling_context,
                self.recent_failures == old(self).recent_failures,
                self.tests_mode == old(self).tests_mode,
                self.next_task_id == old(self).next_task_id,
                forall|j: int|
                    0 <= j < i ==> (#[trigger] self.nodes[j])@ == nodes_with_status(
                        old(self).state().nodes,
                        id,
                        status,
                    )[j],
                forall|j: int| i <= j < self.nodes.len() ==> self.nodes[j] == old(self).nodes[j],
            decreases self.nodes.len() - i,
        {
            if self.nodes[i].id == id {
                self.nodes[i].entry.status = status;
            }
            i += 1;
        }
        assert(self.state().nodes =~= nodes_with_status(old(self).state().nodes, id, status));
    }

    /// Puts `job` at the back of the queue.
    pub fn enqueue(&mut self, job: WorkerJob)
        ensures
            final(self).state() == with_job(old(self).state(), job@),
            valid(old(self).state()) ==> valid(final(self).state()),
    {
        proof {
            if valid(self.state()) {
                lemma_steps_keep_valid(self.state());
            }
        }
        self.queue.push_back(job);
        assert(self.state().queue =~= old(self).state().queue.push(job@));
    }

    /// Enters `failure` in the ledger.
    pub(crate) fn record_failure(&mut self, failure: WorkflowFailure)
        ensures
            final(self).state() == with_failure(old(self).state(), failure@),
    {
        self.recent_failures.push(failure);
        assert(self.state().failures =~= old(self).state().failures.push(failure@));
    }

    /// Whether a job for the top-level task `top` is queued or running.
    pub fn is_busy(&self, top: u64) -> (busy: bool)
        ensures
            busy == is_busy(self.state(), top),
    {
        match &self.active {
            Some(active) => {
                if active.job.top_task_id == top {
                    return true;
                }
            },
            None => {},
        }
        let mut j: usize = 0;
        while j < self.queue.len()
            invariant
                j <= self.queue.len(),
                forall|k: int| 0 <= k < j ==> (#[trigger] self.state().queue[k]).top_task_id != top,
            decreases self.queue.len() - j,
        {
            if self.queue[j].top_task_id == top {
                assert(self.state().queue[j as int].top_task_id == top);
                return true;
            }
            j += 1;
        }
        false
    }

    /// The status of node `id`, if it is in the graph.
    pub fn status_of(&self, id: u64) -> (status: Option<TaskStatus>)
        ensures
            status == node_status(self.state().nodes, id),
    {
        match self.find_node(id) {
            Some(i) => Some(self.nodes[i].entry.status),
            None => None,
        }
    }

    /// Whether every task below the top-level task `top` is at rest.
    fn all_at_rest(&self, top: u64) -> (rest: bool)
        ensures
            rest == forall|i: int|
                0 <= i < self.state().nodes.len() && (#[trigger] self.state().nodes[i]).top_task_id
                    == top && self.state().nodes[i].id != top ==> at_rest(self.state().nodes, i),
    {
        let mut i: usize = 0;
        while i < self.nodes.len()
            invariant
                i <= self.nodes.len(),
                forall|k: int|
                    0 <= k < i && (#[trigger] self.state().nodes[k]).top_task_id == top
                        && self.state().nodes[k].id != top ==> at_rest(self.state().nodes, k),
            decreases self.nodes.len() - i,
        {
            if self.nodes[i].top_task_id == top && self.nodes[i].id != top {
                let done = self.nodes[i].entry.status == TaskStatus::Done;
                let covered = match self.nodes[i].parent_id {
                    Some(parent) => match self.status_of(parent) {
                        Some(status) => status == TaskStatus::Done,
                        None => false,
                    },
                    None => false,
                };
                if !done && !covered {
                    assert(!at_rest(self.state().nodes, i as int));
                    return false;
                }
            }
            i += 1;
        }
        true
    }

    /// The unfinished child of `parent` of kind `kind` that is served first.
    pub fn next_pending_child(&self, parent: Option<u64>, kind: TaskKind) -> (child: Option<u64>)
        ensures
            child is Some == has_pending_child(self.state().nodes, parent, kind),
            child matches Some(id) ==> id == next_child(self.state().nodes, parent, kind),
    {
        let mut best: Option<usize> = None;
        let mut i: usize = 0;
        while i < self.nodes.len()
            invariant
                i <= self.nodes.len(),
                best is None ==> forall|j: int|
                    0 <= j < i ==> !is_pending_child(
                        #[trigger] self.state().nodes[j],
                        parent,
                        kind,
                    ),
                best matches Some(b) ==> b < i && is_pending_child(
                    self.state().nodes[b as int],
                    parent,
                    kind,
                ) && forall|j: int|
                    0 <= j < i && is_pending_child(#[trigger] self.state().nodes[j], parent, kind)
                        ==> served_before(self.state().nodes, b as int, j),
            decreases self.nodes.len() - i,
        {
            let node = &self.nodes[i];
            if same_parent(node.parent_id, parent) && node.entry.kind == kind && node.entry.status
                != TaskStatus::Done {
                match best {
                    None => {
                        best = Some(i);
                    },
                    Some(b) => {
                        if order_rank(node.entry.order) < order_rank(self.nodes[b].entry.order) {
                            best = Some(i);
                        }
                    },
                }
            }
            i += 1;
        }
        match best {
            Some(b) => {
                proof {
                    lemma_next_child_unique(self.state().nodes, parent, kind, b as int);
                }
                Some(self.nodes[b].id)
            },
            None => {
                proof {
                    lemma_no_pending_child(self.state().nodes, parent, kind);
                }
                None
            },
        }
    }

    /// Queues the first job of the branch of kind `kind` that is served
    /// first under `top`, if there is one, and says so.
    fn start_branch(&mut self, top: u64, kind: TaskKind, messages: &mut Vec<String>) -> (started:
        bool)
        requires
            kind == TaskKind::Implementor || kind == TaskKind::TestWriter || kind
                == TaskKind::FinalAudit,
        ensures
            started == has_pending_child(old(self).state().nodes, Some(top), kind),
            started ==> final(self).state() == branch_started(old(self).state(), top, kind).state
                && texts(final(messages)@) == texts(old(messages)@) + branch_started(
                old(self).state(),
                top,
                kind,
            ).messages,
            !started ==> final(self).state() == old(self).state() && final(messages)@ == old(
                messages,
            )@,
    {
        match self.next_pending_child(Some(top), kind) {
            Some(node) => {
                let job_kind = match kind {
                    TaskKind::Implementor => WorkerJobKind::Implementor {
                        implementor_id: node,
                        pass: 1,
                        feedback: None,
                    },
                    TaskKind::TestWriter => WorkerJobKind::TestWriter {
                        test_writer_id: node,
                        pass: 1,
                        feedback: None,
                        skip_test_runner_on_success: false,
                        resume_auditor_id: None,
                        resume_audit_pass: None,
                    },
                    _ => WorkerJobKind::FinalAudit { node_id: node, pass: 1 },
                };
                self.enqueue(WorkerJob { top_task_id: top, kind: job_kind });
                let mut message = task_tag_text(top);
                match kind {
                    TaskKind::Implementor => message.append(" implementor queued."),
                    TaskKind::TestWriter => message.append(" test-writer queued."),
                    _ => message.append(" final audit queued."),
                }
                say(messages, message);
                true
            },
            None => false,
        }
    }

    /// Moves the top-level task `top_task_id` on: queues the first job of
    /// its next unfinished branch, or, with no branch left, marks it done
    /// if everything under it has come to rest. While a job for it is
    /// queued or running nothing changes.
    pub fn try_mark_top_done(&mut self, top_task_id: u64, messages: &mut Vec<String>)
        ensures
            final(self).state() == top_advanced(old(self).state(), top_task_id).state,
            texts(final(messages)@) == texts(old(messages)@) + top_advanced(
                old(self).state(),
                top_task_id,
            ).messages,
            valid(old(self).state()) ==> valid(final(self).state()),
    {
        proof {
            if valid(self.state()) {
                lemma_top_advanced_valid(self.state(), top_task_id);
            }
        }
        if self.is_busy(top_task_id) {
            assert(texts(messages@) + Seq::<Seq<char>>::empty() == texts(messages@));
            return ;
        }
        if self.start_branch(top_task_id, TaskKind::Implementor, messages) {
            return ;
        }
        if self.start_branch(top_task_id, TaskKind::TestWriter, messages) {
            return ;
        }
        if self.start_branch(top_task_id, TaskKind::FinalAudit, messages) {
            return ;
        }
        let closes = match self.find_node(top_task_id) {
            Some(i) => self.nodes[i].parent_id.is_none() && self.nodes[i].entry.status
                != TaskStatus::Done && self.all_at_rest(top_task_id),
            None => false,
        };
        assert(closes == closes_top(self.state(), top_task_id));
        if closes {
            self.set_status(top_task_id, TaskStatus::Done);
            let mut message = task_tag_text(top_task_id);
            message.append(" completed.");
            say(messages, message);
        } else {
            assert(texts(messages@) + Seq::<Seq<char>>::empty() == texts(messages@));
        }
    }

    /// Decides what follows a test writer's work on node `test_writer_id`:
    /// its audit where `audit_first` asks for one and an auditor stands
    /// under it, else its test run where tests mode is on, else the end of
    /// its branch.
    pub fn queue_test_writer_next_step(
        &mut self,
        top_task_id: u64,
        test_writer_id: u64,
        pass: u8,
        audit_first: bool,
        report: Option<String>,
        messages: &mut Vec<String>,
    )
        ensures
            final(self).state() == test_writer_next_step(
                old(self).state(),
                top_task_id,
                test_writer_id,
                pass,
                audit_first,
                optional_text(report),
            ).state,
            texts(final(messages)@) == texts(old(messages)@) + test_writer_next_step(
                old(self).state(),
                top_task_id,
                test_writer_id,
                pass,
                audit_first,
                optional_text(report),
            ).messages,
            valid(old(self).state()) ==> valid(final(self).state()),
    {
        proof {
            if valid(self.state()) {
                lemma_test_writer_next_step_valid(
                    self.state(),
                    top_task_id,
                    test_writer_id,
                    pass,
                    audit_first,
                    optional_text(report),
                );
            }
        }
        let mut message = task_tag_text(top_task_id);
        message.append(" test-writer pass ");
        message.append(u8_to_string(pass).as_str());
        if audit_first {
            if let Some(auditor_id) = self.next_pending_child(
                Some(test_writer_id),
                TaskKind::Auditor,
            ) {
                self.enqueue(
                    WorkerJob {
                        top_task_id,
                        kind: WorkerJobKind::TestWriterAuditor {
                            test_writer_id,
                            auditor_id,
                            pass: 1,
                            test_report: report,
                        },
                    },
                );
                message.append(" complete; audit queued.");
                say(messages, message);
                return ;
            }
        }
        if self.tests_mode {
            if let Some(runner_id) = self.next_pending_child(
                Some(test_writer_id),
                TaskKind::TestRunner,
            ) {
                let mut key = String::from_str("test_writer");
                key.append(":");
                key.append(u64_to_string(test_writer_id).as_str());
                self.enqueue(
                    WorkerJob {
                        top_task_id,
                        kind: WorkerJobKind::TestRun {
                            runner_id,
                            pass,
                            parent_context_key: Some(key),
                        },
                    },
                );
                message.append(" complete; test run queued.");
                say(messages, message);
                return ;
            }
        }
        self.set_status(test_writer_id, TaskStatus::Done);
        message.append(" complete.");
        say(messages, message);
        let ghost said = texts(messages@);
        self.try_mark_top_done(top_task_id, messages);
        proof {
            let rest = top_advanced(
                with_status(old(self).state(), test_writer_id, TaskStatus::Done),
                top_task_id,
            ).messages;
            assert(said == texts(old(messages)@) + seq![message@]);
            assert(said + rest == texts(old(messages)@) + (seq![message@] + rest));
        }
    }

    /// Whether an audit of the implementor `implementor_id` waits in the queue.
    pub fn has_audit_queued(&self, implementor_id: u64) -> (queued: bool)
        ensures
            queued == has_audit_queued(self.state().queue, implementor_id),
    {
        let mut j: usize = 0;
        while j < self.queue.len()
            invariant
                j <= self.queue.len(),
                forall|k: int|
                    0 <= k < j ==> !((#[trigger] self.state().queue[k]).kind is ImplementorAuditor
                        && self.state().queue[k].kind->ImplementorAuditor_implementor_id
                        == implementor_id),
            decreases self.queue.len() - j,
        {
            let found = match &self.queue[j].kind {
                WorkerJobKind::ImplementorAuditor { implementor_id: queued_for, .. } => *queued_for
                    == implementor_id,
                _ => false,
            };
            if found {
                assert(self.state().queue[j as int].kind is ImplementorAuditor);
                return true;
            }
            j += 1;
        }
        false
    }

    /// Decides what follows an implementor's work on node
    /// `implementor_id`: its audit where `audit_first` asks for one, else
    /// its test run where tests mode is on, else the end of its branch.
    pub fn queue_implementor_next_step(
        &mut self,
        top_task_id: u64,
        implementor_id: u64,
        pass: u8,
        audit_first: bool,
        messages: &mut Vec<String>,
    )
        ensures
            final(self).state() == implementor_next_step(
                old(self).state(),
                top_task_id,
                implementor_id,
                pass,
                audit_first,
            ).state,
            texts(final(messages)@) == texts(old(messages)@) + implementor_next_step(
                old(self).state(),
                top_task_id,
                implementor_id,
                pass,
                audit_first,
            ).messages,
            valid(old(self).state()) ==> valid(final(self).state()),
    {
        proof {
            if valid(self.state()) {
                lemma_implementor_next_step_valid(
                    self.state(),
                    top_task_id,
                    implementor_id,
                    pass,
                    audit_first,
                );
            }
        }
        let mut message = task_tag_text(top_task_id);
        message.append(" implementor pass ");
        message.append(u8_to_string(pass).as_str());
        if audit_first {
            if self.has_audit_queued(implementor_id) {
                message.append(" complete; audit follows.");
                say(messages, message);
                return ;
            }
            if let Some(auditor_id) = self.next_pending_child(
                Some(implementor_id),
                TaskKind::Auditor,
            ) {
                self.enqueue(
                    WorkerJob {
                        top_task_id,
                        kind: WorkerJobKind::ImplementorAuditor {
                            implementor_id,
                            auditor_id,
                            pass: 1,
                            audit_report: None,
                        },
                    },
                );
                message.append(" complete; audit queued.");
                say(messages, message);
                return ;
            }
        }
        if self.tests_mode {
            if let Some(runner_id) = self.next_pending_child(
                Some(implementor_id),
                TaskKind::TestRunner,
            ) {
                let mut key = String::from_str("implementor");
                key.append(":");
                key.append(u64_to_string(implementor_id).as_str());
                self.enqueue(
                    WorkerJob {
                        top_task_id,
                        kind: WorkerJobKind::TestRun {
                            runner_id,
                            pass,
                            parent_context_key: Some(key),
                        },
                    },
                );
                message.append(" complete; test run queued.");
                say(messages, message);
                return ;
            }
        }
        self.set_status(implementor_id, TaskStatus::Done);
        message.append(" complete.");
        say(messages, message);
        let ghost said = texts(messages@);
        self.try_mark_top_done(top_task_id, messages);
        proof {
            let rest = top_advanced(
                with_status(old(self).state(), implementor_id, TaskStatus::Done),
                top_task_id,
            ).messages;
            assert(said == texts(old(messages)@) + seq![message@]);
            assert(said + rest == texts(old(messages)@) + (seq![message@] + rest));
        }
    }

    /// Marks every child of `parent` of kind `kind` as needing changes.
    pub fn reopen_children(&mut self, parent: u64, kind: TaskKind)
        ensures
            final(self).state() == reopened(old(self).state(), parent, kind),
            valid(old(self).state()) ==> valid(final(self).state()),
    {
        proof {
            if valid(self.state()) {
                lemma_reopened_valid(self.state(), parent, kind);
            }
        }
        let mut i: usize = 0;
        while i < self.nodes.len()
            invariant
                i <= self.nodes.len() == old(self).nodes.len(),
                self.queue == old(self).queue,
                self.active == old(self).active,
                self.focus == old(self).focus,
                self.rolling_context == old(self).rolling_context,
                self.recent_failures == old(self).recent_failures,
                self.tests_mode == old(self).tests_mode,
                self.next_task_id == old(self).next_task_id,
                forall|j: int|
                    0 <= j < i ==> (#[trigger] self.nodes[j])@ == nodes_reopened(
                        old(self).state().nodes,
                        parent,
                        kind,
                    )[j],
                forall|j: int| i <= j < self.nodes.len() ==> self.nodes[j] == old(self).nodes[j],
            decreases self.nodes.len() - i,
        {
            if same_parent(self.nodes[i].parent_id, Some(parent)) && self.nodes[i].entry.kind
                == kind {
                self.nodes[i].entry.status = TaskStatus::NeedsChanges;
            }
            i += 1;
        }
        assert(self.state().nodes =~= nodes_reopened(old(self).state().nodes, parent, kind));
    }

    /// The parent of node `id`, none where the node is missing or has none.
    pub fn parent_of(&self, id: u64) -> (parent: Option<u64>)
        ensures
            parent == node_parent(self.state().nodes, id),
    {
        match self.find_node(id) {
            Some(i) => self.nodes[i].parent_id,
            None => None,
        }
    }

    /// The kind of node `id`, if it is in the graph.
    pub fn kind_of(&self, id: u64) -> (kind: Option<TaskKind>)
        ensures
            kind == node_kind(self.state().nodes, id),
    {
        match self.find_node(id) {
            Some(i) => Some(self.nodes[i].entry.kind),
            None => None,
        }
    }

    /// Decides what follows the work of a node that stands under
    /// `parent`, a node of kind `kind`.
    pub fn queue_parent_next_step(
        &mut self,
        top_task_id: u64,
        parent: Option<u64>,
        kind: Option<TaskKind>,
        pass: u8,
        messages: &mut Vec<String>,
    )
        ensures
            final(self).state() == parent_next_step(
                old(self).state(),
                top_task_id,
                parent,
                kind,
                pass,
            ).state,
            texts(final(messages)@) == texts(old(messages)@) + parent_next_step(
                old(self).state(),
                top_task_id,
                parent,
                kind,
                pass,
            ).messages,
            valid(old(self).state()) ==> valid(final(self).state()),
    {
        proof {
            if valid(self.state()) {
                lemma_parent_next_step_valid(self.state(), top_task_id, parent, kind, pass);
            }
        }
        match (parent, kind) {
            (Some(p), Some(TaskKind::TestWriter)) => {
                self.queue_test_writer_next_step(top_task_id, p, pass, false, None, messages);
            },
            (Some(p), Some(TaskKind::Implementor)) => {
                self.queue_implementor_next_step(top_task_id, p, pass, false, messages);
            },
            _ => {
                self.try_mark_top_done(top_task_id, messages);
            },
        }
    }
}

/// The last lines of a transcript as one text.
pub fn transcript_tail_text_of(transcript: &[String]) -> (text: String)
    ensures
        text@ == transcript_tail_text(texts(transcript@)),
{
    let start: usize = if transcript.len() > SUMMARY_TAIL_LINES {
        transcript.len() - SUMMARY_TAIL_LINES
    } else {
        0
    };
    assert(texts(transcript@).subrange(start as int, transcript@.len() as int) == transcript_tail(
        texts(transcript@),
    ));
    join_from(transcript, start, "\n")
}

/// Whether two optional ids are the same.
fn same_parent(a: Option<u64>, b: Option<u64>) -> (same: bool)
    ensures
        same == (a == b),
{
    match (a, b) {
        (Some(x), Some(y)) => x == y,
        (None, None) => true,
        _ => false,
    }
}

/// The rank that an `order` gives a node among its siblings.
pub(crate) fn order_rank(order: Option<u32>) -> (r: u64)
    ensures
        r == match order {
            Some(o) => o as int,
            None => u32::MAX as int + 1,
        },
{
    match order {
        Some(o) => o as u64,
        None => 0x1_0000_0000,
    }
}

/// The start of every message about the top-level task `top`.
pub(crate) fn task_tag_text(top: u64) -> (tag: String)
    ensures
        tag@ == task_tag(top),
{
    let mut tag = String::from_str("System: Task #");
    tag.append(u64_to_string(top).as_str());
    tag
}

/// Adds `message` to `messages`.
pub(crate) fn say(messages: &mut Vec<String>, message: String)
    ensures
        final(messages)@ == old(messages)@.push(message),
        texts(final(messages)@) == texts(old(messages)@) + seq![message@],
{
    messages.push(message);
    assert(texts(messages@) =~= texts(old(messages)@) + seq![message@]);
}

/// The summary of one finished run: role, task title, the last lines of
/// the transcript on one line, and the verdict, separated by bars.
pub fn make_context_summary(role: &str, task_title: &str, transcript: &[String], success: bool) -> (summary:
    String)
    ensures
        summary@ == context_summary(role@, task_title@, texts(transcript@), success),
{
    let start: usize = if transcript.len() > SUMMARY_TAIL_LINES {
        transcript.len() - SUMMARY_TAIL_LINES
    } else {
        0
    };
    assert(texts(transcript@).subrange(start as int, transcript@.len() as int) == transcript_tail(
        texts(transcript@),
    ));
    let mut summary = String::from_str(role);
    summary.append("|");
    summary.append(task_title);
    summary.append("|");
    summary.append(to_one_line(join_from(transcript, start, " ").as_str()).as_str());
    summary.append("|");
    if success {
        summary.append("ok");
    } else {
        summary.append("fail");
    }
    summary
}

} // verus!
