//! Running the plan: starting the next job, taking in its output and its
//! end, and handing out what has gathered in the ledger and the context.

use super::model::{
    followed_by, has_job_for, lemma_steps_keep_valid, lemma_top_advanced_valid, nodes_with_status,
    rank, saying_first, silent, top_advanced, valid, ActiveView, JobKindView, JobView, NodeView,
    Outcome, WorkflowView, MAX_CONTEXT_ENTRIES,
};
use super::{order_rank, say, TaskKind};
use crate::text::{as_deref, clone_optional, decimal, optional_text, usize_to_string};
use super::{
    auditor, final_audit, implementor, test_runner, test_writer, ActiveJob, TaskStatus, WorkerJob,
    WorkerJobKind, Workflow, WorkflowError, WorkflowFailure,
};
use crate::api::contracts::{
    failure_views, JobRunContract, RunView, StartedJobView, StartedWorkerJobContract,
    WorkerRoleContract,
};
use crate::text::{clone_lines, texts, u64_to_string};
use std::collections::VecDeque;
use vstd::prelude::*;
use vstd::string::StringExecFns;

verus! {

/// The state of an engine that has taken in nothing yet.
pub open spec fn initial(tests_mode: bool) -> WorkflowView {
    WorkflowView {
        nodes: Seq::empty(),
        queue: Seq::empty(),
        active: None,
        focus: None,
        context: Seq::empty(),
        failures: Seq::empty(),
        tests_mode,
        next_task_id: 1,
    }
}

/// The node a job works on.
pub open spec fn job_node(kind: JobKindView) -> u64 {
    match kind {
        JobKindView::Implementor { implementor_id, .. } => implementor_id,
        JobKindView::ImplementorAuditor { auditor_id, .. } => auditor_id,
        JobKindView::TestWriter { test_writer_id, .. } => test_writer_id,
        JobKindView::TestWriterAuditor { auditor_id, .. } => auditor_id,
        JobKindView::TestRun { runner_id, .. } => runner_id,
        JobKindView::FinalAudit { node_id, .. } => node_id,
    }
}

/// The role a job runs in.
pub open spec fn job_role(kind: JobKindView) -> WorkerRoleContract {
    match kind {
        JobKindView::Implementor { .. } => WorkerRoleContract::Implementor,
        JobKindView::ImplementorAuditor { .. } => WorkerRoleContract::Auditor,
        JobKindView::TestWriter { .. } => WorkerRoleContract::TestWriter,
        JobKindView::TestWriterAuditor { .. } => WorkerRoleContract::Auditor,
        JobKindView::TestRun { .. } => WorkerRoleContract::TestRunner,
        JobKindView::FinalAudit { .. } => WorkerRoleContract::FinalAudit,
    }
}

/// The key under which the output of a job is filed with the work it
/// belongs to: an audit with the work it audits, a test run with the work
/// it checks. Other jobs have none.
pub open spec fn job_context_key(kind: JobKindView) -> Option<Seq<char>> {
    match kind {
        JobKindView::ImplementorAuditor { implementor_id, .. } => Some(
            super::model::context_key("implementor"@, implementor_id),
        ),
        JobKindView::TestWriterAuditor { test_writer_id, .. } => Some(
            super::model::context_key("test_writer"@, test_writer_id),
        ),
        JobKindView::TestRun { parent_context_key, .. } => parent_context_key,
        _ => None,
    }
}

/// How a job is to be run: a test run by the deterministic runner, any
/// other job by an agent with the prompt of its role.
pub open spec fn job_run(w: WorkflowView, job: JobView) -> RunView {
    match job.kind {
        JobKindView::Implementor { implementor_id, feedback, .. } => RunView::AgentPrompt(
            implementor::prompt(w, job.top_task_id, implementor_id, feedback),
        ),
        JobKindView::ImplementorAuditor { implementor_id, auditor_id, audit_report, .. } => {
            RunView::AgentPrompt(
                auditor::prompt(w, job.top_task_id, implementor_id, auditor_id, audit_report),
            )
        },
        JobKindView::TestWriter { test_writer_id, feedback, skip_test_runner_on_success, .. } => {
            RunView::AgentPrompt(
                test_writer::prompt(
                    w,
                    job.top_task_id,
                    test_writer_id,
                    feedback,
                    skip_test_runner_on_success,
                ),
            )
        },
        JobKindView::TestWriterAuditor { test_writer_id, auditor_id, test_report, .. } => {
            RunView::AgentPrompt(
                auditor::prompt(w, job.top_task_id, test_writer_id, auditor_id, test_report),
            )
        },
        JobKindView::TestRun { .. } => RunView::DeterministicTestRun,
        JobKindView::FinalAudit { node_id, .. } => RunView::AgentPrompt(
            final_audit::prompt(w, job.top_task_id, node_id),
        ),
    }
}

/// `i` is the first position in the queue that holds a job for `top`.
pub open spec fn is_first_job_for(queue: Seq<JobView>, top: u64, i: int) -> bool {
    &&& 0 <= i < queue.len()
    &&& queue[i].top_task_id == top
    &&& forall|j: int| 0 <= j < i ==> (#[trigger] queue[j]).top_task_id != top
}

/// Whether a job can be started: none is active and one is waiting.
pub open spec fn can_start(w: WorkflowView) -> bool {
    w.active is None && w.queue.len() > 0
}

/// The position in the queue of the job that is started next: the first
/// job of the top-level task that was worked on last, as long as it has
/// one waiting, and the head of the queue otherwise. So a top-level task
/// is seen through before the next one is begun.
pub open spec fn next_job_index(w: WorkflowView) -> int {
    if w.focus is Some && has_job_for(w.queue, w.focus->0) {
        choose|i: int| is_first_job_for(w.queue, w.focus->0, i)
    } else {
        0
    }
}

/// The job that is started next.
pub open spec fn next_job(w: WorkflowView) -> JobView {
    w.queue[next_job_index(w)]
}

/// The state after the next job has been started: it has left the queue
/// and fills the active slot with an empty transcript, its node is in
/// progress, and its top-level task is the one being worked on.
pub open spec fn job_started(w: WorkflowView) -> WorkflowView {
    WorkflowView {
        nodes: nodes_with_status(w.nodes, job_node(next_job(w).kind), TaskStatus::InProgress),
        queue: w.queue.remove(next_job_index(w)),
        active: Some(
            ActiveView {
                job: next_job(w),
                role: job_role(next_job(w).kind),
                transcript: Seq::empty(),
            },
        ),
        focus: Some(next_job(w).top_task_id),
        ..w
    }
}

/// What the caller is told about the job that is started next.
pub open spec fn started_job(w: WorkflowView) -> StartedJobView {
    StartedJobView {
        run: job_run(w, next_job(w)),
        role: job_role(next_job(w).kind),
        top_task_id: next_job(w).top_task_id,
        parent_context_key: job_context_key(next_job(w).kind),
    }
}

/// The state after a line of output has arrived: the transcript of the
/// active job has grown by it; without an active job nothing changes.
pub open spec fn output_appended(w: WorkflowView, line: Seq<char>) -> WorkflowView {
    match w.active {
        Some(active) => WorkflowView {
            active: Some(ActiveView { transcript: active.transcript.push(line), ..active }),
            ..w
        },
        None => w,
    }
}

/// The state with the active slot empty.
pub open spec fn idle(w: WorkflowView) -> WorkflowView {
    WorkflowView { active: None, ..w }
}

/// What the end of the active job leads to: the slot is emptied and the
/// state machine of the job's role takes the end in.
pub open spec fn job_finished(w: WorkflowView, success: bool, code: i32) -> Outcome
    recommends
        w.active is Some,
{
    let active = w.active->0;
    let top = active.job.top_task_id;
    match active.job.kind {
        JobKindView::Implementor { implementor_id, pass, .. } => implementor::completed(
            idle(w),
            top,
            implementor_id,
            pass,
            active.transcript,
            success,
            code,
        ),
        JobKindView::ImplementorAuditor { implementor_id, auditor_id, pass, .. } => {
            auditor::implementor_audited(
                idle(w),
                top,
                implementor_id,
                auditor_id,
                pass,
                active.transcript,
                success,
            )
        },
        JobKindView::TestWriter {
            test_writer_id,
            pass,
            skip_test_runner_on_success,
            resume_auditor_id,
            resume_audit_pass,
            ..
        } => test_writer::completed(
            idle(w),
            top,
            test_writer_id,
            pass,
            skip_test_runner_on_success,
            resume_auditor_id,
            resume_audit_pass,
            active.transcript,
            success,
            code,
        ),
        JobKindView::TestWriterAuditor { test_writer_id, auditor_id, pass, .. } => {
            auditor::test_writer_audited(
                idle(w),
                top,
                test_writer_id,
                auditor_id,
                pass,
                active.transcript,
                success,
            )
        },
        JobKindView::TestRun { runner_id, pass, parent_context_key } => test_runner::completed(
            idle(w),
            top,
            runner_id,
            pass,
            parent_context_key,
            active.transcript,
            success,
            code,
        ),
        JobKindView::FinalAudit { node_id, pass } => final_audit::completed(
            idle(w),
            top,
            node_id,
            pass,
            active.transcript,
            success,
        ),
    }
}

/// The entries of a context that is replaced by `entries`: the last of
/// them, as many as the context can hold.
pub open spec fn context_replaced(entries: Seq<Seq<char>>) -> Seq<Seq<char>> {
    if entries.len() > MAX_CONTEXT_ENTRIES {
        entries.subrange(entries.len() - MAX_CONTEXT_ENTRIES, entries.len() as int)
    } else {
        entries
    }
}

/// A top-level task that is still to be worked on.
pub open spec fn is_pending_top(node: NodeView) -> bool {
    &&& node.parent_id is None
    &&& node.entry.kind == TaskKind::Task
    &&& node.entry.status != TaskStatus::Done
}

/// The positions `sorted` with the position `i` put in after the last one
/// whose node ranks no higher than the node at `i`.
pub open spec fn inserted(nodes: Seq<NodeView>, sorted: Seq<int>, i: int) -> Seq<int>
    decreases sorted.len(),
{
    if sorted.len() == 0 || rank(nodes[sorted.last()]) <= rank(nodes[i]) {
        sorted.push(i)
    } else {
        inserted(nodes, sorted.drop_last(), i).push(sorted.last())
    }
}

/// The positions of the top-level tasks among the first `n` nodes that
/// are still to be worked on, in the order in which they are served: by
/// rank, and in the order of the graph where ranks are equal.
pub open spec fn pending_tops(nodes: Seq<NodeView>, n: nat) -> Seq<int>
    decreases n,
{
    if n == 0 {
        Seq::empty()
    } else if is_pending_top(nodes[n - 1]) {
        inserted(nodes, pending_tops(nodes, (n - 1) as nat), n - 1)
    } else {
        pending_tops(nodes, (n - 1) as nat)
    }
}

/// The state after the first `k` of the top-level tasks `tops` have been
/// moved on, one after the other.
pub open spec fn seeded(w: WorkflowView, tops: Seq<u64>, k: nat) -> Outcome
    decreases k,
{
    if k == 0 {
        silent(w)
    } else {
        let earlier = seeded(w, tops, (k - 1) as nat);
        followed_by(earlier, top_advanced(earlier.state, tops[k - 1]))
    }
}

/// What is said first when execution starts.
pub open spec fn banner(count: nat) -> Seq<char> {
    "System: Queued "@ + decimal(count as int) + " top-level tasks."@
}

/// The numbers of the nodes at `positions`.
pub open spec fn ids_at(nodes: Seq<NodeView>, positions: Seq<int>) -> Seq<u64> {
    Seq::new(positions.len(), |k: int| nodes[positions[k]].id)
}

/// What starting execution leads to: every top-level task that is still
/// to be worked on is moved on, in the order in which they are served,
/// after a message that says how many they are.
pub open spec fn execution_started(w: WorkflowView) -> Outcome {
    let tops = ids_at(w.nodes, pending_tops(w.nodes, w.nodes.len()));
    saying_first(banner(tops.len()), seeded(w, tops, tops.len()))
}

/// Moving top-level tasks on leaves a valid state valid.
pub proof fn lemma_seeded_valid(w: WorkflowView, tops: Seq<u64>, k: nat)
    requires
        valid(w),
        k <= tops.len(),
    ensures
        valid(seeded(w, tops, k).state),
    decreases k,
{
    if k > 0 {
        lemma_seeded_valid(w, tops, (k - 1) as nat);
        lemma_top_advanced_valid(seeded(w, tops, (k - 1) as nat).state, tops[k - 1]);
    }
}

/// Where the position belongs: behind everything that ranks no higher,
/// before everything that ranks higher.
proof fn lemma_inserted_at(nodes: Seq<NodeView>, sorted: Seq<int>, i: int, pos: int)
    requires
        0 <= pos <= sorted.len(),
        forall|k: int| pos <= k < sorted.len() ==>
            rank(nodes[#[trigger] sorted[k]]) > rank(nodes[i]),
        pos == 0 || rank(nodes[sorted[pos - 1]]) <= rank(nodes[i]),
    ensures
        inserted(nodes, sorted, i) == sorted.insert(pos, i),
    decreases sorted.len() - pos,
{
    if pos == sorted.len() {
        assert(sorted.insert(pos, i) =~= sorted.push(i));
    } else {
        let shorter = sorted.drop_last();
        assert(rank(nodes[sorted[sorted.len() - 1]]) > rank(nodes[i]));
        assert forall|k: int| pos <= k < shorter.len() implies rank(nodes[#[trigger] shorter[k]])
            > rank(nodes[i]) by {
            assert(shorter[k] == sorted[k]);
        }
        lemma_inserted_at(nodes, shorter, i, pos);
        assert(shorter.insert(pos, i).push(sorted.last()) =~= sorted.insert(pos, i));
    }
}

/// The positions held by a list of indices.
pub open spec fn positions(v: Seq<usize>) -> Seq<int> {
    Seq::new(v.len(), |k: int| v[k] as int)
}

/// At most one job is active: while a job is active no other can be
/// started, and a job is only ever started into the empty slot, where it
/// is the one job that leaves the queue.
pub proof fn lemma_at_most_one_active_job(w: WorkflowView)
    ensures
        w.active is Some ==> !can_start(w),
        can_start(w) ==> {
            &&& 0 <= next_job_index(w) < w.queue.len()
            &&& job_started(w).active is Some
            &&& job_started(w).active->0.job == next_job(w)
            &&& job_started(w).queue.len() == w.queue.len() - 1
        },
{
    if can_start(w) && w.focus is Some && has_job_for(w.queue, w.focus->0) {
        let top = w.focus->0;
        let j = choose|j: int| 0 <= j < w.queue.len() && (#[trigger] w.queue[j]).top_task_id == top;
        lemma_some_first_job(w.queue, top, j);
    }
}

/// A job for a top-level task in the queue makes some job the first for it.
proof fn lemma_some_first_job(queue: Seq<JobView>, top: u64, j: int)
    requires
        0 <= j < queue.len(),
        queue[j].top_task_id == top,
    ensures
        is_first_job_for(queue, top, choose|i: int| is_first_job_for(queue, top, i)),
    decreases j,
{
    if exists|k: int| 0 <= k < j && (#[trigger] queue[k]).top_task_id == top {
        let k = choose|k: int| 0 <= k < j && (#[trigger] queue[k]).top_task_id == top;
        lemma_some_first_job(queue, top, k);
    } else {
        assert(is_first_job_for(queue, top, j));
    }
}

/// The end of a job leaves the active slot empty, whatever the job was
/// and however it ended.
pub proof fn lemma_finished_job_leaves_slot_empty(w: WorkflowView, success: bool, code: i32)
    requires
        w.active is Some,
    ensures
        job_finished(w, success, code).state.active is None,
{
}

/// No output of a completed job reaches a later transcript: once a job
/// has ended, a line of output changes nothing, and the transcript of the
/// job that is started next begins empty.
pub proof fn lemma_no_output_after_completion(
    w: WorkflowView,
    success: bool,
    code: i32,
    line: Seq<char>,
)
    requires
        w.active is Some,
    ensures
        output_appended(job_finished(w, success, code).state, line) == job_finished(
            w,
            success,
            code,
        ).state,
        job_started(job_finished(w, success, code).state).active->0.transcript == Seq::<
            Seq<char>,
        >::empty(),
{
    lemma_finished_job_leaves_slot_empty(w, success, code);
}

/// The first job for a top-level task in the queue is unique.
pub proof fn lemma_first_job_unique(queue: Seq<JobView>, top: u64, i: int)
    requires
        is_first_job_for(queue, top, i),
    ensures
        has_job_for(queue, top),
        (choose|k: int| is_first_job_for(queue, top, k)) == i,
{
    let k = choose|k: int| is_first_job_for(queue, top, k);
    assert(is_first_job_for(queue, top, k));
    if k < i {
        assert(queue[k].top_task_id != top);
    }
    if i < k {
        assert(queue[i].top_task_id != top);
    }
}

fn key_for(role: &str, id: u64) -> (key: String)
    ensures
        key@ == super::model::context_key(role@, id),
{
    let mut key = String::from_str(role);
    key.append(":");
    key.append(u64_to_string(id).as_str());
    key
}

impl Workflow {
    /// An engine that has taken in nothing yet.
    pub fn new(tests_mode: bool) -> (workflow: Self)
        ensures
            workflow.state() == initial(tests_mode),
            valid(workflow.state()),
    {
        let workflow = Workflow {
            nodes: Vec::new(),
            queue: VecDeque::new(),
            active: None,
            focus: None,
            rolling_context: Vec::new(),
            recent_failures: Vec::new(),
            tests_mode,
            next_task_id: 1,
        };
        assert(workflow.state().nodes =~= Seq::empty());
        assert(workflow.state().queue =~= Seq::empty());
        assert(workflow.state().context =~= Seq::empty());
        assert(workflow.state().failures =~= Seq::empty());
        workflow
    }

    /// Switches tests mode on or off.
    pub fn set_tests_mode(&mut self, enabled: bool)
        ensures
            final(self).state() == (WorkflowView { tests_mode: enabled, ..old(self).state() }),
            valid(old(self).state()) ==> valid(final(self).state()),
    {
        self.tests_mode = enabled;
    }

    /// Whether a job is active.
    pub fn has_active_job(&self) -> (active: bool)
        ensures
            active == self.state().active is Some,
    {
        self.active.is_some()
    }

    /// How many jobs wait in the queue.
    pub fn queued_jobs(&self) -> (count: usize)
        ensures
            count == self.state().queue.len(),
    {
        self.queue.len()
    }

    /// The position in the queue of the job that is started next.
    fn next_job_position(&self) -> (position: usize)
        requires
            self.queue@.len() > 0,
        ensures
            position == next_job_index(self.state()),
            position < self.queue@.len(),
    {
        match self.focus {
            Some(top) => {
                let mut i: usize = 0;
                while i < self.queue.len()
                    invariant
                        i <= self.queue.len(),
                        self.focus == Some(top),
                        forall|j: int|
                            0 <= j < i ==> (#[trigger] self.state().queue[j]).top_task_id != top,
                    decreases self.queue.len() - i,
                {
                    if self.queue[i].top_task_id == top {
                        proof {
                            assert(self.state().queue[i as int].top_task_id == top);
                            lemma_first_job_unique(self.state().queue, top, i as int);
                        }
                        return i;
                    }
                    i += 1;
                }
                0
            },
            None => 0,
        }
    }

    /// How `job` is to be run.
    fn run_for(&self, job: &WorkerJob) -> (run: JobRunContract)
        ensures
            run@ == job_run(self.state(), job@),
    {
        let top = job.top_task_id;
        match &job.kind {
            WorkerJobKind::Implementor { implementor_id, feedback, .. } => {
                JobRunContract::AgentPrompt(
                    implementor::build_prompt(self, top, *implementor_id, as_deref(feedback)),
                )
            },
            WorkerJobKind::ImplementorAuditor { implementor_id, auditor_id, audit_report, .. } => {
                JobRunContract::AgentPrompt(
                    auditor::build_prompt(
                        self,
                        top,
                        *implementor_id,
                        *auditor_id,
                        as_deref(audit_report),
                    ),
                )
            },
            WorkerJobKind::TestWriter {
                test_writer_id,
                feedback,
                skip_test_runner_on_success,
                ..
            } => JobRunContract::AgentPrompt(
                test_writer::build_prompt(
                    self,
                    top,
                    *test_writer_id,
                    as_deref(feedback),
                    *skip_test_runner_on_success,
                ),
            ),
            WorkerJobKind::TestWriterAuditor { test_writer_id, auditor_id, test_report, .. } => {
                JobRunContract::AgentPrompt(
                    auditor::build_prompt(
                        self,
                        top,
                        *test_writer_id,
                        *auditor_id,
                        as_deref(test_report),
                    ),
                )
            },
            WorkerJobKind::TestRun { .. } => JobRunContract::DeterministicTestRun,
            WorkerJobKind::FinalAudit { node_id, .. } => JobRunContract::AgentPrompt(
                final_audit::build_prompt(self, top, *node_id),
            ),
        }
    }

    /// The positions of the top-level tasks that are still to be worked
    /// on, in the order in which they are served.
    fn pending_tops_in_order(&self) -> (order: Vec<usize>)
        ensures
            positions(order@) == pending_tops(self.state().nodes, self.state().nodes.len()),
            forall|k: int| 0 <= k < order@.len() ==> (#[trigger] order@[k]) < self.nodes@.len(),
    {
        let mut order: Vec<usize> = Vec::new();
        let mut i: usize = 0;
        assert(positions(order@) =~= Seq::empty());
        while i < self.nodes.len()
            invariant
                i <= self.nodes.len(),
                positions(order@) == pending_tops(self.state().nodes, i as nat),
                forall|k: int| 0 <= k < order@.len() ==> (#[trigger] order@[k]) < i,
            decreases self.nodes.len() - i,
        {
            let node = &self.nodes[i];
            if node.parent_id.is_none() && node.entry.kind == TaskKind::Task && node.entry.status
                != TaskStatus::Done {
                let mine = order_rank(node.entry.order);
                let mut pos: usize = order.len();
                while pos > 0 && order_rank(self.nodes[order[pos - 1]].entry.order) > mine
                    invariant
                        pos <= order@.len(),
                        i < self.nodes.len(),
                        mine == rank(self.state().nodes[i as int]),
                        forall|k: int| 0 <= k < order@.len() ==> (#[trigger] order@[k]) < i,
                        forall|k: int|
                            pos <= k < order@.len() ==> rank(
                                self.state().nodes[#[trigger] positions(order@)[k]],
                            ) > mine,
                    decreases pos,
                {
                    pos -= 1;
                }
                proof {
                    lemma_inserted_at(
                        self.state().nodes,
                        positions(order@),
                        i as int,
                        pos as int,
                    );
                }
                let ghost before = positions(order@);
                order.insert(pos, i);
                assert(positions(order@) =~= before.insert(pos as int, i as int));
            }
            i += 1;
        }
        order
    }

    /// Starts the execution of the plan: moves every top-level task that
    /// is still to be worked on, in the order in which they are served,
    /// so that the first job of each is queued. Returns what the user is
    /// to be told, first of all how many tasks were taken up.
    pub fn start_execution(&mut self) -> (messages: Vec<String>)
        ensures
            final(self).state() == execution_started(old(self).state()).state,
            texts(messages@) == execution_started(old(self).state()).messages,
            valid(old(self).state()) ==> valid(final(self).state()),
    {
        let ghost before = self.state();
        let order = self.pending_tops_in_order();
        let mut tops: Vec<u64> = Vec::new();
        let mut k: usize = 0;
        while k < order.len()
            invariant
                k <= order.len(),
                self.state() == before,
                tops@.len() == k,
                forall|j: int| 0 <= j < order@.len() ==> (#[trigger] order@[j]) < self.nodes@.len(),
                forall|j: int|
                    0 <= j < k ==> (#[trigger] tops@[j]) == before.nodes[order@[j] as int].id,
            decreases order.len() - k,
        {
            tops.push(self.nodes[order[k]].id);
            k += 1;
        }
        assert(tops@ =~= ids_at(before.nodes, pending_tops(before.nodes, before.nodes.len())));
        let mut messages: Vec<String> = Vec::new();
        let mut first = String::from_str("System: Queued ");
        first.append(usize_to_string(tops.len()).as_str());
        first.append(" top-level tasks.");
        say(&mut messages, first);
        assert(texts(messages@) =~= seq![banner(tops@.len())]);
        let mut k: usize = 0;
        while k < tops.len()
            invariant
                k <= tops.len(),
                self.state() == seeded(before, tops@, k as nat).state,
                texts(messages@) == seq![banner(tops@.len())] + seeded(
                    before,
                    tops@,
                    k as nat,
                ).messages,
            decreases tops.len() - k,
        {
            let ghost said = texts(messages@);
            let ghost earlier = seeded(before, tops@, k as nat);
            self.try_mark_top_done(tops[k], &mut messages);
            k += 1;
            proof {
                let step = top_advanced(earlier.state, tops@[k - 1]);
                assert((seq![banner(tops@.len())] + earlier.messages) + step.messages == seq![
                    banner(tops@.len()),
                ] + (earlier.messages + step.messages));
            }
        }
        proof {
            if valid(before) {
                lemma_seeded_valid(before, tops@, tops@.len());
            }
        }
        messages
    }

    /// Starts the next job if none is active and one is waiting: takes
    /// it from the queue into the active slot, marks its node as in
    /// progress, and tells the caller how to run it. Otherwise nothing
    /// changes and nothing is returned.
    pub fn start_next_job(&mut self) -> (started: Option<StartedWorkerJobContract>)
        ensures
            match started {
                Some(job) => can_start(old(self).state()) && final(self).state() == job_started(
                    old(self).state(),
                ) && job@ == started_job(old(self).state()),
                None => !can_start(old(self).state()) && final(self).state() == old(self).state(),
            },
            valid(old(self).state()) ==> valid(final(self).state()),
    {
        if self.active.is_some() || self.queue.len() == 0 {
            return None;
        }
        let position = self.next_job_position();
        let ghost before = self.state();
        proof {
            if valid(before) {
                lemma_steps_keep_valid(before);
            }
        }
        let job = self.queue.remove(position).unwrap();
        assert(self.state().queue =~= before.queue.remove(position as int));
        assert(job@ == next_job(before));
        let run = self.run_for(&job);
        let (node, role, parent_context_key) = match &job.kind {
            WorkerJobKind::Implementor { implementor_id, .. } => (
                *implementor_id,
                WorkerRoleContract::Implementor,
                None,
            ),
            WorkerJobKind::ImplementorAuditor { implementor_id, auditor_id, .. } => (
                *auditor_id,
                WorkerRoleContract::Auditor,
                Some(key_for("implementor", *implementor_id)),
            ),
            WorkerJobKind::TestWriter { test_writer_id, .. } => (
                *test_writer_id,
                WorkerRoleContract::TestWriter,
                None,
            ),
            WorkerJobKind::TestWriterAuditor { test_writer_id, auditor_id, .. } => (
                *auditor_id,
                WorkerRoleContract::Auditor,
                Some(key_for("test_writer", *test_writer_id)),
            ),
            WorkerJobKind::TestRun { runner_id, parent_context_key, .. } => (
                *runner_id,
                WorkerRoleContract::TestRunner,
                clone_optional(parent_context_key),
            ),
            WorkerJobKind::FinalAudit { node_id, .. } => (
                *node_id,
                WorkerRoleContract::FinalAudit,
                None,
            ),
        };
        let top_task_id = job.top_task_id;
        self.set_status(node, TaskStatus::InProgress);
        self.focus = Some(top_task_id);
        self.active = Some(ActiveJob { job, role, transcript: Vec::new() });
        assert(self.state().active->0.transcript =~= Seq::empty());
        proof {
            if valid(before) {
                assert(valid(super::model::with_status(before, node, TaskStatus::InProgress)));
            }
        }
        Some(StartedWorkerJobContract { run, role, top_task_id, parent_context_key })
    }

    /// Takes in a line of output of the active job. Without an active job
    /// the line is dropped.
    pub fn append_active_output(&mut self, line: String)
        ensures
            final(self).state() == output_appended(old(self).state(), line@),
            valid(old(self).state()) ==> valid(final(self).state()),
    {
        match &mut self.active {
            Some(active) => {
                let ghost before = active.transcript@;
                active.transcript.push(line);
                assert(texts(active.transcript@) =~= texts(before).push(line@));
            },
            None => {},
        }
    }

    /// Takes in the end of the active job: empties the active slot, lets
    /// the state machine of the job's role decide what follows, and
    /// returns what the user is to be told. Refused where no job is active.
    pub fn finish_active_job(&mut self, success: bool, exit_code: i32) -> (messages: Result<
        Vec<String>,
        WorkflowError,
    >)
        ensures
            match messages {
                Ok(said) => old(self).state().active is Some && final(self).state() == job_finished(
                    old(self).state(),
                    success,
                    exit_code,
                ).state && texts(said@) == job_finished(old(self).state(), success, exit_code).messages,
                Err(error) => old(self).state().active is None && error
                    == WorkflowError::NoActiveJob && final(self).state() == old(self).state(),
            },
            valid(old(self).state()) ==> valid(final(self).state()),
    {
        let active = match self.active.take() {
            Some(active) => active,
            None => {
                return Err(WorkflowError::NoActiveJob);
            },
        };
        assert(self.state() == idle(old(self).state()));
        let mut messages: Vec<String> = Vec::new();
        assert(texts(messages@) =~= Seq::<Seq<char>>::empty());
        let top = active.job.top_task_id;
        let transcript = active.transcript.as_slice();
        match &active.job.kind {
            WorkerJobKind::Implementor { implementor_id, pass, .. } => {
                implementor::on_completion(
                    self,
                    top,
                    *implementor_id,
                    *pass,
                    transcript,
                    success,
                    exit_code,
                    &mut messages,
                );
            },
            WorkerJobKind::ImplementorAuditor { implementor_id, auditor_id, pass, .. } => {
                auditor::on_implementor_audit_completion(
                    self,
                    top,
                    *implementor_id,
                    *auditor_id,
                    *pass,
                    transcript,
                    success,
                    &mut messages,
                );
            },
            WorkerJobKind::TestWriter {
                test_writer_id,
                pass,
                skip_test_runner_on_success,
                resume_auditor_id,
                resume_audit_pass,
                ..
            } => {
                test_writer::on_completion(
                    self,
                    top,
                    *test_writer_id,
                    *pass,
                    *skip_test_runner_on_success,
                    *resume_auditor_id,
                    *resume_audit_pass,
                    transcript,
                    success,
                    exit_code,
                    &mut messages,
                );
            },
            WorkerJobKind::TestWriterAuditor { test_writer_id, auditor_id, pass, .. } => {
                auditor::on_test_writer_audit_completion(
                    self,
                    top,
                    *test_writer_id,
                    *auditor_id,
                    *pass,
                    transcript,
                    success,
                    &mut messages,
                );
            },
            WorkerJobKind::TestRun { runner_id, pass, parent_context_key } => {
                test_runner::on_completion(
                    self,
                    top,
                    *runner_id,
                    *pass,
                    parent_context_key,
                    transcript,
                    success,
                    exit_code,
                    &mut messages,
                );
            },
            WorkerJobKind::FinalAudit { node_id, pass } => {
                final_audit::on_completion(
                    self,
                    top,
                    *node_id,
                    *pass,
                    transcript,
                    success,
                    &mut messages,
                );
            },
        }
        assert(Seq::<Seq<char>>::empty() + job_finished(
            old(self).state(),
            success,
            exit_code,
        ).messages == job_finished(old(self).state(), success, exit_code).messages);
        Ok(messages)
    }

    /// Hands out the entries that the ledger has gathered and empties it.
    pub fn drain_recent_failures(&mut self) -> (failures: Vec<WorkflowFailure>)
        ensures
            failure_views(failures@) == old(self).state().failures,
            final(self).state() == (
            WorkflowView { failures: Seq::empty(), ..old(self).state() }),
            valid(old(self).state()) ==> valid(final(self).state()),
    {
        let mut failures: Vec<WorkflowFailure> = Vec::new();
        failures.append(&mut self.recent_failures);
        assert(failures@ =~= old(self).recent_failures@);
        assert(self.state().failures =~= Seq::empty());
        failures
    }

    /// The entries of the rolling context, oldest first.
    pub fn rolling_context_entries(&self) -> (entries: Vec<String>)
        ensures
            texts(entries@) == self.state().context,
    {
        clone_lines(self.rolling_context.as_slice())
    }

    /// Replaces the rolling context by the last of `entries`, as many as
    /// the context can hold.
    pub fn replace_rolling_context_entries(&mut self, entries: Vec<String>)
        ensures
            final(self).state() == (
            WorkflowView { context: context_replaced(texts(entries@)), ..old(self).state() }),
            valid(old(self).state()) ==> valid(final(self).state()),
    {
        self.rolling_context = entries;
        let ghost all = texts(entries@);
        let ghost n = all.len();
        while self.rolling_context.len() > MAX_CONTEXT_ENTRIES
            invariant
                self.nodes == old(self).nodes,
                self.queue == old(self).queue,
                self.active == old(self).active,
                self.focus == old(self).focus,
                self.recent_failures == old(self).recent_failures,
                self.tests_mode == old(self).tests_mode,
                self.next_task_id == old(self).next_task_id,
                n == all.len(),
                self.rolling_context@.len() <= n,
                self.rolling_context@.len() >= MAX_CONTEXT_ENTRIES || self.rolling_context@.len()
                    == n,
                texts(self.rolling_context@) == all.subrange(
                    n - self.rolling_context@.len(),
                    n as int,
                ),
            decreases self.rolling_context.len(),
        {
            let ghost before = self.rolling_context@;
            self.rolling_context.remove(0);
            assert(texts(self.rolling_context@) == texts(before).subrange(
                1,
                before.len() as int,
            ));
        }
        assert(all.subrange(0, n as int) == all);
    }
}

} // verus!
