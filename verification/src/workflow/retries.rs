//! Bounded retries: a job that keeps failing is run again until its passes
//! are used up, and is then entered in the ledger once.

use super::engine::{
    idle, is_first_job_for, job_finished, job_started, lemma_first_job_unique, next_job_index,
};
use super::model::{
    context_summary, has_job_for, has_node, is_busy, lemma_status_keeps_graph, node_status,
    task_title, top_advanced, with_context, with_failure, with_status, JobKindView, WorkflowView,
};
use super::{implementor, test_writer, TaskStatus, MAX_IMPL_RETRIES, MAX_TEST_RETRIES};
use vstd::prelude::*;

verus! {

/// The state after `n` failures in a row: the active job fails, the job
/// that is started next fails, and so on, with the exit codes `codes`.
pub open spec fn failed_in_a_row(w: WorkflowView, codes: Seq<i32>, n: nat) -> WorkflowView
    decreases n,
{
    if n == 0 {
        w
    } else if n == 1 {
        job_finished(w, false, codes[0]).state
    } else {
        job_finished(
            job_started(failed_in_a_row(w, codes, (n - 1) as nat)),
            false,
            codes[n - 1],
        ).state
    }
}

/// Which pass a job is.
pub open spec fn job_pass(kind: JobKindView) -> u8 {
    match kind {
        JobKindView::Implementor { pass, .. } => pass,
        JobKindView::ImplementorAuditor { pass, .. } => pass,
        JobKindView::TestWriter { pass, .. } => pass,
        JobKindView::TestWriterAuditor { pass, .. } => pass,
        JobKindView::TestRun { pass, .. } => pass,
        JobKindView::FinalAudit { pass, .. } => pass,
    }
}

/// The implementor on node `id` is running its pass `pass` for the
/// top-level task `top`.
pub open spec fn runs_implementor(w: WorkflowView, top: u64, id: u64, pass: u8) -> bool {
    match w.active {
        Some(active) => active.job.top_task_id == top && match active.job.kind {
            JobKindView::Implementor { implementor_id, pass: p, .. } => implementor_id == id && p
                == pass,
            _ => false,
        },
        None => false,
    }
}

/// The test writer on node `id` is running its pass `pass` for the
/// top-level task `top`.
pub open spec fn runs_test_writer(w: WorkflowView, top: u64, id: u64, pass: u8) -> bool {
    match w.active {
        Some(active) => active.job.top_task_id == top && match active.job.kind {
            JobKindView::TestWriter { test_writer_id, pass: p, .. } => test_writer_id == id && p
                == pass,
            _ => false,
        },
        None => false,
    }
}

/// The implementor on node `id` is at its first pass for the top-level
/// task `top`, which is the task being worked on and has no other job
/// waiting.
pub open spec fn implementor_begins(w: WorkflowView, top: u64, id: u64) -> bool {
    &&& runs_implementor(w, top, id, 1)
    &&& w.focus == Some(top)
    &&& !has_job_for(w.queue, top)
    &&& has_node(w.nodes, id)
}

/// Between two failed passes of the implementor: nothing is active, the
/// next pass waits at the back of the queue, and the ledger is as it was.
spec fn implementor_retries(
    s: WorkflowView,
    w: WorkflowView,
    top: u64,
    id: u64,
    codes: Seq<i32>,
    k: nat,
) -> bool {
    &&& s.active is None
    &&& s.focus == Some(top)
    &&& s.queue == w.queue.push(implementor::retry_job(top, id, k as u8, codes[k - 1]))
    &&& s.failures == w.failures
    &&& has_node(s.nodes, id)
    &&& task_title(s.nodes, top) == task_title(w.nodes, top)
}

/// The pass that waits at the back of the queue is the job that is
/// started next.
proof fn lemma_retry_is_next(s: WorkflowView, w: WorkflowView, top: u64)
    requires
        s.focus == Some(top),
        !has_job_for(w.queue, top),
        s.queue.len() == w.queue.len() + 1,
        s.queue.drop_last() == w.queue,
        s.queue.last().top_task_id == top,
    ensures
        next_job_index(s) == w.queue.len(),
        s.queue.remove(next_job_index(s)) == w.queue,
{
    let last = w.queue.len() as int;
    assert forall|j: int| 0 <= j < last implies (#[trigger] s.queue[j]).top_task_id != top by {
        assert(s.queue[j] == w.queue[j]);
        assert(w.queue[j].top_task_id != top);
    }
    assert(is_first_job_for(s.queue, top, last));
    lemma_first_job_unique(s.queue, top, last);
    assert(s.queue.remove(last) =~= w.queue);
}

/// A failed pass of the implementor before the last one leaves the next
/// pass waiting.
proof fn lemma_implementor_tries_again(w: WorkflowView, top: u64, id: u64, codes: Seq<i32>, n: nat)
    requires
        implementor_begins(w, top, id),
        1 <= n < MAX_IMPL_RETRIES,
    ensures
        implementor_retries(failed_in_a_row(w, codes, n), w, top, id, codes, n),
    decreases n,
{
    if n == 1 {
        lemma_status_keeps_graph(w.nodes, id, TaskStatus::NeedsChanges);
    } else {
        lemma_implementor_tries_again(w, top, id, codes, (n - 1) as nat);
        let s = failed_in_a_row(w, codes, (n - 1) as nat);
        assert(s.queue.drop_last() == w.queue);
        lemma_retry_is_next(s, w, top);
        let started = job_started(s);
        lemma_status_keeps_graph(s.nodes, id, TaskStatus::InProgress);
        lemma_status_keeps_graph(started.nodes, id, TaskStatus::NeedsChanges);
    }
}

/// What moving a top-level task on does when none of its jobs waits or
/// runs: the ledger stays, nothing becomes active, at most one job joins
/// the queue, which is a first pass, and a node that is done stays done.
pub proof fn lemma_moved_on(x: WorkflowView, top: u64, id: u64)
    requires
        !has_job_for(x.queue, top),
        x.active is None,
        node_status(x.nodes, id) == Some(TaskStatus::Done),
    ensures
        ({
            let y = top_advanced(x, top).state;
            &&& y.failures == x.failures
            &&& y.active is None
            &&& x.queue.len() <= y.queue.len() <= x.queue.len() + 1
            &&& y.queue.take(x.queue.len() as int) == x.queue
            &&& forall|j: int|
                x.queue.len() <= j < y.queue.len() ==> job_pass((#[trigger] y.queue[j]).kind) == 1
            &&& node_status(y.nodes, id) == Some(TaskStatus::Done)
        }),
{
    let y = top_advanced(x, top).state;
    assert(!is_busy(x, top));
    lemma_status_keeps_graph(x.nodes, top, TaskStatus::Done);
    if y.queue.len() == x.queue.len() {
        assert(y.queue == x.queue);
        assert(y.queue.take(x.queue.len() as int) =~= x.queue);
    } else {
        assert(y.queue.take(x.queue.len() as int) =~= x.queue);
    }
}

/// The last pass that an implementor is allowed, failed.
proof fn lemma_implementor_gives_up(started: WorkflowView, top: u64, id: u64, code: i32)
    requires
        runs_implementor(started, top, id, MAX_IMPL_RETRIES),
        !has_job_for(started.queue, top),
        has_node(started.nodes, id),
    ensures
        ({
            let end = job_finished(started, false, code).state;
            &&& end.failures == started.failures.push(
                implementor::exhausted_failure(started, top, MAX_IMPL_RETRIES, code),
            )
            &&& node_status(end.nodes, id) == Some(TaskStatus::Done)
            &&& end.active is None
            &&& started.queue.len() <= end.queue.len() <= started.queue.len() + 1
            &&& end.queue.take(started.queue.len() as int) == started.queue
            &&& forall|j: int|
                started.queue.len() <= j < end.queue.len() ==> job_pass(
                    (#[trigger] end.queue[j]).kind,
                ) == 1
        }),
{
    let active = started.active->0;
    let noted = with_context(
        idle(started),
        context_summary(
            "Implementor"@,
            task_title(started.nodes, top),
            active.transcript,
            false,
        ),
    );
    let closed = with_status(noted, id, TaskStatus::Done);
    let entered = with_failure(
        closed,
        implementor::exhausted_failure(noted, top, MAX_IMPL_RETRIES, code),
    );
    lemma_status_keeps_graph(noted.nodes, id, TaskStatus::Done);
    assert(node_status(entered.nodes, id) == Some(TaskStatus::Done));
    lemma_moved_on(entered, top, id);
    assert(job_finished(started, false, code).state == top_advanced(entered, top).state);
}

/// An implementor that fails every pass it is allowed is entered in the
/// ledger exactly once, with the number of its passes, and is closed; no
/// further pass of it waits.
///
/// After as many failures in a row as passes are allowed, the ledger is
/// the one from before with one entry more, which names the top-level
/// task and counts the passes; the implementor is done; nothing is
/// active; and whatever has joined the queue is a first pass.
pub proof fn lemma_implementor_exhaustion(w: WorkflowView, top: u64, id: u64, codes: Seq<i32>)
    requires
        implementor_begins(w, top, id),
        codes.len() == MAX_IMPL_RETRIES,
    ensures
        ({
            let end = failed_in_a_row(w, codes, MAX_IMPL_RETRIES as nat);
            &&& end.failures == w.failures.push(
                implementor::exhausted_failure(w, top, MAX_IMPL_RETRIES, codes.last()),
            )
            &&& end.failures.last().attempts == MAX_IMPL_RETRIES
            &&& end.failures.last().top_task_id == top
            &&& node_status(end.nodes, id) == Some(TaskStatus::Done)
            &&& end.active is None
            &&& w.queue.len() <= end.queue.len() <= w.queue.len() + 1
            &&& end.queue.take(w.queue.len() as int) == w.queue
            &&& forall|j: int|
                w.queue.len() <= j < end.queue.len() ==> job_pass((#[trigger] end.queue[j]).kind)
                    == 1
        }),
{
    let before = (MAX_IMPL_RETRIES - 1) as nat;
    lemma_implementor_tries_again(w, top, id, codes, before);
    let s = failed_in_a_row(w, codes, before);
    assert(s.queue.drop_last() == w.queue);
    lemma_retry_is_next(s, w, top);
    let started = job_started(s);
    lemma_status_keeps_graph(s.nodes, id, TaskStatus::InProgress);
    assert(started.queue == w.queue);
    assert(task_title(started.nodes, top) == task_title(w.nodes, top));
    lemma_implementor_gives_up(started, top, id, codes.last());
    assert(failed_in_a_row(w, codes, MAX_IMPL_RETRIES as nat) == job_finished(
        started,
        false,
        codes.last(),
    ).state);
}

/// The test writer on node `id` is at its first pass for the top-level
/// task `top`, which is the task being worked on and has no other job
/// waiting, and tests mode is on.
pub open spec fn test_writer_begins(w: WorkflowView, top: u64, id: u64) -> bool {
    &&& runs_test_writer(w, top, id, 1)
    &&& w.focus == Some(top)
    &&& w.tests_mode
    &&& !has_job_for(w.queue, top)
    &&& has_node(w.nodes, id)
}

/// Between two failed passes of the test writer: nothing is active, the
/// next pass waits at the back of the queue, and the ledger is as it was.
spec fn test_writer_retries(
    s: WorkflowView,
    w: WorkflowView,
    top: u64,
    id: u64,
    codes: Seq<i32>,
    k: nat,
) -> bool {
    &&& s.active is None
    &&& s.focus == Some(top)
    &&& s.tests_mode
    &&& s.queue == w.queue.push(test_writer::retry_job(top, id, k as u8, codes[k - 1]))
    &&& s.failures == w.failures
    &&& has_node(s.nodes, id)
    &&& task_title(s.nodes, top) == task_title(w.nodes, top)
}

/// A failed pass of the test writer before the last one leaves the next
/// pass waiting.
proof fn lemma_test_writer_tries_again(w: WorkflowView, top: u64, id: u64, codes: Seq<i32>, n: nat)
    requires
        test_writer_begins(w, top, id),
        1 <= n < MAX_TEST_RETRIES,
    ensures
        test_writer_retries(failed_in_a_row(w, codes, n), w, top, id, codes, n),
    decreases n,
{
    if n == 1 {
        lemma_status_keeps_graph(w.nodes, id, TaskStatus::NeedsChanges);
    } else {
        lemma_test_writer_tries_again(w, top, id, codes, (n - 1) as nat);
        let s = failed_in_a_row(w, codes, (n - 1) as nat);
        assert(s.queue.drop_last() == w.queue);
        lemma_retry_is_next(s, w, top);
        let started = job_started(s);
        lemma_status_keeps_graph(s.nodes, id, TaskStatus::InProgress);
        lemma_status_keeps_graph(started.nodes, id, TaskStatus::NeedsChanges);
    }
}

/// The last pass that a test writer is allowed, failed.
proof fn lemma_test_writer_gives_up(started: WorkflowView, top: u64, id: u64, code: i32)
    requires
        runs_test_writer(started, top, id, MAX_TEST_RETRIES),
        started.tests_mode,
        !has_job_for(started.queue, top),
        has_node(started.nodes, id),
    ensures
        ({
            let end = job_finished(started, false, code).state;
            &&& end.failures == started.failures.push(
                test_writer::exhausted_failure(started, top, MAX_TEST_RETRIES, code),
            )
            &&& node_status(end.nodes, id) == Some(TaskStatus::Done)
            &&& end.active is None
            &&& started.queue.len() <= end.queue.len() <= started.queue.len() + 1
            &&& end.queue.take(started.queue.len() as int) == started.queue
            &&& forall|j: int|
                started.queue.len() <= j < end.queue.len() ==> job_pass(
                    (#[trigger] end.queue[j]).kind,
                ) == 1
        }),
{
    let active = started.active->0;
    let noted = with_context(
        idle(started),
        context_summary("TestWriter"@, task_title(started.nodes, top), active.transcript, false),
    );
    let closed = with_status(noted, id, TaskStatus::Done);
    let entered = with_failure(
        closed,
        test_writer::exhausted_failure(noted, top, MAX_TEST_RETRIES, code),
    );
    lemma_status_keeps_graph(noted.nodes, id, TaskStatus::Done);
    assert(node_status(entered.nodes, id) == Some(TaskStatus::Done));
    lemma_moved_on(entered, top, id);
    assert(job_finished(started, false, code).state == top_advanced(entered, top).state);
}

/// A test writer that fails every pass it is allowed, with tests mode on,
/// is entered in the ledger exactly once, with the number of its passes,
/// and is closed; no further pass of it waits.
pub proof fn lemma_test_writer_exhaustion(w: WorkflowView, top: u64, id: u64, codes: Seq<i32>)
    requires
        test_writer_begins(w, top, id),
        codes.len() == MAX_TEST_RETRIES,
    ensures
        ({
            let end = failed_in_a_row(w, codes, MAX_TEST_RETRIES as nat);
            &&& end.failures == w.failures.push(
                test_writer::exhausted_failure(w, top, MAX_TEST_RETRIES, codes.last()),
            )
            &&& end.failures.last().attempts == MAX_TEST_RETRIES
            &&& end.failures.last().top_task_id == top
            &&& node_status(end.nodes, id) == Some(TaskStatus::Done)
            &&& end.active is None
            &&& w.queue.len() <= end.queue.len() <= w.queue.len() + 1
            &&& end.queue.take(w.queue.len() as int) == w.queue
            &&& forall|j: int|
                w.queue.len() <= j < end.queue.len() ==> job_pass((#[trigger] end.queue[j]).kind)
                    == 1
        }),
{
    let before = (MAX_TEST_RETRIES - 1) as nat;
    lemma_test_writer_tries_again(w, top, id, codes, before);
    let s = failed_in_a_row(w, codes, before);
    assert(s.queue.drop_last() == w.queue);
    lemma_retry_is_next(s, w, top);
    let started = job_started(s);
    lemma_status_keeps_graph(s.nodes, id, TaskStatus::InProgress);
    assert(started.queue == w.queue);
    assert(task_title(started.nodes, top) == task_title(w.nodes, top));
    lemma_test_writer_gives_up(started, top, id, codes.last());
    assert(failed_in_a_row(w, codes, MAX_TEST_RETRIES as nat) == job_finished(
        started,
        false,
        codes.last(),
    ).state);
}

} // verus!
