//! The deterministic test run: what the engine does when one ends.

use super::model::{
    context_summary, lemma_parent_next_step_valid, lemma_steps_keep_valid, next_pass, node_parent,
    parent_kind, parent_next_step, saying_first, task_tag, task_title, transcript_tail_text, valid,
    with_context, with_failure, with_job, with_status, JobKindView, JobView, Outcome, WorkflowView,
};
use super::{
    make_context_summary, say, task_tag_text, transcript_tail_text_of, TaskKind, TaskStatus,
    WorkerJob, WorkerJobKind, Workflow, WorkflowFailure, WorkflowFailureKind, MAX_TEST_RETRIES,
};
use crate::api::contracts::FailureView;
use crate::text::{clone_optional, decimal, i32_to_string, optional_text, texts, u8_to_string};
use vstd::prelude::*;
use vstd::string::StringExecFns;

verus! {

/// The ledger entry for a test run that has failed `pass` times.
pub open spec fn exhausted_failure(
    w: WorkflowView,
    top_task_id: u64,
    pass: u8,
    code: i32,
) -> FailureView {
    FailureView {
        kind: WorkflowFailureKind::Test,
        top_task_id,
        top_task_title: task_title(w.nodes, top_task_id),
        attempts: pass,
        reason: "Deterministic tests failed repeatedly; latest exit code "@ + decimal(code as int)
            + "."@,
        action_taken: "Test retries exhausted; a test-writer pass was queued to remove or repair the failing tests."@,
    }
}

/// What is said when a test run has failed its last allowed pass.
pub open spec fn exhausted_message(top_task_id: u64, pass: u8) -> Seq<char> {
    task_tag(top_task_id) + " tests still failing at pass "@ + decimal(pass as int)
        + ". Max retries ("@ + decimal(MAX_TEST_RETRIES as int) + ") reached."@
}

/// The job that follows a failed test run which may be tried again: the
/// test writer or implementor the run stands under, with the end of the
/// transcript as feedback; the run itself where it stands under neither.
pub open spec fn rework_job(
    top_task_id: u64,
    runner_id: u64,
    parent: Option<u64>,
    kind: Option<TaskKind>,
    pass: u8,
    parent_context_key: Option<Seq<char>>,
    transcript: Seq<Seq<char>>,
) -> JobView {
    JobView {
        top_task_id,
        kind: match (parent, kind) {
            (Some(p), Some(TaskKind::TestWriter)) => JobKindView::TestWriter {
                test_writer_id: p,
                pass: next_pass(pass),
                feedback: Some(transcript_tail_text(transcript)),
                skip_test_runner_on_success: false,
                resume_auditor_id: None,
                resume_audit_pass: None,
            },
            (Some(p), Some(TaskKind::Implementor)) => JobKindView::Implementor {
                implementor_id: p,
                pass: next_pass(pass),
                feedback: Some(transcript_tail_text(transcript)),
            },
            _ => JobKindView::TestRun { runner_id, pass: next_pass(pass), parent_context_key },
        },
    }
}

/// The cleanup pass of the test writer `test_writer_id`: it removes the
/// failing tests and is not followed by a test run.
pub open spec fn cleanup_job(
    top_task_id: u64,
    test_writer_id: u64,
    pass: u8,
    transcript: Seq<Seq<char>>,
) -> JobView {
    JobView {
        top_task_id,
        kind: JobKindView::TestWriter {
            test_writer_id,
            pass,
            feedback: Some(transcript_tail_text(transcript)),
            skip_test_runner_on_success: true,
            resume_auditor_id: None,
            resume_audit_pass: None,
        },
    }
}

/// What the engine does when the test run on node `runner_id` has ended.
///
/// The run is summarised in the rolling context. A run that passes closes
/// the runner and lets the branch it stands in go on. A run that fails
/// and may be tried again marks the runner as needing changes and queues
/// the rework. A run that fails its last allowed pass is entered in the
/// ledger and closes the runner; under a test writer a cleanup pass of
/// that test writer is queued, elsewhere the branch goes on.
pub open spec fn completed(
    w: WorkflowView,
    top_task_id: u64,
    runner_id: u64,
    pass: u8,
    parent_context_key: Option<Seq<char>>,
    transcript: Seq<Seq<char>>,
    success: bool,
    code: i32,
) -> Outcome {
    let noted = with_context(
        w,
        context_summary("TestRunner"@, task_title(w.nodes, top_task_id), transcript, success),
    );
    let parent = node_parent(w.nodes, runner_id);
    let kind = parent_kind(w.nodes, runner_id);
    if success {
        saying_first(
            task_tag(top_task_id) + " test run pass "@ + decimal(pass as int) + " passed."@,
            parent_next_step(
                with_status(noted, runner_id, TaskStatus::Done),
                top_task_id,
                parent,
                kind,
                pass,
            ),
        )
    } else if pass >= MAX_TEST_RETRIES {
        let recorded = with_failure(
            with_status(noted, runner_id, TaskStatus::Done),
            exhausted_failure(noted, top_task_id, pass, code),
        );
        if parent is Some && kind == Some(TaskKind::TestWriter) {
            Outcome {
                state: with_job(recorded, cleanup_job(top_task_id, parent->0, pass, transcript)),
                messages: seq![exhausted_message(top_task_id, pass)],
            }
        } else {
            saying_first(
                exhausted_message(top_task_id, pass),
                parent_next_step(recorded, top_task_id, parent, kind, pass),
            )
        }
    } else {
        Outcome {
            state: with_job(
                with_status(noted, runner_id, TaskStatus::NeedsChanges),
                rework_job(
                    top_task_id,
                    runner_id,
                    parent,
                    kind,
                    pass,
                    parent_context_key,
                    transcript,
                ),
            ),
            messages: seq![
                task_tag(top_task_id) + " test run failed (code "@ + decimal(code as int)
                    + "); rework queued."@,
            ],
        }
    }
}

/// Whatever way a test run ends, a valid state stays valid.
pub proof fn lemma_completed_valid(
    w: WorkflowView,
    top_task_id: u64,
    runner_id: u64,
    pass: u8,
    parent_context_key: Option<Seq<char>>,
    transcript: Seq<Seq<char>>,
    success: bool,
    code: i32,
)
    requires
        valid(w),
    ensures
        valid(
            completed(
                w,
                top_task_id,
                runner_id,
                pass,
                parent_context_key,
                transcript,
                success,
                code,
            ).state,
        ),
{
    let noted = with_context(
        w,
        context_summary("TestRunner"@, task_title(w.nodes, top_task_id), transcript, success),
    );
    let parent = node_parent(w.nodes, runner_id);
    let kind = parent_kind(w.nodes, runner_id);
    lemma_steps_keep_valid(w);
    lemma_steps_keep_valid(noted);
    let closed = with_status(noted, runner_id, TaskStatus::Done);
    lemma_steps_keep_valid(closed);
    lemma_parent_next_step_valid(closed, top_task_id, parent, kind, pass);
    lemma_steps_keep_valid(with_status(noted, runner_id, TaskStatus::NeedsChanges));
    if pass >= MAX_TEST_RETRIES {
        let failure = exhausted_failure(noted, top_task_id, pass, code);
        reveal_strlit("Deterministic tests failed repeatedly; latest exit code ");
        assert(failure.reason.len() > 0);
        let recorded = with_failure(closed, failure);
        lemma_steps_keep_valid(recorded);
        lemma_parent_next_step_valid(recorded, top_task_id, parent, kind, pass);
    }
}

/// Takes in the end of the test run on node `runner_id`.
pub fn on_completion(
    workflow: &mut Workflow,
    top_task_id: u64,
    runner_id: u64,
    pass: u8,
    parent_context_key: &Option<String>,
    transcript: &[String],
    success: bool,
    code: i32,
    messages: &mut Vec<String>,
)
    ensures
        final(workflow).state() == completed(
            old(workflow).state(),
            top_task_id,
            runner_id,
            pass,
            optional_text(*parent_context_key),
            texts(transcript@),
            success,
            code,
        ).state,
        texts(final(messages)@) == texts(old(messages)@) + completed(
            old(workflow).state(),
            top_task_id,
            runner_id,
            pass,
            optional_text(*parent_context_key),
            texts(transcript@),
            success,
            code,
        ).messages,
        valid(old(workflow).state()) ==> valid(final(workflow).state()),
{
    proof {
        if valid(workflow.state()) {
            lemma_completed_valid(
                workflow.state(),
                top_task_id,
                runner_id,
                pass,
                optional_text(*parent_context_key),
                texts(transcript@),
                success,
                code,
            );
        }
    }
    let title = workflow.task_title(top_task_id);
    let parent = workflow.parent_of(runner_id);
    let kind = match parent {
        Some(p) => workflow.kind_of(p),
        None => None,
    };
    workflow.push_context(make_context_summary("TestRunner", title.as_str(), transcript, success));
    let ghost noted = workflow.state();
    let ghost said = texts(messages@);
    if success {
        workflow.set_status(runner_id, TaskStatus::Done);
        let mut message = task_tag_text(top_task_id);
        message.append(" test run pass ");
        message.append(u8_to_string(pass).as_str());
        message.append(" passed.");
        say(messages, message);
        let ghost closed = workflow.state();
        workflow.queue_parent_next_step(top_task_id, parent, kind, pass, messages);
        proof {
            let rest = parent_next_step(closed, top_task_id, parent, kind, pass).messages;
            assert((said + seq![message@]) + rest == said + (seq![message@] + rest));
        }
    } else if pass >= MAX_TEST_RETRIES {
        workflow.set_status(runner_id, TaskStatus::Done);
        let mut reason = String::from_str(
            "Deterministic tests failed repeatedly; latest exit code ",
        );
        reason.append(i32_to_string(code).as_str());
        reason.append(".");
        let failure = WorkflowFailure {
            kind: WorkflowFailureKind::Test,
            top_task_id,
            top_task_title: title,
            attempts: pass,
            reason,
            action_taken: String::from_str(
                "Test retries exhausted; a test-writer pass was queued to remove or repair the failing tests.",
            ),
        };
        workflow.record_failure(failure);
        let mut message = task_tag_text(top_task_id);
        message.append(" tests still failing at pass ");
        message.append(u8_to_string(pass).as_str());
        message.append(". Max retries (");
        message.append(u8_to_string(MAX_TEST_RETRIES).as_str());
        message.append(") reached.");
        say(messages, message);
        let ghost recorded = workflow.state();
        let under_test_writer = match (parent, kind) {
            (Some(_), Some(TaskKind::TestWriter)) => true,
            _ => false,
        };
        if under_test_writer {
            workflow.enqueue(
                WorkerJob {
                    top_task_id,
                    kind: WorkerJobKind::TestWriter {
                        test_writer_id: parent.unwrap(),
                        pass,
                        feedback: Some(transcript_tail_text_of(transcript)),
                        skip_test_runner_on_success: true,
                        resume_auditor_id: None,
                        resume_audit_pass: None,
                    },
                },
            );
        } else {
            workflow.queue_parent_next_step(top_task_id, parent, kind, pass, messages);
            proof {
                let rest = parent_next_step(recorded, top_task_id, parent, kind, pass).messages;
                assert((said + seq![message@]) + rest == said + (seq![message@] + rest));
            }
        }
    } else {
        workflow.set_status(runner_id, TaskStatus::NeedsChanges);
        let job_kind = match (parent, kind) {
            (Some(p), Some(TaskKind::TestWriter)) => WorkerJobKind::TestWriter {
                test_writer_id: p,
                pass: pass.saturating_add(1),
                feedback: Some(transcript_tail_text_of(transcript)),
                skip_test_runner_on_success: false,
                resume_auditor_id: None,
                resume_audit_pass: None,
            },
            (Some(p), Some(TaskKind::Implementor)) => WorkerJobKind::Implementor {
                implementor_id: p,
                pass: pass.saturating_add(1),
                feedback: Some(transcript_tail_text_of(transcript)),
            },
            _ => WorkerJobKind::TestRun {
                runner_id,
                pass: pass.saturating_add(1),
                parent_context_key: clone_optional(parent_context_key),
            },
        };
        workflow.enqueue(WorkerJob { top_task_id, kind: job_kind });
        let mut message = task_tag_text(top_task_id);
        message.append(" test run failed (code ");
        message.append(i32_to_string(code).as_str());
        message.append("); rework queued.");
        say(messages, message);
    }
}

} // verus!
