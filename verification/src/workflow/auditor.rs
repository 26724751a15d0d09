//! The auditors: the prompt an auditor is given and what the engine does
//! when an audit of an implementor or of a test writer ends.

use super::model::{
    context_block, context_summary, implementor_next_step, lemma_implementor_next_step_valid,
    lemma_steps_keep_valid, lemma_test_writer_next_step_valid, next_pass, node_details, node_title,
    saying_first, task_tag, task_title, test_writer_next_step, transcript_text, valid, with_context,
    with_failure, with_job, with_status, JobKindView, JobView, Outcome, WorkflowView,
};
use super::{
    make_context_summary, say, task_tag_text, TaskStatus, WorkerJob, WorkerJobKind, Workflow,
    WorkflowFailure, WorkflowFailureKind, MAX_AUDIT_PASSES,
};
use crate::api::contracts::FailureView;
use crate::text::{decimal, join, texts, u8_to_string};
use vstd::prelude::*;
use vstd::string::StringExecFns;

verus! {

/// What the prompt says about the report under audit.
pub open spec fn report_section(report: Option<Seq<char>>) -> Seq<char> {
    match report {
        Some(r) => "Report to audit:\n"@ + r,
        None => "No report was attached; audit the current state of the work."@,
    }
}

/// The prompt for an auditor working on node `auditor_id`, auditing the
/// work on node `subject_id` of the top-level task `top_task_id`.
pub open spec fn prompt(
    w: WorkflowView,
    top_task_id: u64,
    subject_id: u64,
    auditor_id: u64,
    report: Option<Seq<char>>,
) -> Seq<char> {
    "You are an auditor sub-agent.\nTop-level task: "@ + task_title(w.nodes, top_task_id)
        + "\nAudited subtask: "@ + node_title(w.nodes, subject_id, "Implementation"@)
        + "\nAudit details:\n"@ + node_details(w.nodes, auditor_id) + "\nRolling task context:\n"@
        + context_block(w.context) + "\n"@ + report_section(report)
        + "\nReply with PASS or list the problems found."@
}

/// The prompt for an auditor working on node `auditor_id`, auditing the
/// work on node `subject_id` of the top-level task `top_task_id`.
pub fn build_prompt(
    workflow: &Workflow,
    top_task_id: u64,
    subject_id: u64,
    auditor_id: u64,
    report: Option<&str>,
) -> (text: String)
    ensures
        text@ == prompt(
            workflow.state(),
            top_task_id,
            subject_id,
            auditor_id,
            match report {
                Some(r) => Some(r@),
                None => None,
            },
        ),
{
    let mut text = String::from_str("You are an auditor sub-agent.\nTop-level task: ");
    text.append(workflow.task_title(top_task_id).as_str());
    text.append("\nAudited subtask: ");
    text.append(workflow.node_title(subject_id, "Implementation").as_str());
    text.append("\nAudit details:\n");
    text.append(workflow.node_details(auditor_id).as_str());
    text.append("\nRolling task context:\n");
    text.append(workflow.context_block().as_str());
    text.append("\n");
    match report {
        Some(r) => {
            let mut section = String::from_str("Report to audit:\n");
            section.append(r);
            text.append(section.as_str());
        },
        None => {
            text.append("No report was attached; audit the current state of the work.");
        },
    }
    text.append("\nReply with PASS or list the problems found.");
    text
}

/// The ledger entry for an audit that has rejected `pass` passes.
pub open spec fn exhausted_failure(w: WorkflowView, top_task_id: u64, pass: u8) -> FailureView {
    FailureView {
        kind: WorkflowFailureKind::Audit,
        top_task_id,
        top_task_title: task_title(w.nodes, top_task_id),
        attempts: pass,
        reason: "Audit kept finding problems after "@ + decimal(pass as int) + " passes."@,
        action_taken: "Audit passes exhausted; proceeded to the next step."@,
    }
}

/// What is said when an audit has rejected its last pass.
pub open spec fn exhausted_message(top_task_id: u64, pass: u8) -> Seq<char> {
    task_tag(top_task_id) + " audit still failing at pass "@ + decimal(pass as int)
        + ". Max passes ("@ + decimal(MAX_AUDIT_PASSES as int)
        + ") reached; proceeding to next step."@
}

/// What the engine does when an audit of the implementor
/// `implementor_id` by the auditor `auditor_id` has ended.
///
/// The audit is summarised in the rolling context. An audit that passes
/// closes the auditor and lets the implementor's branch go on. One that
/// rejects its last allowed pass is entered in the ledger and does the
/// same. Any other rejection marks the auditor as needing changes and
/// queues the implementor again, with the audit as feedback, and the same
/// auditor after it.
pub open spec fn implementor_audited(
    w: WorkflowView,
    top_task_id: u64,
    implementor_id: u64,
    auditor_id: u64,
    pass: u8,
    transcript: Seq<Seq<char>>,
    success: bool,
) -> Outcome {
    let noted = with_context(
        w,
        context_summary("Auditor"@, task_title(w.nodes, top_task_id), transcript, success),
    );
    if success {
        saying_first(
            task_tag(top_task_id) + " audit pass "@ + decimal(pass as int) + " passed."@,
            implementor_next_step(
                with_status(noted, auditor_id, TaskStatus::Done),
                top_task_id,
                implementor_id,
                pass,
                false,
            ),
        )
    } else if pass >= MAX_AUDIT_PASSES {
        saying_first(
            exhausted_message(top_task_id, pass),
            implementor_next_step(
                with_failure(
                    with_status(noted, auditor_id, TaskStatus::Done),
                    exhausted_failure(noted, top_task_id, pass),
                ),
                top_task_id,
                implementor_id,
                pass,
                false,
            ),
        )
    } else {
        Outcome {
            state: with_job(
                with_job(
                    with_status(noted, auditor_id, TaskStatus::NeedsChanges),
                    JobView {
                        top_task_id,
                        kind: JobKindView::Implementor {
                            implementor_id,
                            pass: next_pass(pass),
                            feedback: Some(transcript_text(transcript)),
                        },
                    },
                ),
                JobView {
                    top_task_id,
                    kind: JobKindView::ImplementorAuditor {
                        implementor_id,
                        auditor_id,
                        pass: next_pass(pass),
                        audit_report: Some(transcript_text(transcript)),
                    },
                },
            ),
            messages: seq![
                task_tag(top_task_id) + " audit pass "@ + decimal(pass as int)
                    + " found problems; rework and re-audit queued."@,
            ],
        }
    }
}

/// What the engine does when an audit of the test writer
/// `test_writer_id` by the auditor `auditor_id` has ended.
///
/// As for an implementor, except that a rejection queues the test writer
/// alone, which takes the audit up again once it has succeeded.
pub open spec fn test_writer_audited(
    w: WorkflowView,
    top_task_id: u64,
    test_writer_id: u64,
    auditor_id: u64,
    pass: u8,
    transcript: Seq<Seq<char>>,
    success: bool,
) -> Outcome {
    let noted = with_context(
        w,
        context_summary("Auditor"@, task_title(w.nodes, top_task_id), transcript, success),
    );
    if success {
        saying_first(
            task_tag(top_task_id) + " test audit pass "@ + decimal(pass as int) + " passed."@,
            test_writer_next_step(
                with_status(noted, auditor_id, TaskStatus::Done),
                top_task_id,
                test_writer_id,
                pass,
                false,
                None,
            ),
        )
    } else if pass >= MAX_AUDIT_PASSES {
        saying_first(
            exhausted_message(top_task_id, pass),
            test_writer_next_step(
                with_failure(
                    with_status(noted, auditor_id, TaskStatus::Done),
                    exhausted_failure(noted, top_task_id, pass),
                ),
                top_task_id,
                test_writer_id,
                pass,
                false,
                None,
            ),
        )
    } else {
        Outcome {
            state: with_job(
                with_status(noted, auditor_id, TaskStatus::NeedsChanges),
                JobView {
                    top_task_id,
                    kind: JobKindView::TestWriter {
                        test_writer_id,
                        pass: next_pass(pass),
                        feedback: Some(transcript_text(transcript)),
                        skip_test_runner_on_success: false,
                        resume_auditor_id: Some(auditor_id),
                        resume_audit_pass: Some(next_pass(pass)),
                    },
                },
            ),
            messages: seq![
                task_tag(top_task_id) + " test audit pass "@ + decimal(pass as int)
                    + " found problems; test-writer rework queued."@,
            ],
        }
    }
}

/// Whatever way an audit ends, a valid state stays valid.
pub proof fn lemma_audited_valid(
    w: WorkflowView,
    top_task_id: u64,
    subject_id: u64,
    auditor_id: u64,
    pass: u8,
    transcript: Seq<Seq<char>>,
    success: bool,
)
    requires
        valid(w),
    ensures
        valid(
            implementor_audited(w, top_task_id, subject_id, auditor_id, pass, transcript, success).state,
        ),
        valid(
            test_writer_audited(w, top_task_id, subject_id, auditor_id, pass, transcript, success).state,
        ),
{
    let noted = with_context(
        w,
        context_summary("Auditor"@, task_title(w.nodes, top_task_id), transcript, success),
    );
    lemma_steps_keep_valid(w);
    lemma_steps_keep_valid(noted);
    let closed = with_status(noted, auditor_id, TaskStatus::Done);
    lemma_steps_keep_valid(closed);
    lemma_implementor_next_step_valid(closed, top_task_id, subject_id, pass, false);
    lemma_test_writer_next_step_valid(closed, top_task_id, subject_id, pass, false, None);
    let marked = with_status(noted, auditor_id, TaskStatus::NeedsChanges);
    lemma_steps_keep_valid(marked);
    lemma_steps_keep_valid(
        with_job(
            marked,
            JobView {
                top_task_id,
                kind: JobKindView::Implementor {
                    implementor_id: subject_id,
                    pass: next_pass(pass),
                    feedback: Some(transcript_text(transcript)),
                },
            },
        ),
    );
    if pass >= MAX_AUDIT_PASSES {
        let failure = exhausted_failure(noted, top_task_id, pass);
        reveal_strlit("Audit kept finding problems after ");
        assert(failure.reason.len() > 0);
        let recorded = with_failure(closed, failure);
        lemma_implementor_next_step_valid(recorded, top_task_id, subject_id, pass, false);
        lemma_test_writer_next_step_valid(recorded, top_task_id, subject_id, pass, false, None);
    }
}

/// Closes the auditor after its last allowed pass: enters the failure in
/// the ledger and says so.
fn give_up(
    workflow: &mut Workflow,
    top_task_id: u64,
    auditor_id: u64,
    pass: u8,
    messages: &mut Vec<String>,
)
    ensures
        final(workflow).state() == with_failure(
            with_status(old(workflow).state(), auditor_id, TaskStatus::Done),
            exhausted_failure(old(workflow).state(), top_task_id, pass),
        ),
        texts(final(messages)@) == texts(old(messages)@) + seq![
            exhausted_message(top_task_id, pass),
        ],
{
    let top_task_title = workflow.task_title(top_task_id);
    workflow.set_status(auditor_id, TaskStatus::Done);
    let mut reason = String::from_str("Audit kept finding problems after ");
    reason.append(u8_to_string(pass).as_str());
    reason.append(" passes.");
    workflow.record_failure(
        WorkflowFailure {
            kind: WorkflowFailureKind::Audit,
            top_task_id,
            top_task_title,
            attempts: pass,
            reason,
            action_taken: String::from_str("Audit passes exhausted; proceeded to the next step."),
        },
    );
    let mut message = task_tag_text(top_task_id);
    message.append(" audit still failing at pass ");
    message.append(u8_to_string(pass).as_str());
    message.append(". Max passes (");
    message.append(u8_to_string(MAX_AUDIT_PASSES).as_str());
    message.append(") reached; proceeding to next step.");
    say(messages, message);
}

/// Takes in the end of an audit of the implementor `implementor_id` by
/// the auditor `auditor_id`.
pub fn on_implementor_audit_completion(
    workflow: &mut Workflow,
    top_task_id: u64,
    implementor_id: u64,
    auditor_id: u64,
    pass: u8,
    transcript: &[String],
    success: bool,
    messages: &mut Vec<String>,
)
    ensures
        final(workflow).state() == implementor_audited(
            old(workflow).state(),
            top_task_id,
            implementor_id,
            auditor_id,
            pass,
            texts(transcript@),
            success,
        ).state,
        texts(final(messages)@) == texts(old(messages)@) + implementor_audited(
            old(workflow).state(),
            top_task_id,
            implementor_id,
            auditor_id,
            pass,
            texts(transcript@),
            success,
        ).messages,
        valid(old(workflow).state()) ==> valid(final(workflow).state()),
{
    proof {
        if valid(workflow.state()) {
            lemma_audited_valid(
                workflow.state(),
                top_task_id,
                implementor_id,
                auditor_id,
                pass,
                texts(transcript@),
                success,
            );
        }
    }
    let title = workflow.task_title(top_task_id);
    workflow.push_context(make_context_summary("Auditor", title.as_str(), transcript, success));
    let ghost noted = workflow.state();
    let ghost said = texts(messages@);
    if success {
        workflow.set_status(auditor_id, TaskStatus::Done);
        let mut message = task_tag_text(top_task_id);
        message.append(" audit pass ");
        message.append(u8_to_string(pass).as_str());
        message.append(" passed.");
        say(messages, message);
        let ghost closed = workflow.state();
        workflow.queue_implementor_next_step(top_task_id, implementor_id, pass, false, messages);
        proof {
            let rest = implementor_next_step(closed, top_task_id, implementor_id, pass, false).messages;
            assert((said + seq![message@]) + rest == said + (seq![message@] + rest));
        }
    } else if pass >= MAX_AUDIT_PASSES {
        give_up(workflow, top_task_id, auditor_id, pass, messages);
        let ghost recorded = workflow.state();
        workflow.queue_implementor_next_step(top_task_id, implementor_id, pass, false, messages);
        proof {
            let first = exhausted_message(top_task_id, pass);
            let rest = implementor_next_step(recorded, top_task_id, implementor_id, pass, false).messages;
            assert((said + seq![first]) + rest == said + (seq![first] + rest));
        }
    } else {
        workflow.set_status(auditor_id, TaskStatus::NeedsChanges);
        workflow.enqueue(
            WorkerJob {
                top_task_id,
                kind: WorkerJobKind::Implementor {
                    implementor_id,
                    pass: pass.saturating_add(1),
                    feedback: Some(join(transcript, "\n")),
                },
            },
        );
        workflow.enqueue(
            WorkerJob {
                top_task_id,
                kind: WorkerJobKind::ImplementorAuditor {
                    implementor_id,
                    auditor_id,
                    pass: pass.saturating_add(1),
                    audit_report: Some(join(transcript, "\n")),
                },
            },
        );
        let mut message = task_tag_text(top_task_id);
        message.append(" audit pass ");
        message.append(u8_to_string(pass).as_str());
        message.append(" found problems; rework and re-audit queued.");
        say(messages, message);
    }
}

/// Takes in the end of an audit of the test writer `test_writer_id` by
/// the auditor `auditor_id`.
pub fn on_test_writer_audit_completion(
    workflow: &mut Workflow,
    top_task_id: u64,
    test_writer_id: u64,
    auditor_id: u64,
    pass: u8,
    transcript: &[String],
    success: bool,
    messages: &mut Vec<String>,
)
    ensures
        final(workflow).state() == test_writer_audited(
            old(workflow).state(),
            top_task_id,
            test_writer_id,
            auditor_id,
            pass,
            texts(transcript@),
            success,
        ).state,
        texts(final(messages)@) == texts(old(messages)@) + test_writer_audited(
            old(workflow).state(),
            top_task_id,
            test_writer_id,
            auditor_id,
            pass,
            texts(transcript@),
            success,
        ).messages,
        valid(old(workflow).state()) ==> valid(final(workflow).state()),
{
    proof {
        if valid(workflow.state()) {
            lemma_audited_valid(
                workflow.state(),
                top_task_id,
                test_writer_id,
                auditor_id,
                pass,
                texts(transcript@),
                success,
            );
        }
    }
    let title = workflow.task_title(top_task_id);
    workflow.push_context(make_context_summary("Auditor", title.as_str(), transcript, success));
    let ghost noted = workflow.state();
    let ghost said = texts(messages@);
    if success {
        workflow.set_status(auditor_id, TaskStatus::Done);
        let mut message = task_tag_text(top_task_id);
        message.append(" test audit pass ");
        message.append(u8_to_string(pass).as_str());
        message.append(" passed.");
        say(messages, message);
        let ghost closed = workflow.state();
        workflow.queue_test_writer_next_step(
            top_task_id,
            test_writer_id,
            pass,
            false,
            None,
            messages,
        );
        proof {
            let rest = test_writer_next_step(
                closed,
                top_task_id,
                test_writer_id,
                pass,
                false,
                None,
            ).messages;
            assert((said + seq![message@]) + rest == said + (seq![message@] + rest));
        }
    } else if pass >= MAX_AUDIT_PASSES {
        give_up(workflow, top_task_id, auditor_id, pass, messages);
        let ghost recorded = workflow.state();
        workflow.queue_test_writer_next_step(
            top_task_id,
            test_writer_id,
            pass,
            false,
            None,
            messages,
        );
        proof {
            let first = exhausted_message(top_task_id, pass);
            let rest = test_writer_next_step(
                recorded,
                top_task_id,
                test_writer_id,
                pass,
                false,
                None,
            ).messages;
            assert((said + seq![first]) + rest == said + (seq![first] + rest));
        }
    } else {
        workflow.set_status(auditor_id, TaskStatus::NeedsChanges);
        workflow.enqueue(
            WorkerJob {
                top_task_id,
                kind: WorkerJobKind::TestWriter {
                    test_writer_id,
                    pass: pass.saturating_add(1),
                    feedback: Some(join(transcript, "\n")),
                    skip_test_runner_on_success: false,
                    resume_auditor_id: Some(auditor_id),
                    resume_audit_pass: Some(pass.saturating_add(1)),
                },
            },
        );
        let mut message = task_tag_text(top_task_id);
        message.append(" test audit pass ");
        message.append(u8_to_string(pass).as_str());
        message.append(" found problems; test-writer rework queued.");
        say(messages, message);
    }
}

} // verus!
