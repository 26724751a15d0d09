//! The final audit of a top-level task: the prompt it is given and what
//! the engine does when one ends.

use super::model::{
    context_block, context_summary, has_pending_child, lemma_reopened_valid, lemma_steps_keep_valid,
    lemma_top_advanced_valid, next_child, next_pass, node_details, node_title, reopened,
    saying_first, task_tag, task_title, top_advanced, transcript_text, valid, with_context,
    with_failure, with_job, with_status, JobKindView, JobView, Outcome, WorkflowView,
};
use super::{
    make_context_summary, say, task_tag_text, TaskKind, TaskStatus, WorkerJob, WorkerJobKind,
    Workflow, WorkflowFailure, WorkflowFailureKind, MAX_FINAL_AUDIT_PASSES,
};
use crate::api::contracts::FailureView;
use crate::text::{decimal, join, texts, u8_to_string};
use vstd::prelude::*;
use vstd::string::StringExecFns;

verus! {

/// The prompt for the final audit on node `node_id` of the top-level task
/// `top_task_id`.
pub open spec fn prompt(w: WorkflowView, top_task_id: u64, node_id: u64) -> Seq<char> {
    "You are a final-audit sub-agent.\nTop-level task: "@ + task_title(w.nodes, top_task_id)
        + "\nFinal audit: "@ + node_title(w.nodes, node_id, "Final Audit"@)
        + "\nAudit details:\n"@ + node_details(w.nodes, node_id) + "\nRolling task context:\n"@
        + context_block(w.context) + "\nReply with PASS or list the problems found."@
}

/// The prompt for the final audit on node `node_id` of the top-level task
/// `top_task_id`.
pub fn build_prompt(workflow: &Workflow, top_task_id: u64, node_id: u64) -> (text: String)
    ensures
        text@ == prompt(workflow.state(), top_task_id, node_id),
{
    let mut text = String::from_str("You are a final-audit sub-agent.\nTop-level task: ");
    text.append(workflow.task_title(top_task_id).as_str());
    text.append("\nFinal audit: ");
    text.append(workflow.node_title(node_id, "Final Audit").as_str());
    text.append("\nAudit details:\n");
    text.append(workflow.node_details(node_id).as_str());
    text.append("\nRolling task context:\n");
    text.append(workflow.context_block().as_str());
    text.append("\nReply with PASS or list the problems found.");
    text
}

/// The ledger entry for a final audit that has rejected `pass` passes.
pub open spec fn exhausted_failure(w: WorkflowView, top_task_id: u64, pass: u8) -> FailureView {
    FailureView {
        kind: WorkflowFailureKind::Audit,
        top_task_id,
        top_task_title: task_title(w.nodes, top_task_id),
        attempts: pass,
        reason: "Final audit kept finding problems after "@ + decimal(pass as int) + " passes."@,
        action_taken: "Final audit passes exhausted; the task was closed as it is."@,
    }
}

/// The state after a rejected final audit has sent the work back: the
/// implementors of the top-level task are marked as needing changes, the
/// one that is served first is queued with the audit as feedback, and the
/// final audit is queued after it for its next pass.
pub open spec fn sent_back(
    w: WorkflowView,
    top_task_id: u64,
    node_id: u64,
    pass: u8,
    transcript: Seq<Seq<char>>,
) -> WorkflowView {
    let open = reopened(
        with_status(w, node_id, TaskStatus::NeedsChanges),
        top_task_id,
        TaskKind::Implementor,
    );
    let reworked = if has_pending_child(open.nodes, Some(top_task_id), TaskKind::Implementor) {
        with_job(
            open,
            JobView {
                top_task_id,
                kind: JobKindView::Implementor {
                    implementor_id: next_child(
                        open.nodes,
                        Some(top_task_id),
                        TaskKind::Implementor,
                    ),
                    pass: 1,
                    feedback: Some(transcript_text(transcript)),
                },
            },
        )
    } else {
        open
    };
    with_job(
        reworked,
        JobView { top_task_id, kind: JobKindView::FinalAudit { node_id, pass: next_pass(pass) } },
    )
}

/// What the engine does when the final audit on node `node_id` has ended.
///
/// The audit is summarised in the rolling context. An audit that passes
/// closes its node and moves the top-level task on, which closes it where
/// nothing else is open. One that rejects its last allowed pass is
/// entered in the ledger and does the same. Any other rejection sends the
/// work back.
pub open spec fn completed(
    w: WorkflowView,
    top_task_id: u64,
    node_id: u64,
    pass: u8,
    transcript: Seq<Seq<char>>,
    success: bool,
) -> Outcome {
    let noted = with_context(
        w,
        context_summary("FinalAudit"@, task_title(w.nodes, top_task_id), transcript, success),
    );
    if success {
        saying_first(
            task_tag(top_task_id) + " final audit pass "@ + decimal(pass as int) + " passed."@,
            top_advanced(with_status(noted, node_id, TaskStatus::Done), top_task_id),
        )
    } else if pass >= MAX_FINAL_AUDIT_PASSES {
        saying_first(
            task_tag(top_task_id) + " final audit still failing at pass "@ + decimal(pass as int)
                + ". Max passes ("@ + decimal(MAX_FINAL_AUDIT_PASSES as int)
                + ") reached; closing the task."@,
            top_advanced(
                with_failure(
                    with_status(noted, node_id, TaskStatus::Done),
                    exhausted_failure(noted, top_task_id, pass),
                ),
                top_task_id,
            ),
        )
    } else {
        Outcome {
            state: sent_back(noted, top_task_id, node_id, pass, transcript),
            messages: seq![
                task_tag(top_task_id) + " final audit pass "@ + decimal(pass as int)
                    + " found problems; rework and re-audit queued."@,
            ],
        }
    }
}

/// Whatever way a final audit ends, a valid state stays valid.
pub proof fn lemma_completed_valid(
    w: WorkflowView,
    top_task_id: u64,
    node_id: u64,
    pass: u8,
    transcript: Seq<Seq<char>>,
    success: bool,
)
    requires
        valid(w),
    ensures
        valid(completed(w, top_task_id, node_id, pass, transcript, success).state),
{
    let noted = with_context(
        w,
        context_summary("FinalAudit"@, task_title(w.nodes, top_task_id), transcript, success),
    );
    lemma_steps_keep_valid(w);
    lemma_steps_keep_valid(noted);
    let closed = with_status(noted, node_id, TaskStatus::Done);
    lemma_steps_keep_valid(closed);
    lemma_top_advanced_valid(closed, top_task_id);
    let marked = with_status(noted, node_id, TaskStatus::NeedsChanges);
    lemma_reopened_valid(marked, top_task_id, TaskKind::Implementor);
    let open = reopened(marked, top_task_id, TaskKind::Implementor);
    lemma_steps_keep_valid(open);
    if has_pending_child(open.nodes, Some(top_task_id), TaskKind::Implementor) {
        lemma_steps_keep_valid(
            with_job(
                open,
                JobView {
                    top_task_id,
                    kind: JobKindView::Implementor {
                        implementor_id: next_child(
                            open.nodes,
                            Some(top_task_id),
                            TaskKind::Implementor,
                        ),
                        pass: 1,
                        feedback: Some(transcript_text(transcript)),
                    },
                },
            ),
        );
    }
    if pass >= MAX_FINAL_AUDIT_PASSES {
        let failure = exhausted_failure(noted, top_task_id, pass);
        reveal_strlit("Final audit kept finding problems after ");
        assert(failure.reason.len() > 0);
        lemma_top_advanced_valid(with_failure(closed, failure), top_task_id);
    }
}

/// Takes in the end of the final audit on node `node_id`.
pub fn on_completion(
    workflow: &mut Workflow,
    top_task_id: u64,
    node_id: u64,
    pass: u8,
    transcript: &[String],
    success: bool,
    messages: &mut Vec<String>,
)
    ensures
        final(workflow).state() == completed(
            old(workflow).state(),
            top_task_id,
            node_id,
            pass,
            texts(transcript@),
            success,
        ).state,
        texts(final(messages)@) == texts(old(messages)@) + completed(
            old(workflow).state(),
            top_task_id,
            node_id,
            pass,
            texts(transcript@),
            success,
        ).messages,
        valid(old(workflow).state()) ==> valid(final(workflow).state()),
{
    proof {
        if valid(workflow.state()) {
            lemma_completed_valid(
                workflow.state(),
                top_task_id,
                node_id,
                pass,
                texts(transcript@),
                success,
            );
        }
    }
    let title = workflow.task_title(top_task_id);
    workflow.push_context(make_context_summary("FinalAudit", title.as_str(), transcript, success));
    let ghost noted = workflow.state();
    let ghost said = texts(messages@);
    if success {
        workflow.set_status(node_id, TaskStatus::Done);
        let mut message = task_tag_text(top_task_id);
        message.append(" final audit pass ");
        message.append(u8_to_string(pass).as_str());
        message.append(" passed.");
        say(messages, message);
        let ghost closed = workflow.state();
        workflow.try_mark_top_done(top_task_id, messages);
        proof {
            let rest = top_advanced(closed, top_task_id).messages;
            assert((said + seq![message@]) + rest == said + (seq![message@] + rest));
        }
    } else if pass >= MAX_FINAL_AUDIT_PASSES {
        workflow.set_status(node_id, TaskStatus::Done);
        let mut reason = String::from_str("Final audit kept finding problems after ");
        reason.append(u8_to_string(pass).as_str());
        reason.append(" passes.");
        workflow.record_failure(
            WorkflowFailure {
                kind: WorkflowFailureKind::Audit,
                top_task_id,
                top_task_title: title,
                attempts: pass,
                reason,
                action_taken: String::from_str(
                    "Final audit passes exhausted; the task was closed as it is.",
                ),
            },
        );
        let mut message = task_tag_text(top_task_id);
        message.append(" final audit still failing at pass ");
        message.append(u8_to_string(pass).as_str());
        message.append(". Max passes (");
        message.append(u8_to_string(MAX_FINAL_AUDIT_PASSES).as_str());
        message.append(") reached; closing the task.");
        say(messages, message);
        let ghost recorded = workflow.state();
        workflow.try_mark_top_done(top_task_id, messages);
        proof {
            let rest = top_advanced(recorded, top_task_id).messages;
            assert((said + seq![message@]) + rest == said + (seq![message@] + rest));
        }
    } else {
        workflow.set_status(node_id, TaskStatus::NeedsChanges);
        workflow.reopen_children(top_task_id, TaskKind::Implementor);
        if let Some(implementor_id) = workflow.next_pending_child(
            Some(top_task_id),
            TaskKind::Implementor,
        ) {
            workflow.enqueue(
                WorkerJob {
                    top_task_id,
                    kind: WorkerJobKind::Implementor {
                        implementor_id,
                        pass: 1,
                        feedback: Some(join(transcript, "\n")),
                    },
                },
            );
        }
        workflow.enqueue(
            WorkerJob {
                top_task_id,
                kind: WorkerJobKind::FinalAudit { node_id, pass: pass.saturating_add(1) },
            },
        );
        let mut message = task_tag_text(top_task_id);
        message.append(" final audit pass ");
        message.append(u8_to_string(pass).as_str());
        message.append(" found problems; rework and re-audit queued.");
        say(messages, message);
    }
}

} // verus!
