//! The implementor: the prompt it is given and what the engine does when
//! one of its runs ends.

use super::model::{
    context_block, context_summary, implementor_next_step, lemma_implementor_next_step_valid,
    lemma_status_keeps_graph, lemma_steps_keep_valid, lemma_top_advanced_valid, next_pass,
    node_details, node_title, saying_first, task_tag, task_title, top_advanced, valid, with_context,
    with_failure, with_job, with_status, JobKindView, JobView, Outcome, WorkflowView,
};
use super::{
    make_context_summary, say, task_tag_text, TaskStatus, WorkerJob, WorkerJobKind, Workflow,
    WorkflowFailure, WorkflowFailureKind, MAX_IMPL_RETRIES,
};
use crate::api::contracts::FailureView;
use crate::text::{decimal, i32_to_string, texts, u8_to_string};
use vstd::prelude::*;
use vstd::string::StringExecFns;

verus! {

/// What the prompt says about earlier feedback.
pub open spec fn feedback_section(feedback: Option<Seq<char>>) -> Seq<char> {
    match feedback {
        Some(f) => "Feedback to address in this pass:\n"@ + f,
        None => "No feedback yet; implement the subtask as described."@,
    }
}

/// The prompt for an implementor working on node `implementor_id` of the
/// top-level task `top_task_id`.
pub open spec fn prompt(
    w: WorkflowView,
    top_task_id: u64,
    implementor_id: u64,
    feedback: Option<Seq<char>>,
) -> Seq<char> {
    "You are an implementor sub-agent.\nTop-level task: "@ + task_title(w.nodes, top_task_id)
        + "\nImplementor subtask: "@ + node_title(w.nodes, implementor_id, "Implementation"@)
        + "\nImplementation details:\n"@ + node_details(w.nodes, implementor_id)
        + "\nRolling task context:\n"@ + context_block(w.context) + "\n"@ + feedback_section(
        feedback,
    ) + "\nKeep output concise and state what was changed."@
}

/// The prompt for an implementor working on node `implementor_id` of the
/// top-level task `top_task_id`.
pub fn build_prompt(
    workflow: &Workflow,
    top_task_id: u64,
    implementor_id: u64,
    feedback: Option<&str>,
) -> (text: String)
    ensures
        text@ == prompt(
            workflow.state(),
            top_task_id,
            implementor_id,
            match feedback {
                Some(f) => Some(f@),
                None => None,
            },
        ),
{
    let mut text = String::from_str("You are an implementor sub-agent.\nTop-level task: ");
    text.append(workflow.task_title(top_task_id).as_str());
    text.append("\nImplementor subtask: ");
    text.append(workflow.node_title(implementor_id, "Implementation").as_str());
    text.append("\nImplementation details:\n");
    text.append(workflow.node_details(implementor_id).as_str());
    text.append("\nRolling task context:\n");
    text.append(workflow.context_block().as_str());
    text.append("\n");
    match feedback {
        Some(f) => {
            let mut section = String::from_str("Feedback to address in this pass:\n");
            section.append(f);
            text.append(section.as_str());
        },
        None => {
            text.append("No feedback yet; implement the subtask as described.");
        },
    }
    text.append("\nKeep output concise and state what was changed.");
    text
}

/// The ledger entry for an implementor that has failed `pass` times.
pub open spec fn exhausted_failure(
    w: WorkflowView,
    top_task_id: u64,
    pass: u8,
    code: i32,
) -> FailureView {
    FailureView {
        kind: WorkflowFailureKind::Audit,
        top_task_id,
        top_task_title: task_title(w.nodes, top_task_id),
        attempts: pass,
        reason: "Implementor repeatedly failed; latest exit code "@ + decimal(code as int) + "."@,
        action_taken: "Implementor retries exhausted; proceeded to the next step."@,
    }
}

/// The job that runs an implementor again after a failed pass.
pub open spec fn retry_job(top_task_id: u64, implementor_id: u64, pass: u8, code: i32) -> JobView {
    JobView {
        top_task_id,
        kind: JobKindView::Implementor {
            implementor_id,
            pass: next_pass(pass),
            feedback: Some(
                "Previous implementor run failed with code "@ + decimal(code as int) + "."@,
            ),
        },
    }
}

/// What the engine does when a run of the implementor on node
/// `implementor_id` has ended.
///
/// The run is summarised in the rolling context. A successful pass is
/// followed by the next step of the plan, an audit first. A failed pass
/// that was the last one allowed is entered in the ledger, closes the
/// implementor and moves the top-level task on. Any other failed pass
/// marks the implementor as needing changes and queues the next pass.
pub open spec fn completed(
    w: WorkflowView,
    top_task_id: u64,
    implementor_id: u64,
    pass: u8,
    transcript: Seq<Seq<char>>,
    success: bool,
    code: i32,
) -> Outcome {
    let noted = with_context(
        w,
        context_summary("Implementor"@, task_title(w.nodes, top_task_id), transcript, success),
    );
    if success {
        implementor_next_step(noted, top_task_id, implementor_id, pass, true)
    } else if pass >= MAX_IMPL_RETRIES {
        saying_first(
            task_tag(top_task_id) + " implementor still failing at pass "@ + decimal(pass as int)
                + ". Max retries ("@ + decimal(MAX_IMPL_RETRIES as int)
                + ") reached; proceeding to next step."@,
            top_advanced(
                with_failure(
                    with_status(noted, implementor_id, TaskStatus::Done),
                    exhausted_failure(noted, top_task_id, pass, code),
                ),
                top_task_id,
            ),
        )
    } else {
        Outcome {
            state: with_job(
                with_status(noted, implementor_id, TaskStatus::NeedsChanges),
                retry_job(top_task_id, implementor_id, pass, code),
            ),
            messages: seq![
                task_tag(top_task_id) + " implementor failed (code "@ + decimal(code as int)
                    + "); retry queued."@,
            ],
        }
    }
}

/// Whatever way an implementor's run ends, a valid state stays valid.
pub proof fn lemma_completed_valid(
    w: WorkflowView,
    top_task_id: u64,
    implementor_id: u64,
    pass: u8,
    transcript: Seq<Seq<char>>,
    success: bool,
    code: i32,
)
    requires
        valid(w),
    ensures
        valid(completed(w, top_task_id, implementor_id, pass, transcript, success, code).state),
{
    let noted = with_context(
        w,
        context_summary("Implementor"@, task_title(w.nodes, top_task_id), transcript, success),
    );
    lemma_steps_keep_valid(w);
    lemma_steps_keep_valid(noted);
    lemma_implementor_next_step_valid(noted, top_task_id, implementor_id, pass, true);
    let closed = with_status(noted, implementor_id, TaskStatus::Done);
    lemma_steps_keep_valid(closed);
    lemma_steps_keep_valid(with_status(noted, implementor_id, TaskStatus::NeedsChanges));
    if pass >= MAX_IMPL_RETRIES {
        let failure = exhausted_failure(noted, top_task_id, pass, code);
        reveal_strlit("Implementor repeatedly failed; latest exit code ");
        assert(failure.reason.len() > 0);
        lemma_top_advanced_valid(with_failure(closed, failure), top_task_id);
    }
}

/// Takes in the end of a run of the implementor on node `implementor_id`.
pub fn on_completion(
    workflow: &mut Workflow,
    top_task_id: u64,
    implementor_id: u64,
    pass: u8,
    transcript: &[String],
    success: bool,
    code: i32,
    messages: &mut Vec<String>,
)
    ensures
        final(workflow).state() == completed(
            old(workflow).state(),
            top_task_id,
            implementor_id,
            pass,
            texts(transcript@),
            success,
            code,
        ).state,
        texts(final(messages)@) == texts(old(messages)@) + completed(
            old(workflow).state(),
            top_task_id,
            implementor_id,
            pass,
            texts(transcript@),
            success,
            code,
        ).messages,
        valid(old(workflow).state()) ==> valid(final(workflow).state()),
{
    proof {
        if valid(workflow.state()) {
            lemma_completed_valid(
                workflow.state(),
                top_task_id,
                implementor_id,
                pass,
                texts(transcript@),
                success,
                code,
            );
        }
    }
    let title = workflow.task_title(top_task_id);
    workflow.push_context(make_context_summary("Implementor", title.as_str(), transcript, success));
    let ghost noted = workflow.state();
    let ghost said = texts(messages@);

    if success {
        workflow.queue_implementor_next_step(top_task_id, implementor_id, pass, true, messages);
        return ;
    }
    if pass >= MAX_IMPL_RETRIES {
        workflow.set_status(implementor_id, TaskStatus::Done);
        let mut reason = String::from_str("Implementor repeatedly failed; latest exit code ");
        reason.append(i32_to_string(code).as_str());
        reason.append(".");
        let failure = WorkflowFailure {
            kind: WorkflowFailureKind::Audit,
            top_task_id,
            top_task_title: workflow.task_title(top_task_id),
            attempts: pass,
            reason,
            action_taken: String::from_str(
                "Implementor retries exhausted; proceeded to the next step.",
            ),
        };
        proof {
            lemma_status_keeps_graph(noted.nodes, implementor_id, TaskStatus::Done);
            assert(failure@ == exhausted_failure(noted, top_task_id, pass, code));
        }
        workflow.record_failure(failure);
        let mut message = task_tag_text(top_task_id);
        message.append(" implementor still failing at pass ");
        message.append(u8_to_string(pass).as_str());
        message.append(". Max retries (");
        message.append(u8_to_string(MAX_IMPL_RETRIES).as_str());
        message.append(") reached; proceeding to next step.");
        say(messages, message);
        let ghost recorded = workflow.state();
        workflow.try_mark_top_done(top_task_id, messages);
        proof {
            let rest = top_advanced(recorded, top_task_id).messages;
            assert((said + seq![message@]) + rest == said + (seq![message@] + rest));
        }
    } else {
        workflow.set_status(implementor_id, TaskStatus::NeedsChanges);
        let mut feedback = String::from_str("Previous implementor run failed with code ");
        feedback.append(i32_to_string(code).as_str());
        feedback.append(".");
        workflow.enqueue(
            WorkerJob {
                top_task_id,
                kind: WorkerJobKind::Implementor {
                    implementor_id,
                    pass: pass.saturating_add(1),
                    feedback: Some(feedback),
                },
            },
        );
        let mut message = task_tag_text(top_task_id);
        message.append(" implementor failed (code ");
        message.append(i32_to_string(code).as_str());
        message.append("); retry queued.");
        say(messages, message);
    }
}

} // verus!
