//! The test writer: the prompt it is given and what the engine does when
//! one of its runs ends.

use super::model::{
    context_block, context_summary, lemma_steps_keep_valid, lemma_test_writer_next_step_valid,
    lemma_top_advanced_valid, node_details, node_title, saying_first, task_tag, task_title,
    test_writer_next_step, top_advanced, valid, with_context, with_failure, with_job, with_status,
    JobKindView, JobView, Outcome, WorkflowView,
};
use super::{
    make_context_summary, say, task_tag_text, TaskStatus, WorkerJob, WorkerJobKind, Workflow,
    WorkflowFailure, WorkflowFailureKind, ENFORCE_TESTS_MODE_RUNTIME_GATING, MAX_TEST_RETRIES,
};
use crate::api::contracts::FailureView;
use crate::text::{decimal, i32_to_string, join, joined, texts, u8_to_string};
use vstd::prelude::*;
use vstd::string::StringExecFns;

verus! {

/// What the prompt says about tests mode.
pub open spec fn tests_policy(tests_mode: bool) -> Seq<char> {
    if tests_mode {
        "Tests mode policy (ON): write or update tests that validate intended behavior and keep them deterministic."@
    } else {
        "Tests mode policy (OFF): do not add, modify, or remove tests; return a concise note that test writing is disabled for this run."@
    }
}

/// What the prompt asks the output to look like.
pub open spec fn output_instruction(tests_mode: bool) -> Seq<char> {
    if tests_mode {
        "Keep output concise and include what test behavior was added."@
    } else {
        "Keep output concise and explicitly state that test writing is disabled by tests mode."@
    }
}

/// What the prompt says about earlier feedback.
pub open spec fn feedback_section(feedback: Option<Seq<char>>) -> Seq<char> {
    match feedback {
        Some(f) => "Feedback to address before re-running deterministic tests:\n"@ + f,
        None => "No test feedback yet; infer tests from task and implementation branch progress."@,
    }
}

/// The extra instruction of a cleanup pass; empty for any other pass.
pub open spec fn cleanup_instruction(skip_test_runner_on_success: bool) -> Seq<char> {
    if skip_test_runner_on_success {
        "Special instruction: this is a cleanup pass after exhausted deterministic test retries. Remove failing tests and do not add replacements."@
    } else {
        Seq::empty()
    }
}

/// The prompt for a test writer working on node `test_writer_id` of the
/// top-level task `top_task_id`.
pub open spec fn prompt(
    w: WorkflowView,
    top_task_id: u64,
    test_writer_id: u64,
    feedback: Option<Seq<char>>,
    skip_test_runner_on_success: bool,
) -> Seq<char> {
    "You are a test-writer sub-agent.\nTop-level task: "@ + task_title(w.nodes, top_task_id)
        + "\nTest-writer subtask: "@ + node_title(w.nodes, test_writer_id, "Test Writing"@)
        + "\nTest-writing details:\n"@ + node_details(w.nodes, test_writer_id)
        + "\nRolling task context:\n"@ + context_block(w.context) + "\n"@ + feedback_section(
        feedback,
    ) + "\n"@ + tests_policy(w.tests_mode) + "\n"@ + cleanup_instruction(
        skip_test_runner_on_success,
    ) + "\n"@ + output_instruction(w.tests_mode)
}

/// The prompt for a test writer working on node `test_writer_id` of the
/// top-level task `top_task_id`.
pub fn build_prompt(
    workflow: &Workflow,
    top_task_id: u64,
    test_writer_id: u64,
    feedback: Option<&str>,
    skip_test_runner_on_success: bool,
) -> (text: String)
    ensures
        text@ == prompt(
            workflow.state(),
            top_task_id,
            test_writer_id,
            match feedback {
                Some(f) => Some(f@),
                None => None,
            },
            skip_test_runner_on_success,
        ),
{
    let tests_policy = if workflow.tests_mode_enabled() {
        "Tests mode policy (ON): write or update tests that validate intended behavior and keep them deterministic."
    } else {
        "Tests mode policy (OFF): do not add, modify, or remove tests; return a concise note that test writing is disabled for this run."
    };
    let output_instruction = if workflow.tests_mode_enabled() {
        "Keep output concise and include what test behavior was added."
    } else {
        "Keep output concise and explicitly state that test writing is disabled by tests mode."
    };
    let mut text = String::from_str("You are a test-writer sub-agent.\nTop-level task: ");
    text.append(workflow.task_title(top_task_id).as_str());
    text.append("\nTest-writer subtask: ");
    text.append(workflow.node_title(test_writer_id, "Test Writing").as_str());
    text.append("\nTest-writing details:\n");
    text.append(workflow.node_details(test_writer_id).as_str());
    text.append("\nRolling task context:\n");
    text.append(workflow.context_block().as_str());
    text.append("\n");
    match feedback {
        Some(f) => {
            let mut section = String::from_str(
                "Feedback to address before re-running deterministic tests:\n",
            );
            section.append(f);
            text.append(section.as_str());
        },
        None => {
            text.append(
                "No test feedback yet; infer tests from task and implementation branch progress.",
            );
        },
    }
    text.append("\n");
    text.append(tests_policy);
    text.append("\n");
    if skip_test_runner_on_success {
        text.append(
            "Special instruction: this is a cleanup pass after exhausted deterministic test retries. Remove failing tests and do not add replacements.",
        );
    } else {
        assert(text@ + Seq::<char>::empty() == text@);
    }
    text.append("\n");
    text.append(output_instruction);
    text
}

/// The ledger entry for a test writer that has failed `pass` times.
pub open spec fn exhausted_failure(
    w: WorkflowView,
    top_task_id: u64,
    pass: u8,
    code: i32,
) -> FailureView {
    FailureView {
        kind: WorkflowFailureKind::Test,
        top_task_id,
        top_task_title: task_title(w.nodes, top_task_id),
        attempts: pass,
        reason: "Test-writer failed repeatedly; latest exit code "@ + decimal(code as int) + "."@,
        action_taken: "Test-writer retries exhausted; proceeded without adding tests."@,
    }
}

/// The job that runs a test writer again after a failed pass.
pub open spec fn retry_job(top_task_id: u64, test_writer_id: u64, pass: u8, code: i32) -> JobView {
    JobView {
        top_task_id,
        kind: JobKindView::TestWriter {
            test_writer_id,
            pass: if pass == u8::MAX {
                pass
            } else {
                (pass + 1) as u8
            },
            feedback: Some(
                "Previous test-writer run failed with code "@ + decimal(code as int) + "."@,
            ),
            skip_test_runner_on_success: false,
            resume_auditor_id: None,
            resume_audit_pass: None,
        },
    }
}

/// The job that takes an interrupted audit of a test writer up again.
pub open spec fn resumed_audit_job(
    top_task_id: u64,
    test_writer_id: u64,
    auditor_id: u64,
    resume_audit_pass: Option<u8>,
    transcript: Seq<Seq<char>>,
) -> JobView {
    JobView {
        top_task_id,
        kind: JobKindView::TestWriterAuditor {
            test_writer_id,
            auditor_id,
            pass: match resume_audit_pass {
                Some(p) => p,
                None => 1,
            },
            test_report: Some(joined(transcript, "\n"@)),
        },
    }
}

/// What the engine does when a run of the test writer on node
/// `test_writer_id` has ended.
///
/// The run is summarised in the rolling context. Then:
/// - a successful cleanup pass closes the test writer and moves the
///   top-level task on, without a test run;
/// - a successful pass that had interrupted an audit queues that audit again;
/// - any other successful pass is followed by the next step of the plan;
/// - a failed pass with tests mode off closes the test writer and moves on;
/// - a failed pass that was the last one allowed is entered in the ledger,
///   closes the test writer and moves on;
/// - any other failed pass marks the test writer as needing changes and
///   queues the next pass.
pub open spec fn completed(
    w: WorkflowView,
    top_task_id: u64,
    test_writer_id: u64,
    pass: u8,
    skip_test_runner_on_success: bool,
    resume_auditor_id: Option<u64>,
    resume_audit_pass: Option<u8>,
    transcript: Seq<Seq<char>>,
    success: bool,
    code: i32,
) -> Outcome {
    let noted = with_context(
        w,
        context_summary("TestWriter"@, task_title(w.nodes, top_task_id), transcript, success),
    );
    if success {
        if skip_test_runner_on_success {
            saying_first(
                task_tag(top_task_id) + " removed failing tests after retries and proceeded."@,
                top_advanced(with_status(noted, test_writer_id, TaskStatus::Done), top_task_id),
            )
        } else if resume_auditor_id is Some {
            Outcome {
                state: with_job(
                    noted,
                    resumed_audit_job(
                        top_task_id,
                        test_writer_id,
                        resume_auditor_id->0,
                        resume_audit_pass,
                        transcript,
                    ),
                ),
                messages: seq![
                    task_tag(top_task_id) + " test-writer pass "@ + decimal(pass as int)
                        + " complete; resumed audit queued."@,
                ],
            }
        } else {
            test_writer_next_step(
                noted,
                top_task_id,
                test_writer_id,
                pass,
                true,
                Some(joined(transcript, "\n"@)),
            )
        }
    } else if ENFORCE_TESTS_MODE_RUNTIME_GATING && !w.tests_mode {
        saying_first(
            task_tag(top_task_id) + " tests mode is OFF; skipping test-writer retries."@,
            top_advanced(with_status(noted, test_writer_id, TaskStatus::Done), top_task_id),
        )
    } else if pass >= MAX_TEST_RETRIES {
        saying_first(
            task_tag(top_task_id) + " test-writer still failing at pass "@ + decimal(pass as int)
                + ". Max retries ("@ + decimal(MAX_TEST_RETRIES as int)
                + ") reached; proceeding to next step."@,
            top_advanced(
                with_failure(
                    with_status(noted, test_writer_id, TaskStatus::Done),
                    exhausted_failure(noted, top_task_id, pass, code),
                ),
                top_task_id,
            ),
        )
    } else {
        Outcome {
            state: with_job(
                with_status(noted, test_writer_id, TaskStatus::NeedsChanges),
                retry_job(top_task_id, test_writer_id, pass, code),
            ),
            messages: seq![
                task_tag(top_task_id) + " test-writer failed (code "@ + decimal(code as int)
                    + "); retry queued."@,
            ],
        }
    }
}

/// Whatever way a test writer's run ends, a valid state stays valid.
pub proof fn lemma_completed_valid(
    w: WorkflowView,
    top_task_id: u64,
    test_writer_id: u64,
    pass: u8,
    skip_test_runner_on_success: bool,
    resume_auditor_id: Option<u64>,
    resume_audit_pass: Option<u8>,
    transcript: Seq<Seq<char>>,
    success: bool,
    code: i32,
)
    requires
        valid(w),
    ensures
        valid(
            completed(
                w,
                top_task_id,
                test_writer_id,
                pass,
                skip_test_runner_on_success,
                resume_auditor_id,
                resume_audit_pass,
                transcript,
                success,
                code,
            ).state,
        ),
{
    let noted = with_context(
        w,
        context_summary("TestWriter"@, task_title(w.nodes, top_task_id), transcript, success),
    );
    lemma_steps_keep_valid(w);
    lemma_steps_keep_valid(noted);
    let closed = with_status(noted, test_writer_id, TaskStatus::Done);
    lemma_steps_keep_valid(closed);
    lemma_top_advanced_valid(closed, top_task_id);
    lemma_test_writer_next_step_valid(
        noted,
        top_task_id,
        test_writer_id,
        pass,
        true,
        Some(joined(transcript, "\n"@)),
    );
    lemma_steps_keep_valid(with_status(noted, test_writer_id, TaskStatus::NeedsChanges));
    if pass >= MAX_TEST_RETRIES {
        let failure = exhausted_failure(noted, top_task_id, pass, code);
        reveal_strlit("Test-writer failed repeatedly; latest exit code ");
        assert(failure.reason.len() > 0);
        lemma_top_advanced_valid(with_failure(closed, failure), top_task_id);
    }
}

/// Takes in the end of a run of the test writer on node `test_writer_id`:
/// summarises it in the rolling context, sets the node's status, records
/// a failure where the retries have run out, queues what follows, and
/// adds to `messages` what the user is to be told.
pub fn on_completion(
    workflow: &mut Workflow,
    top_task_id: u64,
    test_writer_id: u64,
    pass: u8,
    skip_test_runner_on_success: bool,
    resume_auditor_id: Option<u64>,
    resume_audit_pass: Option<u8>,
    transcript: &[String],
    success: bool,
    code: i32,
    messages: &mut Vec<String>,
)
    ensures
        final(workflow).state() == completed(
            old(workflow).state(),
            top_task_id,
            test_writer_id,
            pass,
            skip_test_runner_on_success,
            resume_auditor_id,
            resume_audit_pass,
            texts(transcript@),
            success,
            code,
        ).state,
        texts(final(messages)@) == texts(old(messages)@) + completed(
            old(workflow).state(),
            top_task_id,
            test_writer_id,
            pass,
            skip_test_runner_on_success,
            resume_auditor_id,
            resume_audit_pass,
            texts(transcript@),
            success,
            code,
        ).messages,
        valid(old(workflow).state()) ==> valid(final(workflow).state()),
{
    proof {
        if valid(workflow.state()) {
            lemma_completed_valid(
                workflow.state(),
                top_task_id,
                test_writer_id,
                pass,
                skip_test_runner_on_success,
                resume_auditor_id,
                resume_audit_pass,
                texts(transcript@),
                success,
                code,
            );
        }
    }
    let title = workflow.task_title(top_task_id);
    workflow.push_context(make_context_summary("TestWriter", title.as_str(), transcript, success));
    let ghost noted = workflow.state();
    let ghost said = texts(messages@);

    if success {
        if skip_test_runner_on_success {
            workflow.set_status(test_writer_id, TaskStatus::Done);
            let mut message = task_tag_text(top_task_id);
            message.append(" removed failing tests after retries and proceeded.");
            say(messages, message);
            workflow.try_mark_top_done(top_task_id, messages);
            proof {
                let rest = top_advanced(
                    with_status(noted, test_writer_id, TaskStatus::Done),
                    top_task_id,
                ).messages;
                assert((said + seq![message@]) + rest == said + (seq![message@] + rest));
            }
            return ;
        }
        if let Some(auditor_id) = resume_auditor_id {
            workflow.enqueue(
                WorkerJob {
                    top_task_id,
                    kind: WorkerJobKind::TestWriterAuditor {
                        test_writer_id,
                        auditor_id,
                        pass: match resume_audit_pass {
                            Some(p) => p,
                            None => 1,
                        },
                        test_report: Some(join(transcript, "\n")),
                    },
                },
            );
            let mut message = task_tag_text(top_task_id);
            message.append(" test-writer pass ");
            message.append(u8_to_string(pass).as_str());
            message.append(" complete; resumed audit queued.");
            say(messages, message);
        } else {
            workflow.queue_test_writer_next_step(
                top_task_id,
                test_writer_id,
                pass,
                true,
                Some(join(transcript, "\n")),
                messages,
            );
        }
    } else {
        if ENFORCE_TESTS_MODE_RUNTIME_GATING && !workflow.tests_mode_enabled() {
            workflow.set_status(test_writer_id, TaskStatus::Done);
            let mut message = task_tag_text(top_task_id);
            message.append(" tests mode is OFF; skipping test-writer retries.");
            say(messages, message);
            workflow.try_mark_top_done(top_task_id, messages);
            proof {
                let rest = top_advanced(
                    with_status(noted, test_writer_id, TaskStatus::Done),
                    top_task_id,
                ).messages;
                assert((said + seq![message@]) + rest == said + (seq![message@] + rest));
            }
            return ;
        }
        workflow.set_status(test_writer_id, TaskStatus::NeedsChanges);
        if pass >= MAX_TEST_RETRIES {
            workflow.set_status(test_writer_id, TaskStatus::Done);
            assert(workflow.state() == with_status(noted, test_writer_id, TaskStatus::Done)) by {
                assert(workflow.state().nodes =~= with_status(
                    noted,
                    test_writer_id,
                    TaskStatus::Done,
                ).nodes);
            }
            let mut reason = String::from_str("Test-writer failed repeatedly; latest exit code ");
            reason.append(i32_to_string(code).as_str());
            reason.append(".");
            let failure = WorkflowFailure {
                kind: WorkflowFailureKind::Test,
                top_task_id,
                top_task_title: workflow.task_title(top_task_id),
                attempts: pass,
                reason,
                action_taken: String::from_str(
                    "Test-writer retries exhausted; proceeded without adding tests.",
                ),
            };
            proof {
                super::model::lemma_status_keeps_graph(noted.nodes, test_writer_id, TaskStatus::Done);
                assert(failure@ == exhausted_failure(noted, top_task_id, pass, code));
            }
            workflow.record_failure(failure);
            let mut message = task_tag_text(top_task_id);
            message.append(" test-writer still failing at pass ");
            message.append(u8_to_string(pass).as_str());
            message.append(". Max retries (");
            message.append(u8_to_string(MAX_TEST_RETRIES).as_str());
            message.append(") reached; proceeding to next step.");
            say(messages, message);
            let ghost recorded = workflow.state();
            workflow.try_mark_top_done(top_task_id, messages);
            proof {
                let rest = top_advanced(recorded, top_task_id).messages;
                assert((said + seq![message@]) + rest == said + (seq![message@] + rest));
            }
        } else {
            let mut feedback = String::from_str("Previous test-writer run failed with code ");
            feedback.append(i32_to_string(code).as_str());
            feedback.append(".");
            workflow.enqueue(
                WorkerJob {
                    top_task_id,
                    kind: WorkerJobKind::TestWriter {
                        test_writer_id,
                        pass: pass.saturating_add(1),
                        feedback: Some(feedback),
                        skip_test_runner_on_success: false,
                        resume_auditor_id: None,
                        resume_audit_pass: None,
                    },
                },
            );
            let mut message = task_tag_text(top_task_id);
            message.append(" test-writer failed (code ");
            message.append(i32_to_string(code).as_str());
            message.append("); retry queued.");
            say(messages, message);
        }
    }
}

} // verus!
