//! The engine behind the envelope: every operation of the workflow as the
//! answer to a request, and every refusal as a typed error.

use super::engine::{
    can_start, context_replaced, execution_started, job_finished, job_started, output_appended,
    started_job,
};
use super::graph::{sync_error, synced};
use super::model::{valid, NodeView, WorkflowView};
use super::pane::{context_lines, pane_lines, pane_toggles};
use super::{error_code, error_message, Workflow, WorkflowError};
use crate::api::capabilities::CapabilityId;
use crate::api::contracts::{
    ApiRequestContract, ApiResponseContract, AppRequest, AppResponse, EntryView, WorkflowRequest,
    WorkflowResponse,
};
use crate::subagents::master::{
    attach_docs_prompt, build_attach_docs_prompt, build_master_prompt, build_planner_prompt,
    master_prompt, planner_prompt,
};
use crate::api::envelope::{
    ApiErrorCode, ApiErrorEnvelope, ApiResultEnvelope, RequestEnvelope, ResponseEnvelope,
};
use crate::api::views::{
    ApiRequestView, ApiResponseView, AppRequestView, AppResponseView, ErrorView, RequestView,
    ResponseView, ResultView, WorkflowRequestView, WorkflowResponseView,
};
use crate::text::texts;
use vstd::prelude::*;
use vstd::string::StringExecFns;

verus! {

/// The capability that offers a request to the workflow: the task graph
/// for taking in and giving out the plan, the context projection for the
/// rolling context and the right pane, and the execution queue for all
/// that runs the plan.
pub open spec fn capability_of(request: WorkflowRequestView) -> CapabilityId {
    match request {
        WorkflowRequestView::SyncPlannerTasks { .. } | WorkflowRequestView::PlannerTasksForFile => {
            CapabilityId::WorkflowTaskGraphSync
        },
        WorkflowRequestView::RollingContextEntries
        | WorkflowRequestView::ReplaceRollingContextEntries { .. }
        | WorkflowRequestView::RightPaneBlockView => CapabilityId::WorkflowContextProjection,
        _ => CapabilityId::WorkflowExecutionQueue,
    }
}

/// The error under which a refusal of the engine travels. It is never
/// worth retrying and carries no details.
pub open spec fn refusal(error: WorkflowError) -> ErrorView {
    ErrorView {
        code: error_code(error),
        message: error_message(error),
        retryable: false,
        details: None,
    }
}

/// The error for a request that came under a capability that does not
/// offer it.
pub open spec fn wrong_capability() -> ErrorView {
    ErrorView {
        code: ApiErrorCode::InvalidRequest,
        message: "the capability named does not offer this request"@,
        retryable: false,
        details: None,
    }
}

/// The error for a request that the engine has no part in.
pub open spec fn not_served() -> ErrorView {
    ErrorView {
        code: ApiErrorCode::Unsupported,
        message: "this request is not served by the engine"@,
        retryable: false,
        details: None,
    }
}

/// The plan as a graph holds it.
pub open spec fn plan_of(nodes: Seq<NodeView>) -> Seq<EntryView> {
    Seq::new(nodes.len(), |i: int| nodes[i].entry)
}

/// A state together with the result of a request.
pub struct Answer {
    pub state: WorkflowView,
    pub result: ResultView,
}

/// A successful result from the workflow.
pub open spec fn success(response: WorkflowResponseView) -> ResultView {
    ResultView::Success { data: ApiResponseView::Workflow(response) }
}

/// What a request to the workflow leads to: the state afterwards and the
/// result that is returned. Each request stands for one operation of the
/// engine; a refusal of the engine leaves the state as it was.
pub open spec fn answered(w: WorkflowView, request: WorkflowRequestView) -> Answer {
    match request {
        WorkflowRequestView::SyncPlannerTasks { tasks } => match sync_error(w, tasks) {
            Some(error) => Answer { state: w, result: ResultView::Failure { error: refusal(error) } },
            None => Answer { state: synced(w, tasks), result: success(WorkflowResponseView::Ack) },
        },
        WorkflowRequestView::PlannerTasksForFile => Answer {
            state: w,
            result: success(WorkflowResponseView::PlannerTasks { tasks: plan_of(w.nodes) }),
        },
        WorkflowRequestView::StartExecution => Answer {
            state: execution_started(w).state,
            result: success(
                WorkflowResponseView::StartExecution { messages: execution_started(w).messages },
            ),
        },
        WorkflowRequestView::StartNextJob => if can_start(w) {
            Answer {
                state: job_started(w),
                result: success(WorkflowResponseView::StartedJob { job: Some(started_job(w)) }),
            }
        } else {
            Answer { state: w, result: success(WorkflowResponseView::StartedJob { job: None }) }
        },
        WorkflowRequestView::AppendActiveOutput { line } => Answer {
            state: output_appended(w, line),
            result: success(WorkflowResponseView::Ack),
        },
        WorkflowRequestView::FinishActiveJob { success: succeeded, exit_code } => if w.active
            is Some {
            Answer {
                state: job_finished(w, succeeded, exit_code).state,
                result: success(
                    WorkflowResponseView::FinishActiveJob {
                        messages: job_finished(w, succeeded, exit_code).messages,
                    },
                ),
            }
        } else {
            Answer {
                state: w,
                result: ResultView::Failure { error: refusal(WorkflowError::NoActiveJob) },
            }
        },
        WorkflowRequestView::DrainRecentFailures => Answer {
            state: WorkflowView { failures: Seq::empty(), ..w },
            result: success(WorkflowResponseView::RecentFailures { failures: w.failures }),
        },
        WorkflowRequestView::RollingContextEntries => Answer {
            state: w,
            result: success(WorkflowResponseView::RollingContext { entries: w.context }),
        },
        WorkflowRequestView::ReplaceRollingContextEntries { entries } => Answer {
            state: WorkflowView { context: context_replaced(entries), ..w },
            result: success(WorkflowResponseView::Ack),
        },
        WorkflowRequestView::RightPaneBlockView => Answer {
            state: w,
            result: success(
                WorkflowResponseView::RightPaneBlock {
                    lines: pane_lines(w),
                    toggles: pane_toggles(
                        w.nodes,
                        context_lines(w.context).len() + 1,
                        w.nodes.len(),
                    ),
                },
            ),
        },
    }
}

/// The capability that offers a request of the application, none for the
/// requests that the engine has no part in.
pub open spec fn app_capability_of(request: AppRequestView) -> Option<CapabilityId> {
    match request {
        AppRequestView::PrepareMasterPrompt { .. }
        | AppRequestView::PreparePlannerPrompt { .. }
        | AppRequestView::PrepareAttachDocsPrompt { .. } => Some(
            CapabilityId::AppPromptPreparation,
        ),
        AppRequestView::SyncPlannerTasks { .. } => Some(CapabilityId::AppPlannerStateSync),
        AppRequestView::StartExecution
        | AppRequestView::StartNextWorkerJob
        | AppRequestView::WorkerOutput { .. }
        | AppRequestView::WorkerSystemOutput { .. }
        | AppRequestView::WorkerCompleted { .. }
        | AppRequestView::DrainWorkerFailures => Some(CapabilityId::AppExecutionControl),
        _ => None,
    }
}

/// A successful result from the application.
pub open spec fn app_success(response: AppResponseView) -> ResultView {
    ResultView::Success { data: ApiResponseView::App(response) }
}

/// What the master agent is told about the state of the workflow: the
/// rolling context and the request of the user.
pub open spec fn workflow_prompt(w: WorkflowView, message: Seq<char>) -> Seq<char> {
    "Rolling task context:\n"@ + super::model::context_block(w.context) + "\nUser request:\n"@
        + message
}

/// The entries that the end of a job has added to the rolling context:
/// the summary of the job, which is the last entry.
pub open spec fn added_context(after: WorkflowView) -> Seq<Seq<char>> {
    if after.context.len() == 0 {
        Seq::empty()
    } else {
        seq![after.context.last()]
    }
}

/// What a request of the application leads to. Preparing a prompt
/// changes nothing; the other requests stand for the
/// operations of the engine that they are named after. For a request
/// that the engine has no part in, see [`not_served`].
pub open spec fn app_answered(w: WorkflowView, request: AppRequestView) -> Answer {
    match request {
        AppRequestView::PrepareMasterPrompt { message, tasks_file } => Answer {
            state: w,
            result: app_success(
                AppResponseView::Prompt {
                    text: master_prompt(tasks_file, workflow_prompt(w, message), w.tests_mode),
                },
            ),
        },
        AppRequestView::PreparePlannerPrompt { message, planner_file, project_info_file } => Answer {
            state: w,
            result: app_success(
                AppResponseView::Prompt {
                    text: planner_prompt(message, planner_file, project_info_file),
                },
            ),
        },
        AppRequestView::PrepareAttachDocsPrompt { tasks_file } => Answer {
            state: w,
            result: app_success(AppResponseView::Prompt { text: attach_docs_prompt(tasks_file) }),
        },
        AppRequestView::SyncPlannerTasks { tasks } => match sync_error(w, tasks) {
            Some(error) => Answer { state: w, result: ResultView::Failure { error: refusal(error) } },
            None => Answer {
                state: synced(w, tasks),
                result: app_success(
                    AppResponseView::PlannerTasksSynced { count: tasks.len() as usize },
                ),
            },
        },
        AppRequestView::StartExecution => Answer {
            state: execution_started(w).state,
            result: app_success(
                AppResponseView::ExecutionMessages { messages: execution_started(w).messages },
            ),
        },
        AppRequestView::StartNextWorkerJob => if can_start(w) {
            Answer {
                state: job_started(w),
                result: app_success(AppResponseView::StartedWorkerJob { job: Some(started_job(w)) }),
            }
        } else {
            Answer { state: w, result: app_success(AppResponseView::StartedWorkerJob { job: None }) }
        },
        AppRequestView::WorkerOutput { line } => Answer {
            state: output_appended(w, line),
            result: app_success(AppResponseView::Ack),
        },
        AppRequestView::WorkerSystemOutput { line } => Answer {
            state: output_appended(w, line),
            result: app_success(AppResponseView::Ack),
        },
        AppRequestView::WorkerCompleted { success: succeeded, exit_code } => if w.active is Some {
            Answer {
                state: job_finished(w, succeeded, exit_code).state,
                result: app_success(
                    AppResponseView::WorkerCompleted {
                        system_messages: job_finished(w, succeeded, exit_code).messages,
                        new_context_entries: added_context(
                            job_finished(w, succeeded, exit_code).state,
                        ),
                    },
                ),
            }
        } else {
            Answer {
                state: w,
                result: ResultView::Failure { error: refusal(WorkflowError::NoActiveJob) },
            }
        },
        AppRequestView::DrainWorkerFailures => Answer {
            state: WorkflowView { failures: Seq::empty(), ..w },
            result: app_success(AppResponseView::WorkerFailures { failures: w.failures }),
        },
        _ => Answer { state: w, result: ResultView::Failure { error: not_served() } },
    }
}

/// A state together with the response to an envelope.
pub struct Served {
    pub state: WorkflowView,
    pub response: ResponseView,
}

/// The result of an envelope and the state it leaves.
pub open spec fn served_answer(w: WorkflowView, envelope: RequestView) -> Answer {
    match envelope.payload {
        ApiRequestView::Workflow(request) => if envelope.capability == capability_of(request) {
            answered(w, request)
        } else {
            Answer { state: w, result: ResultView::Failure { error: wrong_capability() } }
        },
        ApiRequestView::App(request) => if app_capability_of(request) is None {
            Answer { state: w, result: ResultView::Failure { error: not_served() } }
        } else if app_capability_of(request) == Some(envelope.capability) {
            app_answered(w, request)
        } else {
            Answer { state: w, result: ResultView::Failure { error: wrong_capability() } }
        },
        _ => Answer { state: w, result: ResultView::Failure { error: not_served() } },
    }
}

/// What an envelope leads to: a request to the workflow or of the
/// application that comes under the capability that offers it is
/// answered; any other request is refused and leaves the state as it
/// was. The response carries the id and the capability of the request.
pub open spec fn served(w: WorkflowView, envelope: RequestView) -> Served {
    Served {
        state: served_answer(w, envelope).state,
        response: ResponseView {
            request_id: envelope.request_id,
            capability: envelope.capability,
            result: served_answer(w, envelope).result,
        },
    }
}

/// The error envelope for a refusal of the engine.
fn refused(error: WorkflowError) -> (result: ApiResultEnvelope<ApiResponseContract>)
    ensures
        result@ == (ResultView::Failure { error: refusal(error) }),
{
    ApiResultEnvelope::Failure {
        error: ApiErrorEnvelope {
            code: error.code(),
            message: error.message(),
            retryable: false,
            details: None,
        },
    }
}

fn succeeded(response: WorkflowResponse) -> (result: ApiResultEnvelope<ApiResponseContract>)
    ensures
        result@ == success(response@),
{
    ApiResultEnvelope::Success { data: ApiResponseContract::Workflow(response) }
}

fn app_succeeded(response: AppResponse) -> (result: ApiResultEnvelope<ApiResponseContract>)
    ensures
        result@ == app_success(response@),
{
    ApiResultEnvelope::Success { data: ApiResponseContract::App(response) }
}

fn wrong_capability_error() -> (error: ApiErrorEnvelope)
    ensures
        error@ == wrong_capability(),
{
    ApiErrorEnvelope {
        code: ApiErrorCode::InvalidRequest,
        message: String::from_str("the capability named does not offer this request"),
        retryable: false,
        details: None,
    }
}

fn not_served_error() -> (error: ApiErrorEnvelope)
    ensures
        error@ == not_served(),
{
    ApiErrorEnvelope {
        code: ApiErrorCode::Unsupported,
        message: String::from_str("this request is not served by the engine"),
        retryable: false,
        details: None,
    }
}

/// The capability that offers a request of the application.
pub fn app_capability_for(request: &AppRequest) -> (capability: Option<CapabilityId>)
    ensures
        capability == app_capability_of(request@),
{
    match request {
        AppRequest::PrepareMasterPrompt { .. }
        | AppRequest::PreparePlannerPrompt { .. }
        | AppRequest::PrepareAttachDocsPrompt { .. } => Some(CapabilityId::AppPromptPreparation),
        AppRequest::SyncPlannerTasks { .. } => Some(CapabilityId::AppPlannerStateSync),
        AppRequest::StartExecution
        | AppRequest::StartNextWorkerJob
        | AppRequest::WorkerOutput { .. }
        | AppRequest::WorkerSystemOutput { .. }
        | AppRequest::WorkerCompleted { .. }
        | AppRequest::DrainWorkerFailures => Some(CapabilityId::AppExecutionControl),
        _ => None,
    }
}

/// The capability that offers `request`.
pub fn capability_for(request: &WorkflowRequest) -> (capability: CapabilityId)
    ensures
        capability == capability_of(request@),
{
    match request {
        WorkflowRequest::SyncPlannerTasks { .. } | WorkflowRequest::PlannerTasksForFile => {
            CapabilityId::WorkflowTaskGraphSync
        },
        WorkflowRequest::RollingContextEntries
        | WorkflowRequest::ReplaceRollingContextEntries { .. }
        | WorkflowRequest::RightPaneBlockView => CapabilityId::WorkflowContextProjection,
        _ => CapabilityId::WorkflowExecutionQueue,
    }
}

impl Workflow {
    /// Answers a request to the workflow by the operation it stands for.
    pub fn handle(&mut self, request: WorkflowRequest) -> (result: ApiResultEnvelope<
        ApiResponseContract,
    >)
        ensures
            final(self).state() == answered(old(self).state(), request@).state,
            result@ == answered(old(self).state(), request@).result,
            valid(old(self).state()) ==> valid(final(self).state()),
    {
        match request {
            WorkflowRequest::SyncPlannerTasks { tasks } => {
                match self.sync_planner_tasks(tasks) {
                    Ok(_) => succeeded(WorkflowResponse::Ack),
                    Err(error) => refused(error),
                }
            },
            WorkflowRequest::PlannerTasksForFile => {
                let tasks = self.planner_tasks_for_file();
                assert(crate::api::contracts::entry_views(tasks@) =~= plan_of(self.state().nodes));
                succeeded(WorkflowResponse::PlannerTasks { tasks })
            },
            WorkflowRequest::StartExecution => {
                let messages = self.start_execution();
                succeeded(WorkflowResponse::StartExecution { messages })
            },
            WorkflowRequest::StartNextJob => {
                let job = self.start_next_job();
                succeeded(WorkflowResponse::StartedJob { job })
            },
            WorkflowRequest::AppendActiveOutput { line } => {
                self.append_active_output(line);
                succeeded(WorkflowResponse::Ack)
            },
            WorkflowRequest::FinishActiveJob { success, exit_code } => {
                match self.finish_active_job(success, exit_code) {
                    Ok(messages) => succeeded(WorkflowResponse::FinishActiveJob { messages }),
                    Err(error) => refused(error),
                }
            },
            WorkflowRequest::DrainRecentFailures => {
                let failures = self.drain_recent_failures();
                succeeded(WorkflowResponse::RecentFailures { failures })
            },
            WorkflowRequest::RollingContextEntries => {
                let entries = self.rolling_context_entries();
                succeeded(WorkflowResponse::RollingContext { entries })
            },
            WorkflowRequest::ReplaceRollingContextEntries { entries } => {
                self.replace_rolling_context_entries(entries);
                succeeded(WorkflowResponse::Ack)
            },
            WorkflowRequest::RightPaneBlockView => {
                let block = self.right_pane_block_view();
                succeeded(
                    WorkflowResponse::RightPaneBlock { lines: block.lines, toggles: block.toggles },
                )
            },
        }
    }

    /// Answers a request of the application by the operation of the
    /// engine it stands for. Requests that the engine has no part in are
    /// refused as not served.
    pub fn handle_app(&mut self, request: AppRequest) -> (result: ApiResultEnvelope<
        ApiResponseContract,
    >)
        ensures
            final(self).state() == app_answered(old(self).state(), request@).state,
            result@ == app_answered(old(self).state(), request@).result,
            valid(old(self).state()) ==> valid(final(self).state()),
    {
        match request {
            AppRequest::PrepareMasterPrompt { message, tasks_file } => {
                let mut state_text = String::from_str("Rolling task context:\n");
                state_text.append(self.context_block().as_str());
                state_text.append("\nUser request:\n");
                state_text.append(message.as_str());
                let text = build_master_prompt(
                    tasks_file.as_str(),
                    state_text.as_str(),
                    self.tests_mode_enabled(),
                );
                app_succeeded(AppResponse::Prompt { text })
            },
            AppRequest::PreparePlannerPrompt { message, planner_file, project_info_file } => {
                let text = build_planner_prompt(
                    message.as_str(),
                    planner_file.as_str(),
                    project_info_file.as_str(),
                );
                app_succeeded(AppResponse::Prompt { text })
            },
            AppRequest::PrepareAttachDocsPrompt { tasks_file } => {
                let text = build_attach_docs_prompt(tasks_file.as_str());
                app_succeeded(AppResponse::Prompt { text })
            },
            AppRequest::SyncPlannerTasks { tasks } => {
                let count = tasks.len();
                match self.sync_planner_tasks(tasks) {
                    Ok(_) => app_succeeded(AppResponse::PlannerTasksSynced { count }),
                    Err(error) => refused(error),
                }
            },
            AppRequest::StartExecution => {
                let messages = self.start_execution();
                app_succeeded(AppResponse::ExecutionMessages { messages })
            },
            AppRequest::StartNextWorkerJob => {
                let job = self.start_next_job();
                app_succeeded(AppResponse::StartedWorkerJob { job })
            },
            AppRequest::WorkerOutput { line } => {
                self.append_active_output(line);
                app_succeeded(AppResponse::Ack)
            },
            AppRequest::WorkerSystemOutput { line } => {
                self.append_active_output(line);
                app_succeeded(AppResponse::Ack)
            },
            AppRequest::WorkerCompleted { success, exit_code } => {
                match self.finish_active_job(success, exit_code) {
                    Ok(system_messages) => {
                        let mut new_context_entries: Vec<String> = Vec::new();
                        let n = self.rolling_context.len();
                        if n > 0 {
                            new_context_entries.push(self.rolling_context[n - 1].clone());
                        }
                        assert(texts(new_context_entries@) =~= added_context(self.state()));
                        app_succeeded(
                            AppResponse::WorkerCompleted { system_messages, new_context_entries },
                        )
                    },
                    Err(error) => refused(error),
                }
            },
            AppRequest::DrainWorkerFailures => {
                let failures = self.drain_recent_failures();
                app_succeeded(AppResponse::WorkerFailures { failures })
            },
            _ => ApiResultEnvelope::Failure { error: not_served_error() },
        }
    }

    /// Serves an envelope: answers a request to the workflow or of the
    /// application that comes under the capability that offers it, and
    /// refuses any other.
    pub fn serve(&mut self, envelope: RequestEnvelope<ApiRequestContract>) -> (response:
        ResponseEnvelope<ApiResponseContract>)
        ensures
            final(self).state() == served(old(self).state(), envelope@).state,
            response@ == served(old(self).state(), envelope@).response,
            valid(old(self).state()) ==> valid(final(self).state()),
    {
        let request_id = envelope.request_id;
        let capability = envelope.capability;
        let result = match envelope.payload {
            ApiRequestContract::Workflow(request) => {
                if capability_for(&request) == capability {
                    self.handle(request)
                } else {
                    ApiResultEnvelope::Failure { error: wrong_capability_error() }
                }
            },
            ApiRequestContract::App(request) => {
                match app_capability_for(&request) {
                    None => ApiResultEnvelope::Failure { error: not_served_error() },
                    Some(offered) => {
                        if offered == capability {
                            self.handle_app(request)
                        } else {
                            ApiResultEnvelope::Failure { error: wrong_capability_error() }
                        }
                    },
                }
            },
            _ => ApiResultEnvelope::Failure { error: not_served_error() },
        };
        ResponseEnvelope { request_id, capability, result }
    }
}

} // verus!
