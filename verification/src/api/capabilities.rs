//! The closed set of capabilities and the matrix that documents each of them.

use vstd::prelude::*;

verus! {

/// Identifies one declared operation group of the engine.
#[derive(Debug, Clone, Copy, PartialEq, Eq, Hash, Structural)]
pub enum CapabilityId {
    AppPromptPreparation,
    AppPlannerStateSync,
    AppExecutionControl,
    EventPolling,
    WorkflowTaskGraphSync,
    WorkflowExecutionQueue,
    WorkflowContextProjection,
    SessionLifecycle,
    SessionPlannerStorage,
    SessionFailureStorage,
    SessionProjectContextStorage,
    SubagentPromptGeneration,
}

/// The component a capability belongs to.
#[derive(Debug, Clone, Copy, PartialEq, Eq, Hash, Structural)]
pub enum CapabilityDomain {
    App,
    Events,
    Workflow,
    Session,
    Subagent,
}

/// Whether a capability changes state, reads it, or both.
#[derive(Debug, Clone, Copy, PartialEq, Eq, Hash, Structural)]
pub enum CapabilityOperation {
    Command,
    Query,
    CommandQuery,
}

/// One row of the capability matrix.
#[derive(Debug, Clone, PartialEq, Eq)]
pub struct CapabilityDefinition {
    pub id: CapabilityId,
    pub domain: CapabilityDomain,
    pub operation: CapabilityOperation,
    pub request_contract: &'static str,
    pub response_contract: &'static str,
    pub code_paths: Vec<&'static str>,
    pub notes: &'static str,
}

/// Mathematical value of a [`CapabilityDefinition`].
pub struct DefinitionView {
    pub id: CapabilityId,
    pub domain: CapabilityDomain,
    pub operation: CapabilityOperation,
    pub request_contract: Seq<char>,
    pub response_contract: Seq<char>,
    pub code_paths: Seq<Seq<char>>,
    pub notes: Seq<char>,
}

/// The characters of a list of string slices.
pub open spec fn path_views(paths: Seq<&'static str>) -> Seq<Seq<char>> {
    Seq::new(paths.len(), |i: int| paths[i]@)
}

impl View for CapabilityDefinition {
    type V = DefinitionView;

    open spec fn view(&self) -> DefinitionView {
        DefinitionView {
            id: self.id,
            domain: self.domain,
            operation: self.operation,
            request_contract: self.request_contract@,
            response_contract: self.response_contract@,
            code_paths: path_views(self.code_paths@),
            notes: self.notes@,
        }
    }
}

/// Number of capabilities, and so of rows in the matrix.
pub const CAPABILITY_COUNT: usize = 12;

/// Position of a capability in the matrix.
pub open spec fn capability_index(id: CapabilityId) -> int {
    match id {
        CapabilityId::AppPromptPreparation => 0,
        CapabilityId::AppPlannerStateSync => 1,
        CapabilityId::AppExecutionControl => 2,
        CapabilityId::EventPolling => 3,
        CapabilityId::WorkflowTaskGraphSync => 4,
        CapabilityId::WorkflowExecutionQueue => 5,
        CapabilityId::WorkflowContextProjection => 6,
        CapabilityId::SessionLifecycle => 7,
        CapabilityId::SessionPlannerStorage => 8,
        CapabilityId::SessionFailureStorage => 9,
        CapabilityId::SessionProjectContextStorage => 10,
        CapabilityId::SubagentPromptGeneration => 11,
    }
}

/// The capability at a position of the matrix.
pub open spec fn capability_at(index: int) -> CapabilityId {
    if index == 0 {
        CapabilityId::AppPromptPreparation
    } else if index == 1 {
        CapabilityId::AppPlannerStateSync
    } else if index == 2 {
        CapabilityId::AppExecutionControl
    } else if index == 3 {
        CapabilityId::EventPolling
    } else if index == 4 {
        CapabilityId::WorkflowTaskGraphSync
    } else if index == 5 {
        CapabilityId::WorkflowExecutionQueue
    } else if index == 6 {
        CapabilityId::WorkflowContextProjection
    } else if index == 7 {
        CapabilityId::SessionLifecycle
    } else if index == 8 {
        CapabilityId::SessionPlannerStorage
    } else if index == 9 {
        CapabilityId::SessionFailureStorage
    } else if index == 10 {
        CapabilityId::SessionProjectContextStorage
    } else {
        CapabilityId::SubagentPromptGeneration
    }
}

/// The row of the matrix for each capability: the component it belongs
/// to, the kind of operation it offers, the requests and responses bound
/// to it, the places that implement it, and a note on what it is for.
pub open spec fn definition_of(id: CapabilityId) -> DefinitionView {
    match id {
        CapabilityId::AppPromptPreparation => DefinitionView {
            id,
            domain: CapabilityDomain::App,
            operation: CapabilityOperation::CommandQuery,
            request_contract:
                "AppRequest::{PrepareMasterPrompt,PreparePlannerPrompt,PrepareAttachDocsPrompt}"@,
            response_contract: "AppResponse::Prompt"@,
            code_paths: seq![
                "src/app.rs::prepare_master_prompt"@,
                "src/app.rs::prepare_planner_prompt"@,
                "src/app.rs::prepare_attach_docs_prompt"@,
            ],
            notes:
                "Prepares transport-agnostic prompt payloads before adapter-specific execution."@,
        },
        CapabilityId::AppPlannerStateSync => DefinitionView {
            id,
            domain: CapabilityDomain::App,
            operation: CapabilityOperation::CommandQuery,
            request_contract: "AppRequest::SyncPlannerTasks"@,
            response_contract: "AppResponse::PlannerTasksSynced"@,
            code_paths: seq![
                "src/app.rs::sync_planner_tasks_from_file"@,
                "src/app.rs::planner_tasks_for_file"@,
            ],
            notes:
                "Synchronizes planner task state between UI-facing app state and workflow core."@,
        },
        CapabilityId::AppExecutionControl => DefinitionView {
            id,
            domain: CapabilityDomain::App,
            operation: CapabilityOperation::CommandQuery,
            request_contract:
                "AppRequest::{StartExecution,StartNextWorkerJob,WorkerOutput,WorkerCompleted,DrainWorkerFailures}"@,
            response_contract:
                "AppResponse::{ExecutionMessages,StartedWorkerJob,WorkerCompleted,WorkerFailures}"@,
            code_paths: seq![
                "src/app.rs::start_execution"@,
                "src/app.rs::start_next_worker_job"@,
                "src/app.rs::on_worker_output"@,
                "src/app.rs::on_worker_completed"@,
                "src/app.rs::drain_worker_failures"@,
            ],
            notes:
                "Coordinates execution lifecycle across worker adapters and surfaced status messages."@,
        },
        CapabilityId::EventPolling => DefinitionView {
            id,
            domain: CapabilityDomain::Events,
            operation: CapabilityOperation::Query,
            request_contract: "EventsRequest::NextEvent"@,
            response_contract: "EventsResponse::Event"@,
            code_paths: seq![
                "src/events.rs::next_event"@,
            ],
            notes: "Maps terminal input/mouse transport into normalized app events."@,
        },
        CapabilityId::WorkflowTaskGraphSync => DefinitionView {
            id,
            domain: CapabilityDomain::Workflow,
            operation: CapabilityOperation::CommandQuery,
            request_contract: "WorkflowRequest::{SyncPlannerTasks,PlannerTasksForFile}"@,
            response_contract: "WorkflowResponse::{Ack,PlannerTasks}"@,
            code_paths: seq![
                "src/workflow.rs::sync_planner_tasks_from_file"@,
                "src/workflow.rs::planner_tasks_for_file"@,
            ],
            notes:
                "Validates and projects task-graph contracts independently of transport/UI concerns."@,
        },
        CapabilityId::WorkflowExecutionQueue => DefinitionView {
            id,
            domain: CapabilityDomain::Workflow,
            operation: CapabilityOperation::CommandQuery,
            request_contract:
                "WorkflowRequest::{StartExecution,StartNextJob,FinishActiveJob,DrainRecentFailures}"@,
            response_contract:
                "WorkflowResponse::{StartExecution,StartedJob,FinishActiveJob,RecentFailures}"@,
            code_paths: seq![
                "src/workflow.rs::start_execution"@,
                "src/workflow.rs::start_next_job"@,
                "src/workflow.rs::finish_active_job"@,
                "src/workflow.rs::drain_recent_failures"@,
            ],
            notes: "Owns transport-agnostic orchestration, retries, and failure progression."@,
        },
        CapabilityId::WorkflowContextProjection => DefinitionView {
            id,
            domain: CapabilityDomain::Workflow,
            operation: CapabilityOperation::CommandQuery,
            request_contract:
                "WorkflowRequest::{RollingContextEntries,ReplaceRollingContextEntries,RightPaneBlockView}"@,
            response_contract: "WorkflowResponse::{RollingContext,RightPaneBlock}"@,
            code_paths: seq![
                "src/workflow.rs::rolling_context_entries"@,
                "src/workflow.rs::replace_rolling_context_entries"@,
                "src/workflow.rs::right_pane_block_view"@,
            ],
            notes: "Projects normalized context and pane representations for any adapter."@,
        },
        CapabilityId::SessionLifecycle => DefinitionView {
            id,
            domain: CapabilityDomain::Session,
            operation: CapabilityOperation::CommandQuery,
            request_contract: "SessionRequest::{Initialize,OpenExisting,ListSessions}"@,
            response_contract: "SessionResponse::{Initialized,Sessions}"@,
            code_paths: seq![
                "src/session_store.rs::initialize"@,
                "src/session_store.rs::open_existing"@,
                "src/session_store.rs::list_sessions"@,
            ],
            notes:
                "Creates, resumes, and lists session storage roots without coupling to UI transport."@,
        },
        CapabilityId::SessionPlannerStorage => DefinitionView {
            id,
            domain: CapabilityDomain::Session,
            operation: CapabilityOperation::CommandQuery,
            request_contract:
                "SessionRequest::{ReadTasks,ReadPlannerMarkdown,WriteRollingContext,ReadRollingContext}"@,
            response_contract: "SessionResponse::{Tasks,PlannerMarkdown,RollingContext,Ack}"@,
            code_paths: seq![
                "src/session_store.rs::read_tasks"@,
                "src/session_store.rs::read_planner_markdown"@,
                "src/session_store.rs::write_rolling_context"@,
                "src/session_store.rs::read_rolling_context"@,
            ],
            notes: "Persists planner and rolling-context artifacts used by multiple adapters."@,
        },
        CapabilityId::SessionFailureStorage => DefinitionView {
            id,
            domain: CapabilityDomain::Session,
            operation: CapabilityOperation::CommandQuery,
            request_contract: "SessionRequest::{ReadTaskFails,AppendTaskFails}"@,
            response_contract: "SessionResponse::{TaskFails,Ack}"@,
            code_paths: seq![
                "src/session_store.rs::read_task_fails"@,
                "src/session_store.rs::append_task_fails"@,
            ],
            notes: "Stores durable failure envelopes for retries and user-facing reporting."@,
        },
        CapabilityId::SessionProjectContextStorage => DefinitionView {
            id,
            domain: CapabilityDomain::Session,
            operation: CapabilityOperation::CommandQuery,
            request_contract: "SessionRequest::{ReadProjectInfo,WriteProjectInfo,ReadSessionMeta}"@,
            response_contract: "SessionResponse::{ProjectInfo,SessionMeta,Ack}"@,
            code_paths: seq![
                "src/session_store.rs::read_project_info"@,
                "src/session_store.rs::write_project_info"@,
                "src/session_store.rs::read_session_meta"@,
            ],
            notes: "Manages project-context and session-meta documents consumed across subagents."@,
        },
        CapabilityId::SubagentPromptGeneration => DefinitionView {
            id,
            domain: CapabilityDomain::Subagent,
            operation: CapabilityOperation::Query,
            request_contract: "SubagentRequest::*"@,
            response_contract: "SubagentResponse::{Prompt,IntroPrompt}"@,
            code_paths: seq![
                "src/subagents/master.rs::*"@,
                "src/subagents/project_info.rs::*"@,
                "src/subagents/task_check.rs::*"@,
            ],
            notes: "Builds deterministic prompt contracts used by worker and master adapters."@,
        },
    }
}

/// A row carries all of its documentation: both contracts, at least one
/// code path, and notes, none of them empty.
pub open spec fn documented(definition: DefinitionView) -> bool {
    &&& definition.request_contract.len() > 0
    &&& definition.response_contract.len() > 0
    &&& definition.code_paths.len() > 0
    &&& forall|i: int|
        0 <= i < definition.code_paths.len() ==> (#[trigger] definition.code_paths[i]).len() > 0
    &&& definition.notes.len() > 0
}

/// The matrix holds one row per capability, each at its own position.
pub open spec fn is_matrix(matrix: Seq<DefinitionView>) -> bool {
    &&& matrix.len() == CAPABILITY_COUNT
    &&& forall|i: int| 0 <= i < matrix.len() ==> #[trigger] matrix[i] == definition_of(capability_at(i))
}

/// The values of a list of rows.
pub open spec fn definition_views(rows: Seq<CapabilityDefinition>) -> Seq<DefinitionView> {
    Seq::new(rows.len(), |i: int| rows[i]@)
}

/// Every capability has exactly one row in the matrix, at its own
/// position and under its own id; so no id occurs twice.
pub proof fn lemma_matrix_ids_unique(matrix: Seq<DefinitionView>, i: int, j: int)
    requires
        is_matrix(matrix),
        0 <= i < matrix.len(),
        0 <= j < matrix.len(),
    ensures
        matrix[i].id == capability_at(i),
        capability_index(matrix[i].id) == i,
        matrix[i].id == matrix[j].id ==> i == j,
{
}

/// Every row of the matrix carries all of its documentation.
pub proof fn lemma_matrix_documented(id: CapabilityId)
    ensures
        documented(definition_of(id)),
        definition_of(id).id == id,
        capability_at(capability_index(id)) == id,
{
    match id {
        CapabilityId::AppPromptPreparation => {
            reveal_strlit(
                "AppRequest::{PrepareMasterPrompt,PreparePlannerPrompt,PrepareAttachDocsPrompt}",
            );
            reveal_strlit("AppResponse::Prompt");
            reveal_strlit("src/app.rs::prepare_master_prompt");
            reveal_strlit("src/app.rs::prepare_planner_prompt");
            reveal_strlit("src/app.rs::prepare_attach_docs_prompt");
            reveal_strlit(
                "Prepares transport-agnostic prompt payloads before adapter-specific execution.",
            );
        },
        CapabilityId::AppPlannerStateSync => {
            reveal_strlit("AppRequest::SyncPlannerTasks");
            reveal_strlit("AppResponse::PlannerTasksSynced");
            reveal_strlit("src/app.rs::sync_planner_tasks_from_file");
            reveal_strlit("src/app.rs::planner_tasks_for_file");
            reveal_strlit(
                "Synchronizes planner task state between UI-facing app state and workflow core.",
            );
        },
        CapabilityId::AppExecutionControl => {
            reveal_strlit(
                "AppRequest::{StartExecution,StartNextWorkerJob,WorkerOutput,WorkerCompleted,DrainWorkerFailures}",
            );
            reveal_strlit(
                "AppResponse::{ExecutionMessages,StartedWorkerJob,WorkerCompleted,WorkerFailures}",
            );
            reveal_strlit("src/app.rs::start_execution");
            reveal_strlit("src/app.rs::start_next_worker_job");
            reveal_strlit("src/app.rs::on_worker_output");
            reveal_strlit("src/app.rs::on_worker_completed");
            reveal_strlit("src/app.rs::drain_worker_failures");
            reveal_strlit(
                "Coordinates execution lifecycle across worker adapters and surfaced status messages.",
            );
        },
        CapabilityId::EventPolling => {
            reveal_strlit("EventsRequest::NextEvent");
            reveal_strlit("EventsResponse::Event");
            reveal_strlit("src/events.rs::next_event");
            reveal_strlit("Maps terminal input/mouse transport into normalized app events.");
        },
        CapabilityId::WorkflowTaskGraphSync => {
            reveal_strlit("WorkflowRequest::{SyncPlannerTasks,PlannerTasksForFile}");
            reveal_strlit("WorkflowResponse::{Ack,PlannerTasks}");
            reveal_strlit("src/workflow.rs::sync_planner_tasks_from_file");
            reveal_strlit("src/workflow.rs::planner_tasks_for_file");
            reveal_strlit(
                "Validates and projects task-graph contracts independently of transport/UI concerns.",
            );
        },
        CapabilityId::WorkflowExecutionQueue => {
            reveal_strlit(
                "WorkflowRequest::{StartExecution,StartNextJob,FinishActiveJob,DrainRecentFailures}",
            );
            reveal_strlit(
                "WorkflowResponse::{StartExecution,StartedJob,FinishActiveJob,RecentFailures}",
            );
            reveal_strlit("src/workflow.rs::start_execution");
            reveal_strlit("src/workflow.rs::start_next_job");
            reveal_strlit("src/workflow.rs::finish_active_job");
            reveal_strlit("src/workflow.rs::drain_recent_failures");
            reveal_strlit(
                "Owns transport-agnostic orchestration, retries, and failure progression.",
            );
        },
        CapabilityId::WorkflowContextProjection => {
            reveal_strlit(
                "WorkflowRequest::{RollingContextEntries,ReplaceRollingContextEntries,RightPaneBlockView}",
            );
            reveal_strlit("WorkflowResponse::{RollingContext,RightPaneBlock}");
            reveal_strlit("src/workflow.rs::rolling_context_entries");
            reveal_strlit("src/workflow.rs::replace_rolling_context_entries");
            reveal_strlit("src/workflow.rs::right_pane_block_view");
            reveal_strlit("Projects normalized context and pane representations for any adapter.");
        },
        CapabilityId::SessionLifecycle => {
            reveal_strlit("SessionRequest::{Initialize,OpenExisting,ListSessions}");
            reveal_strlit("SessionResponse::{Initialized,Sessions}");
            reveal_strlit("src/session_store.rs::initialize");
            reveal_strlit("src/session_store.rs::open_existing");
            reveal_strlit("src/session_store.rs::list_sessions");
            reveal_strlit(
                "Creates, resumes, and lists session storage roots without coupling to UI transport.",
            );
        },
        CapabilityId::SessionPlannerStorage => {
            reveal_strlit(
                "SessionRequest::{ReadTasks,ReadPlannerMarkdown,WriteRollingContext,ReadRollingContext}",
            );
            reveal_strlit("SessionResponse::{Tasks,PlannerMarkdown,RollingContext,Ack}");
            reveal_strlit("src/session_store.rs::read_tasks");
            reveal_strlit("src/session_store.rs::read_planner_markdown");
            reveal_strlit("src/session_store.rs::write_rolling_context");
            reveal_strlit("src/session_store.rs::read_rolling_context");
            reveal_strlit(
                "Persists planner and rolling-context artifacts used by multiple adapters.",
            );
        },
        CapabilityId::SessionFailureStorage => {
            reveal_strlit("SessionRequest::{ReadTaskFails,AppendTaskFails}");
            reveal_strlit("SessionResponse::{TaskFails,Ack}");
            reveal_strlit("src/session_store.rs::read_task_fails");
            reveal_strlit("src/session_store.rs::append_task_fails");
            reveal_strlit(
                "Stores durable failure envelopes for retries and user-facing reporting.",
            );
        },
        CapabilityId::SessionProjectContextStorage => {
            reveal_strlit("SessionRequest::{ReadProjectInfo,WriteProjectInfo,ReadSessionMeta}");
            reveal_strlit("SessionResponse::{ProjectInfo,SessionMeta,Ack}");
            reveal_strlit("src/session_store.rs::read_project_info");
            reveal_strlit("src/session_store.rs::write_project_info");
            reveal_strlit("src/session_store.rs::read_session_meta");
            reveal_strlit(
                "Manages project-context and session-meta documents consumed across subagents.",
            );
        },
        CapabilityId::SubagentPromptGeneration => {
            reveal_strlit("SubagentRequest::*");
            reveal_strlit("SubagentResponse::{Prompt,IntroPrompt}");
            reveal_strlit("src/subagents/master.rs::*");
            reveal_strlit("src/subagents/project_info.rs::*");
            reveal_strlit("src/subagents/task_check.rs::*");
            reveal_strlit(
                "Builds deterministic prompt contracts used by worker and master adapters.",
            );
        },
    }
}

fn paths1(a: &'static str) -> (v: Vec<&'static str>)
    ensures
        path_views(v@) == seq![a@],
{
    let mut v: Vec<&'static str> = Vec::new();
    v.push(a);
    assert(path_views(v@) =~= seq![a@]);
    v
}

fn paths2(a: &'static str, b: &'static str) -> (v: Vec<&'static str>)
    ensures
        path_views(v@) == seq![a@, b@],
{
    let mut v: Vec<&'static str> = Vec::new();
    v.push(a);
    v.push(b);
    assert(path_views(v@) =~= seq![a@, b@]);
    v
}

fn paths3(a: &'static str, b: &'static str, c: &'static str) -> (v: Vec<&'static str>)
    ensures
        path_views(v@) == seq![a@, b@, c@],
{
    let mut v: Vec<&'static str> = Vec::new();
    v.push(a);
    v.push(b);
    v.push(c);
    assert(path_views(v@) =~= seq![a@, b@, c@]);
    v
}

fn paths4(a: &'static str, b: &'static str, c: &'static str, d: &'static str) -> (v: Vec<
    &'static str,
>)
    ensures
        path_views(v@) == seq![a@, b@, c@, d@],
{
    let mut v: Vec<&'static str> = Vec::new();
    v.push(a);
    v.push(b);
    v.push(c);
    v.push(d);
    assert(path_views(v@) =~= seq![a@, b@, c@, d@]);
    v
}

fn paths5(
    a: &'static str,
    b: &'static str,
    c: &'static str,
    d: &'static str,
    e: &'static str,
) -> (v: Vec<&'static str>)
    ensures
        path_views(v@) == seq![a@, b@, c@, d@, e@],
{
    let mut v: Vec<&'static str> = Vec::new();
    v.push(a);
    v.push(b);
    v.push(c);
    v.push(d);
    v.push(e);
    assert(path_views(v@) =~= seq![a@, b@, c@, d@, e@]);
    v
}

/// The row of the matrix for `id`.
fn definition(id: CapabilityId) -> (row: CapabilityDefinition)
    ensures
        row@ == definition_of(id),
{
    match id {
        CapabilityId::AppPromptPreparation => {
            let code_paths = paths3(
                "src/app.rs::prepare_master_prompt",
                "src/app.rs::prepare_planner_prompt",
                "src/app.rs::prepare_attach_docs_prompt",
            );
            CapabilityDefinition {
                id,
                domain: CapabilityDomain::App,
                operation: CapabilityOperation::CommandQuery,
                request_contract:
                    "AppRequest::{PrepareMasterPrompt,PreparePlannerPrompt,PrepareAttachDocsPrompt}",
                response_contract: "AppResponse::Prompt",
                code_paths,
                notes:
                    "Prepares transport-agnostic prompt payloads before adapter-specific execution.",
            }
        },
        CapabilityId::AppPlannerStateSync => {
            let code_paths = paths2(
                "src/app.rs::sync_planner_tasks_from_file",
                "src/app.rs::planner_tasks_for_file",
            );
            CapabilityDefinition {
                id,
                domain: CapabilityDomain::App,
                operation: CapabilityOperation::CommandQuery,
                request_contract: "AppRequest::SyncPlannerTasks",
                response_contract: "AppResponse::PlannerTasksSynced",
                code_paths,
                notes:
                    "Synchronizes planner task state between UI-facing app state and workflow core.",
            }
        },
        CapabilityId::AppExecutionControl => {
            let code_paths = paths5(
                "src/app.rs::start_execution",
                "src/app.rs::start_next_worker_job",
                "src/app.rs::on_worker_output",
                "src/app.rs::on_worker_completed",
                "src/app.rs::drain_worker_failures",
            );
            CapabilityDefinition {
                id,
                domain: CapabilityDomain::App,
                operation: CapabilityOperation::CommandQuery,
                request_contract:
                    "AppRequest::{StartExecution,StartNextWorkerJob,WorkerOutput,WorkerCompleted,DrainWorkerFailures}",
                response_contract:
                    "AppResponse::{ExecutionMessages,StartedWorkerJob,WorkerCompleted,WorkerFailures}",
                code_paths,
                notes:
                    "Coordinates execution lifecycle across worker adapters and surfaced status messages.",
            }
        },
        CapabilityId::EventPolling => {
            let code_paths = paths1(
                "src/events.rs::next_event",
            );
            CapabilityDefinition {
                id,
                domain: CapabilityDomain::Events,
                operation: CapabilityOperation::Query,
                request_contract: "EventsRequest::NextEvent",
                response_contract: "EventsResponse::Event",
                code_paths,
                notes: "Maps terminal input/mouse transport into normalized app events.",
            }
        },
        CapabilityId::WorkflowTaskGraphSync => {
            let code_paths = paths2(
                "src/workflow.rs::sync_planner_tasks_from_file",
                "src/workflow.rs::planner_tasks_for_file",
            );
            CapabilityDefinition {
                id,
                domain: CapabilityDomain::Workflow,
                operation: CapabilityOperation::CommandQuery,
                request_contract: "WorkflowRequest::{SyncPlannerTasks,PlannerTasksForFile}",
                response_contract: "WorkflowResponse::{Ack,PlannerTasks}",
                code_paths,
                notes:
                    "Validates and projects task-graph contracts independently of transport/UI concerns.",
            }
        },
        CapabilityId::WorkflowExecutionQueue => {
            let code_paths = paths4(
                "src/workflow.rs::start_execution",
                "src/workflow.rs::start_next_job",
                "src/workflow.rs::finish_active_job",
                "src/workflow.rs::drain_recent_failures",
            );
            CapabilityDefinition {
                id,
                domain: CapabilityDomain::Workflow,
                operation: CapabilityOperation::CommandQuery,
                request_contract:
                    "WorkflowRequest::{StartExecution,StartNextJob,FinishActiveJob,DrainRecentFailures}",
                response_contract:
                    "WorkflowResponse::{StartExecution,StartedJob,FinishActiveJob,RecentFailures}",
                code_paths,
                notes: "Owns transport-agnostic orchestration, retries, and failure progression.",
            }
        },
        CapabilityId::WorkflowContextProjection => {
            let code_paths = paths3(
                "src/workflow.rs::rolling_context_entries",
                "src/workflow.rs::replace_rolling_context_entries",
                "src/workflow.rs::right_pane_block_view",
            );
            CapabilityDefinition {
                id,
                domain: CapabilityDomain::Workflow,
                operation: CapabilityOperation::CommandQuery,
                request_contract:
                    "WorkflowRequest::{RollingContextEntries,ReplaceRollingContextEntries,RightPaneBlockView}",
                response_contract: "WorkflowResponse::{RollingContext,RightPaneBlock}",
                code_paths,
                notes: "Projects normalized context and pane representations for any adapter.",
            }
        },
        CapabilityId::SessionLifecycle => {
            let code_paths = paths3(
                "src/session_store.rs::initialize",
                "src/session_store.rs::open_existing",
                "src/session_store.rs::list_sessions",
            );
            CapabilityDefinition {
                id,
                domain: CapabilityDomain::Session,
                operation: CapabilityOperation::CommandQuery,
                request_contract: "SessionRequest::{Initialize,OpenExisting,ListSessions}",
                response_contract: "SessionResponse::{Initialized,Sessions}",
                code_paths,
                notes:
                    "Creates, resumes, and lists session storage roots without coupling to UI transport.",
            }
        },
        CapabilityId::SessionPlannerStorage => {
            let code_paths = paths4(
                "src/session_store.rs::read_tasks",
                "src/session_store.rs::read_planner_markdown",
                "src/session_store.rs::write_rolling_context",
                "src/session_store.rs::read_rolling_context",
            );
            CapabilityDefinition {
                id,
                domain: CapabilityDomain::Session,
                operation: CapabilityOperation::CommandQuery,
                request_contract:
                    "SessionRequest::{ReadTasks,ReadPlannerMarkdown,WriteRollingContext,ReadRollingContext}",
                response_contract: "SessionResponse::{Tasks,PlannerMarkdown,RollingContext,Ack}",
                code_paths,
                notes: "Persists planner and rolling-context artifacts used by multiple adapters.",
            }
        },
        CapabilityId::SessionFailureStorage => {
            let code_paths = paths2(
                "src/session_store.rs::read_task_fails",
                "src/session_store.rs::append_task_fails",
            );
            CapabilityDefinition {
                id,
                domain: CapabilityDomain::Session,
                operation: CapabilityOperation::CommandQuery,
                request_contract: "SessionRequest::{ReadTaskFails,AppendTaskFails}",
                response_contract: "SessionResponse::{TaskFails,Ack}",
                code_paths,
                notes: "Stores durable failure envelopes for retries and user-facing reporting.",
            }
        },
        CapabilityId::SessionProjectContextStorage => {
            let code_paths = paths3(
                "src/session_store.rs::read_project_info",
                "src/session_store.rs::write_project_info",
                "src/session_store.rs::read_session_meta",
            );
            CapabilityDefinition {
                id,
                domain: CapabilityDomain::Session,
                operation: CapabilityOperation::CommandQuery,
                request_contract:
                    "SessionRequest::{ReadProjectInfo,WriteProjectInfo,ReadSessionMeta}",
                response_contract: "SessionResponse::{ProjectInfo,SessionMeta,Ack}",
                code_paths,
                notes:
                    "Manages project-context and session-meta documents consumed across subagents.",
            }
        },
        CapabilityId::SubagentPromptGeneration => {
            let code_paths = paths3(
                "src/subagents/master.rs::*",
                "src/subagents/project_info.rs::*",
                "src/subagents/task_check.rs::*",
            );
            CapabilityDefinition {
                id,
                domain: CapabilityDomain::Subagent,
                operation: CapabilityOperation::Query,
                request_contract: "SubagentRequest::*",
                response_contract: "SubagentResponse::{Prompt,IntroPrompt}",
                code_paths,
                notes: "Builds deterministic prompt contracts used by worker and master adapters.",
            }
        },
    }
}

/// The capability matrix: one row per capability, in the order of their
/// declaration.
pub fn capability_matrix() -> (matrix: Vec<CapabilityDefinition>)
    ensures
        is_matrix(definition_views(matrix@)),
{
    let mut matrix: Vec<CapabilityDefinition> = Vec::new();
    matrix.push(definition(CapabilityId::AppPromptPreparation));
    matrix.push(definition(CapabilityId::AppPlannerStateSync));
    matrix.push(definition(CapabilityId::AppExecutionControl));
    matrix.push(definition(CapabilityId::EventPolling));
    matrix.push(definition(CapabilityId::WorkflowTaskGraphSync));
    matrix.push(definition(CapabilityId::WorkflowExecutionQueue));
    matrix.push(definition(CapabilityId::WorkflowContextProjection));
    matrix.push(definition(CapabilityId::SessionLifecycle));
    matrix.push(definition(CapabilityId::SessionPlannerStorage));
    matrix.push(definition(CapabilityId::SessionFailureStorage));
    matrix.push(definition(CapabilityId::SessionProjectContextStorage));
    matrix.push(definition(CapabilityId::SubagentPromptGeneration));
    matrix
}

/// The row of the matrix for `id`. Every capability has one.
pub fn capability_definition(id: CapabilityId) -> (found: Option<CapabilityDefinition>)
    ensures
        found matches Some(row) && row@ == definition_of(id),
{
    let mut matrix = capability_matrix();
    proof {
        lemma_matrix_documented(id);
    }
    let mut i: usize = 0;
    while i < matrix.len()
        invariant
            is_matrix(definition_views(matrix@)),
            i <= capability_index(id),
            capability_at(capability_index(id)) == id,
        decreases matrix.len() - i,
    {
        if matrix[i].id == id {
            assert(definition_views(matrix@)[i as int].id == id);
            return Some(matrix.swap_remove(i));
        }
        proof {
            assert(definition_views(matrix@)[i as int].id != id);
        }
        i += 1;
    }
    None
}

} // verus!
