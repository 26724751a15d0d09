//! The mathematical values of the requests, responses and envelopes, over
//! which the wire format is stated.

use super::capabilities::CapabilityId;
use super::contracts::{
    entry_views, failure_views, ApiRequestContract, ApiResponseContract, AppEventContract,
    AppRequest, AppResponse, EntryView, EventsRequest, EventsResponse, FailureView,
    SessionListEntryContract, SessionMetaContract, SessionRequest, SessionResponse,
    SessionStoreSnapshotContract, StartedJobView, StartedWorkerJobContract, SubagentRequest,
    SubagentResponse, WorkflowRequest, WorkflowResponse,
};
use super::envelope::{
    ApiErrorCode, ApiErrorEnvelope, ApiResultEnvelope, RequestEnvelope, RequestMetadata,
    ResponseEnvelope,
};
use super::json::{json_of, Json};
use crate::text::{optional_text, texts};
use crate::workflow::pane::{toggle_views, ToggleView};
use vstd::prelude::*;

verus! {

/// The document that an optional value holds.
pub open spec fn optional_json(value: Option<serde_json::Value>) -> Option<Json> {
    match value {
        Some(v) => Some(json_of(v)),
        None => None,
    }
}

/// The value of an optional started job.
pub open spec fn optional_started_job(
    job: Option<StartedWorkerJobContract>,
) -> Option<StartedJobView> {
    match job {
        Some(j) => Some(j@),
        None => None,
    }
}

/// The values of a list of sessions.
pub open spec fn session_views(
    sessions: Seq<SessionListEntryContract>,
) -> Seq<SessionListEntryView> {
    Seq::new(sessions.len(), |i: int| sessions[i]@)
}

/// Mathematical value of a [`SessionStoreSnapshotContract`].
pub struct SessionStoreSnapshotView {
    pub session_dir: Seq<char>,
    pub tasks_file: Seq<char>,
    pub planner_file: Seq<char>,
    pub task_fails_file: Seq<char>,
    pub project_info_file: Seq<char>,
    pub session_meta_file: Seq<char>,
}

impl View for SessionStoreSnapshotContract {
    type V = SessionStoreSnapshotView;

    open spec fn view(&self) -> SessionStoreSnapshotView {
        SessionStoreSnapshotView {
            session_dir: self.session_dir@,
            tasks_file: self.tasks_file@,
            planner_file: self.planner_file@,
            task_fails_file: self.task_fails_file@,
            project_info_file: self.project_info_file@,
            session_meta_file: self.session_meta_file@,
        }
    }
}

/// Mathematical value of a [`SessionListEntryContract`].
pub struct SessionListEntryView {
    pub session_dir: Seq<char>,
    pub workspace: Seq<char>,
    pub title: Option<Seq<char>>,
    pub created_at_label: Option<Seq<char>>,
    pub created_at_epoch_secs: u64,
    pub last_used_epoch_secs: u64,
}

impl View for SessionListEntryContract {
    type V = SessionListEntryView;

    open spec fn view(&self) -> SessionListEntryView {
        SessionListEntryView {
            session_dir: self.session_dir@,
            workspace: self.workspace@,
            title: optional_text(self.title),
            created_at_label: optional_text(self.created_at_label),
            created_at_epoch_secs: self.created_at_epoch_secs,
            last_used_epoch_secs: self.last_used_epoch_secs,
        }
    }
}

/// Mathematical value of a [`SessionMetaContract`].
pub struct SessionMetaView {
    pub title: Seq<char>,
    pub created_at: Seq<char>,
    pub stack_description: Seq<char>,
    pub test_command: Option<Seq<char>>,
}

impl View for SessionMetaContract {
    type V = SessionMetaView;

    open spec fn view(&self) -> SessionMetaView {
        SessionMetaView {
            title: self.title@,
            created_at: self.created_at@,
            stack_description: self.stack_description@,
            test_command: optional_text(self.test_command),
        }
    }
}

/// Mathematical value of a [`AppEventContract`].
pub enum AppEventView {
    Tick,
    Quit,
    NextPane,
    PrevPane,
    MoveUp,
    MoveDown,
    CursorLeft,
    CursorRight,
    ScrollChatUp,
    ScrollChatDown,
    ScrollRightUpGlobal,
    ScrollRightDownGlobal,
    InputChar(char),
    Backspace,
    Submit,
    MouseScrollUp,
    MouseScrollDown,
    MouseLeftClick { column: u16, row: u16 },
}

impl View for AppEventContract {
    type V = AppEventView;

    open spec fn view(&self) -> AppEventView {
        match *self {
            AppEventContract::Tick => AppEventView::Tick,
            AppEventContract::Quit => AppEventView::Quit,
            AppEventContract::NextPane => AppEventView::NextPane,
            AppEventContract::PrevPane => AppEventView::PrevPane,
            AppEventContract::MoveUp => AppEventView::MoveUp,
            AppEventContract::MoveDown => AppEventView::MoveDown,
            AppEventContract::CursorLeft => AppEventView::CursorLeft,
            AppEventContract::CursorRight => AppEventView::CursorRight,
            AppEventContract::ScrollChatUp => AppEventView::ScrollChatUp,
            AppEventContract::ScrollChatDown => AppEventView::ScrollChatDown,
            AppEventContract::ScrollRightUpGlobal => AppEventView::ScrollRightUpGlobal,
            AppEventContract::ScrollRightDownGlobal => AppEventView::ScrollRightDownGlobal,
            AppEventContract::InputChar(x) => AppEventView::InputChar(x),
            AppEventContract::Backspace => AppEventView::Backspace,
            AppEventContract::Submit => AppEventView::Submit,
            AppEventContract::MouseScrollUp => AppEventView::MouseScrollUp,
            AppEventContract::MouseScrollDown => AppEventView::MouseScrollDown,
            AppEventContract::MouseLeftClick { column, row } => AppEventView::MouseLeftClick {
                column: column,
                row: row,
            },
        }
    }
}

/// Mathematical value of a [`AppRequest`].
pub enum AppRequestView {
    Tick,
    Quit,
    PaneNext,
    PanePrevious,
    SubmitChatMessage,
    SubmitDirectMessage { message: Seq<char> },
    SyncPlannerTasks { tasks: Seq<EntryView> },
    PrepareMasterPrompt { message: Seq<char>, tasks_file: Seq<char> },
    PreparePlannerPrompt {
        message: Seq<char>,
        planner_file: Seq<char>,
        project_info_file: Seq<char>,
    },
    PrepareAttachDocsPrompt { tasks_file: Seq<char> },
    StartExecution,
    StartNextWorkerJob,
    WorkerOutput { line: Seq<char> },
    WorkerSystemOutput { line: Seq<char> },
    WorkerCompleted { success: bool, exit_code: i32 },
    DrainWorkerFailures,
}

impl View for AppRequest {
    type V = AppRequestView;

    open spec fn view(&self) -> AppRequestView {
        match *self {
            AppRequest::Tick => AppRequestView::Tick,
            AppRequest::Quit => AppRequestView::Quit,
            AppRequest::PaneNext => AppRequestView::PaneNext,
            AppRequest::PanePrevious => AppRequestView::PanePrevious,
            AppRequest::SubmitChatMessage => AppRequestView::SubmitChatMessage,
            AppRequest::SubmitDirectMessage { message } => AppRequestView::SubmitDirectMessage {
                message: message@,
            },
            AppRequest::SyncPlannerTasks { tasks } => AppRequestView::SyncPlannerTasks {
                tasks: entry_views(tasks@),
            },
            AppRequest::PrepareMasterPrompt { message, tasks_file } => {
                AppRequestView::PrepareMasterPrompt {
                    message: message@,
                    tasks_file: tasks_file@,
                }
            },
            AppRequest::PreparePlannerPrompt { message, planner_file, project_info_file } => {
                AppRequestView::PreparePlannerPrompt {
                    message: message@,
                    planner_file: planner_file@,
                    project_info_file: project_info_file@,
                }
            },
            AppRequest::PrepareAttachDocsPrompt { tasks_file } => {
                AppRequestView::PrepareAttachDocsPrompt {
                    tasks_file: tasks_file@,
                }
            },
            AppRequest::StartExecution => AppRequestView::StartExecution,
            AppRequest::StartNextWorkerJob => AppRequestView::StartNextWorkerJob,
            AppRequest::WorkerOutput { line } => AppRequestView::WorkerOutput {
                line: line@,
            },
            AppRequest::WorkerSystemOutput { line } => AppRequestView::WorkerSystemOutput {
                line: line@,
            },
            AppRequest::WorkerCompleted { success, exit_code } => AppRequestView::WorkerCompleted {
                success: success,
                exit_code: exit_code,
            },
            AppRequest::DrainWorkerFailures => AppRequestView::DrainWorkerFailures,
        }
    }
}

/// Mathematical value of a [`AppResponse`].
pub enum AppResponseView {
    Ack,
    Prompt { text: Seq<char> },
    SubmittedChat { message: Option<Seq<char>> },
    PlannerTasksSynced { count: usize },
    ExecutionMessages { messages: Seq<Seq<char>> },
    StartedWorkerJob { job: Option<StartedJobView> },
    WorkerCompleted { system_messages: Seq<Seq<char>>, new_context_entries: Seq<Seq<char>> },
    WorkerFailures { failures: Seq<FailureView> },
}

impl View for AppResponse {
    type V = AppResponseView;

    open spec fn view(&self) -> AppResponseView {
        match *self {
            AppResponse::Ack => AppResponseView::Ack,
            AppResponse::Prompt { text } => AppResponseView::Prompt {
                text: text@,
            },
            AppResponse::SubmittedChat { message } => AppResponseView::SubmittedChat {
                message: optional_text(message),
            },
            AppResponse::PlannerTasksSynced { count } => AppResponseView::PlannerTasksSynced {
                count: count,
            },
            AppResponse::ExecutionMessages { messages } => AppResponseView::ExecutionMessages {
                messages: texts(messages@),
            },
            AppResponse::StartedWorkerJob { job } => AppResponseView::StartedWorkerJob {
                job: optional_started_job(job),
            },
            AppResponse::WorkerCompleted { system_messages, new_context_entries } => {
                AppResponseView::WorkerCompleted {
                    system_messages: texts(system_messages@),
                    new_context_entries: texts(new_context_entries@),
                }
            },
            AppResponse::WorkerFailures { failures } => AppResponseView::WorkerFailures {
                failures: failure_views(failures@),
            },
        }
    }
}

/// Mathematical value of a [`EventsRequest`].
pub enum EventsRequestView {
    NextEvent,
}

impl View for EventsRequest {
    type V = EventsRequestView;

    open spec fn view(&self) -> EventsRequestView {
        match *self {
            EventsRequest::NextEvent => EventsRequestView::NextEvent,
        }
    }
}

/// Mathematical value of a [`EventsResponse`].
pub enum EventsResponseView {
    Event { event: AppEventView },
}

impl View for EventsResponse {
    type V = EventsResponseView;

    open spec fn view(&self) -> EventsResponseView {
        match *self {
            EventsResponse::Event { event } => EventsResponseView::Event {
                event: event@,
            },
        }
    }
}

/// Mathematical value of a [`WorkflowRequest`].
pub enum WorkflowRequestView {
    SyncPlannerTasks { tasks: Seq<EntryView> },
    PlannerTasksForFile,
    StartExecution,
    StartNextJob,
    AppendActiveOutput { line: Seq<char> },
    FinishActiveJob { success: bool, exit_code: i32 },
    DrainRecentFailures,
    RollingContextEntries,
    ReplaceRollingContextEntries { entries: Seq<Seq<char>> },
    RightPaneBlockView,
}

impl View for WorkflowRequest {
    type V = WorkflowRequestView;

    open spec fn view(&self) -> WorkflowRequestView {
        match *self {
            WorkflowRequest::SyncPlannerTasks { tasks } => WorkflowRequestView::SyncPlannerTasks {
                tasks: entry_views(tasks@),
            },
            WorkflowRequest::PlannerTasksForFile => WorkflowRequestView::PlannerTasksForFile,
            WorkflowRequest::StartExecution => WorkflowRequestView::StartExecution,
            WorkflowRequest::StartNextJob => WorkflowRequestView::StartNextJob,
            WorkflowRequest::AppendActiveOutput { line } => {
                WorkflowRequestView::AppendActiveOutput {
                    line: line@,
                }
            },
            WorkflowRequest::FinishActiveJob { success, exit_code } => {
                WorkflowRequestView::FinishActiveJob {
                    success: success,
                    exit_code: exit_code,
                }
            },
            WorkflowRequest::DrainRecentFailures => WorkflowRequestView::DrainRecentFailures,
            WorkflowRequest::RollingContextEntries => WorkflowRequestView::RollingContextEntries,
            WorkflowRequest::ReplaceRollingContextEntries { entries } => {
                WorkflowRequestView::ReplaceRollingContextEntries {
                    entries: texts(entries@),
                }
            },
            WorkflowRequest::RightPaneBlockView => WorkflowRequestView::RightPaneBlockView,
        }
    }
}

/// Mathematical value of a [`WorkflowResponse`].
pub enum WorkflowResponseView {
    Ack,
    PlannerTasks { tasks: Seq<EntryView> },
    StartExecution { messages: Seq<Seq<char>> },
    StartedJob { job: Option<StartedJobView> },
    FinishActiveJob { messages: Seq<Seq<char>> },
    RecentFailures { failures: Seq<FailureView> },
    RollingContext { entries: Seq<Seq<char>> },
    RightPaneBlock { lines: Seq<Seq<char>>, toggles: Seq<ToggleView> },
}

impl View for WorkflowResponse {
    type V = WorkflowResponseView;

    open spec fn view(&self) -> WorkflowResponseView {
        match *self {
            WorkflowResponse::Ack => WorkflowResponseView::Ack,
            WorkflowResponse::PlannerTasks { tasks } => WorkflowResponseView::PlannerTasks {
                tasks: entry_views(tasks@),
            },
            WorkflowResponse::StartExecution { messages } => WorkflowResponseView::StartExecution {
                messages: texts(messages@),
            },
            WorkflowResponse::StartedJob { job } => WorkflowResponseView::StartedJob {
                job: optional_started_job(job),
            },
            WorkflowResponse::FinishActiveJob { messages } => {
                WorkflowResponseView::FinishActiveJob {
                    messages: texts(messages@),
                }
            },
            WorkflowResponse::RecentFailures { failures } => WorkflowResponseView::RecentFailures {
                failures: failure_views(failures@),
            },
            WorkflowResponse::RollingContext { entries } => WorkflowResponseView::RollingContext {
                entries: texts(entries@),
            },
            WorkflowResponse::RightPaneBlock { lines, toggles } => {
                WorkflowResponseView::RightPaneBlock {
                    lines: texts(lines@),
                    toggles: toggle_views(toggles@),
                }
            },
        }
    }
}

/// Mathematical value of a [`SessionRequest`].
pub enum SessionRequestView {
    Initialize { cwd: Seq<char> },
    OpenExisting { cwd: Seq<char>, session_dir: Seq<char> },
    ListSessions,
    ReadTasks,
    ReadPlannerMarkdown,
    WriteRollingContext { entries: Seq<Seq<char>> },
    ReadRollingContext,
    ReadTaskFails,
    AppendTaskFails { entries: Seq<FailureView> },
    ReadProjectInfo,
    WriteProjectInfo { markdown: Seq<char> },
    ReadSessionMeta,
}

impl View for SessionRequest {
    type V = SessionRequestView;

    open spec fn view(&self) -> SessionRequestView {
        match *self {
            SessionRequest::Initialize { cwd } => SessionRequestView::Initialize {
                cwd: cwd@,
            },
            SessionRequest::OpenExisting { cwd, session_dir } => SessionRequestView::OpenExisting {
                cwd: cwd@,
                session_dir: session_dir@,
            },
            SessionRequest::ListSessions => SessionRequestView::ListSessions,
            SessionRequest::ReadTasks => SessionRequestView::ReadTasks,
            SessionRequest::ReadPlannerMarkdown => SessionRequestView::ReadPlannerMarkdown,
            SessionRequest::WriteRollingContext { entries } => {
                SessionRequestView::WriteRollingContext {
                    entries: texts(entries@),
                }
            },
            SessionRequest::ReadRollingContext => SessionRequestView::ReadRollingContext,
            SessionRequest::ReadTaskFails => SessionRequestView::ReadTaskFails,
            SessionRequest::AppendTaskFails { entries } => SessionRequestView::AppendTaskFails {
                entries: failure_views(entries@),
            },
            SessionRequest::ReadProjectInfo => SessionRequestView::ReadProjectInfo,
            SessionRequest::WriteProjectInfo { markdown } => SessionRequestView::WriteProjectInfo {
                markdown: markdown@,
            },
            SessionRequest::ReadSessionMeta => SessionRequestView::ReadSessionMeta,
        }
    }
}

/// Mathematical value of a [`SessionResponse`].
pub enum SessionResponseView {
    Initialized { session: SessionStoreSnapshotView },
    Sessions { sessions: Seq<SessionListEntryView> },
    Tasks { tasks: Seq<EntryView> },
    PlannerMarkdown { markdown: Seq<char> },
    RollingContext { entries: Seq<Seq<char>> },
    TaskFails { entries: Seq<FailureView> },
    ProjectInfo { markdown: Seq<char> },
    SessionMeta { meta: SessionMetaView },
    Ack,
}

impl View for SessionResponse {
    type V = SessionResponseView;

    open spec fn view(&self) -> SessionResponseView {
        match *self {
            SessionResponse::Initialized { session } => SessionResponseView::Initialized {
                session: session@,
            },
            SessionResponse::Sessions { sessions } => SessionResponseView::Sessions {
                sessions: session_views(sessions@),
            },
            SessionResponse::Tasks { tasks } => SessionResponseView::Tasks {
                tasks: entry_views(tasks@),
            },
            SessionResponse::PlannerMarkdown { markdown } => SessionResponseView::PlannerMarkdown {
                markdown: markdown@,
            },
            SessionResponse::RollingContext { entries } => SessionResponseView::RollingContext {
                entries: texts(entries@),
            },
            SessionResponse::TaskFails { entries } => SessionResponseView::TaskFails {
                entries: failure_views(entries@),
            },
            SessionResponse::ProjectInfo { markdown } => SessionResponseView::ProjectInfo {
                markdown: markdown@,
            },
            SessionResponse::SessionMeta { meta } => SessionResponseView::SessionMeta {
                meta: meta@,
            },
            SessionResponse::Ack => SessionResponseView::Ack,
        }
    }
}

/// Mathematical value of a [`SubagentRequest`].
pub enum SubagentRequestView {
    BuildMasterPrompt { tasks_file: Seq<char>, workflow_prompt: Seq<char> },
    BuildConvertPlanPrompt { planner_file: Seq<char>, tasks_file: Seq<char> },
    BuildSessionIntroIfNeeded {
        prompt: Seq<char>,
        session_dir: Seq<char>,
        session_meta_file: Seq<char>,
        project_info: Option<Seq<char>>,
        intro_needed: bool,
    },
    BuildFailureReportPrompt {
        task_fails_file: Seq<char>,
        failed_this_cycle: Seq<FailureView>,
        has_test_failure: bool,
    },
    SplitAuditsCommandPrompt,
    MergeAuditsCommandPrompt,
    SplitTestsCommandPrompt,
    MergeTestsCommandPrompt,
    BuildProjectInfoPrompt { cwd: Seq<char>, question: Seq<char>, output_path: Seq<char> },
    BuildSessionMetaPrompt { user_prompt: Seq<char>, output_path: Seq<char> },
    BuildTaskCheckPrompt {
        tasks_file: Seq<char>,
        project_info_file: Seq<char>,
        session_meta_file: Seq<char>,
    },
}

impl View for SubagentRequest {
    type V = SubagentRequestView;

    open spec fn view(&self) -> SubagentRequestView {
        match *self {
            SubagentRequest::BuildMasterPrompt { tasks_file, workflow_prompt } => {
                SubagentRequestView::BuildMasterPrompt {
                    tasks_file: tasks_file@,
                    workflow_prompt: workflow_prompt@,
                }
            },
            SubagentRequest::BuildConvertPlanPrompt { planner_file, tasks_file } => {
                SubagentRequestView::BuildConvertPlanPrompt {
                    planner_file: planner_file@,
                    tasks_file: tasks_file@,
                }
            },
            SubagentRequest::BuildSessionIntroIfNeeded {
                prompt,
                session_dir,
                session_meta_file,
                project_info,
                intro_needed,
            } => {
                SubagentRequestView::BuildSessionIntroIfNeeded {
                    prompt: prompt@,
                    session_dir: session_dir@,
                    session_meta_file: session_meta_file@,
                    project_info: optional_text(project_info),
                    intro_needed: intro_needed,
                }
            },
            SubagentRequest::BuildFailureReportPrompt {
                task_fails_file,
                failed_this_cycle,
                has_test_failure,
            } => {
                SubagentRequestView::BuildFailureReportPrompt {
                    task_fails_file: task_fails_file@,
                    failed_this_cycle: failure_views(failed_this_cycle@),
                    has_test_failure: has_test_failure,
                }
            },
            SubagentRequest::SplitAuditsCommandPrompt => {
                SubagentRequestView::SplitAuditsCommandPrompt
            },
            SubagentRequest::MergeAuditsCommandPrompt => {
                SubagentRequestView::MergeAuditsCommandPrompt
            },
            SubagentRequest::SplitTestsCommandPrompt => {
                SubagentRequestView::SplitTestsCommandPrompt
            },
            SubagentRequest::MergeTestsCommandPrompt => {
                SubagentRequestView::MergeTestsCommandPrompt
            },
            SubagentRequest::BuildProjectInfoPrompt { cwd, question, output_path } => {
                SubagentRequestView::BuildProjectInfoPrompt {
                    cwd: cwd@,
                    question: question@,
                    output_path: output_path@,
                }
            },
            SubagentRequest::BuildSessionMetaPrompt { user_prompt, output_path } => {
                SubagentRequestView::BuildSessionMetaPrompt {
                    user_prompt: user_prompt@,
                    output_path: output_path@,
                }
            },
            SubagentRequest::BuildTaskCheckPrompt {
                tasks_file,
                project_info_file,
                session_meta_file,
            } => {
                SubagentRequestView::BuildTaskCheckPrompt {
                    tasks_file: tasks_file@,
                    project_info_file: project_info_file@,
                    session_meta_file: session_meta_file@,
                }
            },
        }
    }
}

/// Mathematical value of a [`SubagentResponse`].
pub enum SubagentResponseView {
    Prompt { text: Seq<char> },
    IntroPrompt { text: Seq<char>, intro_needed_after: bool },
}

impl View for SubagentResponse {
    type V = SubagentResponseView;

    open spec fn view(&self) -> SubagentResponseView {
        match *self {
            SubagentResponse::Prompt { text } => SubagentResponseView::Prompt {
                text: text@,
            },
            SubagentResponse::IntroPrompt { text, intro_needed_after } => {
                SubagentResponseView::IntroPrompt {
                    text: text@,
                    intro_needed_after: intro_needed_after,
                }
            },
        }
    }
}

/// Mathematical value of a [`ApiRequestContract`].
pub enum ApiRequestView {
    App(AppRequestView),
    Events(EventsRequestView),
    Workflow(WorkflowRequestView),
    Session(SessionRequestView),
    Subagent(SubagentRequestView),
}

impl View for ApiRequestContract {
    type V = ApiRequestView;

    open spec fn view(&self) -> ApiRequestView {
        match *self {
            ApiRequestContract::App(x) => ApiRequestView::App(x@),
            ApiRequestContract::Events(x) => ApiRequestView::Events(x@),
            ApiRequestContract::Workflow(x) => ApiRequestView::Workflow(x@),
            ApiRequestContract::Session(x) => ApiRequestView::Session(x@),
            ApiRequestContract::Subagent(x) => ApiRequestView::Subagent(x@),
        }
    }
}

/// Mathematical value of a [`ApiResponseContract`].
pub enum ApiResponseView {
    App(AppResponseView),
    Events(EventsResponseView),
    Workflow(WorkflowResponseView),
    Session(SessionResponseView),
    Subagent(SubagentResponseView),
}

impl View for ApiResponseContract {
    type V = ApiResponseView;

    open spec fn view(&self) -> ApiResponseView {
        match *self {
            ApiResponseContract::App(x) => ApiResponseView::App(x@),
            ApiResponseContract::Events(x) => ApiResponseView::Events(x@),
            ApiResponseContract::Workflow(x) => ApiResponseView::Workflow(x@),
            ApiResponseContract::Session(x) => ApiResponseView::Session(x@),
            ApiResponseContract::Subagent(x) => ApiResponseView::Subagent(x@),
        }
    }
}

/// Mathematical value of a [`RequestMetadata`].
pub struct MetadataView {
    pub transport: Option<Seq<char>>,
    pub actor: Option<Seq<char>>,
}

impl View for RequestMetadata {
    type V = MetadataView;

    open spec fn view(&self) -> MetadataView {
        MetadataView {
            transport: optional_text(self.transport),
            actor: optional_text(self.actor),
        }
    }
}

/// Mathematical value of a [`ApiErrorEnvelope`].
pub struct ErrorView {
    pub code: ApiErrorCode,
    pub message: Seq<char>,
    pub retryable: bool,
    pub details: Option<Json>,
}

impl View for ApiErrorEnvelope {
    type V = ErrorView;

    open spec fn view(&self) -> ErrorView {
        ErrorView {
            code: self.code,
            message: self.message@,
            retryable: self.retryable,
            details: optional_json(self.details),
        }
    }
}

/// Mathematical value of a [`ApiResultEnvelope`].
pub enum ResultView {
    Success { data: ApiResponseView },
    Failure { error: ErrorView },
}

impl View for ApiResultEnvelope<ApiResponseContract> {
    type V = ResultView;

    open spec fn view(&self) -> ResultView {
        match *self {
            ApiResultEnvelope::Success { data } => ResultView::Success {
                data: data@,
            },
            ApiResultEnvelope::Failure { error } => ResultView::Failure {
                error: error@,
            },
        }
    }
}

/// Mathematical value of a [`RequestEnvelope`].
pub struct RequestView {
    pub request_id: Option<Seq<char>>,
    pub capability: CapabilityId,
    pub metadata: MetadataView,
    pub payload: ApiRequestView,
}

impl View for RequestEnvelope<ApiRequestContract> {
    type V = RequestView;

    open spec fn view(&self) -> RequestView {
        RequestView {
            request_id: optional_text(self.request_id),
            capability: self.capability,
            metadata: self.metadata@,
            payload: self.payload@,
        }
    }
}

/// Mathematical value of a [`ResponseEnvelope`].
pub struct ResponseView {
    pub request_id: Option<Seq<char>>,
    pub capability: CapabilityId,
    pub result: ResultView,
}

impl View for ResponseEnvelope<ApiResponseContract> {
    type V = ResponseView;

    open spec fn view(&self) -> ResponseView {
        ResponseView {
            request_id: optional_text(self.request_id),
            capability: self.capability,
            result: self.result@,
        }
    }
}

} // verus!
