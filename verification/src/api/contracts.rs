//! Request and response payloads of every component, in the shape they have
//! on the wire, together with the mathematical values that the engine's
//! contracts are stated over.

use crate::text::optional_text;
use vstd::prelude::*;

verus! {

/// A request payload, tagged by the component it addresses.
#[derive(Debug, Clone, PartialEq)]
pub enum ApiRequestContract {
    App(AppRequest),
    Events(EventsRequest),
    Workflow(WorkflowRequest),
    Session(SessionRequest),
    Subagent(SubagentRequest),
}

/// A response payload, tagged by the component that produced it.
#[derive(Debug, Clone, PartialEq)]
pub enum ApiResponseContract {
    App(AppResponse),
    Events(EventsResponse),
    Workflow(WorkflowResponse),
    Session(SessionResponse),
    Subagent(SubagentResponse),
}

/// What a front end may ask of the application layer.
#[derive(Debug, Clone, PartialEq)]
pub enum AppRequest {
    Tick,
    Quit,
    PaneNext,
    PanePrevious,
    SubmitChatMessage,
    SubmitDirectMessage {
        message: String,
    },
    SyncPlannerTasks {
        tasks: Vec<PlannerTaskEntryContract>,
    },
    PrepareMasterPrompt {
        message: String,
        tasks_file: String,
    },
    PreparePlannerPrompt {
        message: String,
        planner_file: String,
        project_info_file: String,
    },
    PrepareAttachDocsPrompt {
        tasks_file: String,
    },
    StartExecution,
    StartNextWorkerJob,
    WorkerOutput {
        line: String,
    },
    WorkerSystemOutput {
        line: String,
    },
    WorkerCompleted {
        success: bool,
        exit_code: i32,
    },
    DrainWorkerFailures,
}

/// What the application layer answers.
#[derive(Debug, Clone, PartialEq)]
pub enum AppResponse {
    Ack,
    Prompt {
        text: String,
    },
    SubmittedChat {
        message: Option<String>,
    },
    PlannerTasksSynced {
        count: usize,
    },
    ExecutionMessages {
        messages: Vec<String>,
    },
    StartedWorkerJob {
        job: Option<StartedWorkerJobContract>,
    },
    WorkerCompleted {
        system_messages: Vec<String>,
        new_context_entries: Vec<String>,
    },
    WorkerFailures {
        failures: Vec<TaskFailureContract>,
    },
}

/// The role a worker job runs in.
#[derive(Debug, Clone, Copy, PartialEq, Eq, Structural)]
pub enum WorkerRoleContract {
    Implementor,
    Auditor,
    TestWriter,
    TestRunner,
    FinalAudit,
}

/// How a started job is to be executed: by an agent given a prompt, or by
/// the deterministic test runner.
#[derive(Debug, Clone, PartialEq)]
pub enum JobRunContract {
    AgentPrompt(String),
    DeterministicTestRun,
}

/// Describes a job that the engine has just made active.
#[derive(Debug, Clone, PartialEq)]
pub struct StartedWorkerJobContract {
    pub run: JobRunContract,
    pub role: WorkerRoleContract,
    pub top_task_id: u64,
    pub parent_context_key: Option<String>,
}

/// What may be asked of the input-event source.
#[derive(Debug, Clone, PartialEq)]
pub enum EventsRequest {
    NextEvent,
}

/// What the input-event source answers.
#[derive(Debug, Clone, PartialEq)]
pub enum EventsResponse {
    Event { event: AppEventContract },
}

/// An input event in its transport form.
#[derive(Debug, Clone, PartialEq)]
pub enum AppEventContract {
    Tick,
    Quit,
    NextPane,
    PrevPane,
    MoveUp,
    MoveDown,
    CursorLeft,
    CursorRight,
    ScrollChatUp,
    ScrollChatDown,
    ScrollRightUpGlobal,
    ScrollRightDownGlobal,
    InputChar(char),
    Backspace,
    Submit,
    MouseScrollUp,
    MouseScrollDown,
    MouseLeftClick { column: u16, row: u16 },
}

/// What may be asked of the workflow engine.
#[derive(Debug, Clone, PartialEq)]
pub enum WorkflowRequest {
    SyncPlannerTasks {
        tasks: Vec<PlannerTaskEntryContract>,
    },
    PlannerTasksForFile,
    StartExecution,
    StartNextJob,
    AppendActiveOutput {
        line: String,
    },
    FinishActiveJob {
        success: bool,
        exit_code: i32,
    },
    DrainRecentFailures,
    RollingContextEntries,
    ReplaceRollingContextEntries {
        entries: Vec<String>,
    },
    RightPaneBlockView,
}

/// What the workflow engine answers.
#[derive(Debug, Clone, PartialEq)]
pub enum WorkflowResponse {
    Ack,
    PlannerTasks {
        tasks: Vec<PlannerTaskEntryContract>,
    },
    StartExecution {
        messages: Vec<String>,
    },
    StartedJob {
        job: Option<StartedWorkerJobContract>,
    },
    FinishActiveJob {
        messages: Vec<String>,
    },
    RecentFailures {
        failures: Vec<TaskFailureContract>,
    },
    RollingContext {
        entries: Vec<String>,
    },
    RightPaneBlock {
        lines: Vec<String>,
        toggles: Vec<RightPaneToggleContract>,
    },
}

/// Marks the line of the right pane at which a task branch can be folded.
#[derive(Debug, Clone, PartialEq, Eq)]
pub struct RightPaneToggleContract {
    pub line_index: usize,
    pub task_key: String,
}

/// What may be asked of the session store.
#[derive(Debug, Clone, PartialEq)]
#[allow(inconsistent_fields)]
pub enum SessionRequest {
    Initialize { cwd: String },
    OpenExisting { cwd: String, session_dir: String },
    ListSessions,
    ReadTasks,
    ReadPlannerMarkdown,
    WriteRollingContext { entries: Vec<String> },
    ReadRollingContext,
    ReadTaskFails,
    AppendTaskFails { entries: Vec<TaskFailureContract> },
    ReadProjectInfo,
    WriteProjectInfo { markdown: String },
    ReadSessionMeta,
}

/// What the session store answers.
#[derive(Debug, Clone, PartialEq)]
#[allow(inconsistent_fields)]
pub enum SessionResponse {
    Initialized {
        session: SessionStoreSnapshotContract,
    },
    Sessions {
        sessions: Vec<SessionListEntryContract>,
    },
    Tasks {
        tasks: Vec<PlannerTaskEntryContract>,
    },
    PlannerMarkdown {
        markdown: String,
    },
    RollingContext {
        entries: Vec<String>,
    },
    TaskFails {
        entries: Vec<TaskFailureContract>,
    },
    ProjectInfo {
        markdown: String,
    },
    SessionMeta {
        meta: SessionMetaContract,
    },
    Ack,
}

/// The absolute paths of one session's artifacts.
#[derive(Debug, Clone, PartialEq, Eq)]
pub struct SessionStoreSnapshotContract {
    pub session_dir: String,
    pub tasks_file: String,
    pub planner_file: String,
    pub task_fails_file: String,
    pub project_info_file: String,
    pub session_meta_file: String,
}

/// The prompts that can be requested for sub-agents.
#[derive(Debug, Clone, PartialEq)]
pub enum SubagentRequest {
    BuildMasterPrompt {
        tasks_file: String,
        workflow_prompt: String,
    },
    BuildConvertPlanPrompt {
        planner_file: String,
        tasks_file: String,
    },
    BuildSessionIntroIfNeeded {
        prompt: String,
        session_dir: String,
        session_meta_file: String,
        project_info: Option<String>,
        intro_needed: bool,
    },
    BuildFailureReportPrompt {
        task_fails_file: String,
        failed_this_cycle: Vec<TaskFailureContract>,
        has_test_failure: bool,
    },
    SplitAuditsCommandPrompt,
    MergeAuditsCommandPrompt,
    SplitTestsCommandPrompt,
    MergeTestsCommandPrompt,
    BuildProjectInfoPrompt {
        cwd: String,
        question: String,
        output_path: String,
    },
    BuildSessionMetaPrompt {
        user_prompt: String,
        output_path: String,
    },
    BuildTaskCheckPrompt {
        tasks_file: String,
        project_info_file: String,
        session_meta_file: String,
    },
}

/// A prompt for a sub-agent.
#[derive(Debug, Clone, PartialEq)]
pub enum SubagentResponse {
    Prompt {
        text: String,
    },
    IntroPrompt {
        text: String,
        intro_needed_after: bool,
    },
}

/// One session as shown in the session list.
#[derive(Debug, Clone, PartialEq, Eq)]
pub struct SessionListEntryContract {
    pub session_dir: String,
    pub workspace: String,
    pub title: Option<String>,
    pub created_at_label: Option<String>,
    pub created_at_epoch_secs: u64,
    pub last_used_epoch_secs: u64,
}

/// Descriptive data of a session, including the command that runs its tests.
#[derive(Debug, Clone, PartialEq, Eq)]
pub struct SessionMetaContract {
    pub title: String,
    pub created_at: String,
    pub stack_description: String,
    pub test_command: Option<String>,
}

/// What a task of the plan is for.
#[derive(Debug, Clone, Copy, PartialEq, Eq, Structural)]
pub enum PlannerTaskKindContract {
    Task,
    Implementor,
    Auditor,
    TestWriter,
    TestRunner,
    FinalAudit,
}

/// How far a task of the plan has come.
#[derive(Debug, Clone, Copy, PartialEq, Eq, Structural)]
pub enum PlannerTaskStatusContract {
    Pending,
    InProgress,
    NeedsChanges,
    Done,
}

/// A document attached to a task.
#[derive(Debug, Clone, PartialEq, Eq)]
pub struct PlannerTaskDocContract {
    pub title: String,
    pub url: String,
    pub summary: String,
}

/// One task of a plan snapshot.
#[derive(Debug, Clone, PartialEq, Eq)]
pub struct PlannerTaskEntryContract {
    pub id: String,
    pub title: String,
    pub details: String,
    pub docs: Vec<PlannerTaskDocContract>,
    pub kind: PlannerTaskKindContract,
    pub status: PlannerTaskStatusContract,
    pub parent_id: Option<String>,
    pub order: Option<u32>,
}

impl Default for PlannerTaskKindContract {
    /// A task of the plan is a plain task unless it says otherwise.
    fn default() -> (kind: Self)
        ensures
            kind == PlannerTaskKindContract::Task,
    {
        PlannerTaskKindContract::Task
    }
}

impl Default for PlannerTaskStatusContract {
    /// A task of the plan is pending unless it says otherwise.
    fn default() -> (status: Self)
        ensures
            status == PlannerTaskStatusContract::Pending,
    {
        PlannerTaskStatusContract::Pending
    }
}

/// Which loop gave up: the audit loop or the test loop.
#[derive(Debug, Clone, Copy, PartialEq, Eq, Structural)]
pub enum WorkflowFailureKindContract {
    Audit,
    Test,
}

/// A recorded failure of a top-level task after its retries ran out.
#[derive(Debug, Clone, PartialEq, Eq)]
pub struct TaskFailureContract {
    pub kind: WorkflowFailureKindContract,
    pub top_task_id: u64,
    pub top_task_title: String,
    pub attempts: u8,
    pub reason: String,
    pub action_taken: String,
}

/// Mathematical value of a [`PlannerTaskDocContract`].
pub struct DocView {
    pub title: Seq<char>,
    pub url: Seq<char>,
    pub summary: Seq<char>,
}

impl View for PlannerTaskDocContract {
    type V = DocView;

    open spec fn view(&self) -> DocView {
        DocView { title: self.title@, url: self.url@, summary: self.summary@ }
    }
}

/// The values of a list of documents.
pub open spec fn doc_views(docs: Seq<PlannerTaskDocContract>) -> Seq<DocView> {
    Seq::new(docs.len(), |i: int| docs[i]@)
}

/// Mathematical value of a [`PlannerTaskEntryContract`].
pub struct EntryView {
    pub id: Seq<char>,
    pub title: Seq<char>,
    pub details: Seq<char>,
    pub docs: Seq<DocView>,
    pub kind: PlannerTaskKindContract,
    pub status: PlannerTaskStatusContract,
    pub parent_id: Option<Seq<char>>,
    pub order: Option<u32>,
}

impl View for PlannerTaskEntryContract {
    type V = EntryView;

    open spec fn view(&self) -> EntryView {
        EntryView {
            id: self.id@,
            title: self.title@,
            details: self.details@,
            docs: doc_views(self.docs@),
            kind: self.kind,
            status: self.status,
            parent_id: optional_text(self.parent_id),
            order: self.order,
        }
    }
}

/// The values of a list of plan entries.
pub open spec fn entry_views(entries: Seq<PlannerTaskEntryContract>) -> Seq<EntryView> {
    Seq::new(entries.len(), |i: int| entries[i]@)
}

/// Mathematical value of a [`TaskFailureContract`].
pub struct FailureView {
    pub kind: WorkflowFailureKindContract,
    pub top_task_id: u64,
    pub top_task_title: Seq<char>,
    pub attempts: u8,
    pub reason: Seq<char>,
    pub action_taken: Seq<char>,
}

impl View for TaskFailureContract {
    type V = FailureView;

    open spec fn view(&self) -> FailureView {
        FailureView {
            kind: self.kind,
            top_task_id: self.top_task_id,
            top_task_title: self.top_task_title@,
            attempts: self.attempts,
            reason: self.reason@,
            action_taken: self.action_taken@,
        }
    }
}

/// The values of a list of recorded failures.
pub open spec fn failure_views(failures: Seq<TaskFailureContract>) -> Seq<FailureView> {
    Seq::new(failures.len(), |i: int| failures[i]@)
}

/// Mathematical value of a [`JobRunContract`].
pub enum RunView {
    AgentPrompt(Seq<char>),
    DeterministicTestRun,
}

impl View for JobRunContract {
    type V = RunView;

    open spec fn view(&self) -> RunView {
        match self {
            JobRunContract::AgentPrompt(text) => RunView::AgentPrompt(text@),
            JobRunContract::DeterministicTestRun => RunView::DeterministicTestRun,
        }
    }
}

/// Mathematical value of a [`StartedWorkerJobContract`].
pub struct StartedJobView {
    pub run: RunView,
    pub role: WorkerRoleContract,
    pub top_task_id: u64,
    pub parent_context_key: Option<Seq<char>>,
}

impl View for StartedWorkerJobContract {
    type V = StartedJobView;

    open spec fn view(&self) -> StartedJobView {
        StartedJobView {
            run: self.run@,
            role: self.role,
            top_task_id: self.top_task_id,
            parent_context_key: optional_text(self.parent_context_key),
        }
    }
}

} // verus!
