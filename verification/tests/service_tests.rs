use metaagent::api::{
    ApiErrorCode, ApiRequestContract, ApiResponseContract, ApiResultEnvelope, AppRequest,
    AppResponse, CapabilityId, JobRunContract, PlannerTaskEntryContract, PlannerTaskKindContract,
    PlannerTaskStatusContract, RequestEnvelope, RequestMetadata, ResponseEnvelope,
    WorkerRoleContract, WorkflowRequest, WorkflowResponse,
};
use metaagent::workflow::service::{app_capability_for, capability_for};
use metaagent::workflow::Workflow;

fn ask(workflow: &mut Workflow, text: &str) -> ResponseEnvelope<ApiResponseContract> {
    let envelope =
        RequestEnvelope::<ApiRequestContract>::from_json_text(text).expect("request should parse");
    let response = workflow.serve(envelope);
    let written = response.to_json_text();
    let read = ResponseEnvelope::<ApiResponseContract>::from_json_text(&written)
        .expect("response should read back");
    assert_eq!(read, response);
    response
}

fn data(response: ResponseEnvelope<ApiResponseContract>) -> ApiResponseContract {
    match response.result {
        ApiResultEnvelope::Success { data } => data,
        ApiResultEnvelope::Failure { error } => panic!("unexpected error {error:?}"),
    }
}

const PLAN: &str = r#"{"request_id":"r1","capability":"workflow_task_graph_sync","payload":{"domain":"workflow","request":{"action":"sync_planner_tasks","tasks":[
    {"id":"t","title":"Top","order":0},
    {"id":"i","title":"Impl","kind":"implementor","parent_id":"t","order":0}
]}}}"#;

#[test]
fn a_plan_runs_to_its_end_through_envelopes() {
    let mut workflow = Workflow::new(true);
    let response = ask(&mut workflow, PLAN);
    assert_eq!(response.request_id.as_deref(), Some("r1"));
    assert_eq!(response.capability, CapabilityId::WorkflowTaskGraphSync);
    assert_eq!(data(response), ApiResponseContract::Workflow(WorkflowResponse::Ack));

    let started = data(ask(
        &mut workflow,
        r#"{"capability":"workflow_execution_queue","payload":{"domain":"workflow","request":{"action":"start_execution"}}}"#,
    ));
    assert_eq!(
        started,
        ApiResponseContract::Workflow(WorkflowResponse::StartExecution {
            messages: vec![
                "System: Queued 1 top-level tasks.".to_string(),
                "System: Task #1 implementor queued.".to_string(),
            ]
        })
    );

    let job = data(ask(
        &mut workflow,
        r#"{"capability":"workflow_execution_queue","payload":{"domain":"workflow","request":{"action":"start_next_job"}}}"#,
    ));
    match job {
        ApiResponseContract::Workflow(WorkflowResponse::StartedJob { job: Some(job) }) => {
            assert_eq!(job.role, WorkerRoleContract::Implementor);
            assert_eq!(job.top_task_id, 1);
            assert!(matches!(job.run, JobRunContract::AgentPrompt(_)));
        }
        other => panic!("unexpected response {other:?}"),
    }
    let none = data(ask(
        &mut workflow,
        r#"{"capability":"workflow_execution_queue","payload":{"domain":"workflow","request":{"action":"start_next_job"}}}"#,
    ));
    assert_eq!(none, ApiResponseContract::Workflow(WorkflowResponse::StartedJob { job: None }));

    let appended = data(ask(
        &mut workflow,
        r#"{"capability":"workflow_execution_queue","payload":{"domain":"workflow","request":{"action":"append_active_output","line":"x"}}}"#,
    ));
    assert_eq!(appended, ApiResponseContract::Workflow(WorkflowResponse::Ack));

    let finished = data(ask(
        &mut workflow,
        r#"{"capability":"workflow_execution_queue","payload":{"domain":"workflow","request":{"action":"finish_active_job","success":true,"exit_code":0}}}"#,
    ));
    assert_eq!(
        finished,
        ApiResponseContract::Workflow(WorkflowResponse::FinishActiveJob {
            messages: vec![
                "System: Task #1 implementor pass 1 complete.".to_string(),
                "System: Task #1 completed.".to_string(),
            ]
        })
    );

    let context = data(ask(
        &mut workflow,
        r#"{"capability":"workflow_context_projection","payload":{"domain":"workflow","request":{"action":"rolling_context_entries"}}}"#,
    ));
    assert_eq!(
        context,
        ApiResponseContract::Workflow(WorkflowResponse::RollingContext {
            entries: vec!["Implementor|Top|x|ok".to_string()]
        })
    );

    let plan = data(ask(
        &mut workflow,
        r#"{"capability":"workflow_task_graph_sync","payload":{"domain":"workflow","request":{"action":"planner_tasks_for_file"}}}"#,
    ));
    match plan {
        ApiResponseContract::Workflow(WorkflowResponse::PlannerTasks { tasks }) => {
            assert_eq!(tasks.len(), 2);
            assert!(tasks.iter().all(|t| t.status == PlannerTaskStatusContract::Done));
            assert_eq!(tasks[1].kind, PlannerTaskKindContract::Implementor);
        }
        other => panic!("unexpected response {other:?}"),
    }

    let pane = data(ask(
        &mut workflow,
        r#"{"capability":"workflow_context_projection","payload":{"domain":"workflow","request":{"action":"right_pane_block_view"}}}"#,
    ));
    match pane {
        ApiResponseContract::Workflow(WorkflowResponse::RightPaneBlock { lines, toggles }) => {
            assert_eq!(lines[3], "[done] Top");
            assert_eq!(toggles.len(), 1);
            assert_eq!(toggles[0].line_index, 3);
            assert_eq!(toggles[0].task_key, "t");
        }
        other => panic!("unexpected response {other:?}"),
    }
}

fn error_of(response: ResponseEnvelope<ApiResponseContract>) -> (ApiErrorCode, String, bool) {
    match response.result {
        ApiResultEnvelope::Failure { error } => {
            assert_eq!(error.details, None);
            (error.code, error.message, error.retryable)
        }
        ApiResultEnvelope::Success { data } => panic!("unexpected success {data:?}"),
    }
}

#[test]
fn refusals_travel_as_typed_errors() {
    let mut workflow = Workflow::new(true);
    let finished = ask(
        &mut workflow,
        r#"{"request_id":"q","capability":"workflow_execution_queue","payload":{"domain":"workflow","request":{"action":"finish_active_job","success":true,"exit_code":0}}}"#,
    );
    assert_eq!(finished.request_id.as_deref(), Some("q"));
    assert_eq!(
        error_of(finished),
        (ApiErrorCode::InvalidRequest, "no worker job is active".to_string(), false)
    );

    let broken_plan = ask(
        &mut workflow,
        r#"{"capability":"workflow_task_graph_sync","payload":{"domain":"workflow","request":{"action":"sync_planner_tasks","tasks":[{"id":"a","title":"A","parent_id":"missing"}]}}}"#,
    );
    assert_eq!(error_of(broken_plan).0, ApiErrorCode::ValidationFailed);

    let wrong = ask(
        &mut workflow,
        r#"{"capability":"session_lifecycle","payload":{"domain":"workflow","request":{"action":"start_execution"}}}"#,
    );
    assert_eq!(
        error_of(wrong),
        (
            ApiErrorCode::InvalidRequest,
            "the capability named does not offer this request".to_string(),
            false
        )
    );

    let elsewhere = ask(
        &mut workflow,
        r#"{"capability":"session_lifecycle","payload":{"domain":"session","request":{"action":"list_sessions"}}}"#,
    );
    assert_eq!(error_of(elsewhere).0, ApiErrorCode::Unsupported);
    let tick = ask(
        &mut workflow,
        r#"{"capability":"app_execution_control","payload":{"domain":"app","request":{"action":"tick"}}}"#,
    );
    assert_eq!(error_of(tick).0, ApiErrorCode::Unsupported);
    assert_eq!(workflow.queued_jobs(), 0);
}

#[test]
fn the_application_reaches_the_engine_through_its_own_requests() {
    let mut workflow = Workflow::new(false);
    let entry = |id: &str, kind, parent: Option<&str>| PlannerTaskEntryContract {
        id: id.to_string(),
        title: id.to_uppercase(),
        details: String::new(),
        docs: Vec::new(),
        kind,
        status: PlannerTaskStatusContract::Pending,
        parent_id: parent.map(str::to_string),
        order: None,
    };
    let send = |workflow: &mut Workflow, capability, request| {
        workflow.serve(RequestEnvelope {
            request_id: None,
            capability,
            metadata: RequestMetadata::default(),
            payload: ApiRequestContract::App(request),
        })
    };
    let synced = send(
        &mut workflow,
        CapabilityId::AppPlannerStateSync,
        AppRequest::SyncPlannerTasks {
            tasks: vec![
                entry("t", PlannerTaskKindContract::Task, None),
                entry("i", PlannerTaskKindContract::Implementor, Some("t")),
            ],
        },
    );
    assert_eq!(data(synced), ApiResponseContract::App(AppResponse::PlannerTasksSynced { count: 2 }));

    let prompt = send(
        &mut workflow,
        CapabilityId::AppPromptPreparation,
        AppRequest::PrepareMasterPrompt {
            message: "add a button".to_string(),
            tasks_file: "/s/tasks.json".to_string(),
        },
    );
    match data(prompt) {
        ApiResponseContract::App(AppResponse::Prompt { text }) => {
            assert!(text.contains("Keep the task plan in this file: /s/tasks.json\n"));
            assert!(text.contains("Rolling task context:\n(no earlier context)\nUser request:\nadd a button\n"));
            assert!(text.contains("Tests mode is OFF."));
        }
        other => panic!("unexpected response {other:?}"),
    }

    let planner = send(
        &mut workflow,
        CapabilityId::AppPromptPreparation,
        AppRequest::PreparePlannerPrompt {
            message: "add a button".to_string(),
            planner_file: "/s/planner.md".to_string(),
            project_info_file: "/s/project_info.md".to_string(),
        },
    );
    assert_eq!(
        data(planner),
        ApiResponseContract::App(AppResponse::Prompt {
            text: "You are the planning agent.\nWrite the plan as markdown into this file: /s/planner.md\nRead the description of the project from this file: /s/project_info.md\nUser request:\nadd a button".to_string()
        })
    );
    let docs = send(
        &mut workflow,
        CapabilityId::AppPromptPreparation,
        AppRequest::PrepareAttachDocsPrompt { tasks_file: "/s/tasks.json".to_string() },
    );
    match data(docs) {
        ApiResponseContract::App(AppResponse::Prompt { text }) => {
            assert!(text.starts_with(
                "You attach documentation to planned tasks.\nRead the task plan from this file: /s/tasks.json\n"
            ));
            assert!(text.contains("title, url and summary"));
        }
        other => panic!("unexpected response {other:?}"),
    }
    assert_eq!(workflow.queued_jobs(), 0);

    let started = send(&mut workflow, CapabilityId::AppExecutionControl, AppRequest::StartExecution);
    assert!(matches!(
        data(started),
        ApiResponseContract::App(AppResponse::ExecutionMessages { ref messages }) if messages.len() == 2
    ));
    let job = send(&mut workflow, CapabilityId::AppExecutionControl, AppRequest::StartNextWorkerJob);
    assert!(matches!(
        data(job),
        ApiResponseContract::App(AppResponse::StartedWorkerJob { job: Some(_) })
    ));
    for request in [
        AppRequest::WorkerOutput { line: "working".to_string() },
        AppRequest::WorkerSystemOutput { line: "note".to_string() },
    ] {
        let ack = send(&mut workflow, CapabilityId::AppExecutionControl, request);
        assert_eq!(data(ack), ApiResponseContract::App(AppResponse::Ack));
    }
    let completed = send(
        &mut workflow,
        CapabilityId::AppExecutionControl,
        AppRequest::WorkerCompleted { success: false, exit_code: 2 },
    );
    assert_eq!(
        data(completed),
        ApiResponseContract::App(AppResponse::WorkerCompleted {
            system_messages: vec!["System: Task #1 implementor failed (code 2); retry queued.".to_string()],
            new_context_entries: vec!["Implementor|T|working note|fail".to_string()],
        })
    );
    let failures = send(&mut workflow, CapabilityId::AppExecutionControl, AppRequest::DrainWorkerFailures);
    assert_eq!(
        data(failures),
        ApiResponseContract::App(AppResponse::WorkerFailures { failures: Vec::new() })
    );
    let nothing_active = send(
        &mut workflow,
        CapabilityId::AppExecutionControl,
        AppRequest::WorkerCompleted { success: true, exit_code: 0 },
    );
    assert_eq!(error_of(nothing_active).0, ApiErrorCode::InvalidRequest);
    let wrong = send(&mut workflow, CapabilityId::AppPromptPreparation, AppRequest::StartExecution);
    assert_eq!(error_of(wrong).0, ApiErrorCode::InvalidRequest);
}

#[test]
fn every_request_comes_under_the_capability_that_documents_it() {
    assert_eq!(capability_for(&WorkflowRequest::StartNextJob), CapabilityId::WorkflowExecutionQueue);
    assert_eq!(
        capability_for(&WorkflowRequest::AppendActiveOutput { line: String::new() }),
        CapabilityId::WorkflowExecutionQueue
    );
    assert_eq!(capability_for(&WorkflowRequest::PlannerTasksForFile), CapabilityId::WorkflowTaskGraphSync);
    assert_eq!(capability_for(&WorkflowRequest::RightPaneBlockView), CapabilityId::WorkflowContextProjection);
    assert_eq!(app_capability_for(&AppRequest::Quit), None);
    assert_eq!(
        app_capability_for(&AppRequest::PrepareAttachDocsPrompt { tasks_file: String::new() }),
        Some(CapabilityId::AppPromptPreparation)
    );
    assert_eq!(
        app_capability_for(&AppRequest::DrainWorkerFailures),
        Some(CapabilityId::AppExecutionControl)
    );
}
