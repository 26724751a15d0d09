use metaagent::api::{
    capability_definition, capability_matrix, ApiErrorCode, ApiErrorEnvelope, ApiRequestContract,
    ApiResponseContract, ApiResultEnvelope, AppEventContract, AppRequest, AppResponse,
    CapabilityDomain, CapabilityId, CapabilityOperation, EventsResponse, JobRunContract,
    PlannerTaskDocContract, PlannerTaskEntryContract, PlannerTaskKindContract,
    PlannerTaskStatusContract, RequestEnvelope, RequestMetadata, ResponseEnvelope,
    RightPaneToggleContract, SessionListEntryContract, SessionMetaContract, SessionRequest,
    SessionResponse, StartedWorkerJobContract, SubagentRequest, SubagentResponse,
    TaskFailureContract, WorkerRoleContract, WorkflowFailureKindContract, WorkflowRequest,
    WorkflowResponse,
};
use serde_json::Value;
use std::collections::HashSet;

fn json(text: &str) -> Value {
    serde_json::from_str(text).expect("test document should be JSON")
}

#[test]
fn capability_matrix_entries_are_unique_and_have_contract_metadata() {
    let mut ids = HashSet::new();
    for definition in capability_matrix() {
        assert!(
            ids.insert(definition.id),
            "duplicate capability id found: {:?}",
            definition.id
        );
        assert!(
            !definition.request_contract.is_empty(),
            "request contract must not be empty for {:?}",
            definition.id
        );
        assert!(
            !definition.response_contract.is_empty(),
            "response contract must not be empty for {:?}",
            definition.id
        );
        assert!(
            !definition.code_paths.is_empty(),
            "code paths must not be empty for {:?}",
            definition.id
        );
        for path in &definition.code_paths {
            assert!(
                path.starts_with("src/") && path.contains("::"),
                "code path should use file::symbol format: {path}"
            );
        }
        assert!(
            !definition.notes.trim().is_empty(),
            "notes must not be empty for {:?}",
            definition.id
        );
    }
}

#[test]
fn capability_matrix_definitions_cover_expected_workflow_and_session_ids() {
    let ids: HashSet<_> = capability_matrix().iter().map(|entry| entry.id).collect();
    assert!(ids.contains(&CapabilityId::WorkflowTaskGraphSync));
    assert!(ids.contains(&CapabilityId::WorkflowExecutionQueue));
    assert!(ids.contains(&CapabilityId::WorkflowContextProjection));
    assert!(ids.contains(&CapabilityId::SessionLifecycle));
    assert!(ids.contains(&CapabilityId::SessionPlannerStorage));
    assert!(ids.contains(&CapabilityId::SessionFailureStorage));
    assert!(ids.contains(&CapabilityId::SessionProjectContextStorage));

    let workflow_task_graph = capability_definition(CapabilityId::WorkflowTaskGraphSync)
        .expect("workflow task graph capability should exist");
    assert_eq!(
        workflow_task_graph.operation,
        CapabilityOperation::CommandQuery
    );
    assert!(
        workflow_task_graph
            .request_contract
            .contains("SyncPlannerTasks")
    );

    let session_failure = capability_definition(CapabilityId::SessionFailureStorage)
        .expect("session failure capability should exist");
    assert_eq!(session_failure.operation, CapabilityOperation::CommandQuery);
    assert!(session_failure.response_contract.contains("TaskFails"));

    let session_project = capability_definition(CapabilityId::SessionProjectContextStorage)
        .expect("session project-context capability should exist");
    assert_eq!(session_project.operation, CapabilityOperation::CommandQuery);
    assert!(session_project.request_contract.contains("ReadProjectInfo"));
    assert!(session_project.response_contract.contains("SessionMeta"));
}

#[test]
fn capability_matrix_covers_workflow_and_session_task_paths() {
    let workflow_task_graph = capability_definition(CapabilityId::WorkflowTaskGraphSync)
        .expect("workflow task graph capability should exist");
    assert_eq!(workflow_task_graph.domain, CapabilityDomain::Workflow);
    assert!(
        workflow_task_graph
            .code_paths
            .iter()
            .any(|path| *path == "src/workflow.rs::sync_planner_tasks_from_file")
    );
    assert!(
        workflow_task_graph
            .code_paths
            .iter()
            .any(|path| *path == "src/workflow.rs::planner_tasks_for_file")
    );

    let workflow_execution = capability_definition(CapabilityId::WorkflowExecutionQueue)
        .expect("workflow execution capability should exist");
    assert_eq!(workflow_execution.domain, CapabilityDomain::Workflow);
    assert!(
        workflow_execution
            .code_paths
            .iter()
            .any(|path| path.starts_with("src/workflow.rs::"))
    );

    let session_planner = capability_definition(CapabilityId::SessionPlannerStorage)
        .expect("session planner capability should exist");
    assert_eq!(session_planner.domain, CapabilityDomain::Session);
    assert!(
        session_planner
            .code_paths
            .iter()
            .any(|path| *path == "src/session_store.rs::read_tasks")
    );
    assert!(
        session_planner
            .code_paths
            .iter()
            .any(|path| *path == "src/session_store.rs::write_rolling_context")
    );

    let session_lifecycle = capability_definition(CapabilityId::SessionLifecycle)
        .expect("session lifecycle capability should exist");
    assert_eq!(session_lifecycle.domain, CapabilityDomain::Session);
    assert!(
        session_lifecycle
            .code_paths
            .iter()
            .any(|path| *path == "src/session_store.rs::initialize")
    );
}

#[test]
fn every_capability_has_exactly_one_row_with_its_domain_and_operation() {
    let all = [
        (CapabilityId::AppPromptPreparation, CapabilityDomain::App, CapabilityOperation::CommandQuery),
        (CapabilityId::AppPlannerStateSync, CapabilityDomain::App, CapabilityOperation::CommandQuery),
        (CapabilityId::AppExecutionControl, CapabilityDomain::App, CapabilityOperation::CommandQuery),
        (CapabilityId::EventPolling, CapabilityDomain::Events, CapabilityOperation::Query),
        (CapabilityId::WorkflowTaskGraphSync, CapabilityDomain::Workflow, CapabilityOperation::CommandQuery),
        (CapabilityId::WorkflowExecutionQueue, CapabilityDomain::Workflow, CapabilityOperation::CommandQuery),
        (CapabilityId::WorkflowContextProjection, CapabilityDomain::Workflow, CapabilityOperation::CommandQuery),
        (CapabilityId::SessionLifecycle, CapabilityDomain::Session, CapabilityOperation::CommandQuery),
        (CapabilityId::SessionPlannerStorage, CapabilityDomain::Session, CapabilityOperation::CommandQuery),
        (CapabilityId::SessionFailureStorage, CapabilityDomain::Session, CapabilityOperation::CommandQuery),
        (CapabilityId::SessionProjectContextStorage, CapabilityDomain::Session, CapabilityOperation::CommandQuery),
        (CapabilityId::SubagentPromptGeneration, CapabilityDomain::Subagent, CapabilityOperation::Query),
    ];
    let matrix = capability_matrix();
    assert_eq!(matrix.len(), all.len());
    for (index, (id, domain, operation)) in all.into_iter().enumerate() {
        assert_eq!(matrix[index].id, id);
        assert_eq!(matrix.iter().filter(|row| row.id == id).count(), 1);
        let row = capability_definition(id).expect("every capability has a row");
        assert_eq!(row, matrix[index]);
        assert_eq!(row.domain, domain);
        assert_eq!(row.operation, operation);
    }
}

#[test]
fn api_request_serialization_uses_domain_and_action_tags() {
    let request = ApiRequestContract::Workflow(WorkflowRequest::StartExecution);
    let value = request.to_json();
    assert_eq!(
        value,
        json(r#"{
            "domain": "workflow",
            "request": {
                "action": "start_execution"
            }
        }"#)
    );
}

#[test]
fn api_request_deserialization_reads_domain_and_action_tags() {
    let value = json(r#"{
        "domain": "workflow",
        "request": {
            "action": "append_active_output",
            "line": "stream chunk"
        }
    }"#);

    let request = ApiRequestContract::from_json(&value).expect("request should deserialize");
    assert_eq!(
        request,
        ApiRequestContract::Workflow(WorkflowRequest::AppendActiveOutput {
            line: "stream chunk".to_string(),
        })
    );
}

#[test]
fn api_response_deserialization_reads_domain_and_kind_tags() {
    let value = json(r##"{
        "domain": "session",
        "response": {
            "kind": "planner_markdown",
            "markdown": "# plan"
        }
    }"##);

    let response = ApiResponseContract::from_json(&value).expect("response should deserialize");
    assert_eq!(
        response,
        ApiResponseContract::Session(SessionResponse::PlannerMarkdown {
            markdown: "# plan".to_string(),
        })
    );
}

#[test]
fn api_response_serialization_uses_domain_and_kind_tags() {
    let response = ApiResponseContract::Workflow(WorkflowResponse::RecentFailures {
        failures: vec![TaskFailureContract {
            kind: WorkflowFailureKindContract::Test,
            top_task_id: 12,
            top_task_title: "Write regression test".to_string(),
            attempts: 2,
            reason: "missing coverage".to_string(),
            action_taken: "requeue test writer".to_string(),
        }],
    });
    let value = response.to_json();
    assert_eq!(
        value,
        json(r#"{
            "domain": "workflow",
            "response": {
                "kind": "recent_failures",
                "failures": [
                    {
                        "kind": "test",
                        "top_task_id": 12,
                        "top_task_title": "Write regression test",
                        "attempts": 2,
                        "reason": "missing coverage",
                        "action_taken": "requeue test writer"
                    }
                ]
            }
        }"#)
    );
}

#[test]
fn started_worker_job_parent_context_defaults_to_none() {
    let value = json(r#"{
        "run": {
            "run_kind": "deterministic_test_run"
        },
        "role": "test_runner",
        "top_task_id": 7
    }"#);

    let job = StartedWorkerJobContract::from_json(&value).expect("job should deserialize");
    assert_eq!(job.parent_context_key, None);
}

#[test]
fn request_envelope_defaults_request_id_and_metadata() {
    let value = json(r#"{
        "capability": "workflow_execution_queue",
        "payload": {
            "domain": "workflow",
            "request": {
                "action": "start_next_job"
            }
        }
    }"#);

    let envelope = RequestEnvelope::<ApiRequestContract>::from_json(&value)
        .expect("envelope should deserialize");
    assert_eq!(envelope.request_id, None);
    assert_eq!(envelope.metadata, RequestMetadata::default());
    assert_eq!(envelope.capability, CapabilityId::WorkflowExecutionQueue);
}

#[test]
fn error_envelope_defaults_retryable_and_details() {
    let result = json(r#"{
        "status": "err",
        "error": {
            "code": "validation_failed",
            "message": "bad payload"
        }
    }"#);

    let parsed = ApiResultEnvelope::<ApiResponseContract>::from_json(&result)
        .expect("error envelope should deserialize");
    assert_eq!(
        parsed,
        ApiResultEnvelope::Failure {
            error: ApiErrorEnvelope {
                code: ApiErrorCode::ValidationFailed,
                message: "bad payload".to_string(),
                retryable: false,
                details: None,
            }
        }
    );
}

#[test]
fn response_envelope_err_defaults_retryable_and_details_when_omitted() {
    let encoded = json(r#"{
        "request_id": "req-10",
        "capability": "workflow_execution_queue",
        "result": {
            "status": "err",
            "error": {
                "code": "external_failure",
                "message": "runner exited non-zero"
            }
        }
    }"#);

    let decoded = ResponseEnvelope::<ApiResponseContract>::from_json(&encoded)
        .expect("response should deserialize");
    assert_eq!(
        decoded,
        ResponseEnvelope {
            request_id: Some("req-10".to_string()),
            capability: CapabilityId::WorkflowExecutionQueue,
            result: ApiResultEnvelope::Failure {
                error: ApiErrorEnvelope {
                    code: ApiErrorCode::ExternalFailure,
                    message: "runner exited non-zero".to_string(),
                    retryable: false,
                    details: None,
                }
            },
        }
    );
}

#[test]
fn response_envelope_err_round_trips_with_details() {
    let envelope = ResponseEnvelope::<ApiResponseContract> {
        request_id: Some("req-9".to_string()),
        capability: CapabilityId::SessionFailureStorage,
        result: ApiResultEnvelope::Failure {
            error: ApiErrorEnvelope {
                code: ApiErrorCode::Conflict,
                message: "append conflict".to_string(),
                retryable: true,
                details: Some(json(r#"{
                    "file": "task_fails.json",
                    "line": 12
                }"#)),
            },
        },
    };

    let encoded = envelope.to_json();
    let decoded = ResponseEnvelope::<ApiResponseContract>::from_json(&encoded)
        .expect("response should deserialize");
    assert_eq!(decoded, envelope);
}

#[test]
fn append_active_output_envelope_reads_and_writes_back_the_same() {
    let text = r#"{"capability":"workflow_execution_queue","payload":{"domain":"workflow","request":{"action":"append_active_output","line":"x"}}}"#;
    let envelope = RequestEnvelope::<ApiRequestContract>::from_json_text(text)
        .expect("envelope should deserialize");
    assert_eq!(
        envelope,
        RequestEnvelope {
            request_id: None,
            capability: CapabilityId::WorkflowExecutionQueue,
            metadata: RequestMetadata::default(),
            payload: ApiRequestContract::Workflow(WorkflowRequest::AppendActiveOutput {
                line: "x".to_string()
            }),
        }
    );
    assert_eq!(envelope.payload.to_json(), json(text)["payload"]);
    assert_eq!(envelope.capability.to_json(), json(text)["capability"]);
    assert_eq!(envelope.to_json(), json(text));
    let written = envelope.to_json_text();
    assert_eq!(written, text);
    assert_eq!(RequestEnvelope::<ApiRequestContract>::from_json_text(&written), Some(envelope));
}

#[test]
fn envelopes_leave_out_what_is_absent_and_write_what_is_stated() {
    let request = RequestEnvelope {
        request_id: Some("req-7".to_string()),
        capability: CapabilityId::WorkflowExecutionQueue,
        metadata: RequestMetadata { transport: Some("stdio".to_string()), actor: None },
        payload: ApiRequestContract::Workflow(WorkflowRequest::StartNextJob),
    };
    let text = r#"{"capability":"workflow_execution_queue","metadata":{"transport":"stdio"},"payload":{"domain":"workflow","request":{"action":"start_next_job"}},"request_id":"req-7"}"#;
    assert_eq!(request.to_json_text(), text);
    assert_eq!(RequestEnvelope::<ApiRequestContract>::from_json_text(text), Some(request));

    let by_actor = RequestMetadata { transport: None, actor: Some("cli".to_string()) };
    assert_eq!(by_actor.to_json(), json(r#"{"actor":"cli"}"#));
    assert!(!by_actor.states_nothing());
    assert!(RequestMetadata::default().states_nothing());
    assert_eq!(RequestMetadata::default().to_json(), json("{}"));

    let response = ResponseEnvelope::<ApiResponseContract> {
        request_id: None,
        capability: CapabilityId::WorkflowExecutionQueue,
        result: ApiResultEnvelope::Failure {
            error: ApiErrorEnvelope {
                code: ApiErrorCode::InvalidRequest,
                message: "no worker job is active".to_string(),
                retryable: false,
                details: None,
            },
        },
    };
    let text = r#"{"capability":"workflow_execution_queue","result":{"error":{"code":"invalid_request","message":"no worker job is active","retryable":false},"status":"err"}}"#;
    assert_eq!(response.to_json_text(), text);
    assert_eq!(ResponseEnvelope::<ApiResponseContract>::from_json_text(text), Some(response));

    let with_id = ResponseEnvelope::<ApiResponseContract> {
        request_id: Some("req-8".to_string()),
        capability: CapabilityId::AppExecutionControl,
        result: ApiResultEnvelope::Success { data: ApiResponseContract::App(AppResponse::Ack) },
    };
    assert_eq!(
        with_id.to_json_text(),
        r#"{"capability":"app_execution_control","request_id":"req-8","result":{"data":{"domain":"app","response":{"kind":"ack"}},"status":"ok"}}"#
    );
}

fn failure() -> TaskFailureContract {
    TaskFailureContract {
        kind: WorkflowFailureKindContract::Audit,
        top_task_id: u64::MAX,
        top_task_title: "Title \"quoted\" \n and é".to_string(),
        attempts: 255,
        reason: "r".to_string(),
        action_taken: String::new(),
    }
}

fn plan_entry() -> PlannerTaskEntryContract {
    PlannerTaskEntryContract {
        id: "a".to_string(),
        title: "Task A".to_string(),
        details: "More context".to_string(),
        docs: vec![PlannerTaskDocContract {
            title: "Docs".to_string(),
            url: "https://example.org".to_string(),
            summary: String::new(),
        }],
        kind: PlannerTaskKindContract::TestWriter,
        status: PlannerTaskStatusContract::NeedsChanges,
        parent_id: Some("p".to_string()),
        order: Some(u32::MAX),
    }
}

fn started_job() -> StartedWorkerJobContract {
    StartedWorkerJobContract {
        run: JobRunContract::AgentPrompt("do it".to_string()),
        role: WorkerRoleContract::FinalAudit,
        top_task_id: 3,
        parent_context_key: Some("implementor:2".to_string()),
    }
}

#[test]
fn every_request_reads_back_as_it_was_written() {
    let requests = vec![
        ApiRequestContract::App(AppRequest::Tick),
        ApiRequestContract::App(AppRequest::SubmitDirectMessage { message: "hi".to_string() }),
        ApiRequestContract::App(AppRequest::SyncPlannerTasks { tasks: vec![plan_entry(), plan_entry()] }),
        ApiRequestContract::App(AppRequest::PreparePlannerPrompt {
            message: "m".to_string(),
            planner_file: "p".to_string(),
            project_info_file: "i".to_string(),
        }),
        ApiRequestContract::App(AppRequest::WorkerCompleted { success: false, exit_code: i32::MIN }),
        ApiRequestContract::Events(metaagent::api::EventsRequest::NextEvent),
        ApiRequestContract::Workflow(WorkflowRequest::FinishActiveJob { success: true, exit_code: i32::MAX }),
        ApiRequestContract::Workflow(WorkflowRequest::ReplaceRollingContextEntries {
            entries: vec!["a".to_string(), String::new()],
        }),
        ApiRequestContract::Workflow(WorkflowRequest::RightPaneBlockView),
        ApiRequestContract::Session(SessionRequest::OpenExisting {
            cwd: "/w".to_string(),
            session_dir: "s".to_string(),
        }),
        ApiRequestContract::Session(SessionRequest::AppendTaskFails { entries: vec![failure()] }),
        ApiRequestContract::Subagent(SubagentRequest::BuildSessionIntroIfNeeded {
            prompt: "p".to_string(),
            session_dir: "d".to_string(),
            session_meta_file: "m".to_string(),
            project_info: None,
            intro_needed: true,
        }),
        ApiRequestContract::Subagent(SubagentRequest::BuildFailureReportPrompt {
            task_fails_file: "f".to_string(),
            failed_this_cycle: vec![failure()],
            has_test_failure: false,
        }),
        ApiRequestContract::Subagent(SubagentRequest::MergeTestsCommandPrompt),
    ];
    for payload in requests {
        let envelope = RequestEnvelope {
            request_id: Some("req-1".to_string()),
            capability: CapabilityId::AppExecutionControl,
            metadata: RequestMetadata { transport: Some("stdio".to_string()), actor: None },
            payload,
        };
        let value = envelope.to_json();
        assert_eq!(RequestEnvelope::<ApiRequestContract>::from_json(&value), Some(envelope.clone()));
        let text = envelope.to_json_text();
        assert_eq!(RequestEnvelope::<ApiRequestContract>::from_json_text(&text), Some(envelope));
    }
}

#[test]
fn every_response_reads_back_as_it_was_written() {
    let responses = vec![
        ApiResponseContract::App(AppResponse::Ack),
        ApiResponseContract::App(AppResponse::SubmittedChat { message: None }),
        ApiResponseContract::App(AppResponse::PlannerTasksSynced { count: 7 }),
        ApiResponseContract::App(AppResponse::StartedWorkerJob { job: Some(started_job()) }),
        ApiResponseContract::App(AppResponse::StartedWorkerJob { job: None }),
        ApiResponseContract::App(AppResponse::WorkerCompleted {
            system_messages: vec!["s".to_string()],
            new_context_entries: Vec::new(),
        }),
        ApiResponseContract::Events(EventsResponse::Event { event: AppEventContract::InputChar('ß') }),
        ApiResponseContract::Events(EventsResponse::Event {
            event: AppEventContract::MouseLeftClick { column: 65535, row: 0 },
        }),
        ApiResponseContract::Events(EventsResponse::Event { event: AppEventContract::ScrollChatDown }),
        ApiResponseContract::Workflow(WorkflowResponse::PlannerTasks { tasks: vec![plan_entry()] }),
        ApiResponseContract::Workflow(WorkflowResponse::RightPaneBlock {
            lines: vec!["l".to_string()],
            toggles: vec![RightPaneToggleContract { line_index: 3, task_key: "t".to_string() }],
        }),
        ApiResponseContract::Session(SessionResponse::Sessions {
            sessions: vec![SessionListEntryContract {
                session_dir: "d".to_string(),
                workspace: "/w".to_string(),
                title: Some("T".to_string()),
                created_at_label: None,
                created_at_epoch_secs: 10,
                last_used_epoch_secs: 20,
            }],
        }),
        ApiResponseContract::Session(SessionResponse::SessionMeta {
            meta: SessionMetaContract {
                title: "Planner Session".to_string(),
                created_at: "2026-02-16T12:00:00Z".to_string(),
                stack_description: String::new(),
                test_command: Some("cargo test".to_string()),
            },
        }),
        ApiResponseContract::Subagent(SubagentResponse::IntroPrompt {
            text: "t".to_string(),
            intro_needed_after: false,
        }),
    ];
    for data in responses {
        let envelope = ResponseEnvelope {
            request_id: None,
            capability: CapabilityId::SessionLifecycle,
            result: ApiResultEnvelope::Success { data },
        };
        let value = envelope.to_json();
        assert_eq!(ResponseEnvelope::<ApiResponseContract>::from_json(&value), Some(envelope.clone()));
        let text = envelope.to_json_text();
        assert_eq!(ResponseEnvelope::<ApiResponseContract>::from_json_text(&text), Some(envelope));
    }
}

#[test]
fn wire_names_are_small_letters_with_underscores() {
    assert_eq!(CapabilityId::SessionProjectContextStorage.to_json(), json("\"session_project_context_storage\""));
    assert_eq!(ApiErrorCode::IoFailure.to_json(), json("\"io_failure\""));
    assert_eq!(PlannerTaskStatusContract::InProgress.to_json(), json("\"in_progress\""));
    assert_eq!(WorkerRoleContract::TestWriter.to_json(), json("\"test_writer\""));
    assert_eq!(
        ApiResultEnvelope::Success { data: ApiResponseContract::App(AppResponse::Ack) }.to_json(),
        json(r#"{"status":"ok","data":{"domain":"app","response":{"kind":"ack"}}}"#)
    );
    assert_eq!(
        JobRunContract::AgentPrompt("p".to_string()).to_json(),
        json(r#"{"run_kind":"agent_prompt","payload":"p"}"#)
    );
    assert_eq!(
        AppEventContract::MouseLeftClick { column: 1, row: 2 }.to_json(),
        json(r#"{"type":"mouse_left_click","payload":{"column":1,"row":2}}"#)
    );
    assert_eq!(AppEventContract::Tick.to_json(), json(r#"{"type":"tick"}"#));
}

#[test]
fn plan_entries_take_defaults_for_what_is_missing() {
    let entry = PlannerTaskEntryContract::from_json(&json(
        r#"{"id":"a","title":"Task A","parent_id":null,"order":0,"unknown":[1,2]}"#,
    ))
    .expect("entry should deserialize");
    assert!(entry.details.is_empty());
    assert!(entry.docs.is_empty());
    assert_eq!(entry.status, PlannerTaskStatusContract::Pending);
    assert_eq!(entry.kind, PlannerTaskKindContract::Task);
    assert_eq!(entry.parent_id, None);
    assert_eq!(entry.order, Some(0));
    let entry = PlannerTaskEntryContract::from_json(&json(r#"{"id":"a","title":"T"}"#))
        .expect("entry should deserialize");
    assert_eq!(entry.order, None);
    let meta = SessionMetaContract::from_json(&json(
        r#"{"title":"Planner Session","created_at":"2026-02-16T12:00:00Z"}"#,
    ))
    .expect("session meta should parse");
    assert!(meta.stack_description.is_empty());
    assert_eq!(meta.test_command, None);
}

#[test]
fn documents_that_state_nothing_are_refused() {
    for text in [
        r#"{"domain":"workflow","request":{"action":"no_such_action"}}"#,
        r#"{"domain":"nowhere","request":{"action":"tick"}}"#,
        r#"{"domain":"workflow"}"#,
        r#"{"domain":"workflow","request":{"action":"append_active_output"}}"#,
        r#"{"domain":"workflow","request":{"action":"append_active_output","line":7}}"#,
        r#"{"domain":"workflow","request":{"action":"finish_active_job","success":true,"exit_code":2147483648}}"#,
        r#"{"domain":"workflow","request":{"action":"finish_active_job","success":"yes","exit_code":0}}"#,
        r#"{"domain":"workflow","request":{"action":"finish_active_job","success":true,"exit_code":1.5}}"#,
        r#"{"domain":"workflow","request":{"action":"replace_rolling_context_entries","entries":["a",1]}}"#,
        r#"["workflow"]"#,
        r#""workflow""#,
    ] {
        assert_eq!(ApiRequestContract::from_json(&json(text)), None, "for {text}");
    }
    for text in [
        r#"{"type":"input_char","payload":"ab"}"#,
        r#"{"type":"input_char","payload":""}"#,
        r#"{"type":"input_char"}"#,
        r#"{"type":"tick","payload":1}"#,
        r#"{"type":"mouse_left_click","payload":{"column":65536,"row":0}}"#,
        r#"{"type":"mouse_left_click","payload":{"column":-1,"row":0}}"#,
        r#"{"type":"mouse_left_click","payload":[1,2]}"#,
    ] {
        assert_eq!(AppEventContract::from_json(&json(text)), None, "for {text}");
    }
    assert_eq!(AppEventContract::from_json(&json(r#"{"type":"tick","payload":null}"#)), Some(AppEventContract::Tick));
    assert_eq!(RequestMetadata::from_json(&json("5")), None);
    assert_eq!(RequestMetadata::from_json(&json("{}")), Some(RequestMetadata::default()));
    assert_eq!(TaskFailureContract::from_json(&json(
        r#"{"kind":"test","top_task_id":1,"top_task_title":"t","attempts":256,"reason":"r","action_taken":"a"}"#,
    )), None);
    assert_eq!(RequestEnvelope::<ApiRequestContract>::from_json_text("{not json"), None);
    assert_eq!(ResponseEnvelope::<ApiResponseContract>::from_json_text(""), None);
}

#[test]
fn details_that_are_null_read_back_as_absent() {
    let error = ApiErrorEnvelope {
        code: ApiErrorCode::Internal,
        message: "m".to_string(),
        retryable: false,
        details: Some(Value::Null),
    };
    let read = ApiErrorEnvelope::from_json(&error.to_json()).expect("error should deserialize");
    assert_eq!(read.details, None);
    assert_eq!(read.message, "m");
}
