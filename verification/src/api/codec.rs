//! Writing requests and responses as JSON documents and reading them
//! back, as the wire format states it.

use super::capabilities::CapabilityId;
use super::contracts::{
    doc_views, entry_views, failure_views, ApiRequestContract, ApiResponseContract,
    AppEventContract, AppRequest, AppResponse, EventsRequest, EventsResponse, JobRunContract,
    PlannerTaskDocContract, PlannerTaskEntryContract, PlannerTaskKindContract,
    PlannerTaskStatusContract, RightPaneToggleContract, SessionListEntryContract,
    SessionMetaContract, SessionRequest, SessionResponse, SessionStoreSnapshotContract,
    StartedWorkerJobContract, SubagentRequest, SubagentResponse, TaskFailureContract,
    WorkerRoleContract, WorkflowFailureKindContract, WorkflowRequest, WorkflowResponse,
};
use super::envelope::{
    ApiErrorCode, ApiErrorEnvelope, ApiResultEnvelope, RequestEnvelope, RequestMetadata,
    ResponseEnvelope,
};
use super::json::{
    add_member, json_array, json_bool, json_get, json_i64, json_null, json_object, json_of,
    json_text, json_u64, jsons_of, members_of, new_members, parse_json, parsed, print_json, printed,
    Json,
};
use super::views::session_views;
use super::wire::{
    lemma_doc_items_stay_none, lemma_entry_items_stay_none, lemma_failure_items_stay_none,
    lemma_session_items_stay_none, lemma_text_items_stay_none, lemma_toggle_items_stay_none,
    read_api_request, read_api_response, read_app_event, read_app_request, read_app_response,
    read_capability, read_char, read_doc, read_doc_items, read_doc_list, read_entry,
    read_entry_items, read_entry_list, read_error, read_error_code, read_events_request,
    read_events_response, read_failure, read_failure_items, read_failure_kind, read_failure_list,
    read_i32, read_metadata, read_request, read_response, read_result, read_role, read_run,
    read_session, read_session_items, read_session_list, read_session_meta, read_session_request,
    read_session_response, read_snapshot, read_started_job, read_subagent_request,
    read_subagent_response, read_task_kind, read_task_status, read_text, read_text_items,
    read_text_list, read_toggle, read_toggle_items, read_toggle_list, read_u16, read_u32, read_u64,
    read_u8, read_usize, read_workflow_request, read_workflow_response, write_api_request,
    write_api_response, write_app_event, write_app_request, write_app_response, write_capability,
    write_doc, write_doc_list, write_entry, write_entry_list, write_error, write_error_code,
    write_events_request, write_events_response, write_failure, write_failure_kind,
    write_failure_list, write_metadata, write_request, write_response, write_result, write_role,
    write_run, write_session, write_session_list, write_session_meta, write_session_request,
    write_session_response, write_snapshot, write_started_job, write_subagent_request,
    write_subagent_response, write_task_kind, write_task_status, write_text_list, write_toggle,
    write_toggle_list, write_workflow_request, write_workflow_response,
};
use crate::text::{same_text, texts};
use crate::workflow::pane::toggle_views;
use vstd::prelude::*;
use vstd::string::{StringExecFns, StrSliceExecFns};

verus! {

/// Puts a member into an object under construction.
pub(crate) fn put(
    members: &mut serde_json::Map<String, serde_json::Value>,
    key: &str,
    value: serde_json::Value,
)
    ensures
        members_of(*final(members)) == members_of(*old(members)).insert(key@, json_of(value)),
{
    add_member(members, String::from_str(key), value);
}

/// The text that a JSON value states.
pub fn text_from_json(value: &serde_json::Value) -> (read: Option<String>)
    ensures
        match read {
            Some(s) => read_text(json_of(*value)) == Some(s@),
            None => read_text(json_of(*value)) is None,
        },
{
    match value.as_str() {
        Some(s) => Some(String::from_str(s)),
        None => None,
    }
}

/// The `u64` that a JSON value states.
pub fn u64_from_json(value: &serde_json::Value) -> (read: Option<u64>)
    ensures
        read == read_u64(json_of(*value)),
{
    value.as_u64()
}

/// The `u32` that a JSON value states.
pub fn u32_from_json(value: &serde_json::Value) -> (read: Option<u32>)
    ensures
        read == read_u32(json_of(*value)),
{
    match value.as_u64() {
        Some(n) => {
            if n <= 0xffff_ffff {
                Some(n as u32)
            } else {
                None
            }
        },
        None => None,
    }
}

/// The `u16` that a JSON value states.
pub fn u16_from_json(value: &serde_json::Value) -> (read: Option<u16>)
    ensures
        read == read_u16(json_of(*value)),
{
    match value.as_u64() {
        Some(n) => {
            if n <= 0xffff {
                Some(n as u16)
            } else {
                None
            }
        },
        None => None,
    }
}

/// The `u8` that a JSON value states.
pub fn u8_from_json(value: &serde_json::Value) -> (read: Option<u8>)
    ensures
        read == read_u8(json_of(*value)),
{
    match value.as_u64() {
        Some(n) => {
            if n <= 0xff {
                Some(n as u8)
            } else {
                None
            }
        },
        None => None,
    }
}

/// The `usize` that a JSON value states.
pub fn usize_from_json(value: &serde_json::Value) -> (read: Option<usize>)
    ensures
        read == read_usize(json_of(*value)),
{
    match value.as_u64() {
        Some(n) => {
            if n <= usize::MAX as u64 {
                Some(n as usize)
            } else {
                None
            }
        },
        None => None,
    }
}

/// The `i32` that a JSON value states.
pub fn i32_from_json(value: &serde_json::Value) -> (read: Option<i32>)
    ensures
        read == read_i32(json_of(*value)),
{
    match value.as_i64() {
        Some(n) => {
            if -0x8000_0000 <= n && n <= 0x7fff_ffff {
                Some(n as i32)
            } else {
                None
            }
        },
        None => None,
    }
}

/// The character that a JSON value states.
pub fn char_from_json(value: &serde_json::Value) -> (read: Option<char>)
    ensures
        read == read_char(json_of(*value)),
{
    match value.as_str() {
        Some(s) => {
            if s.unicode_len() == 1 {
                Some(s.get_char(0))
            } else {
                None
            }
        },
        None => None,
    }
}

/// A character as a JSON value: the text that holds it alone.
pub fn char_to_json(c: char) -> (value: serde_json::Value)
    ensures
        json_of(value) == Json::Text(seq![c]),
{
    let mut s = String::new();
    s.push(c);
    assert(s@ =~= seq![c]);
    json_text(s)
}

/// A list of texts as a JSON array.
pub fn text_list_to_json(items: &Vec<String>) -> (value: serde_json::Value)
    ensures
        json_of(value) == write_text_list(texts(items@)),
{
    let mut values: Vec<serde_json::Value> = Vec::new();
    let mut i: usize = 0;
    while i < items.len()
        invariant
            i <= items.len(),
            values@.len() == i,
            forall|k: int| 0 <= k < i ==> json_of(#[trigger] values@[k]) == Json::Text(items@[k]@),
        decreases items.len() - i,
    {
        values.push(json_text(items[i].clone()));
        i += 1;
    }
    assert(jsons_of(values@) =~= write_text_list(texts(items@))->Array_0);
    json_array(values)
}

/// The list of texts that a JSON array states, none where the document is
/// no array or one of its items is no text.
pub fn text_list_from_json(value: &serde_json::Value) -> (read: Option<Vec<String>>)
    ensures
        match read {
            Some(items) => read_text_list(json_of(*value)) == Some(texts(items@)),
            None => read_text_list(json_of(*value)) is None,
        },
{
    let values = match value.as_array() {
        Some(values) => values,
        None => {
            return None;
        },
    };
    let ghost all = jsons_of(values@);
    let mut items: Vec<String> = Vec::new();
    let mut i: usize = 0;
    assert(all.take(0) =~= Seq::empty());
    assert(texts(items@) =~= Seq::empty());
    while i < values.len()
        invariant
            i <= values.len(),
            all == jsons_of(values@),
            json_of(*value) == Json::Array(all),
            read_text_items(all.take(i as int)) == Some(texts(items@)),
        decreases values.len() - i,
    {
        proof {
            assert(all.take(i + 1).drop_last() == all.take(i as int));
            assert(all.take(i + 1).last() == json_of(values@[i as int]));
        }
        match text_from_json(&values[i]) {
            Some(item) => {
                let ghost earlier = texts(items@);
                items.push(item);
                assert(texts(items@) =~= earlier.push(item@));
            },
            None => {
                proof {
                    lemma_text_items_stay_none(all, i + 1);
                }
                return None;
            },
        }
        i += 1;
    }
    assert(all.take(i as int) == all);
    Some(items)
}

/// A list without items.
pub(crate) fn no_texts() -> (items: Vec<String>)
    ensures
        texts(items@) == Seq::<Seq<char>>::empty(),
{
    let items: Vec<String> = Vec::new();
    assert(texts(items@) =~= Seq::empty());
    items
}

/// A list without documents.
fn no_docs() -> (items: Vec<PlannerTaskDocContract>)
    ensures
        doc_views(items@) == Seq::<super::contracts::DocView>::empty(),
{
    let items: Vec<PlannerTaskDocContract> = Vec::new();
    assert(doc_views(items@) =~= Seq::empty());
    items
}

impl CapabilityId {
    /// This value as a JSON document of the wire format.
    pub fn to_json(&self) -> (value: serde_json::Value)
        ensures
            json_of(value) == write_capability(*self),
    {
        match self {
            CapabilityId::AppPromptPreparation => {
                json_text(String::from_str("app_prompt_preparation"))
            },
            CapabilityId::AppPlannerStateSync => {
                json_text(String::from_str("app_planner_state_sync"))
            },
            CapabilityId::AppExecutionControl => {
                json_text(String::from_str("app_execution_control"))
            },
            CapabilityId::EventPolling => json_text(String::from_str("event_polling")),
            CapabilityId::WorkflowTaskGraphSync => {
                json_text(String::from_str("workflow_task_graph_sync"))
            },
            CapabilityId::WorkflowExecutionQueue => {
                json_text(String::from_str("workflow_execution_queue"))
            },
            CapabilityId::WorkflowContextProjection => {
                json_text(String::from_str("workflow_context_projection"))
            },
            CapabilityId::SessionLifecycle => json_text(String::from_str("session_lifecycle")),
            CapabilityId::SessionPlannerStorage => {
                json_text(String::from_str("session_planner_storage"))
            },
            CapabilityId::SessionFailureStorage => {
                json_text(String::from_str("session_failure_storage"))
            },
            CapabilityId::SessionProjectContextStorage => {
                json_text(String::from_str("session_project_context_storage"))
            },
            CapabilityId::SubagentPromptGeneration => {
                json_text(String::from_str("subagent_prompt_generation"))
            },
        }
    }

    /// The value that a JSON document of the wire format states, none
    /// where it states none.
    pub fn from_json(value: &serde_json::Value) -> (read: Option<Self>)
        ensures
            match read {
                Some(x) => read_capability(json_of(*value)) == Some(x),
                None => read_capability(json_of(*value)) is None,
            },
    {
        let name = match value.as_str() {
            Some(name) => name,
            None => {
                return None;
            },
        };
        if same_text(name, "app_prompt_preparation") {
            Some(CapabilityId::AppPromptPreparation)
        } else if same_text(name, "app_planner_state_sync") {
            Some(CapabilityId::AppPlannerStateSync)
        } else if same_text(name, "app_execution_control") {
            Some(CapabilityId::AppExecutionControl)
        } else if same_text(name, "event_polling") {
            Some(CapabilityId::EventPolling)
        } else if same_text(name, "workflow_task_graph_sync") {
            Some(CapabilityId::WorkflowTaskGraphSync)
        } else if same_text(name, "workflow_execution_queue") {
            Some(CapabilityId::WorkflowExecutionQueue)
        } else if same_text(name, "workflow_context_projection") {
            Some(CapabilityId::WorkflowContextProjection)
        } else if same_text(name, "session_lifecycle") {
            Some(CapabilityId::SessionLifecycle)
        } else if same_text(name, "session_planner_storage") {
            Some(CapabilityId::SessionPlannerStorage)
        } else if same_text(name, "session_failure_storage") {
            Some(CapabilityId::SessionFailureStorage)
        } else if same_text(name, "session_project_context_storage") {
            Some(CapabilityId::SessionProjectContextStorage)
        } else if same_text(name, "subagent_prompt_generation") {
            Some(CapabilityId::SubagentPromptGeneration)
        } else {
            None
        }
    }
}

impl ApiErrorCode {
    /// This value as a JSON document of the wire format.
    pub fn to_json(&self) -> (value: serde_json::Value)
        ensures
            json_of(value) == write_error_code(*self),
    {
        match self {
            ApiErrorCode::InvalidRequest => json_text(String::from_str("invalid_request")),
            ApiErrorCode::ValidationFailed => json_text(String::from_str("validation_failed")),
            ApiErrorCode::NotFound => json_text(String::from_str("not_found")),
            ApiErrorCode::Conflict => json_text(String::from_str("conflict")),
            ApiErrorCode::IoFailure => json_text(String::from_str("io_failure")),
            ApiErrorCode::ExternalFailure => json_text(String::from_str("external_failure")),
            ApiErrorCode::Unsupported => json_text(String::from_str("unsupported")),
            ApiErrorCode::Internal => json_text(String::from_str("internal")),
        }
    }

    /// The value that a JSON document of the wire format states, none
    /// where it states none.
    pub fn from_json(value: &serde_json::Value) -> (read: Option<Self>)
        ensures
            match read {
                Some(x) => read_error_code(json_of(*value)) == Some(x),
                None => read_error_code(json_of(*value)) is None,
            },
    {
        let name = match value.as_str() {
            Some(name) => name,
            None => {
                return None;
            },
        };
        if same_text(name, "invalid_request") {
            Some(ApiErrorCode::InvalidRequest)
        } else if same_text(name, "validation_failed") {
            Some(ApiErrorCode::ValidationFailed)
        } else if same_text(name, "not_found") {
            Some(ApiErrorCode::NotFound)
        } else if same_text(name, "conflict") {
            Some(ApiErrorCode::Conflict)
        } else if same_text(name, "io_failure") {
            Some(ApiErrorCode::IoFailure)
        } else if same_text(name, "external_failure") {
            Some(ApiErrorCode::ExternalFailure)
        } else if same_text(name, "unsupported") {
            Some(ApiErrorCode::Unsupported)
        } else if same_text(name, "internal") {
            Some(ApiErrorCode::Internal)
        } else {
            None
        }
    }
}

impl WorkerRoleContract {
    /// This value as a JSON document of the wire format.
    pub fn to_json(&self) -> (value: serde_json::Value)
        ensures
            json_of(value) == write_role(*self),
    {
        match self {
            WorkerRoleContract::Implementor => json_text(String::from_str("implementor")),
            WorkerRoleContract::Auditor => json_text(String::from_str("auditor")),
            WorkerRoleContract::TestWriter => json_text(String::from_str("test_writer")),
            WorkerRoleContract::TestRunner => json_text(String::from_str("test_runner")),
            WorkerRoleContract::FinalAudit => json_text(String::from_str("final_audit")),
        }
    }

    /// The value that a JSON document of the wire format states, none
    /// where it states none.
    pub fn from_json(value: &serde_json::Value) -> (read: Option<Self>)
        ensures
            match read {
                Some(x) => read_role(json_of(*value)) == Some(x),
                None => read_role(json_of(*value)) is None,
            },
    {
        let name = match value.as_str() {
            Some(name) => name,
            None => {
                return None;
            },
        };
        if same_text(name, "implementor") {
            Some(WorkerRoleContract::Implementor)
        } else if same_text(name, "auditor") {
            Some(WorkerRoleContract::Auditor)
        } else if same_text(name, "test_writer") {
            Some(WorkerRoleContract::TestWriter)
        } else if same_text(name, "test_runner") {
            Some(WorkerRoleContract::TestRunner)
        } else if same_text(name, "final_audit") {
            Some(WorkerRoleContract::FinalAudit)
        } else {
            None
        }
    }
}

impl PlannerTaskKindContract {
    /// This value as a JSON document of the wire format.
    pub fn to_json(&self) -> (value: serde_json::Value)
        ensures
            json_of(value) == write_task_kind(*self),
    {
        match self {
            PlannerTaskKindContract::Task => json_text(String::from_str("task")),
            PlannerTaskKindContract::Implementor => json_text(String::from_str("implementor")),
            PlannerTaskKindContract::Auditor => json_text(String::from_str("auditor")),
            PlannerTaskKindContract::TestWriter => json_text(String::from_str("test_writer")),
            PlannerTaskKindContract::TestRunner => json_text(String::from_str("test_runner")),
            PlannerTaskKindContract::FinalAudit => json_text(String::from_str("final_audit")),
        }
    }

    /// The value that a JSON document of the wire format states, none
    /// where it states none.
    pub fn from_json(value: &serde_json::Value) -> (read: Option<Self>)
        ensures
            match read {
                Some(x) => read_task_kind(json_of(*value)) == Some(x),
                None => read_task_kind(json_of(*value)) is None,
            },
    {
        let name = match value.as_str() {
            Some(name) => name,
            None => {
                return None;
            },
        };
        if same_text(name, "task") {
            Some(PlannerTaskKindContract::Task)
        } else if same_text(name, "implementor") {
            Some(PlannerTaskKindContract::Implementor)
        } else if same_text(name, "auditor") {
            Some(PlannerTaskKindContract::Auditor)
        } else if same_text(name, "test_writer") {
            Some(PlannerTaskKindContract::TestWriter)
        } else if same_text(name, "test_runner") {
            Some(PlannerTaskKindContract::TestRunner)
        } else if same_text(name, "final_audit") {
            Some(PlannerTaskKindContract::FinalAudit)
        } else {
            None
        }
    }
}

impl PlannerTaskStatusContract {
    /// This value as a JSON document of the wire format.
    pub fn to_json(&self) -> (value: serde_json::Value)
        ensures
            json_of(value) == write_task_status(*self),
    {
        match self {
            PlannerTaskStatusContract::Pending => json_text(String::from_str("pending")),
            PlannerTaskStatusContract::InProgress => json_text(String::from_str("in_progress")),
            PlannerTaskStatusContract::NeedsChanges => json_text(String::from_str("needs_changes")),
            PlannerTaskStatusContract::Done => json_text(String::from_str("done")),
        }
    }

    /// The value that a JSON document of the wire format states, none
    /// where it states none.
    pub fn from_json(value: &serde_json::Value) -> (read: Option<Self>)
        ensures
            match read {
                Some(x) => read_task_status(json_of(*value)) == Some(x),
                None => read_task_status(json_of(*value)) is None,
            },
    {
        let name = match value.as_str() {
            Some(name) => name,
            None => {
                return None;
            },
        };
        if same_text(name, "pending") {
            Some(PlannerTaskStatusContract::Pending)
        } else if same_text(name, "in_progress") {
            Some(PlannerTaskStatusContract::InProgress)
        } else if same_text(name, "needs_changes") {
            Some(PlannerTaskStatusContract::NeedsChanges)
        } else if same_text(name, "done") {
            Some(PlannerTaskStatusContract::Done)
        } else {
            None
        }
    }
}

impl WorkflowFailureKindContract {
    /// This value as a JSON document of the wire format.
    pub fn to_json(&self) -> (value: serde_json::Value)
        ensures
            json_of(value) == write_failure_kind(*self),
    {
        match self {
            WorkflowFailureKindContract::Audit => json_text(String::from_str("audit")),
            WorkflowFailureKindContract::Test => json_text(String::from_str("test")),
        }
    }

    /// The value that a JSON document of the wire format states, none
    /// where it states none.
    pub fn from_json(value: &serde_json::Value) -> (read: Option<Self>)
        ensures
            match read {
                Some(x) => read_failure_kind(json_of(*value)) == Some(x),
                None => read_failure_kind(json_of(*value)) is None,
            },
    {
        let name = match value.as_str() {
            Some(name) => name,
            None => {
                return None;
            },
        };
        if same_text(name, "audit") {
            Some(WorkflowFailureKindContract::Audit)
        } else if same_text(name, "test") {
            Some(WorkflowFailureKindContract::Test)
        } else {
            None
        }
    }
}

impl PlannerTaskDocContract {
    /// This value as a JSON document of the wire format.
    pub fn to_json(&self) -> (value: serde_json::Value)
        ensures
            json_of(value) == write_doc(self@),
    {
        let mut members = new_members();
        put(&mut members, "title", json_text(self.title.clone()));
        put(&mut members, "url", json_text(self.url.clone()));
        put(&mut members, "summary", json_text(self.summary.clone()));
        json_object(members)
    }

    /// The value that a JSON document of the wire format states, none
    /// where it states none.
    pub fn from_json(value: &serde_json::Value) -> (read: Option<Self>)
        ensures
            match read {
                Some(x) => read_doc(json_of(*value)) == Some(x@),
                None => read_doc(json_of(*value)) is None,
            },
    {
        if !value.is_object() {
            return None;
        }
        let title = match json_get(value, "title") {
            None => {
                return None;
            },
            Some(x) => match text_from_json(x) {
                Some(v) => v,
                None => {
                    return None;
                },
            },
        };
        let url = match json_get(value, "url") {
            None => {
                return None;
            },
            Some(x) => match text_from_json(x) {
                Some(v) => v,
                None => {
                    return None;
                },
            },
        };
        let summary = match json_get(value, "summary") {
            None => String::new(),
            Some(x) => match text_from_json(x) {
                Some(v) => v,
                None => {
                    return None;
                },
            },
        };
        Some(PlannerTaskDocContract { title, url, summary })
    }
}

/// A list of [`PlannerTaskDocContract`] as a JSON array.
pub fn doc_list_to_json(items: &Vec<PlannerTaskDocContract>) -> (value: serde_json::Value)
    ensures
        json_of(value) == write_doc_list(doc_views(items@)),
{
    let mut values: Vec<serde_json::Value> = Vec::new();
    let mut i: usize = 0;
    while i < items.len()
        invariant
            i <= items.len(),
            values@.len() == i,
            forall|k: int| 0 <= k < i ==> json_of(#[trigger] values@[k]) == write_doc(items@[k]@),
        decreases items.len() - i,
    {
        values.push(items[i].to_json());
        i += 1;
    }
    assert(jsons_of(values@) =~= write_doc_list(doc_views(items@))->Array_0);
    json_array(values)
}

/// The list of [`PlannerTaskDocContract`] that a JSON array states, none where the document
/// is no array or one of its items states none.
pub fn doc_list_from_json(value: &serde_json::Value) -> (read: Option<Vec<PlannerTaskDocContract>>)
    ensures
        match read {
            Some(items) => read_doc_list(json_of(*value)) == Some(doc_views(items@)),
            None => read_doc_list(json_of(*value)) is None,
        },
{
    let values = match value.as_array() {
        Some(values) => values,
        None => {
            return None;
        },
    };
    let ghost all = jsons_of(values@);
    let mut items: Vec<PlannerTaskDocContract> = Vec::new();
    let mut i: usize = 0;
    assert(all.take(0) =~= Seq::empty());
    assert(doc_views(items@) =~= Seq::empty());
    while i < values.len()
        invariant
            i <= values.len(),
            all == jsons_of(values@),
            json_of(*value) == Json::Array(all),
            read_doc_items(all.take(i as int)) == Some(doc_views(items@)),
        decreases values.len() - i,
    {
        proof {
            assert(all.take(i + 1).drop_last() == all.take(i as int));
            assert(all.take(i + 1).last() == json_of(values@[i as int]));
        }
        match PlannerTaskDocContract::from_json(&values[i]) {
            Some(item) => {
                let ghost earlier = doc_views(items@);
                items.push(item);
                assert(doc_views(items@) =~= earlier.push(item@));
            },
            None => {
                proof {
                    lemma_doc_items_stay_none(all, i + 1);
                }
                return None;
            },
        }
        i += 1;
    }
    assert(all.take(i as int) == all);
    Some(items)
}

impl PlannerTaskEntryContract {
    /// This value as a JSON document of the wire format.
    pub fn to_json(&self) -> (value: serde_json::Value)
        ensures
            json_of(value) == write_entry(self@),
    {
        let mut members = new_members();
        put(&mut members, "id", json_text(self.id.clone()));
        put(&mut members, "title", json_text(self.title.clone()));
        put(&mut members, "details", json_text(self.details.clone()));
        put(&mut members, "docs", doc_list_to_json(&self.docs));
        put(&mut members, "kind", self.kind.to_json());
        put(&mut members, "status", self.status.to_json());
        put(
            &mut members,
            "parent_id",
            match &self.parent_id {
                Some(x) => json_text(x.clone()),
                None => json_null(),
            },
        );
        put(
            &mut members,
            "order",
            match &self.order {
                Some(x) => json_u64(*x as u64),
                None => json_null(),
            },
        );
        json_object(members)
    }

    /// The value that a JSON document of the wire format states, none
    /// where it states none.
    pub fn from_json(value: &serde_json::Value) -> (read: Option<Self>)
        ensures
            match read {
                Some(x) => read_entry(json_of(*value)) == Some(x@),
                None => read_entry(json_of(*value)) is None,
            },
    {
        if !value.is_object() {
            return None;
        }
        let id = match json_get(value, "id") {
            None => {
                return None;
            },
            Some(x) => match text_from_json(x) {
                Some(v) => v,
                None => {
                    return None;
                },
            },
        };
        let title = match json_get(value, "title") {
            None => {
                return None;
            },
            Some(x) => match text_from_json(x) {
                Some(v) => v,
                None => {
                    return None;
                },
            },
        };
        let details = match json_get(value, "details") {
            None => String::new(),
            Some(x) => match text_from_json(x) {
                Some(v) => v,
                None => {
                    return None;
                },
            },
        };
        let docs = match json_get(value, "docs") {
            None => no_docs(),
            Some(x) => match doc_list_from_json(x) {
                Some(v) => v,
                None => {
                    return None;
                },
            },
        };
        let kind = match json_get(value, "kind") {
            None => PlannerTaskKindContract::Task,
            Some(x) => match PlannerTaskKindContract::from_json(x) {
                Some(v) => v,
                None => {
                    return None;
                },
            },
        };
        let status = match json_get(value, "status") {
            None => PlannerTaskStatusContract::Pending,
            Some(x) => match PlannerTaskStatusContract::from_json(x) {
                Some(v) => v,
                None => {
                    return None;
                },
            },
        };
        let parent_id = match json_get(value, "parent_id") {
            None => None,
            Some(x) => {
                if x.is_null() {
                    None
                } else {
                    match text_from_json(x) {
                        Some(v) => Some(v),
                        None => {
                            return None;
                        },
                    }
                }
            },
        };
        let order = match json_get(value, "order") {
            None => None,
            Some(x) => {
                if x.is_null() {
                    None
                } else {
                    match u32_from_json(x) {
                        Some(v) => Some(v),
                        None => {
                            return None;
                        },
                    }
                }
            },
        };
        Some(PlannerTaskEntryContract { id, title, details, docs, kind, status, parent_id, order })
    }
}

/// A list of [`PlannerTaskEntryContract`] as a JSON array.
pub fn entry_list_to_json(items: &Vec<PlannerTaskEntryContract>) -> (value: serde_json::Value)
    ensures
        json_of(value) == write_entry_list(entry_views(items@)),
{
    let mut values: Vec<serde_json::Value> = Vec::new();
    let mut i: usize = 0;
    while i < items.len()
        invariant
            i <= items.len(),
            values@.len() == i,
            forall|k: int| 0 <= k < i ==> json_of(#[trigger] values@[k]) == write_entry(items@[k]@),
        decreases items.len() - i,
    {
        values.push(items[i].to_json());
        i += 1;
    }
    assert(jsons_of(values@) =~= write_entry_list(entry_views(items@))->Array_0);
    json_array(values)
}

/// The list of [`PlannerTaskEntryContract`] that a JSON array states, none where the document
/// is no array or one of its items states none.
pub fn entry_list_from_json(
    value: &serde_json::Value,
) -> (read: Option<Vec<PlannerTaskEntryContract>>)
    ensures
        match read {
            Some(items) => read_entry_list(json_of(*value)) == Some(entry_views(items@)),
            None => read_entry_list(json_of(*value)) is None,
        },
{
    let values = match value.as_array() {
        Some(values) => values,
        None => {
            return None;
        },
    };
    let ghost all = jsons_of(values@);
    let mut items: Vec<PlannerTaskEntryContract> = Vec::new();
    let mut i: usize = 0;
    assert(all.take(0) =~= Seq::empty());
    assert(entry_views(items@) =~= Seq::empty());
    while i < values.len()
        invariant
            i <= values.len(),
            all == jsons_of(values@),
            json_of(*value) == Json::Array(all),
            read_entry_items(all.take(i as int)) == Some(entry_views(items@)),
        decreases values.len() - i,
    {
        proof {
            assert(all.take(i + 1).drop_last() == all.take(i as int));
            assert(all.take(i + 1).last() == json_of(values@[i as int]));
        }
        match PlannerTaskEntryContract::from_json(&values[i]) {
            Some(item) => {
                let ghost earlier = entry_views(items@);
                items.push(item);
                assert(entry_views(items@) =~= earlier.push(item@));
            },
            None => {
                proof {
                    lemma_entry_items_stay_none(all, i + 1);
                }
                return None;
            },
        }
        i += 1;
    }
    assert(all.take(i as int) == all);
    Some(items)
}

impl TaskFailureContract {
    /// This value as a JSON document of the wire format.
    pub fn to_json(&self) -> (value: serde_json::Value)
        ensures
            json_of(value) == write_failure(self@),
    {
        let mut members = new_members();
        put(&mut members, "kind", self.kind.to_json());
        put(&mut members, "top_task_id", json_u64(self.top_task_id));
        put(&mut members, "top_task_title", json_text(self.top_task_title.clone()));
        put(&mut members, "attempts", json_u64(self.attempts as u64));
        put(&mut members, "reason", json_text(self.reason.clone()));
        put(&mut members, "action_taken", json_text(self.action_taken.clone()));
        json_object(members)
    }

    /// The value that a JSON document of the wire format states, none
    /// where it states none.
    pub fn from_json(value: &serde_json::Value) -> (read: Option<Self>)
        ensures
            match read {
                Some(x) => read_failure(json_of(*value)) == Some(x@),
                None => read_failure(json_of(*value)) is None,
            },
    {
        if !value.is_object() {
            return None;
        }
        let kind = match json_get(value, "kind") {
            None => {
                return None;
            },
            Some(x) => match WorkflowFailureKindContract::from_json(x) {
                Some(v) => v,
                None => {
                    return None;
                },
            },
        };
        let top_task_id = match json_get(value, "top_task_id") {
            None => {
                return None;
            },
            Some(x) => match u64_from_json(x) {
                Some(v) => v,
                None => {
                    return None;
                },
            },
        };
        let top_task_title = match json_get(value, "top_task_title") {
            None => {
                return None;
            },
            Some(x) => match text_from_json(x) {
                Some(v) => v,
                None => {
                    return None;
                },
            },
        };
        let attempts = match json_get(value, "attempts") {
            None => {
                return None;
            },
            Some(x) => match u8_from_json(x) {
                Some(v) => v,
                None => {
                    return None;
                },
            },
        };
        let reason = match json_get(value, "reason") {
            None => {
                return None;
            },
            Some(x) => match text_from_json(x) {
                Some(v) => v,
                None => {
                    return None;
                },
            },
        };
        let action_taken = match json_get(value, "action_taken") {
            None => {
                return None;
            },
            Some(x) => match text_from_json(x) {
                Some(v) => v,
                None => {
                    return None;
                },
            },
        };
        Some(
            TaskFailureContract {
                kind,
                top_task_id,
                top_task_title,
                attempts,
                reason,
                action_taken,
            },
        )
    }
}

/// A list of [`TaskFailureContract`] as a JSON array.
pub fn failure_list_to_json(items: &Vec<TaskFailureContract>) -> (value: serde_json::Value)
    ensures
        json_of(value) == write_failure_list(failure_views(items@)),
{
    let mut values: Vec<serde_json::Value> = Vec::new();
    let mut i: usize = 0;
    while i < items.len()
        invariant
            i <= items.len(),
            values@.len() == i,
            forall|k: int| 0 <= k < i ==>
                json_of(#[trigger] values@[k]) == write_failure(items@[k]@),
        decreases items.len() - i,
    {
        values.push(items[i].to_json());
        i += 1;
    }
    assert(jsons_of(values@) =~= write_failure_list(failure_views(items@))->Array_0);
    json_array(values)
}

/// The list of [`TaskFailureContract`] that a JSON array states, none where the document
/// is no array or one of its items states none.
pub fn failure_list_from_json(value: &serde_json::Value) -> (read: Option<Vec<TaskFailureContract>>)
    ensures
        match read {
            Some(items) => read_failure_list(json_of(*value)) == Some(failure_views(items@)),
            None => read_failure_list(json_of(*value)) is None,
        },
{
    let values = match value.as_array() {
        Some(values) => values,
        None => {
            return None;
        },
    };
    let ghost all = jsons_of(values@);
    let mut items: Vec<TaskFailureContract> = Vec::new();
    let mut i: usize = 0;
    assert(all.take(0) =~= Seq::empty());
    assert(failure_views(items@) =~= Seq::empty());
    while i < values.len()
        invariant
            i <= values.len(),
            all == jsons_of(values@),
            json_of(*value) == Json::Array(all),
            read_failure_items(all.take(i as int)) == Some(failure_views(items@)),
        decreases values.len() - i,
    {
        proof {
            assert(all.take(i + 1).drop_last() == all.take(i as int));
            assert(all.take(i + 1).last() == json_of(values@[i as int]));
        }
        match TaskFailureContract::from_json(&values[i]) {
            Some(item) => {
                let ghost earlier = failure_views(items@);
                items.push(item);
                assert(failure_views(items@) =~= earlier.push(item@));
            },
            None => {
                proof {
                    lemma_failure_items_stay_none(all, i + 1);
                }
                return None;
            },
        }
        i += 1;
    }
    assert(all.take(i as int) == all);
    Some(items)
}

impl JobRunContract {
    /// This value as a JSON document of the wire format.
    pub fn to_json(&self) -> (value: serde_json::Value)
        ensures
            json_of(value) == write_run(self@),
    {
        let mut members = new_members();
        match self {
            JobRunContract::AgentPrompt(x) => {
                put(&mut members, "run_kind", json_text(String::from_str("agent_prompt")));
                put(&mut members, "payload", json_text(x.clone()));
            },
            JobRunContract::DeterministicTestRun => {
                put(
                    &mut members,
                    "run_kind",
                    json_text(String::from_str("deterministic_test_run")),
                );
            },
        }
        json_object(members)
    }

    /// The value that a JSON document of the wire format states, none
    /// where it states none.
    pub fn from_json(value: &serde_json::Value) -> (read: Option<Self>)
        ensures
            match read {
                Some(x) => read_run(json_of(*value)) == Some(x@),
                None => read_run(json_of(*value)) is None,
            },
    {
        let name = match json_get(value, "run_kind") {
            Some(tag) => match tag.as_str() {
                Some(name) => name,
                None => {
                    return None;
                },
            },
            None => {
                return None;
            },
        };
        if same_text(name, "agent_prompt") {
            match json_get(value, "payload") {
                Some(x) => match text_from_json(x) {
                    Some(carried) => Some(JobRunContract::AgentPrompt(carried)),
                    None => None,
                },
                None => None,
            }
        } else if same_text(name, "deterministic_test_run") {
            match json_get(value, "payload") {
                None => Some(JobRunContract::DeterministicTestRun),
                Some(x) => {
                    if x.is_null() {
                        Some(JobRunContract::DeterministicTestRun)
                    } else {
                        None
                    }
                },
            }
        } else {
            None
        }
    }
}

impl StartedWorkerJobContract {
    /// This value as a JSON document of the wire format.
    pub fn to_json(&self) -> (value: serde_json::Value)
        ensures
            json_of(value) == write_started_job(self@),
    {
        let mut members = new_members();
        put(&mut members, "run", self.run.to_json());
        put(&mut members, "role", self.role.to_json());
        put(&mut members, "top_task_id", json_u64(self.top_task_id));
        put(
            &mut members,
            "parent_context_key",
            match &self.parent_context_key {
                Some(x) => json_text(x.clone()),
                None => json_null(),
            },
        );
        json_object(members)
    }

    /// The value that a JSON document of the wire format states, none
    /// where it states none.
    pub fn from_json(value: &serde_json::Value) -> (read: Option<Self>)
        ensures
            match read {
                Some(x) => read_started_job(json_of(*value)) == Some(x@),
                None => read_started_job(json_of(*value)) is None,
            },
    {
        if !value.is_object() {
            return None;
        }
        let run = match json_get(value, "run") {
            None => {
                return None;
            },
            Some(x) => match JobRunContract::from_json(x) {
                Some(v) => v,
                None => {
                    return None;
                },
            },
        };
        let role = match json_get(value, "role") {
            None => {
                return None;
            },
            Some(x) => match WorkerRoleContract::from_json(x) {
                Some(v) => v,
                None => {
                    return None;
                },
            },
        };
        let top_task_id = match json_get(value, "top_task_id") {
            None => {
                return None;
            },
            Some(x) => match u64_from_json(x) {
                Some(v) => v,
                None => {
                    return None;
                },
            },
        };
        let parent_context_key = match json_get(value, "parent_context_key") {
            None => None,
            Some(x) => {
                if x.is_null() {
                    None
                } else {
                    match text_from_json(x) {
                        Some(v) => Some(v),
                        None => {
                            return None;
                        },
                    }
                }
            },
        };
        Some(StartedWorkerJobContract { run, role, top_task_id, parent_context_key })
    }
}

impl RightPaneToggleContract {
    /// This value as a JSON document of the wire format.
    pub fn to_json(&self) -> (value: serde_json::Value)
        ensures
            json_of(value) == write_toggle(self@),
    {
        let mut members = new_members();
        put(&mut members, "line_index", json_u64(self.line_index as u64));
        put(&mut members, "task_key", json_text(self.task_key.clone()));
        json_object(members)
    }

    /// The value that a JSON document of the wire format states, none
    /// where it states none.
    pub fn from_json(value: &serde_json::Value) -> (read: Option<Self>)
        ensures
            match read {
                Some(x) => read_toggle(json_of(*value)) == Some(x@),
                None => read_toggle(json_of(*value)) is None,
            },
    {
        if !value.is_object() {
            return None;
        }
        let line_index = match json_get(value, "line_index") {
            None => {
                return None;
            },
            Some(x) => match usize_from_json(x) {
                Some(v) => v,
                None => {
                    return None;
                },
            },
        };
        let task_key = match json_get(value, "task_key") {
            None => {
                return None;
            },
            Some(x) => match text_from_json(x) {
                Some(v) => v,
                None => {
                    return None;
                },
            },
        };
        Some(RightPaneToggleContract { line_index, task_key })
    }
}

/// A list of [`RightPaneToggleContract`] as a JSON array.
pub fn toggle_list_to_json(items: &Vec<RightPaneToggleContract>) -> (value: serde_json::Value)
    ensures
        json_of(value) == write_toggle_list(toggle_views(items@)),
{
    let mut values: Vec<serde_json::Value> = Vec::new();
    let mut i: usize = 0;
    while i < items.len()
        invariant
            i <= items.len(),
            values@.len() == i,
            forall|k: int| 0 <= k < i ==>
                json_of(#[trigger] values@[k]) == write_toggle(items@[k]@),
        decreases items.len() - i,
    {
        values.push(items[i].to_json());
        i += 1;
    }
    assert(jsons_of(values@) =~= write_toggle_list(toggle_views(items@))->Array_0);
    json_array(values)
}

/// The list of [`RightPaneToggleContract`] that a JSON array states, none where the document
/// is no array or one of its items states none.
pub fn toggle_list_from_json(
    value: &serde_json::Value,
) -> (read: Option<Vec<RightPaneToggleContract>>)
    ensures
        match read {
            Some(items) => read_toggle_list(json_of(*value)) == Some(toggle_views(items@)),
            None => read_toggle_list(json_of(*value)) is None,
        },
{
    let values = match value.as_array() {
        Some(values) => values,
        None => {
            return None;
        },
    };
    let ghost all = jsons_of(values@);
    let mut items: Vec<RightPaneToggleContract> = Vec::new();
    let mut i: usize = 0;
    assert(all.take(0) =~= Seq::empty());
    assert(toggle_views(items@) =~= Seq::empty());
    while i < values.len()
        invariant
            i <= values.len(),
            all == jsons_of(values@),
            json_of(*value) == Json::Array(all),
            read_toggle_items(all.take(i as int)) == Some(toggle_views(items@)),
        decreases values.len() - i,
    {
        proof {
            assert(all.take(i + 1).drop_last() == all.take(i as int));
            assert(all.take(i + 1).last() == json_of(values@[i as int]));
        }
        match RightPaneToggleContract::from_json(&values[i]) {
            Some(item) => {
                let ghost earlier = toggle_views(items@);
                items.push(item);
                assert(toggle_views(items@) =~= earlier.push(item@));
            },
            None => {
                proof {
                    lemma_toggle_items_stay_none(all, i + 1);
                }
                return None;
            },
        }
        i += 1;
    }
    assert(all.take(i as int) == all);
    Some(items)
}

impl SessionStoreSnapshotContract {
    /// This value as a JSON document of the wire format.
    pub fn to_json(&self) -> (value: serde_json::Value)
        ensures
            json_of(value) == write_snapshot(self@),
    {
        let mut members = new_members();
        put(&mut members, "session_dir", json_text(self.session_dir.clone()));
        put(&mut members, "tasks_file", json_text(self.tasks_file.clone()));
        put(&mut members, "planner_file", json_text(self.planner_file.clone()));
        put(&mut members, "task_fails_file", json_text(self.task_fails_file.clone()));
        put(&mut members, "project_info_file", json_text(self.project_info_file.clone()));
        put(&mut members, "session_meta_file", json_text(self.session_meta_file.clone()));
        json_object(members)
    }

    /// The value that a JSON document of the wire format states, none
    /// where it states none.
    pub fn from_json(value: &serde_json::Value) -> (read: Option<Self>)
        ensures
            match read {
                Some(x) => read_snapshot(json_of(*value)) == Some(x@),
                None => read_snapshot(json_of(*value)) is None,
            },
    {
        if !value.is_object() {
            return None;
        }
        let session_dir = match json_get(value, "session_dir") {
            None => {
                return None;
            },
            Some(x) => match text_from_json(x) {
                Some(v) => v,
                None => {
                    return None;
                },
            },
        };
        let tasks_file = match json_get(value, "tasks_file") {
            None => {
                return None;
            },
            Some(x) => match text_from_json(x) {
                Some(v) => v,
                None => {
                    return None;
                },
            },
        };
        let planner_file = match json_get(value, "planner_file") {
            None => {
                return None;
            },
            Some(x) => match text_from_json(x) {
                Some(v) => v,
                None => {
                    return None;
                },
            },
        };
        let task_fails_file = match json_get(value, "task_fails_file") {
            None => {
                return None;
            },
            Some(x) => match text_from_json(x) {
                Some(v) => v,
                None => {
                    return None;
                },
            },
        };
        let project_info_file = match json_get(value, "project_info_file") {
            None => {
                return None;
            },
            Some(x) => match text_from_json(x) {
                Some(v) => v,
                None => {
                    return None;
                },
            },
        };
        let session_meta_file = match json_get(value, "session_meta_file") {
            None => {
                return None;
            },
            Some(x) => match text_from_json(x) {
                Some(v) => v,
                None => {
                    return None;
                },
            },
        };
        Some(
            SessionStoreSnapshotContract {
                session_dir,
                tasks_file,
                planner_file,
                task_fails_file,
                project_info_file,
                session_meta_file,
            },
        )
    }
}

impl SessionListEntryContract {
    /// This value as a JSON document of the wire format.
    pub fn to_json(&self) -> (value: serde_json::Value)
        ensures
            json_of(value) == write_session(self@),
    {
        let mut members = new_members();
        put(&mut members, "session_dir", json_text(self.session_dir.clone()));
        put(&mut members, "workspace", json_text(self.workspace.clone()));
        put(
            &mut members,
            "title",
            match &self.title {
                Some(x) => json_text(x.clone()),
                None => json_null(),
            },
        );
        put(
            &mut members,
            "created_at_label",
            match &self.created_at_label {
                Some(x) => json_text(x.clone()),
                None => json_null(),
            },
        );
        put(&mut members, "created_at_epoch_secs", json_u64(self.created_at_epoch_secs));
        put(&mut members, "last_used_epoch_secs", json_u64(self.last_used_epoch_secs));
        json_object(members)
    }

    /// The value that a JSON document of the wire format states, none
    /// where it states none.
    pub fn from_json(value: &serde_json::Value) -> (read: Option<Self>)
        ensures
            match read {
                Some(x) => read_session(json_of(*value)) == Some(x@),
                None => read_session(json_of(*value)) is None,
            },
    {
        if !value.is_object() {
            return None;
        }
        let session_dir = match json_get(value, "session_dir") {
            None => {
                return None;
            },
            Some(x) => match text_from_json(x) {
                Some(v) => v,
                None => {
                    return None;
                },
            },
        };
        let workspace = match json_get(value, "workspace") {
            None => {
                return None;
            },
            Some(x) => match text_from_json(x) {
                Some(v) => v,
                None => {
                    return None;
                },
            },
        };
        let title = match json_get(value, "title") {
            None => None,
            Some(x) => {
                if x.is_null() {
                    None
                } else {
                    match text_from_json(x) {
                        Some(v) => Some(v),
                        None => {
                            return None;
                        },
                    }
                }
            },
        };
        let created_at_label = match json_get(value, "created_at_label") {
            None => None,
            Some(x) => {
                if x.is_null() {
                    None
                } else {
                    match text_from_json(x) {
                        Some(v) => Some(v),
                        None => {
                            return None;
                        },
                    }
                }
            },
        };
        let created_at_epoch_secs = match json_get(value, "created_at_epoch_secs") {
            None => {
                return None;
            },
            Some(x) => match u64_from_json(x) {
                Some(v) => v,
                None => {
                    return None;
                },
            },
        };
        let last_used_epoch_secs = match json_get(value, "last_used_epoch_secs") {
            None => {
                return None;
            },
            Some(x) => match u64_from_json(x) {
                Some(v) => v,
                None => {
                    return None;
                },
            },
        };
        Some(
            SessionListEntryContract {
                session_dir,
                workspace,
                title,
                created_at_label,
                created_at_epoch_secs,
                last_used_epoch_secs,
            },
        )
    }
}

/// A list of [`SessionListEntryContract`] as a JSON array.
pub fn session_list_to_json(items: &Vec<SessionListEntryContract>) -> (value: serde_json::Value)
    ensures
        json_of(value) == write_session_list(session_views(items@)),
{
    let mut values: Vec<serde_json::Value> = Vec::new();
    let mut i: usize = 0;
    while i < items.len()
        invariant
            i <= items.len(),
            values@.len() == i,
            forall|k: int| 0 <= k < i ==>
                json_of(#[trigger] values@[k]) == write_session(items@[k]@),
        decreases items.len() - i,
    {
        values.push(items[i].to_json());
        i += 1;
    }
    assert(jsons_of(values@) =~= write_session_list(session_views(items@))->Array_0);
    json_array(values)
}

/// The list of [`SessionListEntryContract`] that a JSON array states, none where the document
/// is no array or one of its items states none.
pub fn session_list_from_json(
    value: &serde_json::Value,
) -> (read: Option<Vec<SessionListEntryContract>>)
    ensures
        match read {
            Some(items) => read_session_list(json_of(*value)) == Some(session_views(items@)),
            None => read_session_list(json_of(*value)) is None,
        },
{
    let values = match value.as_array() {
        Some(values) => values,
        None => {
            return None;
        },
    };
    let ghost all = jsons_of(values@);
    let mut items: Vec<SessionListEntryContract> = Vec::new();
    let mut i: usize = 0;
    assert(all.take(0) =~= Seq::empty());
    assert(session_views(items@) =~= Seq::empty());
    while i < values.len()
        invariant
            i <= values.len(),
            all == jsons_of(values@),
            json_of(*value) == Json::Array(all),
            read_session_items(all.take(i as int)) == Some(session_views(items@)),
        decreases values.len() - i,
    {
        proof {
            assert(all.take(i + 1).drop_last() == all.take(i as int));
            assert(all.take(i + 1).last() == json_of(values@[i as int]));
        }
        match SessionListEntryContract::from_json(&values[i]) {
            Some(item) => {
                let ghost earlier = session_views(items@);
                items.push(item);
                assert(session_views(items@) =~= earlier.push(item@));
            },
            None => {
                proof {
                    lemma_session_items_stay_none(all, i + 1);
                }
                return None;
            },
        }
        i += 1;
    }
    assert(all.take(i as int) == all);
    Some(items)
}

impl SessionMetaContract {
    /// This value as a JSON document of the wire format.
    pub fn to_json(&self) -> (value: serde_json::Value)
        ensures
            json_of(value) == write_session_meta(self@),
    {
        let mut members = new_members();
        put(&mut members, "title", json_text(self.title.clone()));
        put(&mut members, "created_at", json_text(self.created_at.clone()));
        put(&mut members, "stack_description", json_text(self.stack_description.clone()));
        put(
            &mut members,
            "test_command",
            match &self.test_command {
                Some(x) => json_text(x.clone()),
                None => json_null(),
            },
        );
        json_object(members)
    }

    /// The value that a JSON document of the wire format states, none
    /// where it states none.
    pub fn from_json(value: &serde_json::Value) -> (read: Option<Self>)
        ensures
            match read {
                Some(x) => read_session_meta(json_of(*value)) == Some(x@),
                None => read_session_meta(json_of(*value)) is None,
            },
    {
        if !value.is_object() {
            return None;
        }
        let title = match json_get(value, "title") {
            None => {
                return None;
            },
            Some(x) => match text_from_json(x) {
                Some(v) => v,
                None => {
                    return None;
                },
            },
        };
        let created_at = match json_get(value, "created_at") {
            None => {
                return None;
            },
            Some(x) => match text_from_json(x) {
                Some(v) => v,
                None => {
                    return None;
                },
            },
        };
        let stack_description = match json_get(value, "stack_description") {
            None => String::new(),
            Some(x) => match text_from_json(x) {
                Some(v) => v,
                None => {
                    return None;
                },
            },
        };
        let test_command = match json_get(value, "test_command") {
            None => None,
            Some(x) => {
                if x.is_null() {
                    None
                } else {
                    match text_from_json(x) {
                        Some(v) => Some(v),
                        None => {
                            return None;
                        },
                    }
                }
            },
        };
        Some(SessionMetaContract { title, created_at, stack_description, test_command })
    }
}

impl AppEventContract {
    /// This value as a JSON document of the wire format.
    pub fn to_json(&self) -> (value: serde_json::Value)
        ensures
            json_of(value) == write_app_event(self@),
    {
        let mut members = new_members();
        match self {
            AppEventContract::Tick => {
                put(&mut members, "type", json_text(String::from_str("tick")));
            },
            AppEventContract::Quit => {
                put(&mut members, "type", json_text(String::from_str("quit")));
            },
            AppEventContract::NextPane => {
                put(&mut members, "type", json_text(String::from_str("next_pane")));
            },
            AppEventContract::PrevPane => {
                put(&mut members, "type", json_text(String::from_str("prev_pane")));
            },
            AppEventContract::MoveUp => {
                put(&mut members, "type", json_text(String::from_str("move_up")));
            },
            AppEventContract::MoveDown => {
                put(&mut members, "type", json_text(String::from_str("move_down")));
            },
            AppEventContract::CursorLeft => {
                put(&mut members, "type", json_text(String::from_str("cursor_left")));
            },
            AppEventContract::CursorRight => {
                put(&mut members, "type", json_text(String::from_str("cursor_right")));
            },
            AppEventContract::ScrollChatUp => {
                put(&mut members, "type", json_text(String::from_str("scroll_chat_up")));
            },
            AppEventContract::ScrollChatDown => {
                put(&mut members, "type", json_text(String::from_str("scroll_chat_down")));
            },
            AppEventContract::ScrollRightUpGlobal => {
                put(&mut members, "type", json_text(String::from_str("scroll_right_up_global")));
            },
            AppEventContract::ScrollRightDownGlobal => {
                put(&mut members, "type", json_text(String::from_str("scroll_right_down_global")));
            },
            AppEventContract::InputChar(x) => {
                put(&mut members, "type", json_text(String::from_str("input_char")));
                put(&mut members, "payload", char_to_json(*x));
            },
            AppEventContract::Backspace => {
                put(&mut members, "type", json_text(String::from_str("backspace")));
            },
            AppEventContract::Submit => {
                put(&mut members, "type", json_text(String::from_str("submit")));
            },
            AppEventContract::MouseScrollUp => {
                put(&mut members, "type", json_text(String::from_str("mouse_scroll_up")));
            },
            AppEventContract::MouseScrollDown => {
                put(&mut members, "type", json_text(String::from_str("mouse_scroll_down")));
            },
            AppEventContract::MouseLeftClick { column, row } => {
                put(&mut members, "type", json_text(String::from_str("mouse_left_click")));
                let mut carried = new_members();
                put(&mut carried, "column", json_u64(*column as u64));
                put(&mut carried, "row", json_u64(*row as u64));
                put(&mut members, "payload", json_object(carried));
            },
        }
        json_object(members)
    }

    /// The value that a JSON document of the wire format states, none
    /// where it states none.
    pub fn from_json(value: &serde_json::Value) -> (read: Option<Self>)
        ensures
            match read {
                Some(x) => read_app_event(json_of(*value)) == Some(x@),
                None => read_app_event(json_of(*value)) is None,
            },
    {
        let name = match json_get(value, "type") {
            Some(tag) => match tag.as_str() {
                Some(name) => name,
                None => {
                    return None;
                },
            },
            None => {
                return None;
            },
        };
        if same_text(name, "tick") {
            match json_get(value, "payload") {
                None => Some(AppEventContract::Tick),
                Some(x) => {
                    if x.is_null() {
                        Some(AppEventContract::Tick)
                    } else {
                        None
                    }
                },
            }
        } else if same_text(name, "quit") {
            match json_get(value, "payload") {
                None => Some(AppEventContract::Quit),
                Some(x) => {
                    if x.is_null() {
                        Some(AppEventContract::Quit)
                    } else {
                        None
                    }
                },
            }
        } else if same_text(name, "next_pane") {
            match json_get(value, "payload") {
                None => Some(AppEventContract::NextPane),
                Some(x) => {
                    if x.is_null() {
                        Some(AppEventContract::NextPane)
                    } else {
                        None
                    }
                },
            }
        } else if same_text(name, "prev_pane") {
            match json_get(value, "payload") {
                None => Some(AppEventContract::PrevPane),
                Some(x) => {
                    if x.is_null() {
                        Some(AppEventContract::PrevPane)
                    } else {
                        None
                    }
                },
            }
        } else if same_text(name, "move_up") {
            match json_get(value, "payload") {
                None => Some(AppEventContract::MoveUp),
                Some(x) => {
                    if x.is_null() {
                        Some(AppEventContract::MoveUp)
                    } else {
                        None
                    }
                },
            }
        } else if same_text(name, "move_down") {
            match json_get(value, "payload") {
                None => Some(AppEventContract::MoveDown),
                Some(x) => {
                    if x.is_null() {
                        Some(AppEventContract::MoveDown)
                    } else {
                        None
                    }
                },
            }
        } else if same_text(name, "cursor_left") {
            match json_get(value, "payload") {
                None => Some(AppEventContract::CursorLeft),
                Some(x) => {
                    if x.is_null() {
                        Some(AppEventContract::CursorLeft)
                    } else {
                        None
                    }
                },
            }
        } else if same_text(name, "cursor_right") {
            match json_get(value, "payload") {
                None => Some(AppEventContract::CursorRight),
                Some(x) => {
                    if x.is_null() {
                        Some(AppEventContract::CursorRight)
                    } else {
                        None
                    }
                },
            }
        } else if same_text(name, "scroll_chat_up") {
            match json_get(value, "payload") {
                None => Some(AppEventContract::ScrollChatUp),
                Some(x) => {
                    if x.is_null() {
                        Some(AppEventContract::ScrollChatUp)
                    } else {
                        None
                    }
                },
            }
        } else if same_text(name, "scroll_chat_down") {
            match json_get(value, "payload") {
                None => Some(AppEventContract::ScrollChatDown),
                Some(x) => {
                    if x.is_null() {
                        Some(AppEventContract::ScrollChatDown)
                    } else {
                        None
                    }
                },
            }
        } else if same_text(name, "scroll_right_up_global") {
            match json_get(value, "payload") {
                None => Some(AppEventContract::ScrollRightUpGlobal),
                Some(x) => {
                    if x.is_null() {
                        Some(AppEventContract::ScrollRightUpGlobal)
                    } else {
                        None
                    }
                },
            }
        } else if same_text(name, "scroll_right_down_global") {
            match json_get(value, "payload") {
                None => Some(AppEventContract::ScrollRightDownGlobal),
                Some(x) => {
                    if x.is_null() {
                        Some(AppEventContract::ScrollRightDownGlobal)
                    } else {
                        None
                    }
                },
            }
        } else if same_text(name, "input_char") {
            match json_get(value, "payload") {
                Some(x) => match char_from_json(x) {
                    Some(carried) => Some(AppEventContract::InputChar(carried)),
                    None => None,
                },
                None => None,
            }
        } else if same_text(name, "backspace") {
            match json_get(value, "payload") {
                None => Some(AppEventContract::Backspace),
                Some(x) => {
                    if x.is_null() {
                        Some(AppEventContract::Backspace)
                    } else {
                        None
                    }
                },
            }
        } else if same_text(name, "submit") {
            match json_get(value, "payload") {
                None => Some(AppEventContract::Submit),
                Some(x) => {
                    if x.is_null() {
                        Some(AppEventContract::Submit)
                    } else {
                        None
                    }
                },
            }
        } else if same_text(name, "mouse_scroll_up") {
            match json_get(value, "payload") {
                None => Some(AppEventContract::MouseScrollUp),
                Some(x) => {
                    if x.is_null() {
                        Some(AppEventContract::MouseScrollUp)
                    } else {
                        None
                    }
                },
            }
        } else if same_text(name, "mouse_scroll_down") {
            match json_get(value, "payload") {
                None => Some(AppEventContract::MouseScrollDown),
                Some(x) => {
                    if x.is_null() {
                        Some(AppEventContract::MouseScrollDown)
                    } else {
                        None
                    }
                },
            }
        } else if same_text(name, "mouse_left_click") {
            let carried = match json_get(value, "payload") {
                Some(x) => x,
                None => {
                    return None;
                },
            };
            if !carried.is_object() {
                return None;
            }
            let column = match json_get(carried, "column") {
                None => {
                    return None;
                },
                Some(x) => match u16_from_json(x) {
                    Some(v) => v,
                    None => {
                        return None;
                    },
                },
            };
            let row = match json_get(carried, "row") {
                None => {
                    return None;
                },
                Some(x) => match u16_from_json(x) {
                    Some(v) => v,
                    None => {
                        return None;
                    },
                },
            };
            Some(AppEventContract::MouseLeftClick { column, row })
        } else {
            None
        }
    }
}

impl AppRequest {
    /// This value as a JSON document of the wire format.
    pub fn to_json(&self) -> (value: serde_json::Value)
        ensures
            json_of(value) == write_app_request(self@),
    {
        let mut members = new_members();
        match self {
            AppRequest::Tick => {
                put(&mut members, "action", json_text(String::from_str("tick")));
            },
            AppRequest::Quit => {
                put(&mut members, "action", json_text(String::from_str("quit")));
            },
            AppRequest::PaneNext => {
                put(&mut members, "action", json_text(String::from_str("pane_next")));
            },
            AppRequest::PanePrevious => {
                put(&mut members, "action", json_text(String::from_str("pane_previous")));
            },
            AppRequest::SubmitChatMessage => {
                put(&mut members, "action", json_text(String::from_str("submit_chat_message")));
            },
            AppRequest::SubmitDirectMessage { message } => {
                put(&mut members, "action", json_text(String::from_str("submit_direct_message")));
                put(&mut members, "message", json_text(message.clone()));
            },
            AppRequest::SyncPlannerTasks { tasks } => {
                put(&mut members, "action", json_text(String::from_str("sync_planner_tasks")));
                put(&mut members, "tasks", entry_list_to_json(tasks));
            },
            AppRequest::PrepareMasterPrompt { message, tasks_file } => {
                put(&mut members, "action", json_text(String::from_str("prepare_master_prompt")));
                put(&mut members, "message", json_text(message.clone()));
                put(&mut members, "tasks_file", json_text(tasks_file.clone()));
            },
            AppRequest::PreparePlannerPrompt { message, planner_file, project_info_file } => {
                put(&mut members, "action", json_text(String::from_str("prepare_planner_prompt")));
                put(&mut members, "message", json_text(message.clone()));
                put(&mut members, "planner_file", json_text(planner_file.clone()));
                put(&mut members, "project_info_file", json_text(project_info_file.clone()));
            },
            AppRequest::PrepareAttachDocsPrompt { tasks_file } => {
                put(
                    &mut members,
                    "action",
                    json_text(String::from_str("prepare_attach_docs_prompt")),
                );
                put(&mut members, "tasks_file", json_text(tasks_file.clone()));
            },
            AppRequest::StartExecution => {
                put(&mut members, "action", json_text(String::from_str("start_execution")));
            },
            AppRequest::StartNextWorkerJob => {
                put(&mut members, "action", json_text(String::from_str("start_next_worker_job")));
            },
            AppRequest::WorkerOutput { line } => {
                put(&mut members, "action", json_text(String::from_str("worker_output")));
                put(&mut members, "line", json_text(line.clone()));
            },
            AppRequest::WorkerSystemOutput { line } => {
                put(&mut members, "action", json_text(String::from_str("worker_system_output")));
                put(&mut members, "line", json_text(line.clone()));
            },
            AppRequest::WorkerCompleted { success, exit_code } => {
                put(&mut members, "action", json_text(String::from_str("worker_completed")));
                put(&mut members, "success", json_bool(*success));
                put(&mut members, "exit_code", json_i64(*exit_code as i64));
            },
            AppRequest::DrainWorkerFailures => {
                put(&mut members, "action", json_text(String::from_str("drain_worker_failures")));
            },
        }
        json_object(members)
    }

    /// The value that a JSON document of the wire format states, none
    /// where it states none.
    pub fn from_json(value: &serde_json::Value) -> (read: Option<Self>)
        ensures
            match read {
                Some(x) => read_app_request(json_of(*value)) == Some(x@),
                None => read_app_request(json_of(*value)) is None,
            },
    {
        let name = match json_get(value, "action") {
            Some(tag) => match tag.as_str() {
                Some(name) => name,
                None => {
                    return None;
                },
            },
            None => {
                return None;
            },
        };
        if same_text(name, "tick") {
            Some(AppRequest::Tick)
        } else if same_text(name, "quit") {
            Some(AppRequest::Quit)
        } else if same_text(name, "pane_next") {
            Some(AppRequest::PaneNext)
        } else if same_text(name, "pane_previous") {
            Some(AppRequest::PanePrevious)
        } else if same_text(name, "submit_chat_message") {
            Some(AppRequest::SubmitChatMessage)
        } else if same_text(name, "submit_direct_message") {
            let message = match json_get(value, "message") {
                None => {
                    return None;
                },
                Some(x) => match text_from_json(x) {
                    Some(v) => v,
                    None => {
                        return None;
                    },
                },
            };
            Some(AppRequest::SubmitDirectMessage { message })
        } else if same_text(name, "sync_planner_tasks") {
            let tasks = match json_get(value, "tasks") {
                None => {
                    return None;
                },
                Some(x) => match entry_list_from_json(x) {
                    Some(v) => v,
                    None => {
                        return None;
                    },
                },
            };
            Some(AppRequest::SyncPlannerTasks { tasks })
        } else if same_text(name, "prepare_master_prompt") {
            let message = match json_get(value, "message") {
                None => {
                    return None;
                },
                Some(x) => match text_from_json(x) {
                    Some(v) => v,
                    None => {
                        return None;
                    },
                },
            };
            let tasks_file = match json_get(value, "tasks_file") {
                None => {
                    return None;
                },
                Some(x) => match text_from_json(x) {
                    Some(v) => v,
                    None => {
                        return None;
                    },
                },
            };
            Some(AppRequest::PrepareMasterPrompt { message, tasks_file })
        } else if same_text(name, "prepare_planner_prompt") {
            let message = match json_get(value, "message") {
                None => {
                    return None;
                },
                Some(x) => match text_from_json(x) {
                    Some(v) => v,
                    None => {
                        return None;
                    },
                },
            };
            let planner_file = match json_get(value, "planner_file") {
                None => {
                    return None;
                },
                Some(x) => match text_from_json(x) {
                    Some(v) => v,
                    None => {
                        return None;
                    },
                },
            };
            let project_info_file = match json_get(value, "project_info_file") {
                None => {
                    return None;
                },
                Some(x) => match text_from_json(x) {
                    Some(v) => v,
                    None => {
                        return None;
                    },
                },
            };
            Some(AppRequest::PreparePlannerPrompt { message, planner_file, project_info_file })
        } else if same_text(name, "prepare_attach_docs_prompt") {
            let tasks_file = match json_get(value, "tasks_file") {
                None => {
                    return None;
                },
                Some(x) => match text_from_json(x) {
                    Some(v) => v,
                    None => {
                        return None;
                    },
                },
            };
            Some(AppRequest::PrepareAttachDocsPrompt { tasks_file })
        } else if same_text(name, "start_execution") {
            Some(AppRequest::StartExecution)
        } else if same_text(name, "start_next_worker_job") {
            Some(AppRequest::StartNextWorkerJob)
        } else if same_text(name, "worker_output") {
            let line = match json_get(value, "line") {
                None => {
                    return None;
                },
                Some(x) => match text_from_json(x) {
                    Some(v) => v,
                    None => {
                        return None;
                    },
                },
            };
            Some(AppRequest::WorkerOutput { line })
        } else if same_text(name, "worker_system_output") {
            let line = match json_get(value, "line") {
                None => {
                    return None;
                },
                Some(x) => match text_from_json(x) {
                    Some(v) => v,
                    None => {
                        return None;
                    },
                },
            };
            Some(AppRequest::WorkerSystemOutput { line })
        } else if same_text(name, "worker_completed") {
            let success = match json_get(value, "success") {
                None => {
                    return None;
                },
                Some(x) => match x.as_bool() {
                    Some(v) => v,
                    None => {
                        return None;
                    },
                },
            };
            let exit_code = match json_get(value, "exit_code") {
                None => {
                    return None;
                },
                Some(x) => match i32_from_json(x) {
                    Some(v) => v,
                    None => {
                        return None;
                    },
                },
            };
            Some(AppRequest::WorkerCompleted { success, exit_code })
        } else if same_text(name, "drain_worker_failures") {
            Some(AppRequest::DrainWorkerFailures)
        } else {
            None
        }
    }
}

impl AppResponse {
    /// This value as a JSON document of the wire format.
    pub fn to_json(&self) -> (value: serde_json::Value)
        ensures
            json_of(value) == write_app_response(self@),
    {
        let mut members = new_members();
        match self {
            AppResponse::Ack => {
                put(&mut members, "kind", json_text(String::from_str("ack")));
            },
            AppResponse::Prompt { text } => {
                put(&mut members, "kind", json_text(String::from_str("prompt")));
                put(&mut members, "text", json_text(text.clone()));
            },
            AppResponse::SubmittedChat { message } => {
                put(&mut members, "kind", json_text(String::from_str("submitted_chat")));
                put(
                    &mut members,
                    "message",
                    match message {
                        Some(x) => json_text(x.clone()),
                        None => json_null(),
                    },
                );
            },
            AppResponse::PlannerTasksSynced { count } => {
                put(&mut members, "kind", json_text(String::from_str("planner_tasks_synced")));
                put(&mut members, "count", json_u64(*count as u64));
            },
            AppResponse::ExecutionMessages { messages } => {
                put(&mut members, "kind", json_text(String::from_str("execution_messages")));
                put(&mut members, "messages", text_list_to_json(messages));
            },
            AppResponse::StartedWorkerJob { job } => {
                put(&mut members, "kind", json_text(String::from_str("started_worker_job")));
                put(
                    &mut members,
                    "job",
                    match job {
                        Some(x) => x.to_json(),
                        None => json_null(),
                    },
                );
            },
            AppResponse::WorkerCompleted { system_messages, new_context_entries } => {
                put(&mut members, "kind", json_text(String::from_str("worker_completed")));
                put(&mut members, "system_messages", text_list_to_json(system_messages));
                put(&mut members, "new_context_entries", text_list_to_json(new_context_entries));
            },
            AppResponse::WorkerFailures { failures } => {
                put(&mut members, "kind", json_text(String::from_str("worker_failures")));
                put(&mut members, "failures", failure_list_to_json(failures));
            },
        }
        json_object(members)
    }

    /// The value that a JSON document of the wire format states, none
    /// where it states none.
    pub fn from_json(value: &serde_json::Value) -> (read: Option<Self>)
        ensures
            match read {
                Some(x) => read_app_response(json_of(*value)) == Some(x@),
                None => read_app_response(json_of(*value)) is None,
            },
    {
        let name = match json_get(value, "kind") {
            Some(tag) => match tag.as_str() {
                Some(name) => name,
                None => {
                    return None;
                },
            },
            None => {
                return None;
            },
        };
        if same_text(name, "ack") {
            Some(AppResponse::Ack)
        } else if same_text(name, "prompt") {
            let text = match json_get(value, "text") {
                None => {
                    return None;
                },
                Some(x) => match text_from_json(x) {
                    Some(v) => v,
                    None => {
                        return None;
                    },
                },
            };
            Some(AppResponse::Prompt { text })
        } else if same_text(name, "submitted_chat") {
            let message = match json_get(value, "message") {
                None => None,
                Some(x) => {
                    if x.is_null() {
                        None
                    } else {
                        match text_from_json(x) {
                            Some(v) => Some(v),
                            None => {
                                return None;
                            },
                        }
                    }
                },
            };
            Some(AppResponse::SubmittedChat { message })
        } else if same_text(name, "planner_tasks_synced") {
            let count = match json_get(value, "count") {
                None => {
                    return None;
                },
                Some(x) => match usize_from_json(x) {
                    Some(v) => v,
                    None => {
                        return None;
                    },
                },
            };
            Some(AppResponse::PlannerTasksSynced { count })
        } else if same_text(name, "execution_messages") {
            let messages = match json_get(value, "messages") {
                None => {
                    return None;
                },
                Some(x) => match text_list_from_json(x) {
                    Some(v) => v,
                    None => {
                        return None;
                    },
                },
            };
            Some(AppResponse::ExecutionMessages { messages })
        } else if same_text(name, "started_worker_job") {
            let job = match json_get(value, "job") {
                None => None,
                Some(x) => {
                    if x.is_null() {
                        None
                    } else {
                        match StartedWorkerJobContract::from_json(x) {
                            Some(v) => Some(v),
                            None => {
                                return None;
                            },
                        }
                    }
                },
            };
            Some(AppResponse::StartedWorkerJob { job })
        } else if same_text(name, "worker_completed") {
            let system_messages = match json_get(value, "system_messages") {
                None => {
                    return None;
                },
                Some(x) => match text_list_from_json(x) {
                    Some(v) => v,
                    None => {
                        return None;
                    },
                },
            };
            let new_context_entries = match json_get(value, "new_context_entries") {
                None => {
                    return None;
                },
                Some(x) => match text_list_from_json(x) {
                    Some(v) => v,
                    None => {
                        return None;
                    },
                },
            };
            Some(AppResponse::WorkerCompleted { system_messages, new_context_entries })
        } else if same_text(name, "worker_failures") {
            let failures = match json_get(value, "failures") {
                None => {
                    return None;
                },
                Some(x) => match failure_list_from_json(x) {
                    Some(v) => v,
                    None => {
                        return None;
                    },
                },
            };
            Some(AppResponse::WorkerFailures { failures })
        } else {
            None
        }
    }
}

impl EventsRequest {
    /// This value as a JSON document of the wire format.
    pub fn to_json(&self) -> (value: serde_json::Value)
        ensures
            json_of(value) == write_events_request(self@),
    {
        let mut members = new_members();
        match self {
            EventsRequest::NextEvent => {
                put(&mut members, "action", json_text(String::from_str("next_event")));
            },
        }
        json_object(members)
    }

    /// The value that a JSON document of the wire format states, none
    /// where it states none.
    pub fn from_json(value: &serde_json::Value) -> (read: Option<Self>)
        ensures
            match read {
                Some(x) => read_events_request(json_of(*value)) == Some(x@),
                None => read_events_request(json_of(*value)) is None,
            },
    {
        let name = match json_get(value, "action") {
            Some(tag) => match tag.as_str() {
                Some(name) => name,
                None => {
                    return None;
                },
            },
            None => {
                return None;
            },
        };
        if same_text(name, "next_event") {
            Some(EventsRequest::NextEvent)
        } else {
            None
        }
    }
}

impl EventsResponse {
    /// This value as a JSON document of the wire format.
    pub fn to_json(&self) -> (value: serde_json::Value)
        ensures
            json_of(value) == write_events_response(self@),
    {
        let mut members = new_members();
        match self {
            EventsResponse::Event { event } => {
                put(&mut members, "kind", json_text(String::from_str("event")));
                put(&mut members, "event", event.to_json());
            },
        }
        json_object(members)
    }

    /// The value that a JSON document of the wire format states, none
    /// where it states none.
    pub fn from_json(value: &serde_json::Value) -> (read: Option<Self>)
        ensures
            match read {
                Some(x) => read_events_response(json_of(*value)) == Some(x@),
                None => read_events_response(json_of(*value)) is None,
            },
    {
        let name = match json_get(value, "kind") {
            Some(tag) => match tag.as_str() {
                Some(name) => name,
                None => {
                    return None;
                },
            },
            None => {
                return None;
            },
        };
        if same_text(name, "event") {
            let event = match json_get(value, "event") {
                None => {
                    return None;
                },
                Some(x) => match AppEventContract::from_json(x) {
                    Some(v) => v,
                    None => {
                        return None;
                    },
                },
            };
            Some(EventsResponse::Event { event })
        } else {
            None
        }
    }
}

impl WorkflowRequest {
    /// This value as a JSON document of the wire format.
    pub fn to_json(&self) -> (value: serde_json::Value)
        ensures
            json_of(value) == write_workflow_request(self@),
    {
        let mut members = new_members();
        match self {
            WorkflowRequest::SyncPlannerTasks { tasks } => {
                put(&mut members, "action", json_text(String::from_str("sync_planner_tasks")));
                put(&mut members, "tasks", entry_list_to_json(tasks));
            },
            WorkflowRequest::PlannerTasksForFile => {
                put(&mut members, "action", json_text(String::from_str("planner_tasks_for_file")));
            },
            WorkflowRequest::StartExecution => {
                put(&mut members, "action", json_text(String::from_str("start_execution")));
            },
            WorkflowRequest::StartNextJob => {
                put(&mut members, "action", json_text(String::from_str("start_next_job")));
            },
            WorkflowRequest::AppendActiveOutput { line } => {
                put(&mut members, "action", json_text(String::from_str("append_active_output")));
                put(&mut members, "line", json_text(line.clone()));
            },
            WorkflowRequest::FinishActiveJob { success, exit_code } => {
                put(&mut members, "action", json_text(String::from_str("finish_active_job")));
                put(&mut members, "success", json_bool(*success));
                put(&mut members, "exit_code", json_i64(*exit_code as i64));
            },
            WorkflowRequest::DrainRecentFailures => {
                put(&mut members, "action", json_text(String::from_str("drain_recent_failures")));
            },
            WorkflowRequest::RollingContextEntries => {
                put(&mut members, "action", json_text(String::from_str("rolling_context_entries")));
            },
            WorkflowRequest::ReplaceRollingContextEntries { entries } => {
                put(
                    &mut members,
                    "action",
                    json_text(String::from_str("replace_rolling_context_entries")),
                );
                put(&mut members, "entries", text_list_to_json(entries));
            },
            WorkflowRequest::RightPaneBlockView => {
                put(&mut members, "action", json_text(String::from_str("right_pane_block_view")));
            },
        }
        json_object(members)
    }

    /// The value that a JSON document of the wire format states, none
    /// where it states none.
    pub fn from_json(value: &serde_json::Value) -> (read: Option<Self>)
        ensures
            match read {
                Some(x) => read_workflow_request(json_of(*value)) == Some(x@),
                None => read_workflow_request(json_of(*value)) is None,
            },
    {
        let name = match json_get(value, "action") {
            Some(tag) => match tag.as_str() {
                Some(name) => name,
                None => {
                    return None;
                },
            },
            None => {
                return None;
            },
        };
        if same_text(name, "sync_planner_tasks") {
            let tasks = match json_get(value, "tasks") {
                None => {
                    return None;
                },
                Some(x) => match entry_list_from_json(x) {
                    Some(v) => v,
                    None => {
                        return None;
                    },
                },
            };
            Some(WorkflowRequest::SyncPlannerTasks { tasks })
        } else if same_text(name, "planner_tasks_for_file") {
            Some(WorkflowRequest::PlannerTasksForFile)
        } else if same_text(name, "start_execution") {
            Some(WorkflowRequest::StartExecution)
        } else if same_text(name, "start_next_job") {
            Some(WorkflowRequest::StartNextJob)
        } else if same_text(name, "append_active_output") {
            let line = match json_get(value, "line") {
                None => {
                    return None;
                },
                Some(x) => match text_from_json(x) {
                    Some(v) => v,
                    None => {
                        return None;
                    },
                },
            };
            Some(WorkflowRequest::AppendActiveOutput { line })
        } else if same_text(name, "finish_active_job") {
            let success = match json_get(value, "success") {
                None => {
                    return None;
                },
                Some(x) => match x.as_bool() {
                    Some(v) => v,
                    None => {
                        return None;
                    },
                },
            };
            let exit_code = match json_get(value, "exit_code") {
                None => {
                    return None;
                },
                Some(x) => match i32_from_json(x) {
                    Some(v) => v,
                    None => {
                        return None;
                    },
                },
            };
            Some(WorkflowRequest::FinishActiveJob { success, exit_code })
        } else if same_text(name, "drain_recent_failures") {
            Some(WorkflowRequest::DrainRecentFailures)
        } else if same_text(name, "rolling_context_entries") {
            Some(WorkflowRequest::RollingContextEntries)
        } else if same_text(name, "replace_rolling_context_entries") {
            let entries = match json_get(value, "entries") {
                None => {
                    return None;
                },
                Some(x) => match text_list_from_json(x) {
                    Some(v) => v,
                    None => {
                        return None;
                    },
                },
            };
            Some(WorkflowRequest::ReplaceRollingContextEntries { entries })
        } else if same_text(name, "right_pane_block_view") {
            Some(WorkflowRequest::RightPaneBlockView)
        } else {
            None
        }
    }
}

impl WorkflowResponse {
    /// This value as a JSON document of the wire format.
    pub fn to_json(&self) -> (value: serde_json::Value)
        ensures
            json_of(value) == write_workflow_response(self@),
    {
        let mut members = new_members();
        match self {
            WorkflowResponse::Ack => {
                put(&mut members, "kind", json_text(String::from_str("ack")));
            },
            WorkflowResponse::PlannerTasks { tasks } => {
                put(&mut members, "kind", json_text(String::from_str("planner_tasks")));
                put(&mut members, "tasks", entry_list_to_json(tasks));
            },
            WorkflowResponse::StartExecution { messages } => {
                put(&mut members, "kind", json_text(String::from_str("start_execution")));
                put(&mut members, "messages", text_list_to_json(messages));
            },
            WorkflowResponse::StartedJob { job } => {
                put(&mut members, "kind", json_text(String::from_str("started_job")));
                put(
                    &mut members,
                    "job",
                    match job {
                        Some(x) => x.to_json(),
                        None => json_null(),
                    },
                );
            },
            WorkflowResponse::FinishActiveJob { messages } => {
                put(&mut members, "kind", json_text(String::from_str("finish_active_job")));
                put(&mut members, "messages", text_list_to_json(messages));
            },
            WorkflowResponse::RecentFailures { failures } => {
                put(&mut members, "kind", json_text(String::from_str("recent_failures")));
                put(&mut members, "failures", failure_list_to_json(failures));
            },
            WorkflowResponse::RollingContext { entries } => {
                put(&mut members, "kind", json_text(String::from_str("rolling_context")));
                put(&mut members, "entries", text_list_to_json(entries));
            },
            WorkflowResponse::RightPaneBlock { lines, toggles } => {
                put(&mut members, "kind", json_text(String::from_str("right_pane_block")));
                put(&mut members, "lines", text_list_to_json(lines));
                put(&mut members, "toggles", toggle_list_to_json(toggles));
            },
        }
        json_object(members)
    }

    /// The value that a JSON document of the wire format states, none
    /// where it states none.
    pub fn from_json(value: &serde_json::Value) -> (read: Option<Self>)
        ensures
            match read {
                Some(x) => read_workflow_response(json_of(*value)) == Some(x@),
                None => read_workflow_response(json_of(*value)) is None,
            },
    {
        let name = match json_get(value, "kind") {
            Some(tag) => match tag.as_str() {
                Some(name) => name,
                None => {
                    return None;
                },
            },
            None => {
                return None;
            },
        };
        if same_text(name, "ack") {
            Some(WorkflowResponse::Ack)
        } else if same_text(name, "planner_tasks") {
            let tasks = match json_get(value, "tasks") {
                None => {
                    return None;
                },
                Some(x) => match entry_list_from_json(x) {
                    Some(v) => v,
                    None => {
                        return None;
                    },
                },
            };
            Some(WorkflowResponse::PlannerTasks { tasks })
        } else if same_text(name, "start_execution") {
            let messages = match json_get(value, "messages") {
                None => {
                    return None;
                },
                Some(x) => match text_list_from_json(x) {
                    Some(v) => v,
                    None => {
                        return None;
                    },
                },
            };
            Some(WorkflowResponse::StartExecution { messages })
        } else if same_text(name, "started_job") {
            let job = match json_get(value, "job") {
                None => None,
                Some(x) => {
                    if x.is_null() {
                        None
                    } else {
                        match StartedWorkerJobContract::from_json(x) {
                            Some(v) => Some(v),
                            None => {
                                return None;
                            },
                        }
                    }
                },
            };
            Some(WorkflowResponse::StartedJob { job })
        } else if same_text(name, "finish_active_job") {
            let messages = match json_get(value, "messages") {
                None => {
                    return None;
                },
                Some(x) => match text_list_from_json(x) {
                    Some(v) => v,
                    None => {
                        return None;
                    },
                },
            };
            Some(WorkflowResponse::FinishActiveJob { messages })
        } else if same_text(name, "recent_failures") {
            let failures = match json_get(value, "failures") {
                None => {
                    return None;
                },
                Some(x) => match failure_list_from_json(x) {
                    Some(v) => v,
                    None => {
                        return None;
                    },
                },
            };
            Some(WorkflowResponse::RecentFailures { failures })
        } else if same_text(name, "rolling_context") {
            let entries = match json_get(value, "entries") {
                None => {
                    return None;
                },
                Some(x) => match text_list_from_json(x) {
                    Some(v) => v,
                    None => {
                        return None;
                    },
                },
            };
            Some(WorkflowResponse::RollingContext { entries })
        } else if same_text(name, "right_pane_block") {
            let lines = match json_get(value, "lines") {
                None => {
                    return None;
                },
                Some(x) => match text_list_from_json(x) {
                    Some(v) => v,
                    None => {
                        return None;
                    },
                },
            };
            let toggles = match json_get(value, "toggles") {
                None => {
                    return None;
                },
                Some(x) => match toggle_list_from_json(x) {
                    Some(v) => v,
                    None => {
                        return None;
                    },
                },
            };
            Some(WorkflowResponse::RightPaneBlock { lines, toggles })
        } else {
            None
        }
    }
}

impl SessionRequest {
    /// This value as a JSON document of the wire format.
    pub fn to_json(&self) -> (value: serde_json::Value)
        ensures
            json_of(value) == write_session_request(self@),
    {
        let mut members = new_members();
        match self {
            SessionRequest::Initialize { cwd } => {
                put(&mut members, "action", json_text(String::from_str("initialize")));
                put(&mut members, "cwd", json_text(cwd.clone()));
            },
            SessionRequest::OpenExisting { cwd, session_dir } => {
                put(&mut members, "action", json_text(String::from_str("open_existing")));
                put(&mut members, "cwd", json_text(cwd.clone()));
                put(&mut members, "session_dir", json_text(session_dir.clone()));
            },
            SessionRequest::ListSessions => {
                put(&mut members, "action", json_text(String::from_str("list_sessions")));
            },
            SessionRequest::ReadTasks => {
                put(&mut members, "action", json_text(String::from_str("read_tasks")));
            },
            SessionRequest::ReadPlannerMarkdown => {
                put(&mut members, "action", json_text(String::from_str("read_planner_markdown")));
            },
            SessionRequest::WriteRollingContext { entries } => {
                put(&mut members, "action", json_text(String::from_str("write_rolling_context")));
                put(&mut members, "entries", text_list_to_json(entries));
            },
            SessionRequest::ReadRollingContext => {
                put(&mut members, "action", json_text(String::from_str("read_rolling_context")));
            },
            SessionRequest::ReadTaskFails => {
                put(&mut members, "action", json_text(String::from_str("read_task_fails")));
            },
            SessionRequest::AppendTaskFails { entries } => {
                put(&mut members, "action", json_text(String::from_str("append_task_fails")));
                put(&mut members, "entries", failure_list_to_json(entries));
            },
            SessionRequest::ReadProjectInfo => {
                put(&mut members, "action", json_text(String::from_str("read_project_info")));
            },
            SessionRequest::WriteProjectInfo { markdown } => {
                put(&mut members, "action", json_text(String::from_str("write_project_info")));
                put(&mut members, "markdown", json_text(markdown.clone()));
            },
            SessionRequest::ReadSessionMeta => {
                put(&mut members, "action", json_text(String::from_str("read_session_meta")));
            },
        }
        json_object(members)
    }

    /// The value that a JSON document of the wire format states, none
    /// where it states none.
    pub fn from_json(value: &serde_json::Value) -> (read: Option<Self>)
        ensures
            match read {
                Some(x) => read_session_request(json_of(*value)) == Some(x@),
                None => read_session_request(json_of(*value)) is None,
            },
    {
        let name = match json_get(value, "action") {
            Some(tag) => match tag.as_str() {
                Some(name) => name,
                None => {
                    return None;
                },
            },
            None => {
                return None;
            },
        };
        if same_text(name, "initialize") {
            let cwd = match json_get(value, "cwd") {
                None => {
                    return None;
                },
                Some(x) => match text_from_json(x) {
                    Some(v) => v,
                    None => {
                        return None;
                    },
                },
            };
            Some(SessionRequest::Initialize { cwd })
        } else if same_text(name, "open_existing") {
            let cwd = match json_get(value, "cwd") {
                None => {
                    return None;
                },
                Some(x) => match text_from_json(x) {
                    Some(v) => v,
                    None => {
                        return None;
                    },
                },
            };
            let session_dir = match json_get(value, "session_dir") {
                None => {
                    return None;
                },
                Some(x) => match text_from_json(x) {
                    Some(v) => v,
                    None => {
                        return None;
                    },
                },
            };
            Some(SessionRequest::OpenExisting { cwd, session_dir })
        } else if same_text(name, "list_sessions") {
            Some(SessionRequest::ListSessions)
        } else if same_text(name, "read_tasks") {
            Some(SessionRequest::ReadTasks)
        } else if same_text(name, "read_planner_markdown") {
            Some(SessionRequest::ReadPlannerMarkdown)
        } else if same_text(name, "write_rolling_context") {
            let entries = match json_get(value, "entries") {
                None => {
                    return None;
                },
                Some(x) => match text_list_from_json(x) {
                    Some(v) => v,
                    None => {
                        return None;
                    },
                },
            };
            Some(SessionRequest::WriteRollingContext { entries })
        } else if same_text(name, "read_rolling_context") {
            Some(SessionRequest::ReadRollingContext)
        } else if same_text(name, "read_task_fails") {
            Some(SessionRequest::ReadTaskFails)
        } else if same_text(name, "append_task_fails") {
            let entries = match json_get(value, "entries") {
                None => {
                    return None;
                },
                Some(x) => match failure_list_from_json(x) {
                    Some(v) => v,
                    None => {
                        return None;
                    },
                },
            };
            Some(SessionRequest::AppendTaskFails { entries })
        } else if same_text(name, "read_project_info") {
            Some(SessionRequest::ReadProjectInfo)
        } else if same_text(name, "write_project_info") {
            let markdown = match json_get(value, "markdown") {
                None => {
                    return None;
                },
                Some(x) => match text_from_json(x) {
                    Some(v) => v,
                    None => {
                        return None;
                    },
                },
            };
            Some(SessionRequest::WriteProjectInfo { markdown })
        } else if same_text(name, "read_session_meta") {
            Some(SessionRequest::ReadSessionMeta)
        } else {
            None
        }
    }
}

impl SessionResponse {
    /// This value as a JSON document of the wire format.
    pub fn to_json(&self) -> (value: serde_json::Value)
        ensures
            json_of(value) == write_session_response(self@),
    {
        let mut members = new_members();
        match self {
            SessionResponse::Initialized { session } => {
                put(&mut members, "kind", json_text(String::from_str("initialized")));
                put(&mut members, "session", session.to_json());
            },
            SessionResponse::Sessions { sessions } => {
                put(&mut members, "kind", json_text(String::from_str("sessions")));
                put(&mut members, "sessions", session_list_to_json(sessions));
            },
            SessionResponse::Tasks { tasks } => {
                put(&mut members, "kind", json_text(String::from_str("tasks")));
                put(&mut members, "tasks", entry_list_to_json(tasks));
            },
            SessionResponse::PlannerMarkdown { markdown } => {
                put(&mut members, "kind", json_text(String::from_str("planner_markdown")));
                put(&mut members, "markdown", json_text(markdown.clone()));
            },
            SessionResponse::RollingContext { entries } => {
                put(&mut members, "kind", json_text(String::from_str("rolling_context")));
                put(&mut members, "entries", text_list_to_json(entries));
            },
            SessionResponse::TaskFails { entries } => {
                put(&mut members, "kind", json_text(String::from_str("task_fails")));
                put(&mut members, "entries", failure_list_to_json(entries));
            },
            SessionResponse::ProjectInfo { markdown } => {
                put(&mut members, "kind", json_text(String::from_str("project_info")));
                put(&mut members, "markdown", json_text(markdown.clone()));
            },
            SessionResponse::SessionMeta { meta } => {
                put(&mut members, "kind", json_text(String::from_str("session_meta")));
                put(&mut members, "meta", meta.to_json());
            },
            SessionResponse::Ack => {
                put(&mut members, "kind", json_text(String::from_str("ack")));
            },
        }
        json_object(members)
    }

    /// The value that a JSON document of the wire format states, none
    /// where it states none.
    pub fn from_json(value: &serde_json::Value) -> (read: Option<Self>)
        ensures
            match read {
                Some(x) => read_session_response(json_of(*value)) == Some(x@),
                None => read_session_response(json_of(*value)) is None,
            },
    {
        let name = match json_get(value, "kind") {
            Some(tag) => match tag.as_str() {
                Some(name) => name,
                None => {
                    return None;
                },
            },
            None => {
                return None;
            },
        };
        if same_text(name, "initialized") {
            let session = match json_get(value, "session") {
                None => {
                    return None;
                },
                Some(x) => match SessionStoreSnapshotContract::from_json(x) {
                    Some(v) => v,
                    None => {
                        return None;
                    },
                },
            };
            Some(SessionResponse::Initialized { session })
        } else if same_text(name, "sessions") {
            let sessions = match json_get(value, "sessions") {
                None => {
                    return None;
                },
                Some(x) => match session_list_from_json(x) {
                    Some(v) => v,
                    None => {
                        return None;
                    },
                },
            };
            Some(SessionResponse::Sessions { sessions })
        } else if same_text(name, "tasks") {
            let tasks = match json_get(value, "tasks") {
                None => {
                    return None;
                },
                Some(x) => match entry_list_from_json(x) {
                    Some(v) => v,
                    None => {
                        return None;
                    },
                },
            };
            Some(SessionResponse::Tasks { tasks })
        } else if same_text(name, "planner_markdown") {
            let markdown = match json_get(value, "markdown") {
                None => {
                    return None;
                },
                Some(x) => match text_from_json(x) {
                    Some(v) => v,
                    None => {
                        return None;
                    },
                },
            };
            Some(SessionResponse::PlannerMarkdown { markdown })
        } else if same_text(name, "rolling_context") {
            let entries = match json_get(value, "entries") {
                None => {
                    return None;
                },
                Some(x) => match text_list_from_json(x) {
                    Some(v) => v,
                    None => {
                        return None;
                    },
                },
            };
            Some(SessionResponse::RollingContext { entries })
        } else if same_text(name, "task_fails") {
            let entries = match json_get(value, "entries") {
                None => {
                    return None;
                },
                Some(x) => match failure_list_from_json(x) {
                    Some(v) => v,
                    None => {
                        return None;
                    },
                },
            };
            Some(SessionResponse::TaskFails { entries })
        } else if same_text(name, "project_info") {
            let markdown = match json_get(value, "markdown") {
                None => {
                    return None;
                },
                Some(x) => match text_from_json(x) {
                    Some(v) => v,
                    None => {
                        return None;
                    },
                },
            };
            Some(SessionResponse::ProjectInfo { markdown })
        } else if same_text(name, "session_meta") {
            let meta = match json_get(value, "meta") {
                None => {
                    return None;
                },
                Some(x) => match SessionMetaContract::from_json(x) {
                    Some(v) => v,
                    None => {
                        return None;
                    },
                },
            };
            Some(SessionResponse::SessionMeta { meta })
        } else if same_text(name, "ack") {
            Some(SessionResponse::Ack)
        } else {
            None
        }
    }
}

impl SubagentRequest {
    /// This value as a JSON document of the wire format.
    pub fn to_json(&self) -> (value: serde_json::Value)
        ensures
            json_of(value) == write_subagent_request(self@),
    {
        let mut members = new_members();
        match self {
            SubagentRequest::BuildMasterPrompt { tasks_file, workflow_prompt } => {
                put(&mut members, "action", json_text(String::from_str("build_master_prompt")));
                put(&mut members, "tasks_file", json_text(tasks_file.clone()));
                put(&mut members, "workflow_prompt", json_text(workflow_prompt.clone()));
            },
            SubagentRequest::BuildConvertPlanPrompt { planner_file, tasks_file } => {
                put(
                    &mut members,
                    "action",
                    json_text(String::from_str("build_convert_plan_prompt")),
                );
                put(&mut members, "planner_file", json_text(planner_file.clone()));
                put(&mut members, "tasks_file", json_text(tasks_file.clone()));
            },
            SubagentRequest::BuildSessionIntroIfNeeded {
                prompt,
                session_dir,
                session_meta_file,
                project_info,
                intro_needed,
            } => {
                put(
                    &mut members,
                    "action",
                    json_text(String::from_str("build_session_intro_if_needed")),
                );
                put(&mut members, "prompt", json_text(prompt.clone()));
                put(&mut members, "session_dir", json_text(session_dir.clone()));
                put(&mut members, "session_meta_file", json_text(session_meta_file.clone()));
                put(
                    &mut members,
                    "project_info",
                    match project_info {
                        Some(x) => json_text(x.clone()),
                        None => json_null(),
                    },
                );
                put(&mut members, "intro_needed", json_bool(*intro_needed));
            },
            SubagentRequest::BuildFailureReportPrompt {
                task_fails_file,
                failed_this_cycle,
                has_test_failure,
            } => {
                put(
                    &mut members,
                    "action",
                    json_text(String::from_str("build_failure_report_prompt")),
                );
                put(&mut members, "task_fails_file", json_text(task_fails_file.clone()));
                put(&mut members, "failed_this_cycle", failure_list_to_json(failed_this_cycle));
                put(&mut members, "has_test_failure", json_bool(*has_test_failure));
            },
            SubagentRequest::SplitAuditsCommandPrompt => {
                put(
                    &mut members,
                    "action",
                    json_text(String::from_str("split_audits_command_prompt")),
                );
            },
            SubagentRequest::MergeAuditsCommandPrompt => {
                put(
                    &mut members,
                    "action",
                    json_text(String::from_str("merge_audits_command_prompt")),
                );
            },
            SubagentRequest::SplitTestsCommandPrompt => {
                put(
                    &mut members,
                    "action",
                    json_text(String::from_str("split_tests_command_prompt")),
                );
            },
            SubagentRequest::MergeTestsCommandPrompt => {
                put(
                    &mut members,
                    "action",
                    json_text(String::from_str("merge_tests_command_prompt")),
                );
            },
            SubagentRequest::BuildProjectInfoPrompt { cwd, question, output_path } => {
                put(
                    &mut members,
                    "action",
                    json_text(String::from_str("build_project_info_prompt")),
                );
                put(&mut members, "cwd", json_text(cwd.clone()));
                put(&mut members, "question", json_text(question.clone()));
                put(&mut members, "output_path", json_text(output_path.clone()));
            },
            SubagentRequest::BuildSessionMetaPrompt { user_prompt, output_path } => {
                put(
                    &mut members,
                    "action",
                    json_text(String::from_str("build_session_meta_prompt")),
                );
                put(&mut members, "user_prompt", json_text(user_prompt.clone()));
                put(&mut members, "output_path", json_text(output_path.clone()));
            },
            SubagentRequest::BuildTaskCheckPrompt {
                tasks_file,
                project_info_file,
                session_meta_file,
            } => {
                put(&mut members, "action", json_text(String::from_str("build_task_check_prompt")));
                put(&mut members, "tasks_file", json_text(tasks_file.clone()));
                put(&mut members, "project_info_file", json_text(project_info_file.clone()));
                put(&mut members, "session_meta_file", json_text(session_meta_file.clone()));
            },
        }
        json_object(members)
    }

    /// The value that a JSON document of the wire format states, none
    /// where it states none.
    pub fn from_json(value: &serde_json::Value) -> (read: Option<Self>)
        ensures
            match read {
                Some(x) => read_subagent_request(json_of(*value)) == Some(x@),
                None => read_subagent_request(json_of(*value)) is None,
            },
    {
        let name = match json_get(value, "action") {
            Some(tag) => match tag.as_str() {
                Some(name) => name,
                None => {
                    return None;
                },
            },
            None => {
                return None;
            },
        };
        if same_text(name, "build_master_prompt") {
            let tasks_file = match json_get(value, "tasks_file") {
                None => {
                    return None;
                },
                Some(x) => match text_from_json(x) {
                    Some(v) => v,
                    None => {
                        return None;
                    },
                },
            };
            let workflow_prompt = match json_get(value, "workflow_prompt") {
                None => {
                    return None;
                },
                Some(x) => match text_from_json(x) {
                    Some(v) => v,
                    None => {
                        return None;
                    },
                },
            };
            Some(SubagentRequest::BuildMasterPrompt { tasks_file, workflow_prompt })
        } else if same_text(name, "build_convert_plan_prompt") {
            let planner_file = match json_get(value, "planner_file") {
                None => {
                    return None;
                },
                Some(x) => match text_from_json(x) {
                    Some(v) => v,
                    None => {
                        return None;
                    },
                },
            };
            let tasks_file = match json_get(value, "tasks_file") {
                None => {
                    return None;
                },
                Some(x) => match text_from_json(x) {
                    Some(v) => v,
                    None => {
                        return None;
                    },
                },
            };
            Some(SubagentRequest::BuildConvertPlanPrompt { planner_file, tasks_file })
        } else if same_text(name, "build_session_intro_if_needed") {
            let prompt = match json_get(value, "prompt") {
                None => {
                    return None;
                },
                Some(x) => match text_from_json(x) {
                    Some(v) => v,
                    None => {
                        return None;
                    },
                },
            };
            let session_dir = match json_get(value, "session_dir") {
                None => {
                    return None;
                },
                Some(x) => match text_from_json(x) {
                    Some(v) => v,
                    None => {
                        return None;
                    },
                },
            };
            let session_meta_file = match json_get(value, "session_meta_file") {
                None => {
                    return None;
                },
                Some(x) => match text_from_json(x) {
                    Some(v) => v,
                    None => {
                        return None;
                    },
                },
            };
            let project_info = match json_get(value, "project_info") {
                None => None,
                Some(x) => {
                    if x.is_null() {
                        None
                    } else {
                        match text_from_json(x) {
                            Some(v) => Some(v),
                            None => {
                                return None;
                            },
                        }
                    }
                },
            };
            let intro_needed = match json_get(value, "intro_needed") {
                None => {
                    return None;
                },
                Some(x) => match x.as_bool() {
                    Some(v) => v,
                    None => {
                        return None;
                    },
                },
            };
            Some(
                SubagentRequest::BuildSessionIntroIfNeeded {
                    prompt,
                    session_dir,
                    session_meta_file,
                    project_info,
                    intro_needed,
                },
            )
        } else if same_text(name, "build_failure_report_prompt") {
            let task_fails_file = match json_get(value, "task_fails_file") {
                None => {
                    return None;
                },
                Some(x) => match text_from_json(x) {
                    Some(v) => v,
                    None => {
                        return None;
                    },
                },
            };
            let failed_this_cycle = match json_get(value, "failed_this_cycle") {
                None => {
                    return None;
                },
                Some(x) => match failure_list_from_json(x) {
                    Some(v) => v,
                    None => {
                        return None;
                    },
                },
            };
            let has_test_failure = match json_get(value, "has_test_failure") {
                None => {
                    return None;
                },
                Some(x) => match x.as_bool() {
                    Some(v) => v,
                    None => {
                        return None;
                    },
                },
            };
            Some(
                SubagentRequest::BuildFailureReportPrompt {
                    task_fails_file,
                    failed_this_cycle,
                    has_test_failure,
                },
            )
        } else if same_text(name, "split_audits_command_prompt") {
            Some(SubagentRequest::SplitAuditsCommandPrompt)
        } else if same_text(name, "merge_audits_command_prompt") {
            Some(SubagentRequest::MergeAuditsCommandPrompt)
        } else if same_text(name, "split_tests_command_prompt") {
            Some(SubagentRequest::SplitTestsCommandPrompt)
        } else if same_text(name, "merge_tests_command_prompt") {
            Some(SubagentRequest::MergeTestsCommandPrompt)
        } else if same_text(name, "build_project_info_prompt") {
            let cwd = match json_get(value, "cwd") {
                None => {
                    return None;
                },
                Some(x) => match text_from_json(x) {
                    Some(v) => v,
                    None => {
                        return None;
                    },
                },
            };
            let question = match json_get(value, "question") {
                None => {
                    return None;
                },
                Some(x) => match text_from_json(x) {
                    Some(v) => v,
                    None => {
                        return None;
                    },
                },
            };
            let output_path = match json_get(value, "output_path") {
                None => {
                    return None;
                },
                Some(x) => match text_from_json(x) {
                    Some(v) => v,
                    None => {
                        return None;
                    },
                },
            };
            Some(SubagentRequest::BuildProjectInfoPrompt { cwd, question, output_path })
        } else if same_text(name, "build_session_meta_prompt") {
            let user_prompt = match json_get(value, "user_prompt") {
                None => {
                    return None;
                },
                Some(x) => match text_from_json(x) {
                    Some(v) => v,
                    None => {
                        return None;
                    },
                },
            };
            let output_path = match json_get(value, "output_path") {
                None => {
                    return None;
                },
                Some(x) => match text_from_json(x) {
                    Some(v) => v,
                    None => {
                        return None;
                    },
                },
            };
            Some(SubagentRequest::BuildSessionMetaPrompt { user_prompt, output_path })
        } else if same_text(name, "build_task_check_prompt") {
            let tasks_file = match json_get(value, "tasks_file") {
                None => {
                    return None;
                },
                Some(x) => match text_from_json(x) {
                    Some(v) => v,
                    None => {
                        return None;
                    },
                },
            };
            let project_info_file = match json_get(value, "project_info_file") {
                None => {
                    return None;
                },
                Some(x) => match text_from_json(x) {
                    Some(v) => v,
                    None => {
                        return None;
                    },
                },
            };
            let session_meta_file = match json_get(value, "session_meta_file") {
                None => {
                    return None;
                },
                Some(x) => match text_from_json(x) {
                    Some(v) => v,
                    None => {
                        return None;
                    },
                },
            };
            Some(
                SubagentRequest::BuildTaskCheckPrompt {
                    tasks_file,
                    project_info_file,
                    session_meta_file,
                },
            )
        } else {
            None
        }
    }
}

impl SubagentResponse {
    /// This value as a JSON document of the wire format.
    pub fn to_json(&self) -> (value: serde_json::Value)
        ensures
            json_of(value) == write_subagent_response(self@),
    {
        let mut members = new_members();
        match self {
            SubagentResponse::Prompt { text } => {
                put(&mut members, "kind", json_text(String::from_str("prompt")));
                put(&mut members, "text", json_text(text.clone()));
            },
            SubagentResponse::IntroPrompt { text, intro_needed_after } => {
                put(&mut members, "kind", json_text(String::from_str("intro_prompt")));
                put(&mut members, "text", json_text(text.clone()));
                put(&mut members, "intro_needed_after", json_bool(*intro_needed_after));
            },
        }
        json_object(members)
    }

    /// The value that a JSON document of the wire format states, none
    /// where it states none.
    pub fn from_json(value: &serde_json::Value) -> (read: Option<Self>)
        ensures
            match read {
                Some(x) => read_subagent_response(json_of(*value)) == Some(x@),
                None => read_subagent_response(json_of(*value)) is None,
            },
    {
        let name = match json_get(value, "kind") {
            Some(tag) => match tag.as_str() {
                Some(name) => name,
                None => {
                    return None;
                },
            },
            None => {
                return None;
            },
        };
        if same_text(name, "prompt") {
            let text = match json_get(value, "text") {
                None => {
                    return None;
                },
                Some(x) => match text_from_json(x) {
                    Some(v) => v,
                    None => {
                        return None;
                    },
                },
            };
            Some(SubagentResponse::Prompt { text })
        } else if same_text(name, "intro_prompt") {
            let text = match json_get(value, "text") {
                None => {
                    return None;
                },
                Some(x) => match text_from_json(x) {
                    Some(v) => v,
                    None => {
                        return None;
                    },
                },
            };
            let intro_needed_after = match json_get(value, "intro_needed_after") {
                None => {
                    return None;
                },
                Some(x) => match x.as_bool() {
                    Some(v) => v,
                    None => {
                        return None;
                    },
                },
            };
            Some(SubagentResponse::IntroPrompt { text, intro_needed_after })
        } else {
            None
        }
    }
}

impl ApiRequestContract {
    /// This value as a JSON document of the wire format.
    pub fn to_json(&self) -> (value: serde_json::Value)
        ensures
            json_of(value) == write_api_request(self@),
    {
        let mut members = new_members();
        match self {
            ApiRequestContract::App(x) => {
                put(&mut members, "domain", json_text(String::from_str("app")));
                put(&mut members, "request", x.to_json());
            },
            ApiRequestContract::Events(x) => {
                put(&mut members, "domain", json_text(String::from_str("events")));
                put(&mut members, "request", x.to_json());
            },
            ApiRequestContract::Workflow(x) => {
                put(&mut members, "domain", json_text(String::from_str("workflow")));
                put(&mut members, "request", x.to_json());
            },
            ApiRequestContract::Session(x) => {
                put(&mut members, "domain", json_text(String::from_str("session")));
                put(&mut members, "request", x.to_json());
            },
            ApiRequestContract::Subagent(x) => {
                put(&mut members, "domain", json_text(String::from_str("subagent")));
                put(&mut members, "request", x.to_json());
            },
        }
        json_object(members)
    }

    /// The value that a JSON document of the wire format states, none
    /// where it states none.
    pub fn from_json(value: &serde_json::Value) -> (read: Option<Self>)
        ensures
            match read {
                Some(x) => read_api_request(json_of(*value)) == Some(x@),
                None => read_api_request(json_of(*value)) is None,
            },
    {
        let name = match json_get(value, "domain") {
            Some(tag) => match tag.as_str() {
                Some(name) => name,
                None => {
                    return None;
                },
            },
            None => {
                return None;
            },
        };
        if same_text(name, "app") {
            match json_get(value, "request") {
                Some(x) => match AppRequest::from_json(x) {
                    Some(carried) => Some(ApiRequestContract::App(carried)),
                    None => None,
                },
                None => None,
            }
        } else if same_text(name, "events") {
            match json_get(value, "request") {
                Some(x) => match EventsRequest::from_json(x) {
                    Some(carried) => Some(ApiRequestContract::Events(carried)),
                    None => None,
                },
                None => None,
            }
        } else if same_text(name, "workflow") {
            match json_get(value, "request") {
                Some(x) => match WorkflowRequest::from_json(x) {
                    Some(carried) => Some(ApiRequestContract::Workflow(carried)),
                    None => None,
                },
                None => None,
            }
        } else if same_text(name, "session") {
            match json_get(value, "request") {
                Some(x) => match SessionRequest::from_json(x) {
                    Some(carried) => Some(ApiRequestContract::Session(carried)),
                    None => None,
                },
                None => None,
            }
        } else if same_text(name, "subagent") {
            match json_get(value, "request") {
                Some(x) => match SubagentRequest::from_json(x) {
                    Some(carried) => Some(ApiRequestContract::Subagent(carried)),
                    None => None,
                },
                None => None,
            }
        } else {
            None
        }
    }
}

impl ApiResponseContract {
    /// This value as a JSON document of the wire format.
    pub fn to_json(&self) -> (value: serde_json::Value)
        ensures
            json_of(value) == write_api_response(self@),
    {
        let mut members = new_members();
        match self {
            ApiResponseContract::App(x) => {
                put(&mut members, "domain", json_text(String::from_str("app")));
                put(&mut members, "response", x.to_json());
            },
            ApiResponseContract::Events(x) => {
                put(&mut members, "domain", json_text(String::from_str("events")));
                put(&mut members, "response", x.to_json());
            },
            ApiResponseContract::Workflow(x) => {
                put(&mut members, "domain", json_text(String::from_str("workflow")));
                put(&mut members, "response", x.to_json());
            },
            ApiResponseContract::Session(x) => {
                put(&mut members, "domain", json_text(String::from_str("session")));
                put(&mut members, "response", x.to_json());
            },
            ApiResponseContract::Subagent(x) => {
                put(&mut members, "domain", json_text(String::from_str("subagent")));
                put(&mut members, "response", x.to_json());
            },
        }
        json_object(members)
    }

    /// The value that a JSON document of the wire format states, none
    /// where it states none.
    pub fn from_json(value: &serde_json::Value) -> (read: Option<Self>)
        ensures
            match read {
                Some(x) => read_api_response(json_of(*value)) == Some(x@),
                None => read_api_response(json_of(*value)) is None,
            },
    {
        let name = match json_get(value, "domain") {
            Some(tag) => match tag.as_str() {
                Some(name) => name,
                None => {
                    return None;
                },
            },
            None => {
                return None;
            },
        };
        if same_text(name, "app") {
            match json_get(value, "response") {
                Some(x) => match AppResponse::from_json(x) {
                    Some(carried) => Some(ApiResponseContract::App(carried)),
                    None => None,
                },
                None => None,
            }
        } else if same_text(name, "events") {
            match json_get(value, "response") {
                Some(x) => match EventsResponse::from_json(x) {
                    Some(carried) => Some(ApiResponseContract::Events(carried)),
                    None => None,
                },
                None => None,
            }
        } else if same_text(name, "workflow") {
            match json_get(value, "response") {
                Some(x) => match WorkflowResponse::from_json(x) {
                    Some(carried) => Some(ApiResponseContract::Workflow(carried)),
                    None => None,
                },
                None => None,
            }
        } else if same_text(name, "session") {
            match json_get(value, "response") {
                Some(x) => match SessionResponse::from_json(x) {
                    Some(carried) => Some(ApiResponseContract::Session(carried)),
                    None => None,
                },
                None => None,
            }
        } else if same_text(name, "subagent") {
            match json_get(value, "response") {
                Some(x) => match SubagentResponse::from_json(x) {
                    Some(carried) => Some(ApiResponseContract::Subagent(carried)),
                    None => None,
                },
                None => None,
            }
        } else {
            None
        }
    }
}

impl RequestMetadata {
    /// This value as a JSON document of the wire format.
    pub fn to_json(&self) -> (value: serde_json::Value)
        ensures
            json_of(value) == write_metadata(self@),
    {
        let mut members = new_members();
        match &self.transport {
            Some(x) => {
                put(&mut members, "transport", json_text(x.clone()));
            },
            None => {},
        }
        match &self.actor {
            Some(x) => {
                put(&mut members, "actor", json_text(x.clone()));
            },
            None => {},
        }
        json_object(members)
    }

    /// The value that a JSON document of the wire format states, none
    /// where it states none.
    pub fn from_json(value: &serde_json::Value) -> (read: Option<Self>)
        ensures
            match read {
                Some(x) => read_metadata(json_of(*value)) == Some(x@),
                None => read_metadata(json_of(*value)) is None,
            },
    {
        if !value.is_object() {
            return None;
        }
        let transport = match json_get(value, "transport") {
            None => None,
            Some(x) => {
                if x.is_null() {
                    None
                } else {
                    match text_from_json(x) {
                        Some(v) => Some(v),
                        None => {
                            return None;
                        },
                    }
                }
            },
        };
        let actor = match json_get(value, "actor") {
            None => None,
            Some(x) => {
                if x.is_null() {
                    None
                } else {
                    match text_from_json(x) {
                        Some(v) => Some(v),
                        None => {
                            return None;
                        },
                    }
                }
            },
        };
        Some(RequestMetadata { transport, actor })
    }
}

impl ApiErrorEnvelope {
    /// This value as a JSON document of the wire format.
    pub fn to_json(&self) -> (value: serde_json::Value)
        ensures
            json_of(value) == write_error(self@),
    {
        let mut members = new_members();
        put(&mut members, "code", self.code.to_json());
        put(&mut members, "message", json_text(self.message.clone()));
        put(&mut members, "retryable", json_bool(self.retryable));
        match &self.details {
            Some(x) => {
                put(&mut members, "details", x.clone());
            },
            None => {},
        }
        json_object(members)
    }

    /// The value that a JSON document of the wire format states, none
    /// where it states none.
    pub fn from_json(value: &serde_json::Value) -> (read: Option<Self>)
        ensures
            match read {
                Some(x) => read_error(json_of(*value)) == Some(x@),
                None => read_error(json_of(*value)) is None,
            },
    {
        if !value.is_object() {
            return None;
        }
        let code = match json_get(value, "code") {
            None => {
                return None;
            },
            Some(x) => match ApiErrorCode::from_json(x) {
                Some(v) => v,
                None => {
                    return None;
                },
            },
        };
        let message = match json_get(value, "message") {
            None => {
                return None;
            },
            Some(x) => match text_from_json(x) {
                Some(v) => v,
                None => {
                    return None;
                },
            },
        };
        let retryable = match json_get(value, "retryable") {
            None => false,
            Some(x) => match x.as_bool() {
                Some(v) => v,
                None => {
                    return None;
                },
            },
        };
        let details = match json_get(value, "details") {
            None => None,
            Some(x) => {
                if x.is_null() {
                    None
                } else {
                    Some(x.clone())
                }
            },
        };
        Some(ApiErrorEnvelope { code, message, retryable, details })
    }
}

impl ApiResultEnvelope<ApiResponseContract> {
    /// This value as a JSON document of the wire format.
    pub fn to_json(&self) -> (value: serde_json::Value)
        ensures
            json_of(value) == write_result(self@),
    {
        let mut members = new_members();
        match self {
            ApiResultEnvelope::Success { data } => {
                put(&mut members, "status", json_text(String::from_str("ok")));
                put(&mut members, "data", data.to_json());
            },
            ApiResultEnvelope::Failure { error } => {
                put(&mut members, "status", json_text(String::from_str("err")));
                put(&mut members, "error", error.to_json());
            },
        }
        json_object(members)
    }

    /// The value that a JSON document of the wire format states, none
    /// where it states none.
    pub fn from_json(value: &serde_json::Value) -> (read: Option<Self>)
        ensures
            match read {
                Some(x) => read_result(json_of(*value)) == Some(x@),
                None => read_result(json_of(*value)) is None,
            },
    {
        let name = match json_get(value, "status") {
            Some(tag) => match tag.as_str() {
                Some(name) => name,
                None => {
                    return None;
                },
            },
            None => {
                return None;
            },
        };
        if same_text(name, "ok") {
            let data = match json_get(value, "data") {
                None => {
                    return None;
                },
                Some(x) => match ApiResponseContract::from_json(x) {
                    Some(v) => v,
                    None => {
                        return None;
                    },
                },
            };
            Some(ApiResultEnvelope::Success { data })
        } else if same_text(name, "err") {
            let error = match json_get(value, "error") {
                None => {
                    return None;
                },
                Some(x) => match ApiErrorEnvelope::from_json(x) {
                    Some(v) => v,
                    None => {
                        return None;
                    },
                },
            };
            Some(ApiResultEnvelope::Failure { error })
        } else {
            None
        }
    }
}

impl RequestEnvelope<ApiRequestContract> {
    /// This value as a JSON document of the wire format.
    pub fn to_json(&self) -> (value: serde_json::Value)
        ensures
            json_of(value) == write_request(self@),
    {
        let mut members = new_members();
        match &self.request_id {
            Some(x) => {
                put(&mut members, "request_id", json_text(x.clone()));
            },
            None => {},
        }
        put(&mut members, "capability", self.capability.to_json());
        if !self.metadata.states_nothing() {
            put(&mut members, "metadata", self.metadata.to_json());
        }
        put(&mut members, "payload", self.payload.to_json());
        json_object(members)
    }

    /// The value that a JSON document of the wire format states, none
    /// where it states none.
    pub fn from_json(value: &serde_json::Value) -> (read: Option<Self>)
        ensures
            match read {
                Some(x) => read_request(json_of(*value)) == Some(x@),
                None => read_request(json_of(*value)) is None,
            },
    {
        if !value.is_object() {
            return None;
        }
        let request_id = match json_get(value, "request_id") {
            None => None,
            Some(x) => {
                if x.is_null() {
                    None
                } else {
                    match text_from_json(x) {
                        Some(v) => Some(v),
                        None => {
                            return None;
                        },
                    }
                }
            },
        };
        let capability = match json_get(value, "capability") {
            None => {
                return None;
            },
            Some(x) => match CapabilityId::from_json(x) {
                Some(v) => v,
                None => {
                    return None;
                },
            },
        };
        let metadata = match json_get(value, "metadata") {
            None => RequestMetadata { transport: None, actor: None },
            Some(x) => match RequestMetadata::from_json(x) {
                Some(v) => v,
                None => {
                    return None;
                },
            },
        };
        let payload = match json_get(value, "payload") {
            None => {
                return None;
            },
            Some(x) => match ApiRequestContract::from_json(x) {
                Some(v) => v,
                None => {
                    return None;
                },
            },
        };
        Some(RequestEnvelope { request_id, capability, metadata, payload })
    }
}

impl ResponseEnvelope<ApiResponseContract> {
    /// This value as a JSON document of the wire format.
    pub fn to_json(&self) -> (value: serde_json::Value)
        ensures
            json_of(value) == write_response(self@),
    {
        let mut members = new_members();
        match &self.request_id {
            Some(x) => {
                put(&mut members, "request_id", json_text(x.clone()));
            },
            None => {},
        }
        put(&mut members, "capability", self.capability.to_json());
        put(&mut members, "result", self.result.to_json());
        json_object(members)
    }

    /// The value that a JSON document of the wire format states, none
    /// where it states none.
    pub fn from_json(value: &serde_json::Value) -> (read: Option<Self>)
        ensures
            match read {
                Some(x) => read_response(json_of(*value)) == Some(x@),
                None => read_response(json_of(*value)) is None,
            },
    {
        if !value.is_object() {
            return None;
        }
        let request_id = match json_get(value, "request_id") {
            None => None,
            Some(x) => {
                if x.is_null() {
                    None
                } else {
                    match text_from_json(x) {
                        Some(v) => Some(v),
                        None => {
                            return None;
                        },
                    }
                }
            },
        };
        let capability = match json_get(value, "capability") {
            None => {
                return None;
            },
            Some(x) => match CapabilityId::from_json(x) {
                Some(v) => v,
                None => {
                    return None;
                },
            },
        };
        let result = match json_get(value, "result") {
            None => {
                return None;
            },
            Some(x) => match ApiResultEnvelope::<ApiResponseContract>::from_json(x) {
                Some(v) => v,
                None => {
                    return None;
                },
            },
        };
        Some(ResponseEnvelope { request_id, capability, result })
    }
}

impl RequestEnvelope<ApiRequestContract> {
    /// This request as the text of a JSON document of the wire format.
    pub fn to_json_text(&self) -> (text: String)
        ensures
            text@ == printed(write_request(self@)),
    {
        let value = self.to_json();
        print_json(&value)
    }

    /// The request that a text states: the one that the JSON document
    /// states which the text is read as, none where the text is no JSON
    /// document or the document states no request.
    pub fn from_json_text(text: &str) -> (read: Option<Self>)
        ensures
            match parsed(text@) {
                Some(json) => match read {
                    Some(x) => read_request(json) == Some(x@),
                    None => read_request(json) is None,
                },
                None => read is None,
            },
    {
        match parse_json(text) {
            Some(value) => Self::from_json(&value),
            None => None,
        }
    }
}

impl ResponseEnvelope<ApiResponseContract> {
    /// This response as the text of a JSON document of the wire format.
    pub fn to_json_text(&self) -> (text: String)
        ensures
            text@ == printed(write_response(self@)),
    {
        let value = self.to_json();
        print_json(&value)
    }

    /// The response that a text states: the one that the JSON document
    /// states which the text is read as, none where the text is no JSON
    /// document or the document states no response.
    pub fn from_json_text(text: &str) -> (read: Option<Self>)
        ensures
            match parsed(text@) {
                Some(json) => match read {
                    Some(x) => read_response(json) == Some(x@),
                    None => read_response(json) is None,
                },
                None => read is None,
            },
    {
        match parse_json(text) {
            Some(value) => Self::from_json(&value),
            None => None,
        }
    }
}

} // verus!
