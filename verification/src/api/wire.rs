//! The wire format of the API: how each request and response is written
//! as a JSON document and read back from one.
//!
//! Enum variants travel under their names in small letters with
//! underscores. A field that may be absent is read as absent where it is
//! missing or `null`. Where it is absent, a payload writes it as `null`,
//! and an envelope leaves it out, as it leaves out metadata that states
//! nothing. Members that the format does not know are passed over.

use super::capabilities::CapabilityId;
use super::contracts::{
    DocView, EntryView, FailureView, PlannerTaskKindContract, PlannerTaskStatusContract, RunView,
    StartedJobView, WorkerRoleContract, WorkflowFailureKindContract,
};
use super::envelope::ApiErrorCode;
use super::json::{member, Json};
use super::views::{
    ApiRequestView, ApiResponseView, AppEventView, AppRequestView, AppResponseView, ErrorView,
    EventsRequestView, EventsResponseView, MetadataView, RequestView, ResponseView, ResultView,
    SessionListEntryView, SessionMetaView, SessionRequestView, SessionResponseView,
    SessionStoreSnapshotView, SubagentRequestView, SubagentResponseView, WorkflowRequestView,
    WorkflowResponseView,
};
use crate::workflow::pane::ToggleView;
use vstd::prelude::*;

verus! {

/// The members with `value` under `key` where there is a value, and as
/// they are where there is none.
pub open spec fn with_member(
    members: Map<Seq<char>, Json>,
    key: Seq<char>,
    value: Option<Json>,
) -> Map<Seq<char>, Json> {
    match value {
        Some(j) => members.insert(key, j),
        None => members,
    }
}

/// The text that a document states.
pub open spec fn read_text(j: Json) -> Option<Seq<char>> {
    match j {
        Json::Text(s) => Some(s),
        _ => None,
    }
}

/// The truth value that a document states.
pub open spec fn read_bool(j: Json) -> Option<bool> {
    match j {
        Json::Bool(b) => Some(b),
        _ => None,
    }
}

/// The integer from `low` to `high` that a document states.
pub open spec fn read_integer(j: Json, low: int, high: int) -> Option<int> {
    match j {
        Json::Integer(n) => if low <= n <= high {
            Some(n)
        } else {
            None
        },
        _ => None,
    }
}

/// The `u64` that a document states.
pub open spec fn read_u64(j: Json) -> Option<u64> {
    match read_integer(j, 0, u64::MAX as int) {
        Some(n) => Some(n as u64),
        None => None,
    }
}

/// The `u32` that a document states.
pub open spec fn read_u32(j: Json) -> Option<u32> {
    match read_integer(j, 0, u32::MAX as int) {
        Some(n) => Some(n as u32),
        None => None,
    }
}

/// The `u16` that a document states.
pub open spec fn read_u16(j: Json) -> Option<u16> {
    match read_integer(j, 0, u16::MAX as int) {
        Some(n) => Some(n as u16),
        None => None,
    }
}

/// The `u8` that a document states.
pub open spec fn read_u8(j: Json) -> Option<u8> {
    match read_integer(j, 0, u8::MAX as int) {
        Some(n) => Some(n as u8),
        None => None,
    }
}

/// The `usize` that a document states.
pub open spec fn read_usize(j: Json) -> Option<usize> {
    match read_integer(j, 0, usize::MAX as int) {
        Some(n) => Some(n as usize),
        None => None,
    }
}

/// The `i32` that a document states.
pub open spec fn read_i32(j: Json) -> Option<i32> {
    match read_integer(j, i32::MIN as int, i32::MAX as int) {
        Some(n) => Some(n as i32),
        None => None,
    }
}

/// The character that a document states: a text of one character.
pub open spec fn read_char(j: Json) -> Option<char> {
    match j {
        Json::Text(s) => if s.len() == 1 {
            Some(s[0])
        } else {
            None
        },
        _ => None,
    }
}

/// A list of texts on the wire: the array of its items.
pub open spec fn write_text_list(vs: Seq<Seq<char>>) -> Json {
    Json::Array(Seq::new(vs.len(), |i: int| Json::Text(vs[i])))
}

/// The texts that a list of documents states, none where one of them is no text.
pub open spec fn read_text_items(items: Seq<Json>) -> Option<Seq<Seq<char>>>
    decreases items.len(),
{
    if items.len() == 0 {
        Some(Seq::empty())
    } else {
        match (read_text_items(items.drop_last()), read_text(items.last())) {
            (Some(earlier), Some(last)) => Some(earlier.push(last)),
            _ => None,
        }
    }
}

/// The list of texts that a document states.
pub open spec fn read_text_list(j: Json) -> Option<Seq<Seq<char>>> {
    match j {
        Json::Array(items) => read_text_items(items),
        _ => None,
    }
}

/// Reading what was written for a list of texts gives it back.
pub proof fn lemma_text_list_round_trip(vs: Seq<Seq<char>>)
    ensures
        read_text_list(write_text_list(vs)) == Some(vs),
    decreases vs.len(),
{
    let items = write_text_list(vs)->Array_0;
    if vs.len() > 0 {
        let shorter = vs.drop_last();
        lemma_text_list_round_trip(shorter);
        assert(items.drop_last() =~= write_text_list(shorter)->Array_0);
        assert(shorter.push(vs.last()) =~= vs);
    } else {
        assert(vs =~= Seq::empty());
    }
}

/// Once an item is no text, the list states nothing.
pub proof fn lemma_text_items_stay_none(items: Seq<Json>, n: int)
    requires
        0 <= n <= items.len(),
        read_text_items(items.take(n)) is None,
    ensures
        read_text_items(items) is None,
    decreases items.len() - n,
{
    if n < items.len() {
        assert(items.take(n + 1).drop_last() == items.take(n));
        lemma_text_items_stay_none(items, n + 1);
    } else {
        assert(items.take(n) == items);
    }
}

/// Whether the details of an error can be told from absent ones on the
/// wire: details that are the document `null` cannot.
pub open spec fn states_details(error: ErrorView) -> bool {
    error.details != Some(Json::Null)
}

/// Whether the error of a result, if it is one, states its details.
pub open spec fn result_states_details(result: ResultView) -> bool {
    match result {
        ResultView::Failure { error } => states_details(error),
        _ => true,
    }
}

/// A [`CapabilityId`] on the wire: as its name in small letters with underscores.
pub open spec fn write_capability(v: CapabilityId) -> Json {
    match v {
        CapabilityId::AppPromptPreparation => Json::Text("app_prompt_preparation"@),
        CapabilityId::AppPlannerStateSync => Json::Text("app_planner_state_sync"@),
        CapabilityId::AppExecutionControl => Json::Text("app_execution_control"@),
        CapabilityId::EventPolling => Json::Text("event_polling"@),
        CapabilityId::WorkflowTaskGraphSync => Json::Text("workflow_task_graph_sync"@),
        CapabilityId::WorkflowExecutionQueue => Json::Text("workflow_execution_queue"@),
        CapabilityId::WorkflowContextProjection => Json::Text("workflow_context_projection"@),
        CapabilityId::SessionLifecycle => Json::Text("session_lifecycle"@),
        CapabilityId::SessionPlannerStorage => Json::Text("session_planner_storage"@),
        CapabilityId::SessionFailureStorage => Json::Text("session_failure_storage"@),
        CapabilityId::SessionProjectContextStorage => Json::Text(
            "session_project_context_storage"@,
        ),
        CapabilityId::SubagentPromptGeneration => Json::Text("subagent_prompt_generation"@),
    }
}

/// The [`CapabilityId`] that a document states, none where it states none.
pub open spec fn read_capability(j: Json) -> Option<CapabilityId> {
    match j {
        Json::Text(name) => {
            if name == "app_prompt_preparation"@ {
                Some(CapabilityId::AppPromptPreparation)
            } else if name == "app_planner_state_sync"@ {
                Some(CapabilityId::AppPlannerStateSync)
            } else if name == "app_execution_control"@ {
                Some(CapabilityId::AppExecutionControl)
            } else if name == "event_polling"@ {
                Some(CapabilityId::EventPolling)
            } else if name == "workflow_task_graph_sync"@ {
                Some(CapabilityId::WorkflowTaskGraphSync)
            } else if name == "workflow_execution_queue"@ {
                Some(CapabilityId::WorkflowExecutionQueue)
            } else if name == "workflow_context_projection"@ {
                Some(CapabilityId::WorkflowContextProjection)
            } else if name == "session_lifecycle"@ {
                Some(CapabilityId::SessionLifecycle)
            } else if name == "session_planner_storage"@ {
                Some(CapabilityId::SessionPlannerStorage)
            } else if name == "session_failure_storage"@ {
                Some(CapabilityId::SessionFailureStorage)
            } else if name == "session_project_context_storage"@ {
                Some(CapabilityId::SessionProjectContextStorage)
            } else if name == "subagent_prompt_generation"@ {
                Some(CapabilityId::SubagentPromptGeneration)
            } else {
                None
            }
        },
        _ => None,
    }
}

/// Reading what was written for a [`CapabilityId`] gives it back.
pub proof fn lemma_capability_round_trip(v: CapabilityId)
    ensures
        read_capability(write_capability(v)) == Some(v),
{
    reveal_strlit("app_prompt_preparation");
    reveal_strlit("app_planner_state_sync");
    reveal_strlit("app_execution_control");
    reveal_strlit("event_polling");
    reveal_strlit("workflow_task_graph_sync");
    reveal_strlit("workflow_execution_queue");
    reveal_strlit("workflow_context_projection");
    reveal_strlit("session_lifecycle");
    reveal_strlit("session_planner_storage");
    reveal_strlit("session_failure_storage");
    reveal_strlit("session_project_context_storage");
    reveal_strlit("subagent_prompt_generation");
    assert("app_prompt_preparation"@.len() == 22);
    assert("app_planner_state_sync"@.len() == 22);
    assert("app_execution_control"@.len() == 21);
    assert("event_polling"@.len() == 13);
    assert("workflow_task_graph_sync"@.len() == 24);
    assert("workflow_execution_queue"@.len() == 24);
    assert("workflow_context_projection"@.len() == 27);
    assert("session_lifecycle"@.len() == 17);
    assert("session_planner_storage"@.len() == 23);
    assert("session_failure_storage"@.len() == 23);
    assert("session_project_context_storage"@.len() == 31);
    assert("subagent_prompt_generation"@.len() == 26);
    assert("app_prompt_preparation"@[5] != "app_planner_state_sync"@[5]);
    assert("workflow_task_graph_sync"@[9] != "workflow_execution_queue"@[9]);
    assert("session_planner_storage"@[8] != "session_failure_storage"@[8]);
}

/// An [`ApiErrorCode`] on the wire: as its name in small letters with underscores.
pub open spec fn write_error_code(v: ApiErrorCode) -> Json {
    match v {
        ApiErrorCode::InvalidRequest => Json::Text("invalid_request"@),
        ApiErrorCode::ValidationFailed => Json::Text("validation_failed"@),
        ApiErrorCode::NotFound => Json::Text("not_found"@),
        ApiErrorCode::Conflict => Json::Text("conflict"@),
        ApiErrorCode::IoFailure => Json::Text("io_failure"@),
        ApiErrorCode::ExternalFailure => Json::Text("external_failure"@),
        ApiErrorCode::Unsupported => Json::Text("unsupported"@),
        ApiErrorCode::Internal => Json::Text("internal"@),
    }
}

/// The [`ApiErrorCode`] that a document states, none where it states none.
pub open spec fn read_error_code(j: Json) -> Option<ApiErrorCode> {
    match j {
        Json::Text(name) => {
            if name == "invalid_request"@ {
                Some(ApiErrorCode::InvalidRequest)
            } else if name == "validation_failed"@ {
                Some(ApiErrorCode::ValidationFailed)
            } else if name == "not_found"@ {
                Some(ApiErrorCode::NotFound)
            } else if name == "conflict"@ {
                Some(ApiErrorCode::Conflict)
            } else if name == "io_failure"@ {
                Some(ApiErrorCode::IoFailure)
            } else if name == "external_failure"@ {
                Some(ApiErrorCode::ExternalFailure)
            } else if name == "unsupported"@ {
                Some(ApiErrorCode::Unsupported)
            } else if name == "internal"@ {
                Some(ApiErrorCode::Internal)
            } else {
                None
            }
        },
        _ => None,
    }
}

/// Reading what was written for an [`ApiErrorCode`] gives it back.
pub proof fn lemma_error_code_round_trip(v: ApiErrorCode)
    ensures
        read_error_code(write_error_code(v)) == Some(v),
{
    reveal_strlit("invalid_request");
    reveal_strlit("validation_failed");
    reveal_strlit("not_found");
    reveal_strlit("conflict");
    reveal_strlit("io_failure");
    reveal_strlit("external_failure");
    reveal_strlit("unsupported");
    reveal_strlit("internal");
    assert("invalid_request"@.len() == 15);
    assert("validation_failed"@.len() == 17);
    assert("not_found"@.len() == 9);
    assert("conflict"@.len() == 8);
    assert("io_failure"@.len() == 10);
    assert("external_failure"@.len() == 16);
    assert("unsupported"@.len() == 11);
    assert("internal"@.len() == 8);
    assert("conflict"@[0] != "internal"@[0]);
}

/// A [`WorkerRoleContract`] on the wire: as its name in small letters with underscores.
pub open spec fn write_role(v: WorkerRoleContract) -> Json {
    match v {
        WorkerRoleContract::Implementor => Json::Text("implementor"@),
        WorkerRoleContract::Auditor => Json::Text("auditor"@),
        WorkerRoleContract::TestWriter => Json::Text("test_writer"@),
        WorkerRoleContract::TestRunner => Json::Text("test_runner"@),
        WorkerRoleContract::FinalAudit => Json::Text("final_audit"@),
    }
}

/// The [`WorkerRoleContract`] that a document states, none where it states none.
pub open spec fn read_role(j: Json) -> Option<WorkerRoleContract> {
    match j {
        Json::Text(name) => {
            if name == "implementor"@ {
                Some(WorkerRoleContract::Implementor)
            } else if name == "auditor"@ {
                Some(WorkerRoleContract::Auditor)
            } else if name == "test_writer"@ {
                Some(WorkerRoleContract::TestWriter)
            } else if name == "test_runner"@ {
                Some(WorkerRoleContract::TestRunner)
            } else if name == "final_audit"@ {
                Some(WorkerRoleContract::FinalAudit)
            } else {
                None
            }
        },
        _ => None,
    }
}

/// Reading what was written for a [`WorkerRoleContract`] gives it back.
pub proof fn lemma_role_round_trip(v: WorkerRoleContract)
    ensures
        read_role(write_role(v)) == Some(v),
{
    reveal_strlit("implementor");
    reveal_strlit("auditor");
    reveal_strlit("test_writer");
    reveal_strlit("test_runner");
    reveal_strlit("final_audit");
    assert("implementor"@.len() == 11);
    assert("auditor"@.len() == 7);
    assert("test_writer"@.len() == 11);
    assert("test_runner"@.len() == 11);
    assert("final_audit"@.len() == 11);
    assert("implementor"@[0] != "test_writer"@[0]);
    assert("implementor"@[0] != "test_runner"@[0]);
    assert("implementor"@[0] != "final_audit"@[0]);
    assert("test_writer"@[5] != "test_runner"@[5]);
    assert("test_writer"@[0] != "final_audit"@[0]);
    assert("test_runner"@[0] != "final_audit"@[0]);
}

/// A [`PlannerTaskKindContract`] on the wire: as its name in small letters with underscores.
pub open spec fn write_task_kind(v: PlannerTaskKindContract) -> Json {
    match v {
        PlannerTaskKindContract::Task => Json::Text("task"@),
        PlannerTaskKindContract::Implementor => Json::Text("implementor"@),
        PlannerTaskKindContract::Auditor => Json::Text("auditor"@),
        PlannerTaskKindContract::TestWriter => Json::Text("test_writer"@),
        PlannerTaskKindContract::TestRunner => Json::Text("test_runner"@),
        PlannerTaskKindContract::FinalAudit => Json::Text("final_audit"@),
    }
}

/// The [`PlannerTaskKindContract`] that a document states, none where it states none.
pub open spec fn read_task_kind(j: Json) -> Option<PlannerTaskKindContract> {
    match j {
        Json::Text(name) => {
            if name == "task"@ {
                Some(PlannerTaskKindContract::Task)
            } else if name == "implementor"@ {
                Some(PlannerTaskKindContract::Implementor)
            } else if name == "auditor"@ {
                Some(PlannerTaskKindContract::Auditor)
            } else if name == "test_writer"@ {
                Some(PlannerTaskKindContract::TestWriter)
            } else if name == "test_runner"@ {
                Some(PlannerTaskKindContract::TestRunner)
            } else if name == "final_audit"@ {
                Some(PlannerTaskKindContract::FinalAudit)
            } else {
                None
            }
        },
        _ => None,
    }
}

/// Reading what was written for a [`PlannerTaskKindContract`] gives it back.
pub proof fn lemma_task_kind_round_trip(v: PlannerTaskKindContract)
    ensures
        read_task_kind(write_task_kind(v)) == Some(v),
{
    reveal_strlit("task");
    reveal_strlit("implementor");
    reveal_strlit("auditor");
    reveal_strlit("test_writer");
    reveal_strlit("test_runner");
    reveal_strlit("final_audit");
    assert("task"@.len() == 4);
    assert("implementor"@.len() == 11);
    assert("auditor"@.len() == 7);
    assert("test_writer"@.len() == 11);
    assert("test_runner"@.len() == 11);
    assert("final_audit"@.len() == 11);
    assert("implementor"@[0] != "test_writer"@[0]);
    assert("implementor"@[0] != "test_runner"@[0]);
    assert("implementor"@[0] != "final_audit"@[0]);
    assert("test_writer"@[5] != "test_runner"@[5]);
    assert("test_writer"@[0] != "final_audit"@[0]);
    assert("test_runner"@[0] != "final_audit"@[0]);
}

/// A [`PlannerTaskStatusContract`] on the wire: as its name in small letters with underscores.
pub open spec fn write_task_status(v: PlannerTaskStatusContract) -> Json {
    match v {
        PlannerTaskStatusContract::Pending => Json::Text("pending"@),
        PlannerTaskStatusContract::InProgress => Json::Text("in_progress"@),
        PlannerTaskStatusContract::NeedsChanges => Json::Text("needs_changes"@),
        PlannerTaskStatusContract::Done => Json::Text("done"@),
    }
}

/// The [`PlannerTaskStatusContract`] that a document states, none where it states none.
pub open spec fn read_task_status(j: Json) -> Option<PlannerTaskStatusContract> {
    match j {
        Json::Text(name) => {
            if name == "pending"@ {
                Some(PlannerTaskStatusContract::Pending)
            } else if name == "in_progress"@ {
                Some(PlannerTaskStatusContract::InProgress)
            } else if name == "needs_changes"@ {
                Some(PlannerTaskStatusContract::NeedsChanges)
            } else if name == "done"@ {
                Some(PlannerTaskStatusContract::Done)
            } else {
                None
            }
        },
        _ => None,
    }
}

/// Reading what was written for a [`PlannerTaskStatusContract`] gives it back.
pub proof fn lemma_task_status_round_trip(v: PlannerTaskStatusContract)
    ensures
        read_task_status(write_task_status(v)) == Some(v),
{
    reveal_strlit("pending");
    reveal_strlit("in_progress");
    reveal_strlit("needs_changes");
    reveal_strlit("done");
    assert("pending"@.len() == 7);
    assert("in_progress"@.len() == 11);
    assert("needs_changes"@.len() == 13);
    assert("done"@.len() == 4);
}

/// A [`WorkflowFailureKindContract`] on the wire: as its name in small letters with underscores.
pub open spec fn write_failure_kind(v: WorkflowFailureKindContract) -> Json {
    match v {
        WorkflowFailureKindContract::Audit => Json::Text("audit"@),
        WorkflowFailureKindContract::Test => Json::Text("test"@),
    }
}

/// The [`WorkflowFailureKindContract`] that a document states, none where it states none.
pub open spec fn read_failure_kind(j: Json) -> Option<WorkflowFailureKindContract> {
    match j {
        Json::Text(name) => {
            if name == "audit"@ {
                Some(WorkflowFailureKindContract::Audit)
            } else if name == "test"@ {
                Some(WorkflowFailureKindContract::Test)
            } else {
                None
            }
        },
        _ => None,
    }
}

/// Reading what was written for a [`WorkflowFailureKindContract`] gives it back.
pub proof fn lemma_failure_kind_round_trip(v: WorkflowFailureKindContract)
    ensures
        read_failure_kind(write_failure_kind(v)) == Some(v),
{
    reveal_strlit("audit");
    reveal_strlit("test");
    assert("audit"@.len() == 5);
    assert("test"@.len() == 4);
}

/// A [`PlannerTaskDocContract`] on the wire: as an object with one member per field.
pub open spec fn write_doc(v: DocView) -> Json {
    Json::Object(
        Map::<Seq<char>, Json>::empty()
            .insert("title"@, Json::Text(v.title))
            .insert("url"@, Json::Text(v.url))
            .insert("summary"@, Json::Text(v.summary)),
    )
}

/// The [`PlannerTaskDocContract`] that a document states, none where it states none.
pub open spec fn read_doc(j: Json) -> Option<DocView> {
    if !(j is Object) {
        None
    } else {
        let title = match member(j, "title"@) {
            None => None,
            Some(x) => read_text(x),
        };
        let url = match member(j, "url"@) {
            None => None,
            Some(x) => read_text(x),
        };
        let summary = match member(j, "summary"@) {
            None => Some(Seq::<char>::empty()),
            Some(x) => read_text(x),
        };
        if title is Some && url is Some && summary is Some {
            Some(DocView { title: title->0, url: url->0, summary: summary->0 })
        } else {
            None
        }
    }
}

/// Reading what was written for a [`PlannerTaskDocContract`] gives it back.
pub proof fn lemma_doc_round_trip(v: DocView)
    ensures
        read_doc(write_doc(v)) == Some(v),
{
    reveal_strlit("title");
    reveal_strlit("url");
    reveal_strlit("summary");
    assert("title"@.len() == 5);
    assert("url"@.len() == 3);
    assert("summary"@.len() == 7);
}

/// A list of [`PlannerTaskDocContract`] on the wire: the array of its items.
pub open spec fn write_doc_list(vs: Seq<DocView>) -> Json {
    Json::Array(Seq::new(vs.len(), |i: int| write_doc(vs[i])))
}

/// The items that a list of documents states, none where one of them states none.
pub open spec fn read_doc_items(items: Seq<Json>) -> Option<Seq<DocView>>
    decreases items.len(),
{
    if items.len() == 0 {
        Some(Seq::empty())
    } else {
        match (read_doc_items(items.drop_last()), read_doc(items.last())) {
            (Some(earlier), Some(last)) => Some(earlier.push(last)),
            _ => None,
        }
    }
}

/// The list of [`PlannerTaskDocContract`] that a document states.
pub open spec fn read_doc_list(j: Json) -> Option<Seq<DocView>> {
    match j {
        Json::Array(items) => read_doc_items(items),
        _ => None,
    }
}

/// Reading what was written for a list of [`PlannerTaskDocContract`] gives it back.
pub proof fn lemma_doc_list_round_trip(vs: Seq<DocView>)
    ensures
        read_doc_list(write_doc_list(vs)) == Some(vs),
    decreases vs.len(),
{
    let items = write_doc_list(vs)->Array_0;
    if vs.len() > 0 {
        let shorter = vs.drop_last();
        lemma_doc_list_round_trip(shorter);
        assert(items.drop_last() =~= write_doc_list(shorter)->Array_0);
        lemma_doc_round_trip(vs.last());
        assert(shorter.push(vs.last()) =~= vs);
    } else {
        assert(vs =~= Seq::empty());
    }
}

/// Once an item states nothing, the list states nothing.
pub proof fn lemma_doc_items_stay_none(items: Seq<Json>, n: int)
    requires
        0 <= n <= items.len(),
        read_doc_items(items.take(n)) is None,
    ensures
        read_doc_items(items) is None,
    decreases items.len() - n,
{
    if n < items.len() {
        assert(items.take(n + 1).drop_last() == items.take(n));
        lemma_doc_items_stay_none(items, n + 1);
    } else {
        assert(items.take(n) == items);
    }
}

/// A [`PlannerTaskEntryContract`] on the wire: as an object with one member per field.
pub open spec fn write_entry(v: EntryView) -> Json {
    Json::Object(
        Map::<Seq<char>, Json>::empty()
            .insert("id"@, Json::Text(v.id))
            .insert("title"@, Json::Text(v.title))
            .insert("details"@, Json::Text(v.details))
            .insert("docs"@, write_doc_list(v.docs))
            .insert("kind"@, write_task_kind(v.kind))
            .insert("status"@, write_task_status(v.status))
            .insert(
                "parent_id"@,
                match v.parent_id {
                    Some(x) => Json::Text(x),
                    None => Json::Null,
                },
            )
            .insert(
                "order"@,
                match v.order {
                    Some(x) => Json::Integer(x as int),
                    None => Json::Null,
                },
            ),
    )
}

/// The [`PlannerTaskEntryContract`] that a document states, none where it states none.
pub open spec fn read_entry(j: Json) -> Option<EntryView> {
    if !(j is Object) {
        None
    } else {
        let id = match member(j, "id"@) {
            None => None,
            Some(x) => read_text(x),
        };
        let title = match member(j, "title"@) {
            None => None,
            Some(x) => read_text(x),
        };
        let details = match member(j, "details"@) {
            None => Some(Seq::<char>::empty()),
            Some(x) => read_text(x),
        };
        let docs = match member(j, "docs"@) {
            None => Some(Seq::<DocView>::empty()),
            Some(x) => read_doc_list(x),
        };
        let kind = match member(j, "kind"@) {
            None => Some(PlannerTaskKindContract::Task),
            Some(x) => read_task_kind(x),
        };
        let status = match member(j, "status"@) {
            None => Some(PlannerTaskStatusContract::Pending),
            Some(x) => read_task_status(x),
        };
        let parent_id = match member(j, "parent_id"@) {
            None => Some(None),
            Some(Json::Null) => Some(None),
            Some(x) => match read_text(x) {
                Some(v) => Some(Some(v)),
                None => None,
            },
        };
        let order = match member(j, "order"@) {
            None => Some(None),
            Some(Json::Null) => Some(None),
            Some(x) => match read_u32(x) {
                Some(v) => Some(Some(v)),
                None => None,
            },
        };
        if id is Some && title is Some && details is Some && docs is Some && kind is Some
            && status is Some && parent_id is Some && order is Some {
            Some(
                EntryView {
                    id: id->0,
                    title: title->0,
                    details: details->0,
                    docs: docs->0,
                    kind: kind->0,
                    status: status->0,
                    parent_id: parent_id->0,
                    order: order->0,
                },
            )
        } else {
            None
        }
    }
}

/// Reading what was written for a [`PlannerTaskEntryContract`] gives it back.
pub proof fn lemma_entry_round_trip(v: EntryView)
    ensures
        read_entry(write_entry(v)) == Some(v),
{
    reveal_strlit("id");
    reveal_strlit("title");
    reveal_strlit("details");
    reveal_strlit("docs");
    reveal_strlit("kind");
    reveal_strlit("status");
    reveal_strlit("parent_id");
    reveal_strlit("order");
    assert("id"@.len() == 2);
    assert("title"@.len() == 5);
    assert("details"@.len() == 7);
    assert("docs"@.len() == 4);
    assert("kind"@.len() == 4);
    assert("status"@.len() == 6);
    assert("parent_id"@.len() == 9);
    assert("order"@.len() == 5);
    assert("title"@[0] != "order"@[0]);
    assert("docs"@[0] != "kind"@[0]);
    lemma_doc_list_round_trip(v.docs);
    lemma_task_kind_round_trip(v.kind);
    lemma_task_status_round_trip(v.status);
}

/// A list of [`PlannerTaskEntryContract`] on the wire: the array of its items.
pub open spec fn write_entry_list(vs: Seq<EntryView>) -> Json {
    Json::Array(Seq::new(vs.len(), |i: int| write_entry(vs[i])))
}

/// The items that a list of documents states, none where one of them states none.
pub open spec fn read_entry_items(items: Seq<Json>) -> Option<Seq<EntryView>>
    decreases items.len(),
{
    if items.len() == 0 {
        Some(Seq::empty())
    } else {
        match (read_entry_items(items.drop_last()), read_entry(items.last())) {
            (Some(earlier), Some(last)) => Some(earlier.push(last)),
            _ => None,
        }
    }
}

/// The list of [`PlannerTaskEntryContract`] that a document states.
pub open spec fn read_entry_list(j: Json) -> Option<Seq<EntryView>> {
    match j {
        Json::Array(items) => read_entry_items(items),
        _ => None,
    }
}

/// Reading what was written for a list of [`PlannerTaskEntryContract`] gives it back.
pub proof fn lemma_entry_list_round_trip(vs: Seq<EntryView>)
    ensures
        read_entry_list(write_entry_list(vs)) == Some(vs),
    decreases vs.len(),
{
    let items = write_entry_list(vs)->Array_0;
    if vs.len() > 0 {
        let shorter = vs.drop_last();
        lemma_entry_list_round_trip(shorter);
        assert(items.drop_last() =~= write_entry_list(shorter)->Array_0);
        lemma_entry_round_trip(vs.last());
        assert(shorter.push(vs.last()) =~= vs);
    } else {
        assert(vs =~= Seq::empty());
    }
}

/// Once an item states nothing, the list states nothing.
pub proof fn lemma_entry_items_stay_none(items: Seq<Json>, n: int)
    requires
        0 <= n <= items.len(),
        read_entry_items(items.take(n)) is None,
    ensures
        read_entry_items(items) is None,
    decreases items.len() - n,
{
    if n < items.len() {
        assert(items.take(n + 1).drop_last() == items.take(n));
        lemma_entry_items_stay_none(items, n + 1);
    } else {
        assert(items.take(n) == items);
    }
}

/// A [`TaskFailureContract`] on the wire: as an object with one member per field.
pub open spec fn write_failure(v: FailureView) -> Json {
    Json::Object(
        Map::<Seq<char>, Json>::empty()
            .insert("kind"@, write_failure_kind(v.kind))
            .insert("top_task_id"@, Json::Integer(v.top_task_id as int))
            .insert("top_task_title"@, Json::Text(v.top_task_title))
            .insert("attempts"@, Json::Integer(v.attempts as int))
            .insert("reason"@, Json::Text(v.reason))
            .insert("action_taken"@, Json::Text(v.action_taken)),
    )
}

/// The [`TaskFailureContract`] that a document states, none where it states none.
pub open spec fn read_failure(j: Json) -> Option<FailureView> {
    if !(j is Object) {
        None
    } else {
        let kind = match member(j, "kind"@) {
            None => None,
            Some(x) => read_failure_kind(x),
        };
        let top_task_id = match member(j, "top_task_id"@) {
            None => None,
            Some(x) => read_u64(x),
        };
        let top_task_title = match member(j, "top_task_title"@) {
            None => None,
            Some(x) => read_text(x),
        };
        let attempts = match member(j, "attempts"@) {
            None => None,
            Some(x) => read_u8(x),
        };
        let reason = match member(j, "reason"@) {
            None => None,
            Some(x) => read_text(x),
        };
        let action_taken = match member(j, "action_taken"@) {
            None => None,
            Some(x) => read_text(x),
        };
        if kind is Some && top_task_id is Some && top_task_title is Some && attempts is Some
            && reason is Some && action_taken is Some {
            Some(
                FailureView {
                    kind: kind->0,
                    top_task_id: top_task_id->0,
                    top_task_title: top_task_title->0,
                    attempts: attempts->0,
                    reason: reason->0,
                    action_taken: action_taken->0,
                },
            )
        } else {
            None
        }
    }
}

/// Reading what was written for a [`TaskFailureContract`] gives it back.
pub proof fn lemma_failure_round_trip(v: FailureView)
    ensures
        read_failure(write_failure(v)) == Some(v),
{
    reveal_strlit("kind");
    reveal_strlit("top_task_id");
    reveal_strlit("top_task_title");
    reveal_strlit("attempts");
    reveal_strlit("reason");
    reveal_strlit("action_taken");
    assert("kind"@.len() == 4);
    assert("top_task_id"@.len() == 11);
    assert("top_task_title"@.len() == 14);
    assert("attempts"@.len() == 8);
    assert("reason"@.len() == 6);
    assert("action_taken"@.len() == 12);
    lemma_failure_kind_round_trip(v.kind);
}

/// A list of [`TaskFailureContract`] on the wire: the array of its items.
pub open spec fn write_failure_list(vs: Seq<FailureView>) -> Json {
    Json::Array(Seq::new(vs.len(), |i: int| write_failure(vs[i])))
}

/// The items that a list of documents states, none where one of them states none.
pub open spec fn read_failure_items(items: Seq<Json>) -> Option<Seq<FailureView>>
    decreases items.len(),
{
    if items.len() == 0 {
        Some(Seq::empty())
    } else {
        match (read_failure_items(items.drop_last()), read_failure(items.last())) {
            (Some(earlier), Some(last)) => Some(earlier.push(last)),
            _ => None,
        }
    }
}

/// The list of [`TaskFailureContract`] that a document states.
pub open spec fn read_failure_list(j: Json) -> Option<Seq<FailureView>> {
    match j {
        Json::Array(items) => read_failure_items(items),
        _ => None,
    }
}

/// Reading what was written for a list of [`TaskFailureContract`] gives it back.
pub proof fn lemma_failure_list_round_trip(vs: Seq<FailureView>)
    ensures
        read_failure_list(write_failure_list(vs)) == Some(vs),
    decreases vs.len(),
{
    let items = write_failure_list(vs)->Array_0;
    if vs.len() > 0 {
        let shorter = vs.drop_last();
        lemma_failure_list_round_trip(shorter);
        assert(items.drop_last() =~= write_failure_list(shorter)->Array_0);
        lemma_failure_round_trip(vs.last());
        assert(shorter.push(vs.last()) =~= vs);
    } else {
        assert(vs =~= Seq::empty());
    }
}

/// Once an item states nothing, the list states nothing.
pub proof fn lemma_failure_items_stay_none(items: Seq<Json>, n: int)
    requires
        0 <= n <= items.len(),
        read_failure_items(items.take(n)) is None,
    ensures
        read_failure_items(items) is None,
    decreases items.len() - n,
{
    if n < items.len() {
        assert(items.take(n + 1).drop_last() == items.take(n));
        lemma_failure_items_stay_none(items, n + 1);
    } else {
        assert(items.take(n) == items);
    }
}

/// A [`JobRunContract`] on the wire: as an object that names the variant under
/// `run_kind` and holds what the variant carries under `payload`.
pub open spec fn write_run(v: RunView) -> Json {
    match v {
        RunView::AgentPrompt(x) => Json::Object(
            Map::<Seq<char>, Json>::empty()
                .insert("run_kind"@, Json::Text("agent_prompt"@))
                .insert("payload"@, Json::Text(x)),
        ),
        RunView::DeterministicTestRun => Json::Object(
            Map::<Seq<char>, Json>::empty()
                .insert("run_kind"@, Json::Text("deterministic_test_run"@)),
        ),
    }
}

/// The [`JobRunContract`] that a document states, none where it states none.
pub open spec fn read_run(j: Json) -> Option<RunView> {
    match member(j, "run_kind"@) {
        Some(Json::Text(name)) => {
            if name == "agent_prompt"@ {
                match member(j, "payload"@) {
                    Some(x) => match read_text(x) {
                        Some(carried) => Some(RunView::AgentPrompt(carried)),
                        None => None,
                    },
                    None => None,
                }
            } else if name == "deterministic_test_run"@ {
                match member(j, "payload"@) {
                    None => Some(RunView::DeterministicTestRun),
                    Some(Json::Null) => Some(RunView::DeterministicTestRun),
                    Some(_) => None,
                }
            } else {
                None
            }
        },
        _ => None,
    }
}

/// Reading what was written for a [`JobRunContract`] gives it back.
pub proof fn lemma_run_round_trip(v: RunView)
    ensures
        read_run(write_run(v)) == Some(v),
{
    reveal_strlit("run_kind");
    reveal_strlit("payload");
    reveal_strlit("agent_prompt");
    reveal_strlit("deterministic_test_run");
    assert("run_kind"@.len() == 8);
    assert("payload"@.len() == 7);
    assert("agent_prompt"@.len() == 12);
    assert("deterministic_test_run"@.len() == 22);
    match v {
        RunView::AgentPrompt(x) => {
        },
        RunView::DeterministicTestRun => {},
    }
}

/// A [`StartedWorkerJobContract`] on the wire: as an object with one member per field.
pub open spec fn write_started_job(v: StartedJobView) -> Json {
    Json::Object(
        Map::<Seq<char>, Json>::empty()
            .insert("run"@, write_run(v.run))
            .insert("role"@, write_role(v.role))
            .insert("top_task_id"@, Json::Integer(v.top_task_id as int))
            .insert(
                "parent_context_key"@,
                match v.parent_context_key {
                    Some(x) => Json::Text(x),
                    None => Json::Null,
                },
            ),
    )
}

/// The [`StartedWorkerJobContract`] that a document states, none where it states none.
pub open spec fn read_started_job(j: Json) -> Option<StartedJobView> {
    if !(j is Object) {
        None
    } else {
        let run = match member(j, "run"@) {
            None => None,
            Some(x) => read_run(x),
        };
        let role = match member(j, "role"@) {
            None => None,
            Some(x) => read_role(x),
        };
        let top_task_id = match member(j, "top_task_id"@) {
            None => None,
            Some(x) => read_u64(x),
        };
        let parent_context_key = match member(j, "parent_context_key"@) {
            None => Some(None),
            Some(Json::Null) => Some(None),
            Some(x) => match read_text(x) {
                Some(v) => Some(Some(v)),
                None => None,
            },
        };
        if run is Some && role is Some && top_task_id is Some && parent_context_key is Some {
            Some(
                StartedJobView {
                    run: run->0,
                    role: role->0,
                    top_task_id: top_task_id->0,
                    parent_context_key: parent_context_key->0,
                },
            )
        } else {
            None
        }
    }
}

/// Reading what was written for a [`StartedWorkerJobContract`] gives it back.
pub proof fn lemma_started_job_round_trip(v: StartedJobView)
    ensures
        read_started_job(write_started_job(v)) == Some(v),
{
    reveal_strlit("run");
    reveal_strlit("role");
    reveal_strlit("top_task_id");
    reveal_strlit("parent_context_key");
    assert("run"@.len() == 3);
    assert("role"@.len() == 4);
    assert("top_task_id"@.len() == 11);
    assert("parent_context_key"@.len() == 18);
    lemma_run_round_trip(v.run);
    lemma_role_round_trip(v.role);
}

/// A [`RightPaneToggleContract`] on the wire: as an object with one member per field.
pub open spec fn write_toggle(v: ToggleView) -> Json {
    Json::Object(
        Map::<Seq<char>, Json>::empty()
            .insert("line_index"@, Json::Integer(v.line_index as int))
            .insert("task_key"@, Json::Text(v.task_key)),
    )
}

/// The [`RightPaneToggleContract`] that a document states, none where it states none.
pub open spec fn read_toggle(j: Json) -> Option<ToggleView> {
    if !(j is Object) {
        None
    } else {
        let line_index = match member(j, "line_index"@) {
            None => None,
            Some(x) => read_usize(x),
        };
        let task_key = match member(j, "task_key"@) {
            None => None,
            Some(x) => read_text(x),
        };
        if line_index is Some && task_key is Some {
            Some(ToggleView { line_index: line_index->0, task_key: task_key->0 })
        } else {
            None
        }
    }
}

/// Reading what was written for a [`RightPaneToggleContract`] gives it back.
pub proof fn lemma_toggle_round_trip(v: ToggleView)
    ensures
        read_toggle(write_toggle(v)) == Some(v),
{
    reveal_strlit("line_index");
    reveal_strlit("task_key");
    assert("line_index"@.len() == 10);
    assert("task_key"@.len() == 8);
}

/// A list of [`RightPaneToggleContract`] on the wire: the array of its items.
pub open spec fn write_toggle_list(vs: Seq<ToggleView>) -> Json {
    Json::Array(Seq::new(vs.len(), |i: int| write_toggle(vs[i])))
}

/// The items that a list of documents states, none where one of them states none.
pub open spec fn read_toggle_items(items: Seq<Json>) -> Option<Seq<ToggleView>>
    decreases items.len(),
{
    if items.len() == 0 {
        Some(Seq::empty())
    } else {
        match (read_toggle_items(items.drop_last()), read_toggle(items.last())) {
            (Some(earlier), Some(last)) => Some(earlier.push(last)),
            _ => None,
        }
    }
}

/// The list of [`RightPaneToggleContract`] that a document states.
pub open spec fn read_toggle_list(j: Json) -> Option<Seq<ToggleView>> {
    match j {
        Json::Array(items) => read_toggle_items(items),
        _ => None,
    }
}

/// Reading what was written for a list of [`RightPaneToggleContract`] gives it back.
pub proof fn lemma_toggle_list_round_trip(vs: Seq<ToggleView>)
    ensures
        read_toggle_list(write_toggle_list(vs)) == Some(vs),
    decreases vs.len(),
{
    let items = write_toggle_list(vs)->Array_0;
    if vs.len() > 0 {
        let shorter = vs.drop_last();
        lemma_toggle_list_round_trip(shorter);
        assert(items.drop_last() =~= write_toggle_list(shorter)->Array_0);
        lemma_toggle_round_trip(vs.last());
        assert(shorter.push(vs.last()) =~= vs);
    } else {
        assert(vs =~= Seq::empty());
    }
}

/// Once an item states nothing, the list states nothing.
pub proof fn lemma_toggle_items_stay_none(items: Seq<Json>, n: int)
    requires
        0 <= n <= items.len(),
        read_toggle_items(items.take(n)) is None,
    ensures
        read_toggle_items(items) is None,
    decreases items.len() - n,
{
    if n < items.len() {
        assert(items.take(n + 1).drop_last() == items.take(n));
        lemma_toggle_items_stay_none(items, n + 1);
    } else {
        assert(items.take(n) == items);
    }
}

/// A [`SessionStoreSnapshotContract`] on the wire: as an object with one member per field.
pub open spec fn write_snapshot(v: SessionStoreSnapshotView) -> Json {
    Json::Object(
        Map::<Seq<char>, Json>::empty()
            .insert("session_dir"@, Json::Text(v.session_dir))
            .insert("tasks_file"@, Json::Text(v.tasks_file))
            .insert("planner_file"@, Json::Text(v.planner_file))
            .insert("task_fails_file"@, Json::Text(v.task_fails_file))
            .insert("project_info_file"@, Json::Text(v.project_info_file))
            .insert("session_meta_file"@, Json::Text(v.session_meta_file)),
    )
}

/// The [`SessionStoreSnapshotContract`] that a document states, none where it states none.
pub open spec fn read_snapshot(j: Json) -> Option<SessionStoreSnapshotView> {
    if !(j is Object) {
        None
    } else {
        let session_dir = match member(j, "session_dir"@) {
            None => None,
            Some(x) => read_text(x),
        };
        let tasks_file = match member(j, "tasks_file"@) {
            None => None,
            Some(x) => read_text(x),
        };
        let planner_file = match member(j, "planner_file"@) {
            None => None,
            Some(x) => read_text(x),
        };
        let task_fails_file = match member(j, "task_fails_file"@) {
            None => None,
            Some(x) => read_text(x),
        };
        let project_info_file = match member(j, "project_info_file"@) {
            None => None,
            Some(x) => read_text(x),
        };
        let session_meta_file = match member(j, "session_meta_file"@) {
            None => None,
            Some(x) => read_text(x),
        };
        if session_dir is Some && tasks_file is Some && planner_file is Some
            && task_fails_file is Some && project_info_file is Some && session_meta_file is Some {
            Some(
                SessionStoreSnapshotView {
                    session_dir: session_dir->0,
                    tasks_file: tasks_file->0,
                    planner_file: planner_file->0,
                    task_fails_file: task_fails_file->0,
                    project_info_file: project_info_file->0,
                    session_meta_file: session_meta_file->0,
                },
            )
        } else {
            None
        }
    }
}

/// Reading what was written for a [`SessionStoreSnapshotContract`] gives it back.
pub proof fn lemma_snapshot_round_trip(v: SessionStoreSnapshotView)
    ensures
        read_snapshot(write_snapshot(v)) == Some(v),
{
    reveal_strlit("session_dir");
    reveal_strlit("tasks_file");
    reveal_strlit("planner_file");
    reveal_strlit("task_fails_file");
    reveal_strlit("project_info_file");
    reveal_strlit("session_meta_file");
    assert("session_dir"@.len() == 11);
    assert("tasks_file"@.len() == 10);
    assert("planner_file"@.len() == 12);
    assert("task_fails_file"@.len() == 15);
    assert("project_info_file"@.len() == 17);
    assert("session_meta_file"@.len() == 17);
    assert("project_info_file"@[0] != "session_meta_file"@[0]);
}

/// A [`SessionListEntryContract`] on the wire: as an object with one member per field.
pub open spec fn write_session(v: SessionListEntryView) -> Json {
    Json::Object(
        Map::<Seq<char>, Json>::empty()
            .insert("session_dir"@, Json::Text(v.session_dir))
            .insert("workspace"@, Json::Text(v.workspace))
            .insert(
                "title"@,
                match v.title {
                    Some(x) => Json::Text(x),
                    None => Json::Null,
                },
            )
            .insert(
                "created_at_label"@,
                match v.created_at_label {
                    Some(x) => Json::Text(x),
                    None => Json::Null,
                },
            )
            .insert("created_at_epoch_secs"@, Json::Integer(v.created_at_epoch_secs as int))
            .insert("last_used_epoch_secs"@, Json::Integer(v.last_used_epoch_secs as int)),
    )
}

/// The [`SessionListEntryContract`] that a document states, none where it states none.
pub open spec fn read_session(j: Json) -> Option<SessionListEntryView> {
    if !(j is Object) {
        None
    } else {
        let session_dir = match member(j, "session_dir"@) {
            None => None,
            Some(x) => read_text(x),
        };
        let workspace = match member(j, "workspace"@) {
            None => None,
            Some(x) => read_text(x),
        };
        let title = match member(j, "title"@) {
            None => Some(None),
            Some(Json::Null) => Some(None),
            Some(x) => match read_text(x) {
                Some(v) => Some(Some(v)),
                None => None,
            },
        };
        let created_at_label = match member(j, "created_at_label"@) {
            None => Some(None),
            Some(Json::Null) => Some(None),
            Some(x) => match read_text(x) {
                Some(v) => Some(Some(v)),
                None => None,
            },
        };
        let created_at_epoch_secs = match member(j, "created_at_epoch_secs"@) {
            None => None,
            Some(x) => read_u64(x),
        };
        let last_used_epoch_secs = match member(j, "last_used_epoch_secs"@) {
            None => None,
            Some(x) => read_u64(x),
        };
        if session_dir is Some && workspace is Some && title is Some && created_at_label is Some
            && created_at_epoch_secs is Some && last_used_epoch_secs is Some {
            Some(
                SessionListEntryView {
                    session_dir: session_dir->0,
                    workspace: workspace->0,
                    title: title->0,
                    created_at_label: created_at_label->0,
                    created_at_epoch_secs: created_at_epoch_secs->0,
                    last_used_epoch_secs: last_used_epoch_secs->0,
                },
            )
        } else {
            None
        }
    }
}

/// Reading what was written for a [`SessionListEntryContract`] gives it back.
pub proof fn lemma_session_round_trip(v: SessionListEntryView)
    ensures
        read_session(write_session(v)) == Some(v),
{
    reveal_strlit("session_dir");
    reveal_strlit("workspace");
    reveal_strlit("title");
    reveal_strlit("created_at_label");
    reveal_strlit("created_at_epoch_secs");
    reveal_strlit("last_used_epoch_secs");
    assert("session_dir"@.len() == 11);
    assert("workspace"@.len() == 9);
    assert("title"@.len() == 5);
    assert("created_at_label"@.len() == 16);
    assert("created_at_epoch_secs"@.len() == 21);
    assert("last_used_epoch_secs"@.len() == 20);
}

/// A list of [`SessionListEntryContract`] on the wire: the array of its items.
pub open spec fn write_session_list(vs: Seq<SessionListEntryView>) -> Json {
    Json::Array(Seq::new(vs.len(), |i: int| write_session(vs[i])))
}

/// The items that a list of documents states, none where one of them states none.
pub open spec fn read_session_items(items: Seq<Json>) -> Option<Seq<SessionListEntryView>>
    decreases items.len(),
{
    if items.len() == 0 {
        Some(Seq::empty())
    } else {
        match (read_session_items(items.drop_last()), read_session(items.last())) {
            (Some(earlier), Some(last)) => Some(earlier.push(last)),
            _ => None,
        }
    }
}

/// The list of [`SessionListEntryContract`] that a document states.
pub open spec fn read_session_list(j: Json) -> Option<Seq<SessionListEntryView>> {
    match j {
        Json::Array(items) => read_session_items(items),
        _ => None,
    }
}

/// Reading what was written for a list of [`SessionListEntryContract`] gives it back.
pub proof fn lemma_session_list_round_trip(vs: Seq<SessionListEntryView>)
    ensures
        read_session_list(write_session_list(vs)) == Some(vs),
    decreases vs.len(),
{
    let items = write_session_list(vs)->Array_0;
    if vs.len() > 0 {
        let shorter = vs.drop_last();
        lemma_session_list_round_trip(shorter);
        assert(items.drop_last() =~= write_session_list(shorter)->Array_0);
        lemma_session_round_trip(vs.last());
        assert(shorter.push(vs.last()) =~= vs);
    } else {
        assert(vs =~= Seq::empty());
    }
}

/// Once an item states nothing, the list states nothing.
pub proof fn lemma_session_items_stay_none(items: Seq<Json>, n: int)
    requires
        0 <= n <= items.len(),
        read_session_items(items.take(n)) is None,
    ensures
        read_session_items(items) is None,
    decreases items.len() - n,
{
    if n < items.len() {
        assert(items.take(n + 1).drop_last() == items.take(n));
        lemma_session_items_stay_none(items, n + 1);
    } else {
        assert(items.take(n) == items);
    }
}

/// A [`SessionMetaContract`] on the wire: as an object with one member per field.
pub open spec fn write_session_meta(v: SessionMetaView) -> Json {
    Json::Object(
        Map::<Seq<char>, Json>::empty()
            .insert("title"@, Json::Text(v.title))
            .insert("created_at"@, Json::Text(v.created_at))
            .insert("stack_description"@, Json::Text(v.stack_description))
            .insert(
                "test_command"@,
                match v.test_command {
                    Some(x) => Json::Text(x),
                    None => Json::Null,
                },
            ),
    )
}

/// The [`SessionMetaContract`] that a document states, none where it states none.
pub open spec fn read_session_meta(j: Json) -> Option<SessionMetaView> {
    if !(j is Object) {
        None
    } else {
        let title = match member(j, "title"@) {
            None => None,
            Some(x) => read_text(x),
        };
        let created_at = match member(j, "created_at"@) {
            None => None,
            Some(x) => read_text(x),
        };
        let stack_description = match member(j, "stack_description"@) {
            None => Some(Seq::<char>::empty()),
            Some(x) => read_text(x),
        };
        let test_command = match member(j, "test_command"@) {
            None => Some(None),
            Some(Json::Null) => Some(None),
            Some(x) => match read_text(x) {
                Some(v) => Some(Some(v)),
                None => None,
            },
        };
        if title is Some && created_at is Some && stack_description is Some
            && test_command is Some {
            Some(
                SessionMetaView {
                    title: title->0,
                    created_at: created_at->0,
                    stack_description: stack_description->0,
                    test_command: test_command->0,
                },
            )
        } else {
            None
        }
    }
}

/// Reading what was written for a [`SessionMetaContract`] gives it back.
pub proof fn lemma_session_meta_round_trip(v: SessionMetaView)
    ensures
        read_session_meta(write_session_meta(v)) == Some(v),
{
    reveal_strlit("title");
    reveal_strlit("created_at");
    reveal_strlit("stack_description");
    reveal_strlit("test_command");
    assert("title"@.len() == 5);
    assert("created_at"@.len() == 10);
    assert("stack_description"@.len() == 17);
    assert("test_command"@.len() == 12);
}

/// An [`AppEventContract`] on the wire: as an object that names the variant
/// under `type` and holds what the variant carries under `payload`.
pub open spec fn write_app_event(v: AppEventView) -> Json {
    match v {
        AppEventView::Tick => Json::Object(
            Map::<Seq<char>, Json>::empty()
                .insert("type"@, Json::Text("tick"@)),
        ),
        AppEventView::Quit => Json::Object(
            Map::<Seq<char>, Json>::empty()
                .insert("type"@, Json::Text("quit"@)),
        ),
        AppEventView::NextPane => Json::Object(
            Map::<Seq<char>, Json>::empty()
                .insert("type"@, Json::Text("next_pane"@)),
        ),
        AppEventView::PrevPane => Json::Object(
            Map::<Seq<char>, Json>::empty()
                .insert("type"@, Json::Text("prev_pane"@)),
        ),
        AppEventView::MoveUp => Json::Object(
            Map::<Seq<char>, Json>::empty()
                .insert("type"@, Json::Text("move_up"@)),
        ),
        AppEventView::MoveDown => Json::Object(
            Map::<Seq<char>, Json>::empty()
                .insert("type"@, Json::Text("move_down"@)),
        ),
        AppEventView::CursorLeft => Json::Object(
            Map::<Seq<char>, Json>::empty()
                .insert("type"@, Json::Text("cursor_left"@)),
        ),
        AppEventView::CursorRight => Json::Object(
            Map::<Seq<char>, Json>::empty()
                .insert("type"@, Json::Text("cursor_right"@)),
        ),
        AppEventView::ScrollChatUp => Json::Object(
            Map::<Seq<char>, Json>::empty()
                .insert("type"@, Json::Text("scroll_chat_up"@)),
        ),
        AppEventView::ScrollChatDown => Json::Object(
            Map::<Seq<char>, Json>::empty()
                .insert("type"@, Json::Text("scroll_chat_down"@)),
        ),
        AppEventView::ScrollRightUpGlobal => Json::Object(
            Map::<Seq<char>, Json>::empty()
                .insert("type"@, Json::Text("scroll_right_up_global"@)),
        ),
        AppEventView::ScrollRightDownGlobal => Json::Object(
            Map::<Seq<char>, Json>::empty()
                .insert("type"@, Json::Text("scroll_right_down_global"@)),
        ),
        AppEventView::InputChar(x) => Json::Object(
            Map::<Seq<char>, Json>::empty()
                .insert("type"@, Json::Text("input_char"@))
                .insert("payload"@, Json::Text(seq![x])),
        ),
        AppEventView::Backspace => Json::Object(
            Map::<Seq<char>, Json>::empty()
                .insert("type"@, Json::Text("backspace"@)),
        ),
        AppEventView::Submit => Json::Object(
            Map::<Seq<char>, Json>::empty()
                .insert("type"@, Json::Text("submit"@)),
        ),
        AppEventView::MouseScrollUp => Json::Object(
            Map::<Seq<char>, Json>::empty()
                .insert("type"@, Json::Text("mouse_scroll_up"@)),
        ),
        AppEventView::MouseScrollDown => Json::Object(
            Map::<Seq<char>, Json>::empty()
                .insert("type"@, Json::Text("mouse_scroll_down"@)),
        ),
        AppEventView::MouseLeftClick { column, row } => Json::Object(
            Map::<Seq<char>, Json>::empty()
                .insert("type"@, Json::Text("mouse_left_click"@))
                .insert(
                    "payload"@,
                    Json::Object(
                                    Map::<Seq<char>, Json>::empty()
                                        .insert("column"@, Json::Integer(column as int))
                                        .insert("row"@, Json::Integer(row as int)),
                                ),
                ),
        ),
    }
}

/// The [`AppEventContract`] that a document states, none where it states none.
pub open spec fn read_app_event(j: Json) -> Option<AppEventView> {
    match member(j, "type"@) {
        Some(Json::Text(name)) => {
            if name == "tick"@ {
                match member(j, "payload"@) {
                    None => Some(AppEventView::Tick),
                    Some(Json::Null) => Some(AppEventView::Tick),
                    Some(_) => None,
                }
            } else if name == "quit"@ {
                match member(j, "payload"@) {
                    None => Some(AppEventView::Quit),
                    Some(Json::Null) => Some(AppEventView::Quit),
                    Some(_) => None,
                }
            } else if name == "next_pane"@ {
                match member(j, "payload"@) {
                    None => Some(AppEventView::NextPane),
                    Some(Json::Null) => Some(AppEventView::NextPane),
                    Some(_) => None,
                }
            } else if name == "prev_pane"@ {
                match member(j, "payload"@) {
                    None => Some(AppEventView::PrevPane),
                    Some(Json::Null) => Some(AppEventView::PrevPane),
                    Some(_) => None,
                }
            } else if name == "move_up"@ {
                match member(j, "payload"@) {
                    None => Some(AppEventView::MoveUp),
                    Some(Json::Null) => Some(AppEventView::MoveUp),
                    Some(_) => None,
                }
            } else if name == "move_down"@ {
                match member(j, "payload"@) {
                    None => Some(AppEventView::MoveDown),
                    Some(Json::Null) => Some(AppEventView::MoveDown),
                    Some(_) => None,
                }
            } else if name == "cursor_left"@ {
                match member(j, "payload"@) {
                    None => Some(AppEventView::CursorLeft),
                    Some(Json::Null) => Some(AppEventView::CursorLeft),
                    Some(_) => None,
                }
            } else if name == "cursor_right"@ {
                match member(j, "payload"@) {
                    None => Some(AppEventView::CursorRight),
                    Some(Json::Null) => Some(AppEventView::CursorRight),
                    Some(_) => None,
                }
            } else if name == "scroll_chat_up"@ {
                match member(j, "payload"@) {
                    None => Some(AppEventView::ScrollChatUp),
                    Some(Json::Null) => Some(AppEventView::ScrollChatUp),
                    Some(_) => None,
                }
            } else if name == "scroll_chat_down"@ {
                match member(j, "payload"@) {
                    None => Some(AppEventView::ScrollChatDown),
                    Some(Json::Null) => Some(AppEventView::ScrollChatDown),
                    Some(_) => None,
                }
            } else if name == "scroll_right_up_global"@ {
                match member(j, "payload"@) {
                    None => Some(AppEventView::ScrollRightUpGlobal),
                    Some(Json::Null) => Some(AppEventView::ScrollRightUpGlobal),
                    Some(_) => None,
                }
            } else if name == "scroll_right_down_global"@ {
                match member(j, "payload"@) {
                    None => Some(AppEventView::ScrollRightDownGlobal),
                    Some(Json::Null) => Some(AppEventView::ScrollRightDownGlobal),
                    Some(_) => None,
                }
            } else if name == "input_char"@ {
                match member(j, "payload"@) {
                    Some(x) => match read_char(x) {
                        Some(carried) => Some(AppEventView::InputChar(carried)),
                        None => None,
                    },
                    None => None,
                }
            } else if name == "backspace"@ {
                match member(j, "payload"@) {
                    None => Some(AppEventView::Backspace),
                    Some(Json::Null) => Some(AppEventView::Backspace),
                    Some(_) => None,
                }
            } else if name == "submit"@ {
                match member(j, "payload"@) {
                    None => Some(AppEventView::Submit),
                    Some(Json::Null) => Some(AppEventView::Submit),
                    Some(_) => None,
                }
            } else if name == "mouse_scroll_up"@ {
                match member(j, "payload"@) {
                    None => Some(AppEventView::MouseScrollUp),
                    Some(Json::Null) => Some(AppEventView::MouseScrollUp),
                    Some(_) => None,
                }
            } else if name == "mouse_scroll_down"@ {
                match member(j, "payload"@) {
                    None => Some(AppEventView::MouseScrollDown),
                    Some(Json::Null) => Some(AppEventView::MouseScrollDown),
                    Some(_) => None,
                }
            } else if name == "mouse_left_click"@ {
                match member(j, "payload"@) {
                    Some(x) => if x is Object {
                        let column = match member(x, "column"@) {
                            None => None,
                            Some(x) => read_u16(x),
                        };
                        let row = match member(x, "row"@) {
                            None => None,
                            Some(x) => read_u16(x),
                        };
                        if column is Some && row is Some {
                            Some(AppEventView::MouseLeftClick { column: column->0, row: row->0 })
                        } else {
                            None
                        }
                    } else {
                        None
                    },
                    None => None,
                }
            } else {
                None
            }
        },
        _ => None,
    }
}

/// Reading what was written for an [`AppEventContract`] gives it back.
pub proof fn lemma_app_event_round_trip(v: AppEventView)
    ensures
        read_app_event(write_app_event(v)) == Some(v),
{
    reveal_strlit("type");
    reveal_strlit("payload");
    reveal_strlit("tick");
    reveal_strlit("quit");
    reveal_strlit("next_pane");
    reveal_strlit("prev_pane");
    reveal_strlit("move_up");
    reveal_strlit("move_down");
    reveal_strlit("cursor_left");
    reveal_strlit("cursor_right");
    reveal_strlit("scroll_chat_up");
    reveal_strlit("scroll_chat_down");
    reveal_strlit("scroll_right_up_global");
    reveal_strlit("scroll_right_down_global");
    reveal_strlit("input_char");
    reveal_strlit("backspace");
    reveal_strlit("submit");
    reveal_strlit("mouse_scroll_up");
    reveal_strlit("mouse_scroll_down");
    reveal_strlit("mouse_left_click");
    reveal_strlit("column");
    reveal_strlit("row");
    assert("type"@.len() == 4);
    assert("payload"@.len() == 7);
    assert("tick"@.len() == 4);
    assert("quit"@.len() == 4);
    assert("next_pane"@.len() == 9);
    assert("prev_pane"@.len() == 9);
    assert("move_up"@.len() == 7);
    assert("move_down"@.len() == 9);
    assert("cursor_left"@.len() == 11);
    assert("cursor_right"@.len() == 12);
    assert("scroll_chat_up"@.len() == 14);
    assert("scroll_chat_down"@.len() == 16);
    assert("scroll_right_up_global"@.len() == 22);
    assert("scroll_right_down_global"@.len() == 24);
    assert("input_char"@.len() == 10);
    assert("backspace"@.len() == 9);
    assert("submit"@.len() == 6);
    assert("mouse_scroll_up"@.len() == 15);
    assert("mouse_scroll_down"@.len() == 17);
    assert("mouse_left_click"@.len() == 16);
    assert("column"@.len() == 6);
    assert("row"@.len() == 3);
    assert("type"@[1] != "tick"@[1]);
    assert("type"@[0] != "quit"@[0]);
    assert("payload"@[0] != "move_up"@[0]);
    assert("tick"@[0] != "quit"@[0]);
    assert("next_pane"@[0] != "prev_pane"@[0]);
    assert("next_pane"@[0] != "move_down"@[0]);
    assert("next_pane"@[0] != "backspace"@[0]);
    assert("prev_pane"@[0] != "move_down"@[0]);
    assert("prev_pane"@[0] != "backspace"@[0]);
    assert("move_down"@[0] != "backspace"@[0]);
    assert("scroll_chat_down"@[0] != "mouse_left_click"@[0]);
    assert("submit"@[0] != "column"@[0]);
    match v {
        AppEventView::Tick => {},
        AppEventView::Quit => {},
        AppEventView::NextPane => {},
        AppEventView::PrevPane => {},
        AppEventView::MoveUp => {},
        AppEventView::MoveDown => {},
        AppEventView::CursorLeft => {},
        AppEventView::CursorRight => {},
        AppEventView::ScrollChatUp => {},
        AppEventView::ScrollChatDown => {},
        AppEventView::ScrollRightUpGlobal => {},
        AppEventView::ScrollRightDownGlobal => {},
        AppEventView::InputChar(x) => {
            assert(seq![x].len() == 1 && seq![x][0] == x);
        },
        AppEventView::Backspace => {},
        AppEventView::Submit => {},
        AppEventView::MouseScrollUp => {},
        AppEventView::MouseScrollDown => {},
        AppEventView::MouseLeftClick { column, row } => {
        },
    }
}

/// An [`AppRequest`] on the wire: as an object that names the variant under
/// `action` beside the fields of the variant.
pub open spec fn write_app_request(v: AppRequestView) -> Json {
    match v {
        AppRequestView::Tick => Json::Object(
            Map::<Seq<char>, Json>::empty()
                .insert("action"@, Json::Text("tick"@)),
        ),
        AppRequestView::Quit => Json::Object(
            Map::<Seq<char>, Json>::empty()
                .insert("action"@, Json::Text("quit"@)),
        ),
        AppRequestView::PaneNext => Json::Object(
            Map::<Seq<char>, Json>::empty()
                .insert("action"@, Json::Text("pane_next"@)),
        ),
        AppRequestView::PanePrevious => Json::Object(
            Map::<Seq<char>, Json>::empty()
                .insert("action"@, Json::Text("pane_previous"@)),
        ),
        AppRequestView::SubmitChatMessage => Json::Object(
            Map::<Seq<char>, Json>::empty()
                .insert("action"@, Json::Text("submit_chat_message"@)),
        ),
        AppRequestView::SubmitDirectMessage { message } => Json::Object(
            Map::<Seq<char>, Json>::empty()
                .insert("action"@, Json::Text("submit_direct_message"@))
                .insert("message"@, Json::Text(message)),
        ),
        AppRequestView::SyncPlannerTasks { tasks } => Json::Object(
            Map::<Seq<char>, Json>::empty()
                .insert("action"@, Json::Text("sync_planner_tasks"@))
                .insert("tasks"@, write_entry_list(tasks)),
        ),
        AppRequestView::PrepareMasterPrompt { message, tasks_file } => Json::Object(
            Map::<Seq<char>, Json>::empty()
                .insert("action"@, Json::Text("prepare_master_prompt"@))
                .insert("message"@, Json::Text(message))
                .insert("tasks_file"@, Json::Text(tasks_file)),
        ),
        AppRequestView::PreparePlannerPrompt {
            message,
            planner_file,
            project_info_file,
        } => Json::Object(
            Map::<Seq<char>, Json>::empty()
                .insert("action"@, Json::Text("prepare_planner_prompt"@))
                .insert("message"@, Json::Text(message))
                .insert("planner_file"@, Json::Text(planner_file))
                .insert("project_info_file"@, Json::Text(project_info_file)),
        ),
        AppRequestView::PrepareAttachDocsPrompt { tasks_file } => Json::Object(
            Map::<Seq<char>, Json>::empty()
                .insert("action"@, Json::Text("prepare_attach_docs_prompt"@))
                .insert("tasks_file"@, Json::Text(tasks_file)),
        ),
        AppRequestView::StartExecution => Json::Object(
            Map::<Seq<char>, Json>::empty()
                .insert("action"@, Json::Text("start_execution"@)),
        ),
        AppRequestView::StartNextWorkerJob => Json::Object(
            Map::<Seq<char>, Json>::empty()
                .insert("action"@, Json::Text("start_next_worker_job"@)),
        ),
        AppRequestView::WorkerOutput { line } => Json::Object(
            Map::<Seq<char>, Json>::empty()
                .insert("action"@, Json::Text("worker_output"@))
                .insert("line"@, Json::Text(line)),
        ),
        AppRequestView::WorkerSystemOutput { line } => Json::Object(
            Map::<Seq<char>, Json>::empty()
                .insert("action"@, Json::Text("worker_system_output"@))
                .insert("line"@, Json::Text(line)),
        ),
        AppRequestView::WorkerCompleted { success, exit_code } => Json::Object(
            Map::<Seq<char>, Json>::empty()
                .insert("action"@, Json::Text("worker_completed"@))
                .insert("success"@, Json::Bool(success))
                .insert("exit_code"@, Json::Integer(exit_code as int)),
        ),
        AppRequestView::DrainWorkerFailures => Json::Object(
            Map::<Seq<char>, Json>::empty()
                .insert("action"@, Json::Text("drain_worker_failures"@)),
        ),
    }
}

/// The [`AppRequest`] that a document states, none where it states none.
pub open spec fn read_app_request(j: Json) -> Option<AppRequestView> {
    match member(j, "action"@) {
        Some(Json::Text(name)) => {
            if name == "tick"@ {
                Some(AppRequestView::Tick)
            } else if name == "quit"@ {
                Some(AppRequestView::Quit)
            } else if name == "pane_next"@ {
                Some(AppRequestView::PaneNext)
            } else if name == "pane_previous"@ {
                Some(AppRequestView::PanePrevious)
            } else if name == "submit_chat_message"@ {
                Some(AppRequestView::SubmitChatMessage)
            } else if name == "submit_direct_message"@ {
                let message = match member(j, "message"@) {
                    None => None,
                    Some(x) => read_text(x),
                };
                if message is Some {
                    Some(AppRequestView::SubmitDirectMessage { message: message->0 })
                } else {
                    None
                }
            } else if name == "sync_planner_tasks"@ {
                let tasks = match member(j, "tasks"@) {
                    None => None,
                    Some(x) => read_entry_list(x),
                };
                if tasks is Some {
                    Some(AppRequestView::SyncPlannerTasks { tasks: tasks->0 })
                } else {
                    None
                }
            } else if name == "prepare_master_prompt"@ {
                let message = match member(j, "message"@) {
                    None => None,
                    Some(x) => read_text(x),
                };
                let tasks_file = match member(j, "tasks_file"@) {
                    None => None,
                    Some(x) => read_text(x),
                };
                if message is Some && tasks_file is Some {
                    Some(
                        AppRequestView::PrepareMasterPrompt {
                            message: message->0,
                            tasks_file: tasks_file->0,
                        },
                    )
                } else {
                    None
                }
            } else if name == "prepare_planner_prompt"@ {
                let message = match member(j, "message"@) {
                    None => None,
                    Some(x) => read_text(x),
                };
                let planner_file = match member(j, "planner_file"@) {
                    None => None,
                    Some(x) => read_text(x),
                };
                let project_info_file = match member(j, "project_info_file"@) {
                    None => None,
                    Some(x) => read_text(x),
                };
                if message is Some && planner_file is Some && project_info_file is Some {
                    Some(
                        AppRequestView::PreparePlannerPrompt {
                            message: message->0,
                            planner_file: planner_file->0,
                            project_info_file: project_info_file->0,
                        },
                    )
                } else {
                    None
                }
            } else if name == "prepare_attach_docs_prompt"@ {
                let tasks_file = match member(j, "tasks_file"@) {
                    None => None,
                    Some(x) => read_text(x),
                };
                if tasks_file is Some {
                    Some(AppRequestView::PrepareAttachDocsPrompt { tasks_file: tasks_file->0 })
                } else {
                    None
                }
            } else if name == "start_execution"@ {
                Some(AppRequestView::StartExecution)
            } else if name == "start_next_worker_job"@ {
                Some(AppRequestView::StartNextWorkerJob)
            } else if name == "worker_output"@ {
                let line = match member(j, "line"@) {
                    None => None,
                    Some(x) => read_text(x),
                };
                if line is Some {
                    Some(AppRequestView::WorkerOutput { line: line->0 })
                } else {
                    None
                }
            } else if name == "worker_system_output"@ {
                let line = match member(j, "line"@) {
                    None => None,
                    Some(x) => read_text(x),
                };
                if line is Some {
                    Some(AppRequestView::WorkerSystemOutput { line: line->0 })
                } else {
                    None
                }
            } else if name == "worker_completed"@ {
                let success = match member(j, "success"@) {
                    None => None,
                    Some(x) => read_bool(x),
                };
                let exit_code = match member(j, "exit_code"@) {
                    None => None,
                    Some(x) => read_i32(x),
                };
                if success is Some && exit_code is Some {
                    Some(
                        AppRequestView::WorkerCompleted {
                            success: success->0,
                            exit_code: exit_code->0,
                        },
                    )
                } else {
                    None
                }
            } else if name == "drain_worker_failures"@ {
                Some(AppRequestView::DrainWorkerFailures)
            } else {
                None
            }
        },
        _ => None,
    }
}

/// Reading what was written for an [`AppRequest`] gives it back.
pub proof fn lemma_app_request_round_trip(v: AppRequestView)
    ensures
        read_app_request(write_app_request(v)) == Some(v),
{
    reveal_strlit("action");
    reveal_strlit("tick");
    reveal_strlit("quit");
    reveal_strlit("pane_next");
    reveal_strlit("pane_previous");
    reveal_strlit("submit_chat_message");
    reveal_strlit("submit_direct_message");
    reveal_strlit("message");
    reveal_strlit("sync_planner_tasks");
    reveal_strlit("tasks");
    reveal_strlit("prepare_master_prompt");
    reveal_strlit("tasks_file");
    reveal_strlit("prepare_planner_prompt");
    reveal_strlit("planner_file");
    reveal_strlit("project_info_file");
    reveal_strlit("prepare_attach_docs_prompt");
    reveal_strlit("start_execution");
    reveal_strlit("start_next_worker_job");
    reveal_strlit("worker_output");
    reveal_strlit("line");
    reveal_strlit("worker_system_output");
    reveal_strlit("worker_completed");
    reveal_strlit("success");
    reveal_strlit("exit_code");
    reveal_strlit("drain_worker_failures");
    assert("action"@.len() == 6);
    assert("tick"@.len() == 4);
    assert("quit"@.len() == 4);
    assert("pane_next"@.len() == 9);
    assert("pane_previous"@.len() == 13);
    assert("submit_chat_message"@.len() == 19);
    assert("submit_direct_message"@.len() == 21);
    assert("message"@.len() == 7);
    assert("sync_planner_tasks"@.len() == 18);
    assert("tasks"@.len() == 5);
    assert("prepare_master_prompt"@.len() == 21);
    assert("tasks_file"@.len() == 10);
    assert("prepare_planner_prompt"@.len() == 22);
    assert("planner_file"@.len() == 12);
    assert("project_info_file"@.len() == 17);
    assert("prepare_attach_docs_prompt"@.len() == 26);
    assert("start_execution"@.len() == 15);
    assert("start_next_worker_job"@.len() == 21);
    assert("worker_output"@.len() == 13);
    assert("line"@.len() == 4);
    assert("worker_system_output"@.len() == 20);
    assert("worker_completed"@.len() == 16);
    assert("success"@.len() == 7);
    assert("exit_code"@.len() == 9);
    assert("drain_worker_failures"@.len() == 21);
    assert("tick"@[0] != "quit"@[0]);
    assert("tick"@[0] != "line"@[0]);
    assert("quit"@[0] != "line"@[0]);
    assert("pane_next"@[0] != "exit_code"@[0]);
    assert("pane_previous"@[0] != "worker_output"@[0]);
    assert("submit_direct_message"@[0] != "prepare_master_prompt"@[0]);
    assert("submit_direct_message"@[1] != "start_next_worker_job"@[1]);
    assert("submit_direct_message"@[0] != "drain_worker_failures"@[0]);
    assert("message"@[0] != "success"@[0]);
    assert("prepare_master_prompt"@[0] != "start_next_worker_job"@[0]);
    assert("prepare_master_prompt"@[0] != "drain_worker_failures"@[0]);
    assert("start_next_worker_job"@[0] != "drain_worker_failures"@[0]);
    match v {
        AppRequestView::Tick => {},
        AppRequestView::Quit => {},
        AppRequestView::PaneNext => {},
        AppRequestView::PanePrevious => {},
        AppRequestView::SubmitChatMessage => {},
        AppRequestView::SubmitDirectMessage { message } => {
        },
        AppRequestView::SyncPlannerTasks { tasks } => {
            lemma_entry_list_round_trip(tasks);
        },
        AppRequestView::PrepareMasterPrompt { message, tasks_file } => {
        },
        AppRequestView::PreparePlannerPrompt { message, planner_file, project_info_file } => {
        },
        AppRequestView::PrepareAttachDocsPrompt { tasks_file } => {
        },
        AppRequestView::StartExecution => {},
        AppRequestView::StartNextWorkerJob => {},
        AppRequestView::WorkerOutput { line } => {
        },
        AppRequestView::WorkerSystemOutput { line } => {
        },
        AppRequestView::WorkerCompleted { success, exit_code } => {
        },
        AppRequestView::DrainWorkerFailures => {},
    }
}

/// An [`AppResponse`] on the wire: as an object that names the variant under
/// `kind` beside the fields of the variant.
pub open spec fn write_app_response(v: AppResponseView) -> Json {
    match v {
        AppResponseView::Ack => Json::Object(
            Map::<Seq<char>, Json>::empty()
                .insert("kind"@, Json::Text("ack"@)),
        ),
        AppResponseView::Prompt { text } => Json::Object(
            Map::<Seq<char>, Json>::empty()
                .insert("kind"@, Json::Text("prompt"@))
                .insert("text"@, Json::Text(text)),
        ),
        AppResponseView::SubmittedChat { message } => Json::Object(
            Map::<Seq<char>, Json>::empty()
                .insert("kind"@, Json::Text("submitted_chat"@))
                .insert(
                    "message"@,
                    match message {
                        Some(x) => Json::Text(x),
                        None => Json::Null,
                    },
                ),
        ),
        AppResponseView::PlannerTasksSynced { count } => Json::Object(
            Map::<Seq<char>, Json>::empty()
                .insert("kind"@, Json::Text("planner_tasks_synced"@))
                .insert("count"@, Json::Integer(count as int)),
        ),
        AppResponseView::ExecutionMessages { messages } => Json::Object(
            Map::<Seq<char>, Json>::empty()
                .insert("kind"@, Json::Text("execution_messages"@))
                .insert("messages"@, write_text_list(messages)),
        ),
        AppResponseView::StartedWorkerJob { job } => Json::Object(
            Map::<Seq<char>, Json>::empty()
                .insert("kind"@, Json::Text("started_worker_job"@))
                .insert(
                    "job"@,
                    match job {
                        Some(x) => write_started_job(x),
                        None => Json::Null,
                    },
                ),
        ),
        AppResponseView::WorkerCompleted { system_messages, new_context_entries } => Json::Object(
            Map::<Seq<char>, Json>::empty()
                .insert("kind"@, Json::Text("worker_completed"@))
                .insert("system_messages"@, write_text_list(system_messages))
                .insert("new_context_entries"@, write_text_list(new_context_entries)),
        ),
        AppResponseView::WorkerFailures { failures } => Json::Object(
            Map::<Seq<char>, Json>::empty()
                .insert("kind"@, Json::Text("worker_failures"@))
                .insert("failures"@, write_failure_list(failures)),
        ),
    }
}

/// The [`AppResponse`] that a document states, none where it states none.
pub open spec fn read_app_response(j: Json) -> Option<AppResponseView> {
    match member(j, "kind"@) {
        Some(Json::Text(name)) => {
            if name == "ack"@ {
                Some(AppResponseView::Ack)
            } else if name == "prompt"@ {
                let text = match member(j, "text"@) {
                    None => None,
                    Some(x) => read_text(x),
                };
                if text is Some {
                    Some(AppResponseView::Prompt { text: text->0 })
                } else {
                    None
                }
            } else if name == "submitted_chat"@ {
                let message = match member(j, "message"@) {
                    None => Some(None),
                    Some(Json::Null) => Some(None),
                    Some(x) => match read_text(x) {
                        Some(v) => Some(Some(v)),
                        None => None,
                    },
                };
                if message is Some {
                    Some(AppResponseView::SubmittedChat { message: message->0 })
                } else {
                    None
                }
            } else if name == "planner_tasks_synced"@ {
                let count = match member(j, "count"@) {
                    None => None,
                    Some(x) => read_usize(x),
                };
                if count is Some {
                    Some(AppResponseView::PlannerTasksSynced { count: count->0 })
                } else {
                    None
                }
            } else if name == "execution_messages"@ {
                let messages = match member(j, "messages"@) {
                    None => None,
                    Some(x) => read_text_list(x),
                };
                if messages is Some {
                    Some(AppResponseView::ExecutionMessages { messages: messages->0 })
                } else {
                    None
                }
            } else if name == "started_worker_job"@ {
                let job = match member(j, "job"@) {
                    None => Some(None),
                    Some(Json::Null) => Some(None),
                    Some(x) => match read_started_job(x) {
                        Some(v) => Some(Some(v)),
                        None => None,
                    },
                };
                if job is Some {
                    Some(AppResponseView::StartedWorkerJob { job: job->0 })
                } else {
                    None
                }
            } else if name == "worker_completed"@ {
                let system_messages = match member(j, "system_messages"@) {
                    None => None,
                    Some(x) => read_text_list(x),
                };
                let new_context_entries = match member(j, "new_context_entries"@) {
                    None => None,
                    Some(x) => read_text_list(x),
                };
                if system_messages is Some && new_context_entries is Some {
                    Some(
                        AppResponseView::WorkerCompleted {
                            system_messages: system_messages->0,
                            new_context_entries: new_context_entries->0,
                        },
                    )
                } else {
                    None
                }
            } else if name == "worker_failures"@ {
                let failures = match member(j, "failures"@) {
                    None => None,
                    Some(x) => read_failure_list(x),
                };
                if failures is Some {
                    Some(AppResponseView::WorkerFailures { failures: failures->0 })
                } else {
                    None
                }
            } else {
                None
            }
        },
        _ => None,
    }
}

/// Reading what was written for an [`AppResponse`] gives it back.
pub proof fn lemma_app_response_round_trip(v: AppResponseView)
    ensures
        read_app_response(write_app_response(v)) == Some(v),
{
    reveal_strlit("kind");
    reveal_strlit("ack");
    reveal_strlit("prompt");
    reveal_strlit("text");
    reveal_strlit("submitted_chat");
    reveal_strlit("message");
    reveal_strlit("planner_tasks_synced");
    reveal_strlit("count");
    reveal_strlit("execution_messages");
    reveal_strlit("messages");
    reveal_strlit("started_worker_job");
    reveal_strlit("job");
    reveal_strlit("worker_completed");
    reveal_strlit("system_messages");
    reveal_strlit("new_context_entries");
    reveal_strlit("worker_failures");
    reveal_strlit("failures");
    assert("kind"@.len() == 4);
    assert("ack"@.len() == 3);
    assert("prompt"@.len() == 6);
    assert("text"@.len() == 4);
    assert("submitted_chat"@.len() == 14);
    assert("message"@.len() == 7);
    assert("planner_tasks_synced"@.len() == 20);
    assert("count"@.len() == 5);
    assert("execution_messages"@.len() == 18);
    assert("messages"@.len() == 8);
    assert("started_worker_job"@.len() == 18);
    assert("job"@.len() == 3);
    assert("worker_completed"@.len() == 16);
    assert("system_messages"@.len() == 15);
    assert("new_context_entries"@.len() == 19);
    assert("worker_failures"@.len() == 15);
    assert("failures"@.len() == 8);
    assert("kind"@[0] != "text"@[0]);
    assert("ack"@[0] != "job"@[0]);
    assert("execution_messages"@[0] != "started_worker_job"@[0]);
    assert("messages"@[0] != "failures"@[0]);
    assert("system_messages"@[0] != "worker_failures"@[0]);
    match v {
        AppResponseView::Ack => {},
        AppResponseView::Prompt { text } => {
        },
        AppResponseView::SubmittedChat { message } => {
        },
        AppResponseView::PlannerTasksSynced { count } => {
        },
        AppResponseView::ExecutionMessages { messages } => {
            lemma_text_list_round_trip(messages);
        },
        AppResponseView::StartedWorkerJob { job } => {
            if job is Some {
                lemma_started_job_round_trip(job->0);
            }
        },
        AppResponseView::WorkerCompleted { system_messages, new_context_entries } => {
            lemma_text_list_round_trip(system_messages);
            lemma_text_list_round_trip(new_context_entries);
        },
        AppResponseView::WorkerFailures { failures } => {
            lemma_failure_list_round_trip(failures);
        },
    }
}

/// An [`EventsRequest`] on the wire: as an object that names the variant under
/// `action` beside the fields of the variant.
pub open spec fn write_events_request(v: EventsRequestView) -> Json {
    match v {
        EventsRequestView::NextEvent => Json::Object(
            Map::<Seq<char>, Json>::empty()
                .insert("action"@, Json::Text("next_event"@)),
        ),
    }
}

/// The [`EventsRequest`] that a document states, none where it states none.
pub open spec fn read_events_request(j: Json) -> Option<EventsRequestView> {
    match member(j, "action"@) {
        Some(Json::Text(name)) => {
            if name == "next_event"@ {
                Some(EventsRequestView::NextEvent)
            } else {
                None
            }
        },
        _ => None,
    }
}

/// Reading what was written for an [`EventsRequest`] gives it back.
pub proof fn lemma_events_request_round_trip(v: EventsRequestView)
    ensures
        read_events_request(write_events_request(v)) == Some(v),
{
    reveal_strlit("action");
    reveal_strlit("next_event");
    assert("action"@.len() == 6);
    assert("next_event"@.len() == 10);
}

/// An [`EventsResponse`] on the wire: as an object that names the variant under
/// `kind` beside the fields of the variant.
pub open spec fn write_events_response(v: EventsResponseView) -> Json {
    match v {
        EventsResponseView::Event { event } => Json::Object(
            Map::<Seq<char>, Json>::empty()
                .insert("kind"@, Json::Text("event"@))
                .insert("event"@, write_app_event(event)),
        ),
    }
}

/// The [`EventsResponse`] that a document states, none where it states none.
pub open spec fn read_events_response(j: Json) -> Option<EventsResponseView> {
    match member(j, "kind"@) {
        Some(Json::Text(name)) => {
            if name == "event"@ {
                let event = match member(j, "event"@) {
                    None => None,
                    Some(x) => read_app_event(x),
                };
                if event is Some {
                    Some(EventsResponseView::Event { event: event->0 })
                } else {
                    None
                }
            } else {
                None
            }
        },
        _ => None,
    }
}

/// Reading what was written for an [`EventsResponse`] gives it back.
pub proof fn lemma_events_response_round_trip(v: EventsResponseView)
    ensures
        read_events_response(write_events_response(v)) == Some(v),
{
    reveal_strlit("kind");
    reveal_strlit("event");
    assert("kind"@.len() == 4);
    assert("event"@.len() == 5);
    match v {
        EventsResponseView::Event { event } => {
            lemma_app_event_round_trip(event);
        },
    }
}

/// A [`WorkflowRequest`] on the wire: as an object that names the variant under
/// `action` beside the fields of the variant.
pub open spec fn write_workflow_request(v: WorkflowRequestView) -> Json {
    match v {
        WorkflowRequestView::SyncPlannerTasks { tasks } => Json::Object(
            Map::<Seq<char>, Json>::empty()
                .insert("action"@, Json::Text("sync_planner_tasks"@))
                .insert("tasks"@, write_entry_list(tasks)),
        ),
        WorkflowRequestView::PlannerTasksForFile => Json::Object(
            Map::<Seq<char>, Json>::empty()
                .insert("action"@, Json::Text("planner_tasks_for_file"@)),
        ),
        WorkflowRequestView::StartExecution => Json::Object(
            Map::<Seq<char>, Json>::empty()
                .insert("action"@, Json::Text("start_execution"@)),
        ),
        WorkflowRequestView::StartNextJob => Json::Object(
            Map::<Seq<char>, Json>::empty()
                .insert("action"@, Json::Text("start_next_job"@)),
        ),
        WorkflowRequestView::AppendActiveOutput { line } => Json::Object(
            Map::<Seq<char>, Json>::empty()
                .insert("action"@, Json::Text("append_active_output"@))
                .insert("line"@, Json::Text(line)),
        ),
        WorkflowRequestView::FinishActiveJob { success, exit_code } => Json::Object(
            Map::<Seq<char>, Json>::empty()
                .insert("action"@, Json::Text("finish_active_job"@))
                .insert("success"@, Json::Bool(success))
                .insert("exit_code"@, Json::Integer(exit_code as int)),
        ),
        WorkflowRequestView::DrainRecentFailures => Json::Object(
            Map::<Seq<char>, Json>::empty()
                .insert("action"@, Json::Text("drain_recent_failures"@)),
        ),
        WorkflowRequestView::RollingContextEntries => Json::Object(
            Map::<Seq<char>, Json>::empty()
                .insert("action"@, Json::Text("rolling_context_entries"@)),
        ),
        WorkflowRequestView::ReplaceRollingContextEntries { entries } => Json::Object(
            Map::<Seq<char>, Json>::empty()
                .insert("action"@, Json::Text("replace_rolling_context_entries"@))
                .insert("entries"@, write_text_list(entries)),
        ),
        WorkflowRequestView::RightPaneBlockView => Json::Object(
            Map::<Seq<char>, Json>::empty()
                .insert("action"@, Json::Text("right_pane_block_view"@)),
        ),
    }
}

/// The [`WorkflowRequest`] that a document states, none where it states none.
pub open spec fn read_workflow_request(j: Json) -> Option<WorkflowRequestView> {
    match member(j, "action"@) {
        Some(Json::Text(name)) => {
            if name == "sync_planner_tasks"@ {
                let tasks = match member(j, "tasks"@) {
                    None => None,
                    Some(x) => read_entry_list(x),
                };
                if tasks is Some {
                    Some(WorkflowRequestView::SyncPlannerTasks { tasks: tasks->0 })
                } else {
                    None
                }
            } else if name == "planner_tasks_for_file"@ {
                Some(WorkflowRequestView::PlannerTasksForFile)
            } else if name == "start_execution"@ {
                Some(WorkflowRequestView::StartExecution)
            } else if name == "start_next_job"@ {
                Some(WorkflowRequestView::StartNextJob)
            } else if name == "append_active_output"@ {
                let line = match member(j, "line"@) {
                    None => None,
                    Some(x) => read_text(x),
                };
                if line is Some {
                    Some(WorkflowRequestView::AppendActiveOutput { line: line->0 })
                } else {
                    None
                }
            } else if name == "finish_active_job"@ {
                let success = match member(j, "success"@) {
                    None => None,
                    Some(x) => read_bool(x),
                };
                let exit_code = match member(j, "exit_code"@) {
                    None => None,
                    Some(x) => read_i32(x),
                };
                if success is Some && exit_code is Some {
                    Some(
                        WorkflowRequestView::FinishActiveJob {
                            success: success->0,
                            exit_code: exit_code->0,
                        },
                    )
                } else {
                    None
                }
            } else if name == "drain_recent_failures"@ {
                Some(WorkflowRequestView::DrainRecentFailures)
            } else if name == "rolling_context_entries"@ {
                Some(WorkflowRequestView::RollingContextEntries)
            } else if name == "replace_rolling_context_entries"@ {
                let entries = match member(j, "entries"@) {
                    None => None,
                    Some(x) => read_text_list(x),
                };
                if entries is Some {
                    Some(WorkflowRequestView::ReplaceRollingContextEntries { entries: entries->0 })
                } else {
                    None
                }
            } else if name == "right_pane_block_view"@ {
                Some(WorkflowRequestView::RightPaneBlockView)
            } else {
                None
            }
        },
        _ => None,
    }
}

/// Reading what was written for a [`WorkflowRequest`] gives it back.
pub proof fn lemma_workflow_request_round_trip(v: WorkflowRequestView)
    ensures
        read_workflow_request(write_workflow_request(v)) == Some(v),
{
    reveal_strlit("action");
    reveal_strlit("sync_planner_tasks");
    reveal_strlit("tasks");
    reveal_strlit("planner_tasks_for_file");
    reveal_strlit("start_execution");
    reveal_strlit("start_next_job");
    reveal_strlit("append_active_output");
    reveal_strlit("line");
    reveal_strlit("finish_active_job");
    reveal_strlit("success");
    reveal_strlit("exit_code");
    reveal_strlit("drain_recent_failures");
    reveal_strlit("rolling_context_entries");
    reveal_strlit("replace_rolling_context_entries");
    reveal_strlit("entries");
    reveal_strlit("right_pane_block_view");
    assert("action"@.len() == 6);
    assert("sync_planner_tasks"@.len() == 18);
    assert("tasks"@.len() == 5);
    assert("planner_tasks_for_file"@.len() == 22);
    assert("start_execution"@.len() == 15);
    assert("start_next_job"@.len() == 14);
    assert("append_active_output"@.len() == 20);
    assert("line"@.len() == 4);
    assert("finish_active_job"@.len() == 17);
    assert("success"@.len() == 7);
    assert("exit_code"@.len() == 9);
    assert("drain_recent_failures"@.len() == 21);
    assert("rolling_context_entries"@.len() == 23);
    assert("replace_rolling_context_entries"@.len() == 31);
    assert("entries"@.len() == 7);
    assert("right_pane_block_view"@.len() == 21);
    assert("success"@[0] != "entries"@[0]);
    assert("drain_recent_failures"@[0] != "right_pane_block_view"@[0]);
    match v {
        WorkflowRequestView::SyncPlannerTasks { tasks } => {
            lemma_entry_list_round_trip(tasks);
        },
        WorkflowRequestView::PlannerTasksForFile => {},
        WorkflowRequestView::StartExecution => {},
        WorkflowRequestView::StartNextJob => {},
        WorkflowRequestView::AppendActiveOutput { line } => {
        },
        WorkflowRequestView::FinishActiveJob { success, exit_code } => {
        },
        WorkflowRequestView::DrainRecentFailures => {},
        WorkflowRequestView::RollingContextEntries => {},
        WorkflowRequestView::ReplaceRollingContextEntries { entries } => {
            lemma_text_list_round_trip(entries);
        },
        WorkflowRequestView::RightPaneBlockView => {},
    }
}

/// A [`WorkflowResponse`] on the wire: as an object that names the variant
/// under `kind` beside the fields of the variant.
pub open spec fn write_workflow_response(v: WorkflowResponseView) -> Json {
    match v {
        WorkflowResponseView::Ack => Json::Object(
            Map::<Seq<char>, Json>::empty()
                .insert("kind"@, Json::Text("ack"@)),
        ),
        WorkflowResponseView::PlannerTasks { tasks } => Json::Object(
            Map::<Seq<char>, Json>::empty()
                .insert("kind"@, Json::Text("planner_tasks"@))
                .insert("tasks"@, write_entry_list(tasks)),
        ),
        WorkflowResponseView::StartExecution { messages } => Json::Object(
            Map::<Seq<char>, Json>::empty()
                .insert("kind"@, Json::Text("start_execution"@))
                .insert("messages"@, write_text_list(messages)),
        ),
        WorkflowResponseView::StartedJob { job } => Json::Object(
            Map::<Seq<char>, Json>::empty()
                .insert("kind"@, Json::Text("started_job"@))
                .insert(
                    "job"@,
                    match job {
                        Some(x) => write_started_job(x),
                        None => Json::Null,
                    },
                ),
        ),
        WorkflowResponseView::FinishActiveJob { messages } => Json::Object(
            Map::<Seq<char>, Json>::empty()
                .insert("kind"@, Json::Text("finish_active_job"@))
                .insert("messages"@, write_text_list(messages)),
        ),
        WorkflowResponseView::RecentFailures { failures } => Json::Object(
            Map::<Seq<char>, Json>::empty()
                .insert("kind"@, Json::Text("recent_failures"@))
                .insert("failures"@, write_failure_list(failures)),
        ),
        WorkflowResponseView::RollingContext { entries } => Json::Object(
            Map::<Seq<char>, Json>::empty()
                .insert("kind"@, Json::Text("rolling_context"@))
                .insert("entries"@, write_text_list(entries)),
        ),
        WorkflowResponseView::RightPaneBlock { lines, toggles } => Json::Object(
            Map::<Seq<char>, Json>::empty()
                .insert("kind"@, Json::Text("right_pane_block"@))
                .insert("lines"@, write_text_list(lines))
                .insert("toggles"@, write_toggle_list(toggles)),
        ),
    }
}

/// The [`WorkflowResponse`] that a document states, none where it states none.
pub open spec fn read_workflow_response(j: Json) -> Option<WorkflowResponseView> {
    match member(j, "kind"@) {
        Some(Json::Text(name)) => {
            if name == "ack"@ {
                Some(WorkflowResponseView::Ack)
            } else if name == "planner_tasks"@ {
                let tasks = match member(j, "tasks"@) {
                    None => None,
                    Some(x) => read_entry_list(x),
                };
                if tasks is Some {
                    Some(WorkflowResponseView::PlannerTasks { tasks: tasks->0 })
                } else {
                    None
                }
            } else if name == "start_execution"@ {
                let messages = match member(j, "messages"@) {
                    None => None,
                    Some(x) => read_text_list(x),
                };
                if messages is Some {
                    Some(WorkflowResponseView::StartExecution { messages: messages->0 })
                } else {
                    None
                }
            } else if name == "started_job"@ {
                let job = match member(j, "job"@) {
                    None => Some(None),
                    Some(Json::Null) => Some(None),
                    Some(x) => match read_started_job(x) {
                        Some(v) => Some(Some(v)),
                        None => None,
                    },
                };
                if job is Some {
                    Some(WorkflowResponseView::StartedJob { job: job->0 })
                } else {
                    None
                }
            } else if name == "finish_active_job"@ {
                let messages = match member(j, "messages"@) {
                    None => None,
                    Some(x) => read_text_list(x),
                };
                if messages is Some {
                    Some(WorkflowResponseView::FinishActiveJob { messages: messages->0 })
                } else {
                    None
                }
            } else if name == "recent_failures"@ {
                let failures = match member(j, "failures"@) {
                    None => None,
                    Some(x) => read_failure_list(x),
                };
                if failures is Some {
                    Some(WorkflowResponseView::RecentFailures { failures: failures->0 })
                } else {
                    None
                }
            } else if name == "rolling_context"@ {
                let entries = match member(j, "entries"@) {
                    None => None,
                    Some(x) => read_text_list(x),
                };
                if entries is Some {
                    Some(WorkflowResponseView::RollingContext { entries: entries->0 })
                } else {
                    None
                }
            } else if name == "right_pane_block"@ {
                let lines = match member(j, "lines"@) {
                    None => None,
                    Some(x) => read_text_list(x),
                };
                let toggles = match member(j, "toggles"@) {
                    None => None,
                    Some(x) => read_toggle_list(x),
                };
                if lines is Some && toggles is Some {
                    Some(
                        WorkflowResponseView::RightPaneBlock {
                            lines: lines->0,
                            toggles: toggles->0,
                        },
                    )
                } else {
                    None
                }
            } else {
                None
            }
        },
        _ => None,
    }
}

/// Reading what was written for a [`WorkflowResponse`] gives it back.
pub proof fn lemma_workflow_response_round_trip(v: WorkflowResponseView)
    ensures
        read_workflow_response(write_workflow_response(v)) == Some(v),
{
    reveal_strlit("kind");
    reveal_strlit("ack");
    reveal_strlit("planner_tasks");
    reveal_strlit("tasks");
    reveal_strlit("start_execution");
    reveal_strlit("messages");
    reveal_strlit("started_job");
    reveal_strlit("job");
    reveal_strlit("finish_active_job");
    reveal_strlit("recent_failures");
    reveal_strlit("failures");
    reveal_strlit("rolling_context");
    reveal_strlit("entries");
    reveal_strlit("right_pane_block");
    reveal_strlit("lines");
    reveal_strlit("toggles");
    assert("kind"@.len() == 4);
    assert("ack"@.len() == 3);
    assert("planner_tasks"@.len() == 13);
    assert("tasks"@.len() == 5);
    assert("start_execution"@.len() == 15);
    assert("messages"@.len() == 8);
    assert("started_job"@.len() == 11);
    assert("job"@.len() == 3);
    assert("finish_active_job"@.len() == 17);
    assert("recent_failures"@.len() == 15);
    assert("failures"@.len() == 8);
    assert("rolling_context"@.len() == 15);
    assert("entries"@.len() == 7);
    assert("right_pane_block"@.len() == 16);
    assert("lines"@.len() == 5);
    assert("toggles"@.len() == 7);
    assert("ack"@[0] != "job"@[0]);
    assert("tasks"@[0] != "lines"@[0]);
    assert("start_execution"@[0] != "recent_failures"@[0]);
    assert("start_execution"@[0] != "rolling_context"@[0]);
    assert("messages"@[0] != "failures"@[0]);
    assert("recent_failures"@[1] != "rolling_context"@[1]);
    assert("entries"@[0] != "toggles"@[0]);
    match v {
        WorkflowResponseView::Ack => {},
        WorkflowResponseView::PlannerTasks { tasks } => {
            lemma_entry_list_round_trip(tasks);
        },
        WorkflowResponseView::StartExecution { messages } => {
            lemma_text_list_round_trip(messages);
        },
        WorkflowResponseView::StartedJob { job } => {
            if job is Some {
                lemma_started_job_round_trip(job->0);
            }
        },
        WorkflowResponseView::FinishActiveJob { messages } => {
            lemma_text_list_round_trip(messages);
        },
        WorkflowResponseView::RecentFailures { failures } => {
            lemma_failure_list_round_trip(failures);
        },
        WorkflowResponseView::RollingContext { entries } => {
            lemma_text_list_round_trip(entries);
        },
        WorkflowResponseView::RightPaneBlock { lines, toggles } => {
            lemma_text_list_round_trip(lines);
            lemma_toggle_list_round_trip(toggles);
        },
    }
}

/// A [`SessionRequest`] on the wire: as an object that names the variant under
/// `action` beside the fields of the variant.
pub open spec fn write_session_request(v: SessionRequestView) -> Json {
    match v {
        SessionRequestView::Initialize { cwd } => Json::Object(
            Map::<Seq<char>, Json>::empty()
                .insert("action"@, Json::Text("initialize"@))
                .insert("cwd"@, Json::Text(cwd)),
        ),
        SessionRequestView::OpenExisting { cwd, session_dir } => Json::Object(
            Map::<Seq<char>, Json>::empty()
                .insert("action"@, Json::Text("open_existing"@))
                .insert("cwd"@, Json::Text(cwd))
                .insert("session_dir"@, Json::Text(session_dir)),
        ),
        SessionRequestView::ListSessions => Json::Object(
            Map::<Seq<char>, Json>::empty()
                .insert("action"@, Json::Text("list_sessions"@)),
        ),
        SessionRequestView::ReadTasks => Json::Object(
            Map::<Seq<char>, Json>::empty()
                .insert("action"@, Json::Text("read_tasks"@)),
        ),
        SessionRequestView::ReadPlannerMarkdown => Json::Object(
            Map::<Seq<char>, Json>::empty()
                .insert("action"@, Json::Text("read_planner_markdown"@)),
        ),
        SessionRequestView::WriteRollingContext { entries } => Json::Object(
            Map::<Seq<char>, Json>::empty()
                .insert("action"@, Json::Text("write_rolling_context"@))
                .insert("entries"@, write_text_list(entries)),
        ),
        SessionRequestView::ReadRollingContext => Json::Object(
            Map::<Seq<char>, Json>::empty()
                .insert("action"@, Json::Text("read_rolling_context"@)),
        ),
        SessionRequestView::ReadTaskFails => Json::Object(
            Map::<Seq<char>, Json>::empty()
                .insert("action"@, Json::Text("read_task_fails"@)),
        ),
        SessionRequestView::AppendTaskFails { entries } => Json::Object(
            Map::<Seq<char>, Json>::empty()
                .insert("action"@, Json::Text("append_task_fails"@))
                .insert("entries"@, write_failure_list(entries)),
        ),
        SessionRequestView::ReadProjectInfo => Json::Object(
            Map::<Seq<char>, Json>::empty()
                .insert("action"@, Json::Text("read_project_info"@)),
        ),
        SessionRequestView::WriteProjectInfo { markdown } => Json::Object(
            Map::<Seq<char>, Json>::empty()
                .insert("action"@, Json::Text("write_project_info"@))
                .insert("markdown"@, Json::Text(markdown)),
        ),
        SessionRequestView::ReadSessionMeta => Json::Object(
            Map::<Seq<char>, Json>::empty()
                .insert("action"@, Json::Text("read_session_meta"@)),
        ),
    }
}

/// The [`SessionRequest`] that a document states, none where it states none.
pub open spec fn read_session_request(j: Json) -> Option<SessionRequestView> {
    match member(j, "action"@) {
        Some(Json::Text(name)) => {
            if name == "initialize"@ {
                let cwd = match member(j, "cwd"@) {
                    None => None,
                    Some(x) => read_text(x),
                };
                if cwd is Some {
                    Some(SessionRequestView::Initialize { cwd: cwd->0 })
                } else {
                    None
                }
            } else if name == "open_existing"@ {
                let cwd = match member(j, "cwd"@) {
                    None => None,
                    Some(x) => read_text(x),
                };
                let session_dir = match member(j, "session_dir"@) {
                    None => None,
                    Some(x) => read_text(x),
                };
                if cwd is Some && session_dir is Some {
                    Some(
                        SessionRequestView::OpenExisting {
                            cwd: cwd->0,
                            session_dir: session_dir->0,
                        },
                    )
                } else {
                    None
                }
            } else if name == "list_sessions"@ {
                Some(SessionRequestView::ListSessions)
            } else if name == "read_tasks"@ {
                Some(SessionRequestView::ReadTasks)
            } else if name == "read_planner_markdown"@ {
                Some(SessionRequestView::ReadPlannerMarkdown)
            } else if name == "write_rolling_context"@ {
                let entries = match member(j, "entries"@) {
                    None => None,
                    Some(x) => read_text_list(x),
                };
                if entries is Some {
                    Some(SessionRequestView::WriteRollingContext { entries: entries->0 })
                } else {
                    None
                }
            } else if name == "read_rolling_context"@ {
                Some(SessionRequestView::ReadRollingContext)
            } else if name == "read_task_fails"@ {
                Some(SessionRequestView::ReadTaskFails)
            } else if name == "append_task_fails"@ {
                let entries = match member(j, "entries"@) {
                    None => None,
                    Some(x) => read_failure_list(x),
                };
                if entries is Some {
                    Some(SessionRequestView::AppendTaskFails { entries: entries->0 })
                } else {
                    None
                }
            } else if name == "read_project_info"@ {
                Some(SessionRequestView::ReadProjectInfo)
            } else if name == "write_project_info"@ {
                let markdown = match member(j, "markdown"@) {
                    None => None,
                    Some(x) => read_text(x),
                };
                if markdown is Some {
                    Some(SessionRequestView::WriteProjectInfo { markdown: markdown->0 })
                } else {
                    None
                }
            } else if name == "read_session_meta"@ {
                Some(SessionRequestView::ReadSessionMeta)
            } else {
                None
            }
        },
        _ => None,
    }
}

/// Reading what was written for a [`SessionRequest`] gives it back.
pub proof fn lemma_session_request_round_trip(v: SessionRequestView)
    ensures
        read_session_request(write_session_request(v)) == Some(v),
{
    reveal_strlit("action");
    reveal_strlit("initialize");
    reveal_strlit("cwd");
    reveal_strlit("open_existing");
    reveal_strlit("session_dir");
    reveal_strlit("list_sessions");
    reveal_strlit("read_tasks");
    reveal_strlit("read_planner_markdown");
    reveal_strlit("write_rolling_context");
    reveal_strlit("entries");
    reveal_strlit("read_rolling_context");
    reveal_strlit("read_task_fails");
    reveal_strlit("append_task_fails");
    reveal_strlit("read_project_info");
    reveal_strlit("write_project_info");
    reveal_strlit("markdown");
    reveal_strlit("read_session_meta");
    assert("action"@.len() == 6);
    assert("initialize"@.len() == 10);
    assert("cwd"@.len() == 3);
    assert("open_existing"@.len() == 13);
    assert("session_dir"@.len() == 11);
    assert("list_sessions"@.len() == 13);
    assert("read_tasks"@.len() == 10);
    assert("read_planner_markdown"@.len() == 21);
    assert("write_rolling_context"@.len() == 21);
    assert("entries"@.len() == 7);
    assert("read_rolling_context"@.len() == 20);
    assert("read_task_fails"@.len() == 15);
    assert("append_task_fails"@.len() == 17);
    assert("read_project_info"@.len() == 17);
    assert("write_project_info"@.len() == 18);
    assert("markdown"@.len() == 8);
    assert("read_session_meta"@.len() == 17);
    assert("initialize"@[0] != "read_tasks"@[0]);
    assert("open_existing"@[0] != "list_sessions"@[0]);
    assert("read_planner_markdown"@[0] != "write_rolling_context"@[0]);
    assert("append_task_fails"@[0] != "read_project_info"@[0]);
    assert("append_task_fails"@[0] != "read_session_meta"@[0]);
    assert("read_project_info"@[5] != "read_session_meta"@[5]);
    match v {
        SessionRequestView::Initialize { cwd } => {
        },
        SessionRequestView::OpenExisting { cwd, session_dir } => {
        },
        SessionRequestView::ListSessions => {},
        SessionRequestView::ReadTasks => {},
        SessionRequestView::ReadPlannerMarkdown => {},
        SessionRequestView::WriteRollingContext { entries } => {
            lemma_text_list_round_trip(entries);
        },
        SessionRequestView::ReadRollingContext => {},
        SessionRequestView::ReadTaskFails => {},
        SessionRequestView::AppendTaskFails { entries } => {
            lemma_failure_list_round_trip(entries);
        },
        SessionRequestView::ReadProjectInfo => {},
        SessionRequestView::WriteProjectInfo { markdown } => {
        },
        SessionRequestView::ReadSessionMeta => {},
    }
}

/// A [`SessionResponse`] on the wire: as an object that names the variant under
/// `kind` beside the fields of the variant.
pub open spec fn write_session_response(v: SessionResponseView) -> Json {
    match v {
        SessionResponseView::Initialized { session } => Json::Object(
            Map::<Seq<char>, Json>::empty()
                .insert("kind"@, Json::Text("initialized"@))
                .insert("session"@, write_snapshot(session)),
        ),
        SessionResponseView::Sessions { sessions } => Json::Object(
            Map::<Seq<char>, Json>::empty()
                .insert("kind"@, Json::Text("sessions"@))
                .insert("sessions"@, write_session_list(sessions)),
        ),
        SessionResponseView::Tasks { tasks } => Json::Object(
            Map::<Seq<char>, Json>::empty()
                .insert("kind"@, Json::Text("tasks"@))
                .insert("tasks"@, write_entry_list(tasks)),
        ),
        SessionResponseView::PlannerMarkdown { markdown } => Json::Object(
            Map::<Seq<char>, Json>::empty()
                .insert("kind"@, Json::Text("planner_markdown"@))
                .insert("markdown"@, Json::Text(markdown)),
        ),
        SessionResponseView::RollingContext { entries } => Json::Object(
            Map::<Seq<char>, Json>::empty()
                .insert("kind"@, Json::Text("rolling_context"@))
                .insert("entries"@, write_text_list(entries)),
        ),
        SessionResponseView::TaskFails { entries } => Json::Object(
            Map::<Seq<char>, Json>::empty()
                .insert("kind"@, Json::Text("task_fails"@))
                .insert("entries"@, write_failure_list(entries)),
        ),
        SessionResponseView::ProjectInfo { markdown } => Json::Object(
            Map::<Seq<char>, Json>::empty()
                .insert("kind"@, Json::Text("project_info"@))
                .insert("markdown"@, Json::Text(markdown)),
        ),
        SessionResponseView::SessionMeta { meta } => Json::Object(
            Map::<Seq<char>, Json>::empty()
                .insert("kind"@, Json::Text("session_meta"@))
                .insert("meta"@, write_session_meta(meta)),
        ),
        SessionResponseView::Ack => Json::Object(
            Map::<Seq<char>, Json>::empty()
                .insert("kind"@, Json::Text("ack"@)),
        ),
    }
}

/// The [`SessionResponse`] that a document states, none where it states none.
pub open spec fn read_session_response(j: Json) -> Option<SessionResponseView> {
    match member(j, "kind"@) {
        Some(Json::Text(name)) => {
            if name == "initialized"@ {
                let session = match member(j, "session"@) {
                    None => None,
                    Some(x) => read_snapshot(x),
                };
                if session is Some {
                    Some(SessionResponseView::Initialized { session: session->0 })
                } else {
                    None
                }
            } else if name == "sessions"@ {
                let sessions = match member(j, "sessions"@) {
                    None => None,
                    Some(x) => read_session_list(x),
                };
                if sessions is Some {
                    Some(SessionResponseView::Sessions { sessions: sessions->0 })
                } else {
                    None
                }
            } else if name == "tasks"@ {
                let tasks = match member(j, "tasks"@) {
                    None => None,
                    Some(x) => read_entry_list(x),
                };
                if tasks is Some {
                    Some(SessionResponseView::Tasks { tasks: tasks->0 })
                } else {
                    None
                }
            } else if name == "planner_markdown"@ {
                let markdown = match member(j, "markdown"@) {
                    None => None,
                    Some(x) => read_text(x),
                };
                if markdown is Some {
                    Some(SessionResponseView::PlannerMarkdown { markdown: markdown->0 })
                } else {
                    None
                }
            } else if name == "rolling_context"@ {
                let entries = match member(j, "entries"@) {
                    None => None,
                    Some(x) => read_text_list(x),
                };
                if entries is Some {
                    Some(SessionResponseView::RollingContext { entries: entries->0 })
                } else {
                    None
                }
            } else if name == "task_fails"@ {
                let entries = match member(j, "entries"@) {
                    None => None,
                    Some(x) => read_failure_list(x),
                };
                if entries is Some {
                    Some(SessionResponseView::TaskFails { entries: entries->0 })
                } else {
                    None
                }
            } else if name == "project_info"@ {
                let markdown = match member(j, "markdown"@) {
                    None => None,
                    Some(x) => read_text(x),
                };
                if markdown is Some {
                    Some(SessionResponseView::ProjectInfo { markdown: markdown->0 })
                } else {
                    None
                }
            } else if name == "session_meta"@ {
                let meta = match member(j, "meta"@) {
                    None => None,
                    Some(x) => read_session_meta(x),
                };
                if meta is Some {
                    Some(SessionResponseView::SessionMeta { meta: meta->0 })
                } else {
                    None
                }
            } else if name == "ack"@ {
                Some(SessionResponseView::Ack)
            } else {
                None
            }
        },
        _ => None,
    }
}

/// Reading what was written for a [`SessionResponse`] gives it back.
pub proof fn lemma_session_response_round_trip(v: SessionResponseView)
    ensures
        read_session_response(write_session_response(v)) == Some(v),
{
    reveal_strlit("kind");
    reveal_strlit("initialized");
    reveal_strlit("session");
    reveal_strlit("sessions");
    reveal_strlit("tasks");
    reveal_strlit("planner_markdown");
    reveal_strlit("markdown");
    reveal_strlit("rolling_context");
    reveal_strlit("entries");
    reveal_strlit("task_fails");
    reveal_strlit("project_info");
    reveal_strlit("session_meta");
    reveal_strlit("meta");
    reveal_strlit("ack");
    assert("kind"@.len() == 4);
    assert("initialized"@.len() == 11);
    assert("session"@.len() == 7);
    assert("sessions"@.len() == 8);
    assert("tasks"@.len() == 5);
    assert("planner_markdown"@.len() == 16);
    assert("markdown"@.len() == 8);
    assert("rolling_context"@.len() == 15);
    assert("entries"@.len() == 7);
    assert("task_fails"@.len() == 10);
    assert("project_info"@.len() == 12);
    assert("session_meta"@.len() == 12);
    assert("meta"@.len() == 4);
    assert("ack"@.len() == 3);
    assert("kind"@[0] != "meta"@[0]);
    assert("session"@[0] != "entries"@[0]);
    assert("sessions"@[0] != "markdown"@[0]);
    assert("project_info"@[0] != "session_meta"@[0]);
    match v {
        SessionResponseView::Initialized { session } => {
            lemma_snapshot_round_trip(session);
        },
        SessionResponseView::Sessions { sessions } => {
            lemma_session_list_round_trip(sessions);
        },
        SessionResponseView::Tasks { tasks } => {
            lemma_entry_list_round_trip(tasks);
        },
        SessionResponseView::PlannerMarkdown { markdown } => {
        },
        SessionResponseView::RollingContext { entries } => {
            lemma_text_list_round_trip(entries);
        },
        SessionResponseView::TaskFails { entries } => {
            lemma_failure_list_round_trip(entries);
        },
        SessionResponseView::ProjectInfo { markdown } => {
        },
        SessionResponseView::SessionMeta { meta } => {
            lemma_session_meta_round_trip(meta);
        },
        SessionResponseView::Ack => {},
    }
}

/// A [`SubagentRequest`] on the wire: as an object that names the variant under
/// `action` beside the fields of the variant.
pub open spec fn write_subagent_request(v: SubagentRequestView) -> Json {
    match v {
        SubagentRequestView::BuildMasterPrompt { tasks_file, workflow_prompt } => Json::Object(
            Map::<Seq<char>, Json>::empty()
                .insert("action"@, Json::Text("build_master_prompt"@))
                .insert("tasks_file"@, Json::Text(tasks_file))
                .insert("workflow_prompt"@, Json::Text(workflow_prompt)),
        ),
        SubagentRequestView::BuildConvertPlanPrompt { planner_file, tasks_file } => Json::Object(
            Map::<Seq<char>, Json>::empty()
                .insert("action"@, Json::Text("build_convert_plan_prompt"@))
                .insert("planner_file"@, Json::Text(planner_file))
                .insert("tasks_file"@, Json::Text(tasks_file)),
        ),
        SubagentRequestView::BuildSessionIntroIfNeeded {
            prompt,
            session_dir,
            session_meta_file,
            project_info,
            intro_needed,
        } => Json::Object(
            Map::<Seq<char>, Json>::empty()
                .insert("action"@, Json::Text("build_session_intro_if_needed"@))
                .insert("prompt"@, Json::Text(prompt))
                .insert("session_dir"@, Json::Text(session_dir))
                .insert("session_meta_file"@, Json::Text(session_meta_file))
                .insert(
                    "project_info"@,
                    match project_info {
                        Some(x) => Json::Text(x),
                        None => Json::Null,
                    },
                )
                .insert("intro_needed"@, Json::Bool(intro_needed)),
        ),
        SubagentRequestView::BuildFailureReportPrompt {
            task_fails_file,
            failed_this_cycle,
            has_test_failure,
        } => Json::Object(
            Map::<Seq<char>, Json>::empty()
                .insert("action"@, Json::Text("build_failure_report_prompt"@))
                .insert("task_fails_file"@, Json::Text(task_fails_file))
                .insert("failed_this_cycle"@, write_failure_list(failed_this_cycle))
                .insert("has_test_failure"@, Json::Bool(has_test_failure)),
        ),
        SubagentRequestView::SplitAuditsCommandPrompt => Json::Object(
            Map::<Seq<char>, Json>::empty()
                .insert("action"@, Json::Text("split_audits_command_prompt"@)),
        ),
        SubagentRequestView::MergeAuditsCommandPrompt => Json::Object(
            Map::<Seq<char>, Json>::empty()
                .insert("action"@, Json::Text("merge_audits_command_prompt"@)),
        ),
        SubagentRequestView::SplitTestsCommandPrompt => Json::Object(
            Map::<Seq<char>, Json>::empty()
                .insert("action"@, Json::Text("split_tests_command_prompt"@)),
        ),
        SubagentRequestView::MergeTestsCommandPrompt => Json::Object(
            Map::<Seq<char>, Json>::empty()
                .insert("action"@, Json::Text("merge_tests_command_prompt"@)),
        ),
        SubagentRequestView::BuildProjectInfoPrompt { cwd, question, output_path } => Json::Object(
            Map::<Seq<char>, Json>::empty()
                .insert("action"@, Json::Text("build_project_info_prompt"@))
                .insert("cwd"@, Json::Text(cwd))
                .insert("question"@, Json::Text(question))
                .insert("output_path"@, Json::Text(output_path)),
        ),
        SubagentRequestView::BuildSessionMetaPrompt { user_prompt, output_path } => Json::Object(
            Map::<Seq<char>, Json>::empty()
                .insert("action"@, Json::Text("build_session_meta_prompt"@))
                .insert("user_prompt"@, Json::Text(user_prompt))
                .insert("output_path"@, Json::Text(output_path)),
        ),
        SubagentRequestView::BuildTaskCheckPrompt {
            tasks_file,
            project_info_file,
            session_meta_file,
        } => Json::Object(
            Map::<Seq<char>, Json>::empty()
                .insert("action"@, Json::Text("build_task_check_prompt"@))
                .insert("tasks_file"@, Json::Text(tasks_file))
                .insert("project_info_file"@, Json::Text(project_info_file))
                .insert("session_meta_file"@, Json::Text(session_meta_file)),
        ),
    }
}

/// The [`SubagentRequest`] that a document states, none where it states none.
pub open spec fn read_subagent_request(j: Json) -> Option<SubagentRequestView> {
    match member(j, "action"@) {
        Some(Json::Text(name)) => {
            if name == "build_master_prompt"@ {
                let tasks_file = match member(j, "tasks_file"@) {
                    None => None,
                    Some(x) => read_text(x),
                };
                let workflow_prompt = match member(j, "workflow_prompt"@) {
                    None => None,
                    Some(x) => read_text(x),
                };
                if tasks_file is Some && workflow_prompt is Some {
                    Some(
                        SubagentRequestView::BuildMasterPrompt {
                            tasks_file: tasks_file->0,
                            workflow_prompt: workflow_prompt->0,
                        },
                    )
                } else {
                    None
                }
            } else if name == "build_convert_plan_prompt"@ {
                let planner_file = match member(j, "planner_file"@) {
                    None => None,
                    Some(x) => read_text(x),
                };
                let tasks_file = match member(j, "tasks_file"@) {
                    None => None,
                    Some(x) => read_text(x),
                };
                if planner_file is Some && tasks_file is Some {
                    Some(
                        SubagentRequestView::BuildConvertPlanPrompt {
                            planner_file: planner_file->0,
                            tasks_file: tasks_file->0,
                        },
                    )
                } else {
                    None
                }
            } else if name == "build_session_intro_if_needed"@ {
                let prompt = match member(j, "prompt"@) {
                    None => None,
                    Some(x) => read_text(x),
                };
                let session_dir = match member(j, "session_dir"@) {
                    None => None,
                    Some(x) => read_text(x),
                };
                let session_meta_file = match member(j, "session_meta_file"@) {
                    None => None,
                    Some(x) => read_text(x),
                };
                let project_info = match member(j, "project_info"@) {
                    None => Some(None),
                    Some(Json::Null) => Some(None),
                    Some(x) => match read_text(x) {
                        Some(v) => Some(Some(v)),
                        None => None,
                    },
                };
                let intro_needed = match member(j, "intro_needed"@) {
                    None => None,
                    Some(x) => read_bool(x),
                };
                if prompt is Some && session_dir is Some && session_meta_file is Some
                    && project_info is Some && intro_needed is Some {
                    Some(
                        SubagentRequestView::BuildSessionIntroIfNeeded {
                            prompt: prompt->0,
                            session_dir: session_dir->0,
                            session_meta_file: session_meta_file->0,
                            project_info: project_info->0,
                            intro_needed: intro_needed->0,
                        },
                    )
                } else {
                    None
                }
            } else if name == "build_failure_report_prompt"@ {
                let task_fails_file = match member(j, "task_fails_file"@) {
                    None => None,
                    Some(x) => read_text(x),
                };
                let failed_this_cycle = match member(j, "failed_this_cycle"@) {
                    None => None,
                    Some(x) => read_failure_list(x),
                };
                let has_test_failure = match member(j, "has_test_failure"@) {
                    None => None,
                    Some(x) => read_bool(x),
                };
                if task_fails_file is Some && failed_this_cycle is Some
                    && has_test_failure is Some {
                    Some(
                        SubagentRequestView::BuildFailureReportPrompt {
                            task_fails_file: task_fails_file->0,
                            failed_this_cycle: failed_this_cycle->0,
                            has_test_failure: has_test_failure->0,
                        },
                    )
                } else {
                    None
                }
            } else if name == "split_audits_command_prompt"@ {
                Some(SubagentRequestView::SplitAuditsCommandPrompt)
            } else if name == "merge_audits_command_prompt"@ {
                Some(SubagentRequestView::MergeAuditsCommandPrompt)
            } else if name == "split_tests_command_prompt"@ {
                Some(SubagentRequestView::SplitTestsCommandPrompt)
            } else if name == "merge_tests_command_prompt"@ {
                Some(SubagentRequestView::MergeTestsCommandPrompt)
            } else if name == "build_project_info_prompt"@ {
                let cwd = match member(j, "cwd"@) {
                    None => None,
                    Some(x) => read_text(x),
                };
                let question = match member(j, "question"@) {
                    None => None,
                    Some(x) => read_text(x),
                };
                let output_path = match member(j, "output_path"@) {
                    None => None,
                    Some(x) => read_text(x),
                };
                if cwd is Some && question is Some && output_path is Some {
                    Some(
                        SubagentRequestView::BuildProjectInfoPrompt {
                            cwd: cwd->0,
                            question: question->0,
                            output_path: output_path->0,
                        },
                    )
                } else {
                    None
                }
            } else if name == "build_session_meta_prompt"@ {
                let user_prompt = match member(j, "user_prompt"@) {
                    None => None,
                    Some(x) => read_text(x),
                };
                let output_path = match member(j, "output_path"@) {
                    None => None,
                    Some(x) => read_text(x),
                };
                if user_prompt is Some && output_path is Some {
                    Some(
                        SubagentRequestView::BuildSessionMetaPrompt {
                            user_prompt: user_prompt->0,
                            output_path: output_path->0,
                        },
                    )
                } else {
                    None
                }
            } else if name == "build_task_check_prompt"@ {
                let tasks_file = match member(j, "tasks_file"@) {
                    None => None,
                    Some(x) => read_text(x),
                };
                let project_info_file = match member(j, "project_info_file"@) {
                    None => None,
                    Some(x) => read_text(x),
                };
                let session_meta_file = match member(j, "session_meta_file"@) {
                    None => None,
                    Some(x) => read_text(x),
                };
                if tasks_file is Some && project_info_file is Some && session_meta_file is Some {
                    Some(
                        SubagentRequestView::BuildTaskCheckPrompt {
                            tasks_file: tasks_file->0,
                            project_info_file: project_info_file->0,
                            session_meta_file: session_meta_file->0,
                        },
                    )
                } else {
                    None
                }
            } else {
                None
            }
        },
        _ => None,
    }
}

/// Reading what was written for a [`SubagentRequest`] gives it back.
pub proof fn lemma_subagent_request_round_trip(v: SubagentRequestView)
    ensures
        read_subagent_request(write_subagent_request(v)) == Some(v),
{
    reveal_strlit("action");
    reveal_strlit("build_master_prompt");
    reveal_strlit("tasks_file");
    reveal_strlit("workflow_prompt");
    reveal_strlit("build_convert_plan_prompt");
    reveal_strlit("planner_file");
    reveal_strlit("build_session_intro_if_needed");
    reveal_strlit("prompt");
    reveal_strlit("session_dir");
    reveal_strlit("session_meta_file");
    reveal_strlit("project_info");
    reveal_strlit("intro_needed");
    reveal_strlit("build_failure_report_prompt");
    reveal_strlit("task_fails_file");
    reveal_strlit("failed_this_cycle");
    reveal_strlit("has_test_failure");
    reveal_strlit("split_audits_command_prompt");
    reveal_strlit("merge_audits_command_prompt");
    reveal_strlit("split_tests_command_prompt");
    reveal_strlit("merge_tests_command_prompt");
    reveal_strlit("build_project_info_prompt");
    reveal_strlit("cwd");
    reveal_strlit("question");
    reveal_strlit("output_path");
    reveal_strlit("build_session_meta_prompt");
    reveal_strlit("user_prompt");
    reveal_strlit("build_task_check_prompt");
    reveal_strlit("project_info_file");
    assert("action"@.len() == 6);
    assert("build_master_prompt"@.len() == 19);
    assert("tasks_file"@.len() == 10);
    assert("workflow_prompt"@.len() == 15);
    assert("build_convert_plan_prompt"@.len() == 25);
    assert("planner_file"@.len() == 12);
    assert("build_session_intro_if_needed"@.len() == 29);
    assert("prompt"@.len() == 6);
    assert("session_dir"@.len() == 11);
    assert("session_meta_file"@.len() == 17);
    assert("project_info"@.len() == 12);
    assert("intro_needed"@.len() == 12);
    assert("build_failure_report_prompt"@.len() == 27);
    assert("task_fails_file"@.len() == 15);
    assert("failed_this_cycle"@.len() == 17);
    assert("has_test_failure"@.len() == 16);
    assert("split_audits_command_prompt"@.len() == 27);
    assert("merge_audits_command_prompt"@.len() == 27);
    assert("split_tests_command_prompt"@.len() == 26);
    assert("merge_tests_command_prompt"@.len() == 26);
    assert("build_project_info_prompt"@.len() == 25);
    assert("cwd"@.len() == 3);
    assert("question"@.len() == 8);
    assert("output_path"@.len() == 11);
    assert("build_session_meta_prompt"@.len() == 25);
    assert("user_prompt"@.len() == 11);
    assert("build_task_check_prompt"@.len() == 23);
    assert("project_info_file"@.len() == 17);
    assert("action"@[0] != "prompt"@[0]);
    assert("workflow_prompt"@[0] != "task_fails_file"@[0]);
    assert("build_convert_plan_prompt"@[6] != "build_project_info_prompt"@[6]);
    assert("build_convert_plan_prompt"@[6] != "build_session_meta_prompt"@[6]);
    assert("planner_file"@[1] != "project_info"@[1]);
    assert("planner_file"@[0] != "intro_needed"@[0]);
    assert("session_dir"@[0] != "output_path"@[0]);
    assert("session_dir"@[0] != "user_prompt"@[0]);
    assert("session_meta_file"@[0] != "failed_this_cycle"@[0]);
    assert("session_meta_file"@[0] != "project_info_file"@[0]);
    assert("project_info"@[0] != "intro_needed"@[0]);
    assert("build_failure_report_prompt"@[0] != "split_audits_command_prompt"@[0]);
    assert("build_failure_report_prompt"@[0] != "merge_audits_command_prompt"@[0]);
    assert("failed_this_cycle"@[0] != "project_info_file"@[0]);
    assert("split_audits_command_prompt"@[0] != "merge_audits_command_prompt"@[0]);
    assert("split_tests_command_prompt"@[0] != "merge_tests_command_prompt"@[0]);
    assert("build_project_info_prompt"@[6] != "build_session_meta_prompt"@[6]);
    assert("output_path"@[0] != "user_prompt"@[0]);
    match v {
        SubagentRequestView::BuildMasterPrompt { tasks_file, workflow_prompt } => {
        },
        SubagentRequestView::BuildConvertPlanPrompt { planner_file, tasks_file } => {
        },
        SubagentRequestView::BuildSessionIntroIfNeeded {
            prompt,
            session_dir,
            session_meta_file,
            project_info,
            intro_needed,
        } => {
        },
        SubagentRequestView::BuildFailureReportPrompt {
            task_fails_file,
            failed_this_cycle,
            has_test_failure,
        } => {
            lemma_failure_list_round_trip(failed_this_cycle);
        },
        SubagentRequestView::SplitAuditsCommandPrompt => {},
        SubagentRequestView::MergeAuditsCommandPrompt => {},
        SubagentRequestView::SplitTestsCommandPrompt => {},
        SubagentRequestView::MergeTestsCommandPrompt => {},
        SubagentRequestView::BuildProjectInfoPrompt { cwd, question, output_path } => {
        },
        SubagentRequestView::BuildSessionMetaPrompt { user_prompt, output_path } => {
        },
        SubagentRequestView::BuildTaskCheckPrompt {
            tasks_file,
            project_info_file,
            session_meta_file,
        } => {
        },
    }
}

/// A [`SubagentResponse`] on the wire: as an object that names the variant
/// under `kind` beside the fields of the variant.
pub open spec fn write_subagent_response(v: SubagentResponseView) -> Json {
    match v {
        SubagentResponseView::Prompt { text } => Json::Object(
            Map::<Seq<char>, Json>::empty()
                .insert("kind"@, Json::Text("prompt"@))
                .insert("text"@, Json::Text(text)),
        ),
        SubagentResponseView::IntroPrompt { text, intro_needed_after } => Json::Object(
            Map::<Seq<char>, Json>::empty()
                .insert("kind"@, Json::Text("intro_prompt"@))
                .insert("text"@, Json::Text(text))
                .insert("intro_needed_after"@, Json::Bool(intro_needed_after)),
        ),
    }
}

/// The [`SubagentResponse`] that a document states, none where it states none.
pub open spec fn read_subagent_response(j: Json) -> Option<SubagentResponseView> {
    match member(j, "kind"@) {
        Some(Json::Text(name)) => {
            if name == "prompt"@ {
                let text = match member(j, "text"@) {
                    None => None,
                    Some(x) => read_text(x),
                };
                if text is Some {
                    Some(SubagentResponseView::Prompt { text: text->0 })
                } else {
                    None
                }
            } else if name == "intro_prompt"@ {
                let text = match member(j, "text"@) {
                    None => None,
                    Some(x) => read_text(x),
                };
                let intro_needed_after = match member(j, "intro_needed_after"@) {
                    None => None,
                    Some(x) => read_bool(x),
                };
                if text is Some && intro_needed_after is Some {
                    Some(
                        SubagentResponseView::IntroPrompt {
                            text: text->0,
                            intro_needed_after: intro_needed_after->0,
                        },
                    )
                } else {
                    None
                }
            } else {
                None
            }
        },
        _ => None,
    }
}

/// Reading what was written for a [`SubagentResponse`] gives it back.
pub proof fn lemma_subagent_response_round_trip(v: SubagentResponseView)
    ensures
        read_subagent_response(write_subagent_response(v)) == Some(v),
{
    reveal_strlit("kind");
    reveal_strlit("prompt");
    reveal_strlit("text");
    reveal_strlit("intro_prompt");
    reveal_strlit("intro_needed_after");
    assert("kind"@.len() == 4);
    assert("prompt"@.len() == 6);
    assert("text"@.len() == 4);
    assert("intro_prompt"@.len() == 12);
    assert("intro_needed_after"@.len() == 18);
    assert("kind"@[0] != "text"@[0]);
    match v {
        SubagentResponseView::Prompt { text } => {
        },
        SubagentResponseView::IntroPrompt { text, intro_needed_after } => {
        },
    }
}

/// An [`ApiRequestContract`] on the wire: as an object that names the variant
/// under `domain` and holds what the variant carries under `request`.
pub open spec fn write_api_request(v: ApiRequestView) -> Json {
    match v {
        ApiRequestView::App(x) => Json::Object(
            Map::<Seq<char>, Json>::empty()
                .insert("domain"@, Json::Text("app"@))
                .insert("request"@, write_app_request(x)),
        ),
        ApiRequestView::Events(x) => Json::Object(
            Map::<Seq<char>, Json>::empty()
                .insert("domain"@, Json::Text("events"@))
                .insert("request"@, write_events_request(x)),
        ),
        ApiRequestView::Workflow(x) => Json::Object(
            Map::<Seq<char>, Json>::empty()
                .insert("domain"@, Json::Text("workflow"@))
                .insert("request"@, write_workflow_request(x)),
        ),
        ApiRequestView::Session(x) => Json::Object(
            Map::<Seq<char>, Json>::empty()
                .insert("domain"@, Json::Text("session"@))
                .insert("request"@, write_session_request(x)),
        ),
        ApiRequestView::Subagent(x) => Json::Object(
            Map::<Seq<char>, Json>::empty()
                .insert("domain"@, Json::Text("subagent"@))
                .insert("request"@, write_subagent_request(x)),
        ),
    }
}

/// The [`ApiRequestContract`] that a document states, none where it states none.
pub open spec fn read_api_request(j: Json) -> Option<ApiRequestView> {
    match member(j, "domain"@) {
        Some(Json::Text(name)) => {
            if name == "app"@ {
                match member(j, "request"@) {
                    Some(x) => match read_app_request(x) {
                        Some(carried) => Some(ApiRequestView::App(carried)),
                        None => None,
                    },
                    None => None,
                }
            } else if name == "events"@ {
                match member(j, "request"@) {
                    Some(x) => match read_events_request(x) {
                        Some(carried) => Some(ApiRequestView::Events(carried)),
                        None => None,
                    },
                    None => None,
                }
            } else if name == "workflow"@ {
                match member(j, "request"@) {
                    Some(x) => match read_workflow_request(x) {
                        Some(carried) => Some(ApiRequestView::Workflow(carried)),
                        None => None,
                    },
                    None => None,
                }
            } else if name == "session"@ {
                match member(j, "request"@) {
                    Some(x) => match read_session_request(x) {
                        Some(carried) => Some(ApiRequestView::Session(carried)),
                        None => None,
                    },
                    None => None,
                }
            } else if name == "subagent"@ {
                match member(j, "request"@) {
                    Some(x) => match read_subagent_request(x) {
                        Some(carried) => Some(ApiRequestView::Subagent(carried)),
                        None => None,
                    },
                    None => None,
                }
            } else {
                None
            }
        },
        _ => None,
    }
}

/// Reading what was written for an [`ApiRequestContract`] gives it back.
pub proof fn lemma_api_request_round_trip(v: ApiRequestView)
    ensures
        read_api_request(write_api_request(v)) == Some(v),
{
    reveal_strlit("domain");
    reveal_strlit("request");
    reveal_strlit("app");
    reveal_strlit("events");
    reveal_strlit("workflow");
    reveal_strlit("session");
    reveal_strlit("subagent");
    assert("domain"@.len() == 6);
    assert("request"@.len() == 7);
    assert("app"@.len() == 3);
    assert("events"@.len() == 6);
    assert("workflow"@.len() == 8);
    assert("session"@.len() == 7);
    assert("subagent"@.len() == 8);
    assert("domain"@[0] != "events"@[0]);
    assert("request"@[0] != "session"@[0]);
    assert("workflow"@[0] != "subagent"@[0]);
    match v {
        ApiRequestView::App(x) => {
            lemma_app_request_round_trip(x);
        },
        ApiRequestView::Events(x) => {
            lemma_events_request_round_trip(x);
        },
        ApiRequestView::Workflow(x) => {
            lemma_workflow_request_round_trip(x);
        },
        ApiRequestView::Session(x) => {
            lemma_session_request_round_trip(x);
        },
        ApiRequestView::Subagent(x) => {
            lemma_subagent_request_round_trip(x);
        },
    }
}

/// An [`ApiResponseContract`] on the wire: as an object that names the variant
/// under `domain` and holds what the variant carries under `response`.
pub open spec fn write_api_response(v: ApiResponseView) -> Json {
    match v {
        ApiResponseView::App(x) => Json::Object(
            Map::<Seq<char>, Json>::empty()
                .insert("domain"@, Json::Text("app"@))
                .insert("response"@, write_app_response(x)),
        ),
        ApiResponseView::Events(x) => Json::Object(
            Map::<Seq<char>, Json>::empty()
                .insert("domain"@, Json::Text("events"@))
                .insert("response"@, write_events_response(x)),
        ),
        ApiResponseView::Workflow(x) => Json::Object(
            Map::<Seq<char>, Json>::empty()
                .insert("domain"@, Json::Text("workflow"@))
                .insert("response"@, write_workflow_response(x)),
        ),
        ApiResponseView::Session(x) => Json::Object(
            Map::<Seq<char>, Json>::empty()
                .insert("domain"@, Json::Text("session"@))
                .insert("response"@, write_session_response(x)),
        ),
        ApiResponseView::Subagent(x) => Json::Object(
            Map::<Seq<char>, Json>::empty()
                .insert("domain"@, Json::Text("subagent"@))
                .insert("response"@, write_subagent_response(x)),
        ),
    }
}

/// The [`ApiResponseContract`] that a document states, none where it states none.
pub open spec fn read_api_response(j: Json) -> Option<ApiResponseView> {
    match member(j, "domain"@) {
        Some(Json::Text(name)) => {
            if name == "app"@ {
                match member(j, "response"@) {
                    Some(x) => match read_app_response(x) {
                        Some(carried) => Some(ApiResponseView::App(carried)),
                        None => None,
                    },
                    None => None,
                }
            } else if name == "events"@ {
                match member(j, "response"@) {
                    Some(x) => match read_events_response(x) {
                        Some(carried) => Some(ApiResponseView::Events(carried)),
                        None => None,
                    },
                    None => None,
                }
            } else if name == "workflow"@ {
                match member(j, "response"@) {
                    Some(x) => match read_workflow_response(x) {
                        Some(carried) => Some(ApiResponseView::Workflow(carried)),
                        None => None,
                    },
                    None => None,
                }
            } else if name == "session"@ {
                match member(j, "response"@) {
                    Some(x) => match read_session_response(x) {
                        Some(carried) => Some(ApiResponseView::Session(carried)),
                        None => None,
                    },
                    None => None,
                }
            } else if name == "subagent"@ {
                match member(j, "response"@) {
                    Some(x) => match read_subagent_response(x) {
                        Some(carried) => Some(ApiResponseView::Subagent(carried)),
                        None => None,
                    },
                    None => None,
                }
            } else {
                None
            }
        },
        _ => None,
    }
}

/// Reading what was written for an [`ApiResponseContract`] gives it back.
pub proof fn lemma_api_response_round_trip(v: ApiResponseView)
    ensures
        read_api_response(write_api_response(v)) == Some(v),
{
    reveal_strlit("domain");
    reveal_strlit("response");
    reveal_strlit("app");
    reveal_strlit("events");
    reveal_strlit("workflow");
    reveal_strlit("session");
    reveal_strlit("subagent");
    assert("domain"@.len() == 6);
    assert("response"@.len() == 8);
    assert("app"@.len() == 3);
    assert("events"@.len() == 6);
    assert("workflow"@.len() == 8);
    assert("session"@.len() == 7);
    assert("subagent"@.len() == 8);
    assert("domain"@[0] != "events"@[0]);
    assert("response"@[0] != "workflow"@[0]);
    assert("response"@[0] != "subagent"@[0]);
    assert("workflow"@[0] != "subagent"@[0]);
    match v {
        ApiResponseView::App(x) => {
            lemma_app_response_round_trip(x);
        },
        ApiResponseView::Events(x) => {
            lemma_events_response_round_trip(x);
        },
        ApiResponseView::Workflow(x) => {
            lemma_workflow_response_round_trip(x);
        },
        ApiResponseView::Session(x) => {
            lemma_session_response_round_trip(x);
        },
        ApiResponseView::Subagent(x) => {
            lemma_subagent_response_round_trip(x);
        },
    }
}

/// A [`RequestMetadata`] on the wire: as an object with one member per field,
/// but for the absent ones, which are left out.
pub open spec fn write_metadata(v: MetadataView) -> Json {
    let members = Map::<Seq<char>, Json>::empty();
    let members = with_member(
        members,
        "transport"@,
        match v.transport {
            Some(x) => Some(Json::Text(x)),
            None => None,
        },
    );
    let members = with_member(
        members,
        "actor"@,
        match v.actor {
            Some(x) => Some(Json::Text(x)),
            None => None,
        },
    );
    Json::Object(members)
}

/// The [`RequestMetadata`] that a document states, none where it states none.
pub open spec fn read_metadata(j: Json) -> Option<MetadataView> {
    if !(j is Object) {
        None
    } else {
        let transport = match member(j, "transport"@) {
            None => Some(None),
            Some(Json::Null) => Some(None),
            Some(x) => match read_text(x) {
                Some(v) => Some(Some(v)),
                None => None,
            },
        };
        let actor = match member(j, "actor"@) {
            None => Some(None),
            Some(Json::Null) => Some(None),
            Some(x) => match read_text(x) {
                Some(v) => Some(Some(v)),
                None => None,
            },
        };
        if transport is Some && actor is Some {
            Some(MetadataView { transport: transport->0, actor: actor->0 })
        } else {
            None
        }
    }
}

/// Reading what was written for a [`RequestMetadata`] gives it back.
pub proof fn lemma_metadata_round_trip(v: MetadataView)
    ensures
        read_metadata(write_metadata(v)) == Some(v),
{
    reveal_strlit("transport");
    reveal_strlit("actor");
    assert("transport"@.len() == 9);
    assert("actor"@.len() == 5);
}

/// An [`ApiErrorEnvelope`] on the wire: as an object with one member per field,
/// but for the absent ones, which are left out.
pub open spec fn write_error(v: ErrorView) -> Json {
    let members = Map::<Seq<char>, Json>::empty();
    let members = members.insert("code"@, write_error_code(v.code));
    let members = members.insert("message"@, Json::Text(v.message));
    let members = members.insert("retryable"@, Json::Bool(v.retryable));
    let members = with_member(members, "details"@, v.details);
    Json::Object(members)
}

/// The [`ApiErrorEnvelope`] that a document states, none where it states none.
pub open spec fn read_error(j: Json) -> Option<ErrorView> {
    if !(j is Object) {
        None
    } else {
        let code = match member(j, "code"@) {
            None => None,
            Some(x) => read_error_code(x),
        };
        let message = match member(j, "message"@) {
            None => None,
            Some(x) => read_text(x),
        };
        let retryable = match member(j, "retryable"@) {
            None => Some(false),
            Some(x) => read_bool(x),
        };
        let details = match member(j, "details"@) {
            None => Some(None),
            Some(Json::Null) => Some(None),
            Some(x) => Some(Some(x)),
        };
        if code is Some && message is Some && retryable is Some && details is Some {
            Some(
                ErrorView {
                    code: code->0,
                    message: message->0,
                    retryable: retryable->0,
                    details: details->0,
                },
            )
        } else {
            None
        }
    }
}

/// Reading what was written for an [`ApiErrorEnvelope`] gives it back, provided
/// that the details of its error, if it has them, are not the document `null`.
pub proof fn lemma_error_round_trip(v: ErrorView)
    requires
        states_details(v),
    ensures
        read_error(write_error(v)) == Some(v),
{
    reveal_strlit("code");
    reveal_strlit("message");
    reveal_strlit("retryable");
    reveal_strlit("details");
    assert("code"@.len() == 4);
    assert("message"@.len() == 7);
    assert("retryable"@.len() == 9);
    assert("details"@.len() == 7);
    assert("message"@[0] != "details"@[0]);
    lemma_error_code_round_trip(v.code);
}

/// An [`ApiResultEnvelope`] on the wire: as an object that names the variant
/// under `status` beside the fields of the variant.
pub open spec fn write_result(v: ResultView) -> Json {
    match v {
        ResultView::Success { data } => Json::Object(
            Map::<Seq<char>, Json>::empty()
                .insert("status"@, Json::Text("ok"@))
                .insert("data"@, write_api_response(data)),
        ),
        ResultView::Failure { error } => Json::Object(
            Map::<Seq<char>, Json>::empty()
                .insert("status"@, Json::Text("err"@))
                .insert("error"@, write_error(error)),
        ),
    }
}

/// The [`ApiResultEnvelope`] that a document states, none where it states none.
pub open spec fn read_result(j: Json) -> Option<ResultView> {
    match member(j, "status"@) {
        Some(Json::Text(name)) => {
            if name == "ok"@ {
                let data = match member(j, "data"@) {
                    None => None,
                    Some(x) => read_api_response(x),
                };
                if data is Some {
                    Some(ResultView::Success { data: data->0 })
                } else {
                    None
                }
            } else if name == "err"@ {
                let error = match member(j, "error"@) {
                    None => None,
                    Some(x) => read_error(x),
                };
                if error is Some {
                    Some(ResultView::Failure { error: error->0 })
                } else {
                    None
                }
            } else {
                None
            }
        },
        _ => None,
    }
}

/// Reading what was written for an [`ApiResultEnvelope`] gives it back,
/// provided that the details of its error, if it has them, are not the document
/// `null`.
pub proof fn lemma_result_round_trip(v: ResultView)
    requires
        result_states_details(v),
    ensures
        read_result(write_result(v)) == Some(v),
{
    reveal_strlit("status");
    reveal_strlit("ok");
    reveal_strlit("data");
    reveal_strlit("err");
    reveal_strlit("error");
    assert("status"@.len() == 6);
    assert("ok"@.len() == 2);
    assert("data"@.len() == 4);
    assert("err"@.len() == 3);
    assert("error"@.len() == 5);
    match v {
        ResultView::Success { data } => {
            lemma_api_response_round_trip(data);
        },
        ResultView::Failure { error } => {
            lemma_error_round_trip(error);
        },
    }
}

/// A [`RequestEnvelope`] on the wire: as an object with one member per field,
/// but for an absent id and for metadata that states nothing, which are left
/// out.
pub open spec fn write_request(v: RequestView) -> Json {
    let members = Map::<Seq<char>, Json>::empty();
    let members = with_member(
        members,
        "request_id"@,
        match v.request_id {
            Some(x) => Some(Json::Text(x)),
            None => None,
        },
    );
    let members = members.insert("capability"@, write_capability(v.capability));
    let members = with_member(
        members,
        "metadata"@,
        if v.metadata == (MetadataView { transport: None, actor: None }) {
            None
        } else {
            Some(write_metadata(v.metadata))
        },
    );
    let members = members.insert("payload"@, write_api_request(v.payload));
    Json::Object(members)
}

/// The [`RequestEnvelope`] that a document states, none where it states none.
pub open spec fn read_request(j: Json) -> Option<RequestView> {
    if !(j is Object) {
        None
    } else {
        let request_id = match member(j, "request_id"@) {
            None => Some(None),
            Some(Json::Null) => Some(None),
            Some(x) => match read_text(x) {
                Some(v) => Some(Some(v)),
                None => None,
            },
        };
        let capability = match member(j, "capability"@) {
            None => None,
            Some(x) => read_capability(x),
        };
        let metadata = match member(j, "metadata"@) {
            None => Some(MetadataView { transport: None, actor: None }),
            Some(x) => read_metadata(x),
        };
        let payload = match member(j, "payload"@) {
            None => None,
            Some(x) => read_api_request(x),
        };
        if request_id is Some && capability is Some && metadata is Some && payload is Some {
            Some(
                RequestView {
                    request_id: request_id->0,
                    capability: capability->0,
                    metadata: metadata->0,
                    payload: payload->0,
                },
            )
        } else {
            None
        }
    }
}

/// Reading what was written for a [`RequestEnvelope`] gives it back.
pub proof fn lemma_request_round_trip(v: RequestView)
    ensures
        read_request(write_request(v)) == Some(v),
{
    reveal_strlit("request_id");
    reveal_strlit("capability");
    reveal_strlit("metadata");
    reveal_strlit("payload");
    assert("request_id"@.len() == 10);
    assert("capability"@.len() == 10);
    assert("metadata"@.len() == 8);
    assert("payload"@.len() == 7);
    assert("request_id"@[0] != "capability"@[0]);
    lemma_capability_round_trip(v.capability);
    lemma_metadata_round_trip(v.metadata);
    lemma_api_request_round_trip(v.payload);
}

/// A [`ResponseEnvelope`] on the wire: as an object with one member per field,
/// but for the absent ones, which are left out.
pub open spec fn write_response(v: ResponseView) -> Json {
    let members = Map::<Seq<char>, Json>::empty();
    let members = with_member(
        members,
        "request_id"@,
        match v.request_id {
            Some(x) => Some(Json::Text(x)),
            None => None,
        },
    );
    let members = members.insert("capability"@, write_capability(v.capability));
    let members = members.insert("result"@, write_result(v.result));
    Json::Object(members)
}

/// The [`ResponseEnvelope`] that a document states, none where it states none.
pub open spec fn read_response(j: Json) -> Option<ResponseView> {
    if !(j is Object) {
        None
    } else {
        let request_id = match member(j, "request_id"@) {
            None => Some(None),
            Some(Json::Null) => Some(None),
            Some(x) => match read_text(x) {
                Some(v) => Some(Some(v)),
                None => None,
            },
        };
        let capability = match member(j, "capability"@) {
            None => None,
            Some(x) => read_capability(x),
        };
        let result = match member(j, "result"@) {
            None => None,
            Some(x) => read_result(x),
        };
        if request_id is Some && capability is Some && result is Some {
            Some(
                ResponseView {
                    request_id: request_id->0,
                    capability: capability->0,
                    result: result->0,
                },
            )
        } else {
            None
        }
    }
}

/// Reading what was written for a [`ResponseEnvelope`] gives it back, provided
/// that the details of its error, if it has them, are not the document `null`.
pub proof fn lemma_response_round_trip(v: ResponseView)
    requires
        result_states_details(v.result),
    ensures
        read_response(write_response(v)) == Some(v),
{
    reveal_strlit("request_id");
    reveal_strlit("capability");
    reveal_strlit("result");
    assert("request_id"@.len() == 10);
    assert("capability"@.len() == 10);
    assert("result"@.len() == 6);
    assert("request_id"@[0] != "capability"@[0]);
    lemma_capability_round_trip(v.capability);
    lemma_result_round_trip(v.result);
}

/// A request without an id and with metadata that states nothing travels
/// as an object of two members, its capability and its payload.
pub proof fn lemma_bare_request_has_two_members(v: RequestView)
    requires
        v.request_id is None,
        v.metadata == (MetadataView { transport: None, actor: None }),
    ensures
        write_request(v) == Json::Object(
            Map::<Seq<char>, Json>::empty().insert(
                "capability"@,
                write_capability(v.capability),
            ).insert("payload"@, write_api_request(v.payload)),
        ),
{
}

/// A request in the form in which requests are written is written back
/// as it stood: reading it and writing what was read gives the same
/// document.
pub proof fn lemma_request_written_back(v: RequestView)
    ensures
        read_request(write_request(v)) matches Some(read) && write_request(read) == write_request(
            v,
        ),
{
    lemma_request_round_trip(v);
}

/// A response in the form in which responses are written is written back
/// as it stood, provided that the details of its error, if it has them,
/// are not the document `null`.
pub proof fn lemma_response_written_back(v: ResponseView)
    requires
        result_states_details(v.result),
    ensures
        read_response(write_response(v)) matches Some(read) && write_response(read)
            == write_response(v),
{
    lemma_response_round_trip(v);
}

} // verus!
