//! The files of a session: what they hold, how they are read with
//! tolerance for what older versions wrote, and how sessions are named
//! and listed.
//!
//! Nothing here touches the disk. Whoever does hands over the text of a
//! file, or its absence, and takes back the text to write.

pub mod codec;
pub mod wire;

use crate::api::codec::{entry_list_to_json, u32_from_json};
use crate::api::contracts::{
    doc_views, entry_views, DocView, EntryView, PlannerTaskDocContract, PlannerTaskEntryContract,
    PlannerTaskKindContract, PlannerTaskStatusContract, SessionListEntryContract,
    SessionMetaContract, SessionStoreSnapshotContract,
};
use crate::api::envelope::ApiErrorCode;
use crate::api::json::{
    json_get, json_of, jsons_of, member, parse_json, parsed, print_json, printed, Json,
};
use crate::api::wire::{
    read_session_meta, read_task_kind, read_task_status, read_text, read_u32, write_entry_list,
};
use crate::agent_models::{string_field, table_field, ConfigError};
use crate::api::views::SessionListEntryView;
use crate::artifact_io::{join_path, joined_path};
use crate::toml_document::{get, parse_document, parsed_document, toml_of, Toml};
use crate::text::{
    chars_of, decimal, i64_to_string, optional_text, string_of, texts, trim, trimmed, u64_to_string,
};
use vstd::prelude::*;
use vstd::string::StringExecFns;
use wire::{
    read_context_file, read_session_metadata, read_task_fails_file, write_context_file,
    write_session_metadata, write_task_fails_file,
};

verus! {

/// Why a file of a session could not be read.
#[derive(Debug, Clone, Copy, PartialEq, Eq, Structural)]
pub enum StoreError {
    /// The file is not there, and the session cannot do without it.
    NotFound,
    /// The file is there, but does not hold what belongs in it.
    InvalidData,
}

impl StoreError {
    /// The error code under which this error travels.
    pub fn code(&self) -> (code: ApiErrorCode)
        ensures
            code == match *self {
                StoreError::NotFound => ApiErrorCode::NotFound,
                StoreError::InvalidData => ApiErrorCode::ValidationFailed,
            },
    {
        match self {
            StoreError::NotFound => ApiErrorCode::NotFound,
            StoreError::InvalidData => ApiErrorCode::ValidationFailed,
        }
    }
}

/// A task as `tasks.json` holds it.
pub type PlannerTaskFileEntry = PlannerTaskEntryContract;

/// The status of a task as `tasks.json` holds it.
pub type PlannerTaskStatusFile = PlannerTaskStatusContract;

/// The kind of a task as `tasks.json` holds it.
pub type PlannerTaskKindFile = PlannerTaskKindContract;

/// What `meta.json` holds.
pub type SessionMetaFile = SessionMetaContract;

/// What `metadata.json` holds: where a session belongs and when it was
/// made and last used.
#[derive(Debug, Clone, PartialEq, Eq)]
pub struct SessionMetadata {
    pub workspace: String,
    pub created_at_epoch_secs: u64,
    pub last_used_epoch_secs: u64,
}

/// An entry of `task_fails.json`.
#[derive(Debug, Clone, PartialEq, Eq)]
pub struct TaskFailFileEntry {
    pub kind: String,
    pub top_task_id: u64,
    pub top_task_title: String,
    pub attempts: u8,
    pub reason: String,
    pub action_taken: String,
    pub created_at_epoch_secs: u64,
}

/// What `rolling_context.json` holds.
#[derive(Debug, Clone, PartialEq, Eq)]
pub struct RollingContextFile {
    pub entries: Vec<String>,
}

/// What `task_fails.json` holds.
#[derive(Debug, Clone, PartialEq, Eq)]
pub struct TaskFailsFile {
    pub entries: Vec<TaskFailFileEntry>,
}

/// The values of a list of failure entries.
pub open spec fn task_fail_views(entries: Seq<TaskFailFileEntry>) -> Seq<TaskFailView> {
    Seq::new(entries.len(), |i: int| entries[i]@)
}

/// Mathematical value of a [`SessionMetadata`].
pub struct MetadataFileView {
    pub workspace: Seq<char>,
    pub created_at_epoch_secs: u64,
    pub last_used_epoch_secs: u64,
}

impl View for SessionMetadata {
    type V = MetadataFileView;

    open spec fn view(&self) -> MetadataFileView {
        MetadataFileView {
            workspace: self.workspace@,
            created_at_epoch_secs: self.created_at_epoch_secs,
            last_used_epoch_secs: self.last_used_epoch_secs,
        }
    }
}

/// Mathematical value of a [`TaskFailFileEntry`].
pub struct TaskFailView {
    pub kind: Seq<char>,
    pub top_task_id: u64,
    pub top_task_title: Seq<char>,
    pub attempts: u8,
    pub reason: Seq<char>,
    pub action_taken: Seq<char>,
    pub created_at_epoch_secs: u64,
}

impl View for TaskFailFileEntry {
    type V = TaskFailView;

    open spec fn view(&self) -> TaskFailView {
        TaskFailView {
            kind: self.kind@,
            top_task_id: self.top_task_id,
            top_task_title: self.top_task_title@,
            attempts: self.attempts,
            reason: self.reason@,
            action_taken: self.action_taken@,
            created_at_epoch_secs: self.created_at_epoch_secs,
        }
    }
}

/// Mathematical value of a [`RollingContextFile`].
pub struct ContextFileView {
    pub entries: Seq<Seq<char>>,
}

impl View for RollingContextFile {
    type V = ContextFileView;

    open spec fn view(&self) -> ContextFileView {
        ContextFileView {
            entries: texts(self.entries@),
        }
    }
}

/// Mathematical value of a [`TaskFailsFile`].
pub struct TaskFailsFileView {
    pub entries: Seq<TaskFailView>,
}

impl View for TaskFailsFile {
    type V = TaskFailsFileView;

    open spec fn view(&self) -> TaskFailsFileView {
        TaskFailsFileView {
            entries: task_fail_views(self.entries@),
        }
    }
}

// ---------------------------------------------------------------------------
// tasks.json
// ---------------------------------------------------------------------------

/// The id that a document states: a text, or an integer, which is taken
/// as its decimal text.
pub open spec fn read_id(j: Json) -> Option<Seq<char>> {
    match j {
        Json::Text(s) => Some(s),
        Json::Integer(n) => if i64::MIN <= n <= u64::MAX {
            Some(decimal(n))
        } else {
            None
        },
        _ => None,
    }
}

/// The pieces of `s` between its commas. There is one more piece than
/// there are commas.
pub open spec fn comma_pieces(s: Seq<char>) -> Seq<Seq<char>>
    decreases s.len(),
{
    if s.len() == 0 {
        seq![Seq::empty()]
    } else if s.last() == ',' {
        comma_pieces(s.drop_last()).push(Seq::empty())
    } else {
        let earlier = comma_pieces(s.drop_last());
        earlier.drop_last().push(earlier.last().push(s.last()))
    }
}

/// The documents that a list of titles stands for: one for each title
/// that is not blank, under its trimmed title, without address or summary.
pub open spec fn titled_docs(titles: Seq<Seq<char>>) -> Seq<DocView>
    decreases titles.len(),
{
    if titles.len() == 0 {
        Seq::empty()
    } else if trimmed(titles.last()).len() == 0 {
        titled_docs(titles.drop_last())
    } else {
        titled_docs(titles.drop_last()).push(
            DocView {
                title: trimmed(titles.last()),
                url: Seq::empty(),
                summary: Seq::empty(),
            },
        )
    }
}

/// The documents of a task that older versions wrote as one text: its
/// pieces between commas, taken as titles.
pub open spec fn legacy_docs(s: Seq<char>) -> Seq<DocView> {
    titled_docs(comma_pieces(s))
}

/// The document that a member of `docs` states: its title, and its
/// address and summary where it has them.
pub open spec fn read_file_doc(j: Json) -> Option<DocView> {
    if !(j is Object) {
        None
    } else {
        let title = match member(j, "title"@) {
            None => None,
            Some(x) => read_text(x),
        };
        let url = match member(j, "url"@) {
            None => Some(Seq::<char>::empty()),
            Some(x) => read_text(x),
        };
        let summary = match member(j, "summary"@) {
            None => Some(Seq::<char>::empty()),
            Some(x) => read_text(x),
        };
        if title is Some && url is Some && summary is Some {
            Some(DocView { title: title->0, url: url->0, summary: summary->0 })
        } else {
            None
        }
    }
}

/// The documents that a list of members of `docs` states.
pub open spec fn read_file_doc_items(items: Seq<Json>) -> Option<Seq<DocView>>
    decreases items.len(),
{
    if items.len() == 0 {
        Some(Seq::empty())
    } else {
        match (read_file_doc_items(items.drop_last()), read_file_doc(items.last())) {
            (Some(earlier), Some(last)) => Some(earlier.push(last)),
            _ => None,
        }
    }
}

/// The documents that `docs` states: those of an array, or those of the
/// one text that older versions wrote; none where it is `null`.
pub open spec fn read_docs_field(j: Json) -> Option<Seq<DocView>> {
    match j {
        Json::Null => Some(Seq::empty()),
        Json::Text(s) => Some(legacy_docs(s)),
        Json::Array(items) => read_file_doc_items(items),
        _ => None,
    }
}

/// The task that a member of `tasks.json` states.
///
/// `id` and `title` have to be there. `id` and `parent_id` may be texts
/// or integers. `details`, `docs`, `kind` and `status` may be missing,
/// and are then empty, a plain task, and pending.
pub open spec fn read_file_entry(j: Json) -> Option<EntryView> {
    if !(j is Object) {
        None
    } else {
        let id = match member(j, "id"@) {
            None => None,
            Some(x) => read_id(x),
        };
        let title = match member(j, "title"@) {
            None => None,
            Some(x) => read_text(x),
        };
        let details = match member(j, "details"@) {
            None => Some(Seq::<char>::empty()),
            Some(x) => read_text(x),
        };
        let docs = match member(j, "docs"@) {
            None => Some(Seq::<DocView>::empty()),
            Some(x) => read_docs_field(x),
        };
        let kind = match member(j, "kind"@) {
            None => Some(PlannerTaskKindContract::Task),
            Some(x) => read_task_kind(x),
        };
        let status = match member(j, "status"@) {
            None => Some(PlannerTaskStatusContract::Pending),
            Some(x) => read_task_status(x),
        };
        let parent_id = match member(j, "parent_id"@) {
            None => Some(None),
            Some(Json::Null) => Some(None),
            Some(x) => match read_id(x) {
                Some(v) => Some(Some(v)),
                None => None,
            },
        };
        let order = match member(j, "order"@) {
            None => Some(None),
            Some(Json::Null) => Some(None),
            Some(x) => match read_u32(x) {
                Some(v) => Some(Some(v)),
                None => None,
            },
        };
        if id is Some && title is Some && details is Some && docs is Some && kind is Some
            && status is Some && parent_id is Some && order is Some {
            Some(
                EntryView {
                    id: id->0,
                    title: title->0,
                    details: details->0,
                    docs: docs->0,
                    kind: kind->0,
                    status: status->0,
                    parent_id: parent_id->0,
                    order: order->0,
                },
            )
        } else {
            None
        }
    }
}

/// The tasks that the members of `tasks.json` state.
pub open spec fn read_file_entry_items(items: Seq<Json>) -> Option<Seq<EntryView>>
    decreases items.len(),
{
    if items.len() == 0 {
        Some(Seq::empty())
    } else {
        match (read_file_entry_items(items.drop_last()), read_file_entry(items.last())) {
            (Some(earlier), Some(last)) => Some(earlier.push(last)),
            _ => None,
        }
    }
}

/// The tasks that `tasks.json` states: those of its array.
pub open spec fn read_tasks_file(j: Json) -> Option<Seq<EntryView>> {
    match j {
        Json::Array(items) => read_file_entry_items(items),
        _ => None,
    }
}

proof fn lemma_file_doc_items_stay_none(items: Seq<Json>, n: int)
    requires
        0 <= n <= items.len(),
        read_file_doc_items(items.take(n)) is None,
    ensures
        read_file_doc_items(items) is None,
    decreases items.len() - n,
{
    if n < items.len() {
        assert(items.take(n + 1).drop_last() == items.take(n));
        lemma_file_doc_items_stay_none(items, n + 1);
    } else {
        assert(items.take(n) == items);
    }
}

proof fn lemma_file_entry_items_stay_none(items: Seq<Json>, n: int)
    requires
        0 <= n <= items.len(),
        read_file_entry_items(items.take(n)) is None,
    ensures
        read_file_entry_items(items) is None,
    decreases items.len() - n,
{
    if n < items.len() {
        assert(items.take(n + 1).drop_last() == items.take(n));
        lemma_file_entry_items_stay_none(items, n + 1);
    } else {
        assert(items.take(n) == items);
    }
}

/// The id that a JSON value states.
fn id_from_json(value: &serde_json::Value) -> (read: Option<String>)
    ensures
        match read {
            Some(s) => read_id(json_of(*value)) == Some(s@),
            None => read_id(json_of(*value)) is None,
        },
{
    match value.as_str() {
        Some(s) => Some(String::from_str(s)),
        None => match value.as_u64() {
            Some(n) => Some(u64_to_string(n)),
            None => match value.as_i64() {
                Some(n) => Some(i64_to_string(n)),
                None => None,
            },
        },
    }
}

/// The documents that a text of titles between commas stands for.
pub fn docs_from_legacy_text(text: &str) -> (docs: Vec<PlannerTaskDocContract>)
    ensures
        doc_views(docs@) == legacy_docs(text@),
{
    let chars = chars_of(text);
    let mut docs: Vec<PlannerTaskDocContract> = Vec::new();
    let mut start: usize = 0;
    let mut i: usize = 0;
    assert(chars@.take(0) =~= Seq::empty());
    assert(doc_views(docs@) =~= titled_docs(comma_pieces(chars@.take(0)).drop_last()));
    while i < chars.len()
        invariant
            start <= i <= chars.len(),
            chars@ == text@,
            comma_pieces(chars@.take(i as int)).len() >= 1,
            comma_pieces(chars@.take(i as int)).last() == chars@.subrange(start as int, i as int),
            doc_views(docs@) == titled_docs(comma_pieces(chars@.take(i as int)).drop_last()),
        decreases chars.len() - i,
    {
        let ghost before = comma_pieces(chars@.take(i as int));
        proof {
            assert(chars@.take(i + 1).drop_last() == chars@.take(i as int));
            assert(chars@.take(i + 1).last() == chars@[i as int]);
        }
        if chars[i] == ',' {
            let title = trim(string_of(&chars, start, i).as_str());
            if !title.as_str().is_empty() {
                let ghost earlier = doc_views(docs@);
                let doc = PlannerTaskDocContract { title, url: String::new(), summary: String::new() };
                docs.push(doc);
                assert(doc_views(docs@) =~= earlier.push(doc@));
            }
            start = i + 1;
            proof {
                let now = comma_pieces(chars@.take(i + 1));
                assert(now == before.push(Seq::<char>::empty()));
                assert(now.drop_last() == before);
                assert(before.drop_last().push(before.last()) =~= before);
                assert(chars@.subrange(i + 1, i + 1) =~= Seq::<char>::empty());
            }
        } else {
            proof {
                let now = comma_pieces(chars@.take(i + 1));
                assert(now == before.drop_last().push(before.last().push(chars@[i as int])));
                assert(now.drop_last() =~= before.drop_last());
                assert(chars@.subrange(start as int, i + 1) =~= before.last().push(
                    chars@[i as int],
                ));
            }
        }
        i += 1;
    }
    proof {
        assert(chars@.take(i as int) == chars@);
        let all = comma_pieces(chars@);
        assert(all.drop_last().push(all.last()) =~= all);
    }
    let title = trim(string_of(&chars, start, i).as_str());
    if !title.as_str().is_empty() {
        let ghost earlier = doc_views(docs@);
        let doc = PlannerTaskDocContract { title, url: String::new(), summary: String::new() };
        docs.push(doc);
        assert(doc_views(docs@) =~= earlier.push(doc@));
    }
    docs
}

/// The document that a member of `docs` states.
fn file_doc_from_json(value: &serde_json::Value) -> (read: Option<PlannerTaskDocContract>)
    ensures
        match read {
            Some(doc) => read_file_doc(json_of(*value)) == Some(doc@),
            None => read_file_doc(json_of(*value)) is None,
        },
{
    if !value.is_object() {
        return None;
    }
    let title = match json_get(value, "title") {
        None => {
            return None;
        },
        Some(x) => match x.as_str() {
            Some(s) => String::from_str(s),
            None => {
                return None;
            },
        },
    };
    let url = match json_get(value, "url") {
        None => String::new(),
        Some(x) => match x.as_str() {
            Some(s) => String::from_str(s),
            None => {
                return None;
            },
        },
    };
    let summary = match json_get(value, "summary") {
        None => String::new(),
        Some(x) => match x.as_str() {
            Some(s) => String::from_str(s),
            None => {
                return None;
            },
        },
    };
    Some(PlannerTaskDocContract { title, url, summary })
}

/// The documents that `docs` states.
fn docs_from_json(value: &serde_json::Value) -> (read: Option<Vec<PlannerTaskDocContract>>)
    ensures
        match read {
            Some(docs) => read_docs_field(json_of(*value)) == Some(doc_views(docs@)),
            None => read_docs_field(json_of(*value)) is None,
        },
{
    if value.is_null() {
        let docs: Vec<PlannerTaskDocContract> = Vec::new();
        assert(doc_views(docs@) =~= Seq::empty());
        return Some(docs);
    }
    match value.as_str() {
        Some(text) => {
            return Some(docs_from_legacy_text(text));
        },
        None => {},
    }
    let values = match value.as_array() {
        Some(values) => values,
        None => {
            return None;
        },
    };
    let ghost all = jsons_of(values@);
    let mut docs: Vec<PlannerTaskDocContract> = Vec::new();
    let mut i: usize = 0;
    assert(all.take(0) =~= Seq::empty());
    assert(doc_views(docs@) =~= Seq::empty());
    while i < values.len()
        invariant
            i <= values.len(),
            all == jsons_of(values@),
            json_of(*value) == Json::Array(all),
            read_file_doc_items(all.take(i as int)) == Some(doc_views(docs@)),
        decreases values.len() - i,
    {
        proof {
            assert(all.take(i + 1).drop_last() == all.take(i as int));
            assert(all.take(i + 1).last() == json_of(values@[i as int]));
        }
        match file_doc_from_json(&values[i]) {
            Some(doc) => {
                let ghost earlier = doc_views(docs@);
                docs.push(doc);
                assert(doc_views(docs@) =~= earlier.push(doc@));
            },
            None => {
                proof {
                    lemma_file_doc_items_stay_none(all, i + 1);
                }
                return None;
            },
        }
        i += 1;
    }
    assert(all.take(i as int) == all);
    Some(docs)
}

/// The task that a member of `tasks.json` states.
pub fn task_from_file_json(value: &serde_json::Value) -> (read: Option<PlannerTaskFileEntry>)
    ensures
        match read {
            Some(entry) => read_file_entry(json_of(*value)) == Some(entry@),
            None => read_file_entry(json_of(*value)) is None,
        },
{
    if !value.is_object() {
        return None;
    }
    let id = match json_get(value, "id") {
        None => {
            return None;
        },
        Some(x) => match id_from_json(x) {
            Some(v) => v,
            None => {
                return None;
            },
        },
    };
    let title = match json_get(value, "title") {
        None => {
            return None;
        },
        Some(x) => match x.as_str() {
            Some(s) => String::from_str(s),
            None => {
                return None;
            },
        },
    };
    let details = match json_get(value, "details") {
        None => String::new(),
        Some(x) => match x.as_str() {
            Some(s) => String::from_str(s),
            None => {
                return None;
            },
        },
    };
    let docs = match json_get(value, "docs") {
        None => {
            let docs: Vec<PlannerTaskDocContract> = Vec::new();
            assert(doc_views(docs@) =~= Seq::empty());
            docs
        },
        Some(x) => match docs_from_json(x) {
            Some(v) => v,
            None => {
                return None;
            },
        },
    };
    let kind = match json_get(value, "kind") {
        None => PlannerTaskKindContract::Task,
        Some(x) => match PlannerTaskKindContract::from_json(x) {
            Some(v) => v,
            None => {
                return None;
            },
        },
    };
    let status = match json_get(value, "status") {
        None => PlannerTaskStatusContract::Pending,
        Some(x) => match PlannerTaskStatusContract::from_json(x) {
            Some(v) => v,
            None => {
                return None;
            },
        },
    };
    let parent_id = match json_get(value, "parent_id") {
        None => None,
        Some(x) => {
            if x.is_null() {
                None
            } else {
                match id_from_json(x) {
                    Some(v) => Some(v),
                    None => {
                        return None;
                    },
                }
            }
        },
    };
    let order = match json_get(value, "order") {
        None => None,
        Some(x) => {
            if x.is_null() {
                None
            } else {
                match u32_from_json(x) {
                    Some(v) => Some(v),
                    None => {
                        return None;
                    },
                }
            }
        },
    };
    Some(PlannerTaskEntryContract { id, title, details, docs, kind, status, parent_id, order })
}

/// The tasks that the document of `tasks.json` states.
pub fn tasks_from_file_json(value: &serde_json::Value) -> (read: Option<Vec<PlannerTaskFileEntry>>)
    ensures
        match read {
            Some(entries) => read_tasks_file(json_of(*value)) == Some(entry_views(entries@)),
            None => read_tasks_file(json_of(*value)) is None,
        },
{
    let values = match value.as_array() {
        Some(values) => values,
        None => {
            return None;
        },
    };
    let ghost all = jsons_of(values@);
    let mut entries: Vec<PlannerTaskFileEntry> = Vec::new();
    let mut i: usize = 0;
    assert(all.take(0) =~= Seq::empty());
    assert(entry_views(entries@) =~= Seq::empty());
    while i < values.len()
        invariant
            i <= values.len(),
            all == jsons_of(values@),
            json_of(*value) == Json::Array(all),
            read_file_entry_items(all.take(i as int)) == Some(entry_views(entries@)),
        decreases values.len() - i,
    {
        proof {
            assert(all.take(i + 1).drop_last() == all.take(i as int));
            assert(all.take(i + 1).last() == json_of(values@[i as int]));
        }
        match task_from_file_json(&values[i]) {
            Some(entry) => {
                let ghost earlier = entry_views(entries@);
                entries.push(entry);
                assert(entry_views(entries@) =~= earlier.push(entry@));
            },
            None => {
                proof {
                    lemma_file_entry_items_stay_none(all, i + 1);
                }
                return None;
            },
        }
        i += 1;
    }
    assert(all.take(i as int) == all);
    Some(entries)
}

/// The task that a text states as a member of `tasks.json`.
pub open spec fn entry_of_text(text: Seq<char>) -> Option<EntryView> {
    match parsed(text) {
        Some(value) => read_file_entry(value),
        None => None,
    }
}

/// The tasks that the text of `tasks.json` states.
pub open spec fn tasks_of_text(text: Seq<char>) -> Option<Seq<EntryView>> {
    match parsed(text) {
        Some(value) => read_tasks_file(value),
        None => None,
    }
}

/// The context that the text of `rolling_context.json` states.
pub open spec fn context_of_text(text: Seq<char>) -> Option<Seq<Seq<char>>> {
    match parsed(text) {
        Some(value) => match read_context_file(value) {
            Some(file) => Some(file.entries),
            None => None,
        },
        None => None,
    }
}

/// The failures that the text of `task_fails.json` states.
pub open spec fn fails_of_text(text: Seq<char>) -> Option<Seq<TaskFailView>> {
    match parsed(text) {
        Some(value) => match read_task_fails_file(value) {
            Some(file) => Some(file.entries),
            None => None,
        },
        None => None,
    }
}

/// What the text of `meta.json` states.
pub open spec fn meta_of_text(text: Seq<char>) -> Option<crate::api::views::SessionMetaView> {
    match parsed(text) {
        Some(value) => read_session_meta(value),
        None => None,
    }
}

/// What the text of `metadata.json` states.
pub open spec fn metadata_of_text(text: Seq<char>) -> Option<MetadataFileView> {
    match parsed(text) {
        Some(value) => read_session_metadata(value),
        None => None,
    }
}

/// Reads one task as `tasks.json` holds it.
pub fn parse_task_entry(text: &str) -> (entry: Result<PlannerTaskFileEntry, StoreError>)
    ensures
        match entry {
            Ok(e) => entry_of_text(text@) == Some(e@),
            Err(error) => error == StoreError::InvalidData && entry_of_text(text@) is None,
        },
{
    match parse_json(text) {
        Some(value) => match task_from_file_json(&value) {
            Some(entry) => Ok(entry),
            None => Err(StoreError::InvalidData),
        },
        None => Err(StoreError::InvalidData),
    }
}

/// Reads `tasks.json`. A session without the file has no tasks.
pub fn read_tasks(text: Option<&str>) -> (tasks: Result<Vec<PlannerTaskFileEntry>, StoreError>)
    ensures
        match text {
            None => tasks matches Ok(entries) && entries@.len() == 0,
            Some(t) => match tasks {
                Ok(entries) => tasks_of_text(t@) == Some(entry_views(entries@)),
                Err(error) => error == StoreError::InvalidData && tasks_of_text(t@) is None,
            },
        },
{
    match text {
        None => Ok(Vec::new()),
        Some(t) => match parse_json(t) {
            Some(value) => match tasks_from_file_json(&value) {
                Some(entries) => Ok(entries),
                None => Err(StoreError::InvalidData),
            },
            None => Err(StoreError::InvalidData),
        },
    }
}

/// The text of `tasks.json` for a plan.
pub fn tasks_file_text(entries: &Vec<PlannerTaskEntryContract>) -> (text: String)
    ensures
        text@ == printed(write_entry_list(entry_views(entries@))),
{
    let value = entry_list_to_json(entries);
    print_json(&value)
}

// ---------------------------------------------------------------------------
// planner.md, project_info.md
// ---------------------------------------------------------------------------

/// Reads a markdown file. A session without the file has an empty one.
pub fn read_markdown(text: Option<&str>) -> (markdown: String)
    ensures
        markdown@ == match text {
            Some(t) => t@,
            None => Seq::<char>::empty(),
        },
{
    match text {
        Some(t) => String::from_str(t),
        None => String::new(),
    }
}

// ---------------------------------------------------------------------------
// rolling_context.json, task_fails.json
// ---------------------------------------------------------------------------

/// Reads `rolling_context.json`. A session without the file has no context.
pub fn read_rolling_context(text: Option<&str>) -> (context: Result<Vec<String>, StoreError>)
    ensures
        match text {
            None => context matches Ok(entries) && entries@.len() == 0,
            Some(t) => match context {
                Ok(entries) => context_of_text(t@) == Some(texts(entries@)),
                Err(error) => error == StoreError::InvalidData && context_of_text(t@) is None,
            },
        },
{
    match text {
        None => Ok(Vec::new()),
        Some(t) => match parse_json(t) {
            Some(value) => match RollingContextFile::from_json(&value) {
                Some(file) => Ok(file.entries),
                None => Err(StoreError::InvalidData),
            },
            None => Err(StoreError::InvalidData),
        },
    }
}

/// The text of `rolling_context.json` for the entries given.
pub fn write_rolling_context(entries: Vec<String>) -> (text: String)
    ensures
        text@ == printed(write_context_file(ContextFileView { entries: texts(entries@) })),
{
    let value = RollingContextFile { entries }.to_json();
    print_json(&value)
}

/// Reads `task_fails.json`. A session without the file has no failures.
pub fn read_task_fails(text: Option<&str>) -> (fails: Result<Vec<TaskFailFileEntry>, StoreError>)
    ensures
        match text {
            None => fails matches Ok(entries) && entries@.len() == 0,
            Some(t) => match fails {
                Ok(entries) => fails_of_text(t@) == Some(task_fail_views(entries@)),
                Err(error) => error == StoreError::InvalidData && fails_of_text(t@) is None,
            },
        },
{
    match text {
        None => Ok(Vec::new()),
        Some(t) => match parse_json(t) {
            Some(value) => match TaskFailsFile::from_json(&value) {
                Some(file) => Ok(file.entries),
                None => Err(StoreError::InvalidData),
            },
            None => Err(StoreError::InvalidData),
        },
    }
}

/// The characters of an optional text.
pub open spec fn optional_chars(text: Option<&str>) -> Option<Seq<char>> {
    match text {
        Some(t) => Some(t@),
        None => None,
    }
}

/// The failures that `task_fails.json` holds: none where the file is
/// missing or states none.
pub open spec fn held_fails(text: Option<Seq<char>>) -> Seq<TaskFailView> {
    match text {
        Some(t) => match fails_of_text(t) {
            Some(entries) => entries,
            None => Seq::empty(),
        },
        None => Seq::empty(),
    }
}

/// The text of `task_fails.json` after `entries` have been added behind
/// what the file holds. Fails where the file is there but cannot be read.
pub fn append_task_fails(existing: Option<&str>, entries: Vec<TaskFailFileEntry>) -> (text: Result<
    String,
    StoreError,
>)
    ensures
        match text {
            Ok(t) => t@ == printed(
                write_task_fails_file(
                    TaskFailsFileView {
                        entries: held_fails(optional_chars(existing)) + task_fail_views(entries@),
                    },
                ),
            ),
            Err(error) => error == StoreError::InvalidData && existing is Some && fails_of_text(
                existing->0@,
            ) is None,
        },
{
    let mut all = match read_task_fails(existing) {
        Ok(held) => held,
        Err(error) => {
            return Err(error);
        },
    };
    let ghost held = task_fail_views(all@);
    let mut added = entries;
    all.append(&mut added);
    assert(task_fail_views(all@) =~= held + task_fail_views(entries@));
    proof {
        if existing is None {
            assert(held =~= Seq::empty());
        }
    }
    let value = TaskFailsFile { entries: all }.to_json();
    Ok(print_json(&value))
}

// ---------------------------------------------------------------------------
// meta.json, metadata.json
// ---------------------------------------------------------------------------

/// Reads `meta.json`, which a session cannot do without.
pub fn read_session_meta_file(text: Option<&str>) -> (meta: Result<SessionMetaFile, StoreError>)
    ensures
        match text {
            None => meta == Err::<SessionMetaFile, StoreError>(StoreError::NotFound),
            Some(t) => match meta {
                Ok(m) => meta_of_text(t@) == Some(m@),
                Err(error) => error == StoreError::InvalidData && meta_of_text(t@) is None,
            },
        },
{
    match text {
        None => Err(StoreError::NotFound),
        Some(t) => match parse_json(t) {
            Some(value) => match SessionMetaContract::from_json(&value) {
                Some(meta) => Ok(meta),
                None => Err(StoreError::InvalidData),
            },
            None => Err(StoreError::InvalidData),
        },
    }
}

/// Reads `metadata.json`.
pub fn read_session_metadata_file(text: &str) -> (metadata: Result<SessionMetadata, StoreError>)
    ensures
        match metadata {
            Ok(m) => metadata_of_text(text@) == Some(m@),
            Err(error) => error == StoreError::InvalidData && metadata_of_text(text@) is None,
        },
{
    match parse_json(text) {
        Some(value) => match SessionMetadata::from_json(&value) {
            Some(metadata) => Ok(metadata),
            None => Err(StoreError::InvalidData),
        },
        None => Err(StoreError::InvalidData),
    }
}

/// The text of `metadata.json`.
pub fn session_metadata_text(metadata: &SessionMetadata) -> (text: String)
    ensures
        text@ == printed(write_session_metadata(metadata@)),
{
    let value = metadata.to_json();
    print_json(&value)
}

/// What `metadata.json` holds once a session has been opened at `now`
/// from `workspace`: a session that has metadata keeps its workspace and
/// the time it was made; a session without is made now.
pub open spec fn opened(
    held: Option<MetadataFileView>,
    workspace: Seq<char>,
    now: u64,
) -> MetadataFileView {
    match held {
        Some(m) => MetadataFileView { last_used_epoch_secs: now, ..m },
        None => MetadataFileView {
            workspace,
            created_at_epoch_secs: now,
            last_used_epoch_secs: now,
        },
    }
}

/// The value of optional metadata.
pub open spec fn optional_metadata(held: Option<SessionMetadata>) -> Option<MetadataFileView> {
    match held {
        Some(m) => Some(m@),
        None => None,
    }
}

/// The metadata of a session that is opened at `now` from `workspace`.
pub fn opened_metadata(held: Option<SessionMetadata>, workspace: &str, now: u64) -> (metadata:
    SessionMetadata)
    ensures
        metadata@ == opened(optional_metadata(held), workspace@, now),
{
    match held {
        Some(m) => SessionMetadata {
            workspace: m.workspace,
            created_at_epoch_secs: m.created_at_epoch_secs,
            last_used_epoch_secs: now,
        },
        None => SessionMetadata {
            workspace: String::from_str(workspace),
            created_at_epoch_secs: now,
            last_used_epoch_secs: now,
        },
    }
}

// ---------------------------------------------------------------------------
// Names and places
// ---------------------------------------------------------------------------

/// The name of the directory of a session made at `epoch_secs` for the
/// workspace `slug`: the two with a dash between them for the first
/// attempt, and with the number of the attempt behind another dash for
/// each later one.
pub open spec fn dir_name(epoch_secs: u64, slug: Seq<char>, attempt: u32) -> Seq<char> {
    if attempt == 0 {
        decimal(epoch_secs as int) + "-"@ + slug
    } else {
        decimal(epoch_secs as int) + "-"@ + slug + "-"@ + decimal(attempt as int)
    }
}

/// The name to try for the directory of a new session. The first attempt
/// is attempt 0; where a directory of that name exists already, the next
/// attempt is to be made.
pub fn session_dir_name(epoch_secs: u64, slug: &str, attempt: u32) -> (name: String)
    ensures
        name@ == dir_name(epoch_secs, slug@, attempt),
{
    let mut name = u64_to_string(epoch_secs);
    name.append("-");
    name.append(slug);
    if attempt > 0 {
        name.append("-");
        name.append(u64_to_string(attempt as u64).as_str());
    }
    name
}

/// A character as it stands in a slug: letters, digits, dots, dashes and
/// underscores stay, anything else becomes a dash.
pub open spec fn slug_char(c: char) -> char {
    if ('a' <= c <= 'z') || ('A' <= c <= 'Z') || ('0' <= c <= '9') || c == '.' || c == '-' || c
        == '_' {
        c
    } else {
        '-'
    }
}

/// How many slashes a path ends with.
pub open spec fn trailing_slashes(path: Seq<char>) -> nat
    decreases path.len(),
{
    if path.len() > 0 && path.last() == '/' {
        1 + trailing_slashes(path.drop_last())
    } else {
        0
    }
}

/// How many characters stand behind the last slash of a path; all of
/// them where it has no slash.
pub open spec fn tail_length(path: Seq<char>) -> nat
    decreases path.len(),
{
    if path.len() > 0 && path.last() != '/' {
        1 + tail_length(path.drop_last())
    } else {
        0
    }
}

/// The last part of a path: what stands behind its last slash, slashes
/// at its end aside.
pub open spec fn last_part(path: Seq<char>) -> Seq<char> {
    let end = path.len() - trailing_slashes(path);
    let trimmed_path = path.take(end);
    trimmed_path.skip(end - tail_length(trimmed_path))
}

/// The slug of a workspace: the last part of its path with every
/// character as it stands in a slug, and `workspace` where that is empty.
pub open spec fn slug_of(cwd: Seq<char>) -> Seq<char> {
    let part = last_part(cwd);
    if part.len() == 0 {
        "workspace"@
    } else {
        Seq::new(part.len(), |i: int| slug_char(part[i]))
    }
}

proof fn lemma_trailing_slashes_is(path: Seq<char>, k: nat)
    requires
        k <= path.len(),
        forall|j: int| path.len() - k <= j < path.len() ==> #[trigger] path[j] == '/',
        k == path.len() || path[path.len() - k - 1] != '/',
    ensures
        trailing_slashes(path) == k,
    decreases k,
{
    if k > 0 {
        let shorter = path.drop_last();
        assert forall|j: int| shorter.len() - (k - 1) <= j < shorter.len() implies #[trigger] shorter[j]
            == '/' by {
            assert(shorter[j] == path[j]);
        }
        lemma_trailing_slashes_is(shorter, (k - 1) as nat);
    }
}

proof fn lemma_tail_length_is(path: Seq<char>, k: nat)
    requires
        k <= path.len(),
        forall|j: int| path.len() - k <= j < path.len() ==> #[trigger] path[j] != '/',
        k == path.len() || path[path.len() - k - 1] == '/',
    ensures
        tail_length(path) == k,
    decreases k,
{
    if k > 0 {
        let shorter = path.drop_last();
        assert forall|j: int| shorter.len() - (k - 1) <= j < shorter.len() implies #[trigger] shorter[j]
            != '/' by {
            assert(shorter[j] == path[j]);
        }
        lemma_tail_length_is(shorter, (k - 1) as nat);
    }
}

/// The slug under which the sessions of the workspace `cwd` are named.
pub fn workspace_slug(cwd: &str) -> (slug: String)
    ensures
        slug@ == slug_of(cwd@),
{
    let chars = chars_of(cwd);
    let mut end: usize = chars.len();
    while end > 0 && chars[end - 1] == '/'
        invariant
            end <= chars.len(),
            forall|j: int| end <= j < chars.len() ==> #[trigger] chars@[j] == '/',
        decreases end,
    {
        end -= 1;
    }
    proof {
        lemma_trailing_slashes_is(chars@, (chars.len() - end) as nat);
    }
    let ghost kept = chars@.take(end as int);
    let mut start: usize = end;
    while start > 0 && chars[start - 1] != '/'
        invariant
            start <= end <= chars.len(),
            kept == chars@.take(end as int),
            forall|j: int| start <= j < end ==> #[trigger] kept[j] != '/',
        decreases start,
    {
        start -= 1;
    }
    proof {
        lemma_tail_length_is(kept, (end - start) as nat);
        assert(kept.skip(start as int) =~= chars@.subrange(start as int, end as int));
    }
    if start == end {
        return String::from_str("workspace");
    }
    let ghost part = chars@.subrange(start as int, end as int);
    let mut slug = String::new();
    let mut i: usize = start;
    while i < end
        invariant
            start <= i <= end <= chars.len(),
            part == chars@.subrange(start as int, end as int),
            slug@ == Seq::new((i - start) as nat, |k: int| slug_char(part[k])),
        decreases end - i,
    {
        let c = chars[i];
        let kept_char = ('a' <= c && c <= 'z') || ('A' <= c && c <= 'Z') || ('0' <= c && c <= '9')
            || c == '.' || c == '-' || c == '_';
        if kept_char {
            slug.push(c);
        } else {
            slug.push('-');
        }
        i += 1;
        assert(slug@ =~= Seq::new((i - start) as nat, |k: int| slug_char(part[k])));
    }
    slug
}

/// A path with the home directory put in for a leading `~`: the home
/// directory itself for `~`, what stands behind `~/` inside the home
/// directory, and the path as it is where it does not start that way.
pub open spec fn home_expanded(path: Seq<char>, home: Seq<char>) -> Seq<char> {
    if path == "~"@ {
        home
    } else if path.len() >= 2 && path[0] == '~' && path[1] == '/' {
        joined_path(home, path.skip(2))
    } else {
        path
    }
}

/// Whether a path starts with `~` in a way that stands for the home directory.
pub open spec fn needs_home(path: Seq<char>) -> bool {
    path == "~"@ || (path.len() >= 2 && path[0] == '~' && path[1] == '/')
}

/// Puts the home directory in for a leading `~`. Fails where the path
/// needs the home directory and there is none.
pub fn expand_home(path: &str, home: Option<&str>) -> (expanded: Result<String, StoreError>)
    ensures
        match expanded {
            Ok(p) => (!needs_home(path@) && p@ == path@) || (needs_home(path@) && home is Some
                && p@ == home_expanded(path@, home->0@)),
            Err(error) => error == StoreError::NotFound && needs_home(path@) && home is None,
        },
{
    proof {
        reveal_strlit("~");
    }
    let chars = chars_of(path);
    let tilde_alone = chars.len() == 1 && chars[0] == '~';
    let tilde_slash = chars.len() >= 2 && chars[0] == '~' && chars[1] == '/';
    assert(tilde_alone == (path@ == "~"@)) by {
        if tilde_alone {
            assert(path@ =~= "~"@);
        }
    }
    if !tilde_alone && !tilde_slash {
        return Ok(String::from_str(path));
    }
    let home = match home {
        Some(h) => h,
        None => {
            return Err(StoreError::NotFound);
        },
    };
    if tilde_alone {
        return Ok(String::from_str(home));
    }
    let rest = string_of(&chars, 2, chars.len());
    assert(chars@.subrange(2, chars@.len() as int) =~= path@.skip(2));
    Ok(join_path(home, rest.as_str()))
}

/// The places of the files of a session inside its directory.
pub fn snapshot(session_dir: &str) -> (files: SessionStoreSnapshotContract)
    ensures
        files.session_dir@ == session_dir@,
        files.tasks_file@ == joined_path(session_dir@, "tasks.json"@),
        files.planner_file@ == joined_path(session_dir@, "planner.md"@),
        files.task_fails_file@ == joined_path(session_dir@, "task_fails.json"@),
        files.project_info_file@ == joined_path(session_dir@, "project_info.md"@),
        files.session_meta_file@ == joined_path(session_dir@, "meta.json"@),
{
    SessionStoreSnapshotContract {
        session_dir: String::from_str(session_dir),
        tasks_file: join_path(session_dir, "tasks.json"),
        planner_file: join_path(session_dir, "planner.md"),
        task_fails_file: join_path(session_dir, "task_fails.json"),
        project_info_file: join_path(session_dir, "project_info.md"),
        session_meta_file: join_path(session_dir, "meta.json"),
    }
}

/// The directory that a configuration document states for the sessions,
/// under `root_dir` in its table `storage`. None (the outer none) where
/// `storage` is no table or `root_dir` is no text.
pub open spec fn document_root_dir(document: Toml) -> Option<Option<Seq<char>>> {
    match table_field(document, "storage"@) {
        Some(Some(storage)) => string_field(storage, "root_dir"@),
        Some(None) => Some(None),
        None => None,
    }
}

/// Reads from a configuration text the directory under which the
/// sessions are kept, if the text states one.
pub fn configured_root_dir(config: &str) -> (root_dir: Result<Option<String>, ConfigError>)
    ensures
        match root_dir {
            Ok(stated) => parsed_document(config@) is Some && document_root_dir(
                parsed_document(config@)->0,
            ) == Some(optional_text(stated)),
            Err(ConfigError::Syntax(_)) => parsed_document(config@) is None,
            Err(ConfigError::Shape) => parsed_document(config@) is Some && document_root_dir(
                parsed_document(config@)->0,
            ) is None,
        },
{
    let document = match parse_document(config) {
        Ok(document) => document,
        Err(error) => {
            return Err(ConfigError::Syntax(error));
        },
    };
    let storage = match get(&document, "storage") {
        None => {
            return Ok(None);
        },
        Some(storage) => storage,
    };
    if !storage.is_table() {
        return Err(ConfigError::Shape);
    }
    match get(storage, "root_dir") {
        None => Ok(None),
        Some(value) => match value.as_str() {
            Some(text) => Ok(Some(String::from_str(text))),
            None => Err(ConfigError::Shape),
        },
    }
}

// ---------------------------------------------------------------------------
// Listing sessions
// ---------------------------------------------------------------------------

/// The entry of a session in the list of sessions: where it is, what its
/// metadata says, and title and date where it has a `meta.json`.
pub fn session_list_entry(
    session_dir: &str,
    metadata: &SessionMetadata,
    meta: Option<&SessionMetaFile>,
) -> (entry: SessionListEntryContract)
    ensures
        entry@ == (SessionListEntryView {
            session_dir: session_dir@,
            workspace: metadata.workspace@,
            title: match meta {
                Some(m) => Some(m.title@),
                None => None,
            },
            created_at_label: match meta {
                Some(m) => Some(m.created_at@),
                None => None,
            },
            created_at_epoch_secs: metadata.created_at_epoch_secs,
            last_used_epoch_secs: metadata.last_used_epoch_secs,
        }),
{
    let (title, created_at_label) = match meta {
        Some(m) => (Some(m.title.clone()), Some(m.created_at.clone())),
        None => (None, None),
    };
    SessionListEntryContract {
        session_dir: String::from_str(session_dir),
        workspace: metadata.workspace.clone(),
        title,
        created_at_label,
        created_at_epoch_secs: metadata.created_at_epoch_secs,
        last_used_epoch_secs: metadata.last_used_epoch_secs,
    }
}

/// Whether the text `a` stands no later than the text `b` in the order
/// of the dictionary, character by character.
pub open spec fn text_le(a: Seq<char>, b: Seq<char>) -> bool
    decreases a.len(),
{
    if a.len() == 0 {
        true
    } else if b.len() == 0 {
        false
    } else if a[0] != b[0] {
        a[0] < b[0]
    } else {
        text_le(a.drop_first(), b.drop_first())
    }
}

/// Whether the session `a` is listed no later than the session `b`: it
/// was used later, or at the same time and its directory stands no later
/// in the order of the dictionary.
pub open spec fn listed_before(a: SessionListEntryView, b: SessionListEntryView) -> bool {
    a.last_used_epoch_secs > b.last_used_epoch_secs || (a.last_used_epoch_secs
        == b.last_used_epoch_secs && text_le(a.session_dir, b.session_dir))
}

/// The list `sorted` with `entry` put in behind the last session that is
/// listed no later than it.
pub open spec fn with_session(
    sorted: Seq<SessionListEntryView>,
    entry: SessionListEntryView,
) -> Seq<SessionListEntryView>
    decreases sorted.len(),
{
    if sorted.len() == 0 || listed_before(sorted.last(), entry) {
        sorted.push(entry)
    } else {
        with_session(sorted.drop_last(), entry).push(sorted.last())
    }
}

/// The sessions in the order in which they are listed: the one used last
/// first, and by directory where two were used at the same time.
pub open spec fn listed(entries: Seq<SessionListEntryView>) -> Seq<SessionListEntryView>
    decreases entries.len(),
{
    if entries.len() == 0 {
        Seq::empty()
    } else {
        with_session(listed(entries.drop_last()), entries.last())
    }
}

/// Of two texts one stands no later than the other.
pub proof fn lemma_text_le_total(a: Seq<char>, b: Seq<char>)
    ensures
        text_le(a, b) || text_le(b, a),
    decreases a.len(),
{
    if a.len() > 0 && b.len() > 0 && a[0] == b[0] {
        lemma_text_le_total(a.drop_first(), b.drop_first());
    }
}

/// Putting a session into a list keeps every session and adds this one;
/// and where each session of the list is listed no later than the one
/// behind it, that still holds afterwards.
pub proof fn lemma_with_session(sorted: Seq<SessionListEntryView>, entry: SessionListEntryView)
    ensures
        with_session(sorted, entry).len() == sorted.len() + 1,
        with_session(sorted, entry).to_multiset() == sorted.to_multiset().insert(entry),
        in_listing_order(sorted) ==> in_listing_order(with_session(sorted, entry)),
        with_session(sorted, entry).last() == entry || (sorted.len() > 0 && with_session(
            sorted,
            entry,
        ).last() == sorted.last()),
    decreases sorted.len(),
{
    broadcast use vstd::seq_lib::group_to_multiset_ensures;

    if sorted.len() == 0 || listed_before(sorted.last(), entry) {
        let after = sorted.push(entry);
        if in_listing_order(sorted) {
            assert forall|i: int| 0 <= i < after.len() - 1 implies listed_before(
                #[trigger] after[i],
                after[i + 1],
            ) by {
                if i < sorted.len() - 1 {
                    assert(listed_before(sorted[i], sorted[i + 1]));
                }
            }
        }
    } else {
        let shorter = sorted.drop_last();
        lemma_with_session(shorter, entry);
        let inner = with_session(shorter, entry);
        let after = inner.push(sorted.last());
        assert(shorter.push(sorted.last()) =~= sorted);
        assert(sorted.to_multiset() =~= shorter.to_multiset().insert(sorted.last()));
        assert(after.to_multiset() =~= sorted.to_multiset().insert(entry));
        if in_listing_order(sorted) {
            assert forall|i: int| 0 <= i < shorter.len() - 1 implies listed_before(
                #[trigger] shorter[i],
                shorter[i + 1],
            ) by {
                assert(listed_before(sorted[i], sorted[i + 1]));
            }
            lemma_text_le_total(sorted.last().session_dir, entry.session_dir);
            assert(listed_before(entry, sorted.last()));
            if shorter.len() > 0 {
                assert(listed_before(sorted[sorted.len() - 2], sorted[sorted.len() - 1]));
            }
            assert forall|i: int| 0 <= i < after.len() - 1 implies listed_before(
                #[trigger] after[i],
                after[i + 1],
            ) by {
                if i < inner.len() - 1 {
                    assert(listed_before(inner[i], inner[i + 1]));
                }
            }
        }
    }
}

/// Each session of the list is listed no later than the one behind it.
pub open spec fn in_listing_order(entries: Seq<SessionListEntryView>) -> bool {
    forall|i: int|
        0 <= i < entries.len() - 1 ==> listed_before(#[trigger] entries[i], entries[i + 1])
}

/// The listing holds exactly the sessions it was made from, each as
/// often as it was given, and holds them in listing order.
pub proof fn lemma_listed(entries: Seq<SessionListEntryView>)
    ensures
        listed(entries).len() == entries.len(),
        listed(entries).to_multiset() == entries.to_multiset(),
        in_listing_order(listed(entries)),
    decreases entries.len(),
{
    broadcast use vstd::seq_lib::group_to_multiset_ensures;

    if entries.len() > 0 {
        let shorter = entries.drop_last();
        lemma_listed(shorter);
        lemma_with_session(listed(shorter), entries.last());
        assert(shorter.push(entries.last()) =~= entries);
        assert(entries.to_multiset() =~= shorter.to_multiset().insert(entries.last()));
    } else {
        assert(entries =~= Seq::empty());
    }
}

/// Whether the text `a` stands no later than the text `b` in the order
/// of the dictionary.
pub fn text_stands_before(a: &str, b: &str) -> (le: bool)
    ensures
        le == text_le(a@, b@),
{
    let x = chars_of(a);
    let y = chars_of(b);
    let mut i: usize = 0;
    proof {
        assert(x@.skip(0) =~= x@);
        assert(y@.skip(0) =~= y@);
    }
    while i < x.len() && i < y.len()
        invariant
            i <= x.len(),
            i <= y.len(),
            x@ == a@,
            y@ == b@,
            text_le(x@, y@) == text_le(x@.skip(i as int), y@.skip(i as int)),
        decreases x.len() - i,
    {
        proof {
            let xs = x@.skip(i as int);
            let ys = y@.skip(i as int);
            assert(xs.len() > 0 && ys.len() > 0);
            assert(xs[0] == x@[i as int] && ys[0] == y@[i as int]);
            assert(xs.drop_first() =~= x@.skip(i + 1));
            assert(ys.drop_first() =~= y@.skip(i + 1));
        }
        if x[i] != y[i] {
            return x[i] < y[i];
        }
        i += 1;
    }
    proof {
        let xs = x@.skip(i as int);
        let ys = y@.skip(i as int);
        assert(xs.len() == x@.len() - i);
        assert(ys.len() == y@.len() - i);
    }
    i == x.len()
}

/// Puts the sessions in the order in which they are listed.
pub fn sort_sessions(
    entries: Vec<SessionListEntryContract>,
) -> (sorted: Vec<SessionListEntryContract>)
    ensures
        crate::api::views::session_views(sorted@) == listed(
            crate::api::views::session_views(entries@),
        ),
        sorted@.len() == entries@.len(),
        in_listing_order(crate::api::views::session_views(sorted@)),
{
    let ghost all = crate::api::views::session_views(entries@);
    proof {
        lemma_listed(all);
    }
    let mut rest = entries;
    let mut sorted: Vec<SessionListEntryContract> = Vec::new();
    let ghost n = all.len();
    assert(all.take(0) =~= Seq::empty());
    assert(crate::api::views::session_views(sorted@) =~= Seq::empty());
    while rest.len() > 0
        invariant
            rest@.len() <= n == all.len(),
            crate::api::views::session_views(rest@) == all.skip(n - rest@.len()),
            crate::api::views::session_views(sorted@) == listed(all.take(n - rest@.len())),
        decreases rest.len(),
    {
        let ghost done = n - rest@.len();
        let ghost before = crate::api::views::session_views(sorted@);
        let ghost waiting = rest@;
        let entry = rest.remove(0);
        proof {
            assert(crate::api::views::session_views(waiting)[0] == entry@);
            assert(entry@ == all[done]);
            assert forall|k: int| 0 <= k < rest@.len() implies crate::api::views::session_views(
                rest@,
            )[k] == all.skip(done + 1)[k] by {
                assert(rest@[k] == waiting[k + 1]);
                assert(crate::api::views::session_views(waiting)[k + 1] == all.skip(done)[k + 1]);
            }
            assert(crate::api::views::session_views(rest@) =~= all.skip(done + 1));
            assert(all.take(done + 1).drop_last() =~= all.take(done));
            assert(all.take(done + 1).last() == all[done]);
        }
        let mut pos: usize = sorted.len();
        while pos > 0 && !comes_no_later(&sorted[pos - 1], &entry)
            invariant
                pos <= sorted@.len(),
                before == crate::api::views::session_views(sorted@),
                forall|k: int|
                    pos <= k < sorted@.len() ==> !listed_before(#[trigger] before[k], entry@),
            decreases pos,
        {
            pos -= 1;
        }
        proof {
            lemma_with_session_at(before, entry@, pos as int);
        }
        sorted.insert(pos, entry);
        assert(crate::api::views::session_views(sorted@) =~= before.insert(pos as int, entry@));
    }
    assert(all.take(n as int) == all);
    sorted
}

/// Whether the session `a` is listed no later than the session `b`.
fn comes_no_later(a: &SessionListEntryContract, b: &SessionListEntryContract) -> (le: bool)
    ensures
        le == listed_before(a@, b@),
{
    a.last_used_epoch_secs > b.last_used_epoch_secs || (a.last_used_epoch_secs
        == b.last_used_epoch_secs && text_stands_before(
        a.session_dir.as_str(),
        b.session_dir.as_str(),
    ))
}

/// Where a session is put in: behind everything that is listed no later
/// than it at the end of which it comes to stand.
proof fn lemma_with_session_at(
    sorted: Seq<SessionListEntryView>,
    entry: SessionListEntryView,
    pos: int,
)
    requires
        0 <= pos <= sorted.len(),
        forall|k: int| pos <= k < sorted.len() ==> !listed_before(#[trigger] sorted[k], entry),
        pos == 0 || listed_before(sorted[pos - 1], entry),
    ensures
        with_session(sorted, entry) == sorted.insert(pos, entry),
    decreases sorted.len() - pos,
{
    if pos == sorted.len() {
        assert(sorted.insert(pos, entry) =~= sorted.push(entry));
    } else {
        let shorter = sorted.drop_last();
        assert(!listed_before(sorted[sorted.len() - 1], entry));
        assert forall|k: int| pos <= k < shorter.len() implies !listed_before(
            #[trigger] shorter[k],
            entry,
        ) by {
            assert(shorter[k] == sorted[k]);
        }
        lemma_with_session_at(shorter, entry, pos);
        assert(shorter.insert(pos, entry).push(sorted.last()) =~= sorted.insert(pos, entry));
    }
}

} // verus!
