//! Writing the files of a session as JSON documents and reading them back.

use super::wire::{
    lemma_task_fail_items_stay_none, read_context_file, read_session_metadata, read_task_fail,
    read_task_fail_items, read_task_fail_list, read_task_fails_file, write_context_file,
    write_session_metadata, write_task_fail, write_task_fail_list, write_task_fails_file,
};
use super::{task_fail_views, RollingContextFile, SessionMetadata, TaskFailFileEntry, TaskFailsFile};
use crate::api::codec::{
    no_texts, put, text_from_json, text_list_from_json, text_list_to_json, u64_from_json,
    u8_from_json,
};
use crate::api::json::{
    json_array, json_get, json_object, json_of, json_text, json_u64, jsons_of, new_members, Json,
};
use crate::text::texts;
use vstd::prelude::*;
use vstd::string::StringExecFns;

verus! {

/// A list without entries.
fn no_task_fails() -> (items: Vec<TaskFailFileEntry>)
    ensures
        task_fail_views(items@) == Seq::<super::TaskFailView>::empty(),
{
    let items: Vec<TaskFailFileEntry> = Vec::new();
    assert(task_fail_views(items@) =~= Seq::empty());
    items
}

impl SessionMetadata {
    /// This value as a JSON document of the wire format.
    pub fn to_json(&self) -> (value: serde_json::Value)
        ensures
            json_of(value) == write_session_metadata(self@),
    {
        let mut members = new_members();
        put(&mut members, "workspace", json_text(self.workspace.clone()));
        put(&mut members, "created_at_epoch_secs", json_u64(self.created_at_epoch_secs));
        put(&mut members, "last_used_epoch_secs", json_u64(self.last_used_epoch_secs));
        json_object(members)
    }

    /// The value that a JSON document of the wire format states, none
    /// where it states none.
    pub fn from_json(value: &serde_json::Value) -> (read: Option<Self>)
        ensures
            match read {
                Some(x) => read_session_metadata(json_of(*value)) == Some(x@),
                None => read_session_metadata(json_of(*value)) is None,
            },
    {
        if !value.is_object() {
            return None;
        }
        let workspace = match json_get(value, "workspace") {
            None => {
                return None;
            },
            Some(x) => match text_from_json(x) {
                Some(v) => v,
                None => {
                    return None;
                },
            },
        };
        let created_at_epoch_secs = match json_get(value, "created_at_epoch_secs") {
            None => {
                return None;
            },
            Some(x) => match u64_from_json(x) {
                Some(v) => v,
                None => {
                    return None;
                },
            },
        };
        let last_used_epoch_secs = match json_get(value, "last_used_epoch_secs") {
            None => {
                return None;
            },
            Some(x) => match u64_from_json(x) {
                Some(v) => v,
                None => {
                    return None;
                },
            },
        };
        Some(SessionMetadata { workspace, created_at_epoch_secs, last_used_epoch_secs })
    }
}

impl TaskFailFileEntry {
    /// This value as a JSON document of the wire format.
    pub fn to_json(&self) -> (value: serde_json::Value)
        ensures
            json_of(value) == write_task_fail(self@),
    {
        let mut members = new_members();
        put(&mut members, "kind", json_text(self.kind.clone()));
        put(&mut members, "top_task_id", json_u64(self.top_task_id));
        put(&mut members, "top_task_title", json_text(self.top_task_title.clone()));
        put(&mut members, "attempts", json_u64(self.attempts as u64));
        put(&mut members, "reason", json_text(self.reason.clone()));
        put(&mut members, "action_taken", json_text(self.action_taken.clone()));
        put(&mut members, "created_at_epoch_secs", json_u64(self.created_at_epoch_secs));
        json_object(members)
    }

    /// The value that a JSON document of the wire format states, none
    /// where it states none.
    pub fn from_json(value: &serde_json::Value) -> (read: Option<Self>)
        ensures
            match read {
                Some(x) => read_task_fail(json_of(*value)) == Some(x@),
                None => read_task_fail(json_of(*value)) is None,
            },
    {
        if !value.is_object() {
            return None;
        }
        let kind = match json_get(value, "kind") {
            None => {
                return None;
            },
            Some(x) => match text_from_json(x) {
                Some(v) => v,
                None => {
                    return None;
                },
            },
        };
        let top_task_id = match json_get(value, "top_task_id") {
            None => {
                return None;
            },
            Some(x) => match u64_from_json(x) {
                Some(v) => v,
                None => {
                    return None;
                },
            },
        };
        let top_task_title = match json_get(value, "top_task_title") {
            None => {
                return None;
            },
            Some(x) => match text_from_json(x) {
                Some(v) => v,
                None => {
                    return None;
                },
            },
        };
        let attempts = match json_get(value, "attempts") {
            None => {
                return None;
            },
            Some(x) => match u8_from_json(x) {
                Some(v) => v,
                None => {
                    return None;
                },
            },
        };
        let reason = match json_get(value, "reason") {
            None => {
                return None;
            },
            Some(x) => match text_from_json(x) {
                Some(v) => v,
                None => {
                    return None;
                },
            },
        };
        let action_taken = match json_get(value, "action_taken") {
            None => {
                return None;
            },
            Some(x) => match text_from_json(x) {
                Some(v) => v,
                None => {
                    return None;
                },
            },
        };
        let created_at_epoch_secs = match json_get(value, "created_at_epoch_secs") {
            None => {
                return None;
            },
            Some(x) => match u64_from_json(x) {
                Some(v) => v,
                None => {
                    return None;
                },
            },
        };
        Some(
            TaskFailFileEntry {
                kind,
                top_task_id,
                top_task_title,
                attempts,
                reason,
                action_taken,
                created_at_epoch_secs,
            },
        )
    }
}

/// A list of [`TaskFailFileEntry`] as a JSON array.
pub fn task_fail_list_to_json(items: &Vec<TaskFailFileEntry>) -> (value: serde_json::Value)
    ensures
        json_of(value) == write_task_fail_list(task_fail_views(items@)),
{
    let mut values: Vec<serde_json::Value> = Vec::new();
    let mut i: usize = 0;
    while i < items.len()
        invariant
            i <= items.len(),
            values@.len() == i,
            forall|k: int| 0 <= k < i ==>
                json_of(#[trigger] values@[k]) == write_task_fail(items@[k]@),
        decreases items.len() - i,
    {
        values.push(items[i].to_json());
        i += 1;
    }
    assert(jsons_of(values@) =~= write_task_fail_list(task_fail_views(items@))->Array_0);
    json_array(values)
}

/// The list of [`TaskFailFileEntry`] that a JSON array states, none where the document
/// is no array or one of its items states none.
pub fn task_fail_list_from_json(value: &serde_json::Value) -> (read: Option<Vec<TaskFailFileEntry>>)
    ensures
        match read {
            Some(items) => read_task_fail_list(json_of(*value)) == Some(task_fail_views(items@)),
            None => read_task_fail_list(json_of(*value)) is None,
        },
{
    let values = match value.as_array() {
        Some(values) => values,
        None => {
            return None;
        },
    };
    let ghost all = jsons_of(values@);
    let mut items: Vec<TaskFailFileEntry> = Vec::new();
    let mut i: usize = 0;
    assert(all.take(0) =~= Seq::empty());
    assert(task_fail_views(items@) =~= Seq::empty());
    while i < values.len()
        invariant
            i <= values.len(),
            all == jsons_of(values@),
            json_of(*value) == Json::Array(all),
            read_task_fail_items(all.take(i as int)) == Some(task_fail_views(items@)),
        decreases values.len() - i,
    {
        proof {
            assert(all.take(i + 1).drop_last() == all.take(i as int));
            assert(all.take(i + 1).last() == json_of(values@[i as int]));
        }
        match TaskFailFileEntry::from_json(&values[i]) {
            Some(item) => {
                let ghost earlier = task_fail_views(items@);
                items.push(item);
                assert(task_fail_views(items@) =~= earlier.push(item@));
            },
            None => {
                proof {
                    lemma_task_fail_items_stay_none(all, i + 1);
                }
                return None;
            },
        }
        i += 1;
    }
    assert(all.take(i as int) == all);
    Some(items)
}

impl RollingContextFile {
    /// This value as a JSON document of the wire format.
    pub fn to_json(&self) -> (value: serde_json::Value)
        ensures
            json_of(value) == write_context_file(self@),
    {
        let mut members = new_members();
        put(&mut members, "entries", text_list_to_json(&self.entries));
        json_object(members)
    }

    /// The value that a JSON document of the wire format states, none
    /// where it states none.
    pub fn from_json(value: &serde_json::Value) -> (read: Option<Self>)
        ensures
            match read {
                Some(x) => read_context_file(json_of(*value)) == Some(x@),
                None => read_context_file(json_of(*value)) is None,
            },
    {
        if !value.is_object() {
            return None;
        }
        let entries = match json_get(value, "entries") {
            None => no_texts(),
            Some(x) => match text_list_from_json(x) {
                Some(v) => v,
                None => {
                    return None;
                },
            },
        };
        Some(RollingContextFile { entries })
    }
}

impl TaskFailsFile {
    /// This value as a JSON document of the wire format.
    pub fn to_json(&self) -> (value: serde_json::Value)
        ensures
            json_of(value) == write_task_fails_file(self@),
    {
        let mut members = new_members();
        put(&mut members, "entries", task_fail_list_to_json(&self.entries));
        json_object(members)
    }

    /// The value that a JSON document of the wire format states, none
    /// where it states none.
    pub fn from_json(value: &serde_json::Value) -> (read: Option<Self>)
        ensures
            match read {
                Some(x) => read_task_fails_file(json_of(*value)) == Some(x@),
                None => read_task_fails_file(json_of(*value)) is None,
            },
    {
        if !value.is_object() {
            return None;
        }
        let entries = match json_get(value, "entries") {
            None => no_task_fails(),
            Some(x) => match task_fail_list_from_json(x) {
                Some(v) => v,
                None => {
                    return None;
                },
            },
        };
        Some(TaskFailsFile { entries })
    }
}

} // verus!
