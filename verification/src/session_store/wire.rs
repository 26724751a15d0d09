//! The files of a session as JSON documents: how each is written and read.

use super::{ContextFileView, MetadataFileView, TaskFailsFileView, TaskFailView};
use crate::api::json::{member, Json};
use crate::api::wire::{
    lemma_text_list_round_trip, read_text, read_text_list, read_u64, read_u8, write_text_list,
};
use vstd::prelude::*;

verus! {

/// A [`SessionMetadata`] on the wire: as an object with one member per field.
pub open spec fn write_session_metadata(v: MetadataFileView) -> Json {
    Json::Object(
        Map::<Seq<char>, Json>::empty()
            .insert("workspace"@, Json::Text(v.workspace))
            .insert("created_at_epoch_secs"@, Json::Integer(v.created_at_epoch_secs as int))
            .insert("last_used_epoch_secs"@, Json::Integer(v.last_used_epoch_secs as int)),
    )
}

/// The [`SessionMetadata`] that a document states, none where it states none.
pub open spec fn read_session_metadata(j: Json) -> Option<MetadataFileView> {
    if !(j is Object) {
        None
    } else {
        let workspace = match member(j, "workspace"@) {
            None => None,
            Some(x) => read_text(x),
        };
        let created_at_epoch_secs = match member(j, "created_at_epoch_secs"@) {
            None => None,
            Some(x) => read_u64(x),
        };
        let last_used_epoch_secs = match member(j, "last_used_epoch_secs"@) {
            None => None,
            Some(x) => read_u64(x),
        };
        if workspace is Some && created_at_epoch_secs is Some && last_used_epoch_secs is Some {
            Some(
                MetadataFileView {
                    workspace: workspace->0,
                    created_at_epoch_secs: created_at_epoch_secs->0,
                    last_used_epoch_secs: last_used_epoch_secs->0,
                },
            )
        } else {
            None
        }
    }
}

/// Reading what was written for a [`SessionMetadata`] gives it back.
pub proof fn lemma_session_metadata_round_trip(v: MetadataFileView)
    ensures
        read_session_metadata(write_session_metadata(v)) == Some(v),
{
    reveal_strlit("workspace");
    reveal_strlit("created_at_epoch_secs");
    reveal_strlit("last_used_epoch_secs");
    assert("workspace"@.len() == 9);
    assert("created_at_epoch_secs"@.len() == 21);
    assert("last_used_epoch_secs"@.len() == 20);
}

/// A [`TaskFailFileEntry`] on the wire: as an object with one member per field.
pub open spec fn write_task_fail(v: TaskFailView) -> Json {
    Json::Object(
        Map::<Seq<char>, Json>::empty()
            .insert("kind"@, Json::Text(v.kind))
            .insert("top_task_id"@, Json::Integer(v.top_task_id as int))
            .insert("top_task_title"@, Json::Text(v.top_task_title))
            .insert("attempts"@, Json::Integer(v.attempts as int))
            .insert("reason"@, Json::Text(v.reason))
            .insert("action_taken"@, Json::Text(v.action_taken))
            .insert("created_at_epoch_secs"@, Json::Integer(v.created_at_epoch_secs as int)),
    )
}

/// The [`TaskFailFileEntry`] that a document states, none where it states none.
pub open spec fn read_task_fail(j: Json) -> Option<TaskFailView> {
    if !(j is Object) {
        None
    } else {
        let kind = match member(j, "kind"@) {
            None => None,
            Some(x) => read_text(x),
        };
        let top_task_id = match member(j, "top_task_id"@) {
            None => None,
            Some(x) => read_u64(x),
        };
        let top_task_title = match member(j, "top_task_title"@) {
            None => None,
            Some(x) => read_text(x),
        };
        let attempts = match member(j, "attempts"@) {
            None => None,
            Some(x) => read_u8(x),
        };
        let reason = match member(j, "reason"@) {
            None => None,
            Some(x) => read_text(x),
        };
        let action_taken = match member(j, "action_taken"@) {
            None => None,
            Some(x) => read_text(x),
        };
        let created_at_epoch_secs = match member(j, "created_at_epoch_secs"@) {
            None => None,
            Some(x) => read_u64(x),
        };
        if kind is Some && top_task_id is Some && top_task_title is Some && attempts is Some
            && reason is Some && action_taken is Some && created_at_epoch_secs is Some {
            Some(
                TaskFailView {
                    kind: kind->0,
                    top_task_id: top_task_id->0,
                    top_task_title: top_task_title->0,
                    attempts: attempts->0,
                    reason: reason->0,
                    action_taken: action_taken->0,
                    created_at_epoch_secs: created_at_epoch_secs->0,
                },
            )
        } else {
            None
        }
    }
}

/// Reading what was written for a [`TaskFailFileEntry`] gives it back.
pub proof fn lemma_task_fail_round_trip(v: TaskFailView)
    ensures
        read_task_fail(write_task_fail(v)) == Some(v),
{
    reveal_strlit("kind");
    reveal_strlit("top_task_id");
    reveal_strlit("top_task_title");
    reveal_strlit("attempts");
    reveal_strlit("reason");
    reveal_strlit("action_taken");
    reveal_strlit("created_at_epoch_secs");
    assert("kind"@.len() == 4);
    assert("top_task_id"@.len() == 11);
    assert("top_task_title"@.len() == 14);
    assert("attempts"@.len() == 8);
    assert("reason"@.len() == 6);
    assert("action_taken"@.len() == 12);
    assert("created_at_epoch_secs"@.len() == 21);
}

/// A list of [`TaskFailFileEntry`] on the wire: the array of its items.
pub open spec fn write_task_fail_list(vs: Seq<TaskFailView>) -> Json {
    Json::Array(Seq::new(vs.len(), |i: int| write_task_fail(vs[i])))
}

/// The items that a list of documents states, none where one of them states none.
pub open spec fn read_task_fail_items(items: Seq<Json>) -> Option<Seq<TaskFailView>>
    decreases items.len(),
{
    if items.len() == 0 {
        Some(Seq::empty())
    } else {
        match (read_task_fail_items(items.drop_last()), read_task_fail(items.last())) {
            (Some(earlier), Some(last)) => Some(earlier.push(last)),
            _ => None,
        }
    }
}

/// The list of [`TaskFailFileEntry`] that a document states.
pub open spec fn read_task_fail_list(j: Json) -> Option<Seq<TaskFailView>> {
    match j {
        Json::Array(items) => read_task_fail_items(items),
        _ => None,
    }
}

/// Reading what was written for a list of [`TaskFailFileEntry`] gives it back.
pub proof fn lemma_task_fail_list_round_trip(vs: Seq<TaskFailView>)
    ensures
        read_task_fail_list(write_task_fail_list(vs)) == Some(vs),
    decreases vs.len(),
{
    let items = write_task_fail_list(vs)->Array_0;
    if vs.len() > 0 {
        let shorter = vs.drop_last();
        lemma_task_fail_list_round_trip(shorter);
        assert(items.drop_last() =~= write_task_fail_list(shorter)->Array_0);
        lemma_task_fail_round_trip(vs.last());
        assert(shorter.push(vs.last()) =~= vs);
    } else {
        assert(vs =~= Seq::empty());
    }
}

/// Once an item states nothing, the list states nothing.
pub proof fn lemma_task_fail_items_stay_none(items: Seq<Json>, n: int)
    requires
        0 <= n <= items.len(),
        read_task_fail_items(items.take(n)) is None,
    ensures
        read_task_fail_items(items) is None,
    decreases items.len() - n,
{
    if n < items.len() {
        assert(items.take(n + 1).drop_last() == items.take(n));
        lemma_task_fail_items_stay_none(items, n + 1);
    } else {
        assert(items.take(n) == items);
    }
}

/// A [`RollingContextFile`] on the wire: as an object with one member per field.
pub open spec fn write_context_file(v: ContextFileView) -> Json {
    Json::Object(
        Map::<Seq<char>, Json>::empty()
            .insert("entries"@, write_text_list(v.entries)),
    )
}

/// The [`RollingContextFile`] that a document states, none where it states none.
pub open spec fn read_context_file(j: Json) -> Option<ContextFileView> {
    if !(j is Object) {
        None
    } else {
        let entries = match member(j, "entries"@) {
            None => Some(Seq::<Seq<char>>::empty()),
            Some(x) => read_text_list(x),
        };
        if entries is Some {
            Some(ContextFileView { entries: entries->0 })
        } else {
            None
        }
    }
}

/// Reading what was written for a [`RollingContextFile`] gives it back.
pub proof fn lemma_context_file_round_trip(v: ContextFileView)
    ensures
        read_context_file(write_context_file(v)) == Some(v),
{
    reveal_strlit("entries");
    assert("entries"@.len() == 7);
    lemma_text_list_round_trip(v.entries);
}

/// A [`TaskFailsFile`] on the wire: as an object with one member per field.
pub open spec fn write_task_fails_file(v: TaskFailsFileView) -> Json {
    Json::Object(
        Map::<Seq<char>, Json>::empty()
            .insert("entries"@, write_task_fail_list(v.entries)),
    )
}

/// The [`TaskFailsFile`] that a document states, none where it states none.
pub open spec fn read_task_fails_file(j: Json) -> Option<TaskFailsFileView> {
    if !(j is Object) {
        None
    } else {
        let entries = match member(j, "entries"@) {
            None => Some(Seq::<TaskFailView>::empty()),
            Some(x) => read_task_fail_list(x),
        };
        if entries is Some {
            Some(TaskFailsFileView { entries: entries->0 })
        } else {
            None
        }
    }
}

/// Reading what was written for a [`TaskFailsFile`] gives it back.
pub proof fn lemma_task_fails_file_round_trip(v: TaskFailsFileView)
    ensures
        read_task_fails_file(write_task_fails_file(v)) == Some(v),
{
    reveal_strlit("entries");
    assert("entries"@.len() == 7);
    lemma_task_fail_list_round_trip(v.entries);
}

} // verus!
