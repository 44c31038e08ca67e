//! The records of the knowledge base, and the rules by which the
//! attachment and sync-status records change.
use vstd::prelude::*;

use crate::sync::{HistoryEntry, StatusUpdate, records_sync, SyncOutcome};
use crate::git::GitError;
use crate::text::{lemma_split_nonempty, line_count, split_on};

verus! {

#[derive(Clone, Debug)]
pub struct Project {
    pub id: i64,
    pub name: String,
    pub description: Option<String>,
    pub status: String,
    pub created_at: String,
    pub updated_at: String,
}

#[derive(Clone, Debug)]
pub struct Component {
    pub id: i64,
    pub project_id: i64,
    pub parent_component_id: Option<i64>,
    pub name: String,
    pub description: Option<String>,
    pub status: String,
    pub created_at: String,
    pub updated_at: String,
}

#[derive(Clone, Debug)]
pub struct Problem {
    pub id: i64,
    pub component_id: i64,
    pub title: String,
    pub description: Option<String>,
    pub status: String,
    pub severity: String,
    pub root_cause: Option<String>,
    pub created_at: String,
    pub solved_at: Option<String>,
}

#[derive(Clone, Debug)]
pub struct SolutionAttempt {
    pub id: i64,
    pub problem_id: i64,
    pub parent_attempt_id: Option<i64>,
    pub description: String,
    pub outcome: Option<String>,
    pub confidence: String,
    pub notes: Option<String>,
    pub created_at: String,
}

#[derive(Clone, Debug)]
pub struct Solution {
    pub id: i64,
    pub problem_id: i64,
    pub winning_attempt_id: Option<i64>,
    pub summary: String,
    pub code_snippet: Option<String>,
    pub key_insight: Option<String>,
    pub created_at: String,
}

#[derive(Clone, Debug)]
pub struct Todo {
    pub id: i64,
    pub project_id: i64,
    pub component_id: Option<i64>,
    pub title: String,
    pub description: Option<String>,
    pub priority: String,
    pub status: String,
    pub due_date: Option<String>,
    pub created_at: String,
    pub completed_at: Option<String>,
}

#[derive(Clone, Debug)]
pub struct Learning {
    pub id: i64,
    pub project_id: i64,
    pub component_id: Option<i64>,
    pub category: Option<String>,
    pub insight: String,
    pub context: Option<String>,
    pub source: String,
    pub verified: bool,
    pub created_at: String,
}

#[derive(Clone, Debug)]
pub struct Change {
    pub id: i64,
    pub component_id: i64,
    pub field_name: String,
    pub old_value: Option<String>,
    pub new_value: Option<String>,
    pub change_type: String,
    pub reason: Option<String>,
    pub created_at: String,
}

/// An ingested file. When `is_external` is false the file was copied into the
/// project's bundle and `file_path` lies inside it.
#[derive(Clone, Debug)]
pub struct Attachment {
    pub id: i64,
    pub project_id: i64,
    pub component_id: Option<i64>,
    pub problem_id: Option<i64>,
    pub file_name: String,
    pub file_path: String,
    pub file_type: String,
    pub file_size: Option<i64>,
    /// Hex SHA-256 of the content; absent when the file could not be read.
    pub file_hash: Option<String>,
    pub is_external: bool,
    pub user_description: Option<String>,
    /// A JSON array of tags.
    pub tags: Option<String>,
    pub ai_description: Option<String>,
    pub ai_summary: Option<String>,
    pub content_extracted: bool,
    pub created_at: String,
    pub updated_at: String,
    pub indexed_at: Option<String>,
}

/// A described span inside an attachment's content.
#[derive(Clone, Debug)]
pub struct ContentLocation {
    pub id: i64,
    pub attachment_id: i64,
    pub description: String,
    pub category: Option<String>,
    pub location_type: String,
    /// Where the span starts; its format depends on `location_type`, and it
    /// sorts as text.
    pub start_location: String,
    /// Where it ends; absent for a point.
    pub end_location: Option<String>,
    pub snippet: Option<String>,
    pub related_problem_id: Option<i64>,
    pub related_solution_id: Option<i64>,
    pub related_learning_id: Option<i64>,
    pub related_component_id: Option<i64>,
    pub created_at: String,
}

/// The sync state of this install: one row, created once, then only updated.
#[derive(Clone, Debug)]
pub struct SyncStatus {
    pub id: i64,
    pub device_name: String,
    pub device_id: String,
    pub remote_url: Option<String>,
    pub last_sync_at: Option<String>,
    pub last_sync_commit: Option<String>,
    pub pending_changes: i64,
    pub has_conflicts: bool,
    pub created_at: String,
    pub updated_at: String,
}

/// One entry of the append-only sync log.
#[derive(Clone, Debug)]
pub struct SyncHistory {
    pub id: i64,
    pub device_id: String,
    pub operation: String,
    pub commit_hash: Option<String>,
    pub files_changed: Option<i64>,
    pub status: Option<String>,
    pub error_message: Option<String>,
    pub created_at: String,
}

#[derive(Clone, Debug)]
pub struct Setting {
    pub key: String,
    pub value: String,
    pub category: String,
    pub updated_at: String,
}

/// Changes to an attachment's user and AI metadata; `None` leaves a field as it is.
pub struct AttachmentChanges {
    pub user_description: Option<String>,
    pub tags: Option<String>,
    pub ai_description: Option<String>,
    pub ai_summary: Option<String>,
    pub content_extracted: Option<bool>,
}

/// `new` if given, else `old`.
pub open spec fn given_or<T>(new: Option<T>, old: T) -> T {
    match new {
        Some(v) => v,
        None => old,
    }
}

/// `a` after `c`, applied at time `now`: only the given fields change, and
/// setting either AI field stamps the attachment as indexed now.
pub open spec fn changed_attachment(a: Attachment, c: AttachmentChanges, now: String) -> Attachment {
    Attachment {
        user_description: if c.user_description is Some { c.user_description } else { a.user_description },
        tags: if c.tags is Some { c.tags } else { a.tags },
        ai_description: if c.ai_description is Some { c.ai_description } else { a.ai_description },
        ai_summary: if c.ai_summary is Some { c.ai_summary } else { a.ai_summary },
        content_extracted: given_or(c.content_extracted, a.content_extracted),
        indexed_at: if c.ai_description is Some || c.ai_summary is Some { Some(now) } else { a.indexed_at },
        ..a
    }
}

impl Attachment {
    /// Applies metadata changes made at time `now`.
    pub fn apply_changes(&mut self, c: AttachmentChanges, now: String)
        ensures
            *final(self) == changed_attachment(*old(self), c, now),
    {
        let ai_set = c.ai_description.is_some() || c.ai_summary.is_some();
        if c.user_description.is_some() {
            self.user_description = c.user_description;
        }
        if c.tags.is_some() {
            self.tags = c.tags;
        }
        if c.ai_description.is_some() {
            self.ai_description = c.ai_description;
        }
        if c.ai_summary.is_some() {
            self.ai_summary = c.ai_summary;
        }
        if let Some(x) = c.content_extracted {
            self.content_extracted = x;
        }
        if ai_set {
            self.indexed_at = Some(now);
        }
    }

    /// The file to delete when this attachment is removed: only a copy in the
    /// bundle, and only when asked. An external file is never deleted.
    pub fn file_to_delete(&self, delete_file: bool) -> (r: Option<String>)
        ensures
            r == (if delete_file && !self.is_external {
                Some(self.file_path)
            } else {
                None
            }),
    {
        if delete_file && !self.is_external {
            Some(self.file_path.clone())
        } else {
            None
        }
    }
}

/// `st` after the update `u`: only the given fields change.
pub open spec fn updated_status(st: SyncStatus, u: StatusUpdate) -> SyncStatus {
    SyncStatus {
        remote_url: if u.remote_url is Some { u.remote_url } else { st.remote_url },
        last_sync_at: if u.last_sync_at is Some { u.last_sync_at } else { st.last_sync_at },
        last_sync_commit: if u.last_sync_commit is Some { u.last_sync_commit } else { st.last_sync_commit },
        pending_changes: given_or(u.pending_changes, st.pending_changes),
        has_conflicts: given_or(u.has_conflicts, st.has_conflicts),
        ..st
    }
}

impl SyncStatus {
    /// Applies an update to the sync state.
    pub fn apply_update(&mut self, u: StatusUpdate)
        ensures
            *final(self) == updated_status(*old(self), u),
    {
        if u.remote_url.is_some() {
            self.remote_url = u.remote_url;
        }
        if u.last_sync_at.is_some() {
            self.last_sync_at = u.last_sync_at;
        }
        if u.last_sync_commit.is_some() {
            self.last_sync_commit = u.last_sync_commit;
        }
        if let Some(n) = u.pending_changes {
            self.pending_changes = n;
        }
        if let Some(b) = u.has_conflicts {
            self.has_conflicts = b;
        }
    }
}

/// After a sync that committed locally with no remote, the recorded state
/// shows no conflict and the pending count read after the sync: nothing, once
/// the client reports a clean tree (no `status --porcelain` lines). The log
/// gains a `sync` entry with status `committed_local_only`.
pub proof fn law_local_commit_refreshes_status(
    committed: bool,
    changed: usize,
    head: Option<String>,
    status_output: Seq<char>,
    pending: usize,
    now: String,
    h: HistoryEntry,
    u: StatusUpdate,
    st: SyncStatus,
)
    requires
        pending == line_count(status_output),
        pending <= i64::MAX,
        records_sync(
            Ok::<SyncOutcome, GitError>(SyncOutcome::CommittedLocalOnly { committed }),
            changed,
            head,
            pending,
            now,
            h,
            u,
        ),
    ensures
        updated_status(st, u).pending_changes == pending,
        status_output.len() == 0 ==> updated_status(st, u).pending_changes == 0,
        !updated_status(st, u).has_conflicts,
        h.operation@ == "sync"@,
        h.status@ == "committed_local_only"@,
{
    lemma_split_nonempty(status_output, '\n');
    if status_output.len() == 0 {
        assert(split_on(status_output, '\n') =~= seq![Seq::<char>::empty()]);
    }
}

/// After a sync that met a conflict, the recorded state flags the conflict,
/// keeps the last synced commit it had, and shows the pending count read
/// after the sync.
pub proof fn law_conflict_is_flagged(
    committed: bool,
    changed: usize,
    head: Option<String>,
    pending: usize,
    now: String,
    h: HistoryEntry,
    u: StatusUpdate,
    st: SyncStatus,
)
    requires
        pending <= i64::MAX,
        records_sync(
            Ok::<SyncOutcome, GitError>(SyncOutcome::Conflict { committed }),
            changed,
            head,
            pending,
            now,
            h,
            u,
        ),
    ensures
        updated_status(st, u).has_conflicts,
        updated_status(st, u).pending_changes == pending,
        updated_status(st, u).last_sync_commit == st.last_sync_commit,
        h.status@ == "conflict"@,
{
}

/// Whether this install still needs its sync status row: one is created only
/// when none exists, so there is never more than one.
pub fn needs_status_row(existing: &Option<SyncStatus>) -> (r: bool)
    ensures
        r == existing is None,
{
    existing.is_none()
}

} // verus!
