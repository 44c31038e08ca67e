//! Device synchronization through the version-control client.
//!
//! Each operation is a state machine: it names the next action (a client
//! command or a filesystem step), the caller carries it out and hands back the
//! outcome, until the operation is done. The machines decide; they never block.
use vstd::prelude::*;

use crate::bundle::opt_view;
use crate::git::{
    failure, failure_of, last_commit_reads_as, outcome_succeeded, parse_history, parse_last_commit,
    parse_remote_url, pending_changes, reads_as, stdout_of, succeeded, trimmed, CommitInfo, GitCommand,
    GitError, GitStage, LogEntry, Outcome,
};
use crate::text::{contains_substring, has_substring, line_count, lines_of};

verus! {

/// What an operation asks for next.
pub enum Step<T> {
    /// Run a client command.
    Run(GitCommand),
    /// Write the ignore list (`ignore_file_text`) into the working tree.
    WriteIgnoreFile,
    /// Create the parent directories of the clone target.
    CreateParentDir,
    /// The operation is over.
    Done(Result<T, GitError>),
}

// ------------------------------------------------------------------
// sync
// ------------------------------------------------------------------

#[derive(PartialEq, Eq, Structural, Clone, Copy, Debug)]
pub enum SyncPhase {
    Staging,
    Checking,
    Committing,
    FindingRemote,
    Pulling,
    Pushing,
    Finished,
}

/// How a sync ended.
#[derive(PartialEq, Eq, Structural, Clone, Copy, Debug)]
pub enum SyncOutcome {
    /// No remote is configured; local changes were committed if there were any.
    CommittedLocalOnly { committed: bool },
    /// Pulling from the remote ran into a conflict. The local commit stays.
    Conflict { committed: bool },
    /// Pulled from the remote, then pushed (or tried to: `pushed`).
    Synced { committed: bool, pushed: bool },
}

/// A sync in progress.
pub struct SyncRun {
    pub phase: SyncPhase,
    /// The message of the commit made when the working tree has changes.
    pub message: String,
    /// A commit of local changes was asked for.
    pub committed: bool,
    /// Number of changed files found when staging.
    pub changed: usize,
}

/// The first step of a sync: nothing is done in a tree without version control.
pub open spec fn sync_start(initialized: bool, message: String) -> (SyncRun, Step<SyncOutcome>) {
    if !initialized {
        (
            SyncRun { phase: SyncPhase::Finished, message, committed: false, changed: 0 },
            Step::Done(Err(GitError::NotInitialized)),
        )
    } else {
        (
            SyncRun { phase: SyncPhase::Staging, message, committed: false, changed: 0 },
            Step::Run(GitCommand::AddAll),
        )
    }
}

/// The pull ran into a conflict: it failed and said so.
pub open spec fn is_conflict(o: Outcome) -> bool {
    o matches Outcome::Exited { success, stderr, .. } && !success && has_substring(stderr@, "conflict"@)
}

/// One step of a sync: stage, commit when the tree is dirty, and only then
/// reach for the remote, so local work is durable before the network is tried.
pub open spec fn sync_next(s: SyncRun, o: Outcome) -> (SyncRun, Step<SyncOutcome>) {
    let done = SyncRun { phase: SyncPhase::Finished, ..s };
    match s.phase {
        SyncPhase::Staging => if succeeded(o) {
            (SyncRun { phase: SyncPhase::Checking, ..s }, Step::Run(GitCommand::StatusPorcelain))
        } else {
            (done, Step::Done(Err(failure_of(GitStage::Add, o))))
        },
        SyncPhase::Checking => if o is Failed {
            (done, Step::Done(Err(failure_of(GitStage::Status, o))))
        } else if stdout_of(o).len() > 0 {
            (
                SyncRun {
                    phase: SyncPhase::Committing,
                    committed: true,
                    changed: line_count(stdout_of(o)) as usize,
                    ..s
                },
                Step::Run(GitCommand::Commit { message: s.message }),
            )
        } else {
            (SyncRun { phase: SyncPhase::FindingRemote, ..s }, Step::Run(GitCommand::RemoteGetUrl))
        },
        SyncPhase::Committing => if succeeded(o) {
            (SyncRun { phase: SyncPhase::FindingRemote, ..s }, Step::Run(GitCommand::RemoteGetUrl))
        } else {
            (done, Step::Done(Err(failure_of(GitStage::Commit, o))))
        },
        SyncPhase::FindingRemote => if succeeded(o) {
            (SyncRun { phase: SyncPhase::Pulling, ..s }, Step::Run(GitCommand::PullRebase))
        } else {
            (done, Step::Done(Ok(SyncOutcome::CommittedLocalOnly { committed: s.committed })))
        },
        SyncPhase::Pulling => if is_conflict(o) {
            (done, Step::Done(Ok(SyncOutcome::Conflict { committed: s.committed })))
        } else {
            (SyncRun { phase: SyncPhase::Pushing, ..s }, Step::Run(GitCommand::Push))
        },
        SyncPhase::Pushing => (
            done,
            Step::Done(Ok(SyncOutcome::Synced { committed: s.committed, pushed: succeeded(o) })),
        ),
        SyncPhase::Finished => (s, Step::Done(Err(GitError::NotInitialized))),
    }
}

/// The steps a sync in state `s` takes when the outcomes `outs` come back in turn.
pub open spec fn sync_steps(s: SyncRun, outs: Seq<Outcome>) -> Seq<Step<SyncOutcome>>
    decreases outs.len(),
{
    if outs.len() == 0 || s.phase == SyncPhase::Finished {
        Seq::empty()
    } else {
        let (t, st) = sync_next(s, outs[0]);
        seq![st] + sync_steps(t, outs.drop_first())
    }
}

/// The commit message to use: the caller's, or `FlowState sync - <stamp>`.
pub fn default_commit_message(stamp: &str) -> (r: String)
    ensures
        r@ == "FlowState sync - "@ + stamp@,
{
    let mut s = String::from_str("FlowState sync - ");
    s.append(stamp);
    s
}

impl SyncRun {
    /// Starts a sync of a working tree that has (`initialized`) or lacks
    /// version-control metadata; without a message, the commit is named after
    /// `stamp`, the time the caller read from its clock.
    pub fn start(initialized: bool, commit_message: Option<String>, stamp: &str) -> (r: (SyncRun, Step<SyncOutcome>))
        ensures
            r == sync_start(initialized, r.0.message),
            commit_message matches Some(m) ==> r.0.message == m,
            commit_message is None ==> r.0.message@ == "FlowState sync - "@ + stamp@,
    {
        let message = match commit_message {
            Some(m) => m,
            None => default_commit_message(stamp),
        };
        if !initialized {
            (
                SyncRun { phase: SyncPhase::Finished, message, committed: false, changed: 0 },
                Step::Done(Err(GitError::NotInitialized)),
            )
        } else {
            (
                SyncRun { phase: SyncPhase::Staging, message, committed: false, changed: 0 },
                Step::Run(GitCommand::AddAll),
            )
        }
    }

    /// Takes the outcome of the last step and names the next one.
    pub fn step(&mut self, o: Outcome) -> (r: Step<SyncOutcome>)
        requires
            old(self).phase != SyncPhase::Finished,
        ensures
            (*final(self), r) == sync_next(*old(self), o),
    {
        let ok = outcome_succeeded(&o);
        match self.phase {
            SyncPhase::Staging => {
                if ok {
                    self.phase = SyncPhase::Checking;
                    Step::Run(GitCommand::StatusPorcelain)
                } else {
                    self.phase = SyncPhase::Finished;
                    Step::Done(Err(failure(GitStage::Add, o)))
                }
            },
            SyncPhase::Checking => {
                let dirty = match &o {
                    Outcome::Failed { .. } => {
                        self.phase = SyncPhase::Finished;
                        return Step::Done(Err(failure(GitStage::Status, o)));
                    },
                    Outcome::Exited { stdout, .. } => {
                        let n = stdout.as_str().unicode_len();
                        if n > 0 {
                            Some(crate::git::pending_changes(stdout.as_str()))
                        } else {
                            None
                        }
                    },
                    Outcome::Completed => None,
                };
                match dirty {
                    Some(changed) => {
                        self.phase = SyncPhase::Committing;
                        self.committed = true;
                        self.changed = changed;
                        Step::Run(GitCommand::Commit { message: self.message.clone() })
                    },
                    None => {
                        self.phase = SyncPhase::FindingRemote;
                        Step::Run(GitCommand::RemoteGetUrl)
                    },
                }
            },
            SyncPhase::Committing => {
                if ok {
                    self.phase = SyncPhase::FindingRemote;
                    Step::Run(GitCommand::RemoteGetUrl)
                } else {
                    self.phase = SyncPhase::Finished;
                    Step::Done(Err(failure(GitStage::Commit, o)))
                }
            },
            SyncPhase::FindingRemote => {
                if ok {
                    self.phase = SyncPhase::Pulling;
                    Step::Run(GitCommand::PullRebase)
                } else {
                    self.phase = SyncPhase::Finished;
                    Step::Done(Ok(SyncOutcome::CommittedLocalOnly { committed: self.committed }))
                }
            },
            SyncPhase::Pulling => {
                let conflict = match &o {
                    Outcome::Exited { success, stderr, .. } => !*success && contains_substring(
                        stderr.as_str(),
                        "conflict",
                    ),
                    _ => false,
                };
                if conflict {
                    self.phase = SyncPhase::Finished;
                    Step::Done(Ok(SyncOutcome::Conflict { committed: self.committed }))
                } else {
                    self.phase = SyncPhase::Pushing;
                    Step::Run(GitCommand::Push)
                }
            },
            SyncPhase::Pushing => {
                self.phase = SyncPhase::Finished;
                Step::Done(Ok(SyncOutcome::Synced { committed: self.committed, pushed: ok }))
            },
            SyncPhase::Finished => Step::Done(Err(GitError::NotInitialized)),
        }
    }
}

// ------------------------------------------------------------------
// init
// ------------------------------------------------------------------

#[derive(PartialEq, Eq, Structural, Clone, Copy, Debug)]
pub enum InitPhase {
    Creating,
    WritingIgnore,
    Staging,
    Committing,
    Finished,
}

/// How an init ended.
#[derive(PartialEq, Eq, Structural, Clone, Copy, Debug)]
pub enum InitOutcome {
    /// The tree already had version-control metadata; nothing was done.
    AlreadyInitialized,
    /// A repository was created, with the ignore list and an initial commit.
    Initialized,
}

/// An init in progress.
pub struct InitRun {
    pub phase: InitPhase,
    /// The message of the initial commit.
    pub message: String,
}

/// The first step of an init: a tree that already has metadata is left alone.
pub open spec fn init_start(has_metadata: bool, message: String) -> (InitRun, Step<InitOutcome>) {
    if has_metadata {
        (InitRun { phase: InitPhase::Finished, message }, Step::Done(Ok(InitOutcome::AlreadyInitialized)))
    } else {
        (InitRun { phase: InitPhase::Creating, message }, Step::Run(GitCommand::Init))
    }
}

/// One step of an init. Staging and the initial commit are best effort: their
/// failure does not fail the init.
pub open spec fn init_next(s: InitRun, o: Outcome) -> (InitRun, Step<InitOutcome>) {
    let done = InitRun { phase: InitPhase::Finished, ..s };
    match s.phase {
        InitPhase::Creating => if succeeded(o) {
            (InitRun { phase: InitPhase::WritingIgnore, ..s }, Step::WriteIgnoreFile)
        } else {
            (done, Step::Done(Err(failure_of(GitStage::Init, o))))
        },
        InitPhase::WritingIgnore => if succeeded(o) {
            (InitRun { phase: InitPhase::Staging, ..s }, Step::Run(GitCommand::AddAll))
        } else {
            (done, Step::Done(Err(failure_of(GitStage::IgnoreFile, o))))
        },
        InitPhase::Staging => (
            InitRun { phase: InitPhase::Committing, ..s },
            Step::Run(GitCommand::Commit { message: s.message }),
        ),
        InitPhase::Committing => (done, Step::Done(Ok(InitOutcome::Initialized))),
        InitPhase::Finished => (s, Step::Done(Ok(InitOutcome::AlreadyInitialized))),
    }
}

/// The ignore list written into a new repository: OS clutter, the database's
/// journal, lock and temporary files, and local backups.
pub fn ignore_file_text() -> (r: &'static str)
    ensures
        r@ == "# OS files\n.DS_Store\nThumbs.db\n\n# Temporary files\n*.sqlite-journal\n*.sqlite-wal\n*.sqlite-shm\n*.tmp\n*.bak\n\n# Local backups\n*.local-backup-*\n"@,
{
    "# OS files\n.DS_Store\nThumbs.db\n\n# Temporary files\n*.sqlite-journal\n*.sqlite-wal\n*.sqlite-shm\n*.tmp\n*.bak\n\n# Local backups\n*.local-backup-*\n"
}

impl InitOutcome {
    /// The status word reported for this outcome.
    pub fn status_text(&self) -> (r: &'static str)
        ensures
            *self == InitOutcome::AlreadyInitialized ==> r@ == "already_initialized"@,
            *self == InitOutcome::Initialized ==> r@ == "initialized"@,
    {
        match self {
            InitOutcome::AlreadyInitialized => "already_initialized",
            InitOutcome::Initialized => "initialized",
        }
    }
}

impl InitRun {
    /// Starts an init of a working tree that has or lacks version-control metadata.
    pub fn start(has_metadata: bool) -> (r: (InitRun, Step<InitOutcome>))
        ensures
            r == init_start(has_metadata, r.0.message),
            r.0.message@ == "FlowState initialized"@,
    {
        let message = String::from_str("FlowState initialized");
        if has_metadata {
            (InitRun { phase: InitPhase::Finished, message }, Step::Done(Ok(InitOutcome::AlreadyInitialized)))
        } else {
            (InitRun { phase: InitPhase::Creating, message }, Step::Run(GitCommand::Init))
        }
    }

    /// Takes the outcome of the last step and names the next one.
    pub fn step(&mut self, o: Outcome) -> (r: Step<InitOutcome>)
        requires
            old(self).phase != InitPhase::Finished,
        ensures
            (*final(self), r) == init_next(*old(self), o),
    {
        let ok = outcome_succeeded(&o);
        match self.phase {
            InitPhase::Creating => {
                if ok {
                    self.phase = InitPhase::WritingIgnore;
                    Step::WriteIgnoreFile
                } else {
                    self.phase = InitPhase::Finished;
                    Step::Done(Err(failure(GitStage::Init, o)))
                }
            },
            InitPhase::WritingIgnore => {
                if ok {
                    self.phase = InitPhase::Staging;
                    Step::Run(GitCommand::AddAll)
                } else {
                    self.phase = InitPhase::Finished;
                    Step::Done(Err(failure(GitStage::IgnoreFile, o)))
                }
            },
            InitPhase::Staging => {
                self.phase = InitPhase::Committing;
                Step::Run(GitCommand::Commit { message: self.message.clone() })
            },
            InitPhase::Committing => {
                self.phase = InitPhase::Finished;
                Step::Done(Ok(InitOutcome::Initialized))
            },
            InitPhase::Finished => Step::Done(Ok(InitOutcome::AlreadyInitialized)),
        }
    }
}

// ------------------------------------------------------------------
// set remote
// ------------------------------------------------------------------

#[derive(PartialEq, Eq, Structural, Clone, Copy, Debug)]
pub enum RemotePhase {
    Checking,
    Setting,
    Finished,
}

/// Whether the remote was new or replaced an earlier one.
#[derive(PartialEq, Eq, Structural, Clone, Copy, Debug)]
pub enum RemoteAction {
    Added,
    Updated,
}

/// The remote now configured.
pub struct RemoteSet {
    pub url: String,
    pub action: RemoteAction,
}

/// Setting the remote, in progress.
pub struct RemoteRun {
    pub phase: RemotePhase,
    pub url: String,
    /// A remote was configured before.
    pub existed: bool,
}

/// The first step of setting the remote: look for an existing one.
pub open spec fn remote_start(url: String) -> (RemoteRun, Step<RemoteSet>) {
    (RemoteRun { phase: RemotePhase::Checking, url, existed: false }, Step::Run(GitCommand::RemoteGetUrl))
}

/// One step of setting the remote: add it when absent, else update it.
pub open spec fn remote_next(s: RemoteRun, o: Outcome) -> (RemoteRun, Step<RemoteSet>) {
    let done = RemoteRun { phase: RemotePhase::Finished, ..s };
    match s.phase {
        RemotePhase::Checking => (
            RemoteRun { phase: RemotePhase::Setting, existed: succeeded(o), ..s },
            Step::Run(
                if succeeded(o) {
                    GitCommand::RemoteSetUrl { url: s.url }
                } else {
                    GitCommand::RemoteAdd { url: s.url }
                },
            ),
        ),
        RemotePhase::Setting => if succeeded(o) {
            (
                done,
                Step::Done(
                    Ok(
                        RemoteSet {
                            url: s.url,
                            action: if s.existed {
                                RemoteAction::Updated
                            } else {
                                RemoteAction::Added
                            },
                        },
                    ),
                ),
            )
        } else {
            (done, Step::Done(Err(failure_of(GitStage::SetRemote, o))))
        },
        RemotePhase::Finished => (s, Step::Done(Err(GitError::NotInitialized))),
    }
}

impl RemoteRun {
    /// Starts setting the remote to `url`.
    pub fn start(url: String) -> (r: (RemoteRun, Step<RemoteSet>))
        ensures
            r == remote_start(url),
    {
        (RemoteRun { phase: RemotePhase::Checking, url, existed: false }, Step::Run(GitCommand::RemoteGetUrl))
    }

    /// Takes the outcome of the last step and names the next one.
    pub fn step(&mut self, o: Outcome) -> (r: Step<RemoteSet>)
        requires
            old(self).phase != RemotePhase::Finished,
        ensures
            (*final(self), r) == remote_next(*old(self), o),
    {
        let ok = outcome_succeeded(&o);
        match self.phase {
            RemotePhase::Checking => {
                self.phase = RemotePhase::Setting;
                self.existed = ok;
                let url = self.url.clone();
                if ok {
                    Step::Run(GitCommand::RemoteSetUrl { url })
                } else {
                    Step::Run(GitCommand::RemoteAdd { url })
                }
            },
            RemotePhase::Setting => {
                self.phase = RemotePhase::Finished;
                if ok {
                    let action = if self.existed {
                        RemoteAction::Updated
                    } else {
                        RemoteAction::Added
                    };
                    Step::Done(Ok(RemoteSet { url: self.url.clone(), action }))
                } else {
                    Step::Done(Err(failure(GitStage::SetRemote, o)))
                }
            },
            RemotePhase::Finished => Step::Done(Err(GitError::NotInitialized)),
        }
    }
}

impl RemoteAction {
    /// The word reported for this action.
    pub fn as_text(&self) -> (r: &'static str)
        ensures
            *self == RemoteAction::Added ==> r@ == "added"@,
            *self == RemoteAction::Updated ==> r@ == "updated"@,
    {
        match self {
            RemoteAction::Added => "added",
            RemoteAction::Updated => "updated",
        }
    }
}

// ------------------------------------------------------------------
// clone
// ------------------------------------------------------------------

#[derive(PartialEq, Eq, Structural, Clone, Copy, Debug)]
pub enum ClonePhase {
    CreatingParent,
    Cloning,
    Finished,
}

/// A clone in progress.
pub struct CloneRun {
    pub phase: ClonePhase,
    pub url: String,
    pub path: String,
}

/// The first step of a clone: a non-empty target is refused.
pub open spec fn clone_start(target_nonempty: bool, url: String, path: String) -> (CloneRun, Step<()>) {
    if target_nonempty {
        (CloneRun { phase: ClonePhase::Finished, url, path }, Step::Done(Err(GitError::DirectoryNotEmpty)))
    } else {
        (CloneRun { phase: ClonePhase::CreatingParent, url, path }, Step::CreateParentDir)
    }
}

/// One step of a clone.
pub open spec fn clone_next(s: CloneRun, o: Outcome) -> (CloneRun, Step<()>) {
    let done = CloneRun { phase: ClonePhase::Finished, ..s };
    match s.phase {
        ClonePhase::CreatingParent => if succeeded(o) {
            (
                CloneRun { phase: ClonePhase::Cloning, ..s },
                Step::Run(GitCommand::Clone { url: s.url, path: s.path }),
            )
        } else {
            (done, Step::Done(Err(failure_of(GitStage::CreateDir, o))))
        },
        ClonePhase::Cloning => if succeeded(o) {
            (done, Step::Done(Ok(())))
        } else {
            (done, Step::Done(Err(failure_of(GitStage::Clone, o))))
        },
        ClonePhase::Finished => (s, Step::Done(Err(GitError::DirectoryNotEmpty))),
    }
}

impl CloneRun {
    /// Starts cloning `url` into `path`, whose directory exists with entries
    /// (`target_nonempty`) or not.
    pub fn start(target_nonempty: bool, url: String, path: String) -> (r: (CloneRun, Step<()>))
        ensures
            r == clone_start(target_nonempty, url, path),
    {
        if target_nonempty {
            (CloneRun { phase: ClonePhase::Finished, url, path }, Step::Done(Err(GitError::DirectoryNotEmpty)))
        } else {
            (CloneRun { phase: ClonePhase::CreatingParent, url, path }, Step::CreateParentDir)
        }
    }

    /// Takes the outcome of the last step and names the next one.
    pub fn step(&mut self, o: Outcome) -> (r: Step<()>)
        requires
            old(self).phase != ClonePhase::Finished,
        ensures
            (*final(self), r) == clone_next(*old(self), o),
    {
        let ok = outcome_succeeded(&o);
        match self.phase {
            ClonePhase::CreatingParent => {
                if ok {
                    self.phase = ClonePhase::Cloning;
                    Step::Run(GitCommand::Clone { url: self.url.clone(), path: self.path.clone() })
                } else {
                    self.phase = ClonePhase::Finished;
                    Step::Done(Err(failure(GitStage::CreateDir, o)))
                }
            },
            ClonePhase::Cloning => {
                self.phase = ClonePhase::Finished;
                if ok {
                    Step::Done(Ok(()))
                } else {
                    Step::Done(Err(failure(GitStage::Clone, o)))
                }
            },
            ClonePhase::Finished => Step::Done(Err(GitError::DirectoryNotEmpty)),
        }
    }
}

// ------------------------------------------------------------------
// history
// ------------------------------------------------------------------

/// `entries` are what the log output `stdout` reads as, line by line.
pub open spec fn history_reads_as(entries: Seq<LogEntry>, stdout: Seq<char>) -> bool {
    entries.len() == lines_of(stdout).len() && forall|i: int|
        0 <= i < entries.len() ==> reads_as(#[trigger] entries[i], lines_of(stdout)[i])
}

/// The log command for the most recent `limit` commits (20 by default).
pub fn history_command(limit: Option<i32>) -> (r: GitCommand)
    ensures
        limit matches Some(n) ==> r == (GitCommand::Log { limit: n }),
        limit is None ==> r == (GitCommand::Log { limit: 20 }),
{
    match limit {
        Some(n) => GitCommand::Log { limit: n },
        None => GitCommand::Log { limit: 20 },
    }
}

/// The commit history from the log command's outcome: one entry per line of
/// output, malformed lines kept raw.
pub fn read_history(o: Outcome) -> (r: Result<Vec<LogEntry>, GitError>)
    ensures
        succeeded(o) ==> (r is Ok && history_reads_as(r->Ok_0@, stdout_of(o))),
        !succeeded(o) ==> r == Err::<Vec<LogEntry>, GitError>(failure_of(GitStage::Log, o)),
{
    if outcome_succeeded(&o) {
        match &o {
            Outcome::Exited { stdout, .. } => Ok(parse_history(stdout.as_str())),
            _ => {
                proof {
                    reveal_strlit("");
                }
                Ok(parse_history(""))
            },
        }
    } else {
        Err(failure(GitStage::Log, o))
    }
}

// ------------------------------------------------------------------
// status
// ------------------------------------------------------------------

#[derive(PartialEq, Eq, Structural, Clone, Copy, Debug)]
pub enum StatusPhase {
    Counting,
    FindingRemote,
    ReadingLast,
    Finished,
}

/// The state of the working tree, as reported.
pub enum RepoStatus {
    /// No version-control metadata.
    NotInitialized,
    Initialized {
        /// Changed files not yet committed.
        pending_changes: usize,
        /// The configured remote, if any.
        remote_url: Option<String>,
        /// The most recent commit, if any.
        last_commit: Option<CommitInfo>,
    },
}

/// A status query in progress; a pure read.
pub struct StatusRun {
    pub phase: StatusPhase,
    pub pending: usize,
    pub remote_url: Option<String>,
}

/// The remote reported by the `remote get-url` outcome `o`.
pub open spec fn remote_of(o: Outcome) -> Option<Seq<char>> {
    if o is Exited && succeeded(o) {
        Some(trimmed(stdout_of(o)))
    } else {
        None
    }
}

/// `r` reports an initialized tree with these pending changes and remote,
/// and the last commit that the `log -1` outcome `o` shows.
pub open spec fn reports_status(r: Step<RepoStatus>, pending: usize, remote_url: Option<String>, o: Outcome) -> bool {
    match r {
        Step::Done(Ok(RepoStatus::Initialized { pending_changes, remote_url: url, last_commit })) => {
            &&& pending_changes == pending
            &&& url == remote_url
            &&& if o is Exited && succeeded(o) {
                last_commit_reads_as(last_commit, stdout_of(o))
            } else {
                last_commit is None
            }
        },
        _ => false,
    }
}

fn clone_text(o: &Option<String>) -> (r: Option<String>)
    ensures
        r == *o,
{
    match o {
        Some(s) => Some(s.clone()),
        None => None,
    }
}

impl StatusRun {
    /// Starts a status query of a working tree that has or lacks version-control metadata.
    pub fn start(has_metadata: bool) -> (r: (StatusRun, Step<RepoStatus>))
        ensures
            !has_metadata ==> r.0.phase == StatusPhase::Finished && r.1 == Step::<RepoStatus>::Done(
                Ok(RepoStatus::NotInitialized),
            ),
            has_metadata ==> r.0.phase == StatusPhase::Counting && r.1 == Step::<RepoStatus>::Run(
                GitCommand::StatusPorcelain,
            ),
    {
        if has_metadata {
            (
                StatusRun { phase: StatusPhase::Counting, pending: 0, remote_url: None },
                Step::Run(GitCommand::StatusPorcelain),
            )
        } else {
            (
                StatusRun { phase: StatusPhase::Finished, pending: 0, remote_url: None },
                Step::Done(Ok(RepoStatus::NotInitialized)),
            )
        }
    }

    /// Takes the outcome of the last step and names the next one: count the
    /// changed files, look up the remote, read the last commit.
    pub fn step(&mut self, o: Outcome) -> (r: Step<RepoStatus>)
        requires
            old(self).phase != StatusPhase::Finished,
        ensures
            old(self).phase == StatusPhase::Counting && o is Failed ==> final(self).phase == StatusPhase::Finished
                && r == Step::<RepoStatus>::Done(Err(failure_of(GitStage::Status, o))),
            old(self).phase == StatusPhase::Counting && !(o is Failed) ==> final(self).phase
                == StatusPhase::FindingRemote && final(self).pending == line_count(stdout_of(o))
                && r == Step::<RepoStatus>::Run(GitCommand::RemoteGetUrl),
            old(self).phase == StatusPhase::FindingRemote ==> final(self).phase == StatusPhase::ReadingLast
                && final(self).pending == old(self).pending && opt_view(final(self).remote_url) == remote_of(o)
                && r == Step::<RepoStatus>::Run(GitCommand::LastCommit),
            old(self).phase == StatusPhase::ReadingLast ==> final(self).phase == StatusPhase::Finished
                && reports_status(r, old(self).pending, old(self).remote_url, o),
    {
        match self.phase {
            StatusPhase::Counting => {
                match &o {
                    Outcome::Failed { .. } => {
                        self.phase = StatusPhase::Finished;
                        return Step::Done(Err(failure(GitStage::Status, o)));
                    },
                    Outcome::Exited { stdout, .. } => {
                        self.pending = pending_changes(stdout.as_str());
                    },
                    Outcome::Completed => {
                        self.pending = 0;
                    },
                }
                self.phase = StatusPhase::FindingRemote;
                Step::Run(GitCommand::RemoteGetUrl)
            },
            StatusPhase::FindingRemote => {
                self.remote_url = match &o {
                    Outcome::Exited { success, stdout, .. } => if *success {
                        Some(parse_remote_url(stdout.as_str()))
                    } else {
                        None
                    },
                    _ => None,
                };
                self.phase = StatusPhase::ReadingLast;
                Step::Run(GitCommand::LastCommit)
            },
            StatusPhase::ReadingLast => {
                let last_commit = match &o {
                    Outcome::Exited { success, stdout, .. } => if *success {
                        parse_last_commit(stdout.as_str())
                    } else {
                        None
                    },
                    _ => None,
                };
                self.phase = StatusPhase::Finished;
                Step::Done(
                    Ok(
                        RepoStatus::Initialized {
                            pending_changes: self.pending,
                            remote_url: clone_text(&self.remote_url),
                            last_commit,
                        },
                    ),
                )
            },
            StatusPhase::Finished => Step::Done(Ok(RepoStatus::NotInitialized)),
        }
    }
}

// ------------------------------------------------------------------
// bookkeeping
// ------------------------------------------------------------------

/// A row for the sync history log.
pub struct HistoryEntry {
    pub operation: String,
    pub commit_hash: Option<String>,
    pub files_changed: Option<i64>,
    pub status: String,
    pub error_message: Option<String>,
}

/// Changes to the sync status row; `None` leaves a field as it is.
pub struct StatusUpdate {
    pub remote_url: Option<String>,
    pub last_sync_at: Option<String>,
    pub last_sync_commit: Option<String>,
    pub pending_changes: Option<i64>,
    pub has_conflicts: Option<bool>,
}

/// The status word logged for a sync outcome.
pub open spec fn outcome_word(o: SyncOutcome) -> Seq<char> {
    match o {
        SyncOutcome::CommittedLocalOnly { .. } => "committed_local_only"@,
        SyncOutcome::Conflict { .. } => "conflict"@,
        SyncOutcome::Synced { .. } => "synced"@,
    }
}

/// What was being done at a stage, for messages.
pub open spec fn stage_text(stage: GitStage) -> Seq<char> {
    match stage {
        GitStage::Init => "git init"@,
        GitStage::IgnoreFile => "writing .gitignore"@,
        GitStage::Add => "git add"@,
        GitStage::Status => "git status"@,
        GitStage::Commit => "git commit"@,
        GitStage::SetRemote => "git remote"@,
        GitStage::CreateDir => "creating the target directory"@,
        GitStage::Clone => "git clone"@,
        GitStage::Log => "git log"@,
    }
}

/// The message that describes an error: a failed step names its stage, so
/// the message is never empty, whatever the client printed.
pub open spec fn error_text(e: GitError) -> Seq<char> {
    match e {
        GitError::NotInitialized => "Git not initialized. Run git_init first."@,
        GitError::DirectoryNotEmpty => "Target directory is not empty"@,
        GitError::NotRun { stage, error } => "Failed to run "@ + stage_text(stage) + ": "@ + error@,
        GitError::Failed { stage, stderr } => stage_text(stage) + " failed: "@ + stderr@,
    }
}

/// What was being done at `stage`.
pub fn stage_name(stage: GitStage) -> (r: &'static str)
    ensures
        r@ == stage_text(stage),
{
    match stage {
        GitStage::Init => "git init",
        GitStage::IgnoreFile => "writing .gitignore",
        GitStage::Add => "git add",
        GitStage::Status => "git status",
        GitStage::Commit => "git commit",
        GitStage::SetRemote => "git remote",
        GitStage::CreateDir => "creating the target directory",
        GitStage::Clone => "git clone",
        GitStage::Log => "git log",
    }
}

impl SyncOutcome {
    /// The status word logged for this outcome.
    pub fn status_text(&self) -> (r: &'static str)
        ensures
            r@ == outcome_word(*self),
    {
        match self {
            SyncOutcome::CommittedLocalOnly { .. } => "committed_local_only",
            SyncOutcome::Conflict { .. } => "conflict",
            SyncOutcome::Synced { .. } => "synced",
        }
    }
}

impl GitError {
    /// A message for the user.
    pub fn describe(&self) -> (r: String)
        ensures
            r@ == error_text(*self),
            r@.len() > 0,
    {
        proof {
            reveal_strlit("Git not initialized. Run git_init first.");
            reveal_strlit("Target directory is not empty");
            reveal_strlit("Failed to run ");
            reveal_strlit(" failed: ");
        }
        match self {
            GitError::NotInitialized => String::from_str("Git not initialized. Run git_init first."),
            GitError::DirectoryNotEmpty => String::from_str("Target directory is not empty"),
            GitError::NotRun { stage, error } => {
                let mut m = String::from_str("Failed to run ");
                m.append(stage_name(*stage));
                m.append(": ");
                m.append(error.as_str());
                m
            },
            GitError::Failed { stage, stderr } => {
                let mut m = String::from_str(stage_name(*stage));
                m.append(" failed: ");
                m.append(stderr.as_str());
                m
            },
        }
    }
}

/// A count as stored in a record, when it fits.
pub open spec fn stored_count(n: usize) -> Option<i64> {
    if n <= i64::MAX {
        Some(n as i64)
    } else {
        None
    }
}

fn store_count(n: usize) -> (r: Option<i64>)
    ensures
        r == stored_count(n),
{
    if (n as u128) <= (i64::MAX as u128) {
        Some(n as i64)
    } else {
        None
    }
}

/// `h` and `u` record the sync that ended with `result`, after `changed`
/// changed files were found, with `head` the commit now at the tip and
/// `pending` the changes the working tree shows after the sync.
pub open spec fn records_sync(
    result: Result<SyncOutcome, GitError>,
    changed: usize,
    head: Option<String>,
    pending: usize,
    now: String,
    h: HistoryEntry,
    u: StatusUpdate,
) -> bool {
    &&& h.operation@ == "sync"@
    &&& u.remote_url is None
    &&& match result {
        Ok(out) => {
            &&& h.status@ == outcome_word(out)
            &&& h.commit_hash == head
            &&& h.error_message is None
            &&& h.files_changed == stored_count(changed)
            &&& u.pending_changes == stored_count(pending)
            &&& if out is Conflict {
                &&& u.has_conflicts == Some(true)
                &&& u.last_sync_at is None
                &&& u.last_sync_commit is None
            } else {
                &&& u.has_conflicts == Some(false)
                &&& u.last_sync_at == Some(now)
                &&& u.last_sync_commit == head
            }
        },
        Err(e) => {
            &&& h.status@ == "error"@
            &&& h.commit_hash is None
            &&& h.files_changed is None
            &&& opt_view(h.error_message) == Some(error_text(e))
            &&& u.has_conflicts is None
            &&& u.pending_changes is None
            &&& u.last_sync_at is None
            &&& u.last_sync_commit is None
        },
    }
}

/// The history row and status update that record a finished sync. Every
/// finished sync refreshes the pending count; a commit, local-only or pushed,
/// records the tip and clears the conflict flag; a conflict is flagged until it
/// is resolved; a failure is logged with its message and changes nothing.
pub fn sync_record(
    result: &Result<SyncOutcome, GitError>,
    changed: usize,
    head: Option<String>,
    pending: usize,
    now: String,
) -> (r: (HistoryEntry, StatusUpdate))
    ensures
        records_sync(*result, changed, head, pending, now, r.0, r.1),
{
    let operation = String::from_str("sync");
    match result {
        Ok(out) => {
            let files_changed = store_count(changed);
            let pending_changes = store_count(pending);
            let h = HistoryEntry {
                operation,
                commit_hash: clone_text(&head),
                files_changed,
                status: String::from_str(out.status_text()),
                error_message: None,
            };
            let u = match out {
                SyncOutcome::Conflict { .. } => StatusUpdate {
                    remote_url: None,
                    last_sync_at: None,
                    last_sync_commit: None,
                    pending_changes,
                    has_conflicts: Some(true),
                },
                _ => StatusUpdate {
                    remote_url: None,
                    last_sync_at: Some(now),
                    last_sync_commit: head,
                    pending_changes,
                    has_conflicts: Some(false),
                },
            };
            (h, u)
        },
        Err(e) => {
            let h = HistoryEntry {
                operation,
                commit_hash: None,
                files_changed: None,
                status: String::from_str("error"),
                error_message: Some(e.describe()),
            };
            let u = StatusUpdate {
                remote_url: None,
                last_sync_at: None,
                last_sync_commit: None,
                pending_changes: None,
                has_conflicts: None,
            };
            (h, u)
        },
    }
}

// ------------------------------------------------------------------
// laws
// ------------------------------------------------------------------

/// The step asks for a commit.
pub open spec fn is_commit_step(st: Step<SyncOutcome>) -> bool {
    st matches Step::Run(GitCommand::Commit { .. })
}

/// The step ends the sync with a conflict.
pub open spec fn is_conflict_step(st: Step<SyncOutcome>) -> bool {
    st matches Step::Done(Ok(SyncOutcome::Conflict { .. }))
}

/// The `committed` flag of a conflict report.
pub open spec fn conflict_committed(st: Step<SyncOutcome>) -> bool {
    match st {
        Step::Done(Ok(SyncOutcome::Conflict { committed })) => committed,
        _ => false,
    }
}

/// A commit was asked for among the first `i` steps.
pub open spec fn commits_before(steps: Seq<Step<SyncOutcome>>, i: int) -> bool {
    exists|j: int| 0 <= j < i && #[trigger] is_commit_step(steps[j])
}

/// Syncing a tree without version-control metadata fails with
/// `NotInitialized` and asks for no action at all, whatever comes back.
pub proof fn law_sync_requires_init(message: String, outs: Seq<Outcome>)
    ensures
        sync_start(false, message).1 == Step::<SyncOutcome>::Done(Err(GitError::NotInitialized)),
        sync_steps(sync_start(false, message).0, outs) == Seq::<Step<SyncOutcome>>::empty(),
{
}

/// A sync of a dirty tree with no remote stages, commits, finds no remote and
/// stops there, reporting a local-only commit.
pub proof fn law_dirty_tree_without_remote(
    message: String,
    add: Outcome,
    stdout: String,
    stderr: String,
    commit: Outcome,
    lookup: Outcome,
)
    requires
        succeeded(add),
        stdout@.len() > 0,
        succeeded(commit),
        !succeeded(lookup),
    ensures
        sync_start(true, message).1 == Step::<SyncOutcome>::Run(GitCommand::AddAll),
        sync_steps(
            sync_start(true, message).0,
            seq![add, Outcome::Exited { success: true, stdout, stderr }, commit, lookup],
        ) == seq![
            Step::<SyncOutcome>::Run(GitCommand::StatusPorcelain),
            Step::<SyncOutcome>::Run(GitCommand::Commit { message }),
            Step::<SyncOutcome>::Run(GitCommand::RemoteGetUrl),
            Step::<SyncOutcome>::Done(Ok(SyncOutcome::CommittedLocalOnly { committed: true })),
        ],
{
    let outs = seq![add, Outcome::Exited { success: true, stdout, stderr }, commit, lookup];
    let s0 = sync_start(true, message).0;
    let (s1, t1) = sync_next(s0, outs[0]);
    let (s2, t2) = sync_next(s1, outs[1]);
    let (s3, t3) = sync_next(s2, outs[2]);
    let (s4, t4) = sync_next(s3, outs[3]);
    assert(outs.drop_first() =~= seq![outs[1], outs[2], outs[3]]);
    assert(outs.drop_first().drop_first() =~= seq![outs[2], outs[3]]);
    assert(outs.drop_first().drop_first().drop_first() =~= seq![outs[3]]);
    assert(outs.drop_first().drop_first().drop_first().drop_first() =~= Seq::<Outcome>::empty());
    assert(sync_steps(s4, Seq::<Outcome>::empty()) == Seq::<Step<SyncOutcome>>::empty());
    assert(sync_steps(s3, seq![outs[3]]) =~= seq![t4]);
    assert(sync_steps(s2, seq![outs[2], outs[3]]) =~= seq![t3, t4]);
    assert(sync_steps(s1, seq![outs[1], outs[2], outs[3]]) =~= seq![t2, t3, t4]);
    assert(sync_steps(s0, outs) =~= seq![t1, t2, t3, t4]);
}

proof fn lemma_commits_push(prior: Seq<Step<SyncOutcome>>, st: Step<SyncOutcome>)
    ensures
        commits_before(prior.push(st), prior.len() as int + 1) == (commits_before(prior, prior.len() as int)
            || is_commit_step(st)),
{
    let grown = prior.push(st);
    if commits_before(prior, prior.len() as int) {
        let j = choose|j: int| 0 <= j < prior.len() && #[trigger] is_commit_step(prior[j]);
        assert(grown[j] == prior[j]);
    }
    if is_commit_step(st) {
        assert(grown[prior.len() as int] == st);
    }
    if commits_before(grown, prior.len() as int + 1) {
        let j = choose|j: int| 0 <= j < prior.len() + 1 && #[trigger] is_commit_step(grown[j]);
        if j < prior.len() {
            assert(grown[j] == prior[j]);
        }
    }
}

proof fn lemma_conflict_steps(s: SyncRun, outs: Seq<Outcome>, prior: Seq<Step<SyncOutcome>>)
    requires
        s.phase != SyncPhase::Finished ==> (s.committed == commits_before(prior, prior.len() as int)),
        forall|i: int| 0 <= i < prior.len() ==> !#[trigger] is_conflict_step(prior[i]),
    ensures
        forall|i: int|
            0 <= i < (prior + sync_steps(s, outs)).len() && #[trigger] is_conflict_step(
                (prior + sync_steps(s, outs))[i],
            ) ==> i == (prior + sync_steps(s, outs)).len() - 1 && (conflict_committed(
                (prior + sync_steps(s, outs))[i],
            ) == commits_before(prior + sync_steps(s, outs), i)),
    decreases outs.len(),
{
    let all = prior + sync_steps(s, outs);
    if outs.len() == 0 || s.phase == SyncPhase::Finished {
        assert(all =~= prior);
    } else {
        let (t, st) = sync_next(s, outs[0]);
        let rest = outs.drop_first();
        let grown = prior.push(st);
        assert(all =~= grown + sync_steps(t, rest));
        lemma_commits_push(prior, st);
        if is_conflict_step(st) {
            assert(t.phase == SyncPhase::Finished);
            assert(all =~= grown);
            assert forall|i: int| 0 <= i < all.len() && #[trigger] is_conflict_step(all[i]) implies i == all.len()
                - 1 && (conflict_committed(all[i]) == commits_before(all, i)) by {
                if i < prior.len() {
                    assert(all[i] == prior[i]);
                }
                assert(all.take(i) =~= prior);
                assert(commits_before(all, i) == commits_before(prior, prior.len() as int)) by {
                    if commits_before(all, i) {
                        let j = choose|j: int| 0 <= j < i && #[trigger] is_commit_step(all[j]);
                        assert(all[j] == prior[j]);
                    }
                    if commits_before(prior, prior.len() as int) {
                        let j = choose|j: int| 0 <= j < prior.len() && #[trigger] is_commit_step(prior[j]);
                        assert(all[j] == prior[j]);
                    }
                }
            }
        } else {
            assert forall|i: int| 0 <= i < grown.len() implies !#[trigger] is_conflict_step(grown[i]) by {
                if i < prior.len() {
                    assert(grown[i] == prior[i]);
                }
            }
            lemma_conflict_steps(t, rest, grown);
        }
    }
}

/// A sync that meets a conflict stops there: no step follows it, so nothing
/// undoes the local commit, and the report says a commit was made exactly
/// when one was asked for earlier in the same sync.
pub proof fn law_conflict_keeps_local_commit(initialized: bool, message: String, outs: Seq<Outcome>)
    ensures
        forall|i: int|
            0 <= i < (seq![sync_start(initialized, message).1] + sync_steps(sync_start(initialized, message).0, outs)).len()
                && #[trigger] is_conflict_step(
                (seq![sync_start(initialized, message).1] + sync_steps(sync_start(initialized, message).0, outs))[i],
            ) ==> i == (seq![sync_start(initialized, message).1] + sync_steps(
                sync_start(initialized, message).0,
                outs,
            )).len() - 1 && (conflict_committed(
                (seq![sync_start(initialized, message).1] + sync_steps(sync_start(initialized, message).0, outs))[i],
            ) == commits_before(
                seq![sync_start(initialized, message).1] + sync_steps(sync_start(initialized, message).0, outs),
                i,
            )),
{
    let (s0, st0) = sync_start(initialized, message);
    let prior = seq![st0];
    assert(!commits_before(prior, 1)) by {
        if commits_before(prior, 1) {
            let j = choose|j: int| 0 <= j < 1 && #[trigger] is_commit_step(prior[j]);
            assert(prior[j] == st0);
        }
    }
    assert forall|i: int| 0 <= i < prior.len() implies !#[trigger] is_conflict_step(prior[i]) by {
        assert(prior[i] == st0);
    }
    lemma_conflict_steps(s0, outs, prior);
}

/// Initializing a tree that already has version-control metadata reports
/// `AlreadyInitialized` and asks for nothing: no repository, no commit.
pub proof fn law_init_idempotent(message: String)
    ensures
        init_start(true, message).1 == Step::<InitOutcome>::Done(Ok(InitOutcome::AlreadyInitialized)),
        init_start(true, message).0.phase == InitPhase::Finished,
{
}

/// Setting the remote adds it when none was configured and updates it when
/// one was.
pub proof fn law_set_remote_adds_or_updates(url: String, lookup: Outcome, set: Outcome)
    requires
        succeeded(set),
    ensures
        remote_next(remote_next(remote_start(url).0, lookup).0, set).1 == Step::<RemoteSet>::Done(
            Ok(
                RemoteSet {
                    url,
                    action: if succeeded(lookup) {
                        RemoteAction::Updated
                    } else {
                        RemoteAction::Added
                    },
                },
            ),
        ),
{
}

} // verus!
