//! The version-control client as the sync logic sees it: the commands it is
//! asked to run, what comes back, and how its output is read.
use vstd::prelude::*;

use crate::text::{line_count, lines_of, split_lines, split_on, split_string};

verus! {

/// A command for the version-control client, run in the working tree.
pub enum GitCommand {
    /// `init`
    Init,
    /// `add .`
    AddAll,
    /// `status --porcelain`
    StatusPorcelain,
    /// `commit -m <message>`
    Commit { message: String },
    /// `remote get-url origin`
    RemoteGetUrl,
    /// `remote add origin <url>`
    RemoteAdd { url: String },
    /// `remote set-url origin <url>`
    RemoteSetUrl { url: String },
    /// `pull --rebase origin main`
    PullRebase,
    /// `push origin main`
    Push,
    /// `log -1 --format=%H|%s|%ai`
    LastCommit,
    /// `log -<limit> --format=%H|%s|%ai|%an`
    Log { limit: i32 },
    /// `clone <url> <path>`, run outside the working tree.
    Clone { url: String, path: String },
}

/// What came back from the last action a sync operation asked for.
pub enum Outcome {
    /// The client ran and exited.
    Exited { success: bool, stdout: String, stderr: String },
    /// A filesystem action finished.
    Completed,
    /// The action could not be carried out (the client did not start, or the
    /// filesystem refused).
    Failed { error: String },
}

/// The stage of an operation at which it failed.
#[derive(PartialEq, Eq, Structural, Clone, Copy, Debug)]
pub enum GitStage {
    Init,
    IgnoreFile,
    Add,
    Status,
    Commit,
    SetRemote,
    CreateDir,
    Clone,
    Log,
}

/// Why a sync operation failed.
pub enum GitError {
    /// The working tree has no version-control metadata.
    NotInitialized,
    /// The clone target exists and is not empty.
    DirectoryNotEmpty,
    /// An action could not be carried out.
    NotRun { stage: GitStage, error: String },
    /// The client exited unsuccessfully; its standard error.
    Failed { stage: GitStage, stderr: String },
}

/// The action succeeded: the client exited with success, or a filesystem action finished.
pub open spec fn succeeded(o: Outcome) -> bool {
    match o {
        Outcome::Exited { success, .. } => success,
        Outcome::Completed => true,
        Outcome::Failed { .. } => false,
    }
}

/// The client's standard output (empty for any other outcome).
pub open spec fn stdout_of(o: Outcome) -> Seq<char> {
    match o {
        Outcome::Exited { stdout, .. } => stdout@,
        _ => Seq::empty(),
    }
}

/// The error that ends an operation whose action at `stage` did not succeed
/// (a finished filesystem action always succeeds, so it has none).
pub open spec fn failure_of(stage: GitStage, o: Outcome) -> GitError
    recommends
        !succeeded(o),
{
    match o {
        Outcome::Failed { error } => GitError::NotRun { stage, error },
        Outcome::Exited { stderr, .. } => GitError::Failed { stage, stderr },
        Outcome::Completed => GitError::NotInitialized,
    }
}

/// Whether `o` succeeded.
pub fn outcome_succeeded(o: &Outcome) -> (r: bool)
    ensures
        r == succeeded(*o),
{
    match o {
        Outcome::Exited { success, .. } => *success,
        Outcome::Completed => true,
        Outcome::Failed { .. } => false,
    }
}

/// The error for an action at `stage` that did not succeed.
pub fn failure(stage: GitStage, o: Outcome) -> (r: GitError)
    requires
        !succeeded(o),
    ensures
        r == failure_of(stage, o),
{
    match o {
        Outcome::Failed { error } => GitError::NotRun { stage, error },
        Outcome::Exited { stderr, .. } => GitError::Failed { stage, stderr },
        Outcome::Completed => GitError::NotInitialized,
    }
}

/// Text with leading and trailing whitespace removed (`str::trim`).
pub uninterp spec fn trimmed(s: Seq<char>) -> Seq<char>;

/// `part` is a contiguous run of the characters of `whole`.
pub open spec fn is_part_of(part: Seq<char>, whole: Seq<char>) -> bool {
    exists|i: int, j: int| 0 <= i <= j <= whole.len() && part == #[trigger] whole.subrange(i, j)
}

/// Relies on `str::trim`: the text without leading and trailing whitespace,
/// so a contiguous part of it.
#[verifier::external_body]
fn trim_text(s: &str) -> (r: String)
    ensures
        r@ == trimmed(s@),
        is_part_of(r@, s@),
{
    s.trim().to_string()
}

/// The last commit, as the client reports it.
pub struct CommitInfo {
    pub hash: String,
    pub message: String,
    pub date: String,
}

/// One line of the commit log: a commit, or the raw line when it does not
/// have the expected four fields.
pub enum LogEntry {
    Commit { hash: String, message: String, date: String, author: String },
    Raw { line: String },
}

/// `e` is what the log line `line` reads as: its `|`-separated fields when
/// there are at least four, else the line itself.
pub open spec fn reads_as(e: LogEntry, line: Seq<char>) -> bool {
    let f = split_on(line, '|');
    if f.len() >= 4 {
        e matches LogEntry::Commit { hash, message, date, author } && hash@ == f[0] && message@ == f[1]
            && date@ == f[2] && author@ == f[3]
    } else {
        e matches LogEntry::Raw { line: l } && l@ == line
    }
}

/// Reads one log line.
pub fn parse_log_line(line: &str) -> (r: LogEntry)
    ensures
        reads_as(r, line@),
{
    let mut f = split_string(line, '|');
    if f.len() >= 4 {
        let author = f.remove(3);
        let date = f.remove(2);
        let message = f.remove(1);
        let hash = f.remove(0);
        LogEntry::Commit { hash, message, date, author }
    } else {
        LogEntry::Raw { line: line.to_owned() }
    }
}

/// Reads the client's log output: one entry per line, none dropped.
pub fn parse_history(stdout: &str) -> (r: Vec<LogEntry>)
    ensures
        r@.len() == lines_of(stdout@).len(),
        forall|i: int| 0 <= i < r@.len() ==> reads_as(#[trigger] r@[i], lines_of(stdout@)[i]),
{
    let lines = split_lines(stdout);
    let mut entries: Vec<LogEntry> = Vec::new();
    let mut i: usize = 0;
    while i < lines.len()
        invariant
            lines@.map_values(|l: String| l@) == lines_of(stdout@),
            i <= lines@.len(),
            entries@.len() == i,
            forall|j: int| 0 <= j < i ==> reads_as(#[trigger] entries@[j], lines_of(stdout@)[j]),
        decreases lines@.len() - i,
    {
        let e = parse_log_line(lines[i].as_str());
        assert(lines@[i as int]@ == lines_of(stdout@)[i as int]);
        entries.push(e);
        i = i + 1;
    }
    entries
}

/// `c` is what the client's report of the last commit reads as.
pub open spec fn last_commit_reads_as(c: Option<CommitInfo>, stdout: Seq<char>) -> bool {
    let f = split_on(trimmed(stdout), '|');
    if f.len() >= 3 {
        c matches Some(info) && info.hash@ == f[0] && info.message@ == f[1] && info.date@ == f[2]
    } else {
        c is None
    }
}

/// Reads the client's report of the last commit (`hash|subject|date`).
pub fn parse_last_commit(stdout: &str) -> (r: Option<CommitInfo>)
    ensures
        last_commit_reads_as(r, stdout@),
{
    let t = trim_text(stdout);
    let mut f = split_string(t.as_str(), '|');
    if f.len() >= 3 {
        let date = f.remove(2);
        let message = f.remove(1);
        let hash = f.remove(0);
        Some(CommitInfo { hash, message, date })
    } else {
        None
    }
}

/// The remote's address as `remote get-url` prints it.
pub fn parse_remote_url(stdout: &str) -> (r: String)
    ensures
        r@ == trimmed(stdout@),
{
    trim_text(stdout)
}

/// Number of pending changes in `status --porcelain` output: one per line.
pub fn pending_changes(stdout: &str) -> (r: usize)
    ensures
        r == line_count(stdout@),
{
    crate::text::count_lines(stdout)
}

} // verus!
