use flowstate::git::{GitCommand, GitError, GitStage, Outcome};
use flowstate::records::SyncStatus;
use flowstate::sync::{
    default_commit_message, history_command, ignore_file_text, read_history, sync_record, CloneRun,
    InitOutcome, InitRun, RemoteAction, RemoteRun, RepoStatus, StatusRun, Step, SyncOutcome, SyncRun,
};
use flowstate::git::LogEntry;

const STAMP: &str = "2024-01-02 03:04:05 UTC";

fn ok(stdout: &str) -> Outcome {
    Outcome::Exited { success: true, stdout: stdout.to_string(), stderr: String::new() }
}

fn fail(stderr: &str) -> Outcome {
    Outcome::Exited { success: false, stdout: String::new(), stderr: stderr.to_string() }
}

fn status_row() -> SyncStatus {
    SyncStatus {
        id: 1,
        device_name: "laptop".to_string(),
        device_id: "dev-1".to_string(),
        remote_url: None,
        last_sync_at: Some("earlier".to_string()),
        last_sync_commit: Some("c0".to_string()),
        pending_changes: 5,
        has_conflicts: false,
        created_at: "t".to_string(),
        updated_at: "t".to_string(),
    }
}

#[test]
fn sync_without_metadata_does_nothing() {
    let (run, step) = SyncRun::start(false, Some("m".to_string()), STAMP);
    assert!(matches!(step, Step::Done(Err(GitError::NotInitialized))));
    assert!(matches!(run.phase, flowstate::sync::SyncPhase::Finished));
}

#[test]
fn sync_dirty_tree_without_remote() {
    let (mut run, step) = SyncRun::start(true, Some("save".to_string()), STAMP);
    assert!(matches!(step, Step::Run(GitCommand::AddAll)));
    assert!(matches!(run.step(ok("")), Step::Run(GitCommand::StatusPorcelain)));
    match run.step(ok(" M db.sqlite\n?? new.txt\n")) {
        Step::Run(GitCommand::Commit { message }) => assert_eq!(message, "save"),
        _ => panic!("expected a commit"),
    }
    assert_eq!(run.changed, 2);
    assert!(matches!(run.step(ok("")), Step::Run(GitCommand::RemoteGetUrl)));
    let done = run.step(fail("error: No such remote 'origin'"));
    let result = match done {
        Step::Done(r) => r,
        _ => panic!("expected the end"),
    };
    assert!(matches!(result, Ok(SyncOutcome::CommittedLocalOnly { committed: true })));

    let (h, u) = sync_record(&result, run.changed, Some("abc123".to_string()), 0, "now".to_string());
    assert_eq!(h.operation, "sync");
    assert_eq!(h.status, "committed_local_only");
    assert_eq!(h.commit_hash.as_deref(), Some("abc123"));
    assert_eq!(h.files_changed, Some(2));
    let mut st = status_row();
    st.apply_update(u);
    assert_eq!(st.pending_changes, 0);
    assert!(!st.has_conflicts);
    assert_eq!(st.last_sync_commit.as_deref(), Some("abc123"));
    assert_eq!(st.last_sync_at.as_deref(), Some("now"));
    assert_eq!(st.device_id, "dev-1");
}

#[test]
fn sync_clean_tree_commits_nothing() {
    let (mut run, _) = SyncRun::start(true, None, STAMP);
    assert_eq!(run.message, "FlowState sync - 2024-01-02 03:04:05 UTC");
    run.step(ok(""));
    assert!(matches!(run.step(ok("")), Step::Run(GitCommand::RemoteGetUrl)));
    assert!(matches!(
        run.step(Outcome::Failed { error: "no git".to_string() }),
        Step::Done(Ok(SyncOutcome::CommittedLocalOnly { committed: false }))
    ));
}

#[test]
fn sync_pull_conflict_keeps_local_commit() {
    let (mut run, _) = SyncRun::start(true, Some("work".to_string()), STAMP);
    run.step(ok(""));
    run.step(ok("M a\n"));
    run.step(ok(""));
    assert!(matches!(run.step(ok("https://example/repo.git\n")), Step::Run(GitCommand::PullRebase)));
    let done = run.step(fail("CONFLICT (content): Merge conflict in db.sqlite"));
    let result = match done {
        Step::Done(r) => r,
        _ => panic!("expected the end"),
    };
    assert!(matches!(result, Ok(SyncOutcome::Conflict { committed: true })));
    let (h, u) = sync_record(&result, run.changed, Some("local1".to_string()), 3, "now".to_string());
    assert_eq!(h.status, "conflict");
    let mut st = status_row();
    st.apply_update(u);
    assert!(st.has_conflicts);
    assert_eq!(st.pending_changes, 3);
    assert_eq!(st.last_sync_commit.as_deref(), Some("c0"));
}

#[test]
fn sync_pull_error_without_conflict_is_ignored() {
    let (mut run, _) = SyncRun::start(true, Some("w".to_string()), STAMP);
    run.step(ok(""));
    run.step(ok(""));
    run.step(ok("url"));
    assert!(matches!(
        run.step(fail("There is no tracking information for the current branch.")),
        Step::Run(GitCommand::Push)
    ));
    assert!(matches!(
        run.step(fail("network down")),
        Step::Done(Ok(SyncOutcome::Synced { committed: false, pushed: false }))
    ));
}

#[test]
fn sync_pushes_after_pull() {
    let (mut run, _) = SyncRun::start(true, Some("w".to_string()), STAMP);
    run.step(ok(""));
    run.step(ok("A f\n"));
    run.step(ok(""));
    run.step(ok("url"));
    run.step(ok(""));
    let result = match run.step(ok("")) {
        Step::Done(r) => r,
        _ => panic!("expected the end"),
    };
    assert!(matches!(result, Ok(SyncOutcome::Synced { committed: true, pushed: true })));
    let (h, _) = sync_record(&result, run.changed, None, 0, "now".to_string());
    assert_eq!(h.status, "synced");
}

#[test]
fn sync_failures_are_typed() {
    let (mut run, _) = SyncRun::start(true, Some("w".to_string()), STAMP);
    let r = run.step(fail("fatal: index locked"));
    match r {
        Step::Done(Err(GitError::Failed { stage, stderr })) => {
            assert_eq!(stage, GitStage::Add);
            assert_eq!(stderr, "fatal: index locked");
        }
        _ => panic!("expected a failure"),
    }
    let (mut run, _) = SyncRun::start(true, Some("w".to_string()), STAMP);
    run.step(ok(""));
    run.step(ok("M x\n"));
    match run.step(Outcome::Failed { error: "spawn".to_string() }) {
        Step::Done(Err(GitError::NotRun { stage, error })) => {
            assert_eq!(stage, GitStage::Commit);
            assert_eq!(error, "spawn");
        }
        _ => panic!("expected a failure"),
    }
    let (mut run, _) = SyncRun::start(true, Some("w".to_string()), STAMP);
    run.step(ok(""));
    assert!(matches!(
        run.step(Outcome::Failed { error: "x".to_string() }),
        Step::Done(Err(GitError::NotRun { stage: GitStage::Status, .. }))
    ));
}

#[test]
fn failed_sync_is_logged_with_its_message() {
    let result: Result<SyncOutcome, GitError> = Err(GitError::NotInitialized);
    let (h, u) = sync_record(&result, 0, None, 0, "now".to_string());
    assert_eq!(h.status, "error");
    assert_eq!(h.error_message.as_deref(), Some("Git not initialized. Run git_init first."));
    let mut st = status_row();
    st.apply_update(u);
    assert_eq!(st.pending_changes, 5);
    assert_eq!(GitError::DirectoryNotEmpty.describe(), "Target directory is not empty");
}

#[test]
fn default_message_is_stamped() {
    assert_eq!(default_commit_message("2024-01-02 03:04:05 UTC"), "FlowState sync - 2024-01-02 03:04:05 UTC");
}

#[test]
fn init_twice_is_idempotent() {
    let (mut run, step) = InitRun::start(false);
    assert!(matches!(step, Step::Run(GitCommand::Init)));
    assert!(matches!(run.step(ok("")), Step::WriteIgnoreFile));
    assert!(matches!(run.step(Outcome::Completed), Step::Run(GitCommand::AddAll)));
    match run.step(fail("nothing")) {
        Step::Run(GitCommand::Commit { message }) => assert_eq!(message, "FlowState initialized"),
        _ => panic!("expected the initial commit"),
    }
    assert!(matches!(run.step(fail("nothing to commit")), Step::Done(Ok(InitOutcome::Initialized))));

    let (_, again) = InitRun::start(true);
    match again {
        Step::Done(Ok(o)) => {
            assert_eq!(o, InitOutcome::AlreadyInitialized);
            assert_eq!(o.status_text(), "already_initialized");
        }
        _ => panic!("expected no action"),
    }
}

#[test]
fn init_failures() {
    let (mut run, _) = InitRun::start(false);
    assert!(matches!(run.step(fail("no")), Step::Done(Err(GitError::Failed { stage: GitStage::Init, .. }))));
    let (mut run, _) = InitRun::start(false);
    run.step(ok(""));
    assert!(matches!(
        run.step(Outcome::Failed { error: "read-only".to_string() }),
        Step::Done(Err(GitError::NotRun { stage: GitStage::IgnoreFile, .. }))
    ));
}

#[test]
fn ignore_list_covers_database_side_files() {
    let t = ignore_file_text();
    assert!(t.contains("*.sqlite-journal"));
    assert!(t.contains("*.local-backup-*"));
    assert!(t.ends_with('\n'));
}

#[test]
fn set_remote_added_then_updated() {
    let (mut run, step) = RemoteRun::start("https://example/repo.git".to_string());
    assert!(matches!(step, Step::Run(GitCommand::RemoteGetUrl)));
    match run.step(fail("error: No such remote 'origin'")) {
        Step::Run(GitCommand::RemoteAdd { url }) => assert_eq!(url, "https://example/repo.git"),
        _ => panic!("expected add"),
    }
    match run.step(ok("")) {
        Step::Done(Ok(set)) => {
            assert_eq!(set.action, RemoteAction::Added);
            assert_eq!(set.action.as_text(), "added");
            assert_eq!(set.url, "https://example/repo.git");
        }
        _ => panic!("expected success"),
    }

    let (mut run, _) = RemoteRun::start("https://example/other.git".to_string());
    match run.step(ok("https://example/repo.git\n")) {
        Step::Run(GitCommand::RemoteSetUrl { url }) => assert_eq!(url, "https://example/other.git"),
        _ => panic!("expected set-url"),
    }
    match run.step(ok("")) {
        Step::Done(Ok(set)) => assert_eq!(set.action.as_text(), "updated"),
        _ => panic!("expected success"),
    }
}

#[test]
fn set_remote_failure() {
    let (mut run, _) = RemoteRun::start("u".to_string());
    run.step(fail(""));
    assert!(matches!(run.step(fail("bad")), Step::Done(Err(GitError::Failed { stage: GitStage::SetRemote, .. }))));
}

#[test]
fn clone_refuses_a_nonempty_target() {
    let (_, step) = CloneRun::start(true, "u".to_string(), "/p".to_string());
    assert!(matches!(step, Step::Done(Err(GitError::DirectoryNotEmpty))));
    let (mut run, step) = CloneRun::start(false, "u".to_string(), "/p".to_string());
    assert!(matches!(step, Step::CreateParentDir));
    match run.step(Outcome::Completed) {
        Step::Run(GitCommand::Clone { url, path }) => {
            assert_eq!(url, "u");
            assert_eq!(path, "/p");
        }
        _ => panic!("expected clone"),
    }
    assert!(matches!(run.step(ok("")), Step::Done(Ok(()))));
    let (mut run, _) = CloneRun::start(false, "u".to_string(), "/p".to_string());
    assert!(matches!(
        run.step(Outcome::Failed { error: "denied".to_string() }),
        Step::Done(Err(GitError::NotRun { stage: GitStage::CreateDir, .. }))
    ));
}

#[test]
fn status_of_uninitialized_and_initialized_trees() {
    let (_, step) = StatusRun::start(false);
    assert!(matches!(step, Step::Done(Ok(RepoStatus::NotInitialized))));

    let (mut run, _) = StatusRun::start(true);
    assert!(matches!(run.step(ok(" M a\n?? b\n")), Step::Run(GitCommand::RemoteGetUrl)));
    assert!(matches!(run.step(ok("  https://example/repo.git\n")), Step::Run(GitCommand::LastCommit)));
    match run.step(ok("abc|Initial|2024-01-01 10:00:00 +0000\n")) {
        Step::Done(Ok(RepoStatus::Initialized { pending_changes, remote_url, last_commit })) => {
            assert_eq!(pending_changes, 2);
            assert_eq!(remote_url.as_deref(), Some("https://example/repo.git"));
            let c = last_commit.unwrap();
            assert_eq!(c.hash, "abc");
            assert_eq!(c.message, "Initial");
            assert_eq!(c.date, "2024-01-01 10:00:00 +0000");
        }
        _ => panic!("expected a report"),
    }
}

#[test]
fn status_after_commit_reports_nothing_pending() {
    let (mut run, _) = StatusRun::start(true);
    run.step(ok(""));
    run.step(fail("no remote"));
    match run.step(fail("no commits yet")) {
        Step::Done(Ok(RepoStatus::Initialized { pending_changes, remote_url, last_commit })) => {
            assert_eq!(pending_changes, 0);
            assert!(remote_url.is_none());
            assert!(last_commit.is_none());
        }
        _ => panic!("expected a report"),
    }
}

#[test]
fn history_keeps_malformed_lines() {
    assert!(matches!(history_command(None), GitCommand::Log { limit: 20 }));
    assert!(matches!(history_command(Some(5)), GitCommand::Log { limit: 5 }));
    let entries = read_history(ok("h1|fix bug|2024-01-01|ann\ngarbage line\nh2|a|b|c|extra\n")).ok().unwrap();
    assert_eq!(entries.len(), 3);
    match &entries[0] {
        LogEntry::Commit { hash, message, date, author } => {
            assert_eq!((hash.as_str(), message.as_str(), date.as_str(), author.as_str()), ("h1", "fix bug", "2024-01-01", "ann"));
        }
        _ => panic!("expected a commit"),
    }
    match &entries[1] {
        LogEntry::Raw { line } => assert_eq!(line, "garbage line"),
        _ => panic!("expected a raw line"),
    }
    assert!(matches!(&entries[2], LogEntry::Commit { author, .. } if author == "c"));
    assert!(matches!(read_history(fail("fatal")), Err(GitError::Failed { stage: GitStage::Log, .. })));
}

#[test]
fn failed_steps_name_their_stage() {
    let add = GitError::Failed { stage: GitStage::Add, stderr: String::new() };
    assert_eq!(add.describe(), "git add failed: ");
    let commit = GitError::NotRun { stage: GitStage::Commit, error: "no such file".to_string() };
    assert_eq!(commit.describe(), "Failed to run git commit: no such file");
    let result: Result<SyncOutcome, GitError> = Err(add);
    let (h, _) = sync_record(&result, 0, None, 0, "now".to_string());
    assert_eq!(h.error_message.as_deref(), Some("git add failed: "));
}

#[test]
fn status_row_only_when_none_exists() {
    assert!(flowstate::records::needs_status_row(&None));
    assert!(!flowstate::records::needs_status_row(&Some(status_row())));
}
