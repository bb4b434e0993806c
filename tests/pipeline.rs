use bleep_background::pipeline::{
    aggregate, IndexPlan, IndexWriter, PipelineError, SyncOutcome, SyncStep,
};
use bleep_background::pool::RepoPool;
use bleep_background::repo::{Backend, RepoRef, Repository};
use bleep_background::status::{IndexState, SyncStatus};

fn github(name: &str) -> RepoRef {
    RepoRef::new(Backend::Github, name.to_string())
}

fn local(path: &str) -> RepoRef {
    RepoRef::new(Backend::Local, path.to_string())
}

fn record(status: SyncStatus) -> Repository {
    Repository { sync_status: status, disk_path: "/repos/x".to_string(), local: false }
}

fn writer_with(reporef: &RepoRef, status: SyncStatus) -> IndexWriter {
    let mut pool = RepoPool::new();
    pool.insert_if_absent(reporef.duplicate(), record(status));
    IndexWriter::new(pool)
}

fn status_of(writer: &IndexWriter, reporef: &RepoRef) -> SyncStatus {
    writer.pool.get(reporef).expect("tracked").sync_status.clone()
}

fn done(hash: &str) -> SyncStatus {
    SyncStatus::Done(IndexState { hash: hash.to_string() })
}

#[test]
fn unsettled_statuses_are_skipped_without_change() {
    for status in [SyncStatus::Uninitialized, SyncStatus::Syncing, SyncStatus::Indexing] {
        let r = github("org/a");
        let mut w = writer_with(&r, status.clone());
        assert_eq!(w.begin_index(&r), Ok(IndexPlan::Skip));
        assert_eq!(status_of(&w, &r), status);
    }
}

#[test]
fn removed_repository_is_evicted_after_cleanup() {
    let r = github("org/gone");
    let other = github("org/kept");
    let mut w = writer_with(&r, SyncStatus::Removed);
    w.pool.insert_if_absent(other.duplicate(), record(done("h")));
    assert_eq!(w.begin_index(&r), Ok(IndexPlan::Cleanup));
    assert_eq!(w.settle_removal(&r, Ok(())), Ok(()));
    assert!(!w.pool.contains(&r));
    assert_eq!(status_of(&w, &other), done("h"));
}

#[test]
fn failed_cleanup_keeps_removed_record() {
    let r = github("org/gone");
    let mut w = writer_with(&r, SyncStatus::Removed);
    assert_eq!(w.begin_index(&r), Ok(IndexPlan::Cleanup));
    let err = PipelineError::Cleanup { message: "disk busy".to_string() };
    assert_eq!(w.settle_removal(&r, Err(err.clone())), Err(err));
    assert_eq!(status_of(&w, &r), SyncStatus::Removed);
}

#[test]
fn failed_commit_after_cleanup_keeps_removed_record() {
    let r = github("org/gone");
    let mut w = writer_with(&r, SyncStatus::Removed);
    let err = PipelineError::Persistence { message: "commit".to_string() };
    assert_eq!(w.settle_removal(&r, Err(err.clone())), Err(err));
    assert_eq!(status_of(&w, &r), SyncStatus::Removed);
}

#[test]
fn remote_removed_is_never_touched() {
    let r = github("org/vanished");
    let mut w = writer_with(&r, SyncStatus::RemoteRemoved);
    for _ in 0..5 {
        assert_eq!(w.begin_index(&r), Ok(IndexPlan::Skip));
        assert_eq!(status_of(&w, &r), SyncStatus::RemoteRemoved);
    }
}

#[test]
fn remote_not_found_marks_remote_removed_and_succeeds() {
    let r = github("org/vanished");
    let mut w = writer_with(&r, done("old"));
    assert_eq!(w.sync_repo(&r, true, false), Ok(SyncStep::Remote));
    assert_eq!(w.record_sync(&r, SyncOutcome::RemoteNotFound), Ok(()));
    assert_eq!(status_of(&w, &r), SyncStatus::RemoteRemoved);
    assert_eq!(w.begin_index(&r), Ok(IndexPlan::Skip));
    assert_eq!(status_of(&w, &r), SyncStatus::RemoteRemoved);
}

#[test]
fn remote_not_found_for_untracked_repository_fails() {
    let r = github("org/never");
    let mut w = IndexWriter::new(RepoPool::new());
    assert_eq!(
        w.record_sync(&r, SyncOutcome::RemoteNotFound),
        Err(PipelineError::UnknownRepository)
    );
    assert!(!w.pool.contains(&r));
}

#[test]
fn other_sync_failure_keeps_status() {
    let r = github("org/flaky");
    let before = SyncStatus::Error { message: "earlier".to_string() };
    let mut w = writer_with(&r, before.clone());
    let got = w.record_sync(&r, SyncOutcome::Failed { message: "timeout".to_string() });
    assert_eq!(got, Err(PipelineError::Sync { message: "timeout".to_string() }));
    assert_eq!(status_of(&w, &r), before);
}

#[test]
fn successful_sync_changes_nothing() {
    let r = github("org/a");
    let mut w = writer_with(&r, done("h1"));
    assert_eq!(w.record_sync(&r, SyncOutcome::Synced), Ok(()));
    assert_eq!(status_of(&w, &r), done("h1"));
}

#[test]
fn build_pass_ends_in_done_after_persisting() {
    let r = github("org/a");
    let mut w = writer_with(&r, done("h1"));
    assert_eq!(w.begin_index(&r), Ok(IndexPlan::Build));
    assert_eq!(status_of(&w, &r), SyncStatus::Indexing);
    let state = IndexState { hash: "h2".to_string() };
    assert_eq!(w.settle_index(&r, Ok(state), Ok(())), Ok(()));
    assert_eq!(status_of(&w, &r), done("h2"));
}

#[test]
fn failed_build_records_error_status() {
    let r = github("org/a");
    let mut w = writer_with(&r, SyncStatus::Error { message: "old".to_string() });
    assert_eq!(w.begin_index(&r), Ok(IndexPlan::Build));
    let got = w.settle_index(&r, Err("parse failure".to_string()), Ok(()));
    assert_eq!(got, Err(PipelineError::Index { message: "parse failure".to_string() }));
    assert_eq!(
        status_of(&w, &r),
        SyncStatus::Error { message: "parse failure".to_string() }
    );
}

#[test]
fn persistence_fault_leaves_status_indexing() {
    let r = github("org/a");
    let mut w = writer_with(&r, done("h1"));
    assert_eq!(w.begin_index(&r), Ok(IndexPlan::Build));
    let state = IndexState { hash: "h2".to_string() };
    let got = w.settle_index(&r, Ok(state), Err("save failed".to_string()));
    assert_eq!(got, Err(PipelineError::Persistence { message: "save failed".to_string() }));
    assert_eq!(status_of(&w, &r), SyncStatus::Indexing);
}

#[test]
fn index_step_on_untracked_repository_fails() {
    let r = github("org/none");
    let mut w = IndexWriter::new(RepoPool::new());
    assert_eq!(w.begin_index(&r), Err(PipelineError::UnknownRepository));
    let state = IndexState { hash: "h".to_string() };
    assert_eq!(w.settle_index(&r, Ok(state), Ok(())), Err(PipelineError::UnknownRepository));
}

#[test]
fn batch_fails_with_second_repository_error() {
    let second = PipelineError::Sync { message: "second".to_string() };
    let outcomes = vec![Ok(()), Err(second.clone()), Ok(())];
    assert_eq!(aggregate(&outcomes), Err(second));
}

#[test]
fn batch_reports_first_failure_in_completion_order() {
    let first = PipelineError::PathNotAuthorized;
    let later = PipelineError::Index { message: "late".to_string() };
    let outcomes = vec![Ok(()), Err(first.clone()), Err(later)];
    assert_eq!(aggregate(&outcomes), Err(first));
}

#[test]
fn batch_of_successes_succeeds() {
    assert_eq!(aggregate(&vec![Ok(()), Ok(()), Ok(())]), Ok(()));
    assert_eq!(aggregate(&Vec::new()), Ok(()));
}

#[test]
fn authorized_local_repository_is_registered_without_fetch() {
    let r = local("/home/me/code");
    let mut w = IndexWriter::new(RepoPool::new());
    assert_eq!(w.sync_repo(&r, false, true), Ok(SyncStep::Local));
    let repo = w.pool.get(&r).expect("registered").clone();
    assert_eq!(repo, Repository::local_from(&r));
    assert!(repo.local);
    assert_eq!(repo.disk_path, "/home/me/code");
    assert_eq!(repo.sync_status, SyncStatus::Uninitialized);
}

#[test]
fn local_registration_is_idempotent() {
    let r = local("/home/me/code");
    let mut w = writer_with(&r, done("h"));
    assert_eq!(w.sync_repo(&r, false, true), Ok(SyncStep::Local));
    assert_eq!(status_of(&w, &r), done("h"));
    assert_eq!(w.startup_scan().len(), 1);
}

#[test]
fn unauthorized_local_path_is_refused() {
    let r = local("/etc");
    let mut w = IndexWriter::new(RepoPool::new());
    assert_eq!(w.sync_repo(&r, false, false), Err(PipelineError::PathNotAuthorized));
    assert!(!w.pool.contains(&r));
}

#[test]
fn remote_without_keys_is_refused() {
    let r = github("org/a");
    let mut w = IndexWriter::new(RepoPool::new());
    assert_eq!(
        w.sync_repo(&r, false, true),
        Err(PipelineError::NoKeys { backend: Backend::Github })
    );
    assert!(!w.pool.contains(&r));
}

#[test]
fn startup_scan_lists_every_tracked_key() {
    let a = github("org/a");
    let b = local("/src/b");
    let mut w = writer_with(&a, done("h"));
    w.pool.insert_if_absent(b.duplicate(), Repository::local_from(&b));
    let keys = w.startup_scan();
    assert_eq!(keys.len(), 2);
    assert!(keys.iter().any(|k| k.same(&a)));
    assert!(keys.iter().any(|k| k.same(&b)));
}

#[test]
fn pool_set_status_and_remove() {
    let a = github("org/a");
    let b = github("org/b");
    let mut pool = RepoPool::new();
    pool.insert_if_absent(a.duplicate(), record(SyncStatus::Uninitialized));
    pool.insert_if_absent(b.duplicate(), record(SyncStatus::Syncing));
    pool.insert_if_absent(a.duplicate(), record(SyncStatus::Removed));
    pool.set_status(&b, SyncStatus::Removed);
    assert_eq!(pool.get(&a).unwrap().sync_status, SyncStatus::Uninitialized);
    assert_eq!(pool.get(&b).unwrap().sync_status, SyncStatus::Removed);
    pool.remove(&a);
    assert!(!pool.contains(&a));
    assert!(pool.contains(&b));
    assert!(!pool.contains(&local("org/b")));
}

#[test]
fn snapshots_copy_records_and_errors() {
    let repo = record(SyncStatus::Error { message: "m".to_string() });
    assert_eq!(repo.snapshot(), repo);
    let err = PipelineError::Cleanup { message: "c".to_string() };
    assert_eq!(err.duplicate(), err);
    assert!(SyncStatus::Indexing.unsettled());
    assert!(!done("h").unsettled());
    assert_eq!(local("/p").local_path(), Some(&"/p".to_string()));
    assert_eq!(github("o/p").local_path(), None);
}
