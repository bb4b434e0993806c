use vstd::prelude::*;

use crate::pipeline::{
    index_begun, index_settled, plan_for, removal_settled, sync_recorded, sync_registered,
    sync_step_for, sync_verdict, IndexPlan, PipelineError, SyncOutcome, SyncStep,
};
use crate::repo::{local_record, Backend, RepoKey, RepoRef, Repository};
use crate::status::{IndexState, SyncStatus};

verus! {

/// The store after `n` index steps on the same repository, none of which
/// went on to settle a build.
pub open spec fn index_passes(pool: Map<RepoKey, Repository>, k: RepoKey, n: nat) -> Map<
    RepoKey,
    Repository,
>
    decreases n,
{
    if n == 0 {
        pool
    } else {
        index_begun(index_passes(pool, k, (n - 1) as nat), k)
    }
}

/// A repository that is `Uninitialized`, `Syncing` or `Indexing` is skipped by
/// the index step: nothing is built, committed or cleaned, and the store,
/// its status included, is left as it was.
pub proof fn lemma_unsettled_index_is_noop(pool: Map<RepoKey, Repository>, k: RepoKey)
    requires
        pool.contains_key(k),
        pool[k].sync_status.is_unsettled(),
    ensures
        plan_for(pool[k].sync_status) == IndexPlan::Skip,
        index_begun(pool, k) == pool,
{
}

/// A `Removed` repository is handed to cleanup. When cleanup and commit
/// succeed the pass evicts it from the store; when they fail the record stays,
/// still `Removed`.
pub proof fn lemma_removed_pass(pool: Map<RepoKey, Repository>, k: RepoKey, cleaned: bool)
    requires
        pool.contains_key(k),
        pool[k].sync_status is Removed,
    ensures
        plan_for(pool[k].sync_status) == IndexPlan::Cleanup,
        index_begun(pool, k) == pool,
        cleaned ==> !removal_settled(index_begun(pool, k), k, cleaned).contains_key(k),
        !cleaned ==> removal_settled(index_begun(pool, k), k, cleaned) == pool,
        !cleaned ==> removal_settled(index_begun(pool, k), k, cleaned)[k].sync_status is Removed,
{
}

/// However many index steps run, a `RemoteRemoved` repository is neither
/// changed nor evicted.
pub proof fn lemma_remote_removed_untouched(pool: Map<RepoKey, Repository>, k: RepoKey, n: nat)
    requires
        pool.contains_key(k),
        pool[k].sync_status is RemoteRemoved,
    ensures
        plan_for(pool[k].sync_status) == IndexPlan::Skip,
        index_passes(pool, k, n) == pool,
    decreases n,
{
    if n > 0 {
        lemma_remote_removed_untouched(pool, k, (n - 1) as nat);
    }
}

/// A missing remote marks a tracked repository `RemoteRemoved`, never `Error`,
/// and the pipeline succeeds: the sync step reports success and the index
/// step that follows leaves the record alone.
pub proof fn lemma_remote_not_found(pool: Map<RepoKey, Repository>, k: RepoKey)
    requires
        pool.contains_key(k),
    ensures
        sync_verdict(pool, k, SyncOutcome::RemoteNotFound) is Ok,
        sync_recorded(pool, k, SyncOutcome::RemoteNotFound)[k].sync_status is RemoteRemoved,
        plan_for(sync_recorded(pool, k, SyncOutcome::RemoteNotFound)[k].sync_status)
            == IndexPlan::Skip,
        index_begun(sync_recorded(pool, k, SyncOutcome::RemoteNotFound), k) == sync_recorded(
            pool,
            k,
            SyncOutcome::RemoteNotFound,
        ),
{
}

/// Any other sync failure fails the pipeline with that failure and leaves
/// the store, every status included, as it was.
pub proof fn lemma_sync_failure_keeps_store(
    pool: Map<RepoKey, Repository>,
    k: RepoKey,
    message: String,
)
    ensures
        sync_recorded(pool, k, SyncOutcome::Failed { message }) == pool,
        sync_verdict(pool, k, SyncOutcome::Failed { message }) == Err::<(), PipelineError>(
            PipelineError::Sync { message },
        ),
{
}

/// A build pass ends in `Done` exactly when the build succeeded and its
/// commit and save both went through; if persisting fails the record stays
/// `Indexing`, with nothing of the build reflected in it.
pub proof fn lemma_done_only_after_persist(
    pool: Map<RepoKey, Repository>,
    k: RepoKey,
    indexed: Result<IndexState, String>,
    persisted: bool,
)
    requires
        pool.contains_key(k),
        plan_for(pool[k].sync_status) == IndexPlan::Build,
    ensures
        index_begun(pool, k)[k].sync_status is Indexing,
        index_settled(index_begun(pool, k), k, indexed, persisted)[k].sync_status is Done
            <==> persisted && indexed is Ok,
        persisted && indexed is Ok ==> index_settled(
            index_begun(pool, k),
            k,
            indexed,
            persisted,
        )[k].sync_status == SyncStatus::Done(indexed->Ok_0),
        !persisted ==> index_settled(index_begun(pool, k), k, indexed, persisted) == index_begun(
            pool,
            k,
        ),
{
}

/// A local repository under an authorized root and without credentials is
/// registered in the store, keeps its record if it was known, and is never
/// sent to a remote sync.
pub proof fn lemma_local_registration(pool: Map<RepoKey, Repository>, reporef: RepoRef)
    requires
        reporef.backend == Backend::Local,
    ensures
        sync_step_for(reporef, false, true) == Ok::<SyncStep, PipelineError>(SyncStep::Local),
        sync_registered(pool, reporef, false, true).contains_key(reporef@),
        !pool.contains_key(reporef@) ==> sync_registered(pool, reporef, false, true)[reporef@]
            == local_record(reporef),
        !pool.contains_key(reporef@) ==> sync_registered(pool, reporef, false, true)[reporef@].local,
        pool.contains_key(reporef@) ==> sync_registered(pool, reporef, false, true) == pool,
{
}

} // verus!
