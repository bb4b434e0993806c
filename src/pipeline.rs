use vstd::prelude::*;

use crate::pool::{with_status, RepoPool};
use crate::repo::{local_record, Backend, RepoKey, RepoRef, Repository};
use crate::status::{IndexState, SyncStatus};

verus! {

/// Why one repository's pipeline failed.
#[derive(Clone, Debug, PartialEq, Eq)]
pub enum PipelineError {
    /// No credentials for the backend, and the repository is not local.
    NoKeys { backend: Backend },
    /// A local repository outside every authorized root.
    PathNotAuthorized,
    /// The store has no record of the repository.
    UnknownRepository,
    /// The remote sync failed for a reason other than a missing remote.
    Sync { message: String },
    /// The index collaborator failed; the record keeps the cause.
    Index { message: String },
    /// Committing the write handles or saving the store failed.
    Persistence { message: String },
    /// A step of destructive cleanup failed.
    Cleanup { message: String },
    /// The pipeline's task ended without an outcome.
    Aborted { message: String },
}

impl PipelineError {
    /// A copy of this error.
    pub fn duplicate(&self) -> (r: Self)
        ensures
            r == *self,
    {
        match self {
            PipelineError::NoKeys { backend } => PipelineError::NoKeys { backend: *backend },
            PipelineError::PathNotAuthorized => PipelineError::PathNotAuthorized,
            PipelineError::UnknownRepository => PipelineError::UnknownRepository,
            PipelineError::Sync { message } => PipelineError::Sync { message: message.clone() },
            PipelineError::Index { message } => PipelineError::Index { message: message.clone() },
            PipelineError::Persistence { message } => PipelineError::Persistence {
                message: message.clone(),
            },
            PipelineError::Cleanup { message } => PipelineError::Cleanup {
                message: message.clone(),
            },
            PipelineError::Aborted { message } => PipelineError::Aborted {
                message: message.clone(),
            },
        }
    }
}

/// What the sync collaborator reported for one repository.
#[derive(Clone, Debug, PartialEq, Eq)]
pub enum SyncOutcome {
    Synced,
    RemoteNotFound,
    Failed { message: String },
}

/// What the sync step asks of its caller.
#[derive(Clone, Copy, Debug, PartialEq, Eq, Structural)]
pub enum SyncStep {
    /// A local repository, registered: nothing to fetch, go on to indexing.
    Local,
    /// Credentials are present: run the remote sync, then report its outcome.
    Remote,
}

/// What the index step asks of its caller.
#[derive(Clone, Copy, Debug, PartialEq, Eq, Structural)]
pub enum IndexPlan {
    /// Nothing to do on this pass.
    Skip,
    /// Run destructive cleanup, commit, then report through `settle_removal`.
    Cleanup,
    /// Build the index, commit and persist, then report through `settle_index`.
    Build,
}

/// The index step's decision for a repository in status `s`.
pub open spec fn plan_for(s: SyncStatus) -> IndexPlan {
    match s {
        SyncStatus::Uninitialized | SyncStatus::Syncing | SyncStatus::Indexing => IndexPlan::Skip,
        SyncStatus::Removed => IndexPlan::Cleanup,
        SyncStatus::RemoteRemoved => IndexPlan::Skip,
        _ => IndexPlan::Build,
    }
}

/// The store after the sync step for a repository without remote work.
pub open spec fn sync_registered(
    pool: Map<RepoKey, Repository>,
    reporef: RepoRef,
    has_credentials: bool,
    path_authorized: bool,
) -> Map<RepoKey, Repository> {
    if !has_credentials && reporef.backend == Backend::Local && path_authorized
        && !pool.contains_key(reporef@) {
        pool.insert(reporef@, local_record(reporef))
    } else {
        pool
    }
}

/// The sync step's answer for `reporef`.
pub open spec fn sync_step_for(reporef: RepoRef, has_credentials: bool, path_authorized: bool) -> Result<
    SyncStep,
    PipelineError,
> {
    if has_credentials {
        Ok(SyncStep::Remote)
    } else if reporef.backend != Backend::Local {
        Err(PipelineError::NoKeys { backend: reporef.backend })
    } else if !path_authorized {
        Err(PipelineError::PathNotAuthorized)
    } else {
        Ok(SyncStep::Local)
    }
}

/// The store after a remote sync reported `outcome`.
pub open spec fn sync_recorded(
    pool: Map<RepoKey, Repository>,
    k: RepoKey,
    outcome: SyncOutcome,
) -> Map<RepoKey, Repository> {
    if outcome is RemoteNotFound && pool.contains_key(k) {
        pool.insert(k, with_status(pool[k], SyncStatus::RemoteRemoved))
    } else {
        pool
    }
}

/// The pipeline's verdict after a remote sync reported `outcome`.
pub open spec fn sync_verdict(
    pool: Map<RepoKey, Repository>,
    k: RepoKey,
    outcome: SyncOutcome,
) -> Result<(), PipelineError> {
    match outcome {
        SyncOutcome::Synced => Ok(()),
        SyncOutcome::RemoteNotFound => if pool.contains_key(k) {
            Ok(())
        } else {
            Err(PipelineError::UnknownRepository)
        },
        SyncOutcome::Failed { message } => Err(PipelineError::Sync { message }),
    }
}

/// The store once the index step has decided on a tracked repository.
pub open spec fn index_begun(pool: Map<RepoKey, Repository>, k: RepoKey) -> Map<
    RepoKey,
    Repository,
> {
    if pool.contains_key(k) && plan_for(pool[k].sync_status) == IndexPlan::Build {
        pool.insert(k, with_status(pool[k], SyncStatus::Indexing))
    } else {
        pool
    }
}

/// The store once a removal pass has reported whether cleanup and commit succeeded.
pub open spec fn removal_settled(pool: Map<RepoKey, Repository>, k: RepoKey, cleaned: bool) -> Map<
    RepoKey,
    Repository,
> {
    if cleaned {
        pool.remove(k)
    } else {
        pool
    }
}

/// The status an index build leaves behind.
pub open spec fn status_after_index(indexed: Result<IndexState, String>) -> SyncStatus {
    match indexed {
        Ok(state) => SyncStatus::Done(state),
        Err(message) => SyncStatus::Error { message },
    }
}

/// The store once a build pass has reported the build and whether it was persisted.
pub open spec fn index_settled(
    pool: Map<RepoKey, Repository>,
    k: RepoKey,
    indexed: Result<IndexState, String>,
    persisted: bool,
) -> Map<RepoKey, Repository> {
    if persisted && pool.contains_key(k) {
        pool.insert(k, with_status(pool[k], status_after_index(indexed)))
    } else {
        pool
    }
}

/// `i` is the first failed outcome of `s`.
pub open spec fn first_failure_at(s: Seq<Result<(), PipelineError>>, i: int) -> bool {
    &&& 0 <= i < s.len()
    &&& s[i] is Err
    &&& forall|j: int| 0 <= j < i ==> s[j] is Ok
}

/// Outcome of a batch from its pipelines' outcomes in order of completion:
/// the first failure, or success when every pipeline succeeded.
pub fn aggregate(outcomes: &Vec<Result<(), PipelineError>>) -> (r: Result<(), PipelineError>)
    ensures
        r is Ok <==> forall|i: int| 0 <= i < outcomes.len() ==> outcomes@[i] is Ok,
        r is Err ==> exists|i: int| first_failure_at(outcomes@, i) && r == outcomes@[i],
{
    let mut i: usize = 0;
    while i < outcomes.len()
        invariant
            i <= outcomes.len(),
            forall|j: int| 0 <= j < i ==> outcomes@[j] is Ok,
        decreases outcomes.len() - i,
    {
        if let Err(e) = &outcomes[i] {
            assert(first_failure_at(outcomes@, i as int));
            return Err(e.duplicate());
        }
        i = i + 1;
    }
    Ok(())
}

/// The sync-and-index orchestrator over the state store.
pub struct IndexWriter {
    pub pool: RepoPool,
}

impl IndexWriter {
    pub open spec fn wf(&self) -> bool {
        self.pool.wf()
    }

    pub fn new(pool: RepoPool) -> (r: Self)
        ensures
            r.pool == pool,
    {
        IndexWriter { pool }
    }

    /// Sync step, up to the remote call. With credentials the caller must run
    /// the remote sync; without, a local repository under an authorized root is
    /// registered (if it is new) and never fetched, and anything else fails.
    pub fn sync_repo(&mut self, reporef: &RepoRef, has_credentials: bool, path_authorized: bool) -> (r:
        Result<SyncStep, PipelineError>)
        requires
            old(self).wf(),
        ensures
            final(self).wf(),
            final(self).pool@ == sync_registered(
                old(self).pool@,
                *reporef,
                has_credentials,
                path_authorized,
            ),
            r == sync_step_for(*reporef, has_credentials, path_authorized),
    {
        if has_credentials {
            return Ok(SyncStep::Remote);
        }
        if reporef.local_path().is_none() {
            return Err(PipelineError::NoKeys { backend: reporef.backend });
        }
        if !path_authorized {
            return Err(PipelineError::PathNotAuthorized);
        }
        let repo = Repository::local_from(reporef);
        self.pool.insert_if_absent(reporef.duplicate(), repo);
        Ok(SyncStep::Local)
    }

    /// Records what the remote sync reported. A missing remote marks the
    /// repository `RemoteRemoved` and counts as success; any other failure
    /// leaves the store as it was and fails the pipeline.
    pub fn record_sync(&mut self, reporef: &RepoRef, outcome: SyncOutcome) -> (r: Result<
        (),
        PipelineError,
    >)
        requires
            old(self).wf(),
        ensures
            final(self).wf(),
            final(self).pool@ == sync_recorded(old(self).pool@, reporef@, outcome),
            r == sync_verdict(old(self).pool@, reporef@, outcome),
    {
        match outcome {
            SyncOutcome::Synced => Ok(()),
            SyncOutcome::RemoteNotFound => {
                if !self.pool.contains(reporef) {
                    return Err(PipelineError::UnknownRepository);
                }
                self.pool.set_status(reporef, SyncStatus::RemoteRemoved);
                Ok(())
            },
            SyncOutcome::Failed { message } => Err(PipelineError::Sync { message }),
        }
    }

    /// Index step: decides from the current status what this pass does, and
    /// marks an actionable repository `Indexing`.
    pub fn begin_index(&mut self, reporef: &RepoRef) -> (r: Result<IndexPlan, PipelineError>)
        requires
            old(self).wf(),
        ensures
            final(self).wf(),
            final(self).pool@ == index_begun(old(self).pool@, reporef@),
            r == (if old(self).pool@.contains_key(reporef@) {
                Ok::<IndexPlan, PipelineError>(plan_for(old(self).pool@[reporef@].sync_status))
            } else {
                Err::<IndexPlan, PipelineError>(PipelineError::UnknownRepository)
            }),
    {
        let plan = match self.pool.get(reporef) {
            None => {
                return Err(PipelineError::UnknownRepository);
            },
            Some(repo) => if repo.sync_status.unsettled() {
                IndexPlan::Skip
            } else {
                match &repo.sync_status {
                    SyncStatus::Removed => IndexPlan::Cleanup,
                    SyncStatus::RemoteRemoved => IndexPlan::Skip,
                    _ => IndexPlan::Build,
                }
            },
        };
        if plan == IndexPlan::Build {
            self.pool.set_status(reporef, SyncStatus::Indexing);
        }
        Ok(plan)
    }

    /// Ends a removal pass. `cleaned` is the outcome of cleanup followed by the
    /// commit of the write handles; only when both succeeded is the record evicted.
    pub fn settle_removal(&mut self, reporef: &RepoRef, cleaned: Result<(), PipelineError>) -> (r:
        Result<(), PipelineError>)
        requires
            old(self).wf(),
        ensures
            final(self).wf(),
            final(self).pool@ == removal_settled(old(self).pool@, reporef@, cleaned is Ok),
            r == cleaned,
    {
        if cleaned.is_ok() {
            self.pool.remove(reporef);
        }
        cleaned
    }

    /// Ends a build pass. `persisted` is the outcome of committing the write
    /// handles and then saving the store; the record only moves to `Done` or
    /// `Error` once both succeeded.
    pub fn settle_index(
        &mut self,
        reporef: &RepoRef,
        indexed: Result<IndexState, String>,
        persisted: Result<(), String>,
    ) -> (r: Result<(), PipelineError>)
        requires
            old(self).wf(),
        ensures
            final(self).wf(),
            final(self).pool@ == index_settled(
                old(self).pool@,
                reporef@,
                indexed,
                persisted is Ok,
            ),
            r == (match persisted {
                Err(message) => Err(PipelineError::Persistence { message }),
                Ok(()) => if !old(self).pool@.contains_key(reporef@) {
                    Err(PipelineError::UnknownRepository)
                } else {
                    match indexed {
                        Ok(_) => Ok(()),
                        Err(message) => Err(PipelineError::Index { message }),
                    }
                },
            }),
    {
        if let Err(message) = persisted {
            return Err(PipelineError::Persistence { message });
        }
        if !self.pool.contains(reporef) {
            return Err(PipelineError::UnknownRepository);
        }
        match indexed {
            Ok(state) => {
                self.pool.set_status(reporef, SyncStatus::Done(state));
                Ok(())
            },
            Err(message) => {
                let cause = message.clone();
                self.pool.set_status(reporef, SyncStatus::Error { message });
                Err(PipelineError::Index { message: cause })
            },
        }
    }

    /// The keys a full re-scan processes: every repository tracked now.
    pub fn startup_scan(&self) -> (r: Vec<RepoRef>)
        requires
            self.wf(),
        ensures
            crate::pool::distinct_keys(r@),
            forall|i: int| 0 <= i < r.len() ==> self.pool@.contains_key(#[trigger] r@[i]@),
            forall|k: RepoKey| #[trigger]
                self.pool@.contains_key(k) ==> crate::pool::has_key(r@, k),
    {
        self.pool.keys()
    }
}

} // verus!
