use vstd::prelude::*;

use crate::status::{IndexState, SyncStatus};

verus! {

/// Where a repository comes from.
#[derive(Clone, Copy, Debug, PartialEq, Eq, Structural)]
pub enum Backend {
    Local,
    Github,
}

/// Identifier of a repository: a backend and a name, which for a local
/// repository is its canonical path on disk.
#[derive(Clone, Debug, PartialEq, Eq)]
pub struct RepoRef {
    pub backend: Backend,
    pub name: String,
}

/// Mathematical identity of a repository reference.
pub type RepoKey = (Backend, Seq<char>);

impl View for RepoRef {
    type V = RepoKey;

    open spec fn view(&self) -> RepoKey {
        (self.backend, self.name@)
    }
}

impl RepoRef {
    pub fn new(backend: Backend, name: String) -> (r: Self)
        ensures
            r.backend == backend,
            r.name == name,
    {
        RepoRef { backend, name }
    }

    pub fn is_local(&self) -> (r: bool)
        ensures
            r == (self.backend == Backend::Local),
    {
        self.backend == Backend::Local
    }

    /// The path on disk of a local repository, if this is one.
    pub fn local_path(&self) -> (r: Option<&String>)
        ensures
            r == (if self.backend == Backend::Local {
                Some(&self.name)
            } else {
                None
            }),
    {
        if self.is_local() {
            Some(&self.name)
        } else {
            None
        }
    }

    /// A copy with the same identity.
    pub fn duplicate(&self) -> (r: Self)
        ensures
            r@ == self@,
            r == *self,
    {
        RepoRef { backend: self.backend, name: self.name.clone() }
    }

    pub fn same(&self, other: &RepoRef) -> (r: bool)
        ensures
            r == (self@ == other@),
    {
        self.backend == other.backend && self.name == other.name
    }
}

/// Record of one tracked repository.
#[derive(Clone, Debug, PartialEq, Eq)]
pub struct Repository {
    pub sync_status: SyncStatus,
    pub disk_path: String,
    pub local: bool,
}

/// The record a local repository is registered with when first seen.
pub open spec fn local_record(reporef: RepoRef) -> Repository {
    Repository { sync_status: SyncStatus::Uninitialized, disk_path: reporef.name, local: true }
}

impl Repository {
    /// Record for a local repository, whose working tree is its own path.
    pub fn local_from(reporef: &RepoRef) -> (r: Self)
        ensures
            r == local_record(*reporef),
    {
        Repository {
            sync_status: SyncStatus::Uninitialized,
            disk_path: reporef.name.clone(),
            local: true,
        }
    }

    /// A copy of this record.
    pub fn snapshot(&self) -> (r: Self)
        ensures
            r == *self,
    {
        let sync_status = match &self.sync_status {
            SyncStatus::Uninitialized => SyncStatus::Uninitialized,
            SyncStatus::Syncing => SyncStatus::Syncing,
            SyncStatus::Indexing => SyncStatus::Indexing,
            SyncStatus::Done(state) => SyncStatus::Done(IndexState { hash: state.hash.clone() }),
            SyncStatus::Error { message } => SyncStatus::Error { message: message.clone() },
            SyncStatus::Removed => SyncStatus::Removed,
            SyncStatus::RemoteRemoved => SyncStatus::RemoteRemoved,
        };
        Repository { sync_status, disk_path: self.disk_path.clone(), local: self.local }
    }
}

} // verus!
