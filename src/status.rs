use vstd::prelude::*;

verus! {

/// Opaque result of a successful index build, stored verbatim in `Done`.
#[derive(Clone, Debug, PartialEq, Eq)]
pub struct IndexState {
    pub hash: String,
}

/// Lifecycle of a tracked repository.
#[derive(Clone, Debug, PartialEq, Eq)]
pub enum SyncStatus {
    Uninitialized,
    Syncing,
    Indexing,
    Done(IndexState),
    Error { message: String },
    Removed,
    RemoteRemoved,
}

impl SyncStatus {
    /// States that the index step leaves alone: another pass owns the
    /// repository, or it is not ready yet.
    pub open spec fn is_unsettled(&self) -> bool {
        ||| self is Uninitialized
        ||| self is Syncing
        ||| self is Indexing
    }

    pub fn unsettled(&self) -> (r: bool)
        ensures
            r == self.is_unsettled(),
    {
        match self {
            SyncStatus::Uninitialized | SyncStatus::Syncing | SyncStatus::Indexing => true,
            _ => false,
        }
    }
}

} // verus!
