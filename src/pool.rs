use vstd::prelude::*;

use crate::repo::{RepoKey, RepoRef, Repository};
use crate::status::SyncStatus;

verus! {

/// No two references in `keys` denote the same repository.
pub open spec fn distinct_keys(keys: Seq<RepoRef>) -> bool {
    forall|i: int, j: int|
        0 <= i < keys.len() && 0 <= j < keys.len() && i != j ==> keys[i]@ != keys[j]@
}

pub open spec fn has_key(keys: Seq<RepoRef>, k: RepoKey) -> bool {
    exists|i: int| 0 <= i < keys.len() && keys[i]@ == k
}

/// The mapping that parallel sequences of keys and records stand for.
pub open spec fn map_of(keys: Seq<RepoRef>, records: Seq<Repository>) -> Map<RepoKey, Repository> {
    Map::new(
        |k: RepoKey| has_key(keys, k),
        |k: RepoKey| records[choose|i: int| 0 <= i < keys.len() && keys[i]@ == k],
    )
}

pub proof fn lemma_map_of_at(keys: Seq<RepoRef>, records: Seq<Repository>, i: int)
    requires
        distinct_keys(keys),
        0 <= i < keys.len(),
    ensures
        map_of(keys, records).contains_key(keys[i]@),
        map_of(keys, records)[keys[i]@] == records[i],
{
    let k = keys[i]@;
    assert(has_key(keys, k));
    let j = choose|j: int| 0 <= j < keys.len() && keys[j]@ == k;
    assert(j == i);
}

/// The state store: every tracked repository's record, keyed by reference.
pub struct RepoPool {
    keys: Vec<RepoRef>,
    records: Vec<Repository>,
}

/// A record with only its status changed.
pub open spec fn with_status(repo: Repository, status: SyncStatus) -> Repository {
    Repository { sync_status: status, ..repo }
}

impl View for RepoPool {
    type V = Map<RepoKey, Repository>;

    closed spec fn view(&self) -> Map<RepoKey, Repository> {
        map_of(self.keys@, self.records@)
    }
}

impl RepoPool {
    pub closed spec fn wf(&self) -> bool {
        &&& self.keys.len() == self.records.len()
        &&& distinct_keys(self.keys@)
    }

    pub fn new() -> (r: Self)
        ensures
            r.wf(),
            r@ == Map::<RepoKey, Repository>::empty(),
    {
        let r = RepoPool { keys: Vec::new(), records: Vec::new() };
        assert(r@ =~= Map::<RepoKey, Repository>::empty());
        r
    }

    fn find(&self, reporef: &RepoRef) -> (r: Option<usize>)
        requires
            self.wf(),
        ensures
            match r {
                Some(i) => i < self.keys.len() && self.keys@[i as int]@ == reporef@,
                None => !self@.contains_key(reporef@),
            },
    {
        let mut i: usize = 0;
        while i < self.keys.len()
            invariant
                i <= self.keys.len(),
                forall|j: int| 0 <= j < i ==> self.keys@[j]@ != reporef@,
            decreases self.keys.len() - i,
        {
            if self.keys[i].same(reporef) {
                return Some(i);
            }
            i = i + 1;
        }
        None
    }

    pub fn contains(&self, reporef: &RepoRef) -> (r: bool)
        requires
            self.wf(),
        ensures
            r == self@.contains_key(reporef@),
    {
        match self.find(reporef) {
            Some(i) => {
                proof {
                    lemma_map_of_at(self.keys@, self.records@, i as int);
                }
                true
            },
            None => false,
        }
    }

    /// The record of `reporef`, if it is tracked.
    pub fn get(&self, reporef: &RepoRef) -> (r: Option<&Repository>)
        requires
            self.wf(),
        ensures
            match r {
                Some(repo) => self@.contains_key(reporef@) && *repo == self@[reporef@],
                None => !self@.contains_key(reporef@),
            },
    {
        match self.find(reporef) {
            Some(i) => {
                proof {
                    lemma_map_of_at(self.keys@, self.records@, i as int);
                }
                Some(&self.records[i])
            },
            None => None,
        }
    }

    /// Sets the status of a tracked repository, leaving the rest alone.
    pub fn set_status(&mut self, reporef: &RepoRef, status: SyncStatus)
        requires
            old(self).wf(),
            old(self)@.contains_key(reporef@),
        ensures
            final(self).wf(),
            final(self)@ == old(self)@.insert(
                reporef@,
                with_status(old(self)@[reporef@], status),
            ),
    {
        let i = match self.find(reporef) {
            Some(i) => i,
            None => {
                return;
            },
        };
        proof {
            lemma_map_of_at(self.keys@, self.records@, i as int);
        }
        let ghost before = self@;
        let repo = Repository {
            sync_status: status,
            disk_path: self.records[i].disk_path.clone(),
            local: self.records[i].local,
        };
        self.records.set(i, repo);
        proof {
            lemma_map_of_at(self.keys@, self.records@, i as int);
            assert forall|k: RepoKey| #[trigger] self@.contains_key(k) && k != reporef@ implies
                self@[k] == before[k] by {
                let j = choose|j: int| 0 <= j < self.keys@.len() && self.keys@[j]@ == k;
                lemma_map_of_at(self.keys@, self.records@, j);
            }
            assert(self@ =~= before.insert(reporef@, with_status(before[reporef@], status)));
        }
    }

    /// Registers `repo` under `reporef` unless that key is tracked already.
    pub fn insert_if_absent(&mut self, reporef: RepoRef, repo: Repository)
        requires
            old(self).wf(),
        ensures
            final(self).wf(),
            final(self)@ == (if old(self)@.contains_key(reporef@) {
                old(self)@
            } else {
                old(self)@.insert(reporef@, repo)
            }),
    {
        if self.contains(&reporef) {
            return;
        }
        let ghost before = self@;
        let ghost k = reporef@;
        let ghost n = self.keys.len() as int;
        self.keys.push(reporef);
        self.records.push(repo);
        proof {
            assert(distinct_keys(self.keys@)) by {
                assert forall|i: int| 0 <= i < n implies #[trigger] self.keys@[i]@ != k by {
                    if self.keys@[i]@ == k {
                        assert(has_key(old(self).keys@, k));
                    }
                }
            }
            lemma_map_of_at(self.keys@, self.records@, n);
            assert forall|kk: RepoKey| kk != k implies
                (#[trigger] self@.contains_key(kk) == before.contains_key(kk)) by {
                if has_key(self.keys@, kk) {
                    let j = choose|j: int| 0 <= j < self.keys@.len() && self.keys@[j]@ == kk;
                    assert(old(self).keys@[j]@ == kk);
                }
                if has_key(old(self).keys@, kk) {
                    let j = choose|j: int| 0 <= j < n && old(self).keys@[j]@ == kk;
                    assert(self.keys@[j]@ == kk);
                }
            }
            assert forall|kk: RepoKey| #[trigger] self@.contains_key(kk) && kk != k implies
                self@[kk] == before[kk] by {
                let j = choose|j: int| 0 <= j < self.keys@.len() && self.keys@[j]@ == kk;
                lemma_map_of_at(self.keys@, self.records@, j);
                lemma_map_of_at(old(self).keys@, old(self).records@, j);
            }
            assert(self@ =~= before.insert(k, repo));
        }
    }

    /// Stops tracking `reporef`.
    pub fn remove(&mut self, reporef: &RepoRef)
        requires
            old(self).wf(),
        ensures
            final(self).wf(),
            final(self)@ == old(self)@.remove(reporef@),
    {
        let i = match self.find(reporef) {
            Some(i) => i,
            None => {
                proof {
                    assert(self@ =~= self@.remove(reporef@));
                }
                return;
            },
        };
        let ghost before = self@;
        let ghost ok = old(self).keys@;
        let ghost orec = old(self).records@;
        let ghost k = reporef@;
        self.keys.remove(i);
        self.records.remove(i);
        proof {
            let nk = self.keys@;
            assert forall|j: int| 0 <= j < nk.len() implies #[trigger] nk[j] == ok[if j < i {
                j
            } else {
                j + 1
            }] && self.records@[j] == orec[if j < i {
                j
            } else {
                j + 1
            }] && nk[j]@ != k by {}
            assert(distinct_keys(nk)) by {
                assert forall|a: int, b: int|
                    0 <= a < nk.len() && 0 <= b < nk.len() && a != b implies nk[a]@
                    != nk[b]@ by {
                    let oa = if a < i { a } else { a + 1 };
                    let ob = if b < i { b } else { b + 1 };
                    assert(nk[a] == ok[oa]);
                    assert(nk[b] == ok[ob]);
                }
            }
            assert forall|kk: RepoKey| #[trigger] self@.contains_key(kk) == before.remove(k).contains_key(kk)
                by {
                if has_key(nk, kk) {
                    let j = choose|j: int| 0 <= j < nk.len() && nk[j]@ == kk;
                    let oj = if j < i { j } else { j + 1 };
                    assert(ok[oj]@ == kk);
                }
                if kk != k && has_key(ok, kk) {
                    let j = choose|j: int| 0 <= j < ok.len() && ok[j]@ == kk;
                    assert(j != i);
                    let nj = if j < i { j } else { j - 1 };
                    assert(nk[nj]@ == kk);
                }
            }
            assert forall|kk: RepoKey| #[trigger] self@.contains_key(kk) implies self@[kk]
                == before[kk] by {
                let j = choose|j: int| 0 <= j < nk.len() && nk[j]@ == kk;
                let oj = if j < i { j } else { j + 1 };
                lemma_map_of_at(nk, self.records@, j);
                lemma_map_of_at(ok, orec, oj);
            }
            assert(self@ =~= before.remove(k));
        }
    }

    /// A snapshot of every tracked key.
    pub fn keys(&self) -> (r: Vec<RepoRef>)
        requires
            self.wf(),
        ensures
            distinct_keys(r@),
            forall|i: int| 0 <= i < r.len() ==> self@.contains_key(#[trigger] r@[i]@),
            forall|k: RepoKey| #[trigger] self@.contains_key(k) ==> has_key(r@, k),
    {
        let mut out: Vec<RepoRef> = Vec::new();
        let mut i: usize = 0;
        while i < self.keys.len()
            invariant
                i <= self.keys.len(),
                self.wf(),
                out.len() == i,
                forall|j: int| 0 <= j < i ==> (#[trigger] out@[j])@ == self.keys@[j]@,
            decreases self.keys.len() - i,
        {
            out.push(self.keys[i].duplicate());
            i = i + 1;
        }
        proof {
            assert forall|j: int| 0 <= j < out.len() implies self@.contains_key(#[trigger] out@[j]@) by {
                lemma_map_of_at(self.keys@, self.records@, j);
            }
            assert forall|k: RepoKey| #[trigger] self@.contains_key(k) implies has_key(out@, k) by {
                let j = choose|j: int| 0 <= j < self.keys@.len() && self.keys@[j]@ == k;
                assert(out@[j]@ == k);
            }
        }
        out
    }
}

} // verus!
