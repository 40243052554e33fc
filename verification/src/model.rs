//! The abstract store: what the remote bucket and the local mirror hold, and
//! how each operation is allowed to change them. The transition functions
//! here are the specification that the plans of [`crate::remotefs`] serve;
//! the proof functions state the laws the layer keeps — round-trip caching,
//! cache idempotence, delete visibility, and atomic-failure safety.

use vstd::prelude::*;
use crate::remotefs::GCSRemoteFs;

verus! {

/// Joint state of one bucket and one local mirror: backend keys to bytes, and
/// absolute local paths (mirrored files and staged uploads alike) to bytes.
/// A path present in `local` is by construction byte-complete: transitions
/// only ever insert whole values, never partial ones.
pub struct StoreModel {
    /// Contents of the remote bucket, by backend key.
    pub remote: Map<Seq<char>, Seq<u8>>,
    /// Contents of the local volume, by absolute path.
    pub local: Map<Seq<char>, Seq<u8>>,
}

/// How far an upload got before stopping.
pub enum UploadOutcome {
    /// The remote put itself failed: a transport error, propagated.
    RemoteFailed,
    /// The remote put succeeded but the reported size differed from the local
    /// byte length: an integrity error, propagated before any rename.
    SizeMismatch,
    /// Put confirmed, sizes equal, staged file promoted to the mirror path.
    Completed,
}

impl GCSRemoteFs {
    /// State after `upload(temp, path)` stopped with `outcome`. The staged
    /// file at `temp` holds the bytes being uploaded. Nothing local changes
    /// unless the upload completed; only completion touches the mirror path,
    /// and a staged file elsewhere than its destination is consumed by the
    /// rename.
    pub open spec fn upload_apply(
        &self,
        m: StoreModel,
        temp: Seq<char>,
        path: Seq<char>,
        outcome: UploadOutcome,
    ) -> StoreModel {
        let bytes = m.local[temp];
        match outcome {
            UploadOutcome::RemoteFailed => m,
            UploadOutcome::SizeMismatch => StoreModel {
                remote: m.remote.insert(self.key_of(path), bytes),
                local: m.local,
            },
            UploadOutcome::Completed => StoreModel {
                remote: m.remote.insert(self.key_of(path), bytes),
                local: if temp == self.local_of(path) {
                    m.local
                } else {
                    m.local.remove(temp).insert(self.local_of(path), bytes)
                },
            },
        }
    }

    /// Whether the mirror already holds `path`, in which case a download is a
    /// cache hit.
    pub open spec fn mirrored(&self, m: StoreModel, path: Seq<char>) -> bool {
        m.local.contains_key(self.local_of(path))
    }

    /// State after `download(path)`. A mirrored path is returned as it is; an
    /// unmirrored one is fetched whole into the mirror when the backend holds
    /// its key, and nothing changes when the fetch fails mid-stream — the
    /// staging file is discarded, never promoted.
    pub open spec fn download_apply(&self, m: StoreModel, path: Seq<char>) -> StoreModel {
        if self.mirrored(m, path) {
            m
        } else if m.remote.contains_key(self.key_of(path)) {
            StoreModel {
                remote: m.remote,
                local: m.local.insert(self.local_of(path), m.remote[self.key_of(path)]),
            }
        } else {
            m
        }
    }

    /// How many remote calls `download(path)` makes on state `m`: none when
    /// the mirror already holds the path, one otherwise.
    pub open spec fn download_remote_calls(&self, m: StoreModel, path: Seq<char>) -> nat {
        if self.mirrored(m, path) {
            0
        } else {
            1
        }
    }

    /// State after `delete(path)`: the remote object goes first, and only its
    /// successful deletion lets the mirrored file go too. A failed remote
    /// delete leaves every local byte in place.
    pub open spec fn delete_apply(
        &self,
        m: StoreModel,
        path: Seq<char>,
        remote_ok: bool,
    ) -> StoreModel {
        if remote_ok {
            StoreModel {
                remote: m.remote.remove(self.key_of(path)),
                local: m.local.remove(self.local_of(path)),
            }
        } else {
            m
        }
    }

    /// The logical paths a listing under `prefix` reports: every path whose
    /// backend key the bucket holds and that extends the prefix.
    pub open spec fn listed(&self, m: StoreModel, prefix: Seq<char>) -> Set<Seq<char>> {
        Set::new(
            |p: Seq<char>|
                m.remote.contains_key(self.key_of(p)) && prefix.is_prefix_of(p),
        )
    }

    /// Round trip: a completed `upload(temp, path)` leaves the mirror holding
    /// the staged file's bytes at the mirror path, so a following
    /// `download(path)` is a cache hit — it changes nothing, makes zero
    /// remote calls, and the file it returns has exactly the staged file's
    /// byte length.
    pub proof fn lemma_upload_download_round_trip(
        &self,
        m: StoreModel,
        temp: Seq<char>,
        path: Seq<char>,
    )
        requires
            m.local.contains_key(temp),
        ensures
            ({
                let m1 = self.upload_apply(m, temp, path, UploadOutcome::Completed);
                &&& m1.local.contains_key(self.local_of(path))
                &&& m1.local[self.local_of(path)].len() == m.local[temp].len()
                &&& self.download_remote_calls(m1, path) == 0
                &&& self.download_apply(m1, path) == m1
            }),
    {
    }

    /// Cache idempotence: when the first of two sequential `download(path)`
    /// calls fetches the file, the second is a cache hit that changes nothing,
    /// and the two calls make exactly one remote call in total.
    pub proof fn lemma_download_cache_idempotent(&self, m: StoreModel, path: Seq<char>)
        requires
            !self.mirrored(m, path),
            m.remote.contains_key(self.key_of(path)),
        ensures
            ({
                let m1 = self.download_apply(m, path);
                &&& self.mirrored(m1, path)
                &&& self.download_apply(m1, path) == m1
                &&& self.download_remote_calls(m, path) + self.download_remote_calls(m1, path)
                    == 1
            }),
    {
    }

    /// Delete visibility: after a successful `delete(path)`, no listing under
    /// any prefix reports the path, and its mirrored file is gone. (That the
    /// pruned directories stay strictly below the mirror root is part of the
    /// delete plan's contract.)
    pub proof fn lemma_delete_visibility(&self, m: StoreModel, path: Seq<char>)
        ensures
            ({
                let m1 = self.delete_apply(m, path, true);
                &&& !m1.local.contains_key(self.local_of(path))
                &&& !m1.remote.contains_key(self.key_of(path))
                &&& forall|prefix: Seq<char>| !(#[trigger] self.listed(m1, prefix)).contains(path)
            }),
    {
    }

    /// A failed remote delete leaves every byte, remote and local, exactly in
    /// place: no partial local cleanup ever follows a remote failure.
    pub proof fn lemma_delete_failure_changes_nothing(&self, m: StoreModel, path: Seq<char>)
        ensures
            self.delete_apply(m, path, false) == m,
    {
    }

    /// Atomic-failure safety: an upload whose remote put fails changes
    /// nothing at all — the staged file is exactly as it was and nothing
    /// appears at the final mirror path; and even a failure after the put
    /// (the size mismatch) leaves every local byte unchanged.
    pub proof fn lemma_upload_failure_atomic(&self, m: StoreModel, temp: Seq<char>, path: Seq<char>)
        ensures
            self.upload_apply(m, temp, path, UploadOutcome::RemoteFailed) == m,
            self.upload_apply(m, temp, path, UploadOutcome::SizeMismatch).local == m.local,
    {
    }
}

} // verus!

