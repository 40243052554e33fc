//! The remote-filesystem façade: one value holding the mirror root, the
//! bucket and the optional namespace prefix, whose methods compute the exact
//! keys, paths, staging directories and metric events that each storage
//! operation uses. The surrounding async I/O performs the remote and disk
//! calls that these plans describe.

use vstd::prelude::*;
use crate::error::RemoteFsError;
use crate::paths::{
    ancestor_dirs, ancestor_dirs_of, join_path, lemma_ancestors_below_root, parent_join,
    parent_of_join, slash, strip_leading,
};

verus! {

/// A remote filesystem backed by one bucket of a cloud object store, mirrored
/// under a local root directory, with logical paths mapped to backend keys
/// under an optional namespace prefix.
pub struct GCSRemoteFs {
    /// Root of the local on-disk mirror.
    pub dir: String,
    /// Identifier of the remote bucket.
    pub bucket: String,
    /// Optional namespace prefix shared by every key this instance touches.
    pub sub_path: Option<String>,
}

/// One metrics counter event, emitted once per remote-touching operation.
pub struct MetricEvent {
    /// Operation tag.
    pub operation: String,
    /// Backend-driver tag.
    pub driver: String,
    /// Counter increment: `1` for every operation but listing, which reports
    /// its approximate page count.
    pub increment: u64,
}

/// What an upload must do after the remote put is confirmed.
pub struct UploadPlan {
    /// Backend key the bytes go under.
    pub key: String,
    /// Final mirror path of the uploaded file.
    pub final_path: String,
    /// Directory that must exist before the rename.
    pub parent_dir: String,
    /// Whether the staged file must be renamed: it sits somewhere other than
    /// the final mirror path.
    pub needs_rename: bool,
    /// The one counter this operation emits.
    pub metric: MetricEvent,
}

/// What a download must do.
pub enum DownloadPlan {
    /// The mirror already holds the file: return its path, touch nothing,
    /// make no remote call.
    CacheHit { local_path: String },
    /// Fetch from the backend into a fresh staging file, then promote it.
    Fetch {
        /// Backend key to stream from.
        key: String,
        /// Staging directory for the temporary file, on the same volume as
        /// the destination.
        staging_dir: String,
        /// Final mirror path the staging file is atomically renamed to.
        final_path: String,
        /// The one counter this operation emits.
        metric: MetricEvent,
    },
}

/// The local-cleanup half of a delete, entered only once the remote delete
/// succeeded, and serialized per instance.
pub struct DeleteLocalPlan {
    /// Mirrored file to remove, if present.
    pub local_path: String,
    /// Now-possibly-empty ancestor directories to prune, deepest first, every
    /// one strictly below the mirror root.
    pub prune_dirs: Vec<String>,
}

/// What a delete must do: the remote delete first, local cleanup only on its
/// success.
pub struct DeletePlan {
    /// Backend key to delete.
    pub key: String,
    /// The one counter this operation emits.
    pub metric: MetricEvent,
    /// Cleanup of the local mirror, applied only after the remote delete
    /// succeeds.
    pub local: DeleteLocalPlan,
}

impl GCSRemoteFs {
    /// The key prefix of this namespace: the namespace (or nothing), then the
    /// separator. Mapping a logical path appends it; recovering one strips it.
    pub open spec fn key_prefix(&self) -> Seq<char> {
        (match self.sub_path {
            Some(p) => p@,
            None => Seq::<char>::empty(),
        }) + slash()
    }

    /// Backend key of a logical path.
    pub open spec fn key_of(&self, path: Seq<char>) -> Seq<char> {
        self.key_prefix() + path
    }

    /// Mirror path of a logical path.
    pub open spec fn local_of(&self, path: Seq<char>) -> Seq<char> {
        self.dir@ + slash() + path
    }

    /// Logical path recovered from a backend key: the anchored namespace
    /// prefix is stripped; a key without it passes through unchanged.
    pub open spec fn logical_of(&self, key: Seq<char>) -> Seq<char> {
        if self.key_prefix().is_prefix_of(key) {
            key.skip(self.key_prefix().len() as int)
        } else {
            key
        }
    }

    /// Builds the façade over a mirror root, a bucket and an optional
    /// namespace. Construction itself cannot fail.
    pub fn new(dir: String, bucket_name: String, sub_path: Option<String>) -> (r: Result<
        std::sync::Arc<GCSRemoteFs>,
        RemoteFsError,
    >)
        ensures
            match r {
                Ok(fs) => (*fs).dir == dir && (*fs).bucket == bucket_name && (*fs).sub_path
                    == sub_path,
                Err(_) => false,
            },
    {
        Ok(std::sync::Arc::new(GCSRemoteFs { dir, bucket: bucket_name, sub_path }))
    }

    /// The namespace as a string slice, empty when none is configured.
    fn namespace_str(&self) -> (r: &str)
        ensures
            r@ + slash() == self.key_prefix(),
    {
        let r = match &self.sub_path {
            Some(p) => p.as_str(),
            None => "",
        };
        proof {
            reveal_strlit("");
            if self.sub_path is None {
                assert(""@ =~= Seq::<char>::empty());
            }
        }
        r
    }

    /// Maps a logical path to its backend key.
    pub fn gcs_path(&self, remote_path: &str) -> (r: String)
        ensures
            r@ == self.key_of(remote_path@),
    {
        let base = self.namespace_str();
        let r = join_path(base, remote_path);
        proof {
            assert(r@ =~= self.key_of(remote_path@));
        }
        r
    }

    /// Recovers a logical path from a backend key by stripping the anchored
    /// namespace prefix.
    pub fn object_key_to_remote_path(&self, obj_name: &str) -> (r: String)
        ensures
            r@ == self.logical_of(obj_name@),
    {
        let base = self.namespace_str();
        let prefix = join_path(base, "");
        proof {
            reveal_strlit("");
            assert(""@ =~= Seq::<char>::empty());
            assert(prefix@ =~= self.key_prefix());
        }
        strip_leading(obj_name, prefix.as_str())
    }

    /// Namespace mapping is a bijection on this layer's inputs: mapping any
    /// logical path to its backend key and stripping the namespace back
    /// yields exactly the same path, for every namespace value.
    pub proof fn lemma_namespace_bijection(&self, path: Seq<char>)
        ensures
            self.logical_of(self.key_of(path)) == path,
    {
        let pre = self.key_prefix();
        assert(pre.is_prefix_of(pre + path)) by {
            assert((pre + path).subrange(0, pre.len() as int) =~= pre);
        }
        assert((pre + path).skip(pre.len() as int) =~= path);
    }

    /// Root of the local mirror.
    pub fn local_path(&self) -> (r: Result<String, RemoteFsError>)
        ensures
            match r {
                Ok(p) => p@ == self.dir@,
                Err(_) => false,
            },
    {
        Ok(self.dir.clone())
    }

    /// Mirror path of a logical path, with the parent directory that must
    /// exist around it — pure path composition, no remote work.
    pub fn local_file(&self, remote_path: &str) -> (r: (String, String))
        ensures
            r.0@ == self.local_of(remote_path@),
            r.1@ == parent_of_join(self.dir@, remote_path@),
    {
        let path = join_path(self.dir.as_str(), remote_path);
        let parent = parent_join(self.dir.as_str(), remote_path);
        (path, parent)
    }

    /// Everything an upload of a staged file needs: the key to put under, the
    /// final mirror path, the parent directory to create, whether a rename is
    /// owed at all, and the one counter the operation emits.
    pub fn upload_plan(&self, temp_upload_path: &str, remote_path: &str) -> (r: UploadPlan)
        ensures
            r.key@ == self.key_of(remote_path@),
            r.final_path@ == self.local_of(remote_path@),
            r.parent_dir@ == parent_of_join(self.dir@, remote_path@),
            r.needs_rename == (temp_upload_path@ != self.local_of(remote_path@)),
            r.metric.operation@ == "upload_file"@,
            r.metric.driver@ == "gcs"@,
            r.metric.increment == 1,
    {
        let key = self.gcs_path(remote_path);
        let (final_path, parent_dir) = self.local_file(remote_path);
        let temp = temp_upload_path.to_owned();
        let needs_rename = !(temp == final_path);
        UploadPlan { key, final_path, parent_dir, needs_rename, metric: metric_event("upload_file", 1) }
    }

    /// The size-only integrity check that confirms an upload: the byte length
    /// the caller expected must equal the local file's actual byte length.
    /// Returns `Ok` exactly on equality; a mismatch is an integrity error
    /// carrying the operation, the path and both sizes.
    pub fn check_upload_file(&self, remote_path: &str, expected_size: u64, actual_size: u64) -> (r:
        Result<(), RemoteFsError>)
        ensures
            r is Ok <==> expected_size == actual_size,
            match r {
                Ok(_) => true,
                Err(e) => match e {
                    RemoteFsError::Integrity { operation, remote_path: rp, expected, actual } => {
                        &&& operation@ == "upload_file"@
                        &&& rp@ == remote_path@
                        &&& expected == expected_size
                        &&& actual == actual_size
                    },
                    _ => false,
                },
            },
    {
        if expected_size == actual_size {
            Ok(())
        } else {
            Err(
                RemoteFsError::Integrity {
                    operation: "upload_file".to_owned(),
                    remote_path: remote_path.to_owned(),
                    expected: expected_size,
                    actual: actual_size,
                },
            )
        }
    }

    /// Everything a download needs. When the mirror already holds the file,
    /// the plan is a cache hit: its path, no staging, no remote call, no
    /// counter. Otherwise the plan names the key to stream from, the staging
    /// directory beside the destination, the final path, and the one counter
    /// the fetch emits.
    pub fn download_plan(&self, remote_path: &str, mirrored: bool) -> (r: DownloadPlan)
        ensures
            mirrored ==> match r {
                DownloadPlan::CacheHit { local_path } => local_path@ == self.local_of(
                    remote_path@,
                ),
                _ => false,
            },
            !mirrored ==> match r {
                DownloadPlan::Fetch { key, staging_dir, final_path, metric } => {
                    &&& key@ == self.key_of(remote_path@)
                    &&& staging_dir@ == parent_of_join(self.dir@, remote_path@) + slash()
                        + "downloads"@
                    &&& final_path@ == self.local_of(remote_path@)
                    &&& metric.operation@ == "download_file"@
                    &&& metric.driver@ == "gcs"@
                    &&& metric.increment == 1
                },
                _ => false,
            },
    {
        let (final_path, parent_dir) = self.local_file(remote_path);
        if mirrored {
            DownloadPlan::CacheHit { local_path: final_path }
        } else {
            let key = self.gcs_path(remote_path);
            let staging_dir = join_path(parent_dir.as_str(), "downloads");
            DownloadPlan::Fetch {
                key,
                staging_dir,
                final_path,
                metric: metric_event("download_file", 1),
            }
        }
    }

    /// Everything a delete needs: the key for the remote delete that comes
    /// first, the counter the operation emits, and the local cleanup — the
    /// mirrored file and the chain of ancestor directories to prune, deepest
    /// first, each strictly below the mirror root — applied only if the
    /// remote delete succeeds.
    pub fn delete_plan(&self, remote_path: &str) -> (r: DeletePlan)
        ensures
            r.key@ == self.key_of(remote_path@),
            r.metric.operation@ == "delete_file"@,
            r.metric.driver@ == "gcs"@,
            r.metric.increment == 1,
            r.local.local_path@ == self.local_of(remote_path@),
            r.local.prune_dirs@.map_values(|s: String| s@) == ancestor_dirs(
                self.dir@,
                remote_path@,
            ),
            forall|k: int|
                0 <= k < r.local.prune_dirs@.len() ==> (self.dir@ + slash()).is_prefix_of(
                    #[trigger] r.local.prune_dirs@[k]@,
                ),
    {
        let key = self.gcs_path(remote_path);
        let (local_path, _) = self.local_file(remote_path);
        let prune_dirs = ancestor_dirs_of(self.dir.as_str(), remote_path);
        proof {
            lemma_ancestors_below_root(self.dir@, remote_path@);
            assert forall|k: int| 0 <= k < prune_dirs@.len() implies (self.dir@
                + slash()).is_prefix_of(#[trigger] prune_dirs@[k]@) by {
                assert(prune_dirs@.map_values(|s: String| s@)[k] == prune_dirs@[k]@);
                assert((self.dir@ + slash()).is_prefix_of(
                    ancestor_dirs(self.dir@, remote_path@)[k],
                ));
            }
        }
        DeletePlan {
            key,
            metric: metric_event("delete_file", 1),
            local: DeleteLocalPlan { local_path, prune_dirs },
        }
    }
}

/// Builds the one counter event of an operation.
fn metric_event(operation: &str, increment: u64) -> (r: MetricEvent)
    ensures
        r.operation@ == operation@,
        r.driver@ == "gcs"@,
        r.increment == increment,
{
    MetricEvent { operation: operation.to_owned(), driver: "gcs".to_owned(), increment }
}

} // verus!
