use remotefs::remotefs::{DownloadPlan, GCSRemoteFs};
use remotefs::RemoteFsError;

fn fs_with_ns() -> GCSRemoteFs {
    GCSRemoteFs {
        dir: "/mirror".to_string(),
        bucket: "bucket".to_string(),
        sub_path: Some("ns".to_string()),
    }
}

fn fs_without_ns() -> GCSRemoteFs {
    GCSRemoteFs { dir: "/mirror".to_string(), bucket: "bucket".to_string(), sub_path: None }
}

#[test]
fn namespace_bijection_with_namespace() {
    let fs = fs_with_ns();
    let key = fs.gcs_path("a/b.csv");
    assert_eq!(key, "ns/a/b.csv");
    assert_eq!(fs.object_key_to_remote_path(&key), "a/b.csv");
}

#[test]
fn namespace_bijection_without_namespace() {
    let fs = fs_without_ns();
    let key = fs.gcs_path("a/b.csv");
    assert_eq!(key, "/a/b.csv");
    assert_eq!(fs.object_key_to_remote_path(&key), "a/b.csv");
}

#[test]
fn foreign_key_passes_through() {
    let fs = fs_with_ns();
    assert_eq!(fs.object_key_to_remote_path("other/x"), "other/x");
}

#[test]
fn new_constructs() {
    let fs = GCSRemoteFs::new(
        "/mirror".to_string(),
        "bucket".to_string(),
        Some("ns".to_string()),
    )
    .unwrap();
    assert_eq!(fs.dir, "/mirror");
    assert_eq!(fs.bucket, "bucket");
    assert_eq!(fs.sub_path.as_deref(), Some("ns"));
}

#[test]
fn local_path_and_file() {
    let fs = fs_with_ns();
    assert_eq!(fs.local_path().unwrap(), "/mirror");
    let (path, parent) = fs.local_file("a/b.csv");
    assert_eq!(path, "/mirror/a/b.csv");
    assert_eq!(parent, "/mirror/a");
    let (path2, parent2) = fs.local_file("top.csv");
    assert_eq!(path2, "/mirror/top.csv");
    assert_eq!(parent2, "/mirror");
}

#[test]
fn upload_plan_fields() {
    let fs = fs_with_ns();
    let plan = fs.upload_plan("/mirror/a/uploads/t1", "a/b.csv");
    assert_eq!(plan.key, "ns/a/b.csv");
    assert_eq!(plan.final_path, "/mirror/a/b.csv");
    assert_eq!(plan.parent_dir, "/mirror/a");
    assert!(plan.needs_rename);
    assert_eq!(plan.metric.operation, "upload_file");
    assert_eq!(plan.metric.driver, "gcs");
    assert_eq!(plan.metric.increment, 1);
}

#[test]
fn upload_plan_in_place_needs_no_rename() {
    let fs = fs_with_ns();
    let plan = fs.upload_plan("/mirror/a/b.csv", "a/b.csv");
    assert!(!plan.needs_rename);
}

#[test]
fn check_upload_file_accepts_equal_sizes() {
    let fs = fs_with_ns();
    assert!(fs.check_upload_file("a/b.csv", 42, 42).is_ok());
}

#[test]
fn check_upload_file_rejects_mismatch() {
    let fs = fs_with_ns();
    let err = fs.check_upload_file("a/b.csv", 42, 41).unwrap_err();
    match err {
        RemoteFsError::Integrity { operation, remote_path, expected, actual } => {
            assert_eq!(operation, "upload_file");
            assert_eq!(remote_path, "a/b.csv");
            assert_eq!(expected, 42);
            assert_eq!(actual, 41);
        }
        _ => panic!("expected an integrity error"),
    }
}

#[test]
fn download_plan_cache_hit() {
    let fs = fs_with_ns();
    match fs.download_plan("a/b.csv", true) {
        DownloadPlan::CacheHit { local_path } => assert_eq!(local_path, "/mirror/a/b.csv"),
        _ => panic!("a mirrored path must be a cache hit"),
    }
}

#[test]
fn download_plan_fetch() {
    let fs = fs_with_ns();
    match fs.download_plan("a/b.csv", false) {
        DownloadPlan::Fetch { key, staging_dir, final_path, metric } => {
            assert_eq!(key, "ns/a/b.csv");
            assert_eq!(staging_dir, "/mirror/a/downloads");
            assert_eq!(final_path, "/mirror/a/b.csv");
            assert_eq!(metric.operation, "download_file");
            assert_eq!(metric.driver, "gcs");
            assert_eq!(metric.increment, 1);
        }
        _ => panic!("an unmirrored path must be fetched"),
    }
}

#[test]
fn download_plan_fetch_top_level_staging() {
    let fs = fs_with_ns();
    match fs.download_plan("x", false) {
        DownloadPlan::Fetch { staging_dir, .. } => assert_eq!(staging_dir, "/mirror/downloads"),
        _ => panic!("an unmirrored path must be fetched"),
    }
}

#[test]
fn round_trip_upload_then_download_hits_cache() {
    // The upload's final mirror path is exactly the path a later download
    // returns from the cache, with no second remote call.
    let fs = fs_with_ns();
    let up = fs.upload_plan("/mirror/a/uploads/t1", "a/b.csv");
    match fs.download_plan("a/b.csv", true) {
        DownloadPlan::CacheHit { local_path } => assert_eq!(local_path, up.final_path),
        _ => panic!("the mirrored upload target must be a cache hit"),
    }
}

#[test]
fn cache_idempotence_one_remote_call_total() {
    // First download fetches (one remote call); once mirrored, the second is
    // a cache hit with none.
    let fs = fs_with_ns();
    let first_calls = match fs.download_plan("a/b.csv", false) {
        DownloadPlan::Fetch { metric, .. } => metric.increment,
        DownloadPlan::CacheHit { .. } => panic!("first download must fetch"),
    };
    let second_calls = match fs.download_plan("a/b.csv", true) {
        DownloadPlan::CacheHit { .. } => 0,
        DownloadPlan::Fetch { .. } => panic!("second download must hit the cache"),
    };
    assert_eq!(first_calls + second_calls, 1);
}

#[test]
fn delete_plan_fields_and_pruning() {
    let fs = fs_with_ns();
    let plan = fs.delete_plan("a/b/c.csv");
    assert_eq!(plan.key, "ns/a/b/c.csv");
    assert_eq!(plan.metric.operation, "delete_file");
    assert_eq!(plan.metric.increment, 1);
    assert_eq!(plan.local.local_path, "/mirror/a/b/c.csv");
    assert_eq!(plan.local.prune_dirs, vec!["/mirror/a/b", "/mirror/a"]);
    for d in &plan.local.prune_dirs {
        assert!(d.starts_with("/mirror/"));
        assert_ne!(d, "/mirror");
    }
}

#[test]
fn delete_plan_top_level_prunes_nothing() {
    let fs = fs_with_ns();
    let plan = fs.delete_plan("c.csv");
    assert!(plan.local.prune_dirs.is_empty());
}

#[test]
fn error_carries_operation_and_path() {
    let err = RemoteFsError::Transport {
        operation: "delete_file".to_string(),
        remote_path: "a/b.csv".to_string(),
        message: "connection reset".to_string(),
    };
    assert_eq!(err.operation().as_str(), "delete_file");
    assert_eq!(err.remote_path().as_str(), "a/b.csv");
}
