use remotefs::listing::{ListPage, ObjectMeta};
use remotefs::remotefs::GCSRemoteFs;

fn fs() -> GCSRemoteFs {
    GCSRemoteFs {
        dir: "/mirror".to_string(),
        bucket: "bucket".to_string(),
        sub_path: Some("ns".to_string()),
    }
}

fn meta(name: &str, updated: Option<i64>, size: u64) -> ObjectMeta {
    ObjectMeta { name: name.to_string(), updated, size }
}

#[test]
fn listing_collects_strips_and_drops() {
    let pages = vec![
        ListPage::Objects(vec![meta("ns/a.csv", Some(5), 10), meta("ns/d/b.csv", None, 20)]),
        ListPage::Failed("page timed out".to_string()),
        ListPage::Objects(vec![meta("ns/c.csv", Some(7), 30)]),
    ];
    let out = fs().list_with_metadata(&pages);
    assert_eq!(out.files.len(), 3);
    assert_eq!(out.files[0].remote_path, "a.csv");
    assert_eq!(out.files[0].updated, Some(5));
    assert_eq!(out.files[0].file_size, 10);
    assert_eq!(out.files[1].remote_path, "d/b.csv");
    assert_eq!(out.files[2].remote_path, "c.csv");
    assert_eq!(out.dropped_pages, 1);
    assert_eq!(out.metric.operation, "list");
    assert_eq!(out.metric.driver, "gcs");
    assert_eq!(out.metric.increment, 1);
    assert!(!out.wide_listing);

    let (names, out2) = fs().list(&pages);
    assert_eq!(names, vec!["a.csv", "d/b.csv", "c.csv"]);
    assert_eq!(out2.dropped_pages, 1);
    assert_eq!(out2.metric.increment, 1);
}

#[test]
fn listing_of_nothing_emits_nothing() {
    let pages: Vec<ListPage> = Vec::new();
    let out = fs().list_with_metadata(&pages);
    assert!(out.files.is_empty());
    assert_eq!(out.metric.increment, 0);
    assert_eq!(out.dropped_pages, 0);
    assert!(!out.wide_listing);
}

#[test]
fn listing_units_round_up() {
    // 1001 rows are two approximate pages: one per thousand, rounded up.
    let mut objs = Vec::new();
    for i in 0..1001u64 {
        objs.push(meta(&format!("ns/f{}", i), None, i));
    }
    let pages = vec![ListPage::Objects(objs)];
    let out = fs().list_with_metadata(&pages);
    assert_eq!(out.files.len(), 1001);
    assert_eq!(out.metric.increment, 2);
    assert!(!out.wide_listing);
}

#[test]
fn listing_of_exactly_one_thousand_is_one_unit() {
    let mut objs = Vec::new();
    for i in 0..1000u64 {
        objs.push(meta(&format!("ns/f{}", i), None, i));
    }
    let pages = vec![ListPage::Objects(objs)];
    let out = fs().list_with_metadata(&pages);
    assert_eq!(out.metric.increment, 1);
}

#[test]
fn wide_listing_is_flagged() {
    // More than a hundred approximate pages: 100_001 rows make 101 units.
    let mut pages = Vec::new();
    for p in 0..101u64 {
        let mut objs = Vec::new();
        for i in 0..991u64 {
            objs.push(meta(&format!("ns/p{}/f{}", p, i), None, i));
        }
        pages.push(ListPage::Objects(objs));
    }
    let out = fs().list_with_metadata(&pages);
    assert_eq!(out.files.len(), 101 * 991);
    assert_eq!(out.metric.increment, 101);
    assert!(out.wide_listing);
}
