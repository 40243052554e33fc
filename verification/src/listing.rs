//! Listing collection. A prefix listing arrives as a sequence of pages, each
//! either a list of object metadata or a failed page. The collector keeps the
//! objects of the pages that succeeded, in order, maps each backend key back
//! to its logical path, counts the failed pages it dropped so a caller can
//! surface a partial-result warning, and reports the one metric unit per
//! roughly a thousand result rows that a listing emits.

use vstd::prelude::*;
use crate::remotefs::{GCSRemoteFs, MetricEvent};

verus! {

/// Metadata of one listed object, as the backend reports it: its key, an
/// optional last-updated timestamp in milliseconds, and its size in bytes.
pub struct ObjectMeta {
    pub name: String,
    pub updated: Option<i64>,
    pub size: u64,
}

/// Spec-level image of an object's metadata.
pub struct ObjectMetaV {
    pub name: Seq<char>,
    pub updated: Option<i64>,
    pub size: u64,
}

impl View for ObjectMeta {
    type V = ObjectMetaV;

    open spec fn view(&self) -> ObjectMetaV {
        ObjectMetaV { name: self.name@, updated: self.updated, size: self.size }
    }
}

/// A file a listing reports: its logical path, an optional last-updated
/// timestamp in milliseconds, and its size in bytes.
pub struct RemoteFile {
    pub remote_path: String,
    pub updated: Option<i64>,
    pub file_size: u64,
}

/// Spec-level image of a listed file.
pub struct RemoteFileV {
    pub remote_path: Seq<char>,
    pub updated: Option<i64>,
    pub file_size: u64,
}

impl View for RemoteFile {
    type V = RemoteFileV;

    open spec fn view(&self) -> RemoteFileV {
        RemoteFileV {
            remote_path: self.remote_path@,
            updated: self.updated,
            file_size: self.file_size,
        }
    }
}

/// One page of a prefix listing: the objects it carries, or the message of
/// its failure.
pub enum ListPage {
    Objects(Vec<ObjectMeta>),
    Failed(String),
}

/// The objects a page contributes: its metadata when it succeeded, nothing
/// when it failed.
pub open spec fn page_objects(page: ListPage) -> Seq<ObjectMetaV> {
    match page {
        ListPage::Objects(v) => v@.map_values(|o: ObjectMeta| o@),
        ListPage::Failed(_) => Seq::<ObjectMetaV>::empty(),
    }
}

/// The objects of every successful page, in page order.
pub open spec fn ok_objects(pages: Seq<ListPage>) -> Seq<ObjectMetaV>
    decreases pages.len(),
{
    if pages.len() == 0 {
        Seq::empty()
    } else {
        ok_objects(pages.drop_last()) + page_objects(pages.last())
    }
}

/// How many pages failed and were dropped.
pub open spec fn failed_pages(pages: Seq<ListPage>) -> nat
    decreases pages.len(),
{
    if pages.len() == 0 {
        0
    } else {
        failed_pages(pages.drop_last()) + (match pages.last() {
            ListPage::Objects(_) => 0nat,
            ListPage::Failed(_) => 1nat,
        })
    }
}

/// The metric units a listing of `n` rows emits: one per thousand rows,
/// rounded up — an approximation of the page count.
pub open spec fn list_units(n: nat) -> nat {
    n / 1000 + if n % 1000 > 0 {
        1nat
    } else {
        0nat
    }
}

/// What a listing collected.
pub struct ListOutcome {
    /// The files of every page that succeeded, in order.
    pub files: Vec<RemoteFile>,
    /// The one counter this listing emits: its increment is the approximate
    /// page count of the result.
    pub metric: MetricEvent,
    /// Whether the approximate page count passed a hundred — the sign of an
    /// overly broad listing prefix.
    pub wide_listing: bool,
    /// How many failed pages were dropped from the result; a caller owes its
    /// user a partial-result warning when this is not zero.
    pub dropped_pages: u64,
}

impl GCSRemoteFs {
    /// The files that a sequence of object metadata describes, each backend
    /// key mapped back to its logical path.
    pub open spec fn remote_files_of(&self, objs: Seq<ObjectMetaV>) -> Seq<RemoteFileV> {
        objs.map_values(
            |o: ObjectMetaV|
                RemoteFileV {
                    remote_path: self.logical_of(o.name),
                    updated: o.updated,
                    file_size: o.size,
                },
        )
    }

    /// The logical paths of those files, in the same order.
    pub open spec fn listed_names_of(&self, objs: Seq<ObjectMetaV>) -> Seq<Seq<char>> {
        objs.map_values(|o: ObjectMetaV| self.logical_of(o.name))
    }

    /// Collects a listing with metadata: the objects of every successful
    /// page, in order, with the namespace stripped from each key; failed
    /// pages are dropped but counted; the metric reports the approximate page
    /// count of the result.
    pub fn list_with_metadata(&self, pages: &Vec<ListPage>) -> (r: ListOutcome)
        ensures
            r.files@.map_values(|f: RemoteFile| f@) == self.remote_files_of(ok_objects(pages@)),
            r.metric.operation@ == "list"@,
            r.metric.driver@ == "gcs"@,
            r.metric.increment as nat == list_units(ok_objects(pages@).len()),
            r.wide_listing == (list_units(ok_objects(pages@).len()) > 100),
            r.dropped_pages as nat == failed_pages(pages@),
    {
        let mut files: Vec<RemoteFile> = Vec::new();
        let mut dropped: u64 = 0;
        let n: usize = pages.len();
        let mut i: usize = 0;
        proof {
            assert(pages@.take(0) =~= Seq::<ListPage>::empty());
        }
        while i < n
            invariant
                i <= n,
                n == pages@.len(),
                files@.map_values(|f: RemoteFile| f@) == self.remote_files_of(
                    ok_objects(pages@.take(i as int)),
                ),
                dropped as nat == failed_pages(pages@.take(i as int)),
                dropped <= i,
            decreases n - i,
        {
            let ghost done = ok_objects(pages@.take(i as int));
            proof {
                assert(pages@.take(i + 1).drop_last() =~= pages@.take(i as int));
                assert(pages@.take(i + 1).last() == pages@[i as int]);
            }
            match &pages[i] {
                ListPage::Failed(_) => {
                    dropped = dropped + 1;
                    proof {
                        assert(ok_objects(pages@.take(i + 1)) =~= done);
                    }
                },
                ListPage::Objects(objs) => {
                    let m: usize = objs.len();
                    let mut j: usize = 0;
                    proof {
                        assert(objs@.take(0) =~= Seq::<ObjectMeta>::empty());
                        assert(self.remote_files_of(done + objs@.take(0).map_values(|o: ObjectMeta| o@))
                            =~= self.remote_files_of(done));
                    }
                    while j < m
                        invariant
                            j <= m,
                            m == objs@.len(),
                            files@.map_values(|f: RemoteFile| f@) == self.remote_files_of(
                                done + objs@.take(j as int).map_values(|o: ObjectMeta| o@),
                            ),
                        decreases m - j,
                    {
                        let meta = &objs[j];
                        let f = RemoteFile {
                            remote_path: self.object_key_to_remote_path(meta.name.as_str()),
                            updated: meta.updated,
                            file_size: meta.size,
                        };
                        let ghost prev = files@.map_values(|f: RemoteFile| f@);
                        let ghost fv = f@;
                        files.push(f);
                        proof {
                            assert(objs@.take(j + 1) =~= objs@.take(j as int).push(objs@[j as int]));
                            assert(files@.map_values(|f: RemoteFile| f@) =~= prev.push(fv));
                            assert(self.remote_files_of(
                                done + objs@.take(j + 1).map_values(|o: ObjectMeta| o@),
                            ) =~= prev.push(fv));
                        }
                        j = j + 1;
                    }
                    proof {
                        assert(objs@.take(m as int) =~= objs@);
                        assert(page_objects(pages@[i as int]) == objs@.map_values(
                            |o: ObjectMeta| o@,
                        ));
                        assert(ok_objects(pages@.take(i + 1)) =~= done + objs@.map_values(
                            |o: ObjectMeta| o@,
                        ));
                    }
                },
            }
            i = i + 1;
        }
        proof {
            assert(pages@.take(n as int) =~= pages@);
        }
        let rows: usize = files.len();
        let mut units: usize = rows / 1000;
        if rows % 1000 > 0 {
            units = units + 1;
        }
        let metric = MetricEvent {
            operation: "list".to_owned(),
            driver: "gcs".to_owned(),
            increment: units as u64,
        };
        let wide_listing = units > 100;
        ListOutcome { files, metric, wide_listing, dropped_pages: dropped }
    }

    /// Collects a listing of logical paths alone: the same pages, the same
    /// dropped-page accounting and metric, without the metadata.
    pub fn list(&self, pages: &Vec<ListPage>) -> (r: (Vec<String>, ListOutcome))
        ensures
            r.0@.map_values(|s: String| s@) == self.listed_names_of(ok_objects(pages@)),
            r.1.files@.map_values(|f: RemoteFile| f@) == self.remote_files_of(ok_objects(pages@)),
            r.1.metric.operation@ == "list"@,
            r.1.metric.driver@ == "gcs"@,
            r.1.metric.increment as nat == list_units(ok_objects(pages@).len()),
            r.1.wide_listing == (list_units(ok_objects(pages@).len()) > 100),
            r.1.dropped_pages as nat == failed_pages(pages@),
    {
        let outcome = self.list_with_metadata(pages);
        let mut names: Vec<String> = Vec::new();
        let n: usize = outcome.files.len();
        let mut i: usize = 0;
        while i < n
            invariant
                i <= n,
                n == outcome.files@.len(),
                outcome.files@.map_values(|f: RemoteFile| f@) == self.remote_files_of(
                    ok_objects(pages@),
                ),
                names@.map_values(|s: String| s@) == self.listed_names_of(
                    ok_objects(pages@),
                ).take(i as int),
            decreases n - i,
        {
            let ghost prev = names@.map_values(|s: String| s@);
            names.push(outcome.files[i].remote_path.clone());
            proof {
                let objs = ok_objects(pages@);
                assert(self.remote_files_of(objs).len() == objs.len());
                assert(self.listed_names_of(objs).len() == objs.len());
                assert(outcome.files@.map_values(|f: RemoteFile| f@)[i as int] == outcome.files@[
                    i as int
                ]@);
                assert(self.remote_files_of(objs)[i as int].remote_path == self.logical_of(
                    objs[i as int].name,
                ));
                assert(self.listed_names_of(objs)[i as int] == self.logical_of(
                    objs[i as int].name,
                ));
                assert(names@.map_values(|s: String| s@) =~= prev.push(
                    outcome.files@[i as int]@.remote_path,
                ));
                assert(self.listed_names_of(objs).take(i + 1) =~= prev.push(
                    outcome.files@[i as int]@.remote_path,
                ));
            }
            i = i + 1;
        }
        proof {
            let objs = ok_objects(pages@);
            assert(self.remote_files_of(objs).len() == objs.len());
            assert(self.listed_names_of(objs).len() == objs.len());
            assert(self.listed_names_of(objs).take(n as int) =~= self.listed_names_of(objs));
        }
        (names, outcome)
    }
}

} // verus!
