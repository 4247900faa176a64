//! Interface for creating a new torrent.
//!
//! The builder collects the source file, trackers, comment, webseeds
//! and output path. Driving the native metainfo builder is the
//! caller's part; everything decided from plain values is here:
//! [`TorrentBuilder::prepare`] lays out exactly what is handed to the
//! native builder - the tracker records with their tiers and the
//! announce and scrape URLs derived from each tracker, the output
//! path with its `.torrent` suffix, the comment - and
//! [`finish_build`] interprets the result code the native builder
//! reports when it is done.

use vstd::prelude::*;
use vstd::string::StringExecFns;

use crate::error::{builder_error_of, Error, TrResult};
use crate::torrentinfo::TrackerInfo;

verus! {

/// Used to create a new torrent in a builder pattern.
pub struct TorrentBuilder {
    /// Comment to store in the metainfo
    pub comment: Option<String>,
    /// Tracker URLs, in tier order
    pub trackers: Vec<String>,
    /// Path of the file or folder the torrent serves
    pub file: String,
    /// Path of the .torrent file to create, without its suffix; the
    /// source path is used when absent
    pub output_file: Option<String>,
    /// Webseed URLs, when any were set
    pub webseeds: Option<Vec<String>>,
    /// Whether the torrent is private
    pub is_private: bool,
}

/// Everything the native metainfo builder is handed for one build:
/// the source path, the full output path, the tracker records, the
/// comment and the private flag.
pub struct BuildPlan {
    pub source: String,
    pub output_path: String,
    pub trackers: Vec<TrackerInfo>,
    pub comment: String,
    pub is_private: bool,
}

/// One tracker record handed to the native builder: tier and id count
/// up from zero in the order the trackers were added, and the announce
/// and scrape URLs append the conventional paths to the tracker URL.
pub open spec fn tracker_entry_matches(url: String, t: TrackerInfo, i: int) -> bool {
    &&& t.tier == i
    &&& t.id == i
    &&& t.announce@ == url@ + "/announce"@
    &&& t.scrape@ == url@ + "/scrape"@
}

/// The whole tracker list handed to the native builder, one record per
/// tracker URL, in order.
pub open spec fn tracker_list_matches(urls: Seq<String>, infos: Seq<TrackerInfo>) -> bool {
    &&& infos.len() == urls.len()
    &&& forall|i: int| 0 <= i < urls.len() ==> tracker_entry_matches(urls[i], infos[i], i)
}

/// The webseed URLs a builder holds: none yet means the empty list.
pub open spec fn webseed_seq(o: Option<Vec<String>>) -> Seq<String> {
    match o {
        Some(v) => v@,
        None => Seq::<String>::empty(),
    }
}

impl TorrentBuilder {
    /// Create a new blank TorrentBuilder
    pub fn new() -> (b: Self)
        ensures
            b.comment is None,
            b.trackers@.len() == 0,
            b.file@.len() == 0,
            b.output_file is None,
            b.webseeds is None,
            b.is_private == false,
    {
        Self {
            comment: None,
            trackers: Vec::new(),
            file: String::new(),
            output_file: None,
            webseeds: None,
            is_private: false,
        }
    }

    /// Set the file or folder the torrent is serving.
    ///
    /// The path is stored as given; it must name an existing file when
    /// the native build is driven, and it is resolved against the file
    /// system there.
    pub fn set_file(self, file: &str) -> (b: Self)
        ensures
            b.file@ == file@,
            b.comment == self.comment,
            b.trackers == self.trackers,
            b.output_file == self.output_file,
            b.webseeds == self.webseeds,
            b.is_private == self.is_private,
    {
        Self { file: file.to_owned(), ..self }
    }

    /// Set the full path of the .torrent file that will be created.
    pub fn set_output_file(self, file: &str) -> (b: Self)
        ensures
            b.output_file matches Some(o) && o@ == file@,
            b.comment == self.comment,
            b.trackers == self.trackers,
            b.file == self.file,
            b.webseeds == self.webseeds,
            b.is_private == self.is_private,
    {
        Self { output_file: Some(file.to_owned()), ..self }
    }

    /// Add a tracker to the torrent
    pub fn add_tracker(self, tracker: &str) -> (b: Self)
        ensures
            b.trackers@.len() == self.trackers@.len() + 1,
            forall|i: int| 0 <= i < self.trackers@.len() ==> b.trackers@[i] == self.trackers@[i],
            b.trackers@[self.trackers@.len() as int]@ == tracker@,
            b.comment == self.comment,
            b.file == self.file,
            b.output_file == self.output_file,
            b.webseeds == self.webseeds,
            b.is_private == self.is_private,
    {
        let mut trackers = self.trackers;
        trackers.push(tracker.to_owned());
        Self { trackers, ..self }
    }

    /// Add a tracker to the torrent
    pub fn set_tracker(self, tracker: &str) -> (b: Self)
        ensures
            b.trackers@.len() == self.trackers@.len() + 1,
            forall|i: int| 0 <= i < self.trackers@.len() ==> b.trackers@[i] == self.trackers@[i],
            b.trackers@[self.trackers@.len() as int]@ == tracker@,
            b.comment == self.comment,
            b.file == self.file,
            b.output_file == self.output_file,
            b.webseeds == self.webseeds,
            b.is_private == self.is_private,
    {
        self.add_tracker(tracker)
    }

    /// Set all the trackers on the torrent, replacing existing.
    pub fn set_trackers(self, trackers: Vec<&str>) -> (b: Self)
        ensures
            b.trackers@.len() == trackers@.len(),
            forall|i: int| 0 <= i < trackers@.len() ==> b.trackers@[i]@ == trackers@[i]@,
            b.comment == self.comment,
            b.file == self.file,
            b.output_file == self.output_file,
            b.webseeds == self.webseeds,
            b.is_private == self.is_private,
    {
        let mut owned: Vec<String> = Vec::new();
        let mut i: usize = 0;
        while i < trackers.len()
            invariant
                i <= trackers@.len(),
                owned@.len() == i,
                forall|j: int| 0 <= j < i ==> owned@[j]@ == trackers@[j]@,
            decreases trackers@.len() - i,
        {
            owned.push(trackers[i].to_owned());
            i = i + 1;
        }
        Self { trackers: owned, ..self }
    }

    /// Set the comment of the torrent
    pub fn set_comment(self, comment: &str) -> (b: Self)
        ensures
            b.comment matches Some(c) && c@ == comment@,
            b.trackers == self.trackers,
            b.file == self.file,
            b.output_file == self.output_file,
            b.webseeds == self.webseeds,
            b.is_private == self.is_private,
    {
        Self { comment: Some(comment.to_owned()), ..self }
    }

    /// Add a webseed to the torrent
    pub fn add_webseed(self, webseed: &str) -> (b: Self)
        ensures
            b.webseeds is Some,
            webseed_seq(b.webseeds).len() == webseed_seq(self.webseeds).len() + 1,
            forall|i: int|
                0 <= i < webseed_seq(self.webseeds).len() ==> webseed_seq(b.webseeds)[i]
                    == webseed_seq(self.webseeds)[i],
            webseed_seq(b.webseeds)[webseed_seq(self.webseeds).len() as int]@ == webseed@,
            b.comment == self.comment,
            b.trackers == self.trackers,
            b.file == self.file,
            b.output_file == self.output_file,
            b.is_private == self.is_private,
    {
        match self.webseeds {
            Some(mut ws) => {
                ws.push(webseed.to_owned());
                Self { webseeds: Some(ws), ..self }
            },
            None => {
                let mut ws: Vec<String> = Vec::new();
                ws.push(webseed.to_owned());
                Self { webseeds: Some(ws), ..self }
            },
        }
    }

    /// Add a webseed to the torrent
    pub fn set_webseed(self, webseed: &str) -> (b: Self)
        ensures
            b.webseeds is Some,
            webseed_seq(b.webseeds).len() == webseed_seq(self.webseeds).len() + 1,
            forall|i: int|
                0 <= i < webseed_seq(self.webseeds).len() ==> webseed_seq(b.webseeds)[i]
                    == webseed_seq(self.webseeds)[i],
            webseed_seq(b.webseeds)[webseed_seq(self.webseeds).len() as int]@ == webseed@,
            b.comment == self.comment,
            b.trackers == self.trackers,
            b.file == self.file,
            b.output_file == self.output_file,
            b.is_private == self.is_private,
    {
        self.add_webseed(webseed)
    }

    /// Set all the webseeds on the torrent, replacing existing.
    pub fn set_webseeds(self, webseeds: Vec<&str>) -> (b: Self)
        ensures
            b.webseeds matches Some(ws) && ws@.len() == webseeds@.len(),
            b.webseeds matches Some(ws) ==> forall|i: int|
                0 <= i < webseeds@.len() ==> ws@[i]@ == webseeds@[i]@,
            b.comment == self.comment,
            b.trackers == self.trackers,
            b.file == self.file,
            b.output_file == self.output_file,
            b.is_private == self.is_private,
    {
        let mut owned: Vec<String> = Vec::new();
        let mut i: usize = 0;
        while i < webseeds.len()
            invariant
                i <= webseeds@.len(),
                owned@.len() == i,
                forall|j: int| 0 <= j < i ==> owned@[j]@ == webseeds@[j]@,
            decreases webseeds@.len() - i,
        {
            owned.push(webseeds[i].to_owned());
            i = i + 1;
        }
        Self { webseeds: Some(owned), ..self }
    }

    /// Lay out what the native metainfo builder is handed for this
    /// build: the tracker records in tier order, the comment (empty
    /// when none was set), and the output path - the chosen output
    /// file, or else the source path, with `.torrent` appended.
    pub fn prepare(&self) -> (p: BuildPlan)
        requires
            self.trackers@.len() <= i32::MAX,
        ensures
            p.source@ == self.file@,
            p.output_path@ == (match self.output_file {
                Some(o) => o@,
                None => self.file@,
            }) + ".torrent"@,
            p.comment@ == (match self.comment {
                Some(c) => c@,
                None => Seq::<char>::empty(),
            }),
            p.is_private == self.is_private,
            tracker_list_matches(self.trackers@, p.trackers@),
    {
        let mut infos: Vec<TrackerInfo> = Vec::new();
        let mut i: usize = 0;
        while i < self.trackers.len()
            invariant
                i <= self.trackers@.len(),
                self.trackers@.len() <= i32::MAX,
                infos@.len() == i,
                forall|j: int|
                    0 <= j < i ==> tracker_entry_matches(self.trackers@[j], infos@[j], j),
            decreases self.trackers@.len() - i,
        {
            let announce = self.trackers[i].clone().concat("/announce");
            let scrape = self.trackers[i].clone().concat("/scrape");
            infos.push(
                TrackerInfo { tier: i as i32, announce, scrape, id: i as u32 },
            );
            i = i + 1;
        }
        let output_path = match &self.output_file {
            Some(o) => o.clone().concat(".torrent"),
            None => self.file.clone().concat(".torrent"),
        };
        let comment = match &self.comment {
            Some(c) => c.clone(),
            None => String::new(),
        };
        BuildPlan {
            source: self.file.clone(),
            output_path,
            trackers: infos,
            comment,
            is_private: self.is_private,
        }
    }
}

/// Interpret the result code the native metainfo builder reports once
/// it is done: on success the path of the created .torrent file is
/// returned, and any failure code is translated through the error
/// taxonomy.
pub fn finish_build(code: i32, output_path: String) -> (r: TrResult<String>)
    ensures
        builder_error_of(code as int) == Error::NoError ==> (r matches Ok(p) && p@
            == output_path@),
        builder_error_of(code as int) != Error::NoError ==> r == TrResult::<String>::Err(
            builder_error_of(code as int),
        ),
{
    match Error::from_builder_code(code).to_result() {
        Ok(_) => Ok(output_path),
        Err(e) => Err(e),
    }
}

/// The tracker records of a build plan pin the tracker URLs down:
/// re-reading the records of a produced metainfo recovers exactly the
/// tracker list that was supplied at build time.
pub proof fn lemma_build_trackers_determined(
    u1: Seq<String>,
    u2: Seq<String>,
    infos: Seq<TrackerInfo>,
)
    requires
        tracker_list_matches(u1, infos),
        tracker_list_matches(u2, infos),
    ensures
        u1.len() == u2.len(),
        forall|i: int| 0 <= i < u1.len() ==> u1[i]@ == u2[i]@,
{
    assert forall|i: int| 0 <= i < u1.len() implies u1[i]@ == u2[i]@ by {
        assert(tracker_entry_matches(u1[i], infos[i], i));
        assert(tracker_entry_matches(u2[i], infos[i], i));
        let a = infos[i].announce@;
        assert(u1[i]@.len() == a.len() - "/announce"@.len());
        assert(u2[i]@.len() == a.len() - "/announce"@.len());
        assert(u1[i]@ =~= a.take(u1[i]@.len() as int));
        assert(u2[i]@ =~= a.take(u2[i]@.len() as int));
    }
}

} // verus!
