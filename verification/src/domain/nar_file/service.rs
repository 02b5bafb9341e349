//! Where to stream a nar file from, and what is learnt of its location from
//! the outcome. The streaming itself happens outside.
use vstd::prelude::*;

use crate::domain::common::expire_at::{secs_after, ExpireAt};
use crate::domain::common::time::{Span, WallTime, MAX_UNIX_SECS};
use crate::domain::nar_file::nar_file::{relocated_spec, NarFile, NarFileView};
use crate::domain::nar_file::nar_file_location::{NarFileLocation, NarFileLocationView};
use crate::domain::nar_info::nar_file_name::NarFileName;
use crate::domain::substituter::substituter_meta::{SubstituterMeta, SubstituterMetaView};
use crate::domain::substituter::url::{as_dir_spec, join_spec, Url, UrlView};

verus! {

/// Why a nar file could not be streamed.
#[derive(Debug, Clone, Copy, PartialEq, Eq, Hash)]
pub enum StreamNarFileError {
    /// Streaming failed on every candidate location.
    Infrastructure,
}

impl StreamNarFileError {
    /// The message of the error.
    pub fn message(&self) -> (r: String)
        ensures
            r@ == "failed to stream nar file"@,
    {
        String::from_str("failed to stream nar file")
    }
}

/// The headers of a streamed nar file that are passed on.
#[derive(Debug, Clone, PartialEq, Eq, Hash)]
pub struct NarStreamHeaders {
    pub content_length: Option<u64>,
    pub content_type: Option<String>,
    pub content_encoding: Option<String>,
}

/// What streaming from a list of candidate locations came to.
pub enum StreamOutcome {
    /// The file is streamed from this URL.
    Served(Url),
    /// No candidate has the file.
    Missing,
    /// Streaming failed.
    Failed,
}

/// Which locations an attempt to stream a nar file tried.
#[derive(Debug, Clone, Copy, PartialEq, Eq, Hash)]
pub enum StreamPhase {
    /// The known location of the file, alone.
    Cached,
    /// A candidate under every available substituter.
    All,
}

/// What follows an attempt to stream a nar file.
pub enum StreamNext {
    /// Streaming is over: the nar file as it now stands, and whether it was
    /// served or the error.
    Done(NarFile, Result<bool, StreamNarFileError>),
    /// Try a candidate under every available substituter, with the nar file
    /// as it stands.
    TryAll(NarFile),
}

/// The location of a nar file under the storage URL of a substituter, with
/// the substituter's nar timeout.
pub open spec fn candidate_spec(nar_file: Seq<char>, meta: SubstituterMetaView) -> Option<NarFileLocationView> {
    match join_spec(as_dir_spec(meta.storage_url), nar_file) {
        Some(u) => Some(NarFileLocationView { source_url: u, timeout: meta.nar_timeout }),
        None => None,
    }
}

/// The position of the first candidate at `url`.
pub open spec fn first_at(candidates: Seq<NarFileLocationView>, url: Seq<char>) -> int {
    choose|i: int|
        0 <= i < candidates.len() && candidates[i].source_url.value == url && forall|j: int|
            0 <= j < i ==> (#[trigger] candidates[j]).source_url.value != url
}

/// Some candidate is at `url`.
pub open spec fn has_candidate_at(candidates: Seq<NarFileLocationView>, url: Seq<char>) -> bool {
    exists|i: int| 0 <= i < candidates.len() && (#[trigger] candidates[i]).source_url.value == url
}

/// What a nar file becomes once it is streamed from `location`: a known
/// location is replaced and keeps its expiry; an unknown one is learnt, to
/// expire `ttl` after `now`.
pub open spec fn located_spec(f: NarFileView, location: NarFileLocationView, now: WallTime, ttl: Span) -> NarFileView {
    match f.location {
        Some(_) => relocated_spec(f, location),
        None => NarFileView { key: f.key, location: Some((location, ExpireAt::at_secs(secs_after(now, ttl) as u64))) },
    }
}

pub open spec fn locations_view(s: Seq<NarFileLocation>) -> Seq<NarFileLocationView> {
    s.map_values(|l: NarFileLocation| l@)
}

/// Streams nar files from the substituters, and keeps their locations for
/// `nar_file_ttl`.
pub struct NarFileService {
    nar_file_ttl: Span,
}

impl NarFileService {
    pub closed spec fn nar_file_ttl_spec(&self) -> Span {
        self.nar_file_ttl
    }

    pub fn new(nar_file_ttl: Span) -> (r: NarFileService)
        ensures
            r.nar_file_ttl_spec() == nar_file_ttl,
    {
        NarFileService { nar_file_ttl }
    }

    /// The locations to try first: the known location alone, if there is
    /// one.
    pub fn cached_candidates(&self, nar_file: &NarFile) -> (r: Option<Vec<NarFileLocation>>)
        ensures
            match nar_file@.location {
                Some((l, _)) => r matches Some(v) && locations_view(v@) == seq![l],
                None => r is None,
            },
    {
        match nar_file.location() {
            Some(l) => {
                let v = vec![l.clone()];
                assert(locations_view(v@) =~= seq![l@]);
                Some(v)
            },
            None => None,
        }
    }

    /// The first attempt to stream `nar_file`: its known location alone, if
    /// there is one, else a candidate under every available substituter.
    pub fn first_attempt(&self, nar_file: &NarFile) -> (r: (StreamPhase, Option<Vec<NarFileLocation>>))
        ensures
            match nar_file@.location {
                Some((l, _)) => {
                    &&& r.0 == StreamPhase::Cached
                    &&& r.1 matches Some(v)
                    &&& locations_view(v@) == seq![l]
                },
                None => r.0 == StreamPhase::All && r.1 is None,
            },
    {
        match self.cached_candidates(nar_file) {
            Some(v) => (StreamPhase::Cached, Some(v)),
            None => (StreamPhase::All, None),
        }
    }

    /// What follows streaming `nar_file` from `candidates` in `phase`: a file
    /// served from its known location is done with, unchanged; any other
    /// outcome there falls back to all substituters; the outcome of trying
    /// all of them is learnt as `on_stream_outcome` says.
    pub fn on_attempt(
        &self,
        nar_file: NarFile,
        phase: StreamPhase,
        candidates: Vec<NarFileLocation>,
        outcome: StreamOutcome,
        now: WallTime,
    ) -> (r: StreamNext)
        requires
            phase == StreamPhase::All ==> {
                &&& outcome matches StreamOutcome::Served(u) ==> has_candidate_at(
                    locations_view(candidates@),
                    u@.value,
                )
                &&& now.wf()
                &&& self.nar_file_ttl_spec().wf()
                &&& secs_after(now, self.nar_file_ttl_spec()) <= MAX_UNIX_SECS
            },
        ensures
            match phase {
                StreamPhase::Cached => match outcome {
                    StreamOutcome::Served(_) => r matches StreamNext::Done(f, res) && f@ == nar_file@
                        && res == Ok::<bool, StreamNarFileError>(true),
                    _ => r matches StreamNext::TryAll(f) && f@ == nar_file@,
                },
                StreamPhase::All => r matches StreamNext::Done(f, res) && match outcome {
                    StreamOutcome::Served(u) => f@ == located_spec(
                        nar_file@,
                        locations_view(candidates@)[first_at(locations_view(candidates@), u@.value)],
                        now,
                        self.nar_file_ttl_spec(),
                    ) && res == Ok::<bool, StreamNarFileError>(true),
                    StreamOutcome::Missing => f@ == nar_file@ && res == Ok::<bool, StreamNarFileError>(false),
                    StreamOutcome::Failed => f@ == nar_file@ && res == Err::<bool, StreamNarFileError>(
                        StreamNarFileError::Infrastructure,
                    ),
                },
            },
    {
        match phase {
            StreamPhase::Cached => match outcome {
                StreamOutcome::Served(_) => StreamNext::Done(nar_file, Ok(true)),
                _ => StreamNext::TryAll(nar_file),
            },
            StreamPhase::All => {
                let (f, res) = self.on_stream_outcome(nar_file, candidates, outcome, now);
                StreamNext::Done(f, res)
            },
        }
    }

    /// A candidate location of `nar_file_name` under each substituter's
    /// storage URL, in the order given; `None` where a URL cannot be formed.
    pub fn build_candidates_from_all(
        &self,
        nar_file_name: &NarFileName,
        substituters: &Vec<SubstituterMeta>,
    ) -> (r: Option<Vec<NarFileLocation>>)
        ensures
            (forall|i: int|
                0 <= i < substituters@.len() ==> candidate_spec(nar_file_name@, (#[trigger] substituters@[i])@)
                    is Some) <==> r is Some,
            r matches Some(v) ==> {
                &&& v@.len() == substituters@.len()
                &&& forall|i: int|
                    0 <= i < v@.len() ==> (#[trigger] v@[i])@ == candidate_spec(
                        nar_file_name@,
                        substituters@[i]@,
                    )->0
            },
    {
        let mut v: Vec<NarFileLocation> = Vec::new();
        let mut i: usize = 0;
        while i < substituters.len()
            invariant
                i <= substituters@.len(),
                v@.len() == i,
                forall|j: int| 0 <= j < i ==> candidate_spec(nar_file_name@, (#[trigger] substituters@[j])@) is Some,
                forall|j: int|
                    0 <= j < i ==> (#[trigger] v@[j])@ == candidate_spec(
                        nar_file_name@,
                        substituters@[j]@,
                    )->0,
            decreases substituters@.len() - i,
        {
            let meta = &substituters[i];
            match nar_file_name.try_with_storage_prefix(meta.storage_url()) {
                Some(source_url) => {
                    v.push(NarFileLocation::new(source_url, meta.nar_timeout()));
                },
                None => {
                    return None;
                },
            }
            i = i + 1;
        }
        Some(v)
    }

    /// The position of the first candidate at `url`, if any.
    pub fn find_candidate(candidates: &Vec<NarFileLocation>, url: &Url) -> (r: Option<usize>)
        ensures
            has_candidate_at(locations_view(candidates@), url@.value) <==> r is Some,
            r matches Some(i) ==> i < candidates@.len() && i == first_at(
                locations_view(candidates@),
                url@.value,
            ),
    {
        let ghost views = locations_view(candidates@);
        let mut i: usize = 0;
        while i < candidates.len()
            invariant
                i <= candidates@.len(),
                views == locations_view(candidates@),
                forall|j: int| 0 <= j < i ==> (#[trigger] views[j]).source_url.value != url@.value,
            decreases candidates@.len() - i,
        {
            if candidates[i].source_url().is_same(url) {
                assert(views[i as int].source_url.value == url@.value);
                assert(i == first_at(views, url@.value));
                return Some(i);
            }
            i = i + 1;
        }
        None
    }

    /// What is learnt from streaming `nar_file` from `candidates`: where it
    /// was served from becomes its location (kept until `nar_file_ttl`
    /// after `now` if none was known); whether it was served; or the error.
    pub fn on_stream_outcome(
        &self,
        nar_file: NarFile,
        candidates: Vec<NarFileLocation>,
        outcome: StreamOutcome,
        now: WallTime,
    ) -> (r: (NarFile, Result<bool, StreamNarFileError>))
        requires
            outcome matches StreamOutcome::Served(u) ==> has_candidate_at(locations_view(candidates@), u@.value),
            now.wf(),
            self.nar_file_ttl_spec().wf(),
            secs_after(now, self.nar_file_ttl_spec()) <= MAX_UNIX_SECS,
        ensures
            match outcome {
                StreamOutcome::Served(u) => r.0@ == located_spec(
                    nar_file@,
                    locations_view(candidates@)[first_at(locations_view(candidates@), u@.value)],
                    now,
                    self.nar_file_ttl_spec(),
                ) && r.1 == Ok::<bool, StreamNarFileError>(true),
                StreamOutcome::Missing => r.0@ == nar_file@ && r.1 == Ok::<bool, StreamNarFileError>(false),
                StreamOutcome::Failed => r.0@ == nar_file@ && r.1 == Err::<bool, StreamNarFileError>(StreamNarFileError::Infrastructure),
            },
    {
        match outcome {
            StreamOutcome::Served(u) => {
                let i = match NarFileService::find_candidate(&candidates, &u) {
                    Some(i) => i,
                    None => {
                        assert(false);
                        0
                    },
                };
                let ghost views = locations_view(candidates@);
                let mut candidates = candidates;
                let location = candidates.remove(i);
                assert(location@ == views[i as int]);
                let located = match nar_file.location() {
                    Some(_) => nar_file.on_relocated(location),
                    None => {
                        let expire_at = ExpireAt::since(now, self.nar_file_ttl);
                        nar_file.on_located(location, expire_at)
                    },
                };
                (located, Ok(true))
            },
            StreamOutcome::Missing => (nar_file, Ok(false)),
            StreamOutcome::Failed => (nar_file, Err(StreamNarFileError::Infrastructure)),
        }
    }
}

} // verus!
