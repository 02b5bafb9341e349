//! Resolving a store path hash: all substituters are queried at once, the
//! answer with the best preference (grace for priority minus latency) is
//! kept, and a query is pruned as soon as it can no longer beat the best
//! answer so far.
//!
//! The queries themselves run outside: a `QueryRound` decides, from each
//! finished query and each deadline that passes, what is kept, what is
//! pruned and what is finally answered.
use std::time::Duration;

use vstd::prelude::*;

use crate::domain::common::time::Span;
use crate::domain::nar_info::deadline_group::DeadlineGroup;
use crate::domain::nar_info::nar_info_resolution::{
    outcome_resolvable, resolution_spec, NarInfoResolution, NarInfoResolutionView,
    NarUrlRewriteOption,
};
use crate::domain::nar_info::store_path_hash::{narinfo_url, StorePathHash};
use crate::domain::nar_info::upstream_nar_info_data::{UpstreamNarInfoData, UpstreamNarInfoDataView};
use crate::domain::substituter::availability::Availability;
use crate::domain::substituter::substituter::{grace_spec, Substituter, SubstituterView, MIN_GRACE};
use crate::domain::substituter::url::{Url, UrlView};

verus! {

/// What a resolution reports of the substituters it queried.
#[derive(Debug, PartialEq, Eq, Hash)]
pub enum NarResolutionEvent {
    /// The substituter answered, and was not known to be normal.
    SubstituterSucceeded(Url),
    /// The query to the substituter failed.
    SubstituterFailed(Url),
}

pub enum NarResolutionEventView {
    SubstituterSucceeded(UrlView),
    SubstituterFailed(UrlView),
}

impl View for NarResolutionEvent {
    type V = NarResolutionEventView;

    open spec fn view(&self) -> NarResolutionEventView {
        match self {
            NarResolutionEvent::SubstituterSucceeded(u) => NarResolutionEventView::SubstituterSucceeded(u@),
            NarResolutionEvent::SubstituterFailed(u) => NarResolutionEventView::SubstituterFailed(u@),
        }
    }
}

impl Clone for NarResolutionEvent {
    fn clone(&self) -> (r: Self)
        ensures
            r@ == self@,
    {
        match self {
            NarResolutionEvent::SubstituterSucceeded(u) => NarResolutionEvent::SubstituterSucceeded(u.clone()),
            NarResolutionEvent::SubstituterFailed(u) => NarResolutionEvent::SubstituterFailed(u.clone()),
        }
    }
}

/// Why no narinfo could be resolved.
#[derive(Debug, Clone, Copy, PartialEq, Eq, Hash)]
pub enum ResolveNarInfoError {
    /// No substituter had it, and at least one query failed.
    Fetch,
}

impl ResolveNarInfoError {
    /// The message of the error.
    pub fn message(&self) -> (r: String)
        ensures
            r@ == "could not fetch narinfo"@,
    {
        String::from_str("could not fetch narinfo")
    }
}

/// A narinfo that a substituter answered with, and how long the answer took.
#[derive(Debug, PartialEq, Eq, Hash)]
pub struct NarInfoQueryData {
    pub upstream_data: UpstreamNarInfoData,
    pub latency: Span,
}

impl NarInfoQueryData {
    pub fn new(original_data: UpstreamNarInfoData, latency: Span) -> (r: NarInfoQueryData)
        ensures
            r.upstream_data@ == original_data@,
            r.latency == latency,
    {
        NarInfoQueryData { upstream_data: original_data, latency }
    }
}

/// Why a query of a substituter failed.
#[derive(Debug)]
pub enum QueryNarInfoError {
    /// The substituter could not be reached.
    Offline { source: anyhow::Error },
    /// The substituter answered with an error.
    Service { source: anyhow::Error },
}

/// What a finished query came to, as plain values.
pub enum QueryOutcomeView {
    /// A narinfo, and the whole milliseconds the answer took.
    Found(UpstreamNarInfoDataView, int),
    /// The substituter does not have the narinfo.
    Missing,
    /// The query failed.
    Failed,
}

pub open spec fn query_outcome_view(
    outcome: Result<Option<NarInfoQueryData>, QueryNarInfoError>,
) -> QueryOutcomeView {
    match outcome {
        Ok(Some(data)) => QueryOutcomeView::Found(data.upstream_data@, data.latency.millis_spec()),
        Ok(None) => QueryOutcomeView::Missing,
        Err(_) => QueryOutcomeView::Failed,
    }
}

/// An answer kept as the best so far: the position of its substituter, the
/// narinfo, the substituter's grace and the answer's latency.
pub struct CandidateView {
    pub substituter: usize,
    pub nar_info: UpstreamNarInfoDataView,
    pub grace: int,
    pub latency_ms: int,
}

/// How much an answer is preferred: the grace of its substituter less its
/// latency.
pub open spec fn preference_spec(c: CandidateView) -> int {
    c.grace - c.latency_ms
}

/// The moment, in milliseconds, past which a query with `grace` that started
/// at `start` can no longer beat an answer preferred by `preference` (at the
/// latest the end of the clock).
pub open spec fn deadline_spec(start: u64, grace: int, preference: int) -> u64 {
    let wait: int = if grace - preference > 0 {
        grace - preference
    } else {
        0
    };
    if start + wait > u64::MAX {
        u64::MAX
    } else {
        (start + wait) as u64
    }
}

/// The deadlines of the pending queries against an answer preferred by
/// `preference`.
pub open spec fn deadlines_for(start: u64, pending: Map<usize, int>, preference: int) -> Map<
    usize,
    u64,
> {
    Map::new(
        |k: usize| pending.contains_key(k),
        |k: usize| deadline_spec(start, pending[k], preference),
    )
}

/// The state of a round of queries.
pub struct QueryRoundView {
    /// When the round started, in milliseconds.
    pub start: u64,
    /// The substituters queried, by position.
    pub substituters: Seq<SubstituterView>,
    /// The queries neither finished nor pruned, with their substituters'
    /// graces.
    pub pending: Map<usize, int>,
    /// When each pending query is pruned.
    pub deadlines: Map<usize, u64>,
    /// The best answer so far.
    pub optimal: Option<CandidateView>,
    /// Whether a query failed.
    pub has_error: bool,
    /// What the round reports of the substituters, in order.
    pub events: Seq<NarResolutionEventView>,
}

/// A round in which every substituter is queried, starting at `start`.
pub open spec fn round_start_spec(
    substituters: Seq<SubstituterView>,
    tolerance: u64,
    start: u64,
) -> QueryRoundView {
    QueryRoundView {
        start,
        substituters,
        pending: Map::new(
            |k: usize| k < substituters.len(),
            |k: usize| grace_spec(substituters[k as int].target.priority, tolerance),
        ),
        deadlines: Map::empty(),
        optimal: None,
        has_error: false,
        events: seq![],
    }
}

/// The round after the query at `k` is pruned.
pub open spec fn pruned_spec(v: QueryRoundView, k: usize) -> QueryRoundView {
    QueryRoundView {
        start: v.start,
        substituters: v.substituters,
        pending: v.pending.remove(k),
        deadlines: v.deadlines.remove(k),
        optimal: v.optimal,
        has_error: v.has_error,
        events: v.events,
    }
}

/// The round after `c` is weighed against the best answer so far: it is
/// kept unless the best so far is strictly preferred, and once kept every
/// pending query gets the deadline it has against `c`.
pub open spec fn weighed_spec(v: QueryRoundView, c: CandidateView) -> QueryRoundView {
    if v.optimal is Some && preference_spec(v.optimal->0) > preference_spec(c) {
        v
    } else {
        QueryRoundView {
            start: v.start,
            substituters: v.substituters,
            pending: v.pending,
            deadlines: deadlines_for(v.start, v.pending, preference_spec(c)),
            optimal: Some(c),
            has_error: v.has_error,
            events: v.events,
        }
    }
}

/// The round after the query at `k` finished with `outcome`. A query that
/// is no longer pending (it was pruned) changes nothing.
pub open spec fn finished_spec(v: QueryRoundView, k: usize, outcome: QueryOutcomeView) -> QueryRoundView {
    if !v.pending.contains_key(k) {
        v
    } else {
        let url = v.substituters[k as int].target.url;
        let answered = if v.substituters[k as int].availability is Normal {
            v.events
        } else {
            v.events.push(NarResolutionEventView::SubstituterSucceeded(url))
        };
        match outcome {
            QueryOutcomeView::Failed => QueryRoundView {
                start: v.start,
                substituters: v.substituters,
                pending: v.pending.remove(k),
                deadlines: v.deadlines.remove(k),
                optimal: v.optimal,
                has_error: true,
                events: v.events.push(NarResolutionEventView::SubstituterFailed(url)),
            },
            QueryOutcomeView::Missing => QueryRoundView {
                start: v.start,
                substituters: v.substituters,
                pending: v.pending.remove(k),
                deadlines: v.deadlines.remove(k),
                optimal: v.optimal,
                has_error: v.has_error,
                events: answered,
            },
            QueryOutcomeView::Found(data, latency_ms) => weighed_spec(
                QueryRoundView {
                    start: v.start,
                    substituters: v.substituters,
                    pending: v.pending.remove(k),
                    deadlines: v.deadlines.remove(k),
                    optimal: v.optimal,
                    has_error: v.has_error,
                    events: answered,
                },
                CandidateView { substituter: k, nar_info: data, grace: v.pending[k], latency_ms },
            ),
        }
    }
}

/// What a round answers: the substituter and narinfo of the best answer;
/// none where no substituter had the narinfo and no query failed; an error
/// where none had it and a query failed.
pub open spec fn answer_spec(v: QueryRoundView) -> Result<
    Option<(SubstituterView, UpstreamNarInfoDataView)>,
    ResolveNarInfoError,
> {
    match v.optimal {
        Some(c) => Ok(Some((v.substituters[c.substituter as int], c.nar_info))),
        None => if v.has_error {
            Err(ResolveNarInfoError::Fetch)
        } else {
            Ok(None)
        },
    }
}

pub open spec fn answer_view(
    r: Result<Option<(Substituter, UpstreamNarInfoData)>, ResolveNarInfoError>,
) -> Result<Option<(SubstituterView, UpstreamNarInfoDataView)>, ResolveNarInfoError> {
    match r {
        Ok(Some((s, d))) => Ok(Some((s@, d@))),
        Ok(None) => Ok(None),
        Err(e) => Err(e),
    }
}

pub open spec fn events_view(events: Seq<NarResolutionEvent>) -> Seq<NarResolutionEventView> {
    events.map_values(|e: NarResolutionEvent| e@)
}

/// An answer kept as the best so far.
struct NarInfoQueryCandidate {
    substituter: usize,
    nar_info: UpstreamNarInfoData,
    grace: i128,
    latency: Span,
}

impl NarInfoQueryCandidate {
    spec fn view(&self) -> CandidateView {
        CandidateView {
            substituter: self.substituter,
            nar_info: self.nar_info@,
            grace: self.grace as int,
            latency_ms: self.latency.millis_spec(),
        }
    }

    spec fn bounded(&self) -> bool {
        MIN_GRACE <= self.grace <= 0
    }

    fn calc_preference(&self) -> (r: i128)
        requires
            self.bounded(),
        ensures
            r == preference_spec(self.view()),
            MIN_PREFERENCE <= r <= 0,
    {
        let latency: u128 = self.latency.as_millis();
        proof {
            assert(self.latency.millis_spec() <= 0xffff_ffff_ffff_ffff * 1000int + 4295int);
        }
        self.grace - latency as i128
    }
}

/// The least preference an answer can have: the least grace less a latency
/// of 2^82 milliseconds, more than any `Span` holds.
pub const MIN_PREFERENCE: i128 = -0x1_0004_0000_0000_0000_0000_0000;

/// `deadline_spec`, computed.
fn deadline_of(start: u64, grace: i128, preference: i128) -> (r: u64)
    requires
        MIN_GRACE <= grace <= 0,
        MIN_PREFERENCE <= preference <= 0,
    ensures
        r == deadline_spec(start, grace as int, preference as int),
{
    let wait: i128 = grace - preference;
    if wait <= 0 {
        start
    } else if wait >= (u64::MAX - start) as i128 {
        u64::MAX
    } else {
        start + wait as u64
    }
}

/// A round of queries of all substituters for one narinfo.
pub struct QueryRound {
    start: u64,
    substituters: Vec<Substituter>,
    graces: Vec<Option<i128>>,
    deadlines: DeadlineGroup,
    optimal: Option<NarInfoQueryCandidate>,
    has_error: bool,
    events: Vec<NarResolutionEvent>,
}

/// The graces of the pending queries.
pub open spec fn pending_of(graces: Seq<Option<i128>>) -> Map<usize, int> {
    Map::new(
        |k: usize| k < graces.len() && graces[k as int] is Some,
        |k: usize| graces[k as int]->0 as int,
    )
}

impl View for QueryRound {
    type V = QueryRoundView;

    closed spec fn view(&self) -> QueryRoundView {
        QueryRoundView {
            start: self.start,
            substituters: self.substituters@.map_values(|s: Substituter| s@),
            pending: pending_of(self.graces@),
            deadlines: self.deadlines@,
            optimal: match self.optimal {
                Some(c) => Some(c.view()),
                None => None,
            },
            has_error: self.has_error,
            events: events_view(self.events@),
        }
    }
}

impl QueryRound {
    /// The round's own consistency: a grace for each substituter within
    /// bounds, the best answer from one of them, and exactly the pending
    /// queries given deadlines, those against the best answer, once there
    /// is one.
    pub closed spec fn wf(&self) -> bool {
        &&& self.graces@.len() == self.substituters@.len()
        &&& forall|k: int|
            0 <= k < self.graces@.len() && (#[trigger] self.graces@[k]) is Some ==> MIN_GRACE
                <= self.graces@[k]->0 <= 0
        &&& match self.optimal {
            Some(c) => {
                &&& c.substituter < self.substituters@.len()
                &&& c.bounded()
                &&& self.deadlines@ == deadlines_for(
                    self.start,
                    pending_of(self.graces@),
                    preference_spec(c.view()),
                )
            },
            None => self.deadlines@ == Map::<usize, u64>::empty(),
        }
    }

    /// The earliest deadline of a pending query: the query and the moment.
    pub fn next_deadline(&self) -> (r: Option<(usize, u64)>)
        ensures
            match r {
                Some((k, t)) => {
                    &&& self@.deadlines.contains_key(k)
                    &&& self@.deadlines[k] == t
                    &&& forall|j: usize| #[trigger] self@.deadlines.contains_key(j) ==> t
                        <= self@.deadlines[j]
                },
                None => self@.deadlines =~= Map::<usize, u64>::empty(),
            },
    {
        self.deadlines.earliest()
    }

    /// Whether the query at `k` is still pending.
    pub fn is_pending(&self, k: usize) -> (r: bool)
        ensures
            r == self@.pending.contains_key(k),
    {
        k < self.graces.len() && self.graces[k].is_some()
    }

    /// The deadline of the query at `k` has passed: it is pruned. Answers
    /// whether it was still pending, and so has to be cancelled.
    pub fn prune(&mut self, k: usize) -> (r: bool)
        requires
            old(self).wf(),
        ensures
            final(self).wf(),
            final(self)@ == pruned_spec(old(self)@, k),
            r == old(self)@.pending.contains_key(k),
    {
        let pending = self.is_pending(k);
        self.deadlines.remove(k);
        if k < self.graces.len() {
            self.graces.set(k, None);
        }
        proof {
            assert(pending_of(self.graces@) =~= pending_of(old(self).graces@).remove(k));
            match &self.optimal {
                Some(c) => {
                    assert(self.deadlines@ =~= deadlines_for(
                        self.start,
                        pending_of(self.graces@),
                        preference_spec(c.view()),
                    ));
                },
                None => {
                    assert(self.deadlines@ =~= Map::<usize, u64>::empty());
                },
            }
        }
        pending
    }

    /// Weighs `current` against the best answer so far.
    fn update_optimal_and_deadlines(&mut self, current: NarInfoQueryCandidate)
        requires
            old(self).wf(),
            current.substituter < old(self).substituters@.len(),
            current.bounded(),
        ensures
            final(self).wf(),
            final(self)@ == weighed_spec(old(self)@, current.view()),
    {
        let preference = current.calc_preference();
        let keep_previous = match &self.optimal {
            Some(prev) => prev.calc_preference() > preference,
            None => false,
        };
        if keep_previous {
            return;
        }
        let ghost old_deadlines = self.deadlines@;
        let ghost pending = pending_of(self.graces@);
        let mut k: usize = 0;
        while k < self.graces.len()
            invariant
                k <= self.graces@.len(),
                self.graces@ == old(self).graces@,
                self.start == old(self).start,
                self.substituters@ == old(self).substituters@,
                self.optimal == old(self).optimal,
                self.has_error == old(self).has_error,
                self.events@ == old(self).events@,
                pending == pending_of(self.graces@),
                self.graces@.len() == old(self).graces@.len(),
                forall|j: int|
                    0 <= j < self.graces@.len() && (#[trigger] self.graces@[j]) is Some ==> MIN_GRACE
                        <= self.graces@[j]->0 <= 0,
                MIN_PREFERENCE <= preference <= 0,
                old_deadlines == match old(self).optimal {
                    Some(c) => deadlines_for(self.start, pending, preference_spec(c.view())),
                    None => Map::<usize, u64>::empty(),
                },
                match old(self).optimal {
                    Some(c) => preference_spec(c.view()) <= preference,
                    None => true,
                },
                self.deadlines@ == Map::new(
                    |x: usize| pending.contains_key(x) && (x < k || old_deadlines.contains_key(x)),
                    |x: usize| if x < k {
                        deadline_spec(self.start, pending[x], preference as int)
                    } else {
                        old_deadlines[x]
                    },
                ),
            decreases self.graces@.len() - k,
        {
            match self.graces[k] {
                Some(grace) => {
                    let deadline = deadline_of(self.start, grace, preference);
                    let ghost before = self.deadlines@;
                    self.deadlines.insert_or_set_earlier(k, deadline);
                    proof {
                        assert(self.deadlines@ =~= Map::new(
                            |x: usize| pending.contains_key(x) && (x < k + 1
                                || old_deadlines.contains_key(x)),
                            |x: usize| if x < k + 1 {
                                deadline_spec(self.start, pending[x], preference as int)
                            } else {
                                old_deadlines[x]
                            },
                        ));
                    }
                },
                None => {
                    proof {
                        assert(self.deadlines@ =~= Map::new(
                            |x: usize| pending.contains_key(x) && (x < k + 1
                                || old_deadlines.contains_key(x)),
                            |x: usize| if x < k + 1 {
                                deadline_spec(self.start, pending[x], preference as int)
                            } else {
                                old_deadlines[x]
                            },
                        ));
                    }
                },
            }
            k = k + 1;
        }
        proof {
            assert(self.deadlines@ =~= deadlines_for(self.start, pending, preference as int));
        }
        self.optimal = Some(current);
    }
}

impl QueryRound {
    /// The query at `k` finished with `outcome`. The substituter's answer
    /// is reported and weighed against the best one so far; a query already
    /// pruned changes nothing.
    pub fn on_query_finished(
        &mut self,
        k: usize,
        outcome: Result<Option<NarInfoQueryData>, QueryNarInfoError>,
    )
        requires
            old(self).wf(),
        ensures
            final(self).wf(),
            final(self)@ == finished_spec(old(self)@, k, query_outcome_view(outcome)),
    {
        if !self.is_pending(k) {
            return;
        }
        let grace: i128 = match self.graces[k] {
            Some(g) => g,
            None => {
                assert(false);
                0
            },
        };
        let url = self.substituters[k].url().clone();
        let was_normal = self.substituters[k].is_normal();
        self.prune(k);
        assert(k < self.substituters@.len()) by {
            assert(self@.substituters.len() == old(self)@.substituters.len());
        }
        let ghost before = self.events@;
        match outcome {
            Err(_) => {
                self.has_error = true;
                self.events.push(NarResolutionEvent::SubstituterFailed(url));
                proof {
                    assert(events_view(self.events@) =~= events_view(before).push(
                        NarResolutionEventView::SubstituterFailed(url@),
                    ));
                }
            },
            Ok(data) => {
                if !was_normal {
                    self.events.push(NarResolutionEvent::SubstituterSucceeded(url));
                    proof {
                        assert(events_view(self.events@) =~= events_view(before).push(
                            NarResolutionEventView::SubstituterSucceeded(url@),
                        ));
                    }
                }
                match data {
                    Some(d) => {
                        let current = NarInfoQueryCandidate {
                            substituter: k,
                            nar_info: d.upstream_data,
                            grace,
                            latency: d.latency,
                        };
                        self.update_optimal_and_deadlines(current);
                    },
                    None => {},
                }
            },
        }
    }

    /// What the round answers, and what it reports of the substituters.
    pub fn finish(self) -> (r: (
        Result<Option<(Substituter, UpstreamNarInfoData)>, ResolveNarInfoError>,
        Vec<NarResolutionEvent>,
    ))
        requires
            self.wf(),
        ensures
            answer_view(r.0) == answer_spec(self@),
            events_view(r.1@) == self@.events,
    {
        let answer = match self.optimal {
            Some(c) => Ok(Some((self.substituters[c.substituter].clone(), c.nar_info))),
            None => if self.has_error {
                Err(ResolveNarInfoError::Fetch)
            } else {
                Ok(None)
            },
        };
        (answer, self.events)
    }
}

/// Resolves store path hashes against the substituters: which queries to
/// make, how to weigh their answers, and what to serve of the best one.
pub struct NarResolutionService {
    rewrite_nar_url: NarUrlRewriteOption,
    tolerance: u64,
}

/// The narinfo URL and the timeout of the query of each substituter, where
/// every URL can be formed.
pub open spec fn targets_formed(hash: Seq<char>, substituters: Seq<SubstituterView>) -> bool {
    forall|i: int| 0 <= i < substituters.len() ==> narinfo_url(
        #[trigger] substituters[i].target.url,
        hash,
    ) is Some
}

/// The outcome that a round's answer hands to the narinfo resolution.
pub open spec fn outcome_of_answer(
    o: Option<(SubstituterView, UpstreamNarInfoDataView)>,
) -> Option<(UpstreamNarInfoDataView, crate::domain::substituter::substituter_meta::SubstituterMetaView)> {
    match o {
        Some((s, d)) => Some((d, s.target)),
        None => None,
    }
}

impl NarResolutionService {
    pub closed spec fn rewrite_nar_url_spec(&self) -> NarUrlRewriteOption {
        self.rewrite_nar_url
    }

    pub closed spec fn tolerance_spec(&self) -> u64 {
        self.tolerance
    }

    /// A service that serves narinfo URLs as `rewrite_nar_url` says and
    /// values each step of priority at `tolerance` milliseconds.
    pub fn new(rewrite_nar_url: NarUrlRewriteOption, tolerance: u64) -> (r: NarResolutionService)
        ensures
            r.rewrite_nar_url_spec() == rewrite_nar_url,
            r.tolerance_spec() == tolerance,
    {
        NarResolutionService { rewrite_nar_url, tolerance }
    }

    /// The query to make of each substituter: the narinfo URL of `hash` on
    /// it and its narinfo timeout; `None` where a URL cannot be formed.
    pub fn query_targets(&self, hash: &StorePathHash, substituters: &Vec<Substituter>) -> (r: Option<
        Vec<(Url, Option<Duration>)>,
    >)
        ensures
            targets_formed(hash@, substituters@.map_values(|s: Substituter| s@)) <==> r is Some,
            r matches Some(targets) ==> {
                &&& targets@.len() == substituters@.len()
                &&& forall|i: int|
                    0 <= i < targets@.len() ==> (#[trigger] targets@[i]).0@ == narinfo_url(
                        substituters@[i]@.target.url,
                        hash@,
                    )->0 && targets@[i].1 == substituters@[i]@.target.nar_info_timeout
            },
    {
        let ghost views = substituters@.map_values(|s: Substituter| s@);
        let mut targets: Vec<(Url, Option<Duration>)> = Vec::new();
        let mut i: usize = 0;
        while i < substituters.len()
            invariant
                i <= substituters@.len(),
                views == substituters@.map_values(|s: Substituter| s@),
                targets@.len() == i,
                forall|j: int| 0 <= j < i ==> narinfo_url(#[trigger] views[j].target.url, hash@) is Some,
                forall|j: int|
                    0 <= j < i ==> (#[trigger] targets@[j]).0@ == narinfo_url(
                        substituters@[j]@.target.url,
                        hash@,
                    )->0 && targets@[j].1 == substituters@[j]@.target.nar_info_timeout,
            decreases substituters@.len() - i,
        {
            let target = substituters[i].target();
            match hash.try_on_substituter(target) {
                Some(url) => {
                    targets.push((url, target.nar_info_timeout()));
                },
                None => {
                    assert(!targets_formed(hash@, views)) by {
                        assert(views[i as int] == substituters@[i as int]@);
                    }
                    return None;
                },
            }
            i = i + 1;
        }
        Some(targets)
    }

    /// A round in which every one of `substituters` is queried, starting at
    /// `start` (milliseconds of a monotonic clock).
    pub fn start_query(&self, substituters: Vec<Substituter>, start: u64) -> (r: QueryRound)
        ensures
            r.wf(),
            r@ == round_start_spec(
                substituters@.map_values(|s: Substituter| s@),
                self.tolerance_spec(),
                start,
            ),
    {
        let mut graces: Vec<Option<i128>> = Vec::new();
        let mut i: usize = 0;
        while i < substituters.len()
            invariant
                i <= substituters@.len(),
                graces@.len() == i,
                forall|j: int|
                    0 <= j < i ==> (#[trigger] graces@[j]) == Some(
                        grace_spec(substituters@[j]@.target.priority, self.tolerance) as i128,
                    ) && MIN_GRACE <= grace_spec(substituters@[j]@.target.priority, self.tolerance)
                        <= 0,
            decreases substituters@.len() - i,
        {
            graces.push(Some(substituters[i].grace(self.tolerance)));
            i = i + 1;
        }
        let r = QueryRound {
            start,
            substituters,
            graces,
            deadlines: DeadlineGroup::new(),
            optimal: None,
            has_error: false,
            events: Vec::new(),
        };
        proof {
            let v = round_start_spec(
                r.substituters@.map_values(|s: Substituter| s@),
                self.tolerance,
                start,
            );
            assert(pending_of(r.graces@) =~= v.pending);
            assert(events_view(r.events@) =~= v.events);
        }
        r
    }

    /// What is served for a round's answer: the narinfo of the best answer
    /// as the rewrite option says, none found, or the round's error; `None`
    /// where the nar file's URL cannot be formed.
    pub fn resolution_of(
        &self,
        answer: Result<Option<(Substituter, UpstreamNarInfoData)>, ResolveNarInfoError>,
    ) -> (r: Option<Result<NarInfoResolution, ResolveNarInfoError>>)
        ensures
            match answer_view(answer) {
                Err(e) => r == Some(Err::<NarInfoResolution, ResolveNarInfoError>(e)),
                Ok(o) => if outcome_resolvable(outcome_of_answer(o)) {
                    r matches Some(Ok(res)) && res@ == resolution_spec(
                        outcome_of_answer(o),
                        self.rewrite_nar_url_spec(),
                    )
                } else {
                    r is None
                },
            },
    {
        match answer {
            Err(e) => Some(Err(e)),
            Ok(o) => {
                let outcome = match o {
                    Some((s, d)) => Some((d, s.target().clone())),
                    None => None,
                };
                match NarInfoResolution::try_from_completed_query(outcome, self.rewrite_nar_url) {
                    Some(res) => Some(Ok(res)),
                    None => None,
                }
            },
        }
    }
}

/// One thing that happens to a round: a query finishes, or a query is
/// pruned.
pub enum RoundStep {
    Finished(usize, QueryOutcomeView),
    Pruned(usize),
}

pub open spec fn step_spec(v: QueryRoundView, step: RoundStep) -> QueryRoundView {
    match step {
        RoundStep::Finished(k, outcome) => finished_spec(v, k, outcome),
        RoundStep::Pruned(k) => pruned_spec(v, k),
    }
}

/// The round after `steps`, in order.
pub open spec fn run_spec(v: QueryRoundView, steps: Seq<RoundStep>) -> QueryRoundView
    decreases steps.len(),
{
    if steps.len() == 0 {
        v
    } else {
        step_spec(run_spec(v, steps.drop_last()), steps.last())
    }
}

/// The answer that the `i`-th step brings, where it is a query that finished
/// with a narinfo while still pending.
pub open spec fn answered_candidate(v: QueryRoundView, steps: Seq<RoundStep>, i: int) -> Option<CandidateView> {
    let before = run_spec(v, steps.take(i));
    match steps[i] {
        RoundStep::Finished(k, QueryOutcomeView::Found(data, latency_ms)) => if before.pending.contains_key(k) {
            Some(CandidateView { substituter: k, nar_info: data, grace: before.pending[k], latency_ms })
        } else {
            None
        },
        _ => None,
    }
}

/// The preference of the answer that the `i`-th step brings, if any.
pub open spec fn answered_preference(v: QueryRoundView, steps: Seq<RoundStep>, i: int) -> Option<int> {
    match answered_candidate(v, steps, i) {
        Some(c) => Some(preference_spec(c)),
        None => None,
    }
}

/// A best answer, once there is one, is never replaced by a worse one:
/// whatever happens next, the round still has an answer at least as
/// preferred.
pub proof fn law_best_answer_never_worsens(v: QueryRoundView, step: RoundStep)
    requires
        v.optimal is Some,
    ensures
        step_spec(v, step).optimal is Some,
        preference_spec(v.optimal->0) <= preference_spec(step_spec(v, step).optimal->0),
{
}

/// A query that finishes while pending is no longer pending, and its
/// substituter is reported: a failure always, as failed, and the round then
/// has an error; an answer, found or missing, as succeeded exactly when the
/// substituter was not in normal standing. A query no longer pending changes
/// nothing.
pub proof fn law_finished_query_reported(v: QueryRoundView, k: usize, outcome: QueryOutcomeView)
    ensures
        v.pending.contains_key(k) ==> {
            let url = v.substituters[k as int].target.url;
            let r = finished_spec(v, k, outcome);
            &&& !r.pending.contains_key(k)
            &&& r.substituters == v.substituters
            &&& (outcome is Failed ==> r.events == v.events.push(
                NarResolutionEventView::SubstituterFailed(url),
            ) && r.has_error)
            &&& (!(outcome is Failed) && v.substituters[k as int].availability is Normal ==> r.events
                == v.events && r.has_error == v.has_error)
            &&& (!(outcome is Failed) && !(v.substituters[k as int].availability is Normal) ==> r.events
                == v.events.push(NarResolutionEventView::SubstituterSucceeded(url)) && r.has_error
                == v.has_error)
        },
        !v.pending.contains_key(k) ==> finished_spec(v, k, outcome) == v,
{
}

/// A query that answers while pending is weighed: afterwards the best answer
/// is it or the one before, and it is preferred at least as much as both;
/// of two equally preferred answers the later one is kept.
pub proof fn law_answer_weighed(v: QueryRoundView, k: usize, data: UpstreamNarInfoDataView, latency_ms: int)
    requires
        v.pending.contains_key(k),
    ensures
        ({
            let w = finished_spec(v, k, QueryOutcomeView::Found(data, latency_ms));
            let c = CandidateView { substituter: k, nar_info: data, grace: v.pending[k], latency_ms };
            &&& w.optimal is Some
            &&& preference_spec(c) <= preference_spec(w.optimal->0)
            &&& v.optimal is Some ==> preference_spec(v.optimal->0) <= preference_spec(w.optimal->0)
            &&& w.optimal == Some(c) || w.optimal == v.optimal
            &&& (v.optimal is None || preference_spec(v.optimal->0) <= preference_spec(c)) ==> w.optimal
                == Some(c)
        }),
{
}

/// The answer a round settles on is preferred at least as much as every
/// answer it received: the substituter chosen is the fastest once each one's
/// latency is weighed against its priority.
pub proof fn law_round_keeps_most_preferred(v: QueryRoundView, steps: Seq<RoundStep>, i: int)
    requires
        0 <= i < steps.len(),
        answered_preference(v, steps, i) is Some,
    ensures
        run_spec(v, steps).optimal is Some,
        answered_preference(v, steps, i)->0 <= preference_spec(run_spec(v, steps).optimal->0),
    decreases steps.len(),
{
    let prefix = steps.drop_last();
    if i == steps.len() - 1 {
        assert(steps.take(i) =~= prefix);
        match steps[i] {
            RoundStep::Finished(k, QueryOutcomeView::Found(data, latency_ms)) => {
                law_answer_weighed(run_spec(v, prefix), k, data, latency_ms);
            },
            _ => {},
        }
    } else {
        assert(prefix.take(i) =~= steps.take(i));
        assert(prefix[i] == steps[i]);
        assert(answered_preference(v, prefix, i) == answered_preference(v, steps, i));
        law_round_keeps_most_preferred(v, prefix, i);
        law_best_answer_never_worsens(run_spec(v, prefix), steps.last());
    }
}

/// The answer a round settles on is one it received: a query that finished
/// with that narinfo, from that substituter, while still pending.
pub proof fn law_answer_was_received(v: QueryRoundView, steps: Seq<RoundStep>)
    requires
        v.optimal is None,
    ensures
        run_spec(v, steps).optimal matches Some(c) ==> exists|i: int|
            0 <= i < steps.len() && answered_candidate(v, steps, i) == Some(c),
    decreases steps.len(),
{
    if steps.len() > 0 {
        let prefix = steps.drop_last();
        let last = steps.len() - 1;
        law_answer_was_received(v, prefix);
        assert(steps.take(last) =~= prefix);
        let w = run_spec(v, prefix);
        let after = step_spec(w, steps.last());
        if after.optimal is Some && after.optimal != w.optimal {
            assert(answered_candidate(v, steps, last) == after.optimal);
        } else if after.optimal is Some {
            let c = after.optimal->0;
            let i = choose|i: int| 0 <= i < prefix.len() && answered_candidate(v, prefix, i) == Some(c);
            assert(prefix.take(i) =~= steps.take(i));
            assert(prefix[i] == steps[i]);
            assert(answered_candidate(v, steps, i) == Some(c));
        }
    }
}

/// A pruned query could not have won: had it answered any later than its
/// deadline, its answer would have been less preferred than the best one
/// already there. A query whose grace does not fall short of the best answer
/// keeps its chance up to its deadline: answering by then it would have been
/// preferred at least as much. (Both hold while the deadline lies within the
/// clock's range.)
pub proof fn law_pruning_is_safe(round: QueryRound, k: usize, latency_ms: int)
    requires
        round.wf(),
        round@.deadlines.contains_key(k),
        0 <= latency_ms,
        round@.start + (round@.pending[k] - preference_spec(round@.optimal->0)) <= u64::MAX,
    ensures
        round@.optimal is Some,
        round@.pending.contains_key(k),
        round@.start + latency_ms > round@.deadlines[k] ==> round@.pending[k] - latency_ms
            < preference_spec(round@.optimal->0),
        round@.start + latency_ms <= round@.deadlines[k] && preference_spec(round@.optimal->0)
            <= round@.pending[k] ==> preference_spec(round@.optimal->0) <= round@.pending[k]
            - latency_ms,
{
    match round.optimal {
        Some(c) => {},
        None => {
            assert(!round@.deadlines.contains_key(k));
        },
    }
}

/// Only pending queries have deadlines, and once there is a best answer
/// every pending query has one.
pub proof fn law_deadlines_track_pending(round: QueryRound)
    requires
        round.wf(),
    ensures
        forall|k: usize| #[trigger] round@.deadlines.contains_key(k) ==> round@.pending.contains_key(k),
        round@.optimal is Some ==> forall|k: usize| #[trigger] round@.pending.contains_key(k)
            ==> round@.deadlines.contains_key(k),
        round@.optimal is None ==> round@.deadlines =~= Map::<usize, u64>::empty(),
{
}

} // verus!
