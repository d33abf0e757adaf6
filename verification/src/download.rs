//! Fetching one piece of content and storing it, and counting how a page's
//! downloads went.
//!
//! The network and the filesystem belong to the caller. What is decided here
//! is what to ask for, under which name to store it, and what follows from
//! each thing the caller finds.

use vstd::prelude::*;
use crate::media::{MediaReference, MediaReferenceView};
use crate::params::{media_parameters, media_params, optional_parameters, Parameters};
use crate::url::{extension, extension_of, file_name, file_name_of, UrlParseError};

verus! {

/// Downloads in flight at any one time, at most.
pub const CONCURRENT_DOWNLOAD_REQUESTS: usize = 50;

/// Why a download came to nothing.
#[derive(Clone, Copy, Debug, PartialEq, Eq, Structural)]
pub enum DownloadError {
    /// No encoding of the video could be chosen.
    Selection,
    /// The address names no file.
    UrlParse(UrlParseError),
    /// The content could not be fetched.
    Fetch,
    /// The content could not be stored.
    Storage,
}

/// How one download ended.
#[derive(Clone, Copy, Debug, PartialEq, Eq, Structural)]
pub enum DownloadOutcome {
    /// Fetched and stored.
    Succeeded,
    /// Already there: nothing was fetched.
    Skipped,
    Failed(DownloadError),
}

/// What to fetch: the address, and the query parameters to send along
/// where there are any.
#[derive(Debug)]
pub struct DownloadRequest {
    pub url: String,
    pub params: Option<egg_mode::raw::ParamList>,
}

/// A `DownloadRequest` as contracts speak of it.
pub struct DownloadRequestView {
    pub url: Seq<char>,
    pub params: Option<Parameters>,
}

impl View for DownloadRequest {
    type V = DownloadRequestView;

    open spec fn view(&self) -> DownloadRequestView {
        DownloadRequestView { url: self.url@, params: optional_parameters(self.params) }
    }
}

/// How one piece of content is to be had: the name of its file in the
/// destination directory, which is looked for first, and the request to
/// fetch it with where the file is not there. A name without an extension
/// has no request; that matters only once the file is found missing.
#[derive(Debug)]
pub struct DownloadPlan {
    pub file_name: String,
    pub request: Result<DownloadRequest, UrlParseError>,
}

/// A `DownloadPlan` as contracts speak of it.
pub struct DownloadPlanView {
    pub file_name: Seq<char>,
    pub request: Result<DownloadRequestView, UrlParseError>,
}

/// A request or the reason for having none, as contracts speak of it.
pub open spec fn request_view(request: Result<DownloadRequest, UrlParseError>) -> Result<
    DownloadRequestView,
    UrlParseError,
> {
    match request {
        Ok(r) => Ok(r@),
        Err(e) => Err(e),
    }
}

impl View for DownloadPlan {
    type V = DownloadPlanView;

    open spec fn view(&self) -> DownloadPlanView {
        DownloadPlanView { file_name: self.file_name@, request: request_view(self.request) }
    }
}

/// The request for the content at `url`, to be stored under `name`: the
/// parameters go by the extension of the name, and without an extension
/// there is no request.
pub open spec fn request_of(url: Seq<char>, name: Seq<char>) -> Result<
    DownloadRequestView,
    UrlParseError,
> {
    match extension_of(name) {
        None => Err(UrlParseError::NoExtension),
        Some(ext) => Ok(DownloadRequestView { url, params: media_parameters(ext) }),
    }
}

/// The plan for the content at `url`: there is one wherever the address has
/// a file name.
pub open spec fn plan_for(url: Seq<char>) -> Result<DownloadPlanView, UrlParseError> {
    match file_name_of(url) {
        None => Err(UrlParseError::NoPathSegment),
        Some(name) => Ok(DownloadPlanView { file_name: name, request: request_of(url, name) }),
    }
}

/// The plan for a reference: that for its address, where it has one.
pub open spec fn plan_of(reference: MediaReferenceView) -> Result<DownloadPlanView, DownloadError> {
    match reference.source {
        Err(_) => Err(DownloadError::Selection),
        Ok(url) => match plan_for(url) {
            Err(e) => Err(DownloadError::UrlParse(e)),
            Ok(plan) => Ok(plan),
        },
    }
}

impl DownloadPlan {
    /// Works out the plan for the content at `url`. Fails only where the
    /// address has no file name.
    pub fn for_url(url: &str) -> (plan: Result<DownloadPlan, UrlParseError>)
        ensures
            match plan {
                Ok(p) => plan_for(url@) == Ok::<DownloadPlanView, UrlParseError>(p@),
                Err(e) => plan_for(url@) == Err::<DownloadPlanView, UrlParseError>(e),
            },
    {
        let name = match file_name(url) {
            Err(e) => { return Err(e); },
            Ok(name) => name,
        };
        let request = match extension(name.as_str()) {
            Err(e) => Err(e),
            Ok(ext) => Ok(
                DownloadRequest { url: url.to_owned(), params: media_params(ext.as_str()) },
            ),
        };
        Ok(DownloadPlan { file_name: name, request })
    }

    /// Works out the plan for a reference. One whose video had no encoding
    /// to choose fails here, before anything is looked for or fetched.
    pub fn for_reference(reference: &MediaReference) -> (plan: Result<DownloadPlan, DownloadError>)
        ensures
            match plan {
                Ok(p) => plan_of(reference@) == Ok::<DownloadPlanView, DownloadError>(p@),
                Err(e) => plan_of(reference@) == Err::<DownloadPlanView, DownloadError>(e),
            },
    {
        match &reference.source {
            Err(_) => Err(DownloadError::Selection),
            Ok(url) => match DownloadPlan::for_url(url.as_str()) {
                Err(e) => Err(DownloadError::UrlParse(e)),
                Ok(plan) => Ok(plan),
            },
        }
    }
}

/// Where one download stands, which is also what its caller is to do next.
#[derive(Clone, Copy, Debug, PartialEq, Eq, Structural)]
pub enum Downloader {
    /// Look whether the destination holds a file of the plan's name.
    /// `fetchable` says whether the plan has a request to go on with where
    /// it does not.
    Probing { fetchable: bool },
    /// Fetch the content. Only here is the network used.
    Fetching,
    /// Write the content to the file.
    Storing,
    /// Nothing more to do.
    Finished(DownloadOutcome),
}

/// What the caller found when it did what the state asked for.
#[derive(Clone, Copy, Debug, PartialEq, Eq, Structural)]
pub enum DownloadEvent {
    Probed { present: bool },
    Fetched { ok: bool },
    Stored { ok: bool },
}

/// The state in which the download of a reference starts. It is looked for
/// wherever its address has a file name; it has failed already where no
/// encoding was chosen, and where the address has no file name.
pub open spec fn start_of(reference: MediaReferenceView) -> Downloader {
    match plan_of(reference) {
        Ok(plan) => Downloader::Probing { fetchable: plan.request is Ok },
        Err(e) => Downloader::Finished(DownloadOutcome::Failed(e)),
    }
}

/// The state that follows. A file that is present ends the download at
/// once, as skipped; a file that is missing is fetched, or the download
/// fails where its name has no extension to fetch it by; an event that the
/// state did not ask for changes nothing.
pub open spec fn next_state(state: Downloader, event: DownloadEvent) -> Downloader {
    match (state, event) {
        (Downloader::Probing { .. }, DownloadEvent::Probed { present: true }) => {
            Downloader::Finished(DownloadOutcome::Skipped)
        },
        (Downloader::Probing { fetchable: true }, DownloadEvent::Probed { present: false }) => {
            Downloader::Fetching
        },
        (Downloader::Probing { fetchable: false }, DownloadEvent::Probed { present: false }) => {
            Downloader::Finished(
                DownloadOutcome::Failed(DownloadError::UrlParse(UrlParseError::NoExtension)),
            )
        },
        (Downloader::Fetching, DownloadEvent::Fetched { ok: true }) => Downloader::Storing,
        (Downloader::Fetching, DownloadEvent::Fetched { ok: false }) => Downloader::Finished(
            DownloadOutcome::Failed(DownloadError::Fetch),
        ),
        (Downloader::Storing, DownloadEvent::Stored { ok: true }) => Downloader::Finished(
            DownloadOutcome::Succeeded,
        ),
        (Downloader::Storing, DownloadEvent::Stored { ok: false }) => Downloader::Finished(
            DownloadOutcome::Failed(DownloadError::Storage),
        ),
        _ => state,
    }
}

/// The state after a run of events.
pub open spec fn state_after(state: Downloader, events: Seq<DownloadEvent>) -> Downloader
    decreases events.len(),
{
    if events.len() == 0 {
        state
    } else {
        next_state(state_after(state, events.drop_last()), events.last())
    }
}

impl Downloader {
    /// The state in which a download of `reference` starts, and its plan
    /// where it has one.
    pub fn start(reference: &MediaReference) -> (begun: (Downloader, Option<DownloadPlan>))
        ensures
            begun.0 == start_of(reference@),
            match begun.1 {
                Some(p) => plan_of(reference@) == Ok::<DownloadPlanView, DownloadError>(p@),
                None => plan_of(reference@) is Err,
            },
    {
        match DownloadPlan::for_reference(reference) {
            Ok(plan) => {
                let fetchable = plan.request.is_ok();
                (Downloader::Probing { fetchable }, Some(plan))
            },
            Err(e) => (Downloader::Finished(DownloadOutcome::Failed(e)), None),
        }
    }

    /// Takes what the caller found and moves on.
    pub fn advance(self, event: DownloadEvent) -> (next: Downloader)
        ensures
            next == next_state(self, event),
    {
        match self {
            Downloader::Probing { fetchable } => match event {
                DownloadEvent::Probed { present } => if present {
                    Downloader::Finished(DownloadOutcome::Skipped)
                } else if fetchable {
                    Downloader::Fetching
                } else {
                    Downloader::Finished(
                        DownloadOutcome::Failed(
                            DownloadError::UrlParse(UrlParseError::NoExtension),
                        ),
                    )
                },
                _ => self,
            },
            Downloader::Fetching => match event {
                DownloadEvent::Fetched { ok } => if ok {
                    Downloader::Storing
                } else {
                    Downloader::Finished(DownloadOutcome::Failed(DownloadError::Fetch))
                },
                _ => self,
            },
            Downloader::Storing => match event {
                DownloadEvent::Stored { ok } => if ok {
                    Downloader::Finished(DownloadOutcome::Succeeded)
                } else {
                    Downloader::Finished(DownloadOutcome::Failed(DownloadError::Storage))
                },
                _ => self,
            },
            Downloader::Finished(_) => self,
        }
    }

    /// How the download ended, once it has.
    pub fn outcome(&self) -> (ended: Option<DownloadOutcome>)
        ensures
            ended == match *self {
                Downloader::Finished(outcome) => Some(outcome),
                _ => None,
            },
    {
        match self {
            Downloader::Finished(outcome) => Some(*outcome),
            _ => None,
        }
    }
}

/// A file that is present when the download of a reference starts is
/// skipped, whatever its name: it is looked for wherever the address has a
/// file name, with or without an extension.
pub proof fn lemma_present_file_is_skipped(reference: MediaReferenceView)
    requires
        reference.source matches Ok(url) && file_name_of(url) is Some,
    ensures
        start_of(reference) is Probing,
        next_state(start_of(reference), DownloadEvent::Probed { present: true })
            == Downloader::Finished(DownloadOutcome::Skipped),
{
}

/// A file that is missing and whose name has no extension cannot be
/// fetched: the download fails, and names the extension as the reason.
pub proof fn lemma_missing_file_needs_extension(reference: MediaReferenceView)
    requires
        reference.source matches Ok(url) && file_name_of(url) matches Some(name) && extension_of(
            name,
        ) is None,
    ensures
        next_state(start_of(reference), DownloadEvent::Probed { present: false })
            == Downloader::Finished(
            DownloadOutcome::Failed(DownloadError::UrlParse(UrlParseError::NoExtension)),
        ),
{
}

/// A download that has ended stays as it ended.
pub proof fn lemma_finished_stays(outcome: DownloadOutcome, events: Seq<DownloadEvent>)
    ensures
        state_after(Downloader::Finished(outcome), events) == Downloader::Finished(outcome),
    decreases events.len(),
{
    if events.len() > 0 {
        lemma_finished_stays(outcome, events.drop_last());
    }
}

/// A run of events is its first event followed by the rest.
pub proof fn lemma_state_after_first(
    state: Downloader,
    first: DownloadEvent,
    rest: Seq<DownloadEvent>,
)
    ensures
        state_after(state, seq![first] + rest) == state_after(next_state(state, first), rest),
    decreases rest.len(),
{
    let all = seq![first] + rest;
    if rest.len() == 0 {
        assert(state_after(state, all.drop_last()) == state);
    } else {
        assert(all.drop_last() =~= seq![first] + rest.drop_last());
        lemma_state_after_first(state, first, rest.drop_last());
    }
}

/// Where the file is already present the download ends as skipped, and
/// nothing is ever fetched for it: whatever events follow, the download is
/// never in the state that asks for the network.
pub proof fn lemma_present_file_is_never_fetched(fetchable: bool, later: Seq<DownloadEvent>)
    ensures
        state_after(
            Downloader::Probing { fetchable },
            seq![DownloadEvent::Probed { present: true }] + later,
        ) == Downloader::Finished(DownloadOutcome::Skipped),
        forall|k: int|
            0 <= k <= later.len() + 1 ==> #[trigger] state_after(
                Downloader::Probing { fetchable },
                (seq![DownloadEvent::Probed { present: true }] + later).take(k),
            ) != Downloader::Fetching,
{
    let begun = Downloader::Probing { fetchable };
    let found = DownloadEvent::Probed { present: true };
    let events = seq![found] + later;
    assert forall|k: int| 1 <= k <= later.len() + 1 implies #[trigger] state_after(
        begun,
        events.take(k),
    ) == Downloader::Finished(DownloadOutcome::Skipped) by {
        assert(events.take(k) =~= seq![found] + later.take(k - 1));
        lemma_state_after_first(begun, found, later.take(k - 1));
        lemma_finished_stays(DownloadOutcome::Skipped, later.take(k - 1));
    }
    assert(events.take(later.len() as int + 1) =~= events);
    assert(events.take(0) =~= Seq::<DownloadEvent>::empty());
}

/// A download that did not fail: it was stored now, or had been before.
pub open spec fn completed(outcome: DownloadOutcome) -> bool {
    !(outcome is Failed)
}

/// How many of the outcomes are no failure.
pub open spec fn completed_count(outcomes: Seq<DownloadOutcome>) -> nat {
    outcomes.filter(|o: DownloadOutcome| completed(o)).len()
}

/// The count of what did not fail is the number of downloads that were
/// stored plus the number of those that were skipped.
pub proof fn lemma_completed_count_by_outcome(outcomes: Seq<DownloadOutcome>)
    ensures
        completed_count(outcomes) == outcomes.to_multiset().count(DownloadOutcome::Succeeded)
            + outcomes.to_multiset().count(DownloadOutcome::Skipped),
    decreases outcomes.len(),
{
    broadcast use vstd::multiset::group_multiset_axioms;

    reveal(Seq::filter);
    if outcomes.len() == 0 {
        vstd::seq_lib::to_multiset_len(outcomes);
    } else {
        let front = outcomes.drop_last();
        lemma_completed_count_by_outcome(front);
        assert(outcomes =~= front.push(outcomes.last()));
        vstd::seq_lib::to_multiset_build(front, outcomes.last());
    }
}

/// Where no download failed, all of them are counted.
pub proof fn lemma_none_failed_all_counted(outcomes: Seq<DownloadOutcome>)
    requires
        forall|i: int| 0 <= i < outcomes.len() ==> completed(#[trigger] outcomes[i]),
    ensures
        completed_count(outcomes) == outcomes.len(),
    decreases outcomes.len(),
{
    reveal(Seq::filter);
    if outcomes.len() > 0 {
        lemma_none_failed_all_counted(outcomes.drop_last());
    }
}

/// The counts do not depend on the order in which the downloads ended.
pub proof fn lemma_summary_ignores_order(a: Seq<DownloadOutcome>, b: Seq<DownloadOutcome>)
    requires
        a.to_multiset() == b.to_multiset(),
    ensures
        a.len() == b.len(),
        completed_count(a) == completed_count(b),
{
    vstd::seq_lib::to_multiset_len(a);
    vstd::seq_lib::to_multiset_len(b);
    lemma_completed_count_by_outcome(a);
    lemma_completed_count_by_outcome(b);
}

/// How a page's downloads went: how many did not fail, out of how many.
#[derive(Clone, Copy, Debug, PartialEq, Eq, Structural)]
pub struct Summary {
    pub completed: usize,
    pub total: usize,
}

impl DownloadOutcome {
    /// Whether this is no failure.
    pub fn is_completed(&self) -> (yes: bool)
        ensures
            yes == completed(*self),
    {
        match self {
            DownloadOutcome::Failed(_) => false,
            _ => true,
        }
    }
}

/// Counts the outcomes of a page's downloads.
pub fn summarize(outcomes: &Vec<DownloadOutcome>) -> (summary: Summary)
    ensures
        summary.total == outcomes@.len(),
        summary.completed == completed_count(outcomes@),
        summary.completed <= summary.total,
{
    let ghost kept = |o: DownloadOutcome| completed(o);
    let mut done: usize = 0;
    let mut i: usize = 0;
    while i < outcomes.len()
        invariant
            i <= outcomes.len(),
            kept == (|o: DownloadOutcome| completed(o)),
            done == outcomes@.take(i as int).filter(kept).len(),
            done <= i,
        decreases outcomes.len() - i,
    {
        proof {
            assert(outcomes@.take(i as int + 1).drop_last() =~= outcomes@.take(i as int));
            reveal(Seq::filter);
        }
        if outcomes[i].is_completed() {
            done += 1;
        }
        i += 1;
    }
    assert(outcomes@.take(outcomes.len() as int) =~= outcomes@);
    Summary { completed: done, total: outcomes.len() }
}

} // verus!
