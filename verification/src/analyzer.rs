//! The validation worker: it takes the pending sites one by one through
//! liveness, scan and link search, and records what came of each.
//!
//! The library decides; its caller does the work. `analyzer` takes the state
//! of the worker and what has just happened, and answers with the next state
//! and what to do next. The worker never ends.

use crate::cloudflare::{ScanError, UrlScan};
use crate::relatedlinks::{
    check_link, is_live, link_models, LinkModel, Probe, RelatedLink, SearchError,
};
use vstd::prelude::*;

verus! {

/// The seconds between two passes over the queue.
pub const CYCLE_SECS: u64 = 60;

/// How many links each platform contributes to a site at most.
pub const LINK_CAP: usize = 5;

/// Why a site was turned down.
#[derive(Debug, Clone, Copy, PartialEq, Eq, Structural)]
pub enum RejectReason {
    /// The site did not answer with status 200.
    Unreachable,
    /// The scan did not come to a verdict.
    Scan(ScanError),
    /// The scan found the site too large, or malicious.
    Policy,
    /// A search for discussions of the site failed.
    Links(SearchError),
}

/// Whether a site that was turned down for `reason` is done with: it leaves
/// the queue and is not validated again. This holds for every reason, also
/// for those that may pass, such as a site that did not answer.
pub open spec fn rejection_is_final(reason: RejectReason) -> bool {
    true
}

impl RejectReason {
    /// Whether a site that was turned down for this reason leaves the queue
    /// for good.
    pub fn is_final(&self) -> (done: bool)
        ensures
            done == rejection_is_final(*self),
    {
        true
    }
}

/// What the caller reports to the worker.
#[derive(Debug)]
pub enum WorkerEvent {
    /// The worker is to begin.
    Start,
    /// The pause is over.
    Elapsed,
    /// The pending sites, in the order in which they are to be taken; `None`
    /// if they could not be fetched.
    Queue(Option<Vec<String>>),
    /// How the request for the site ended.
    Liveness(Probe),
    /// How the scan of the site ended.
    Scanned(Result<UrlScan, ScanError>),
    /// How the API search for the site ended.
    ApiLinks(Result<Vec<RelatedLink>, SearchError>),
    /// How the scrape search for the site ended.
    ScrapedLinks(Result<Vec<RelatedLink>, SearchError>),
    /// The repository has taken what it was given.
    Recorded,
    /// The repository could not take what it was given.
    Unrecorded,
}

/// Where the worker stands. `site` is the site in hand, `rest` the sites of
/// this pass that follow it.
#[derive(Debug)]
pub enum WorkerState {
    /// Before the first pass.
    Idle,
    /// Between two passes.
    Sleeping,
    /// The queue is awaited.
    Fetching,
    /// The answer of the site is awaited.
    CheckingLive { site: String, rest: Vec<String> },
    /// The scan of the site is awaited.
    Scanning { site: String, rest: Vec<String> },
    /// The API search is awaited; the scan measured `size`.
    SearchingApi { site: String, rest: Vec<String>, size: u32 },
    /// The scrape search is awaited; the API search gave `api`.
    SearchingScrape { site: String, rest: Vec<String>, size: u32, api: Vec<RelatedLink> },
    /// The acceptance is being recorded; `links` are to be recorded next.
    Accepting { site: String, rest: Vec<String>, links: Vec<RelatedLink> },
    /// The last record of the site in hand is being made.
    Closing { rest: Vec<String> },
}

/// What the caller is to do next.
#[derive(Debug)]
pub enum WorkerAction {
    /// Wait this long and report that the time has elapsed.
    Pause { seconds: u64 },
    /// Fetch the pending sites and report them.
    FetchQueue,
    /// GET the site and report how that ended.
    CheckLive { site: String },
    /// Have the site scanned and report the result.
    Scan { site: String },
    /// Run the API search for the site and report the result.
    SearchApi { site: String },
    /// Run the scrape search for the site and report the result.
    SearchScrape { site: String },
    /// Record that the site was turned down, and report when that is done.
    Reject { site: String, reason: RejectReason },
    /// Record that the site was turned down at the size measured, and report when that is done.
    RejectWithSize { site: String, size: u32, reason: RejectReason },
    /// Record that the site was accepted at the size measured, and report when that is done.
    Accept { site: String, size: u32 },
    /// Put `links` in place of the site's related links, and report when that is done.
    ReplaceRelated { site: String, links: Vec<RelatedLink> },
}

/// The texts of a list of strings, in the same order.
pub open spec fn texts(strings: Seq<String>) -> Seq<Seq<char>> {
    strings.map_values(|s: String| s@)
}

/// `WorkerEvent` as plain values.
pub enum WorkerEventModel {
    Start,
    Elapsed,
    Queue(Option<Seq<Seq<char>>>),
    Liveness(Probe),
    Scanned(Result<UrlScan, ScanError>),
    ApiLinks(Result<Seq<LinkModel>, SearchError>),
    ScrapedLinks(Result<Seq<LinkModel>, SearchError>),
    Recorded,
    Unrecorded,
}

/// `WorkerState` as plain values.
pub enum WorkerStateModel {
    Idle,
    Sleeping,
    Fetching,
    CheckingLive { site: Seq<char>, rest: Seq<Seq<char>> },
    Scanning { site: Seq<char>, rest: Seq<Seq<char>> },
    SearchingApi { site: Seq<char>, rest: Seq<Seq<char>>, size: u32 },
    SearchingScrape { site: Seq<char>, rest: Seq<Seq<char>>, size: u32, api: Seq<LinkModel> },
    Accepting { site: Seq<char>, rest: Seq<Seq<char>>, links: Seq<LinkModel> },
    Closing { rest: Seq<Seq<char>> },
}

/// `WorkerAction` as plain values.
pub enum WorkerActionModel {
    Pause { seconds: u64 },
    FetchQueue,
    CheckLive { site: Seq<char> },
    Scan { site: Seq<char> },
    SearchApi { site: Seq<char> },
    SearchScrape { site: Seq<char> },
    Reject { site: Seq<char>, reason: RejectReason },
    RejectWithSize { site: Seq<char>, size: u32, reason: RejectReason },
    Accept { site: Seq<char>, size: u32 },
    ReplaceRelated { site: Seq<char>, links: Seq<LinkModel> },
}

/// The result of a search as plain values.
pub open spec fn links_result(result: Result<Vec<RelatedLink>, SearchError>) -> Result<
    Seq<LinkModel>,
    SearchError,
> {
    match result {
        Ok(links) => Ok(link_models(links@)),
        Err(e) => Err(e),
    }
}

impl View for WorkerEvent {
    type V = WorkerEventModel;

    open spec fn view(&self) -> WorkerEventModel {
        match *self {
            WorkerEvent::Start => WorkerEventModel::Start,
            WorkerEvent::Elapsed => WorkerEventModel::Elapsed,
            WorkerEvent::Queue(None) => WorkerEventModel::Queue(None),
            WorkerEvent::Queue(Some(sites)) => WorkerEventModel::Queue(Some(texts(sites@))),
            WorkerEvent::Liveness(probe) => WorkerEventModel::Liveness(probe),
            WorkerEvent::Scanned(result) => WorkerEventModel::Scanned(result),
            WorkerEvent::ApiLinks(result) => WorkerEventModel::ApiLinks(links_result(result)),
            WorkerEvent::ScrapedLinks(result) => WorkerEventModel::ScrapedLinks(
                links_result(result),
            ),
            WorkerEvent::Recorded => WorkerEventModel::Recorded,
            WorkerEvent::Unrecorded => WorkerEventModel::Unrecorded,
        }
    }
}

impl View for WorkerState {
    type V = WorkerStateModel;

    open spec fn view(&self) -> WorkerStateModel {
        match *self {
            WorkerState::Idle => WorkerStateModel::Idle,
            WorkerState::Sleeping => WorkerStateModel::Sleeping,
            WorkerState::Fetching => WorkerStateModel::Fetching,
            WorkerState::CheckingLive { site, rest } => WorkerStateModel::CheckingLive {
                site: site@,
                rest: texts(rest@),
            },
            WorkerState::Scanning { site, rest } => WorkerStateModel::Scanning {
                site: site@,
                rest: texts(rest@),
            },
            WorkerState::SearchingApi { site, rest, size } => WorkerStateModel::SearchingApi {
                site: site@,
                rest: texts(rest@),
                size,
            },
            WorkerState::SearchingScrape {
                site,
                rest,
                size,
                api,
            } => WorkerStateModel::SearchingScrape {
                site: site@,
                rest: texts(rest@),
                size,
                api: link_models(api@),
            },
            WorkerState::Accepting { site, rest, links } => WorkerStateModel::Accepting {
                site: site@,
                rest: texts(rest@),
                links: link_models(links@),
            },
            WorkerState::Closing { rest } => WorkerStateModel::Closing { rest: texts(rest@) },
        }
    }
}

impl View for WorkerAction {
    type V = WorkerActionModel;

    open spec fn view(&self) -> WorkerActionModel {
        match *self {
            WorkerAction::Pause { seconds } => WorkerActionModel::Pause { seconds },
            WorkerAction::FetchQueue => WorkerActionModel::FetchQueue,
            WorkerAction::CheckLive { site } => WorkerActionModel::CheckLive { site: site@ },
            WorkerAction::Scan { site } => WorkerActionModel::Scan { site: site@ },
            WorkerAction::SearchApi { site } => WorkerActionModel::SearchApi { site: site@ },
            WorkerAction::SearchScrape { site } => WorkerActionModel::SearchScrape { site: site@ },
            WorkerAction::Reject { site, reason } => WorkerActionModel::Reject {
                site: site@,
                reason,
            },
            WorkerAction::RejectWithSize { site, size, reason } => WorkerActionModel::RejectWithSize {
                site: site@,
                size,
                reason,
            },
            WorkerAction::Accept { site, size } => WorkerActionModel::Accept { site: site@, size },
            WorkerAction::ReplaceRelated { site, links } => WorkerActionModel::ReplaceRelated {
                site: site@,
                links: link_models(links@),
            },
        }
    }
}

/// The first links of a platform's result, up to the cap.
pub open spec fn capped(links: Seq<LinkModel>) -> Seq<LinkModel> {
    if links.len() > LINK_CAP {
        links.take(LINK_CAP as int)
    } else {
        links
    }
}

/// The related links of a site: the first links of the API search, then the
/// first links of the scrape search. The two are not ranked against each
/// other.
pub open spec fn aggregated(api: Seq<LinkModel>, scraped: Seq<LinkModel>) -> Seq<LinkModel> {
    capped(api) + capped(scraped)
}

/// The pause between two passes.
pub open spec fn sleeps() -> (WorkerStateModel, WorkerActionModel) {
    (WorkerStateModel::Sleeping, WorkerActionModel::Pause { seconds: CYCLE_SECS })
}

/// What the worker does with the sites still to take: it takes the first of
/// them, and pauses when none is left.
pub open spec fn next_site(rest: Seq<Seq<char>>) -> (WorkerStateModel, WorkerActionModel) {
    if rest.len() == 0 {
        sleeps()
    } else {
        (
            WorkerStateModel::CheckingLive { site: rest[0], rest: rest.drop_first() },
            WorkerActionModel::CheckLive { site: rest[0] },
        )
    }
}

/// The record that turns `site` down, after which the next site is taken.
pub open spec fn rejects(site: Seq<char>, rest: Seq<Seq<char>>, reason: RejectReason) -> (
    WorkerStateModel,
    WorkerActionModel,
) {
    (WorkerStateModel::Closing { rest }, WorkerActionModel::Reject { site, reason })
}

/// The worker: the state after `event` arrives in `state`, and what is to be
/// done then.
///
/// The first pass begins at once, every later one after a pause; a queue
/// that cannot be fetched is tried again after the same pause. The sites of
/// a pass are taken in the order of the queue. A site must answer with
/// status 200, then be scanned and found acceptable, then be searched for on
/// both platforms; only then is it accepted, and its related links are put
/// in place. Whatever fails on the way turns the site down, with the reason,
/// and the next site is taken. A record that the repository could not take
/// ends the pass, and so does an event that the state does not wait for.
pub open spec fn worker_step(state: WorkerStateModel, event: WorkerEventModel) -> (
    WorkerStateModel,
    WorkerActionModel,
) {
    match (state, event) {
        (WorkerStateModel::Idle, WorkerEventModel::Start) => (
            WorkerStateModel::Fetching,
            WorkerActionModel::FetchQueue,
        ),
        (WorkerStateModel::Sleeping, WorkerEventModel::Elapsed) => (
            WorkerStateModel::Fetching,
            WorkerActionModel::FetchQueue,
        ),
        (WorkerStateModel::Fetching, WorkerEventModel::Queue(Some(sites))) => next_site(sites),
        (WorkerStateModel::Fetching, WorkerEventModel::Queue(None)) => sleeps(),
        (WorkerStateModel::CheckingLive { site, rest }, WorkerEventModel::Liveness(probe)) => {
            if is_live(probe) {
                (WorkerStateModel::Scanning { site, rest }, WorkerActionModel::Scan { site })
            } else {
                rejects(site, rest, RejectReason::Unreachable)
            }
        },
        (WorkerStateModel::Scanning { site, rest }, WorkerEventModel::Scanned(Ok(verdict))) => {
            if verdict.acceptable {
                (
                    WorkerStateModel::SearchingApi { site, rest, size: verdict.size },
                    WorkerActionModel::SearchApi { site },
                )
            } else {
                (
                    WorkerStateModel::Closing { rest },
                    WorkerActionModel::RejectWithSize {
                        site,
                        size: verdict.size,
                        reason: RejectReason::Policy,
                    },
                )
            }
        },
        (WorkerStateModel::Scanning { site, rest }, WorkerEventModel::Scanned(Err(e))) => rejects(
            site,
            rest,
            RejectReason::Scan(e),
        ),
        (
            WorkerStateModel::SearchingApi { site, rest, size },
            WorkerEventModel::ApiLinks(Ok(api)),
        ) => (
            WorkerStateModel::SearchingScrape { site, rest, size, api },
            WorkerActionModel::SearchScrape { site },
        ),
        (
            WorkerStateModel::SearchingApi { site, rest, .. },
            WorkerEventModel::ApiLinks(Err(e)),
        ) => rejects(site, rest, RejectReason::Links(e)),
        (
            WorkerStateModel::SearchingScrape { site, rest, size, api },
            WorkerEventModel::ScrapedLinks(Ok(scraped)),
        ) => (
            WorkerStateModel::Accepting { site, rest, links: aggregated(api, scraped) },
            WorkerActionModel::Accept { site, size },
        ),
        (
            WorkerStateModel::SearchingScrape { site, rest, .. },
            WorkerEventModel::ScrapedLinks(Err(e)),
        ) => rejects(site, rest, RejectReason::Links(e)),
        (WorkerStateModel::Accepting { site, rest, links }, WorkerEventModel::Recorded) => (
            WorkerStateModel::Closing { rest },
            WorkerActionModel::ReplaceRelated { site, links },
        ),
        (WorkerStateModel::Closing { rest }, WorkerEventModel::Recorded) => next_site(rest),
        _ => sleeps(),
    }
}

/// Whether a site is reachable, given how the request for it ended: it is if
/// and only if it answered with status 200.
pub fn site_live(probe: Probe) -> (r: Result<(), RejectReason>)
    ensures
        r == if is_live(probe) {
            Ok::<(), RejectReason>(())
        } else {
            Err::<(), RejectReason>(RejectReason::Unreachable)
        },
{
    if check_link(probe) {
        Ok(())
    } else {
        Err(RejectReason::Unreachable)
    }
}

/// The related links of a site, from what the two searches gave: the first
/// five links of the API search, then the first five of the scrape search.
pub fn aggregate(api: Vec<RelatedLink>, scraped: Vec<RelatedLink>) -> (links: Vec<RelatedLink>)
    ensures
        link_models(links@) == aggregated(link_models(api@), link_models(scraped@)),
        links@.len() <= 10,
{
    let mut links: Vec<RelatedLink> = api;
    let mut tail: Vec<RelatedLink> = scraped;
    links.truncate(LINK_CAP);
    tail.truncate(LINK_CAP);
    links.append(&mut tail);
    links
}

fn sleep() -> (next: (WorkerState, WorkerAction))
    ensures
        (next.0@, next.1@) == sleeps(),
{
    (WorkerState::Sleeping, WorkerAction::Pause { seconds: CYCLE_SECS })
}

fn take_next(rest: Vec<String>) -> (next: (WorkerState, WorkerAction))
    ensures
        (next.0@, next.1@) == next_site(texts(rest@)),
{
    let mut rest = rest;
    if rest.len() == 0 {
        sleep()
    } else {
        let ghost before = rest@;
        let site: String = rest.remove(0);
        proof {
            assert(texts(rest@) =~= texts(before).drop_first());
        }
        let target: String = site.clone();
        (WorkerState::CheckingLive { site, rest }, WorkerAction::CheckLive { site: target })
    }
}

fn reject(site: String, rest: Vec<String>, reason: RejectReason) -> (next: (
    WorkerState,
    WorkerAction,
))
    ensures
        (next.0@, next.1@) == rejects(site@, texts(rest@), reason),
{
    (WorkerState::Closing { rest }, WorkerAction::Reject { site, reason })
}

/// One step of the worker: takes the state of the worker and what has just
/// happened, and gives the next state and what to do next. The worker begins
/// in `WorkerState::Idle` with `WorkerEvent::Start`.
pub fn analyzer(state: WorkerState, event: WorkerEvent) -> (next: (WorkerState, WorkerAction))
    ensures
        (next.0@, next.1@) == worker_step(state@, event@),
{
    match (state, event) {
        (WorkerState::Idle, WorkerEvent::Start) => (WorkerState::Fetching, WorkerAction::FetchQueue),
        (WorkerState::Sleeping, WorkerEvent::Elapsed) => (
            WorkerState::Fetching,
            WorkerAction::FetchQueue,
        ),
        (WorkerState::Fetching, WorkerEvent::Queue(Some(sites))) => take_next(sites),
        (WorkerState::Fetching, WorkerEvent::Queue(None)) => sleep(),
        (WorkerState::CheckingLive { site, rest }, WorkerEvent::Liveness(probe)) => {
            match site_live(probe) {
                Ok(()) => {
                    let target: String = site.clone();
                    (WorkerState::Scanning { site, rest }, WorkerAction::Scan { site: target })
                },
                Err(reason) => reject(site, rest, reason),
            }
        },
        (WorkerState::Scanning { site, rest }, WorkerEvent::Scanned(Ok(verdict))) => {
            if verdict.acceptable {
                let target: String = site.clone();
                (
                    WorkerState::SearchingApi { site, rest, size: verdict.size },
                    WorkerAction::SearchApi { site: target },
                )
            } else {
                (
                    WorkerState::Closing { rest },
                    WorkerAction::RejectWithSize {
                        site,
                        size: verdict.size,
                        reason: RejectReason::Policy,
                    },
                )
            }
        },
        (WorkerState::Scanning { site, rest }, WorkerEvent::Scanned(Err(e))) => reject(
            site,
            rest,
            RejectReason::Scan(e),
        ),
        (WorkerState::SearchingApi { site, rest, size }, WorkerEvent::ApiLinks(Ok(api))) => {
            let target: String = site.clone();
            (
                WorkerState::SearchingScrape { site, rest, size, api },
                WorkerAction::SearchScrape { site: target },
            )
        },
        (WorkerState::SearchingApi { site, rest, .. }, WorkerEvent::ApiLinks(Err(e))) => reject(
            site,
            rest,
            RejectReason::Links(e),
        ),
        (
            WorkerState::SearchingScrape { site, rest, size, api },
            WorkerEvent::ScrapedLinks(Ok(scraped)),
        ) => {
            let target: String = site.clone();
            let links: Vec<RelatedLink> = aggregate(api, scraped);
            (
                WorkerState::Accepting { site, rest, links },
                WorkerAction::Accept { site: target, size },
            )
        },
        (
            WorkerState::SearchingScrape { site, rest, .. },
            WorkerEvent::ScrapedLinks(Err(e)),
        ) => reject(site, rest, RejectReason::Links(e)),
        (WorkerState::Accepting { site, rest, links }, WorkerEvent::Recorded) => (
            WorkerState::Closing { rest },
            WorkerAction::ReplaceRelated { site, links },
        ),
        (WorkerState::Closing { rest }, WorkerEvent::Recorded) => take_next(rest),
        _ => sleep(),
    }
}

/// Whether the worker has a site in hand of which nothing is recorded yet.
pub open spec fn undecided(state: WorkerStateModel) -> bool {
    state is CheckingLive || state is Scanning || state is SearchingApi || state is SearchingScrape
}

/// Whether an action records what came of a site.
pub open spec fn is_outcome(action: WorkerActionModel) -> bool {
    action is Reject || action is RejectWithSize || action is Accept
}

/// The sites of the pass that the worker has not taken yet.
pub open spec fn sites_left(state: WorkerStateModel) -> Seq<Seq<char>> {
    match state {
        WorkerStateModel::CheckingLive { rest, .. } => rest,
        WorkerStateModel::Scanning { rest, .. } => rest,
        WorkerStateModel::SearchingApi { rest, .. } => rest,
        WorkerStateModel::SearchingScrape { rest, .. } => rest,
        WorkerStateModel::Accepting { rest, .. } => rest,
        WorkerStateModel::Closing { rest } => rest,
        _ => Seq::empty(),
    }
}

/// The stages of a site come in order: a site is scanned only when it has
/// just answered with status 200, searched for only when its scan has just
/// been found acceptable, searched for on the second platform only when the
/// first search has just succeeded, accepted only when the second has, at
/// the size that the scan measured; and its related links are put in place
/// only when the acceptance has just been recorded.
pub proof fn lemma_stages_in_order(state: WorkerStateModel, event: WorkerEventModel)
    ensures
        ({
            let action = worker_step(state, event).1;
            &&& action matches WorkerActionModel::Scan { site } ==> state is CheckingLive
                && state->CheckingLive_site == site && event == WorkerEventModel::Liveness(
                Probe::Status(200),
            )
            &&& action matches WorkerActionModel::SearchApi { site } ==> state is Scanning
                && state->Scanning_site == site && (event matches WorkerEventModel::Scanned(
                Ok(verdict),
            ) && verdict.acceptable)
            &&& action matches WorkerActionModel::SearchScrape { site } ==> state is SearchingApi
                && state->SearchingApi_site == site && (event matches WorkerEventModel::ApiLinks(
                Ok(_),
            ))
            &&& action matches WorkerActionModel::Accept { site, size } ==> state
                is SearchingScrape && state->SearchingScrape_site == site
                && state->SearchingScrape_size == size && (
            event matches WorkerEventModel::ScrapedLinks(Ok(_)))
            &&& action matches WorkerActionModel::ReplaceRelated { site, links } ==> state
                == (WorkerStateModel::Accepting { site, rest: sites_left(state), links }) && event
                == WorkerEventModel::Recorded
        }),
{
}

/// A site that does not answer with status 200 is turned down as
/// unreachable, whatever site it is, and nothing more is done for it: the
/// worker's next action is the request for the next site, or the pause, and
/// never a scan or a search.
pub proof fn lemma_unreachable_site_rejected(
    site: Seq<char>,
    rest: Seq<Seq<char>>,
    probe: Probe,
    then: WorkerEventModel,
)
    requires
        probe != Probe::Status(200),
    ensures
        ({
            let turned_down = worker_step(
                WorkerStateModel::CheckingLive { site, rest },
                WorkerEventModel::Liveness(probe),
            );
            let after = worker_step(turned_down.0, then);
            &&& turned_down.1 == (WorkerActionModel::Reject {
                site,
                reason: RejectReason::Unreachable,
            })
            &&& turned_down.0 == (WorkerStateModel::Closing { rest })
            &&& after.1 is Pause || (rest.len() > 0 && after.1 == (WorkerActionModel::CheckLive {
                site: rest[0],
            }))
        }),
{
}

/// Of each site in hand one thing is recorded at most: a record of what came
/// of a site is made only while nothing is recorded of it, and once it is
/// made the site is decided.
pub proof fn lemma_one_outcome(state: WorkerStateModel, event: WorkerEventModel)
    ensures
        ({
            let next = worker_step(state, event);
            &&& is_outcome(next.1) ==> undecided(state) && !undecided(next.0)
            &&& undecided(next.0) && !undecided(state) ==> next.1 is CheckLive
        }),
{
}

/// What is recorded of a site follows from what was found: it is turned
/// down at the measured size exactly when its scan came to an unacceptable
/// verdict, and it is accepted exactly when the second search has succeeded.
pub proof fn lemma_outcome_by_verdict(state: WorkerStateModel, event: WorkerEventModel)
    ensures
        ({
            let action = worker_step(state, event).1;
            &&& action is RejectWithSize <==> state is Scanning && (
            event matches WorkerEventModel::Scanned(Ok(verdict)) && !verdict.acceptable)
            &&& action matches WorkerActionModel::RejectWithSize { size, reason, .. } ==> reason
                == RejectReason::Policy && event == WorkerEventModel::Scanned(
                Ok(UrlScan { size, acceptable: false }),
            )
            &&& action is Accept <==> state is SearchingScrape && (
            event matches WorkerEventModel::ScrapedLinks(Ok(_)))
            &&& (state is Scanning && event is Scanned && event->Scanned_0 is Err) ==> action == (
            WorkerActionModel::Reject {
                site: state->Scanning_site,
                reason: RejectReason::Scan(event->Scanned_0->Err_0),
            })
        }),
{
}

/// Pass follows pass, without end: the worker fetches the queue at the very
/// start and whenever a pause has elapsed, and at no other time; it goes to
/// sleep only by asking for the pause between passes; a queue that cannot be
/// fetched, or a record that cannot be made, leads to that pause; and the
/// worker never comes back to where it began.
pub proof fn lemma_passes(state: WorkerStateModel, event: WorkerEventModel)
    ensures
        ({
            let next = worker_step(state, event);
            &&& next.1 is FetchQueue <==> (state is Idle && event is Start) || (state is Sleeping
                && event is Elapsed)
            &&& next.0 is Sleeping <==> next.1 == (WorkerActionModel::Pause { seconds: 60 })
            &&& state is Fetching && event == WorkerEventModel::Queue(None) ==> next == sleeps()
            &&& event is Unrecorded ==> next == sleeps()
            &&& !(next.0 is Idle)
        }),
{
}

/// The sites of a pass are taken in the order of the queue, each once: a
/// step either leaves the sites not yet taken as they are, or takes the
/// first of them, or ends the pass.
pub proof fn lemma_sites_in_order(state: WorkerStateModel, event: WorkerEventModel)
    requires
        !(state is Fetching),
    ensures
        ({
            let next = worker_step(state, event);
            let left = sites_left(state);
            ||| next.0 is Sleeping || next.0 is Fetching
            ||| sites_left(next.0) == left && !(next.1 is CheckLive)
            ||| left.len() > 0 && sites_left(next.0) == left.drop_first() && next
                == next_site(left)
        }),
{
}

/// The links of the API search come first, then those of the scrape search,
/// each cut off at five and otherwise as they were given; how the links of
/// one platform score against those of the other plays no part.
pub proof fn lemma_aggregated_order(api: Seq<LinkModel>, scraped: Seq<LinkModel>)
    ensures
        ({
            let links = aggregated(api, scraped);
            let first = if api.len() > 5 {
                5
            } else {
                api.len() as int
            };
            let second = if scraped.len() > 5 {
                5
            } else {
                scraped.len() as int
            };
            &&& links.len() == first + second
            &&& links.len() <= 10
            &&& forall|i: int| 0 <= i < first ==> links[i] == api[i]
            &&& forall|j: int| 0 <= j < second ==> links[first + j] == scraped[j]
        }),
{
}

/// What becomes of a site that passes every stage. A site that answers with
/// status 200 is scanned; if the scan is acceptable the site is searched for
/// on the first platform and then on the second; if both searches succeed the
/// site is accepted at the size that the scan measured, then its related
/// links are replaced by the aggregate of what the searches gave, and then
/// the next site is taken.
pub proof fn lemma_accepted_site(
    site: Seq<char>,
    rest: Seq<Seq<char>>,
    verdict: UrlScan,
    api: Seq<LinkModel>,
    scraped: Seq<LinkModel>,
)
    requires
        verdict.acceptable,
    ensures
        ({
            let live = worker_step(
                WorkerStateModel::CheckingLive { site, rest },
                WorkerEventModel::Liveness(Probe::Status(200)),
            );
            let scanned = worker_step(live.0, WorkerEventModel::Scanned(Ok(verdict)));
            let searched = worker_step(scanned.0, WorkerEventModel::ApiLinks(Ok(api)));
            let scraped_too = worker_step(searched.0, WorkerEventModel::ScrapedLinks(Ok(scraped)));
            let accepted = worker_step(scraped_too.0, WorkerEventModel::Recorded);
            let closed = worker_step(accepted.0, WorkerEventModel::Recorded);
            &&& live.1 == (WorkerActionModel::Scan { site })
            &&& scanned.1 == (WorkerActionModel::SearchApi { site })
            &&& searched.1 == (WorkerActionModel::SearchScrape { site })
            &&& scraped_too.1 == (WorkerActionModel::Accept { site, size: verdict.size })
            &&& accepted.1 == (WorkerActionModel::ReplaceRelated {
                site,
                links: aggregated(api, scraped),
            })
            &&& closed == next_site(rest)
        }),
{
}

/// What becomes of a site that fails after it has answered. If its scan
/// comes to no verdict, or the verdict is not acceptable, or one of the two
/// searches fails, the site is turned down at that point, with the reason and,
/// where the scan measured it, the size; nothing more is done for the site,
/// and the next site is taken as if nothing had happened.
pub proof fn lemma_failed_site(
    site: Seq<char>,
    rest: Seq<Seq<char>>,
    verdict: UrlScan,
    scan_error: ScanError,
    api: Seq<LinkModel>,
    search_error: SearchError,
)
    ensures
        ({
            let live = worker_step(
                WorkerStateModel::CheckingLive { site, rest },
                WorkerEventModel::Liveness(Probe::Status(200)),
            );
            let unscanned = worker_step(live.0, WorkerEventModel::Scanned(Err(scan_error)));
            let scanned = worker_step(live.0, WorkerEventModel::Scanned(Ok(verdict)));
            let unsearched = worker_step(scanned.0, WorkerEventModel::ApiLinks(Err(search_error)));
            let searched = worker_step(scanned.0, WorkerEventModel::ApiLinks(Ok(api)));
            let unscraped = worker_step(
                searched.0,
                WorkerEventModel::ScrapedLinks(Err(search_error)),
            );
            &&& unscanned.1 == (WorkerActionModel::Reject {
                site,
                reason: RejectReason::Scan(scan_error),
            })
            &&& worker_step(unscanned.0, WorkerEventModel::Recorded) == next_site(rest)
            &&& !verdict.acceptable ==> scanned.1 == (WorkerActionModel::RejectWithSize {
                site,
                size: verdict.size,
                reason: RejectReason::Policy,
            }) && worker_step(scanned.0, WorkerEventModel::Recorded) == next_site(rest)
            &&& verdict.acceptable ==> unsearched.1 == (WorkerActionModel::Reject {
                site,
                reason: RejectReason::Links(search_error),
            }) && worker_step(unsearched.0, WorkerEventModel::Recorded) == next_site(rest)
            &&& verdict.acceptable ==> unscraped.1 == (WorkerActionModel::Reject {
                site,
                reason: RejectReason::Links(search_error),
            }) && worker_step(unscraped.0, WorkerEventModel::Recorded) == next_site(rest)
        }),
{
}

/// What is found of one site, stage by stage. What a stage found counts only
/// if the stage is reached.
pub struct Findings {
    /// How the request for the site ended.
    pub live: Probe,
    /// How the scan ended.
    pub scan: Result<UrlScan, ScanError>,
    /// How the API search ended.
    pub api: Result<Seq<LinkModel>, SearchError>,
    /// How the scrape search ended.
    pub scraped: Result<Seq<LinkModel>, SearchError>,
}

/// What is to be recorded of a site of which `found` was found: that it was
/// turned down, at the first stage that failed; or that it was accepted, and
/// then its related links.
pub open spec fn site_records(site: Seq<char>, found: Findings) -> Seq<WorkerActionModel> {
    if !is_live(found.live) {
        seq![WorkerActionModel::Reject { site, reason: RejectReason::Unreachable }]
    } else {
        match (found.scan, found.api, found.scraped) {
            (Err(e), _, _) => seq![WorkerActionModel::Reject { site, reason: RejectReason::Scan(e) }],
            (Ok(verdict), api, scraped) => if !verdict.acceptable {
                seq![
                    WorkerActionModel::RejectWithSize {
                        site,
                        size: verdict.size,
                        reason: RejectReason::Policy,
                    },
                ]
            } else {
                match (api, scraped) {
                    (Err(e), _) => seq![
                        WorkerActionModel::Reject { site, reason: RejectReason::Links(e) },
                    ],
                    (Ok(_), Err(e)) => seq![
                        WorkerActionModel::Reject { site, reason: RejectReason::Links(e) },
                    ],
                    (Ok(api), Ok(scraped)) => seq![
                        WorkerActionModel::Accept { site, size: verdict.size },
                        WorkerActionModel::ReplaceRelated { site, links: aggregated(api, scraped) },
                    ],
                }
            },
        }
    }
}

/// The worker at work on one site: from the request for `site` on, the
/// caller does what the worker asks for, reports what `found` says of that
/// stage, and reports each record as made. The result is where the worker
/// stands, and what it asks for, when the site is dealt with, and the
/// records that were made on the way.
pub open spec fn site_run(site: Seq<char>, rest: Seq<Seq<char>>, found: Findings) -> (
    (WorkerStateModel, WorkerActionModel),
    Seq<WorkerActionModel>,
) {
    let live = worker_step(
        WorkerStateModel::CheckingLive { site, rest },
        WorkerEventModel::Liveness(found.live),
    );
    if !(live.1 is Scan) {
        (worker_step(live.0, WorkerEventModel::Recorded), seq![live.1])
    } else {
        let scanned = worker_step(live.0, WorkerEventModel::Scanned(found.scan));
        if !(scanned.1 is SearchApi) {
            (worker_step(scanned.0, WorkerEventModel::Recorded), seq![scanned.1])
        } else {
            let searched = worker_step(scanned.0, WorkerEventModel::ApiLinks(found.api));
            if !(searched.1 is SearchScrape) {
                (worker_step(searched.0, WorkerEventModel::Recorded), seq![searched.1])
            } else {
                let scraped = worker_step(searched.0, WorkerEventModel::ScrapedLinks(found.scraped));
                if !(scraped.1 is Accept) {
                    (worker_step(scraped.0, WorkerEventModel::Recorded), seq![scraped.1])
                } else {
                    let accepted = worker_step(scraped.0, WorkerEventModel::Recorded);
                    (worker_step(accepted.0, WorkerEventModel::Recorded), seq![scraped.1, accepted.1])
                }
            }
        }
    }
}

/// The worker at work on the sites of a pass: from `start` on, site after
/// site is dealt with as `site_run` says, the site at each place with what
/// `found` holds at that place.
pub open spec fn pass_run(start: (WorkerStateModel, WorkerActionModel), found: Seq<Findings>) -> (
    (WorkerStateModel, WorkerActionModel),
    Seq<WorkerActionModel>,
)
    decreases found.len(),
{
    match start.0 {
        WorkerStateModel::CheckingLive { site, rest } => if found.len() == 0 {
            (start, Seq::empty())
        } else {
            let first = site_run(site, rest, found[0]);
            let others = pass_run(first.0, found.drop_first());
            (others.0, first.1 + others.1)
        },
        _ => (start, Seq::empty()),
    }
}

/// What is to be recorded in a pass over `queue`, the site at each place
/// with what `found` holds at that place: the records of the first site,
/// then those of the second, and so on.
pub open spec fn pass_records(queue: Seq<Seq<char>>, found: Seq<Findings>) -> Seq<
    WorkerActionModel,
>
    decreases queue.len(),
{
    if queue.len() == 0 || found.len() == 0 {
        Seq::empty()
    } else {
        site_records(queue[0], found[0]) + pass_records(queue.drop_first(), found.drop_first())
    }
}

/// Each site resolves into what was found of it, and into nothing else: the
/// worker records of a site exactly what `site_records` says, one outcome and,
/// only where that is an acceptance, the related links; and then it takes the
/// next site, in the same way whatever became of this one.
pub proof fn lemma_site_resolves(site: Seq<char>, rest: Seq<Seq<char>>, found: Findings)
    ensures
        site_run(site, rest, found) == (next_site(rest), site_records(site, found)),
{
}

/// A pass does for every site of the queue, in the order of the queue, what
/// was found of that site calls for, none the worse for what became of the
/// sites before it; and when the last site is dealt with, the worker pauses.
pub proof fn lemma_pass_resolves(queue: Seq<Seq<char>>, found: Seq<Findings>)
    requires
        found.len() == queue.len(),
    ensures
        pass_run(next_site(queue), found) == (sleeps(), pass_records(queue, found)),
        worker_step(WorkerStateModel::Fetching, WorkerEventModel::Queue(Some(queue))) == next_site(
            queue,
        ),
    decreases queue.len(),
{
    if queue.len() > 0 {
        lemma_site_resolves(queue[0], queue.drop_first(), found[0]);
        lemma_pass_resolves(queue.drop_first(), found.drop_first());
    }
}

} // verus!
