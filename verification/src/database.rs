//! The rules of the repository: what a submission is checked against before
//! it is queued, what a vote means, and what the records of the worker mean
//! for the directory.

use crate::analyzer::{
    aggregated, rejection_is_final, site_records, Findings, RejectReason, WorkerActionModel,
};
use crate::error::{ErrorModel, JsonError, TenKbError};
use crate::pattern::{is_match, regex_matches};
use crate::relatedlinks::{is_live, LinkModel};
use crate::text::{decimal, to_decimal};
use vstd::prelude::*;

verus! {

/// Whether one of `patterns` matches `site`. A pattern that is no regular
/// expression matches nothing.
pub open spec fn blocked_by(patterns: Seq<Seq<char>>, site: Seq<char>) -> bool {
    exists|i: int|
        0 <= i < patterns.len() && regex_matches(#[trigger] patterns[i], site) == Some(true)
}

/// Whether the regular expression `pattern` matches in `site`; a pattern that
/// is no regular expression does not.
pub fn pattern_blocks(pattern: &str, site: &str) -> (blocks: bool)
    ensures
        blocks == (regex_matches(pattern@, site@) == Some(true)),
{
    match is_match(pattern, site) {
        Ok(found) => found,
        Err(_) => false,
    }
}

/// Whether `site` is blocked from submission by one of the block patterns.
pub fn check_site_blocked(patterns: &Vec<String>, site: &str) -> (blocked: bool)
    ensures
        blocked == blocked_by(patterns@.map_values(|p: String| p@), site@),
{
    let ghost all = patterns@.map_values(|p: String| p@);
    let mut i: usize = 0;
    while i < patterns.len()
        invariant
            0 <= i <= patterns.len(),
            all == patterns@.map_values(|p: String| p@),
            forall|j: int| 0 <= j < i ==> regex_matches(#[trigger] all[j], site@) != Some(true),
        decreases patterns.len() - i,
    {
        assert(all[i as int] == patterns@[i as int]@);
        if pattern_blocks(patterns[i].as_str(), site) {
            return true;
        }
        i = i + 1;
    }
    false
}

/// What the repository knows of a site that is submitted.
#[derive(Debug, Clone, Copy, PartialEq, Eq, Structural)]
pub struct Standing {
    /// The site is listed.
    pub active: bool,
    /// A block pattern matches the site.
    pub blocked: bool,
    /// The site is waiting to be validated.
    pub queued: bool,
}

/// Why a submission of `site` is turned away, if it is: because the site is
/// listed already, or else because it is blocked, or else because it is
/// waiting already.
pub open spec fn submission_refusal(site: Seq<char>, standing: Standing) -> Option<Seq<char>> {
    if standing.active {
        Some("site '"@ + site + "' is already in the database"@)
    } else if standing.blocked {
        Some("sorry! site '"@ + site + "' is blocked from submission"@)
    } else if standing.queued {
        Some("site '"@ + site + "' is already pending validation"@)
    } else {
        None
    }
}

fn quoted(before: &str, site: &str, after: &str) -> (text: String)
    ensures
        text@ == before@ + site@ + after@,
{
    let mut text: String = String::from_str(before);
    text.append(site);
    text.append(after);
    text
}

/// Whether `site` may be queued for validation: it may unless it is listed,
/// blocked or waiting already, and then the error says which.
pub fn submit_site(site: &str, standing: Standing) -> (r: Result<(), TenKbError>)
    ensures
        match submission_refusal(site@, standing) {
            Some(msg) => r matches Err(e) && e@ == msg,
            None => r is Ok,
        },
{
    if standing.active {
        Err(TenKbError::Msg(quoted("site '", site, "' is already in the database")))
    } else if standing.blocked {
        Err(TenKbError::Msg(quoted("sorry! site '", site, "' is blocked from submission")))
    } else if standing.queued {
        Err(TenKbError::Msg(quoted("site '", site, "' is already pending validation")))
    } else {
        Ok(())
    }
}

/// What a vote asks for.
#[derive(Debug, Clone, Copy, PartialEq, Eq, Structural)]
pub enum Ballot {
    /// The voter takes the vote for the site back.
    Withdraw,
    /// The voter votes for the site.
    Cast,
}

/// What the vote `vote` asks for: zero takes a vote back, one casts it, and
/// nothing else is a vote.
pub fn cast_vote(vote: isize) -> (r: Result<Ballot, JsonError>)
    ensures
        match r {
            Ok(ballot) => (vote == 0 && ballot == Ballot::Withdraw) || (vote == 1 && ballot
                == Ballot::Cast),
            Err(e) => vote != 0 && vote != 1 && e@ == (ErrorModel {
                code: 500,
                status: "invalid vote"@,
            }),
        },
{
    if vote == 0 {
        Ok(Ballot::Withdraw)
    } else if vote == 1 {
        Ok(Ballot::Cast)
    } else {
        Err(JsonError::from("invalid vote"))
    }
}

/// What is logged of a site that was turned down for its size.
pub open spec fn size_failure(size: u32) -> Seq<char> {
    "size validation failed: site is "@ + decimal(size as nat) + " bytes"@
}

/// The line to log of a site that was turned down at `size` bytes.
pub fn size_failure_message(size: u32) -> (msg: String)
    ensures
        msg@ == size_failure(size),
{
    let mut msg: String = String::from_str("size validation failed: site is ");
    msg.append(to_decimal(size as usize).as_str());
    msg.append(" bytes");
    msg
}

/// What is recorded of a site.
pub enum OutcomeModel {
    /// The site is listed, at this size.
    Accepted { size: u32 },
    /// The site was turned down; `measured` is its size, if the scan measured it.
    Rejected { reason: RejectReason, measured: Option<u32> },
}

/// The directory as the worker's records describe it: the sites that wait
/// to be validated, of each site what came of it, and its related links. The
/// store that a caller keeps is expected to follow this description; it is
/// not part of this library.
pub struct DirectoryModel {
    pub queue: Set<Seq<char>>,
    pub outcomes: Map<Seq<char>, OutcomeModel>,
    pub related: Map<Seq<char>, Seq<LinkModel>>,
}

/// The queue after `site` was turned down for `reason`.
pub open spec fn queue_after_rejection(
    queue: Set<Seq<char>>,
    site: Seq<char>,
    reason: RejectReason,
) -> Set<Seq<char>> {
    if rejection_is_final(reason) {
        queue.remove(site)
    } else {
        queue
    }
}

/// The directory after the worker's action `action` has been carried out on
/// `dir`. A record of what came of a site takes the place of the earlier
/// one, and the site leaves the queue; the related links of a site are put
/// in the place of those it had. An action that records nothing leaves the
/// directory as it is.
pub open spec fn recorded(dir: DirectoryModel, action: WorkerActionModel) -> DirectoryModel {
    match action {
        WorkerActionModel::Reject { site, reason } => DirectoryModel {
            queue: queue_after_rejection(dir.queue, site, reason),
            outcomes: dir.outcomes.insert(site, OutcomeModel::Rejected { reason, measured: None }),
            ..dir
        },
        WorkerActionModel::RejectWithSize { site, size, reason } => DirectoryModel {
            queue: queue_after_rejection(dir.queue, site, reason),
            outcomes: dir.outcomes.insert(
                site,
                OutcomeModel::Rejected { reason, measured: Some(size) },
            ),
            ..dir
        },
        WorkerActionModel::Accept { site, size } => DirectoryModel {
            queue: dir.queue.remove(site),
            outcomes: dir.outcomes.insert(site, OutcomeModel::Accepted { size }),
            ..dir
        },
        WorkerActionModel::ReplaceRelated { site, links } => DirectoryModel {
            related: dir.related.insert(site, links),
            ..dir
        },
        _ => dir,
    }
}

/// To record the same thing twice is to record it once: related links that
/// are put in place a second time are there once, not twice, and so it is
/// with every record.
pub proof fn lemma_recorded_twice(dir: DirectoryModel, action: WorkerActionModel)
    ensures
        recorded(recorded(dir, action), action) == recorded(dir, action),
{
    let once = recorded(dir, action);
    let twice = recorded(once, action);
    assert(twice.queue =~= once.queue);
    assert(twice.outcomes =~= once.outcomes);
    assert(twice.related =~= once.related);
}

/// A site of which the worker records what came of it is done with: it has
/// left the queue, whether it was accepted or turned down, and what was
/// recorded is what stands for it.
pub proof fn lemma_outcome_is_final(dir: DirectoryModel, action: WorkerActionModel)
    ensures
        ({
            let after = recorded(dir, action);
            &&& action matches WorkerActionModel::Accept { site, size } ==> !after.queue.contains(
                site,
            ) && after.outcomes[site] == (OutcomeModel::Accepted { size })
            &&& action matches WorkerActionModel::Reject { site, reason } ==> !after.queue.contains(
                site,
            ) && after.outcomes[site] == (OutcomeModel::Rejected { reason, measured: None })
            &&& action matches WorkerActionModel::RejectWithSize { site, size, reason }
                ==> !after.queue.contains(site) && after.outcomes[site] == (OutcomeModel::Rejected {
                reason,
                measured: Some(size),
            })
            &&& !(action is Accept || action is Reject || action is RejectWithSize) ==> after.queue
                == dir.queue && after.outcomes == dir.outcomes
        }),
{
}

/// The related links of a site are replaced as a whole: afterwards the site
/// has exactly the links given, whatever it had before and even if none is
/// given; no other site's links change, and nothing that is recorded of any
/// site's validation changes.
pub proof fn lemma_related_replaced(
    dir: DirectoryModel,
    site: Seq<char>,
    links: Seq<LinkModel>,
    other: Seq<char>,
)
    requires
        other != site,
    ensures
        ({
            let after = recorded(dir, WorkerActionModel::ReplaceRelated { site, links });
            &&& after.related.dom().contains(site)
            &&& after.related[site] == links
            &&& after.related.dom().contains(other) == dir.related.dom().contains(other)
            &&& dir.related.dom().contains(other) ==> after.related[other] == dir.related[other]
            &&& after.outcomes == dir.outcomes
            &&& after.queue == dir.queue
        }),
{
}

/// The directory after the worker's actions `actions` have been carried out
/// on `dir`, one after the other.
pub open spec fn recorded_all(dir: DirectoryModel, actions: Seq<WorkerActionModel>) -> DirectoryModel
    decreases actions.len(),
{
    if actions.len() == 0 {
        dir
    } else {
        recorded(recorded_all(dir, actions.drop_last()), actions.last())
    }
}

/// Whether everything that was found of a site speaks for it: it answered
/// with status 200, its scan came to an acceptable verdict, and both searches
/// succeeded.
pub open spec fn passes(found: Findings) -> bool {
    &&& is_live(found.live)
    &&& found.scan matches Ok(verdict) && verdict.acceptable
    &&& found.api is Ok
    &&& found.scraped is Ok
}

/// What the directory holds of a site when the worker has dealt with it. The
/// site has left the queue. If everything that was found speaks for it, it is
/// accepted at the size that the scan measured, and its related links are
/// the aggregate of what the searches gave, in the place of whatever it had.
/// Otherwise it is turned down, and its related links are as they were.
/// Nothing that the directory holds of any other site has changed.
pub proof fn lemma_site_in_directory(
    dir: DirectoryModel,
    site: Seq<char>,
    found: Findings,
    other: Seq<char>,
)
    requires
        other != site,
    ensures
        ({
            let after = recorded_all(dir, site_records(site, found));
            &&& !after.queue.contains(site)
            &&& after.outcomes.dom().contains(site)
            &&& passes(found) ==> after.outcomes[site] == (OutcomeModel::Accepted {
                size: found.scan->Ok_0.size,
            }) && after.related.dom().contains(site) && after.related[site] == aggregated(
                found.api->Ok_0,
                found.scraped->Ok_0,
            )
            &&& !passes(found) ==> after.outcomes[site] is Rejected && after.related == dir.related
            &&& after.queue.contains(other) == dir.queue.contains(other)
            &&& after.outcomes.dom().contains(other) == dir.outcomes.dom().contains(other)
            &&& dir.outcomes.dom().contains(other) ==> after.outcomes[other] == dir.outcomes[other]
            &&& after.related.dom().contains(other) == dir.related.dom().contains(other)
            &&& dir.related.dom().contains(other) ==> after.related[other] == dir.related[other]
        }),
{
    reveal_with_fuel(recorded_all, 3);
    let records = site_records(site, found);
    if records.len() == 2 {
        assert(records.drop_last().drop_last() =~= Seq::empty());
    } else {
        assert(records.drop_last() =~= Seq::empty());
    }
}

} // verus!
