//! The scan of a candidate site by the outside scanning service: one
//! submission, then a bounded number of polls for the verdict.
//!
//! The library decides; its caller talks to the service. `urlscan` takes the
//! state of a scan and what has just happened, and answers with the next
//! state and what to do next.

use vstd::prelude::*;

verus! {

/// The largest transfer size, in bytes, of an acceptable site.
pub const SIZE_LIMIT: u32 = 10_240;

/// How many times a scan is polled for its verdict at most.
pub const POLL_ATTEMPTS: u8 = 3;

/// The seconds to wait before each poll.
pub const POLL_INTERVAL_SECS: u64 = 20;

/// The verdict of a completed scan.
#[derive(Debug, Clone, Copy, PartialEq, Eq, Structural)]
pub struct UrlScan {
    pub size: u32,
    pub acceptable: bool,
}

/// Why one exchange with the service gave no usable answer.
#[derive(Debug, Clone, Copy, PartialEq, Eq, Structural)]
pub enum Fault {
    /// The request could not be made, or the answer could not be read.
    Transport,
    /// The service answered with this status, which the protocol does not allow here.
    Status(u16),
    /// The service answered, and said that it did not succeed.
    Refused,
    /// The body of the answer was not of the expected form.
    Malformed,
}

/// Why a scan ended without a verdict.
#[derive(Debug, Clone, Copy, PartialEq, Eq, Structural)]
pub enum ScanError {
    /// The submission failed.
    Submission(Fault),
    /// A poll failed.
    Polling(Fault),
    /// Every poll found the scan unfinished.
    TimedOut,
    /// The caller reported something that the scan was not waiting for.
    OutOfTurn,
}

/// The payload of the answer to a submission.
#[derive(Debug)]
pub struct Submission {
    pub success: bool,
    pub uuid: String,
}

/// The payload of a finished scan's report.
#[derive(Debug, Clone, Copy, PartialEq, Eq, Structural)]
pub struct Report {
    pub success: bool,
    pub transfer_size: u32,
    pub malicious: bool,
}

/// What the caller reports to a scan.
#[derive(Debug)]
pub enum ScanEvent {
    /// The scan is to begin.
    Start,
    /// The request could not be made, or the body could not be read.
    Failed,
    /// The service answered the request with this status.
    Status(u16),
    /// The body of the submission's answer; `None` if it was not of the expected form.
    Submitted(Option<Submission>),
    /// The body of a poll's answer; `None` if it was not of the expected form.
    Reported(Option<Report>),
    /// The pause is over.
    Elapsed,
}

/// Where a scan stands.
#[derive(Debug)]
pub enum ScanState {
    /// Nothing has been sent.
    Idle,
    /// The submission was sent, its status is awaited.
    Submitting,
    /// The submission was accepted, its body is awaited.
    ReadingSubmission,
    /// Pausing before a poll; `remaining` more polls may follow that one.
    Pausing { uuid: String, remaining: u8 },
    /// A poll was sent, its status is awaited; `remaining` more polls may follow.
    Polling { uuid: String, remaining: u8 },
    /// A poll found the scan finished, the report is awaited.
    ReadingReport,
    /// The scan has ended.
    Done,
}

/// What the caller is to do next.
#[derive(Debug)]
pub enum ScanAction {
    /// POST `url` as the site to scan to `endpoint`, with `authorization` as
    /// the header of that name, and report the status.
    Submit { endpoint: String, authorization: String, url: String },
    /// Read the answer's body as a `Submission` and report it.
    ReadSubmission,
    /// Wait this long and report that the time has elapsed.
    Pause { seconds: u64 },
    /// GET `endpoint` with `authorization`, and report the status.
    Poll { endpoint: String, authorization: String },
    /// Read the answer's body as a `Report` and report it.
    ReadReport,
    /// The scan is over, with this result.
    Finish(Result<UrlScan, ScanError>),
}

/// `ScanEvent` as plain values.
pub enum ScanEventModel {
    Start,
    Failed,
    Status(u16),
    Submitted(Option<(bool, Seq<char>)>),
    Reported(Option<Report>),
    Elapsed,
}

/// `ScanState` as plain values.
pub enum ScanStateModel {
    Idle,
    Submitting,
    ReadingSubmission,
    Pausing { uuid: Seq<char>, remaining: u8 },
    Polling { uuid: Seq<char>, remaining: u8 },
    ReadingReport,
    Done,
}

/// `ScanAction` as plain values.
pub enum ScanActionModel {
    Submit { endpoint: Seq<char>, authorization: Seq<char>, url: Seq<char> },
    ReadSubmission,
    Pause { seconds: u64 },
    Poll { endpoint: Seq<char>, authorization: Seq<char> },
    ReadReport,
    Finish(Result<UrlScan, ScanError>),
}

impl View for ScanEvent {
    type V = ScanEventModel;

    open spec fn view(&self) -> ScanEventModel {
        match *self {
            ScanEvent::Start => ScanEventModel::Start,
            ScanEvent::Failed => ScanEventModel::Failed,
            ScanEvent::Status(code) => ScanEventModel::Status(code),
            ScanEvent::Submitted(None) => ScanEventModel::Submitted(None),
            ScanEvent::Submitted(Some(s)) => ScanEventModel::Submitted(Some((s.success, s.uuid@))),
            ScanEvent::Reported(r) => ScanEventModel::Reported(r),
            ScanEvent::Elapsed => ScanEventModel::Elapsed,
        }
    }
}

impl View for ScanState {
    type V = ScanStateModel;

    open spec fn view(&self) -> ScanStateModel {
        match *self {
            ScanState::Idle => ScanStateModel::Idle,
            ScanState::Submitting => ScanStateModel::Submitting,
            ScanState::ReadingSubmission => ScanStateModel::ReadingSubmission,
            ScanState::Pausing { uuid, remaining } => ScanStateModel::Pausing {
                uuid: uuid@,
                remaining,
            },
            ScanState::Polling { uuid, remaining } => ScanStateModel::Polling {
                uuid: uuid@,
                remaining,
            },
            ScanState::ReadingReport => ScanStateModel::ReadingReport,
            ScanState::Done => ScanStateModel::Done,
        }
    }
}

impl View for ScanAction {
    type V = ScanActionModel;

    open spec fn view(&self) -> ScanActionModel {
        match *self {
            ScanAction::Submit { endpoint, authorization, url } => ScanActionModel::Submit {
                endpoint: endpoint@,
                authorization: authorization@,
                url: url@,
            },
            ScanAction::ReadSubmission => ScanActionModel::ReadSubmission,
            ScanAction::Pause { seconds } => ScanActionModel::Pause { seconds },
            ScanAction::Poll { endpoint, authorization } => ScanActionModel::Poll {
                endpoint: endpoint@,
                authorization: authorization@,
            },
            ScanAction::ReadReport => ScanActionModel::ReadReport,
            ScanAction::Finish(r) => ScanActionModel::Finish(r),
        }
    }
}

/// The verdict that a report carries: the size it measured, and whether the
/// site is small enough and not malicious.
pub open spec fn verdict_of(report: Report) -> UrlScan {
    UrlScan {
        size: report.transfer_size,
        acceptable: report.transfer_size <= SIZE_LIMIT && !report.malicious,
    }
}

/// The address to which sites are submitted for the account `account`.
pub open spec fn submit_endpoint(account: Seq<char>) -> Seq<char> {
    "https://api.cloudflare.com/client/v4/accounts/"@ + account + "/urlscanner/scan"@
}

/// The address at which the scan `uuid` of the account `account` is polled.
pub open spec fn poll_endpoint(account: Seq<char>, uuid: Seq<char>) -> Seq<char> {
    submit_endpoint(account) + "/"@ + uuid
}

/// The authorization header for the token `api_token`.
pub open spec fn bearer(api_token: Seq<char>) -> Seq<char> {
    "Bearer "@ + api_token
}

/// The end of a scan, with its result.
pub open spec fn scan_ends(result: Result<UrlScan, ScanError>) -> (ScanStateModel, ScanActionModel) {
    (ScanStateModel::Done, ScanActionModel::Finish(result))
}

/// The scan protocol: the state after `event` arrives in `state`, and what is
/// to be done then, for the site `host`, the account `account` and its token.
///
/// A submission must be answered with status 200 and a payload that reports
/// success. Each poll follows a pause; status 200 brings the report and with
/// it the verdict, status 202 leads to the next poll while any remains and to
/// a timeout otherwise, any other status ends the scan. An event that the
/// state does not wait for ends the scan too.
pub open spec fn scan_step(
    host: Seq<char>,
    account: Seq<char>,
    api_token: Seq<char>,
    state: ScanStateModel,
    event: ScanEventModel,
) -> (ScanStateModel, ScanActionModel) {
    match (state, event) {
        (ScanStateModel::Idle, ScanEventModel::Start) => (
            ScanStateModel::Submitting,
            ScanActionModel::Submit {
                endpoint: submit_endpoint(account),
                authorization: bearer(api_token),
                url: host,
            },
        ),
        (ScanStateModel::Submitting, ScanEventModel::Status(code)) => if code == 200 {
            (ScanStateModel::ReadingSubmission, ScanActionModel::ReadSubmission)
        } else {
            scan_ends(Err(ScanError::Submission(Fault::Status(code))))
        },
        (ScanStateModel::Submitting, ScanEventModel::Failed) => scan_ends(
            Err(ScanError::Submission(Fault::Transport)),
        ),
        (ScanStateModel::ReadingSubmission, ScanEventModel::Submitted(Some((success, uuid)))) => {
            if success {
                (
                    ScanStateModel::Pausing { uuid, remaining: (POLL_ATTEMPTS - 1) as u8 },
                    ScanActionModel::Pause { seconds: POLL_INTERVAL_SECS },
                )
            } else {
                scan_ends(Err(ScanError::Submission(Fault::Refused)))
            }
        },
        (ScanStateModel::ReadingSubmission, ScanEventModel::Submitted(None)) => scan_ends(
            Err(ScanError::Submission(Fault::Malformed)),
        ),
        (ScanStateModel::ReadingSubmission, ScanEventModel::Failed) => scan_ends(
            Err(ScanError::Submission(Fault::Transport)),
        ),
        (ScanStateModel::Pausing { uuid, remaining }, ScanEventModel::Elapsed) => (
            ScanStateModel::Polling { uuid, remaining },
            ScanActionModel::Poll {
                endpoint: poll_endpoint(account, uuid),
                authorization: bearer(api_token),
            },
        ),
        (ScanStateModel::Polling { uuid, remaining }, ScanEventModel::Status(code)) => {
            if code == 200 {
                (ScanStateModel::ReadingReport, ScanActionModel::ReadReport)
            } else if code == 202 {
                if remaining > 0 {
                    (
                        ScanStateModel::Pausing { uuid, remaining: (remaining - 1) as u8 },
                        ScanActionModel::Pause { seconds: POLL_INTERVAL_SECS },
                    )
                } else {
                    scan_ends(Err(ScanError::TimedOut))
                }
            } else {
                scan_ends(Err(ScanError::Polling(Fault::Status(code))))
            }
        },
        (ScanStateModel::Polling { .. }, ScanEventModel::Failed) => scan_ends(
            Err(ScanError::Polling(Fault::Transport)),
        ),
        (ScanStateModel::ReadingReport, ScanEventModel::Reported(Some(report))) => {
            if report.success {
                scan_ends(Ok(verdict_of(report)))
            } else {
                scan_ends(Err(ScanError::Polling(Fault::Refused)))
            }
        },
        (ScanStateModel::ReadingReport, ScanEventModel::Reported(None)) => scan_ends(
            Err(ScanError::Polling(Fault::Malformed)),
        ),
        (ScanStateModel::ReadingReport, ScanEventModel::Failed) => scan_ends(
            Err(ScanError::Polling(Fault::Transport)),
        ),
        _ => scan_ends(Err(ScanError::OutOfTurn)),
    }
}

/// The verdict on a finished scan that measured `transfer_size` bytes.
pub fn verdict(report: Report) -> (v: UrlScan)
    ensures
        v == verdict_of(report),
        v.size == report.transfer_size,
        v.acceptable <==> report.transfer_size <= 10_240 && !report.malicious,
{
    UrlScan {
        size: report.transfer_size,
        acceptable: report.transfer_size <= SIZE_LIMIT && !report.malicious,
    }
}

fn make_submit_endpoint(account: &str) -> (r: String)
    ensures
        r@ == submit_endpoint(account@),
{
    let mut r: String = String::from_str("https://api.cloudflare.com/client/v4/accounts/");
    r.append(account);
    r.append("/urlscanner/scan");
    r
}

fn make_poll_endpoint(account: &str, uuid: &str) -> (r: String)
    ensures
        r@ == poll_endpoint(account@, uuid@),
{
    let mut r: String = make_submit_endpoint(account);
    r.append("/");
    r.append(uuid);
    r
}

fn make_bearer(api_token: &str) -> (r: String)
    ensures
        r@ == bearer(api_token@),
{
    let mut r: String = String::from_str("Bearer ");
    r.append(api_token);
    r
}

fn finish(result: Result<UrlScan, ScanError>) -> (next: (ScanState, ScanAction))
    ensures
        (next.0@, next.1@) == scan_ends(result),
{
    (ScanState::Done, ScanAction::Finish(result))
}

/// One step of the scan of `host` for the account `account` with the token
/// `api_token`: takes the state of the scan and what has just happened, and
/// gives the next state and what to do next. A scan begins in
/// `ScanState::Idle` with `ScanEvent::Start` and is over when the action is
/// `ScanAction::Finish`.
pub fn urlscan(
    host: &str,
    account: &str,
    api_token: &str,
    state: ScanState,
    event: ScanEvent,
) -> (next: (ScanState, ScanAction))
    ensures
        (next.0@, next.1@) == scan_step(host@, account@, api_token@, state@, event@),
{
    match (state, event) {
        (ScanState::Idle, ScanEvent::Start) => (
            ScanState::Submitting,
            ScanAction::Submit {
                endpoint: make_submit_endpoint(account),
                authorization: make_bearer(api_token),
                url: String::from_str(host),
            },
        ),
        (ScanState::Submitting, ScanEvent::Status(code)) => if code == 200 {
            (ScanState::ReadingSubmission, ScanAction::ReadSubmission)
        } else {
            finish(Err(ScanError::Submission(Fault::Status(code))))
        },
        (ScanState::Submitting, ScanEvent::Failed) => finish(
            Err(ScanError::Submission(Fault::Transport)),
        ),
        (ScanState::ReadingSubmission, ScanEvent::Submitted(Some(submission))) => {
            if submission.success {
                (
                    ScanState::Pausing { uuid: submission.uuid, remaining: POLL_ATTEMPTS - 1 },
                    ScanAction::Pause { seconds: POLL_INTERVAL_SECS },
                )
            } else {
                finish(Err(ScanError::Submission(Fault::Refused)))
            }
        },
        (ScanState::ReadingSubmission, ScanEvent::Submitted(None)) => finish(
            Err(ScanError::Submission(Fault::Malformed)),
        ),
        (ScanState::ReadingSubmission, ScanEvent::Failed) => finish(
            Err(ScanError::Submission(Fault::Transport)),
        ),
        (ScanState::Pausing { uuid, remaining }, ScanEvent::Elapsed) => {
            let endpoint: String = make_poll_endpoint(account, uuid.as_str());
            (
                ScanState::Polling { uuid, remaining },
                ScanAction::Poll { endpoint, authorization: make_bearer(api_token) },
            )
        },
        (ScanState::Polling { uuid, remaining }, ScanEvent::Status(code)) => {
            if code == 200 {
                (ScanState::ReadingReport, ScanAction::ReadReport)
            } else if code == 202 {
                if remaining > 0 {
                    (
                        ScanState::Pausing { uuid, remaining: remaining - 1 },
                        ScanAction::Pause { seconds: POLL_INTERVAL_SECS },
                    )
                } else {
                    finish(Err(ScanError::TimedOut))
                }
            } else {
                finish(Err(ScanError::Polling(Fault::Status(code))))
            }
        },
        (ScanState::Polling { .. }, ScanEvent::Failed) => finish(
            Err(ScanError::Polling(Fault::Transport)),
        ),
        (ScanState::ReadingReport, ScanEvent::Reported(Some(report))) => {
            if report.success {
                finish(Ok(verdict(report)))
            } else {
                finish(Err(ScanError::Polling(Fault::Refused)))
            }
        },
        (ScanState::ReadingReport, ScanEvent::Reported(None)) => finish(
            Err(ScanError::Polling(Fault::Malformed)),
        ),
        (ScanState::ReadingReport, ScanEvent::Failed) => finish(
            Err(ScanError::Polling(Fault::Transport)),
        ),
        _ => finish(Err(ScanError::OutOfTurn)),
    }
}

/// What a scan answers to a run of events, one after the other, from `state`
/// on: the state it ends in and the actions it asked for, in order.
pub open spec fn scan_run(
    host: Seq<char>,
    account: Seq<char>,
    api_token: Seq<char>,
    state: ScanStateModel,
    events: Seq<ScanEventModel>,
) -> (ScanStateModel, Seq<ScanActionModel>)
    decreases events.len(),
{
    if events.len() == 0 {
        (state, Seq::empty())
    } else {
        let before = scan_run(host, account, api_token, state, events.drop_last());
        let last = scan_step(host, account, api_token, before.0, events.last());
        (last.0, before.1.push(last.1))
    }
}

/// How many polls a scan in `state` may still send.
pub open spec fn polls_allowed(state: ScanStateModel) -> nat {
    match state {
        ScanStateModel::Idle | ScanStateModel::Submitting | ScanStateModel::ReadingSubmission => {
            POLL_ATTEMPTS as nat
        },
        ScanStateModel::Pausing { remaining, .. } => remaining as nat + 1,
        ScanStateModel::Polling { remaining, .. } => remaining as nat,
        ScanStateModel::ReadingReport | ScanStateModel::Done => 0,
    }
}

/// How many of `actions` are polls.
pub open spec fn polls_sent(actions: Seq<ScanActionModel>) -> nat {
    actions.filter(|a: ScanActionModel| a is Poll).len()
}

/// An upper bound on the events that a scan in `state` can still take before
/// it is over.
pub open spec fn steps_left(state: ScanStateModel) -> nat {
    match state {
        ScanStateModel::Idle => 12,
        ScanStateModel::Submitting => 11,
        ScanStateModel::ReadingSubmission => 10,
        ScanStateModel::Pausing { remaining, .. } => 3 * remaining as nat + 3,
        ScanStateModel::Polling { remaining, .. } => 3 * remaining as nat + 2,
        ScanStateModel::ReadingReport => 1,
        ScanStateModel::Done => 0,
    }
}

/// A verdict comes from a report and from nothing else: a scan ends well only
/// when the report of a finished scan arrives, says that it succeeded, and
/// the verdict is the one that this report carries. No status, and no
/// earlier answer, has any part in it.
pub proof fn lemma_verdict_from_report(
    host: Seq<char>,
    account: Seq<char>,
    api_token: Seq<char>,
    state: ScanStateModel,
    event: ScanEventModel,
    verdict: UrlScan,
)
    requires
        scan_step(host, account, api_token, state, event).1 == ScanActionModel::Finish(Ok(verdict)),
    ensures
        state is ReadingReport,
        event matches ScanEventModel::Reported(Some(report)) && report.success && verdict
            == verdict_of(report),
        verdict.acceptable <==> verdict.size <= 10_240 && !(event->Reported_0->0).malicious,
{
}

/// A scan that every poll finds unfinished times out, and only such a
/// scan: the timeout is the answer to status 202 on the last poll allowed.
pub proof fn lemma_timeout_from_last_poll(
    host: Seq<char>,
    account: Seq<char>,
    api_token: Seq<char>,
    state: ScanStateModel,
    event: ScanEventModel,
)
    ensures
        scan_step(host, account, api_token, state, event).1 == ScanActionModel::Finish(
            Err(ScanError::TimedOut),
        ) <==> (state matches ScanStateModel::Polling { remaining, .. } && remaining == 0 && event
            == ScanEventModel::Status(202)),
{
}

/// Every poll follows a pause of the fixed length: a poll is asked for only
/// when a pause has elapsed, and a scan pauses only by asking for that pause.
pub proof fn lemma_poll_follows_pause(
    host: Seq<char>,
    account: Seq<char>,
    api_token: Seq<char>,
    state: ScanStateModel,
    event: ScanEventModel,
)
    ensures
        scan_step(host, account, api_token, state, event).1 is Poll ==> state is Pausing && event
            == ScanEventModel::Elapsed,
        scan_step(host, account, api_token, state, event).0 is Pausing <==> scan_step(
            host,
            account,
            api_token,
            state,
            event,
        ).1 == (ScanActionModel::Pause { seconds: 20 }),
{
}

/// However a scan is driven, it sends no more polls than its state allows.
pub proof fn lemma_polls_bounded(
    host: Seq<char>,
    account: Seq<char>,
    api_token: Seq<char>,
    state: ScanStateModel,
    events: Seq<ScanEventModel>,
)
    ensures
        ({
            let run = scan_run(host, account, api_token, state, events);
            polls_sent(run.1) + polls_allowed(run.0) <= polls_allowed(state)
        }),
    decreases events.len(),
{
    if events.len() > 0 {
        let before = scan_run(host, account, api_token, state, events.drop_last());
        let last = scan_step(host, account, api_token, before.0, events.last());
        lemma_polls_bounded(host, account, api_token, state, events.drop_last());
        before.1.lemma_filter_push(last.1, |a: ScanActionModel| a is Poll);
    }
}

/// A scan polls at most three times, whatever it is told.
pub proof fn lemma_at_most_three_polls(
    host: Seq<char>,
    account: Seq<char>,
    api_token: Seq<char>,
    events: Seq<ScanEventModel>,
)
    ensures
        polls_sent(scan_run(host, account, api_token, ScanStateModel::Idle, events).1) <= 3,
{
    lemma_polls_bounded(host, account, api_token, ScanStateModel::Idle, events);
}

/// Every event brings a scan nearer to its end, and a scan that has ended
/// stays ended. A scan is therefore over after twelve events at most.
pub proof fn lemma_scan_progress(
    host: Seq<char>,
    account: Seq<char>,
    api_token: Seq<char>,
    state: ScanStateModel,
    event: ScanEventModel,
)
    ensures
        ({
            let next = scan_step(host, account, api_token, state, event);
            &&& !(state is Done) ==> steps_left(next.0) < steps_left(state)
            &&& state is Done ==> next == scan_ends(Err(ScanError::OutOfTurn))
            &&& next.0 is Done <==> next.1 is Finish
            &&& steps_left(ScanStateModel::Idle) == 12
        }),
{
}

/// Where a scan stands, and what it asks for, when `n` more polls have each
/// found the scan unfinished: from `start` on, `n` times a pause elapses and
/// the poll after it is answered with status 202.
pub open spec fn after_unfinished_polls(
    host: Seq<char>,
    account: Seq<char>,
    api_token: Seq<char>,
    start: (ScanStateModel, ScanActionModel),
    n: nat,
) -> (ScanStateModel, ScanActionModel)
    decreases n,
{
    if n == 0 {
        start
    } else {
        let before = after_unfinished_polls(host, account, api_token, start, (n - 1) as nat);
        let polled = scan_step(host, account, api_token, before.0, ScanEventModel::Elapsed);
        scan_step(host, account, api_token, polled.0, ScanEventModel::Status(202))
    }
}

/// A scan whose submission succeeded pauses before every poll, as long as
/// fewer than three polls have found it unfinished.
pub proof fn lemma_unfinished_polls(
    host: Seq<char>,
    account: Seq<char>,
    api_token: Seq<char>,
    uuid: Seq<char>,
    n: nat,
)
    requires
        n <= 2,
    ensures
        after_unfinished_polls(
            host,
            account,
            api_token,
            scan_step(
                host,
                account,
                api_token,
                ScanStateModel::ReadingSubmission,
                ScanEventModel::Submitted(Some((true, uuid))),
            ),
            n,
        ) == (
            ScanStateModel::Pausing { uuid, remaining: (2 - n) as u8 },
            ScanActionModel::Pause { seconds: 20 },
        ),
    decreases n,
{
    if n > 0 {
        lemma_unfinished_polls(host, account, api_token, uuid, (n - 1) as nat);
    }
}

/// What a scan comes to. After a submission that succeeded and at most two
/// polls that found the scan unfinished, the next poll goes to the address of
/// that scan; if it is answered with status 200 and a report that says it
/// succeeded, the scan ends with the verdict of that report, whatever went
/// before. After three polls that found the scan unfinished, the scan has
/// timed out.
pub proof fn lemma_scan_outcome(
    host: Seq<char>,
    account: Seq<char>,
    api_token: Seq<char>,
    uuid: Seq<char>,
    n: nat,
    report: Report,
)
    requires
        n <= 3,
    ensures
        ({
            let submitted = scan_step(
                host,
                account,
                api_token,
                ScanStateModel::ReadingSubmission,
                ScanEventModel::Submitted(Some((true, uuid))),
            );
            let waited = after_unfinished_polls(host, account, api_token, submitted, n);
            let polled = scan_step(host, account, api_token, waited.0, ScanEventModel::Elapsed);
            let answered = scan_step(
                host,
                account,
                api_token,
                polled.0,
                ScanEventModel::Status(200),
            );
            let read = scan_step(
                host,
                account,
                api_token,
                answered.0,
                ScanEventModel::Reported(Some(report)),
            );
            if n == 3 {
                waited == scan_ends(Err(ScanError::TimedOut))
            } else {
                &&& polled.1 == (ScanActionModel::Poll {
                    endpoint: poll_endpoint(account, uuid),
                    authorization: bearer(api_token),
                })
                &&& answered.1 == ScanActionModel::ReadReport
                &&& report.success ==> read == scan_ends(Ok(verdict_of(report)))
                &&& !report.success ==> read == scan_ends(Err(ScanError::Polling(Fault::Refused)))
            }
        }),
{
    if n == 3 {
        lemma_unfinished_polls(host, account, api_token, uuid, 2);
    } else {
        lemma_unfinished_polls(host, account, api_token, uuid, n);
    }
}

/// A scan submits the site once: it asks for the submission at its very
/// start and at no other time, and it never comes back to its start.
pub proof fn lemma_one_submission(
    host: Seq<char>,
    account: Seq<char>,
    api_token: Seq<char>,
    state: ScanStateModel,
    event: ScanEventModel,
)
    ensures
        scan_step(host, account, api_token, state, event).1 is Submit <==> state is Idle && event
            is Start,
        !(scan_step(host, account, api_token, state, event).0 is Idle),
{
}

} // verus!
