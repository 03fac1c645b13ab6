use tenkbclub::cloudflare::{
    urlscan, verdict, Fault, Report, ScanAction, ScanError, ScanEvent, ScanState, Submission,
    UrlScan,
};

fn drive(events: Vec<ScanEvent>) -> (ScanState, Vec<ScanAction>) {
    let mut state = ScanState::Idle;
    let mut actions = Vec::new();
    for event in events {
        let (next, action) = urlscan("https://example.org", "acct", "SECRET-REDACTED", state, event);
        state = next;
        actions.push(action);
    }
    (state, actions)
}

fn submitted(uuid: &str) -> ScanEvent {
    ScanEvent::Submitted(Some(Submission { success: true, uuid: uuid.to_string() }))
}

fn report(size: u32, malicious: bool) -> ScanEvent {
    ScanEvent::Reported(Some(Report { success: true, transfer_size: size, malicious }))
}

#[test]
fn scan_polls_until_the_report_arrives() {
    let (state, actions) = drive(vec![
        ScanEvent::Start,
        ScanEvent::Status(200),
        submitted("abc123"),
        ScanEvent::Elapsed,
        ScanEvent::Status(202),
        ScanEvent::Elapsed,
        ScanEvent::Status(202),
        ScanEvent::Elapsed,
        ScanEvent::Status(200),
        report(5000, false),
    ]);
    assert!(matches!(state, ScanState::Done));
    match actions.last() {
        Some(ScanAction::Finish(result)) => {
            assert_eq!(*result, Ok(UrlScan { size: 5000, acceptable: true }))
        }
        other => panic!("unexpected last action: {:?}", other),
    }
    let polls = actions.iter().filter(|a| matches!(a, ScanAction::Poll { .. })).count();
    assert_eq!(polls, 3);
}

#[test]
fn scan_times_out_after_three_unfinished_polls() {
    let (state, actions) = drive(vec![
        ScanEvent::Start,
        ScanEvent::Status(200),
        submitted("abc123"),
        ScanEvent::Elapsed,
        ScanEvent::Status(202),
        ScanEvent::Elapsed,
        ScanEvent::Status(202),
        ScanEvent::Elapsed,
        ScanEvent::Status(202),
    ]);
    assert!(matches!(state, ScanState::Done));
    match actions.last() {
        Some(ScanAction::Finish(result)) => assert_eq!(*result, Err(ScanError::TimedOut)),
        other => panic!("unexpected last action: {:?}", other),
    }
}

#[test]
fn size_limit_is_inclusive() {
    let at = verdict(Report { success: true, transfer_size: 10_240, malicious: false });
    assert_eq!(at, UrlScan { size: 10_240, acceptable: true });
    let over = verdict(Report { success: true, transfer_size: 10_241, malicious: false });
    assert_eq!(over, UrlScan { size: 10_241, acceptable: false });
}

#[test]
fn malicious_site_is_unacceptable_at_any_size() {
    let v = verdict(Report { success: true, transfer_size: 10, malicious: true });
    assert_eq!(v, UrlScan { size: 10, acceptable: false });
}

#[test]
fn submission_builds_endpoint_and_header() {
    let (state, action) =
        urlscan("https://example.org", "acct", "SECRET-REDACTED", ScanState::Idle, ScanEvent::Start);
    assert!(matches!(state, ScanState::Submitting));
    match action {
        ScanAction::Submit { endpoint, authorization, url } => {
            assert_eq!(
                endpoint,
                "https://api.cloudflare.com/client/v4/accounts/acct/urlscanner/scan"
            );
            assert_eq!(authorization, "Bearer SECRET-REDACTED");
            assert_eq!(url, "https://example.org");
        }
        other => panic!("unexpected action: {:?}", other),
    }
}

#[test]
fn poll_is_keyed_by_the_scan_identifier() {
    let (_, actions) =
        drive(vec![ScanEvent::Start, ScanEvent::Status(200), submitted("abc123"), ScanEvent::Elapsed]);
    assert!(matches!(actions[2], ScanAction::Pause { seconds: 20 }));
    match &actions[3] {
        ScanAction::Poll { endpoint, authorization } => {
            assert_eq!(
                endpoint,
                "https://api.cloudflare.com/client/v4/accounts/acct/urlscanner/scan/abc123"
            );
            assert_eq!(authorization, "Bearer SECRET-REDACTED");
        }
        other => panic!("unexpected action: {:?}", other),
    }
}

#[test]
fn submission_failures_end_the_scan() {
    let (_, a) = drive(vec![ScanEvent::Start, ScanEvent::Status(500)]);
    assert!(matches!(
        a.last(),
        Some(ScanAction::Finish(Err(ScanError::Submission(Fault::Status(500)))))
    ));
    let (_, a) = drive(vec![ScanEvent::Start, ScanEvent::Failed]);
    assert!(matches!(
        a.last(),
        Some(ScanAction::Finish(Err(ScanError::Submission(Fault::Transport))))
    ));
    let (_, a) = drive(vec![
        ScanEvent::Start,
        ScanEvent::Status(200),
        ScanEvent::Submitted(Some(Submission { success: false, uuid: String::new() })),
    ]);
    assert!(matches!(
        a.last(),
        Some(ScanAction::Finish(Err(ScanError::Submission(Fault::Refused))))
    ));
    let (_, a) = drive(vec![ScanEvent::Start, ScanEvent::Status(200), ScanEvent::Submitted(None)]);
    assert!(matches!(
        a.last(),
        Some(ScanAction::Finish(Err(ScanError::Submission(Fault::Malformed))))
    ));
}

#[test]
fn polling_failures_end_the_scan() {
    let begin = || vec![ScanEvent::Start, ScanEvent::Status(200), submitted("u"), ScanEvent::Elapsed];
    let mut events = begin();
    events.push(ScanEvent::Status(404));
    let (_, a) = drive(events);
    assert!(matches!(
        a.last(),
        Some(ScanAction::Finish(Err(ScanError::Polling(Fault::Status(404)))))
    ));
    let mut events = begin();
    events.push(ScanEvent::Failed);
    let (_, a) = drive(events);
    assert!(matches!(a.last(), Some(ScanAction::Finish(Err(ScanError::Polling(Fault::Transport))))));
    let mut events = begin();
    events.push(ScanEvent::Status(200));
    events.push(ScanEvent::Reported(None));
    let (_, a) = drive(events);
    assert!(matches!(a.last(), Some(ScanAction::Finish(Err(ScanError::Polling(Fault::Malformed))))));
    let mut events = begin();
    events.push(ScanEvent::Status(200));
    events.push(ScanEvent::Reported(Some(Report {
        success: false,
        transfer_size: 1,
        malicious: false,
    })));
    let (_, a) = drive(events);
    assert!(matches!(a.last(), Some(ScanAction::Finish(Err(ScanError::Polling(Fault::Refused))))));
}

#[test]
fn event_out_of_turn_ends_the_scan() {
    let (state, a) = drive(vec![ScanEvent::Start, ScanEvent::Elapsed]);
    assert!(matches!(state, ScanState::Done));
    assert!(matches!(a.last(), Some(ScanAction::Finish(Err(ScanError::OutOfTurn)))));
    let (state, a) = drive(vec![ScanEvent::Start, ScanEvent::Failed, ScanEvent::Start]);
    assert!(matches!(state, ScanState::Done));
    assert!(matches!(a.last(), Some(ScanAction::Finish(Err(ScanError::OutOfTurn)))));
}

#[test]
fn oversize_scan_reports_the_measured_size() {
    let (_, a) = drive(vec![
        ScanEvent::Start,
        ScanEvent::Status(200),
        submitted("u"),
        ScanEvent::Elapsed,
        ScanEvent::Status(200),
        report(20_000, false),
    ]);
    assert!(matches!(
        a.last(),
        Some(ScanAction::Finish(Ok(UrlScan { size: 20_000, acceptable: false })))
    ));
}
