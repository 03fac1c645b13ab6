use tenkbclub::analyzer::aggregate;
use tenkbclub::ranking::rank;
use tenkbclub::relatedlinks::{
    check_link, check_stories, extract, find_host, hackernews, hn_candidates, lobsters,
    lobsters_candidates, search_host, stories_from, HnRelatedLinkSearch, HnRelatedLinkSearchHits,
    Probe, RelatedLink, SearchAction, SearchError, SearchEvent, SearchState, Story,
};

fn link(url: &str, upvotes: usize) -> RelatedLink {
    RelatedLink {
        url: url.to_string(),
        discussion_url: format!("https://discuss.example/{}", upvotes),
        description: format!("about {}", url),
        upvotes,
        comments: 1,
        date: "2024-01-01".to_string(),
    }
}

fn hit(url: &str, points: usize, comments: usize, id: &str) -> HnRelatedLinkSearchHits {
    HnRelatedLinkSearchHits {
        created_at: "2024-02-03T04:05:06Z".to_string(),
        num_comments: comments,
        points,
        url: url.to_string(),
        title: format!("title of {}", id),
        object_id: id.to_string(),
    }
}

fn scores(links: &[RelatedLink]) -> Vec<usize> {
    links.iter().map(|l| l.upvotes).collect()
}

fn story_block(score: &str, url: &str, title: &str, date: &str, path: &str, comments: &str) -> String {
    format!(
        "<div class=\"story_liner h-entry\">\n  <div class=\"voters\">\n    <a class=\"upvoter\" href=\"/login\"></a>\n    <div class=\"score\">{}</div>\n  </div>\n  <div class=\"details\">\n    <span role=\"heading\" aria-level=\"1\" class=\"link h-cite u-repost-of\">\n      <a class=\"u-url\" href=\"{}\" rel=\"ugc noreferrer\">{}</a>\n    </span>\n    <div class=\"byline\">\n      <span title=\"{}\">3 months ago</span>\n      <span class=\"comments_label\">\n        <a role=\"heading\" aria-level=\"2\" href=\"{}\">\n          {} comments\n        </a>\n      </span>\n    </div>\n  </div>\n</div>\n",
        score, url, title, date, path, comments
    )
}

/// Drives a search that is waiting for its first probe to the end: each
/// probe is answered from `probes`, each pause elapses.
fn finish_checks(
    step: fn(&str, SearchState, SearchEvent) -> (SearchState, SearchAction),
    site: &str,
    mut state: SearchState,
    mut action: SearchAction,
    probes: &[Probe],
) -> (Result<Vec<RelatedLink>, SearchError>, Vec<String>, usize) {
    let mut probed = Vec::new();
    let mut pauses = 0;
    let mut answers = probes.iter();
    loop {
        let event = match action {
            SearchAction::Probe { url } => {
                probed.push(url);
                SearchEvent::Probed(*answers.next().expect("a probe for every candidate"))
            }
            SearchAction::Pause { seconds } => {
                assert_eq!(seconds, 2);
                pauses += 1;
                SearchEvent::Elapsed
            }
            SearchAction::Finish(result) => {
                assert!(matches!(state, SearchState::Done));
                return (result, probed, pauses);
            }
            other => panic!("unexpected action: {:?}", other),
        };
        let next = step(site, state, event);
        state = next.0;
        action = next.1;
    }
}

fn run_hackernews(
    site: &str,
    hits: Vec<HnRelatedLinkSearchHits>,
    probes: &[Probe],
) -> (Result<Vec<RelatedLink>, SearchError>, Vec<String>, usize) {
    let (state, action) = hackernews(site, SearchState::Idle, SearchEvent::Start);
    assert!(matches!(action, SearchAction::Search { .. }));
    let (state, action) = hackernews(site, state, SearchEvent::Status(200));
    assert!(matches!(action, SearchAction::ReadHits));
    let (state, action) =
        hackernews(site, state, SearchEvent::Hits(Some(HnRelatedLinkSearch { hits })));
    finish_checks(hackernews, site, state, action, probes)
}

fn run_lobsters(
    site: &str,
    page: String,
    probes: &[Probe],
) -> (Result<Vec<RelatedLink>, SearchError>, Vec<String>, usize) {
    let (state, action) = lobsters(site, SearchState::Idle, SearchEvent::Start);
    assert!(matches!(action, SearchAction::Search { .. }));
    let (state, action) = lobsters(site, state, SearchEvent::Status(200));
    assert!(matches!(action, SearchAction::ReadPage));
    let (state, action) = lobsters(site, state, SearchEvent::Page(page));
    finish_checks(lobsters, site, state, action, probes)
}

#[test]
fn check_link_wants_status_200() {
    assert!(check_link(Probe::Status(200)));
    assert!(!check_link(Probe::Status(204)));
    assert!(!check_link(Probe::Status(404)));
    assert!(!check_link(Probe::Failed));
}

#[test]
fn rank_orders_by_descending_score() {
    let given: Vec<RelatedLink> =
        [5, 80, 3, 40, 12, 60, 1].iter().map(|s| link("https://example.org", *s)).collect();
    let ranked = rank(given);
    assert_eq!(scores(&ranked), vec![80, 60, 40, 12, 5, 3, 1]);
}

#[test]
fn top_five_of_seven_candidates() {
    let given: Vec<RelatedLink> =
        [5, 80, 3, 40, 12, 60, 1].iter().map(|s| link("https://example.org", *s)).collect();
    let kept = aggregate(rank(given), Vec::new());
    assert_eq!(scores(&kept), vec![80, 60, 40, 12, 5]);
}

#[test]
fn rank_keeps_the_order_of_equal_scores() {
    let given = vec![
        link("https://a.example", 7),
        link("https://b.example", 9),
        link("https://c.example", 7),
        link("https://d.example", 9),
        link("https://e.example", 7),
    ];
    let ranked = rank(given);
    let urls: Vec<&str> = ranked.iter().map(|l| l.url.as_str()).collect();
    assert_eq!(
        urls,
        vec![
            "https://b.example",
            "https://d.example",
            "https://a.example",
            "https://c.example",
            "https://e.example"
        ]
    );
}

#[test]
fn rank_of_nothing_is_nothing() {
    assert!(rank(Vec::new()).is_empty());
}

#[test]
fn aggregate_puts_api_links_before_scraped_links() {
    let api: Vec<RelatedLink> = (1..=7).map(|s| link("https://api.example", s)).collect();
    let scraped: Vec<RelatedLink> = (100..=108).map(|s| link("https://scrape.example", s)).collect();
    let all = aggregate(api, scraped);
    assert_eq!(all.len(), 10);
    assert_eq!(scores(&all), vec![1, 2, 3, 4, 5, 100, 101, 102, 103, 104]);
    assert!(all[..5].iter().all(|l| l.url == "https://api.example"));
    assert!(all[5..].iter().all(|l| l.url == "https://scrape.example"));
}

#[test]
fn aggregate_of_short_lists_keeps_everything() {
    let all = aggregate(vec![link("https://a.example", 1)], vec![link("https://b.example", 9)]);
    assert_eq!(scores(&all), vec![1, 9]);
    assert!(aggregate(Vec::new(), Vec::new()).is_empty());
}

#[test]
fn hn_candidates_drop_hits_about_other_sites() {
    let search = HnRelatedLinkSearch {
        hits: vec![
            hit("https://example.org/a", 3, 0, "1"),
            hit("https://example.com/loud", 9999, 500, "2"),
            hit("https://example.org/b", 8, 2, "3"),
        ],
    };
    let links = hn_candidates("https://example.org", &search);
    assert_eq!(links.len(), 2);
    assert_eq!(
        links[0],
        RelatedLink {
            url: "https://example.org/a".to_string(),
            discussion_url: "https://news.ycombinator.com/item?id=1".to_string(),
            description: "title of 1".to_string(),
            upvotes: 3,
            comments: 0,
            date: "2024-02-03T04:05:06Z".to_string(),
        }
    );
    assert_eq!(links[1].url, "https://example.org/b");
    assert_eq!(links[1].discussion_url, "https://news.ycombinator.com/item?id=3");
}

#[test]
fn hackernews_searches_by_site() {
    let (state, action) = hackernews("https://example.org", SearchState::Idle, SearchEvent::Start);
    assert!(matches!(state, SearchState::Searching));
    match action {
        SearchAction::Search { url } => assert_eq!(
            url,
            "https://hn.algolia.com/api/v1/search?query=https://example.org&restrictSearchableAttributes=url"
        ),
        other => panic!("unexpected action: {:?}", other),
    }
}

#[test]
fn hackernews_keeps_live_matching_hits_ranked() {
    let hits = vec![
        hit("https://example.org/a", 3, 0, "1"),
        hit("https://other.example/x", 1000, 10, "2"),
        hit("https://example.org/b", 8, 2, "3"),
        hit("https://example.org/c", 5, 1, "4"),
    ];
    let (result, probed, pauses) = run_hackernews(
        "https://example.org",
        hits,
        &[Probe::Status(200), Probe::Status(404), Probe::Status(200)],
    );
    let links = result.expect("the search succeeds");
    assert_eq!(
        probed,
        vec!["https://example.org/a", "https://example.org/b", "https://example.org/c"]
    );
    assert_eq!(pauses, 3);
    let urls: Vec<&str> = links.iter().map(|l| l.url.as_str()).collect();
    assert_eq!(urls, vec!["https://example.org/c", "https://example.org/a"]);
    assert_eq!(links[1].comments, 0);
}

#[test]
fn hackernews_without_matching_hits_gives_no_links() {
    let (result, probed, pauses) =
        run_hackernews("https://example.org", vec![hit("https://elsewhere.example", 50, 5, "9")], &[]);
    assert_eq!(result, Ok(Vec::new()));
    assert!(probed.is_empty());
    assert_eq!(pauses, 0);
}

#[test]
fn hackernews_fails_on_bad_answers() {
    let site = "https://example.org";
    let (state, _) = hackernews(site, SearchState::Idle, SearchEvent::Start);
    let (state, action) = hackernews(site, state, SearchEvent::Status(503));
    assert!(matches!(state, SearchState::Done));
    assert!(matches!(action, SearchAction::Finish(Err(SearchError::Status(503)))));

    let (state, _) = hackernews(site, SearchState::Idle, SearchEvent::Start);
    let (_, action) = hackernews(site, state, SearchEvent::Failed);
    assert!(matches!(action, SearchAction::Finish(Err(SearchError::Transport))));

    let (state, _) = hackernews(site, SearchState::Idle, SearchEvent::Start);
    let (state, _) = hackernews(site, state, SearchEvent::Status(200));
    let (_, action) = hackernews(site, state, SearchEvent::Hits(None));
    assert!(matches!(action, SearchAction::Finish(Err(SearchError::Malformed))));

    let (_, action) = hackernews(site, SearchState::Idle, SearchEvent::Elapsed);
    assert!(matches!(action, SearchAction::Finish(Err(SearchError::OutOfTurn))));
}

#[test]
fn extract_reads_the_story_blocks_of_a_page() {
    let page = format!(
        "<html><body>\n<ol class=\"stories list\">\n{}{}</ol>\n</body></html>\n",
        story_block("42", "https://example.org/post", "A post", "2024-03-01 10:00:00 -0600", "/s/abc123/a_post", "7"),
        story_block("~", "https://example.org/other", "Another", "2024-04-02 11:00:00 -0600", "/s/def456/another", "0"),
    );
    let stories = extract(&page).expect("the pattern is accepted");
    assert_eq!(stories.len(), 2);
    assert_eq!(stories[0].score, "42");
    assert_eq!(stories[0].url, "https://example.org/post");
    assert_eq!(stories[0].title, "A post");
    assert_eq!(stories[0].date, "2024-03-01 10:00:00 -0600");
    assert_eq!(stories[0].path, "/s/abc123/a_post");
    assert_eq!(stories[0].comments, "7");
    assert_eq!(stories[1].score, "~");
    assert_eq!(stories[1].url, "https://example.org/other");
    assert_eq!(stories[1].comments, "0");
}

#[test]
fn extract_of_a_page_without_stories_is_empty() {
    let stories = extract("<html><body><p>no results</p></body></html>").expect("accepted");
    assert!(stories.is_empty());
}

#[test]
fn stories_from_skips_matches_of_another_shape() {
    let some = |s: &str| Some(s.to_string());
    let found = vec![
        vec![some("whole"), some("1"), some("u"), some("t"), some("d"), some("/p"), some("2")],
        vec![some("whole"), some("1"), None, some("t"), some("d"), some("/p"), some("2")],
        vec![some("whole"), some("1")],
    ];
    let stories = stories_from(&found);
    assert_eq!(stories.len(), 1);
    assert_eq!(stories[0].url, "u");
    assert_eq!(stories[0].comments, "2");
}

fn story(score: &str, url: &str, comments: &str) -> Story {
    Story {
        score: score.to_string(),
        url: url.to_string(),
        title: "t".to_string(),
        date: "d".to_string(),
        path: "/s/x".to_string(),
        comments: comments.to_string(),
    }
}

#[test]
fn lobsters_candidates_need_comments_and_the_site() {
    let stories = vec![
        story("10", "https://example.org/a", "0"),
        story("11", "https://example.org/b", "3"),
        story("12", "https://elsewhere.example/c", "4"),
        story("not a number", "https://example.org/d", "5"),
        story("13", "https://example.org/e", "99999999999999999999999999"),
    ];
    let links = lobsters_candidates("https://example.org", &stories);
    assert_eq!(links.len(), 2);
    assert_eq!(
        links[0],
        RelatedLink {
            url: "https://example.org/b".to_string(),
            discussion_url: "https://lobste.rs/s/x".to_string(),
            description: "t".to_string(),
            upvotes: 11,
            comments: 3,
            date: "d".to_string(),
        }
    );
    assert_eq!(links[1].url, "https://example.org/d");
    assert_eq!(links[1].upvotes, 0);
    assert_eq!(links[1].comments, 5);
}

#[test]
fn lobsters_searches_by_host() {
    let (state, action) =
        lobsters("https://example.org/some/page", SearchState::Idle, SearchEvent::Start);
    assert!(matches!(state, SearchState::Searching));
    match action {
        SearchAction::Search { url } => assert_eq!(
            url,
            "https://lobste.rs/search?q=domain:example.org&what=stories&order=score"
        ),
        other => panic!("unexpected action: {:?}", other),
    }
}

#[test]
fn lobsters_needs_a_url_with_a_host() {
    let (state, action) = lobsters("not a url", SearchState::Idle, SearchEvent::Start);
    assert!(matches!(state, SearchState::Done));
    assert!(matches!(action, SearchAction::Finish(Err(SearchError::InvalidUrl))));
    let (_, action) = lobsters("data:text/plain,Stuff", SearchState::Idle, SearchEvent::Start);
    assert!(matches!(action, SearchAction::Finish(Err(SearchError::NoHost))));
}

#[test]
fn lobsters_drops_stories_without_comments() {
    let page = format!(
        "{}{}{}",
        story_block("4", "https://example.org/quiet", "Quiet", "2024-01-01", "/s/q/quiet", "0"),
        story_block("9", "https://example.org/busy", "Busy", "2024-01-02", "/s/b/busy", "12"),
        story_block("20", "https://example.org/dead", "Dead", "2024-01-03", "/s/d/dead", "3"),
    );
    let (result, probed, pauses) =
        run_lobsters("https://example.org", page, &[Probe::Status(200), Probe::Failed]);
    let links = result.expect("the search succeeds");
    assert_eq!(probed, vec!["https://example.org/busy", "https://example.org/dead"]);
    assert_eq!(pauses, 2);
    assert_eq!(
        links,
        vec![RelatedLink {
            url: "https://example.org/busy".to_string(),
            discussion_url: "https://lobste.rs/s/b/busy".to_string(),
            description: "Busy".to_string(),
            upvotes: 9,
            comments: 12,
            date: "2024-01-02".to_string(),
        }]
    );
}

#[test]
fn lobsters_fails_on_bad_answers() {
    let site = "https://example.org";
    let (state, _) = lobsters(site, SearchState::Idle, SearchEvent::Start);
    let (_, action) = lobsters(site, state, SearchEvent::Status(500));
    assert!(matches!(action, SearchAction::Finish(Err(SearchError::Status(500)))));
    let (state, _) = lobsters(site, SearchState::Idle, SearchEvent::Start);
    let (state, _) = lobsters(site, state, SearchEvent::Status(200));
    let (_, action) = lobsters(site, state, SearchEvent::Failed);
    assert!(matches!(action, SearchAction::Finish(Err(SearchError::Transport))));
    let (state, _) = lobsters(site, SearchState::Idle, SearchEvent::Start);
    let (_, action) = lobsters(site, state, SearchEvent::Hits(None));
    assert!(matches!(action, SearchAction::Finish(Err(SearchError::OutOfTurn))));
}

#[test]
fn find_host_reads_the_host_of_a_url() {
    assert_eq!(find_host("https://example.org/a/b?c=d"), Ok("example.org".to_string()));
    assert_eq!(find_host("https://127.0.0.1/index.html"), Ok("127.0.0.1".to_string()));
    assert_eq!(find_host("ftp://rms@example.com"), Ok("example.com".to_string()));
    assert_eq!(find_host("example.org"), Err(SearchError::InvalidUrl));
    assert_eq!(find_host(""), Err(SearchError::InvalidUrl));
    assert_eq!(find_host("unix:/run/foo.socket"), Err(SearchError::NoHost));
}

#[test]
fn search_host_asks_for_the_search_or_ends() {
    let (state, action) = search_host(Ok("example.org".to_string()));
    assert!(matches!(state, SearchState::Searching));
    match action {
        SearchAction::Search { url } => assert_eq!(
            url,
            "https://lobste.rs/search?q=domain:example.org&what=stories&order=score"
        ),
        other => panic!("unexpected action: {:?}", other),
    }
    for e in [SearchError::InvalidUrl, SearchError::NoHost] {
        let (state, action) = search_host(Err(e));
        assert!(matches!(state, SearchState::Done));
        match action {
            SearchAction::Finish(result) => assert_eq!(result, Err(e)),
            other => panic!("unexpected action: {:?}", other),
        }
    }
}

#[test]
fn check_stories_probes_the_first_candidate_or_ends() {
    let site = "https://example.org";
    let (state, action) = check_stories(site, Err(SearchError::Pattern));
    assert!(matches!(state, SearchState::Done));
    assert!(matches!(action, SearchAction::Finish(Err(SearchError::Pattern))));

    let (state, action) = check_stories(site, Ok(vec![story("1", "https://example.org/a", "0")]));
    assert!(matches!(state, SearchState::Done));
    match action {
        SearchAction::Finish(result) => assert_eq!(result, Ok(Vec::new())),
        other => panic!("unexpected action: {:?}", other),
    }

    let stories =
        vec![story("1", "https://example.org/a", "2"), story("5", "https://example.org/b", "1")];
    let (state, action) = check_stories(site, Ok(stories));
    match state {
        SearchState::Probing { current, rest, live } => {
            assert_eq!(current.url, "https://example.org/a");
            assert_eq!(rest.len(), 1);
            assert_eq!(rest[0].url, "https://example.org/b");
            assert!(live.is_empty());
        }
        other => panic!("unexpected state: {:?}", other),
    }
    match action {
        SearchAction::Probe { url } => assert_eq!(url, "https://example.org/a"),
        other => panic!("unexpected action: {:?}", other),
    }
}
