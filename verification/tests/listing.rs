use tenkbclub::config::{listen_port_default, log_level_default, LogLevel};
use tenkbclub::database::{
    cast_vote, check_site_blocked, pattern_blocks, size_failure_message, submit_site, Ballot,
    Standing,
};
use tenkbclub::error::{HtmlError, JsonError, TenKbError};
use tenkbclub::requests::{page_window, parse_site_ids, voted_sites, voter_id, Window};
use tenkbclub::text::{parse_usize, to_decimal};
use tenkbclub::{get_client_ip, get_page_links, RealIp, SortOptions};

#[test]
fn defaults() {
    assert_eq!(log_level_default(), LogLevel::Info);
    assert_eq!(listen_port_default(), 3003);
}

#[test]
fn sort_options_have_names() {
    assert_eq!(SortOptions::New.to_string(), "New");
    assert_eq!(SortOptions::Size.to_string(), "Size");
    assert_eq!(SortOptions::Votes.to_string(), "Votes");
    assert_eq!(SortOptions::Votes.name(), "Votes");
}

#[test]
fn listing_that_fits_one_page_has_no_links() {
    let (links, prev, next) = get_page_links(1, 25, 25, SortOptions::Votes);
    assert!(links.is_empty());
    assert_eq!(prev, "");
    assert_eq!(next, "");
    let (links, prev, next) = get_page_links(3, 0, 0, SortOptions::New);
    assert!(links.is_empty());
    assert_eq!(prev, "");
    assert_eq!(next, "");
}

#[test]
fn page_links_of_a_middle_page() {
    let (links, prev, next) = get_page_links(2, 51, 25, SortOptions::Size);
    assert_eq!(links.len(), 3);
    assert_eq!(links[0].index, 1);
    assert_eq!(links[0].uri, "/?paginate=25&sortby=Size&page=1");
    assert_eq!(links[1].index, 2);
    assert_eq!(links[1].uri, "");
    assert_eq!(links[2].index, 3);
    assert_eq!(links[2].uri, "/?paginate=25&sortby=Size&page=3");
    assert_eq!(prev, "/?paginate=25&sortby=Size&page=1");
    assert_eq!(next, "/?paginate=25&sortby=Size&page=3");
}

#[test]
fn page_links_at_the_ends() {
    let (links, prev, next) = get_page_links(1, 50, 25, SortOptions::Votes);
    assert_eq!(links.len(), 2);
    assert_eq!(prev, "");
    assert_eq!(next, "/?paginate=25&sortby=Votes&page=2");
    let (links, prev, next) = get_page_links(2, 50, 25, SortOptions::Votes);
    assert_eq!(links.len(), 2);
    assert_eq!(prev, "/?paginate=25&sortby=Votes&page=1");
    assert_eq!(next, "");
    let (links, prev, next) = get_page_links(0, 26, 25, SortOptions::New);
    assert_eq!(links.len(), 2);
    assert_eq!(links[0].uri, "/?paginate=25&sortby=New&page=1");
    assert_eq!(prev, "");
    assert_eq!(next, "/?paginate=25&sortby=New&page=1");
}

#[test]
fn client_ip_prefers_the_forwarded_address() {
    assert_eq!(
        get_client_ip(RealIp::Text("203.0.113.7".to_string()), Some("10.0.0.1".to_string())),
        Ok("203.0.113.7".to_string())
    );
    assert_eq!(
        get_client_ip(RealIp::Absent, Some("10.0.0.1".to_string())),
        Ok("10.0.0.1".to_string())
    );
    assert_eq!(
        get_client_ip(RealIp::Absent, None),
        Err("could not get IP address".to_string())
    );
    assert_eq!(
        get_client_ip(RealIp::Unreadable("\"\\xff\"".to_string()), Some("10.0.0.1".to_string())),
        Err("cannot convert \"\\xff\" to string".to_string())
    );
}

#[test]
fn decimal_numbers_are_read_as_the_standard_library_reads_them() {
    for text in ["0", "7", "42", "+42", "007", "", "+", "-1", "4 2", " 42", "42 ", "4_2", "१२", "1e3",
        "18446744073709551615", "18446744073709551616", "99999999999999999999999"] {
        assert_eq!(parse_usize(text), text.parse::<usize>().ok(), "reading {:?}", text);
    }
    assert_eq!(parse_usize("10240"), Some(10240));
}

#[test]
fn decimal_numbers_are_written_without_leading_zeros() {
    assert_eq!(to_decimal(0), "0");
    assert_eq!(to_decimal(9), "9");
    assert_eq!(to_decimal(10), "10");
    assert_eq!(to_decimal(10240), "10240");
    assert_eq!(to_decimal(usize::MAX), usize::MAX.to_string());
    for n in [0usize, 1, 99, 100, 12345, usize::MAX] {
        assert_eq!(parse_usize(&to_decimal(n)), Some(n));
    }
}

#[test]
fn errors_carry_code_500() {
    let e = HtmlError::from(TenKbError::Msg("boom".to_string()));
    assert_eq!((e.code(), e.status()), (500, "boom"));
    let e = HtmlError::from("page".to_string());
    assert_eq!((e.code(), e.status()), (500, "page"));
    let e = JsonError::from("invalid vote");
    assert_eq!((e.code(), e.status()), (500, "invalid vote"));
    let e = JsonError::from("text".to_string());
    assert_eq!((e.code(), e.status()), (500, "text"));
    let e = JsonError::from(TenKbError::Msg("db".to_string()));
    assert_eq!((e.code(), e.status()), (500, "db"));
    let e = JsonError::with_code(503, "busy".to_string());
    assert_eq!((e.code(), e.status()), (503, "busy"));
    assert_eq!(TenKbError::Msg("m".to_string()).message(), "m");
}

#[test]
fn blocked_sites_match_a_pattern() {
    let patterns = vec![
        "(unclosed".to_string(),
        r"^https?://([a-z]+\.)?spam\.example".to_string(),
        "casino".to_string(),
    ];
    assert!(check_site_blocked(&patterns, "https://www.spam.example/page"));
    assert!(check_site_blocked(&patterns, "https://best-casino.example"));
    assert!(!check_site_blocked(&patterns, "https://example.org"));
    assert!(!check_site_blocked(&Vec::new(), "https://example.org"));
    assert!(!check_site_blocked(&vec!["(".to_string()], "("));
    assert!(pattern_blocks("a+b", "xaaab"));
    assert!(!pattern_blocks("a+b", "xaaa"));
}

#[test]
fn submission_is_refused_for_the_first_reason_that_holds() {
    let free = Standing { active: false, blocked: false, queued: false };
    assert!(submit_site("https://example.org", free).is_ok());
    let message = |standing| match submit_site("https://example.org", standing) {
        Err(TenKbError::Msg(text)) => text,
        Ok(()) => panic!("the submission should be refused"),
    };
    assert_eq!(
        message(Standing { active: true, blocked: true, queued: true }),
        "site 'https://example.org' is already in the database"
    );
    assert_eq!(
        message(Standing { active: false, blocked: true, queued: true }),
        "sorry! site 'https://example.org' is blocked from submission"
    );
    assert_eq!(
        message(Standing { active: false, blocked: false, queued: true }),
        "site 'https://example.org' is already pending validation"
    );
}

#[test]
fn page_window_defaults_and_offsets() {
    assert_eq!(page_window(None, None), Some(Window { page: 1, paginate: 25, offset: 0 }));
    assert_eq!(page_window(Some(0), Some(10)), Some(Window { page: 1, paginate: 10, offset: 0 }));
    assert_eq!(page_window(Some(3), None), Some(Window { page: 3, paginate: 25, offset: 50 }));
    assert_eq!(page_window(Some(4), Some(7)), Some(Window { page: 4, paginate: 7, offset: 21 }));
    assert_eq!(page_window(Some(3), Some(usize::MAX)), None);
    assert_eq!(
        page_window(Some(2), Some(usize::MAX)),
        Some(Window { page: 2, paginate: usize::MAX, offset: usize::MAX })
    );
}

#[test]
fn votes_are_zero_or_one() {
    assert_eq!(cast_vote(0).ok(), Some(Ballot::Withdraw));
    assert_eq!(cast_vote(1).ok(), Some(Ballot::Cast));
    for vote in [-1, 2, isize::MAX, isize::MIN] {
        match cast_vote(vote) {
            Err(e) => assert_eq!((e.code(), e.status()), (500, "invalid vote")),
            Ok(b) => panic!("{} should be no vote, is {:?}", vote, b),
        }
    }
}

#[test]
fn site_ids_are_read_as_the_standard_library_reads_them() {
    for text in ["", "1", "1,2,3", "1,,2", ",", "7,x,8", " 7,8", "4294967295,4294967296,+5", "1,2,",
        "12,१२,13", "a", "-1,0"] {
        let expected: Vec<u32> = text.split(",").filter_map(|s| s.parse().ok()).collect();
        assert_eq!(parse_site_ids(text), expected, "reading {:?}", text);
    }
    assert_eq!(parse_site_ids("3,1,2"), vec![3, 1, 2]);
}

#[test]
fn voted_sites_are_the_votes_that_were_asked_about() {
    assert_eq!(voted_sites(&vec![5, 1, 9, 3], &vec![3, 4, 5]), vec![5, 3]);
    assert_eq!(voted_sites(&vec![5, 5, 1], &vec![5]), vec![5, 5]);
    assert!(voted_sites(&vec![1, 2], &Vec::new()).is_empty());
    assert!(voted_sites(&Vec::new(), &vec![1, 2]).is_empty());
}

#[test]
fn voter_id_is_lower_case_hexadecimal() {
    assert_eq!(voter_id(&[1, 2, 3, 15, 16]), "0102030f10");
    assert_eq!(voter_id(&[0xff, 0xa0, 0x0b]), "ffa00b");
    assert_eq!(voter_id(&[]), "");
    let seed = [0xabu8; 32];
    let id = voter_id(&seed);
    assert_eq!(id.len(), 64);
    assert_eq!(id, "ab".repeat(32));
}

#[test]
fn size_failure_names_the_size() {
    assert_eq!(size_failure_message(10241), "size validation failed: site is 10241 bytes");
    assert_eq!(size_failure_message(0), "size validation failed: site is 0 bytes");
    assert_eq!(
        size_failure_message(u32::MAX),
        "size validation failed: site is 4294967295 bytes"
    );
}
