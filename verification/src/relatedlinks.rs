//! Links to outside discussions of a site: the record that is kept for each,
//! and the two searches that find them.

use crate::pattern::{captures, regex_captures};
use crate::ranking::{lemma_ranked_members, rank, ranked};
use crate::text::{contains, occurs_in, parse_usize, parsed_usize};
use vstd::prelude::*;

verus! {

/// One discussion of a site on an outside platform.
#[derive(Debug)]
pub struct RelatedLink {
    pub url: String,
    pub discussion_url: String,
    pub description: String,
    pub upvotes: usize,
    pub comments: usize,
    pub date: String,
}

/// What a `RelatedLink` says, as plain text and numbers.
pub struct LinkModel {
    pub url: Seq<char>,
    pub discussion_url: Seq<char>,
    pub description: Seq<char>,
    pub upvotes: nat,
    pub comments: nat,
    pub date: Seq<char>,
}

impl View for RelatedLink {
    type V = LinkModel;

    open spec fn view(&self) -> LinkModel {
        LinkModel {
            url: self.url@,
            discussion_url: self.discussion_url@,
            description: self.description@,
            upvotes: self.upvotes as nat,
            comments: self.comments as nat,
            date: self.date@,
        }
    }
}

impl Clone for RelatedLink {
    fn clone(&self) -> (r: Self)
        ensures
            r == *self,
    {
        RelatedLink {
            url: self.url.clone(),
            discussion_url: self.discussion_url.clone(),
            description: self.description.clone(),
            upvotes: self.upvotes,
            comments: self.comments,
            date: self.date.clone(),
        }
    }
}

impl PartialEq for RelatedLink {
    fn eq(&self, other: &Self) -> (r: bool) {
        self.url == other.url && self.discussion_url == other.discussion_url && self.description
            == other.description && self.upvotes == other.upvotes && self.comments
            == other.comments && self.date == other.date
    }
}

impl vstd::std_specs::cmp::PartialEqSpecImpl for RelatedLink {
    open spec fn obeys_eq_spec() -> bool {
        true
    }

    open spec fn eq_spec(&self, other: &Self) -> bool {
        self@ == other@
    }
}

/// The models of a list of links, in the same order.
pub open spec fn link_models(links: Seq<RelatedLink>) -> Seq<LinkModel> {
    links.map_values(|l: RelatedLink| l@)
}

/// Taking the models of a list commutes with adding a link at its end.
proof fn lemma_link_models_push(links: Seq<RelatedLink>, link: RelatedLink)
    ensures
        link_models(links.push(link)) == link_models(links).push(link@),
{
}

/// Taking the models of a list commutes with dropping its first link.
proof fn lemma_link_models_drop_first(links: Seq<RelatedLink>)
    requires
        links.len() > 0,
    ensures
        link_models(links.remove(0)) == link_models(links).drop_first(),
        link_models(links)[0] == links[0]@,
{
}

/// How one request for a page ended.
#[derive(Debug, Clone, Copy, PartialEq, Eq, Structural)]
pub enum Probe {
    /// No answer came: the name did not resolve, the connection failed, or time ran out.
    Failed,
    /// The server answered with this status.
    Status(u16),
}

/// Whether a page counts as reachable: it was answered, with status 200.
pub open spec fn is_live(probe: Probe) -> bool {
    probe == Probe::Status(200)
}

/// Whether the page behind a link is reachable, given how the request for it ended.
pub fn check_link(probe: Probe) -> (live: bool)
    ensures
        live == is_live(probe),
{
    match probe {
        Probe::Status(code) => code == 200,
        Probe::Failed => false,
    }
}

/// The answer of the search API.
#[derive(Debug)]
pub struct HnRelatedLinkSearch {
    pub hits: Vec<HnRelatedLinkSearchHits>,
}

/// One hit of the search API.
#[derive(Debug)]
pub struct HnRelatedLinkSearchHits {
    pub created_at: String,
    pub num_comments: usize,
    pub points: usize,
    pub url: String,
    pub title: String,
    pub object_id: String,
}

/// What a hit of the search API says, as plain text and numbers.
pub struct HitModel {
    pub created_at: Seq<char>,
    pub num_comments: nat,
    pub points: nat,
    pub url: Seq<char>,
    pub title: Seq<char>,
    pub object_id: Seq<char>,
}

impl View for HnRelatedLinkSearchHits {
    type V = HitModel;

    open spec fn view(&self) -> HitModel {
        HitModel {
            created_at: self.created_at@,
            num_comments: self.num_comments as nat,
            points: self.points as nat,
            url: self.url@,
            title: self.title@,
            object_id: self.object_id@,
        }
    }
}

impl View for HnRelatedLinkSearch {
    type V = Seq<HitModel>;

    open spec fn view(&self) -> Seq<HitModel> {
        self.hits@.map_values(|h: HnRelatedLinkSearchHits| h@)
    }
}

/// The link that a hit of the search API stands for. A hit without comments
/// is a link like any other.
pub open spec fn hit_link(hit: HitModel) -> LinkModel {
    LinkModel {
        url: hit.url,
        discussion_url: "https://news.ycombinator.com/item?id="@ + hit.object_id,
        description: hit.title,
        upvotes: hit.points,
        comments: hit.num_comments,
        date: hit.created_at,
    }
}

/// The links of those hits whose address contains `site`, in the order of the hits.
pub open spec fn matching_hits(site: Seq<char>, hits: Seq<HitModel>) -> Seq<LinkModel> {
    hits.filter(|h: HitModel| occurs_in(site, h.url)).map_values(|h: HitModel| hit_link(h))
}

/// The hits of a search that are about `site`, as links: a hit counts only if
/// its address contains `site`, whatever its score.
pub fn hn_candidates(site: &str, search: &HnRelatedLinkSearch) -> (links: Vec<RelatedLink>)
    ensures
        link_models(links@) == matching_hits(site@, search@),
{
    let ghost about = |h: HitModel| occurs_in(site@, h.url);
    let mut links: Vec<RelatedLink> = Vec::new();
    let mut i: usize = 0;
    while i < search.hits.len()
        invariant
            0 <= i <= search.hits.len(),
            about == |h: HitModel| occurs_in(site@, h.url),
            link_models(links@) == matching_hits(site@, search@.take(i as int)),
        decreases search.hits.len() - i,
    {
        let hit: &HnRelatedLinkSearchHits = &search.hits[i];
        proof {
            assert(search@.take(i + 1) =~= search@.take(i as int).push(hit@));
            search@.take(i as int).lemma_filter_push(hit@, about);
        }
        if contains(hit.url.as_str(), site) {
            let mut discussion_url: String = String::from_str(
                "https://news.ycombinator.com/item?id=",
            );
            discussion_url.append(hit.object_id.as_str());
            let link = RelatedLink {
                url: hit.url.clone(),
                discussion_url,
                description: hit.title.clone(),
                upvotes: hit.points,
                comments: hit.num_comments,
                date: hit.created_at.clone(),
            };
            assert(matching_hits(site@, search@.take(i + 1)) =~= matching_hits(
                site@,
                search@.take(i as int),
            ).push(hit_link(hit@)));
            links.push(link);
        }
        i = i + 1;
    }
    assert(search@.take(i as int) =~= search@);
    links
}

/// Every link that `matching_hits` gives has an address that contains the
/// site: a hit about another address is never among them, however it scores.
pub proof fn lemma_matching_hits_contain_site(site: Seq<char>, hits: Seq<HitModel>)
    ensures
        forall|i: int|
            0 <= i < matching_hits(site, hits).len() ==> occurs_in(
                site,
                (#[trigger] matching_hits(site, hits)[i]).url,
            ),
{
    let about = |h: HitModel| occurs_in(site, h.url);
    assert forall|i: int| 0 <= i < matching_hits(site, hits).len() implies occurs_in(
        site,
        (#[trigger] matching_hits(site, hits)[i]).url,
    ) by {
        hits.lemma_filter_pred(about, i);
    }
}

/// The fields of one story block of the scraped page, as they stand in it.
#[derive(Debug)]
pub struct Story {
    pub score: String,
    pub url: String,
    pub title: String,
    pub date: String,
    pub path: String,
    pub comments: String,
}

/// The fields of a story block as plain text.
pub struct StoryModel {
    pub score: Seq<char>,
    pub url: Seq<char>,
    pub title: Seq<char>,
    pub date: Seq<char>,
    pub path: Seq<char>,
    pub comments: Seq<char>,
}

impl View for Story {
    type V = StoryModel;

    open spec fn view(&self) -> StoryModel {
        StoryModel {
            score: self.score@,
            url: self.url@,
            title: self.title@,
            date: self.date@,
            path: self.path@,
            comments: self.comments@,
        }
    }
}

/// The models of a list of stories, in the same order.
pub open spec fn story_models(stories: Seq<Story>) -> Seq<StoryModel> {
    stories.map_values(|s: Story| s@)
}

/// The pattern of one story block of the scraped page. Its six groups are,
/// in order: score, address, title, date, path of the discussion, number of
/// comments.
pub const STORY_PATTERN: &'static str = r#"(?smx)^<div\ class="story_liner\ h-entry">$
    .*?
    <div\ class="score">(.*?)</div>
    .*?
    <a\ class="u-url"\ href="(.*?)"\ .*?>(.*?)</a>
    .*?
    <span\ title="(.*?)">
    .*?
    <a\ role="heading"\ aria-level="2"\ href="(.*?)">
    .*?
    (\d+)\ comments
    .*?
    ^</div>$"#;

/// The story that the capture groups of one match stand for: the six groups
/// behind the whole match, if the match has exactly these and each took part.
pub open spec fn story_of(groups: Seq<Option<Seq<char>>>) -> Option<StoryModel> {
    if groups.len() == 7 && groups[1] is Some && groups[2] is Some && groups[3] is Some
        && groups[4] is Some && groups[5] is Some && groups[6] is Some {
        Some(
            StoryModel {
                score: groups[1]->0,
                url: groups[2]->0,
                title: groups[3]->0,
                date: groups[4]->0,
                path: groups[5]->0,
                comments: groups[6]->0,
            },
        )
    } else {
        None
    }
}

/// The stories of a list of matches, in order; a match of another shape
/// stands for no story.
pub open spec fn stories_of(found: Seq<Seq<Option<Seq<char>>>>) -> Seq<StoryModel> {
    found.filter_map(|groups: Seq<Option<Seq<char>>>| story_of(groups))
}

/// The number that a field of a story writes, and zero if it writes none.
pub open spec fn count_of(field: Seq<char>) -> nat {
    match parsed_usize(field) {
        Some(n) => n as nat,
        None => 0,
    }
}

/// The link that a scraped story stands for, if it stands for one: its
/// address must contain `site`, and it must have comments.
pub open spec fn story_link(site: Seq<char>, story: StoryModel) -> Option<LinkModel> {
    if occurs_in(site, story.url) && count_of(story.comments) != 0 {
        Some(
            LinkModel {
                url: story.url,
                discussion_url: "https://lobste.rs"@ + story.path,
                description: story.title,
                upvotes: count_of(story.score),
                comments: count_of(story.comments),
                date: story.date,
            },
        )
    } else {
        None
    }
}

/// The links of those stories that are about `site` and have comments, in
/// the order of the stories.
pub open spec fn scraped_links(site: Seq<char>, stories: Seq<StoryModel>) -> Seq<LinkModel> {
    stories.filter_map(|s: StoryModel| story_link(site, s))
}

fn group_text(groups: &Vec<Option<String>>, i: usize) -> (text: Option<String>)
    requires
        i < groups.len(),
    ensures
        text.deep_view() == groups.deep_view()[i as int],
{
    match &groups[i] {
        Some(t) => Some(t.clone()),
        None => None,
    }
}

fn story_from(groups: &Vec<Option<String>>) -> (story: Option<Story>)
    ensures
        match story {
            Some(s) => story_of(groups.deep_view()) == Some(s@),
            None => story_of(groups.deep_view()) is None,
        },
{
    if groups.len() != 7 {
        return None;
    }
    let score = group_text(groups, 1);
    let url = group_text(groups, 2);
    let title = group_text(groups, 3);
    let date = group_text(groups, 4);
    let path = group_text(groups, 5);
    let comments = group_text(groups, 6);
    match (score, url, title, date, path, comments) {
        (Some(score), Some(url), Some(title), Some(date), Some(path), Some(comments)) => Some(
            Story { score, url, title, date, path, comments },
        ),
        _ => None,
    }
}

/// The stories that a list of matches of `STORY_PATTERN` stands for.
pub fn stories_from(found: &Vec<Vec<Option<String>>>) -> (stories: Vec<Story>)
    ensures
        story_models(stories@) == stories_of(found.deep_view()),
{
    let ghost shape = |groups: Seq<Option<Seq<char>>>| story_of(groups);
    let ghost all = found.deep_view();
    let mut stories: Vec<Story> = Vec::new();
    let mut i: usize = 0;
    while i < found.len()
        invariant
            0 <= i <= found.len(),
            all == found.deep_view(),
            all.len() == found.len(),
            shape == |groups: Seq<Option<Seq<char>>>| story_of(groups),
            story_models(stories@) == all.take(i as int).filter_map(shape),
        decreases found.len() - i,
    {
        let story = story_from(&found[i]);
        proof {
            all.lemma_filter_map_take_succ(shape, i as int);
        }
        match story {
            Some(s) => stories.push(s),
            None => {},
        }
        i = i + 1;
    }
    assert(all.take(i as int) =~= all);
    stories
}

fn count(field: &str) -> (n: usize)
    ensures
        n == count_of(field@),
{
    match parse_usize(field) {
        Some(n) => n,
        None => 0,
    }
}

/// The stories of a scraped page that are about `site`, as links: a story
/// counts only if its address contains `site` and it has comments.
pub fn lobsters_candidates(site: &str, stories: &Vec<Story>) -> (links: Vec<RelatedLink>)
    ensures
        link_models(links@) == scraped_links(site@, story_models(stories@)),
{
    let ghost pick = |s: StoryModel| story_link(site@, s);
    let ghost all = story_models(stories@);
    let mut links: Vec<RelatedLink> = Vec::new();
    let mut i: usize = 0;
    while i < stories.len()
        invariant
            0 <= i <= stories.len(),
            all == story_models(stories@),
            pick == |s: StoryModel| story_link(site@, s),
            link_models(links@) == all.take(i as int).filter_map(pick),
        decreases stories.len() - i,
    {
        let story: &Story = &stories[i];
        proof {
            all.lemma_filter_map_take_succ(pick, i as int);
        }
        if contains(story.url.as_str(), site) {
            let comments: usize = count(story.comments.as_str());
            if comments != 0 {
                let mut discussion_url: String = String::from_str("https://lobste.rs");
                discussion_url.append(story.path.as_str());
                let link = RelatedLink {
                    url: story.url.clone(),
                    discussion_url,
                    description: story.title.clone(),
                    upvotes: count(story.score.as_str()),
                    comments,
                    date: story.date.clone(),
                };
                links.push(link);
            }
        }
        i = i + 1;
    }
    assert(all.take(i as int) =~= all);
    links
}

/// Every link that `scraped_links` gives has comments, and an address that
/// contains the site: a story without comments is never among them, whatever
/// else it says.
pub proof fn lemma_scraped_links_have_comments(site: Seq<char>, stories: Seq<StoryModel>)
    ensures
        forall|i: int|
            0 <= i < scraped_links(site, stories).len() ==> {
                &&& (#[trigger] scraped_links(site, stories)[i]).comments > 0
                &&& occurs_in(site, scraped_links(site, stories)[i].url)
            },
{
    let pick = |s: StoryModel| story_link(site, s);
    assert forall|i: int| 0 <= i < scraped_links(site, stories).len() implies {
        &&& (#[trigger] scraped_links(site, stories)[i]).comments > 0
        &&& occurs_in(site, scraped_links(site, stories)[i].url)
    } by {
        let link = scraped_links(site, stories)[i];
        stories.lemma_filter_map_contains(pick, link);
    }
}

/// The seconds to wait after each probe of a link.
pub const THROTTLE_SECS: u64 = 2;

/// Why a search gave no links.
#[derive(Debug, Clone, Copy, PartialEq, Eq, Structural)]
pub enum SearchError {
    /// The site's address is not a URL.
    InvalidUrl,
    /// The site's address names no host.
    NoHost,
    /// The search could not be sent, or its answer could not be read.
    Transport,
    /// The platform answered the search with this status, not with 200.
    Status(u16),
    /// The body of the answer was not of the expected form.
    Malformed,
    /// The pattern of a story block was rejected.
    Pattern,
    /// The caller reported something that the search was not waiting for.
    OutOfTurn,
}

/// What the caller reports to a search.
#[derive(Debug)]
pub enum SearchEvent {
    /// The search is to begin.
    Start,
    /// The request could not be made, or the body could not be read.
    Failed,
    /// The platform answered the search with this status.
    Status(u16),
    /// The body of the answer, read as hits; `None` if it was not of that form.
    Hits(Option<HnRelatedLinkSearch>),
    /// The body of the answer, as text.
    Page(String),
    /// How the request for the link to probe ended.
    Probed(Probe),
    /// The pause is over.
    Elapsed,
}

/// Where a search stands.
#[derive(Debug)]
pub enum SearchState {
    /// Nothing has been sent.
    Idle,
    /// The search was sent, its status is awaited.
    Searching,
    /// The search was answered, its body is awaited.
    Reading,
    /// The probe of `current` is awaited; `rest` is still to be probed, `live` was found reachable.
    Probing { current: RelatedLink, rest: Vec<RelatedLink>, live: Vec<RelatedLink> },
    /// Pausing after a probe.
    Pausing { rest: Vec<RelatedLink>, live: Vec<RelatedLink> },
    /// The search has ended.
    Done,
}

/// What the caller is to do next.
#[derive(Debug)]
pub enum SearchAction {
    /// GET `url` and report the status.
    Search { url: String },
    /// Read the answer's body as hits and report them.
    ReadHits,
    /// Read the answer's body as text and report it.
    ReadPage,
    /// GET `url` and report how that ended.
    Probe { url: String },
    /// Wait this long and report that the time has elapsed.
    Pause { seconds: u64 },
    /// The search is over, with this result.
    Finish(Result<Vec<RelatedLink>, SearchError>),
}

/// `SearchEvent` as plain values.
pub enum SearchEventModel {
    Start,
    Failed,
    Status(u16),
    Hits(Option<Seq<HitModel>>),
    Page(Seq<char>),
    Probed(Probe),
    Elapsed,
}

/// `SearchState` as plain values.
pub enum SearchStateModel {
    Idle,
    Searching,
    Reading,
    Probing { current: LinkModel, rest: Seq<LinkModel>, live: Seq<LinkModel> },
    Pausing { rest: Seq<LinkModel>, live: Seq<LinkModel> },
    Done,
}

/// `SearchAction` as plain values.
pub enum SearchActionModel {
    Search { url: Seq<char> },
    ReadHits,
    ReadPage,
    Probe { url: Seq<char> },
    Pause { seconds: u64 },
    Finish(Result<Seq<LinkModel>, SearchError>),
}

impl View for SearchEvent {
    type V = SearchEventModel;

    open spec fn view(&self) -> SearchEventModel {
        match *self {
            SearchEvent::Start => SearchEventModel::Start,
            SearchEvent::Failed => SearchEventModel::Failed,
            SearchEvent::Status(code) => SearchEventModel::Status(code),
            SearchEvent::Hits(None) => SearchEventModel::Hits(None),
            SearchEvent::Hits(Some(search)) => SearchEventModel::Hits(Some(search@)),
            SearchEvent::Page(text) => SearchEventModel::Page(text@),
            SearchEvent::Probed(probe) => SearchEventModel::Probed(probe),
            SearchEvent::Elapsed => SearchEventModel::Elapsed,
        }
    }
}

impl View for SearchState {
    type V = SearchStateModel;

    open spec fn view(&self) -> SearchStateModel {
        match *self {
            SearchState::Idle => SearchStateModel::Idle,
            SearchState::Searching => SearchStateModel::Searching,
            SearchState::Reading => SearchStateModel::Reading,
            SearchState::Probing { current, rest, live } => SearchStateModel::Probing {
                current: current@,
                rest: link_models(rest@),
                live: link_models(live@),
            },
            SearchState::Pausing { rest, live } => SearchStateModel::Pausing {
                rest: link_models(rest@),
                live: link_models(live@),
            },
            SearchState::Done => SearchStateModel::Done,
        }
    }
}

impl View for SearchAction {
    type V = SearchActionModel;

    open spec fn view(&self) -> SearchActionModel {
        match *self {
            SearchAction::Search { url } => SearchActionModel::Search { url: url@ },
            SearchAction::ReadHits => SearchActionModel::ReadHits,
            SearchAction::ReadPage => SearchActionModel::ReadPage,
            SearchAction::Probe { url } => SearchActionModel::Probe { url: url@ },
            SearchAction::Pause { seconds } => SearchActionModel::Pause { seconds },
            SearchAction::Finish(Ok(links)) => SearchActionModel::Finish(Ok(link_models(links@))),
            SearchAction::Finish(Err(e)) => SearchActionModel::Finish(Err(e)),
        }
    }
}

/// The end of a search, with its result.
pub open spec fn search_ends(result: Result<Seq<LinkModel>, SearchError>) -> (
    SearchStateModel,
    SearchActionModel,
) {
    (SearchStateModel::Done, SearchActionModel::Finish(result))
}

/// What a search does with the links it still has to probe: it probes the
/// first of them, and when none is left it ends with the reachable ones,
/// ranked.
pub open spec fn next_check(rest: Seq<LinkModel>, live: Seq<LinkModel>) -> (
    SearchStateModel,
    SearchActionModel,
) {
    if rest.len() == 0 {
        search_ends(Ok(ranked(live)))
    } else {
        (
            SearchStateModel::Probing { current: rest[0], rest: rest.drop_first(), live },
            SearchActionModel::Probe { url: rest[0].url },
        )
    }
}

/// The part of a search that both platforms share: each candidate is probed,
/// kept if it is reachable, and followed by a pause.
pub open spec fn check_step(state: SearchStateModel, event: SearchEventModel) -> (
    SearchStateModel,
    SearchActionModel,
) {
    match (state, event) {
        (SearchStateModel::Probing { current, rest, live }, SearchEventModel::Probed(probe)) => (
            SearchStateModel::Pausing {
                rest,
                live: if is_live(probe) {
                    live.push(current)
                } else {
                    live
                },
            },
            SearchActionModel::Pause { seconds: THROTTLE_SECS },
        ),
        (SearchStateModel::Pausing { rest, live }, SearchEventModel::Elapsed) => next_check(
            rest,
            live,
        ),
        _ => search_ends(Err(SearchError::OutOfTurn)),
    }
}

/// The address of the API search for `site`.
pub open spec fn hn_search_url(site: Seq<char>) -> Seq<char> {
    "https://hn.algolia.com/api/v1/search?query="@ + site
        + "&restrictSearchableAttributes=url"@
}

/// The address of the page that lists the stories of the host `host`.
pub open spec fn lobsters_search_url(host: Seq<char>) -> Seq<char> {
    "https://lobste.rs/search?q=domain:"@ + host + "&what=stories&order=score"@
}

/// What the search must do when the platform has answered it with `code`.
pub open spec fn after_status(code: u16, read: SearchActionModel) -> (
    SearchStateModel,
    SearchActionModel,
) {
    if code == 200 {
        (SearchStateModel::Reading, read)
    } else {
        search_ends(Err(SearchError::Status(code)))
    }
}

/// The API search for discussions of `site`: the state after `event` arrives
/// in `state`, and what is to be done then.
///
/// The search must be answered with status 200 and a body of hits. The hits
/// whose address contains `site` are the candidates; each is probed and
/// followed by a pause, and the reachable ones are the result, ranked.
pub open spec fn hn_step(site: Seq<char>, state: SearchStateModel, event: SearchEventModel) -> (
    SearchStateModel,
    SearchActionModel,
) {
    match (state, event) {
        (SearchStateModel::Idle, SearchEventModel::Start) => (
            SearchStateModel::Searching,
            SearchActionModel::Search { url: hn_search_url(site) },
        ),
        (SearchStateModel::Searching, SearchEventModel::Status(code)) => after_status(
            code,
            SearchActionModel::ReadHits,
        ),
        (SearchStateModel::Searching, SearchEventModel::Failed) => search_ends(
            Err(SearchError::Transport),
        ),
        (SearchStateModel::Reading, SearchEventModel::Hits(Some(hits))) => next_check(
            matching_hits(site, hits),
            Seq::empty(),
        ),
        (SearchStateModel::Reading, SearchEventModel::Hits(None)) => search_ends(
            Err(SearchError::Malformed),
        ),
        (SearchStateModel::Reading, SearchEventModel::Failed) => search_ends(
            Err(SearchError::Transport),
        ),
        _ => check_step(state, event),
    }
}

/// The host that the `url` crate finds in `site`: `None` where it does not
/// accept `site` as a URL, `Some(None)` where the URL has no host.
pub uninterp spec fn url_host(site: Seq<char>) -> Option<Option<Seq<char>>>;

/// The host of `site`, if `site` is a URL and has one.
pub open spec fn host_of(site: Seq<char>) -> Result<Seq<char>, SearchError> {
    match url_host(site) {
        None => Err(SearchError::InvalidUrl),
        Some(None) => Err(SearchError::NoHost),
        Some(Some(host)) => Ok(host),
    }
}

/// The stories of a scraped page, in the order in which they stand in it.
pub open spec fn stories_in(page: Seq<char>) -> Result<Seq<StoryModel>, SearchError> {
    match regex_captures(STORY_PATTERN@, page) {
        None => Err(SearchError::Pattern),
        Some(found) => Ok(stories_of(found)),
    }
}

/// How the scrape search begins, given the host of the site: with the search
/// for that host, if there is one.
pub open spec fn search_of_host(host: Result<Seq<char>, SearchError>) -> (
    SearchStateModel,
    SearchActionModel,
) {
    match host {
        Err(e) => search_ends(Err(e)),
        Ok(host) => (
            SearchStateModel::Searching,
            SearchActionModel::Search { url: lobsters_search_url(host) },
        ),
    }
}

/// What the scrape search does with the stories of the page it was answered
/// with: those that are about `site` and have comments are the candidates.
pub open spec fn checks_of_stories(
    site: Seq<char>,
    stories: Result<Seq<StoryModel>, SearchError>,
) -> (SearchStateModel, SearchActionModel) {
    match stories {
        Err(e) => search_ends(Err(e)),
        Ok(stories) => next_check(scraped_links(site, stories), Seq::empty()),
    }
}

/// The scrape search for discussions of `site`: the state after `event`
/// arrives in `state`, and what is to be done then.
///
/// The site must be a URL with a host. The search for that host must be
/// answered with status 200 and a page. The stories of the page whose
/// address contains `site` and that have comments are the candidates; each
/// is probed and followed by a pause, and the reachable ones are the result,
/// ranked.
pub open spec fn lobsters_step(
    site: Seq<char>,
    state: SearchStateModel,
    event: SearchEventModel,
) -> (SearchStateModel, SearchActionModel) {
    match (state, event) {
        (SearchStateModel::Idle, SearchEventModel::Start) => search_of_host(host_of(site)),
        (SearchStateModel::Searching, SearchEventModel::Status(code)) => after_status(
            code,
            SearchActionModel::ReadPage,
        ),
        (SearchStateModel::Searching, SearchEventModel::Failed) => search_ends(
            Err(SearchError::Transport),
        ),
        (SearchStateModel::Reading, SearchEventModel::Page(page)) => checks_of_stories(
            site,
            stories_in(page),
        ),
        (SearchStateModel::Reading, SearchEventModel::Failed) => search_ends(
            Err(SearchError::Transport),
        ),
        _ => check_step(state, event),
    }
}

/// The error with which the `url` crate rejects a text.
#[verifier::external_type_specification]
#[verifier::external_body]
pub struct ExUrlParseError(url::ParseError);

/// Trusted: `url::Url::parse`, then `Url::host_str`. Claims only that the
/// answer is the one named `url_host`: an error where the crate does not
/// accept the text as a URL, and otherwise the host it finds, if any.
#[verifier::external_body]
fn parse_host(site: &str) -> (r: Result<Option<String>, url::ParseError>)
    ensures
        match r {
            Ok(Some(host)) => url_host(site@) == Some(Some(host@)),
            Ok(None) => url_host(site@) == Some(None::<Seq<char>>),
            Err(_) => url_host(site@) is None,
        },
{
    let url = url::Url::parse(site)?;
    Ok(url.host_str().map(|host| host.to_string()))
}

fn end(result: Result<Vec<RelatedLink>, SearchError>) -> (next: (SearchState, SearchAction))
    ensures
        (next.0@, next.1@) == search_ends(
            match result {
                Ok(links) => Ok(link_models(links@)),
                Err(e) => Err(e),
            },
        ),
{
    (SearchState::Done, SearchAction::Finish(result))
}

fn check_next(rest: Vec<RelatedLink>, live: Vec<RelatedLink>) -> (next: (SearchState, SearchAction))
    ensures
        (next.0@, next.1@) == next_check(link_models(rest@), link_models(live@)),
{
    let mut rest = rest;
    if rest.len() == 0 {
        end(Ok(rank(live)))
    } else {
        proof {
            lemma_link_models_drop_first(rest@);
        }
        let current: RelatedLink = rest.remove(0);
        let url: String = current.url.clone();
        (SearchState::Probing { current, rest, live }, SearchAction::Probe { url })
    }
}

fn check(state: SearchState, event: SearchEvent) -> (next: (SearchState, SearchAction))
    ensures
        (next.0@, next.1@) == check_step(state@, event@),
{
    match (state, event) {
        (SearchState::Probing { current, rest, live }, SearchEvent::Probed(probe)) => {
            let mut live = live;
            if check_link(probe) {
                proof {
                    lemma_link_models_push(live@, current);
                }
                live.push(current);
            }
            (SearchState::Pausing { rest, live }, SearchAction::Pause { seconds: THROTTLE_SECS })
        },
        (SearchState::Pausing { rest, live }, SearchEvent::Elapsed) => check_next(rest, live),
        _ => end(Err(SearchError::OutOfTurn)),
    }
}

fn status_answer(code: u16, read: SearchAction) -> (next: (SearchState, SearchAction))
    ensures
        (next.0@, next.1@) == after_status(code, read@),
{
    if code == 200 {
        (SearchState::Reading, read)
    } else {
        end(Err(SearchError::Status(code)))
    }
}

/// One step of the API search for discussions of `site`: takes the state of
/// the search and what has just happened, and gives the next state and what
/// to do next. A search begins in `SearchState::Idle` with
/// `SearchEvent::Start` and is over when the action is `SearchAction::Finish`.
pub fn hackernews(site: &str, state: SearchState, event: SearchEvent) -> (next: (
    SearchState,
    SearchAction,
))
    ensures
        (next.0@, next.1@) == hn_step(site@, state@, event@),
{
    match (state, event) {
        (SearchState::Idle, SearchEvent::Start) => {
            let mut url: String = String::from_str("https://hn.algolia.com/api/v1/search?query=");
            url.append(site);
            url.append("&restrictSearchableAttributes=url");
            (SearchState::Searching, SearchAction::Search { url })
        },
        (SearchState::Searching, SearchEvent::Status(code)) => status_answer(
            code,
            SearchAction::ReadHits,
        ),
        (SearchState::Searching, SearchEvent::Failed) => end(Err(SearchError::Transport)),
        (SearchState::Reading, SearchEvent::Hits(Some(search))) => {
            let candidates: Vec<RelatedLink> = hn_candidates(site, &search);
            let live: Vec<RelatedLink> = Vec::new();
            assert(link_models(live@) =~= Seq::empty());
            check_next(candidates, live)
        },
        (SearchState::Reading, SearchEvent::Hits(None)) => end(Err(SearchError::Malformed)),
        (SearchState::Reading, SearchEvent::Failed) => end(Err(SearchError::Transport)),
        (state, event) => check(state, event),
    }
}

/// The host of `site`, if `site` is a URL and has one.
pub fn find_host(site: &str) -> (r: Result<String, SearchError>)
    ensures
        match r {
            Ok(host) => host_of(site@) == Ok::<Seq<char>, SearchError>(host@),
            Err(e) => host_of(site@) == Err::<Seq<char>, SearchError>(e),
        },
{
    match parse_host(site) {
        Err(_) => Err(SearchError::InvalidUrl),
        Ok(None) => Err(SearchError::NoHost),
        Ok(Some(host)) => Ok(host),
    }
}

/// The stories of a scraped page, in the order in which they stand in it.
pub fn extract(html: &str) -> (r: Result<Vec<Story>, SearchError>)
    ensures
        match r {
            Ok(stories) => stories_in(html@) == Ok::<Seq<StoryModel>, SearchError>(
                story_models(stories@),
            ),
            Err(e) => stories_in(html@) == Err::<Seq<StoryModel>, SearchError>(e),
        },
{
    match captures(STORY_PATTERN, html) {
        Ok(found) => Ok(stories_from(&found)),
        Err(_) => Err(SearchError::Pattern),
    }
}

/// The result of looking for a host, as plain values.
pub open spec fn host_model(host: Result<String, SearchError>) -> Result<Seq<char>, SearchError> {
    match host {
        Ok(host) => Ok(host@),
        Err(e) => Err(e),
    }
}

/// The result of reading a page, as plain values.
pub open spec fn stories_model(stories: Result<Vec<Story>, SearchError>) -> Result<
    Seq<StoryModel>,
    SearchError,
> {
    match stories {
        Ok(stories) => Ok(story_models(stories@)),
        Err(e) => Err(e),
    }
}

/// Begins the scrape search, given the host of the site: asks for the search
/// for that host, or ends the search with the error.
pub fn search_host(host: Result<String, SearchError>) -> (next: (SearchState, SearchAction))
    ensures
        (next.0@, next.1@) == search_of_host(host_model(host)),
{
    match host {
        Err(e) => end(Err(e)),
        Ok(host) => {
            let mut url: String = String::from_str("https://lobste.rs/search?q=domain:");
            url.append(host.as_str());
            url.append("&what=stories&order=score");
            (SearchState::Searching, SearchAction::Search { url })
        },
    }
}

/// Goes on with the scrape search for `site`, given the stories of the page:
/// asks for the probe of the first candidate, or ends the search.
pub fn check_stories(site: &str, stories: Result<Vec<Story>, SearchError>) -> (next: (
    SearchState,
    SearchAction,
))
    ensures
        (next.0@, next.1@) == checks_of_stories(site@, stories_model(stories)),
{
    match stories {
        Err(e) => end(Err(e)),
        Ok(stories) => {
            let candidates: Vec<RelatedLink> = lobsters_candidates(site, &stories);
            let live: Vec<RelatedLink> = Vec::new();
            assert(link_models(live@) =~= Seq::empty());
            check_next(candidates, live)
        },
    }
}

/// One step of the scrape search for discussions of `site`: takes the state
/// of the search and what has just happened, and gives the next state and
/// what to do next. A search begins in `SearchState::Idle` with
/// `SearchEvent::Start` and is over when the action is `SearchAction::Finish`.
pub fn lobsters(site: &str, state: SearchState, event: SearchEvent) -> (next: (
    SearchState,
    SearchAction,
))
    ensures
        (next.0@, next.1@) == lobsters_step(site@, state@, event@),
{
    match (state, event) {
        (SearchState::Idle, SearchEvent::Start) => search_host(find_host(site)),
        (SearchState::Searching, SearchEvent::Status(code)) => status_answer(
            code,
            SearchAction::ReadPage,
        ),
        (SearchState::Searching, SearchEvent::Failed) => end(Err(SearchError::Transport)),
        (SearchState::Reading, SearchEvent::Page(page)) => check_stories(
            site,
            extract(page.as_str()),
        ),
        (SearchState::Reading, SearchEvent::Failed) => end(Err(SearchError::Transport)),
        (state, event) => check(state, event),
    }
}

/// The candidates that are found reachable, in order, when the probe of the
/// candidate at each place ends as `probes` says at that place.
pub open spec fn surviving(candidates: Seq<LinkModel>, probes: Seq<Probe>) -> Seq<LinkModel>
    decreases candidates.len(),
{
    if candidates.len() == 0 || probes.len() == 0 {
        Seq::empty()
    } else if is_live(probes[0]) {
        seq![candidates[0]] + surviving(candidates.drop_first(), probes.drop_first())
    } else {
        surviving(candidates.drop_first(), probes.drop_first())
    }
}

/// Where a search stands, and what it asks for, after each probe in turn has
/// ended as `probes` says and each pause after it has elapsed.
pub open spec fn checks_run(start: (SearchStateModel, SearchActionModel), probes: Seq<Probe>) -> (
    SearchStateModel,
    SearchActionModel,
)
    decreases probes.len(),
{
    if probes.len() == 0 {
        start
    } else {
        let paused = check_step(start.0, SearchEventModel::Probed(probes[0]));
        let resumed = check_step(paused.0, SearchEventModel::Elapsed);
        checks_run(resumed, probes.drop_first())
    }
}

/// Once a search has its candidates, both searches go on in the same way.
pub proof fn lemma_searches_share_checks(
    site: Seq<char>,
    state: SearchStateModel,
    event: SearchEventModel,
)
    requires
        state is Probing || state is Pausing,
    ensures
        hn_step(site, state, event) == check_step(state, event),
        lobsters_step(site, state, event) == check_step(state, event),
{
}

/// What a search gives: when every candidate has been probed, the search
/// ends with the candidates that were found reachable, and with no others,
/// ranked by score.
pub proof fn lemma_checks_outcome(
    candidates: Seq<LinkModel>,
    live: Seq<LinkModel>,
    probes: Seq<Probe>,
)
    requires
        probes.len() == candidates.len(),
    ensures
        checks_run(next_check(candidates, live), probes) == search_ends(
            Ok(ranked(live + surviving(candidates, probes))),
        ),
    decreases candidates.len(),
{
    if candidates.len() > 0 {
        let kept = if is_live(probes[0]) {
            live.push(candidates[0])
        } else {
            live
        };
        lemma_checks_outcome(candidates.drop_first(), kept, probes.drop_first());
        assert(kept + surviving(candidates.drop_first(), probes.drop_first()) =~= live
            + surviving(candidates, probes));
    }
}

/// Every candidate that survives its probe is one of the candidates.
pub proof fn lemma_surviving_members(candidates: Seq<LinkModel>, probes: Seq<Probe>)
    ensures
        forall|i: int|
            0 <= i < surviving(candidates, probes).len() ==> candidates.contains(
                #[trigger] surviving(candidates, probes)[i],
            ),
    decreases candidates.len(),
{
    if candidates.len() > 0 && probes.len() > 0 {
        let later = surviving(candidates.drop_first(), probes.drop_first());
        lemma_surviving_members(candidates.drop_first(), probes.drop_first());
        assert forall|i: int| 0 <= i < surviving(candidates, probes).len() implies candidates.contains(
            #[trigger] surviving(candidates, probes)[i],
        ) by {
            let link = surviving(candidates, probes)[i];
            if !(is_live(probes[0]) && i == 0) {
                let k = choose|k: int|
                    0 <= k < candidates.drop_first().len() && candidates.drop_first()[k] == link;
                assert(candidates[k + 1] == link);
            }
        }
    }
}

/// The result of a search holds nothing but candidates, however the probes
/// end.
pub proof fn lemma_result_from_candidates(candidates: Seq<LinkModel>, probes: Seq<Probe>)
    ensures
        forall|i: int|
            0 <= i < ranked(surviving(candidates, probes)).len() ==> candidates.contains(
                #[trigger] ranked(surviving(candidates, probes))[i],
            ),
{
    let kept = surviving(candidates, probes);
    lemma_ranked_members(kept);
    lemma_surviving_members(candidates, probes);
    assert forall|i: int| 0 <= i < ranked(kept).len() implies candidates.contains(
        #[trigger] ranked(kept)[i],
    ) by {
        let k = choose|k: int| 0 <= k < kept.len() && kept[k] == ranked(kept)[i];
        assert(candidates.contains(kept[k]));
    }
}

/// The API search never gives a link whose address does not contain the
/// site, whatever the hits score and however the probes end.
pub proof fn lemma_api_results_about_site(
    site: Seq<char>,
    hits: Seq<HitModel>,
    probes: Seq<Probe>,
)
    ensures
        forall|i: int|
            0 <= i < ranked(surviving(matching_hits(site, hits), probes)).len() ==> occurs_in(
                site,
                (#[trigger] ranked(surviving(matching_hits(site, hits), probes))[i]).url,
            ),
{
    let candidates = matching_hits(site, hits);
    let result = ranked(surviving(candidates, probes));
    lemma_result_from_candidates(candidates, probes);
    lemma_matching_hits_contain_site(site, hits);
    assert forall|i: int| 0 <= i < result.len() implies occurs_in(
        site,
        (#[trigger] result[i]).url,
    ) by {
        let k = choose|k: int| 0 <= k < candidates.len() && candidates[k] == result[i];
        assert(occurs_in(site, candidates[k].url));
    }
}

/// The scrape search never gives a link without comments, nor one whose
/// address does not contain the site, whatever else the stories say and
/// however the probes end.
pub proof fn lemma_scraped_results_have_comments(
    site: Seq<char>,
    stories: Seq<StoryModel>,
    probes: Seq<Probe>,
)
    ensures
        forall|i: int|
            0 <= i < ranked(surviving(scraped_links(site, stories), probes)).len() ==> {
                &&& (#[trigger] ranked(surviving(scraped_links(site, stories), probes))[i]).comments
                    > 0
                &&& occurs_in(site, ranked(surviving(scraped_links(site, stories), probes))[i].url)
            },
{
    let candidates = scraped_links(site, stories);
    let result = ranked(surviving(candidates, probes));
    lemma_result_from_candidates(candidates, probes);
    lemma_scraped_links_have_comments(site, stories);
    assert forall|i: int| 0 <= i < result.len() implies {
        &&& (#[trigger] result[i]).comments > 0
        &&& occurs_in(site, result[i].url)
    } by {
        let k = choose|k: int| 0 <= k < candidates.len() && candidates[k] == result[i];
        assert(candidates[k].comments > 0);
    }
}

/// Probes are throttled: the answer to every probe is a pause of the fixed
/// length, and a probe is asked for only when the candidates have just been
/// read or a pause has elapsed. No two probes follow each other directly.
pub proof fn lemma_probes_throttled(
    site: Seq<char>,
    state: SearchStateModel,
    event: SearchEventModel,
)
    ensures
        state is Probing && event is Probed ==> check_step(state, event).1 == (
        SearchActionModel::Pause { seconds: 2 }),
        check_step(state, event).1 is Probe ==> state is Pausing && event is Elapsed,
        hn_step(site, state, event).1 is Probe ==> (state is Pausing && event is Elapsed) || (
        state is Reading && event is Hits),
        lobsters_step(site, state, event).1 is Probe ==> (state is Pausing && event is Elapsed)
            || (state is Reading && event is Page),
{
}

/// An upper bound on the events that a search in `state` can still take
/// before it is over, once it has its candidates.
pub open spec fn checks_left(state: SearchStateModel) -> nat {
    match state {
        SearchStateModel::Probing { rest, .. } => 2 * rest.len() + 2,
        SearchStateModel::Pausing { rest, .. } => 2 * rest.len() + 1,
        _ => 0,
    }
}

/// Every event brings a search that has its candidates nearer to its end:
/// with `n` candidates it is over after `2 n` events. A search is over
/// exactly when it says so.
pub proof fn lemma_checks_progress(state: SearchStateModel, event: SearchEventModel)
    ensures
        state is Probing || state is Pausing ==> checks_left(check_step(state, event).0)
            < checks_left(state),
        check_step(state, event).0 is Done <==> check_step(state, event).1 is Finish,
{
}

/// The API search as a whole. It asks for the search for the site; answered
/// with status 200 and with hits, it probes the hits whose address contains
/// the site, one after the other, and ends with those that are reachable,
/// ranked by score: no other hit is probed, and none is in the result.
pub proof fn lemma_api_search(site: Seq<char>, hits: Seq<HitModel>, probes: Seq<Probe>)
    requires
        probes.len() == matching_hits(site, hits).len(),
    ensures
        ({
            let begun = hn_step(site, SearchStateModel::Idle, SearchEventModel::Start);
            let answered = hn_step(site, begun.0, SearchEventModel::Status(200));
            let read = hn_step(site, answered.0, SearchEventModel::Hits(Some(hits)));
            &&& begun.1 == (SearchActionModel::Search { url: hn_search_url(site) })
            &&& answered.1 == SearchActionModel::ReadHits
            &&& read == next_check(matching_hits(site, hits), Seq::empty())
            &&& checks_run(read, probes) == search_ends(
                Ok(ranked(surviving(matching_hits(site, hits), probes))),
            )
        }),
{
    let candidates = matching_hits(site, hits);
    lemma_checks_outcome(candidates, Seq::empty(), probes);
    assert(Seq::<LinkModel>::empty() + surviving(candidates, probes) =~= surviving(
        candidates,
        probes,
    ));
}

/// The scrape search as a whole. For a site with the host `host` it asks
/// for the search for that host; answered with status 200 and with a page
/// that holds `stories`, it probes the stories whose address contains the
/// site and that have comments, one after the other, and ends with those
/// that are reachable, ranked by score: no other story is probed, and none
/// is in the result.
pub proof fn lemma_scrape_search(
    site: Seq<char>,
    host: Seq<char>,
    page: Seq<char>,
    stories: Seq<StoryModel>,
    probes: Seq<Probe>,
)
    requires
        probes.len() == scraped_links(site, stories).len(),
    ensures
        ({
            let begun = lobsters_step(site, SearchStateModel::Idle, SearchEventModel::Start);
            let answered = lobsters_step(site, begun.0, SearchEventModel::Status(200));
            let read = lobsters_step(site, answered.0, SearchEventModel::Page(page));
            host_of(site) == Ok::<Seq<char>, SearchError>(host) ==> {
                &&& begun.1 == (SearchActionModel::Search { url: lobsters_search_url(host) })
                &&& answered.1 == SearchActionModel::ReadPage
                &&& stories_in(page) == Ok::<Seq<StoryModel>, SearchError>(stories) ==> {
                    &&& read == next_check(scraped_links(site, stories), Seq::empty())
                    &&& checks_run(read, probes) == search_ends(
                        Ok(ranked(surviving(scraped_links(site, stories), probes))),
                    )
                }
            }
        }),
{
    let candidates = scraped_links(site, stories);
    lemma_checks_outcome(candidates, Seq::empty(), probes);
    assert(Seq::<LinkModel>::empty() + surviving(candidates, probes) =~= surviving(
        candidates,
        probes,
    ));
}

} // verus!
