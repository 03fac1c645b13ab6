//! A directory of small web sites: the rules by which a submitted site is
//! validated and enriched with links to discussions of it, and the small
//! rules of the pages that list the sites.

pub mod analyzer;
pub mod cloudflare;
pub mod config;
pub mod database;
pub mod error;
pub mod pattern;
pub mod ranking;
pub mod relatedlinks;
pub mod requests;
pub mod text;

use crate::text::{decimal, to_decimal};
use vstd::prelude::*;

verus! {

/// The orders in which the sites can be listed.
#[derive(Debug, Clone, Copy, PartialEq, Eq, Structural)]
pub enum SortOptions {
    New,
    Size,
    Votes,
}

/// The name of an order, as it stands in an address.
pub open spec fn sort_name(sortby: SortOptions) -> Seq<char> {
    match sortby {
        SortOptions::New => "New"@,
        SortOptions::Size => "Size"@,
        SortOptions::Votes => "Votes"@,
    }
}

impl SortOptions {
    /// The name of the order.
    pub fn name(&self) -> (name: &'static str)
        ensures
            name@ == sort_name(*self),
    {
        match self {
            SortOptions::New => "New",
            SortOptions::Size => "Size",
            SortOptions::Votes => "Votes",
        }
    }

    /// The name of the order, as a string of its own.
    pub fn to_string(&self) -> (name: String)
        ensures
            name@ == sort_name(*self),
    {
        String::from_str(self.name())
    }
}

/// The link to one page of the listing; the page that is shown has an empty
/// address.
#[derive(Debug)]
pub struct PageLink {
    pub index: usize,
    pub uri: String,
}

/// A `PageLink` as plain values.
pub struct PageLinkModel {
    pub index: nat,
    pub uri: Seq<char>,
}

impl View for PageLink {
    type V = PageLinkModel;

    open spec fn view(&self) -> PageLinkModel {
        PageLinkModel { index: self.index as nat, uri: self.uri@ }
    }
}

/// One line of the listing.
#[derive(Debug)]
pub struct Site {
    pub offset: usize,
    pub id: u32,
    pub url: String,
    pub size: String,
    pub related: u32,
}

/// A `Site` as plain values.
pub struct SiteModel {
    pub offset: nat,
    pub id: u32,
    pub url: Seq<char>,
    pub size: Seq<char>,
    pub related: u32,
}

impl View for Site {
    type V = SiteModel;

    open spec fn view(&self) -> SiteModel {
        SiteModel {
            offset: self.offset as nat,
            id: self.id,
            url: self.url@,
            size: self.size@,
            related: self.related,
        }
    }
}

/// How many pages a listing of `count` sites has with `paginate` sites on a
/// page; a listing that fits on one page is not paged at all.
pub open spec fn page_count(count: nat, paginate: nat) -> nat {
    if paginate > 0 && count > paginate {
        if count % paginate == 0 {
            count / paginate
        } else {
            count / paginate + 1
        }
    } else {
        0
    }
}

/// The address of page `page` of the listing.
pub open spec fn page_uri(paginate: nat, sortby: SortOptions, page: nat) -> Seq<char> {
    "/?paginate="@ + decimal(paginate) + "&sortby="@ + sort_name(sortby) + "&page="@ + decimal(
        page,
    )
}

/// The link to page `index` on a listing that shows page `page`.
pub open spec fn page_link(
    page: nat,
    paginate: nat,
    sortby: SortOptions,
    index: nat,
) -> PageLinkModel {
    PageLinkModel {
        index,
        uri: if index != page {
            page_uri(paginate, sortby, index)
        } else {
            Seq::empty()
        },
    }
}

fn make_page_uri(paginate: usize, sortby: SortOptions, page: usize) -> (uri: String)
    ensures
        uri@ == page_uri(paginate as nat, sortby, page as nat),
{
    let mut uri: String = String::from_str("/?paginate=");
    uri.append(to_decimal(paginate).as_str());
    uri.append("&sortby=");
    uri.append(sortby.name());
    uri.append("&page=");
    uri.append(to_decimal(page).as_str());
    uri
}

/// The links to the pages of a listing of `count` sites that shows page
/// `page` with `paginate` sites on a page: one link for each page, in order,
/// then the address of the page before and of the page after, each empty
/// where there is no such page.
pub fn get_page_links(page: usize, count: usize, paginate: usize, sortby: SortOptions) -> (r: (
    Vec<PageLink>,
    String,
    String,
))
    requires
        paginate > 0 || count == 0,
    ensures
        r.0@.len() == page_count(count as nat, paginate as nat),
        forall|i: int|
            0 <= i < r.0@.len() ==> (#[trigger] r.0@[i])@ == page_link(
                page as nat,
                paginate as nat,
                sortby,
                (i + 1) as nat,
            ),
        r.1@ == if count > paginate && page > 1 {
            page_uri(paginate as nat, sortby, (page - 1) as nat)
        } else {
            Seq::empty()
        },
        r.2@ == if page < page_count(count as nat, paginate as nat) {
            page_uri(paginate as nat, sortby, (page + 1) as nat)
        } else {
            Seq::empty()
        },
{
    if count > paginate {
        let pages: usize = if count % paginate == 0 {
            count / paginate
        } else {
            assert(count / paginate < count) by (nonlinear_arith)
                requires
                    paginate >= 2,
                    count > paginate,
            ;
            count / paginate + 1
        };
        let mut links: Vec<PageLink> = Vec::new();
        let mut done: usize = 0;
        while done < pages
            invariant
                0 <= done <= pages,
                links@.len() == done,
                forall|i: int|
                    0 <= i < done ==> (#[trigger] links@[i])@ == page_link(
                        page as nat,
                        paginate as nat,
                        sortby,
                        (i + 1) as nat,
                    ),
            decreases pages - done,
        {
            let index: usize = done + 1;
            let uri: String = if index != page {
                make_page_uri(paginate, sortby, index)
            } else {
                String::new()
            };
            links.push(PageLink { index, uri });
            done = done + 1;
        }
        let prev: String = if page > 1 {
            make_page_uri(paginate, sortby, page - 1)
        } else {
            String::new()
        };
        let next: String = if page < pages {
            make_page_uri(paginate, sortby, page + 1)
        } else {
            String::new()
        };
        (links, prev, next)
    } else {
        (Vec::new(), String::new(), String::new())
    }
}

/// What a request says of the address it was forwarded for.
#[derive(Debug)]
pub enum RealIp {
    /// The request has no such header.
    Absent,
    /// The header is no text; this is how it was rendered.
    Unreadable(String),
    /// The header's text.
    Text(String),
}

/// The address of the client of a request: the address it was forwarded for
/// if the request names one, else the address of the peer.
pub fn get_client_ip(real_ip: RealIp, peer: Option<String>) -> (r: Result<String, String>)
    ensures
        match (real_ip, peer) {
            (RealIp::Text(text), _) => r matches Ok(ip) && ip@ == text@,
            (RealIp::Unreadable(rendered), _) => r matches Err(msg) && msg@ == "cannot convert "@
                + rendered@ + " to string"@,
            (RealIp::Absent, Some(address)) => r matches Ok(ip) && ip@ == address@,
            (RealIp::Absent, None) => r matches Err(msg) && msg@ == "could not get IP address"@,
        },
{
    match (real_ip, peer) {
        (RealIp::Text(text), _) => Ok(text),
        (RealIp::Unreadable(rendered), _) => {
            let mut msg: String = String::from_str("cannot convert ");
            msg.append(rendered.as_str());
            msg.append(" to string");
            Err(msg)
        },
        (RealIp::Absent, Some(address)) => Ok(address),
        (RealIp::Absent, None) => Err(String::from_str("could not get IP address")),
    }
}

} // verus!
