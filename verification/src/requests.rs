//! The rules of the request handlers: which part of the listing a request
//! asks for, which votes a client is told of, and what a voter is called.

use crate::text::{parse_usize, parsed_usize};
use vstd::prelude::*;

verus! {

/// How many sites a page of the listing shows when the request does not say.
pub const DEFAULT_PAGINATE: usize = 25;

/// The part of the listing that a request asks for.
#[derive(Debug, Clone, Copy, PartialEq, Eq, Structural)]
pub struct Window {
    /// The page, counted from one.
    pub page: usize,
    /// The sites on a page.
    pub paginate: usize,
    /// The sites before the page.
    pub offset: usize,
}

/// The page that a request asks for: the first one if it names none, or
/// names page zero.
pub open spec fn asked_page(page: Option<usize>) -> nat {
    match page {
        Some(p) => if p == 0 {
            1
        } else {
            p as nat
        },
        None => 1,
    }
}

/// The sites on a page that a request asks for.
pub open spec fn asked_paginate(paginate: Option<usize>) -> nat {
    match paginate {
        Some(n) => n as nat,
        None => DEFAULT_PAGINATE as nat,
    }
}

/// The part of the listing that a request asks for, if the number of sites
/// before it can be counted at all.
pub fn page_window(page: Option<usize>, paginate: Option<usize>) -> (w: Option<Window>)
    ensures
        ({
            let p = asked_page(page);
            let n = asked_paginate(paginate);
            if n * (p - 1) <= usize::MAX {
                w == Some(
                    Window { page: p as usize, paginate: n as usize, offset: (n * (p - 1)) as usize },
                )
            } else {
                w is None
            }
        }),
{
    let p: usize = match page {
        Some(p) => if p == 0 {
            1
        } else {
            p
        },
        None => 1,
    };
    let n: usize = match paginate {
        Some(n) => n,
        None => DEFAULT_PAGINATE,
    };
    match n.checked_mul(p - 1) {
        Some(offset) => Some(Window { page: p, paginate: n, offset }),
        None => None,
    }
}

/// The parts of a text between its commas; a text without a comma is one
/// part, and so is the empty text.
pub open spec fn comma_fields(text: Seq<char>) -> Seq<Seq<char>>
    decreases text.len(),
{
    if text.len() == 0 {
        seq![Seq::empty()]
    } else {
        let before = comma_fields(text.drop_last());
        if text.last() == ',' {
            before.push(Seq::empty())
        } else {
            before.drop_last().push(before.last().push(text.last()))
        }
    }
}

/// What a text means as the number of a site: a decimal number that fits 32
/// bits.
pub open spec fn parsed_site_id(text: Seq<char>) -> Option<u32> {
    match parsed_usize(text) {
        Some(n) => if n <= u32::MAX {
            Some(n as u32)
        } else {
            None
        },
        None => None,
    }
}

/// The site numbers in a list that separates them by commas; a part that is
/// no number is passed over.
pub open spec fn site_ids_of(text: Seq<char>) -> Seq<u32> {
    comma_fields(text).filter_map(|field: Seq<char>| parsed_site_id(field))
}

fn site_id(field: &str) -> (id: Option<u32>)
    ensures
        id == parsed_site_id(field@),
{
    match parse_usize(field) {
        Some(n) => if n <= u32::MAX as usize {
            Some(n as u32)
        } else {
            None
        },
        None => None,
    }
}

/// Reads the site numbers of a list that separates them by commas.
pub fn parse_site_ids(text: &str) -> (ids: Vec<u32>)
    ensures
        ids@ == site_ids_of(text@),
{
    let ghost read = |field: Seq<char>| parsed_site_id(field);
    let n: usize = text.unicode_len();
    let mut ids: Vec<u32> = Vec::new();
    let mut start: usize = 0;
    let mut i: usize = 0;
    while i < n
        invariant
            0 <= start <= i <= n,
            n == text@.len(),
            read == |field: Seq<char>| parsed_site_id(field),
            comma_fields(text@.take(i as int)).len() >= 1,
            comma_fields(text@.take(i as int)).last() == text@.subrange(start as int, i as int),
            ids@ == comma_fields(text@.take(i as int)).drop_last().filter_map(read),
        decreases n - i,
    {
        let c: char = text.get_char(i);
        let ghost before = comma_fields(text@.take(i as int));
        let ghost after = comma_fields(text@.take(i + 1));
        assert(text@.take(i + 1).drop_last() =~= text@.take(i as int));
        if c == ',' {
            assert(after.drop_last() =~= before);
            match site_id(text.substring_char(start, i)) {
                Some(id) => ids.push(id),
                None => {},
            }
            start = i + 1;
        } else {
            assert(after.drop_last() =~= before.drop_last());
            assert(text@.subrange(start as int, i + 1) =~= text@.subrange(
                start as int,
                i as int,
            ).push(c));
        }
        i = i + 1;
    }
    assert(text@.take(n as int) =~= text@);
    match site_id(text.substring_char(start, n)) {
        Some(id) => ids.push(id),
        None => {},
    }
    ids
}

/// Whether `id` is one of `ids`.
fn is_among(ids: &Vec<u32>, id: u32) -> (found: bool)
    ensures
        found == ids@.contains(id),
{
    let mut i: usize = 0;
    while i < ids.len()
        invariant
            0 <= i <= ids.len(),
            forall|j: int| 0 <= j < i ==> ids@[j] != id,
        decreases ids.len() - i,
    {
        if ids[i] == id {
            return true;
        }
        i = i + 1;
    }
    false
}

/// The sites that a voter has voted for among those that a client asks
/// about, in the order of the votes.
pub fn voted_sites(votes: &Vec<u32>, asked: &Vec<u32>) -> (sites: Vec<u32>)
    ensures
        sites@ == votes@.filter(|site: u32| asked@.contains(site)),
{
    let ghost wanted = |site: u32| asked@.contains(site);
    let mut sites: Vec<u32> = Vec::new();
    let mut i: usize = 0;
    assert(Seq::<u32>::empty().filter(wanted) =~= Seq::empty()) by {
        reveal(Seq::filter);
    }
    while i < votes.len()
        invariant
            0 <= i <= votes.len(),
            wanted == |site: u32| asked@.contains(site),
            sites@ == votes@.take(i as int).filter(wanted),
        decreases votes.len() - i,
    {
        let site: u32 = votes[i];
        proof {
            assert(votes@.take(i + 1) =~= votes@.take(i as int).push(site));
            votes@.take(i as int).lemma_filter_push(site, wanted);
        }
        if is_among(asked, site) {
            sites.push(site);
        }
        i = i + 1;
    }
    assert(votes@.take(i as int) =~= votes@);
    sites
}

/// The lower-case hexadecimal digit of a number below sixteen.
pub open spec fn hex_digit(n: nat) -> char {
    if n == 0 {
        '0'
    } else if n == 1 {
        '1'
    } else if n == 2 {
        '2'
    } else if n == 3 {
        '3'
    } else if n == 4 {
        '4'
    } else if n == 5 {
        '5'
    } else if n == 6 {
        '6'
    } else if n == 7 {
        '7'
    } else if n == 8 {
        '8'
    } else if n == 9 {
        '9'
    } else if n == 10 {
        'a'
    } else if n == 11 {
        'b'
    } else if n == 12 {
        'c'
    } else if n == 13 {
        'd'
    } else if n == 14 {
        'e'
    } else {
        'f'
    }
}

/// Bytes in hexadecimal: two lower-case digits for each byte, the high one
/// first.
pub open spec fn hex_text(bytes: Seq<u8>) -> Seq<char>
    decreases bytes.len(),
{
    if bytes.len() == 0 {
        Seq::empty()
    } else {
        hex_text(bytes.drop_last()).push(hex_digit(bytes.last() as nat / 16)).push(
            hex_digit(bytes.last() as nat % 16),
        )
    }
}

/// Trusted: `hex::encode`. Its documentation promises lower-case digits, two
/// for each byte of the input, in the order of the input.
#[verifier::external_body]
fn hex_encode(bytes: &[u8]) -> (text: String)
    ensures
        text@ == hex_text(bytes@),
{
    hex::encode(bytes)
}

/// Hexadecimal text is twice as long as the bytes it writes.
pub proof fn lemma_hex_text_len(bytes: Seq<u8>)
    ensures
        hex_text(bytes).len() == 2 * bytes.len(),
    decreases bytes.len(),
{
    if bytes.len() > 0 {
        lemma_hex_text_len(bytes.drop_last());
    }
}

/// The name of a new voter, made of the random bytes `seed`: the bytes in
/// hexadecimal.
pub fn voter_id(seed: &[u8]) -> (id: String)
    ensures
        id@ == hex_text(seed@),
        id@.len() == 2 * seed@.len(),
{
    proof {
        lemma_hex_text_len(seed@);
    }
    hex_encode(seed)
}

} // verus!
