//! Ranking of discussion links: by score, highest first, links of equal
//! score staying in the order in which they were found.

use crate::relatedlinks::{link_models, LinkModel, RelatedLink};
use vstd::prelude::*;

verus! {

/// `ranked` with one more link: `x` goes behind every link that scores at
/// least as high, and before the others.
pub open spec fn rank_insert(ranked: Seq<LinkModel>, x: LinkModel) -> Seq<LinkModel>
    decreases ranked.len(),
{
    if ranked.len() == 0 {
        seq![x]
    } else if ranked.last().upvotes >= x.upvotes {
        ranked.push(x)
    } else {
        rank_insert(ranked.drop_last(), x).push(ranked.last())
    }
}

/// The links of `links` by descending score; among equal scores the earlier
/// link first.
pub open spec fn ranked(links: Seq<LinkModel>) -> Seq<LinkModel>
    decreases links.len(),
{
    if links.len() == 0 {
        links
    } else {
        rank_insert(ranked(links.drop_last()), links.last())
    }
}

/// Whether no link of `links` is followed by one that scores higher.
pub open spec fn descending(links: Seq<LinkModel>) -> bool {
    forall|i: int, j: int| 0 <= i <= j < links.len() ==> links[i].upvotes >= links[j].upvotes
}

/// The links of `links` whose score is `score`, in order.
pub open spec fn scoring(links: Seq<LinkModel>, score: nat) -> Seq<LinkModel> {
    links.filter(|l: LinkModel| l.upvotes == score)
}

/// Where `rank_insert` puts a link: at `at`, when every link from `at` on
/// scores lower and the link before `at`, if any, does not.
proof fn lemma_rank_insert_at(ranked: Seq<LinkModel>, x: LinkModel, at: int)
    requires
        0 <= at <= ranked.len(),
        forall|t: int| at <= t < ranked.len() ==> ranked[t].upvotes < x.upvotes,
        at > 0 ==> ranked[at - 1].upvotes >= x.upvotes,
    ensures
        rank_insert(ranked, x) == ranked.insert(at, x),
    decreases ranked.len(),
{
    if at < ranked.len() {
        lemma_rank_insert_at(ranked.drop_last(), x, at);
    }
}

/// `rank_insert` adds exactly one link, which is `x`, and keeps a descending
/// list descending.
proof fn lemma_rank_insert_props(ranked: Seq<LinkModel>, x: LinkModel)
    ensures
        rank_insert(ranked, x).len() == ranked.len() + 1,
        rank_insert(ranked, x).to_multiset() == ranked.to_multiset().insert(x),
        descending(ranked) ==> descending(rank_insert(ranked, x)),
        forall|i: int|
            0 <= i < rank_insert(ranked, x).len() ==> (#[trigger] rank_insert(ranked, x)[i] == x
                || ranked.contains(rank_insert(ranked, x)[i])),
    decreases ranked.len(),
{
    broadcast use vstd::seq_lib::group_to_multiset_ensures;

    if ranked.len() > 0 && ranked.last().upvotes < x.upvotes {
        let head = ranked.drop_last();
        let inner = rank_insert(head, x);
        let out = rank_insert(ranked, x);
        lemma_rank_insert_props(head, x);
        assert(ranked =~= head.push(ranked.last()));
        assert forall|i: int| 0 <= i < out.len() implies (#[trigger] out[i] == x
            || ranked.contains(out[i])) by {
            if i < inner.len() && inner[i] != x {
                let k = choose|k: int| 0 <= k < head.len() && head[k] == inner[i];
                assert(ranked[k] == out[i]);
            }
        }
        if descending(ranked) {
            assert(descending(head));
            assert forall|i: int, j: int| 0 <= i <= j < out.len() implies out[i].upvotes
                >= out[j].upvotes by {
                if i < inner.len() && j == inner.len() && inner[i] != x {
                    let k = choose|k: int| 0 <= k < head.len() && head[k] == inner[i];
                    assert(ranked[k].upvotes >= ranked.last().upvotes);
                }
            }
        }
    }
}

/// Ranking keeps the links: none is lost, none is made up, none is doubled.
pub proof fn lemma_ranked_permutes(links: Seq<LinkModel>)
    ensures
        ranked(links).len() == links.len(),
        ranked(links).to_multiset() == links.to_multiset(),
    decreases links.len(),
{
    broadcast use vstd::seq_lib::group_to_multiset_ensures;

    if links.len() > 0 {
        lemma_ranked_permutes(links.drop_last());
        lemma_rank_insert_props(ranked(links.drop_last()), links.last());
        assert(links =~= links.drop_last().push(links.last()));
    }
}

/// After ranking no link is followed by one with a higher score.
pub proof fn lemma_ranked_descending(links: Seq<LinkModel>)
    ensures
        descending(ranked(links)),
    decreases links.len(),
{
    if links.len() > 0 {
        lemma_ranked_descending(links.drop_last());
        lemma_rank_insert_props(ranked(links.drop_last()), links.last());
    }
}

/// The links of one score come out of `rank_insert` as they went in, the
/// new link last among its equals.
proof fn lemma_rank_insert_scoring(ranked: Seq<LinkModel>, x: LinkModel, score: nat)
    ensures
        scoring(rank_insert(ranked, x), score) == if x.upvotes == score {
            scoring(ranked, score).push(x)
        } else {
            scoring(ranked, score)
        },
    decreases ranked.len(),
{
    let same = |l: LinkModel| l.upvotes == score;
    if ranked.len() == 0 || ranked.last().upvotes >= x.upvotes {
        ranked.lemma_filter_push(x, same);
        assert(rank_insert(ranked, x) =~= ranked.push(x));
    } else {
        let head = ranked.drop_last();
        lemma_rank_insert_scoring(head, x, score);
        rank_insert(head, x).lemma_filter_push(ranked.last(), same);
        head.lemma_filter_push(ranked.last(), same);
        assert(ranked =~= head.push(ranked.last()));
    }
}

/// Ranking is stable: the links of any one score keep the order in which
/// they were given.
pub proof fn lemma_ranked_stable(links: Seq<LinkModel>, score: nat)
    ensures
        scoring(ranked(links), score) == scoring(links, score),
    decreases links.len(),
{
    if links.len() > 0 {
        let head = links.drop_last();
        lemma_ranked_stable(head, score);
        lemma_rank_insert_scoring(ranked(head), links.last(), score);
        head.lemma_filter_push(links.last(), |l: LinkModel| l.upvotes == score);
        assert(links =~= head.push(links.last()));
    }
}

/// Every ranked link is one of the links given.
pub proof fn lemma_ranked_members(links: Seq<LinkModel>)
    ensures
        forall|i: int| 0 <= i < ranked(links).len() ==> links.contains(#[trigger] ranked(links)[i]),
    decreases links.len(),
{
    if links.len() > 0 {
        let head = links.drop_last();
        let out = ranked(links);
        lemma_ranked_members(head);
        lemma_rank_insert_props(ranked(head), links.last());
        assert forall|i: int| 0 <= i < out.len() implies links.contains(#[trigger] out[i]) by {
            if out[i] == links.last() {
                assert(links[links.len() - 1] == out[i]);
            } else {
                let m = choose|m: int| 0 <= m < head.len() && head[m] == out[i];
                assert(links[m] == out[i]);
            }
        }
    }
}

/// Sorts links by score, highest first, keeping the order of equal scores.
pub fn rank(links: Vec<RelatedLink>) -> (out: Vec<RelatedLink>)
    ensures
        link_models(out@) == ranked(link_models(links@)),
        descending(link_models(out@)),
        link_models(out@).to_multiset() == link_models(links@).to_multiset(),
        out@.len() == links@.len(),
{
    let ghost given = link_models(links@);
    proof {
        lemma_ranked_descending(given);
        lemma_ranked_permutes(given);
    }
    let mut rest: Vec<RelatedLink> = links;
    let mut out: Vec<RelatedLink> = Vec::new();
    let ghost mut done: int = 0;
    while rest.len() > 0
        invariant
            0 <= done <= given.len(),
            link_models(rest@) == given.skip(done),
            link_models(out@) == ranked(given.take(done)),
        decreases rest.len(),
    {
        let ghost ranked_before = link_models(out@);
        let ghost rest_before = rest@;
        assert(given.skip(done).len() == rest_before.len());
        let x: RelatedLink = rest.remove(0);
        assert(given.skip(done)[0] == given[done]);
        let mut at: usize = out.len();
        while at > 0 && out[at - 1].upvotes < x.upvotes
            invariant
                0 <= at <= out.len(),
                link_models(out@) == ranked_before,
                forall|t: int| at <= t < out.len() ==> ranked_before[t].upvotes < x@.upvotes,
            decreases at,
        {
            at = at - 1;
        }
        proof {
            lemma_rank_insert_at(ranked_before, x@, at as int);
            assert(given.take(done + 1).drop_last() =~= given.take(done));
        }
        out.insert(at, x);
        proof {
            assert forall|i: int| 0 <= i < rest@.len() implies link_models(rest@)[i]
                == given.skip(done + 1)[i] by {
                assert(link_models(rest_before)[i + 1] == given.skip(done)[i + 1]);
            }
            done = done + 1;
        }
    }
    assert(given.take(done) =~= given);
    out
}

} // verus!
