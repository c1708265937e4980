//! Ranking by score, highest first, with items of equal score kept in the
//! order in which they came. The dashboard ranks reports by urgency this
//! way, and journal entries are put in order of time with it.

use crate::model::computed::ReportSummary;
use vstd::prelude::*;

verus! {

/// Where an item of urgency `score` goes into a row of already ranked
/// urgencies: behind every item that is at least as urgent.
pub open spec fn insert_position(placed: Seq<int>, score: int) -> nat
    decreases placed.len(),
{
    if placed.len() == 0 || placed[0] < score {
        0
    } else {
        1 + insert_position(placed.drop_first(), score)
    }
}

/// The urgencies of the items in the row `order`.
pub open spec fn placed_scores(order: Seq<int>, scores: Seq<int>) -> Seq<int> {
    Seq::new(order.len(), |j: int| scores[order[j]])
}

/// The ranked order of items with the given scores: `ranked_order(s)[k]` is
/// the index in `s` of the item at place `k`. Items are placed one after
/// the other in the order in which they came.
pub open spec fn ranked_order(scores: Seq<int>) -> Seq<int>
    decreases scores.len(),
{
    if scores.len() == 0 {
        Seq::empty()
    } else {
        let before = ranked_order(scores.drop_last());
        let at = insert_position(placed_scores(before, scores), scores.last());
        before.insert(at as int, scores.len() - 1)
    }
}

/// `order` shows each of `n` items once.
pub open spec fn is_permutation(order: Seq<int>, n: int) -> bool {
    &&& order.len() == n
    &&& forall|k: int| 0 <= k < order.len() ==> 0 <= #[trigger] order[k] < n
    &&& forall|a: int, b: int|
        0 <= a < b < order.len() ==> #[trigger] order[a] != #[trigger] order[b]
}

/// Along `order` the urgencies never rise.
pub open spec fn is_descending(order: Seq<int>, scores: Seq<int>) -> bool {
    forall|a: int, b: int|
        0 <= a < b < order.len() ==> scores[#[trigger] order[a]] >= scores[#[trigger] order[b]]
}

/// Items of equal urgency keep their load order.
pub open spec fn is_stable(order: Seq<int>, scores: Seq<int>) -> bool {
    forall|a: int, b: int|
        0 <= a < b < order.len() && scores[#[trigger] order[a]] == scores[#[trigger] order[b]]
            ==> order[a] < order[b]
}

/// The insert position lies within the row; everything before it is at
/// least as urgent, and the item at it, if any, is less urgent.
pub proof fn lemma_insert_position(placed: Seq<int>, score: int)
    ensures
        insert_position(placed, score) <= placed.len(),
        forall|j: int| 0 <= j < insert_position(placed, score) ==> #[trigger] placed[j] >= score,
        insert_position(placed, score) < placed.len() ==> placed[insert_position(
            placed,
            score,
        ) as int] < score,
    decreases placed.len(),
{
    if placed.len() == 0 || placed[0] < score {
    } else {
        let rest = placed.drop_first();
        lemma_insert_position(rest, score);
        let p = insert_position(rest, score) as int;
        assert forall|j: int| 0 <= j < p + 1 implies #[trigger] placed[j] >= score by {
            if j > 0 {
                assert(placed[j] == rest[j - 1]);
            }
        }
        if p < rest.len() {
            assert(placed[p + 1] == rest[p]);
        }
    }
}

/// The position found by scanning: everything before `at` is at least as
/// urgent, and the item at `at`, if any, is less urgent.
pub proof fn lemma_insert_position_is(placed: Seq<int>, score: int, at: int)
    requires
        0 <= at <= placed.len(),
        forall|j: int| 0 <= j < at ==> #[trigger] placed[j] >= score,
        at < placed.len() ==> placed[at] < score,
    ensures
        insert_position(placed, score) == at,
    decreases placed.len(),
{
    if placed.len() == 0 || placed[0] < score {
        if at > 0 {
            assert(placed[0] >= score);
        }
    } else {
        let rest = placed.drop_first();
        assert(at > 0);
        assert forall|j: int| 0 <= j < at - 1 implies #[trigger] rest[j] >= score by {
            assert(rest[j] == placed[j + 1]);
        }
        lemma_insert_position_is(rest, score, at - 1);
    }
}

/// The ranked order holds every item once, never rises in score, and keeps
/// items of equal score in the order in which they came.
pub proof fn lemma_ranked_order(scores: Seq<int>)
    ensures
        is_permutation(ranked_order(scores), scores.len() as int),
        is_descending(ranked_order(scores), scores),
        is_stable(ranked_order(scores), scores),
    decreases scores.len(),
{
    if scores.len() > 0 {
        let shorter = scores.drop_last();
        let before = ranked_order(shorter);
        lemma_ranked_order(shorter);
        let placed = placed_scores(before, scores);
        let x = scores.last();
        let at = insert_position(placed, x) as int;
        lemma_insert_position(placed, x);
        let order = ranked_order(scores);
        let n = scores.len() as int;
        assert(order == before.insert(at, n - 1));
        assert forall|k: int| 0 <= k < before.len() implies shorter[before[k]] == scores[before[k]]
            && placed[k] == scores[before[k]] by {}
        // every item behind the insertion point is less urgent than the new one
        assert forall|j: int| at <= j < before.len() implies scores[before[j]] < x by {
            if j > at {
                assert(shorter[before[at]] >= shorter[before[j]]);
            }
            assert(placed[at] < x);
        }
        assert forall|k: int| 0 <= k < order.len() implies 0 <= #[trigger] order[k] < n by {
            if k < at {
                assert(order[k] == before[k]);
            } else if k > at {
                assert(order[k] == before[k - 1]);
            }
        }
        assert forall|a: int, b: int| 0 <= a < b < order.len() implies #[trigger] order[a]
            != #[trigger] order[b] && scores[order[a]] >= scores[order[b]] && (scores[order[a]]
            == scores[order[b]] ==> order[a] < order[b]) by {
            let ia = if a < at {
                a
            } else {
                a - 1
            };
            let ib = if b < at {
                b
            } else {
                b - 1
            };
            if a != at {
                assert(order[a] == before[ia]);
                assert(0 <= before[ia] < n - 1);
            }
            if b != at {
                assert(order[b] == before[ib]);
                assert(0 <= before[ib] < n - 1);
            }
            if a == at {
                assert(order[a] == n - 1);
                assert(scores[before[ib]] < x);
            } else if b == at {
                assert(order[b] == n - 1);
                assert(placed[ia] >= x);
            } else {
                assert(ia < ib);
                assert(before[ia] != before[ib]);
                assert(shorter[before[ia]] >= shorter[before[ib]]);
            }
        }
    }
}

/// Where a report of urgency `score` goes among the ranked `summaries`.
pub fn rank_position(summaries: &Vec<ReportSummary>, score: i32) -> (at: usize)
    ensures
        at <= summaries.len(),
        at == insert_position(
            Seq::new(summaries@.len(), |j: int| summaries@[j].urgency_score as int),
            score as int,
        ),
{
    let mut k: usize = 0;
    while k < summaries.len() && summaries[k].urgency_score >= score
        invariant
            k <= summaries.len(),
            forall|j: int| 0 <= j < k ==> summaries@[j].urgency_score >= score,
        decreases summaries.len() - k,
    {
        k += 1;
    }
    proof {
        let placed = Seq::new(summaries@.len(), |j: int| summaries@[j].urgency_score as int);
        lemma_insert_position_is(placed, score as int, k as int);
    }
    k
}

} // verus!
