//! Ranking similarity scores: most similar first, and of two equally
//! similar movies the one that came first stays first.
use crate::model::cosine_similarity::{CosineSimilarity, SimilarityError};
use vstd::prelude::*;

verus! {

/// How many movies a ranking hands out at most.
pub const TOP_K: usize = 10;

/// Where a score stands among all scores.
pub open spec fn rank_of(item: CosineSimilarity) -> int {
    item.similarity.position()
}

/// How many scores at the head of `list` are at least as high as `item`.
pub open spec fn place_for(list: Seq<CosineSimilarity>, item: CosineSimilarity) -> int
    decreases list.len(),
{
    if list.len() == 0 || rank_of(list[0]) < rank_of(item) {
        0
    } else {
        1 + place_for(list.drop_first(), item)
    }
}

/// The scores from the highest to the lowest; scores that are equal keep
/// the order in which they came.
pub open spec fn ranked(items: Seq<CosineSimilarity>) -> Seq<CosineSimilarity>
    decreases items.len(),
{
    if items.len() == 0 {
        items
    } else {
        let before = ranked(items.drop_last());
        before.insert(place_for(before, items.last()), items.last())
    }
}

/// Whether no score is followed by a higher one.
pub open spec fn descending(list: Seq<CosineSimilarity>) -> bool {
    forall|a: int, b: int| 0 <= a < b < list.len() ==> rank_of(list[a]) >= rank_of(list[b])
}

/// The first `TOP_K` scores of the ranking, or all of them where there are
/// fewer.
pub open spec fn top_ranked(items: Seq<CosineSimilarity>) -> Seq<CosineSimilarity> {
    if items.len() <= TOP_K {
        ranked(items)
    } else {
        ranked(items).take(TOP_K as int)
    }
}

/// Whether the score at `i` is the first that is not a number.
pub open spec fn first_unordered(items: Seq<CosineSimilarity>, i: int) -> bool {
    &&& 0 <= i < items.len()
    &&& items[i].similarity.not_a_number()
    &&& forall|j: int| 0 <= j < i ==> !(#[trigger] items[j]).similarity.not_a_number()
}

/// The place of a new score lies inside the list; everything before it is
/// at least as high, and what stands at it is lower.
pub proof fn lemma_place_for(list: Seq<CosineSimilarity>, item: CosineSimilarity)
    ensures
        0 <= place_for(list, item) <= list.len(),
        forall|a: int| 0 <= a < place_for(list, item) ==> rank_of(list[a]) >= rank_of(item),
        place_for(list, item) < list.len() ==> rank_of(list[place_for(list, item)]) < rank_of(
            item,
        ),
    decreases list.len(),
{
    if list.len() == 0 || rank_of(list[0]) < rank_of(item) {
    } else {
        let rest = list.drop_first();
        lemma_place_for(rest, item);
        assert forall|a: int| 0 <= a < place_for(list, item) implies rank_of(list[a]) >= rank_of(
            item,
        ) by {
            if a > 0 {
                assert(list[a] == rest[a - 1]);
            }
        }
        if place_for(list, item) < list.len() {
            assert(list[place_for(list, item)] == rest[place_for(rest, item)]);
        }
    }
}

/// A ranking is as long as what was ranked.
pub proof fn lemma_ranked_len(items: Seq<CosineSimilarity>)
    ensures
        ranked(items).len() == items.len(),
    decreases items.len(),
{
    if items.len() > 0 {
        lemma_ranked_len(items.drop_last());
        lemma_place_for(ranked(items.drop_last()), items.last());
    }
}

/// In a ranking no score is followed by a higher one.
pub proof fn lemma_ranked_is_descending(items: Seq<CosineSimilarity>)
    ensures
        descending(ranked(items)),
    decreases items.len(),
{
    if items.len() > 0 {
        let before = ranked(items.drop_last());
        let item = items.last();
        let p = place_for(before, item);
        lemma_ranked_is_descending(items.drop_last());
        lemma_place_for(before, item);
        let after = before.insert(p, item);
        assert forall|a: int, b: int| 0 <= a < b < after.len() implies rank_of(after[a])
            >= rank_of(after[b]) by {
            if b < p {
                assert(after[a] == before[a] && after[b] == before[b]);
            } else if b == p {
                assert(after[a] == before[a]);
            } else if a < p {
                assert(after[a] == before[a] && after[b] == before[b - 1]);
                assert(rank_of(before[p]) < rank_of(item));
                if b - 1 > p {
                    assert(rank_of(before[p]) >= rank_of(before[b - 1]));
                }
            } else if a == p {
                assert(after[b] == before[b - 1]);
                if b - 1 > p {
                    assert(rank_of(before[p]) >= rank_of(before[b - 1]));
                }
            } else {
                assert(after[a] == before[a - 1] && after[b] == before[b - 1]);
            }
        }
    }
}

/// A ranking holds what was ranked: every score as often as it came.
pub proof fn lemma_ranked_is_a_rearrangement(items: Seq<CosineSimilarity>)
    ensures
        ranked(items).to_multiset() == items.to_multiset(),
    decreases items.len(),
{
    if items.len() > 0 {
        let before = ranked(items.drop_last());
        let item = items.last();
        let p = place_for(before, item);
        lemma_ranked_is_a_rearrangement(items.drop_last());
        lemma_place_for(before, item);
        vstd::seq_lib::to_multiset_insert(before, p, item);
        vstd::seq_lib::to_multiset_build(items.drop_last(), item);
        assert(items.drop_last().push(item) =~= items);
    }
}

/// Ranking is stable: the scores of one rank stand in the ranking in the
/// order in which they came.
pub proof fn lemma_ranked_keeps_ties_in_order(items: Seq<CosineSimilarity>, rank: int)
    ensures
        ranked(items).filter(|x: CosineSimilarity| rank_of(x) == rank) == items.filter(
            |x: CosineSimilarity| rank_of(x) == rank,
        ),
    decreases items.len(),
{
    let tie = |x: CosineSimilarity| rank_of(x) == rank;
    if items.len() > 0 {
        let earlier = items.drop_last();
        let item = items.last();
        let before = ranked(earlier);
        let p = place_for(before, item);
        lemma_ranked_keeps_ties_in_order(earlier, rank);
        lemma_ranked_is_descending(earlier);
        lemma_place_for(before, item);
        let head = before.take(p);
        let tail = before.skip(p);
        assert(before =~= head + tail);
        assert(before.insert(p, item) =~= head.push(item) + tail);
        Seq::filter_distributes_over_add(head, tail, tie);
        Seq::filter_distributes_over_add(head.push(item), tail, tie);
        head.lemma_filter_push(item, tie);
        assert(earlier.push(item) =~= items);
        earlier.lemma_filter_push(item, tie);
        if tie(item) {
            assert forall|i: int| 0 <= i < tail.len() implies !tie(#[trigger] tail[i]) by {
                assert(tail[i] == before[p + i]);
                assert(rank_of(before[p]) < rank_of(item));
            }
            assert(tail.all(|x: CosineSimilarity| !tie(x)));
            tail.lemma_all_neg_filter_empty(tie);
            assert(tail.filter(tie) =~= Seq::<CosineSimilarity>::empty());
            assert(head.filter(tie) + tail.filter(tie) =~= head.filter(tie));
            assert(head.filter(tie).push(item) + tail.filter(tie) =~= head.filter(tie).push(item));
        }
    } else {
        assert(ranked(items) == items);
    }
}

/// The place of a new score in a list.
pub fn find_place(list: &Vec<CosineSimilarity>, item: &CosineSimilarity) -> (place: usize)
    ensures
        place == place_for(list@, *item),
{
    let key = item.similarity.order_key();
    let mut place: usize = 0;
    assert(list@.skip(0) =~= list@);
    while place < list.len() && list[place].similarity.order_key() >= key
        invariant
            place <= list.len(),
            key == rank_of(*item),
            place_for(list@, *item) == place + place_for(list@.skip(place as int), *item),
        decreases list.len() - place,
    {
        assert(list@.skip(place as int).drop_first() =~= list@.skip(place + 1));
        place += 1;
    }
    place
}

/// The scores from the highest to the lowest; scores that are equal keep
/// the order in which they came. Fails where a score is not a number, and
/// names the movie of the first such score.
pub fn rank_similarities(similarities: &Vec<CosineSimilarity>) -> (outcome: Result<
    Vec<CosineSimilarity>,
    SimilarityError,
>)
    ensures
        match outcome {
            Ok(list) => {
                &&& forall|i: int|
                    0 <= i < similarities.len() ==> !(
                    #[trigger] similarities[i]).similarity.not_a_number()
                &&& list@ == ranked(similarities@)
            },
            Err(SimilarityError::Unordered { movie_id }) => exists|i: int|
                #[trigger] first_unordered(similarities@, i) && movie_id
                    == similarities[i].movie_id,
            Err(_) => false,
        },
{
    let mut list: Vec<CosineSimilarity> = Vec::new();
    let mut i: usize = 0;
    while i < similarities.len()
        invariant
            i <= similarities.len(),
            forall|j: int| 0 <= j < i ==> !(#[trigger] similarities[j]).similarity.not_a_number(),
            list@ == ranked(similarities@.take(i as int)),
        decreases similarities.len() - i,
    {
        let item = similarities[i];
        if item.similarity.is_nan() {
            assert(first_unordered(similarities@, i as int));
            return Err(SimilarityError::Unordered { movie_id: item.movie_id });
        }
        let place = find_place(&list, &item);
        proof {
            assert(similarities@.take(i + 1).drop_last() =~= similarities@.take(i as int));
            lemma_place_for(list@, item);
        }
        list.insert(place, item);
        i += 1;
    }
    assert(similarities@.take(i as int) =~= similarities@);
    Ok(list)
}

/// The place of a new score among the first `k` scores of a list is its
/// place in the whole list, or `k` where that lies further down.
proof fn lemma_place_in_prefix(list: Seq<CosineSimilarity>, k: int, item: CosineSimilarity)
    requires
        0 <= k <= list.len(),
    ensures
        place_for(list.take(k), item) == if place_for(list, item) < k {
            place_for(list, item)
        } else {
            k
        },
    decreases list.len(),
{
    lemma_place_for(list, item);
    if k == 0 {
        assert(list.take(k).len() == 0);
    } else {
        assert(list.take(k)[0] == list[0]);
        if rank_of(list[0]) >= rank_of(item) {
            assert(list.take(k).drop_first() =~= list.drop_first().take(k - 1));
            lemma_place_in_prefix(list.drop_first(), k - 1, item);
        }
    }
}

/// The top of a ranking can be kept up to date without the rest of it: a
/// new score goes to its place among the top scores, and what then stands
/// beyond the first `TOP_K` is dropped.
pub proof fn lemma_top_ranked_push(items: Seq<CosineSimilarity>, item: CosineSimilarity)
    ensures
        top_ranked(items.push(item)) == ({
            let top = top_ranked(items);
            let place = place_for(top, item);
            if place < TOP_K {
                let longer = top.insert(place, item);
                if longer.len() <= TOP_K {
                    longer
                } else {
                    longer.take(TOP_K as int)
                }
            } else {
                top
            }
        }),
{
    let full = ranked(items);
    let top = top_ranked(items);
    let place = place_for(full, item);
    lemma_ranked_len(items);
    lemma_ranked_len(items.push(item));
    lemma_place_for(full, item);
    lemma_place_for(top, item);
    assert(items.push(item).drop_last() =~= items);
    assert(ranked(items.push(item)) == full.insert(place, item));
    if full.len() <= TOP_K {
        if place < TOP_K {
        } else {
            assert(full.insert(place, item).take(TOP_K as int) =~= full);
        }
    } else {
        lemma_place_in_prefix(full, TOP_K as int, item);
        if place < TOP_K {
            assert(full.insert(place, item).take(TOP_K as int) =~= top.insert(place, item).take(
                TOP_K as int,
            ));
        } else {
            assert(full.insert(place, item).take(TOP_K as int) =~= top);
        }
    }
}

/// The `TOP_K` highest scores, from the highest to the lowest, or all of
/// them where there are fewer. Fails as `rank_similarities` does.
pub fn rank_top(similarities: &Vec<CosineSimilarity>) -> (outcome: Result<
    Vec<CosineSimilarity>,
    SimilarityError,
>)
    ensures
        match outcome {
            Ok(list) => {
                &&& forall|i: int|
                    0 <= i < similarities.len() ==> !(
                    #[trigger] similarities[i]).similarity.not_a_number()
                &&& list@ == top_ranked(similarities@)
            },
            Err(SimilarityError::Unordered { movie_id }) => exists|i: int|
                #[trigger] first_unordered(similarities@, i) && movie_id
                    == similarities[i].movie_id,
            Err(_) => false,
        },
{
    let mut top: Vec<CosineSimilarity> = Vec::new();
    let mut i: usize = 0;
    while i < similarities.len()
        invariant
            i <= similarities.len(),
            forall|j: int| 0 <= j < i ==> !(#[trigger] similarities[j]).similarity.not_a_number(),
            top@ == top_ranked(similarities@.take(i as int)),
        decreases similarities.len() - i,
    {
        let item = similarities[i];
        if item.similarity.is_nan() {
            assert(first_unordered(similarities@, i as int));
            return Err(SimilarityError::Unordered { movie_id: item.movie_id });
        }
        let place = find_place(&top, &item);
        proof {
            assert(similarities@.take(i + 1) =~= similarities@.take(i as int).push(item));
            lemma_top_ranked_push(similarities@.take(i as int), item);
            lemma_place_for(top@, item);
        }
        if place < TOP_K {
            top.insert(place, item);
            top.truncate(TOP_K);
        }
        i += 1;
    }
    assert(similarities@.take(i as int) =~= similarities@);
    Ok(top)
}

} // verus!
