//! Filtering the catalog by criteria, and scoring the similarity of a movie
//! to every other movie.
use crate::model::cosine_similarity::{Comparison, CosineSimilarity, SimilarityError};
use crate::model::movies::movie::TopRatedMovie;
use crate::model::movies::movie_criteria::MovieCriteria;
use crate::model::movies::movie_embedding::MovieEmbedding;
use crate::model::scalar::Single;
use crate::util::date::{
    calendar_date, known_on_or_after, known_on_or_before, on_or_after, on_or_before, parse_date,
    Date,
};
use crate::util::text::{
    any_shared, chars_of, decimal_chars, decimal_text, lemma_decimal_text_is_injective,
    lowercase_all, lowercase_text, same_chars, share_a_text, split_and_trim, split_trimmed, texts,
};
use crate::util::vector_math_helper::{all_zero, comparable, measures, VectorMathHelper};
use vstd::prelude::*;

verus! {

/// The lowercase form of each text.
pub open spec fn lowered(list: Seq<Seq<char>>) -> Seq<Seq<char>> {
    list.map_values(|t: Seq<char>| lowercase_text(t))
}

/// Whether one of the genres listed in `wanted`, separated by commas, is a
/// genre of the movie. White space around a listed genre and the case of
/// letters make no difference.
pub open spec fn genre_matches(wanted: Seq<char>, movie: TopRatedMovie) -> bool {
    share_a_text(lowered(split_trimmed(wanted, ',')), lowered(texts(movie.genres@)))
}

/// Whether the movie was released on the day that `bound` spells or later.
/// A date that spells no day, on either side, meets no bound.
pub open spec fn released_since(bound: Seq<char>, movie: TopRatedMovie) -> bool {
    known_on_or_after(calendar_date(movie.release_date@), calendar_date(bound))
}

/// Whether the movie was released on the day that `bound` spells or earlier.
/// A date that spells no day, on either side, meets no bound.
pub open spec fn released_until(bound: Seq<char>, movie: TopRatedMovie) -> bool {
    known_on_or_before(calendar_date(movie.release_date@), calendar_date(bound))
}

impl MovieCriteria {
    /// Whether the movie has one of the genres asked for, where any is.
    pub open spec fn accepts_genre(self, movie: TopRatedMovie) -> bool {
        self.genre matches Some(wanted) ==> genre_matches(wanted@, movie)
    }

    /// Whether the movie has the rating asked for, letter for letter, where
    /// one is.
    pub open spec fn accepts_mpaa(self, movie: TopRatedMovie) -> bool {
        self.mpaa matches Some(rating) ==> movie.mpaa@ == rating@
    }

    /// Whether the movie was released on the earliest day asked for, or
    /// later, where one is.
    pub open spec fn accepts_release_date_min(self, movie: TopRatedMovie) -> bool {
        self.release_date_min matches Some(bound) ==> released_since(bound@, movie)
    }

    /// Whether the movie was released on the latest day asked for, or
    /// earlier, where one is.
    pub open spec fn accepts_release_date_max(self, movie: TopRatedMovie) -> bool {
        self.release_date_max matches Some(bound) ==> released_until(bound@, movie)
    }

    /// Whether the score of the movie is at least the lowest asked for,
    /// where one is.
    pub open spec fn accepts_score_min(self, movie: TopRatedMovie) -> bool {
        self.score_min matches Some(bound) ==> movie.imdb_score.at_least(bound)
    }

    /// Whether the score of the movie is at most the highest asked for,
    /// where one is.
    pub open spec fn accepts_score_max(self, movie: TopRatedMovie) -> bool {
        self.score_max matches Some(bound) ==> movie.imdb_score.at_most(bound)
    }

    /// Whether the movie meets every constraint that is set.
    pub open spec fn accepts(self, movie: TopRatedMovie) -> bool {
        &&& self.accepts_genre(movie)
        &&& self.accepts_mpaa(movie)
        &&& self.accepts_release_date_min(movie)
        &&& self.accepts_release_date_max(movie)
        &&& self.accepts_score_min(movie)
        &&& self.accepts_score_max(movie)
    }
}

/// What of the criteria is worked out once, before the catalog is walked.
pub struct PreparedCriteria {
    pub genres: Option<Vec<String>>,
    pub since: Option<Option<Date>>,
    pub until: Option<Option<Date>>,
}

impl PreparedCriteria {
    /// Whether this is what `criteria` prepares to.
    pub open spec fn prepares(self, criteria: MovieCriteria) -> bool {
        &&& match criteria.genre {
            Some(wanted) => self.genres is Some && texts(self.genres->0@) == lowered(
                split_trimmed(wanted@, ','),
            ),
            None => self.genres is None,
        }
        &&& match criteria.release_date_min {
            Some(bound) => self.since == Some(calendar_date(bound@)),
            None => self.since is None,
        }
        &&& match criteria.release_date_max {
            Some(bound) => self.until == Some(calendar_date(bound@)),
            None => self.until is None,
        }
    }
}

/// Splits the genre list and reads the two date bounds.
pub fn prepare(criteria: &MovieCriteria) -> (prepared: PreparedCriteria)
    ensures
        prepared.prepares(*criteria),
{
    let genres = match &criteria.genre {
        Some(wanted) => Some(lowercase_all(&split_and_trim(wanted.as_str(), ','))),
        None => None,
    };
    let since = match &criteria.release_date_min {
        Some(bound) => Some(parse_date(bound.as_str())),
        None => None,
    };
    let until = match &criteria.release_date_max {
        Some(bound) => Some(parse_date(bound.as_str())),
        None => None,
    };
    PreparedCriteria { genres, since, until }
}

/// Whether the movie meets every constraint that is set.
pub fn accepts_movie(
    criteria: &MovieCriteria,
    prepared: &PreparedCriteria,
    movie: &TopRatedMovie,
) -> (r: bool)
    requires
        prepared.prepares(*criteria),
    ensures
        r == criteria.accepts(*movie),
{
    let genre_ok = match &prepared.genres {
        Some(wanted) => any_shared(wanted, &lowercase_all(&movie.genres)),
        None => true,
    };
    let mpaa_ok = match &criteria.mpaa {
        Some(rating) => movie.mpaa == *rating,
        None => true,
    };
    let released = if prepared.since.is_some() || prepared.until.is_some() {
        parse_date(movie.release_date.as_str())
    } else {
        None
    };
    let since_ok = match &prepared.since {
        Some(bound) => on_or_after(&released, bound),
        None => true,
    };
    let until_ok = match &prepared.until {
        Some(bound) => on_or_before(&released, bound),
        None => true,
    };
    let min_ok = match &criteria.score_min {
        Some(bound) => movie.imdb_score.ge(bound),
        None => true,
    };
    let max_ok = match &criteria.score_max {
        Some(bound) => movie.imdb_score.le(bound),
        None => true,
    };
    genre_ok && mpaa_ok && since_ok && until_ok && min_ok && max_ok
}

/// Whether the movie meets every constraint of `criteria` that is set.
pub fn matches_movie(criteria: &MovieCriteria, movie: &TopRatedMovie) -> (r: bool)
    ensures
        r == criteria.accepts(*movie),
{
    let prepared = prepare(criteria);
    accepts_movie(criteria, &prepared, movie)
}

/// Keeps the movies that meet every constraint of `criteria`, in the order
/// in which they came.
pub fn filter_movies(criteria: MovieCriteria, top_movies: Vec<TopRatedMovie>) -> (kept: Vec<
    TopRatedMovie,
>)
    ensures
        kept@ == top_movies@.filter(|movie: TopRatedMovie| criteria.accepts(movie)),
{
    let prepared = prepare(&criteria);
    let ghost keep = |movie: TopRatedMovie| criteria.accepts(movie);
    let mut kept: Vec<TopRatedMovie> = Vec::new();
    for movie in it: top_movies
        invariant
            prepared.prepares(criteria),
            it.seq() == top_movies@,
            keep == |movie: TopRatedMovie| criteria.accepts(movie),
            kept@ == it.seq().take(it.index() as int).filter(keep),
    {
        proof {
            let i = it.index() as int;
            assert(it.seq().take(i + 1) =~= it.seq().take(i).push(movie));
            it.seq().take(i).lemma_filter_push(movie, keep);
        }
        if accepts_movie(&criteria, &prepared, &movie) {
            kept.push(movie);
        }
    }
    assert(top_movies@.take(top_movies@.len() as int) =~= top_movies@);
    kept
}

/// Whether `other` is compared with `target`: it is another movie, and it
/// carries a vector.
pub open spec fn is_other(target: MovieEmbedding, other: MovieEmbedding) -> bool {
    other.movie_id != target.movie_id && other.embeddings is Some
}

/// The records that are compared with `target`, in the order of the
/// collection.
pub open spec fn others(target: MovieEmbedding, embeddings: Seq<MovieEmbedding>) -> Seq<
    Comparison,
>
    decreases embeddings.len(),
{
    if embeddings.len() == 0 {
        Seq::empty()
    } else {
        let before = others(target, embeddings.drop_last());
        let last = embeddings.last();
        if is_other(target, last) {
            before.push(
                Comparison { movie_id: last.movie_id, index: (embeddings.len() - 1) as usize },
            )
        } else {
            before
        }
    }
}

/// Whether the record at `i` is compared with `target` and its vector does
/// not fit the vector of `target`.
pub open spec fn misfit_at(
    target: MovieEmbedding,
    embeddings: Seq<MovieEmbedding>,
    i: int,
) -> bool {
    &&& 0 <= i < embeddings.len()
    &&& target.embeddings is Some
    &&& is_other(target, embeddings[i])
    &&& !comparable(target.embeddings->0@, embeddings[i].embeddings->0@)
}

/// What comparing `target` with the collection gives: the records to
/// compare it with, or the reason why there are none.
pub open spec fn compared(
    target: MovieEmbedding,
    embeddings: Seq<MovieEmbedding>,
    outcome: Result<Seq<Comparison>, SimilarityError>,
) -> bool {
    match outcome {
        Ok(list) => {
            &&& target.embeddings is Some
            &&& forall|i: int| !misfit_at(target, embeddings, i)
            &&& list == others(target, embeddings)
        },
        Err(SimilarityError::NoEmbedding) => target.embeddings is None,
        Err(SimilarityError::Incomparable { movie_id }) => exists|i: int|
            {
                &&& #[trigger] misfit_at(target, embeddings, i)
                &&& forall|j: int| 0 <= j < i ==> !misfit_at(target, embeddings, j)
                &&& movie_id == embeddings[i].movie_id
            },
        Err(_) => false,
    }
}

/// The view of an outcome: the list as a sequence.
pub open spec fn outcome_view(outcome: Result<Vec<Comparison>, SimilarityError>) -> Result<
    Seq<Comparison>,
    SimilarityError,
> {
    match outcome {
        Ok(list) => Ok(list@),
        Err(e) => Err(e),
    }
}

/// The records to compare `target` with: every record of another movie that
/// carries a vector, in the order of the collection. Fails where `target`
/// has no vector, and where the vector of one of those records does not fit
/// the vector of `target`; the first such record is named.
pub fn compare_with(target: &MovieEmbedding, movie_embeddings: &Vec<MovieEmbedding>) -> (outcome:
    Result<Vec<Comparison>, SimilarityError>)
    ensures
        compared(*target, movie_embeddings@, outcome_view(outcome)),
{
    let vector = match &target.embeddings {
        Some(vector) => vector,
        None => {
            return Err(SimilarityError::NoEmbedding);
        },
    };
    let mut list: Vec<Comparison> = Vec::new();
    let mut i: usize = 0;
    while i < movie_embeddings.len()
        invariant
            i <= movie_embeddings.len(),
            target.embeddings == Some(*vector),
            forall|j: int| 0 <= j < i ==> !misfit_at(*target, movie_embeddings@, j),
            list@ == others(*target, movie_embeddings@.take(i as int)),
        decreases movie_embeddings.len() - i,
    {
        let other = &movie_embeddings[i];
        proof {
            assert(movie_embeddings@.take(i + 1).drop_last() =~= movie_embeddings@.take(i as int));
        }
        if other.movie_id != target.movie_id {
            match &other.embeddings {
                Some(other_vector) => {
                    if !VectorMathHelper::can_compare(
                        vector.as_slice(),
                        other_vector.as_slice(),
                    ) {
                        assert(misfit_at(*target, movie_embeddings@, i as int));
                        return Err(SimilarityError::Incomparable { movie_id: other.movie_id });
                    }
                    list.push(Comparison { movie_id: other.movie_id, index: i });
                },
                None => {},
            }
        }
        i += 1;
    }
    assert(movie_embeddings@.take(i as int) =~= movie_embeddings@);
    Ok(list)
}

/// Whether the record at `i` is the first that carries the id written as
/// `movie_id`.
pub open spec fn first_named(
    movie_id: Seq<char>,
    embeddings: Seq<MovieEmbedding>,
    i: int,
) -> bool {
    &&& 0 <= i < embeddings.len()
    &&& decimal_text(embeddings[i].movie_id as int) == movie_id
    &&& forall|j: int|
        0 <= j < i ==> decimal_text((#[trigger] embeddings[j]).movie_id as int) != movie_id
}

/// The place of the first record that carries the id written as `movie_id`.
pub fn locate(movie_id: &str, movie_embeddings: &Vec<MovieEmbedding>) -> (place: Option<usize>)
    ensures
        match place {
            Some(i) => first_named(movie_id@, movie_embeddings@, i as int),
            None => forall|j: int|
                0 <= j < movie_embeddings.len() ==> decimal_text(
                    (#[trigger] movie_embeddings[j]).movie_id as int,
                ) != movie_id@,
        },
{
    let wanted = chars_of(movie_id);
    let mut i: usize = 0;
    while i < movie_embeddings.len()
        invariant
            i <= movie_embeddings.len(),
            wanted@ == movie_id@,
            forall|j: int|
                0 <= j < i ==> decimal_text((#[trigger] movie_embeddings[j]).movie_id as int)
                    != movie_id@,
        decreases movie_embeddings.len() - i,
    {
        let text = decimal_chars(movie_embeddings[i].movie_id);
        if same_chars(&text, &wanted) {
            return Some(i);
        }
        i += 1;
    }
    None
}

/// The records to compare the movie `movie_id` with: every record of
/// another movie that carries a vector, in the order of the collection.
/// The movie is the first record whose id, written in decimal, is
/// `movie_id`; without such a record the search fails with `NotFound`.
pub fn find_comparisons(movie_id: &str, movie_embeddings: &Vec<MovieEmbedding>) -> (outcome:
    Result<Vec<Comparison>, SimilarityError>)
    ensures
        match outcome {
            Err(SimilarityError::NotFound) => forall|j: int|
                0 <= j < movie_embeddings.len() ==> decimal_text(
                    (#[trigger] movie_embeddings[j]).movie_id as int,
                ) != movie_id@,
            _ => exists|i: int|
                #[trigger] first_named(movie_id@, movie_embeddings@, i) && compared(
                    movie_embeddings[i],
                    movie_embeddings@,
                    outcome_view(outcome),
                ),
        },
{
    match locate(movie_id, movie_embeddings) {
        Some(i) => {
            let outcome = compare_with(&movie_embeddings[i], movie_embeddings);
            assert(first_named(movie_id@, movie_embeddings@, i as int));
            outcome
        },
        None => Err(SimilarityError::NotFound),
    }
}

/// Whether the similarity of `target` to the record that `comparison` names
/// is `score`: none where one of the two vectors is a vector of zeros, and
/// else what `similarity` may give for the two vectors.
pub open spec fn measured<F: Fn(&Vec<Single>, &Vec<Single>) -> Option<Single>>(
    similarity: F,
    target: MovieEmbedding,
    embeddings: Seq<MovieEmbedding>,
    comparison: Comparison,
    score: Option<Single>,
) -> bool {
    &&& 0 <= comparison.index < embeddings.len()
    &&& target.embeddings is Some
    &&& embeddings[comparison.index as int].embeddings is Some
    &&& if all_zero(target.embeddings->0@) || all_zero(
        embeddings[comparison.index as int].embeddings->0@,
    ) {
        score is None
    } else {
        call_ensures(
            similarity,
            (&target.embeddings->0, &embeddings[comparison.index as int].embeddings->0),
            score,
        )
    }
}

/// What scoring a list of comparisons gives: a score for each comparison,
/// in the same order, or the movie of a comparison that has no similarity.
pub open spec fn scored<F: Fn(&Vec<Single>, &Vec<Single>) -> Option<Single>>(
    similarity: F,
    target: MovieEmbedding,
    embeddings: Seq<MovieEmbedding>,
    comparisons: Seq<Comparison>,
    outcome: Result<Seq<CosineSimilarity>, SimilarityError>,
) -> bool {
    match outcome {
        Ok(scores) => {
            &&& scores.len() == comparisons.len()
            &&& forall|k: int|
                0 <= k < comparisons.len() ==> (#[trigger] scores[k]).movie_id
                    == comparisons[k].movie_id && measured(
                    similarity,
                    target,
                    embeddings,
                    comparisons[k],
                    Some(scores[k].similarity),
                )
        },
        Err(SimilarityError::Undefined { movie_id }) => exists|k: int|
            0 <= k < comparisons.len() && (#[trigger] comparisons[k]).movie_id == movie_id
                && measured(similarity, target, embeddings, comparisons[k], None),
        Err(_) => false,
    }
}

/// The view of a list of scores that may have failed.
pub open spec fn scores_view(outcome: Result<Vec<CosineSimilarity>, SimilarityError>) -> Result<
    Seq<CosineSimilarity>,
    SimilarityError,
> {
    match outcome {
        Ok(scores) => Ok(scores@),
        Err(e) => Err(e),
    }
}

/// The similarity of `target` to each of the records that `comparisons`
/// name, in their order, as `similarity` gives it. Fails where a pair has no
/// similarity, because one of its vectors is a vector of zeros or because
/// `similarity` gives none, and names the movie of that pair.
pub fn score_comparisons<F>(
    target: &MovieEmbedding,
    movie_embeddings: &Vec<MovieEmbedding>,
    comparisons: &Vec<Comparison>,
    similarity: F,
) -> (outcome: Result<Vec<CosineSimilarity>, SimilarityError>) where
    F: Fn(&Vec<Single>, &Vec<Single>) -> Option<Single>,

    requires
        measures(similarity),
        compared(*target, movie_embeddings@, Ok(comparisons@)),
    ensures
        scored(similarity, *target, movie_embeddings@, comparisons@, scores_view(outcome)),
{
    proof {
        assert(movie_embeddings@.len() == movie_embeddings.len());
        lemma_compared_vectors_fit(*target, movie_embeddings@, comparisons@);
    }
    let vector = target.embeddings.as_ref().unwrap();
    let mut scores: Vec<CosineSimilarity> = Vec::new();
    let mut k: usize = 0;
    while k < comparisons.len()
        invariant
            k <= comparisons.len(),
            scores.len() == k,
            measures(similarity),
            target.embeddings == Some(*vector),
            forall|j: int|
                0 <= j < comparisons.len() ==> {
                    let other = movie_embeddings[(#[trigger] comparisons[j]).index as int];
                    &&& 0 <= comparisons[j].index < movie_embeddings.len()
                    &&& other.embeddings is Some
                    &&& comparable(target.embeddings->0@, other.embeddings->0@)
                },
            forall|j: int|
                0 <= j < k ==> (#[trigger] scores[j]).movie_id == comparisons[j].movie_id
                    && measured(
                    similarity,
                    *target,
                    movie_embeddings@,
                    comparisons[j],
                    Some(scores[j].similarity),
                ),
        decreases comparisons.len() - k,
    {
        let comparison = comparisons[k];
        let other = movie_embeddings[comparison.index].embeddings.as_ref().unwrap();
        match VectorMathHelper::try_cosine_similarity(vector, other, &similarity) {
            Ok(score) => {
                scores.push(CosineSimilarity { movie_id: comparison.movie_id, similarity: score });
            },
            Err(_) => {
                assert(measured(
                    similarity,
                    *target,
                    movie_embeddings@,
                    comparisons[k as int],
                    None,
                ));
                return Err(SimilarityError::Undefined { movie_id: comparison.movie_id });
            },
        }
        k += 1;
    }
    Ok(scores)
}

/// What `find_similar_movies` gives: a score for every record of another
/// movie that carries a vector, in the order of the collection, or the
/// reason why there are none.
pub open spec fn similar_found<F: Fn(&Vec<Single>, &Vec<Single>) -> Option<Single>>(
    movie_id: Seq<char>,
    embeddings: Seq<MovieEmbedding>,
    similarity: F,
    outcome: Result<Seq<CosineSimilarity>, SimilarityError>,
) -> bool {
    match outcome {
        Err(SimilarityError::NotFound) => forall|j: int|
            0 <= j < embeddings.len() ==> decimal_text((#[trigger] embeddings[j]).movie_id as int)
                != movie_id,
        Err(SimilarityError::NoEmbedding) => exists|i: int|
            #[trigger] first_named(movie_id, embeddings, i) && embeddings[i].embeddings is None,
        Err(SimilarityError::Incomparable { movie_id: other }) => exists|i: int|
            #[trigger] first_named(movie_id, embeddings, i) && compared(
                embeddings[i],
                embeddings,
                Err(SimilarityError::Incomparable { movie_id: other }),
            ),
        _ => exists|i: int|
            #[trigger] first_named(movie_id, embeddings, i) && compared(
                embeddings[i],
                embeddings,
                Ok(others(embeddings[i], embeddings)),
            ) && scored(
                similarity,
                embeddings[i],
                embeddings,
                others(embeddings[i], embeddings),
                outcome,
            ),
    }
}

/// The similarity of the movie `movie_id` to every other movie that carries
/// a vector, in the order of the collection, as `similarity` gives it.
///
/// The movie is the first record whose id, written in decimal, is
/// `movie_id`. The search fails where no record carries that id
/// (`NotFound`), where the record carries no vector (`NoEmbedding`), where
/// the vector of another record is empty or of another length
/// (`Incomparable`), and where a pair has no similarity (`Undefined`): one
/// of its vectors is a vector of zeros, or `similarity` gives none for it.
/// `similarity` is only ever asked of two vectors that can be compared,
/// neither of them a vector of zeros.
pub fn find_similar_movies<F>(
    movie_id: &str,
    movie_embeddings: &Vec<MovieEmbedding>,
    similarity: F,
) -> (outcome: Result<Vec<CosineSimilarity>, SimilarityError>) where
    F: Fn(&Vec<Single>, &Vec<Single>) -> Option<Single>,

    requires
        measures(similarity),
    ensures
        similar_found(movie_id@, movie_embeddings@, similarity, scores_view(outcome)),
{
    let place = match locate(movie_id, movie_embeddings) {
        Some(place) => place,
        None => {
            return Err(SimilarityError::NotFound);
        },
    };
    let target = &movie_embeddings[place];
    assert(first_named(movie_id@, movie_embeddings@, place as int));
    match compare_with(target, movie_embeddings) {
        Ok(comparisons) => score_comparisons(target, movie_embeddings, &comparisons, similarity),
        Err(e) => Err(e),
    }
}

/// Every record that is compared with `target` is a record of another
/// movie that carries a vector, and the records come in the order of the
/// collection.
pub proof fn lemma_others_are_other_movies_with_vectors(
    target: MovieEmbedding,
    embeddings: Seq<MovieEmbedding>,
)
    requires
        embeddings.len() <= usize::MAX,
    ensures
        others(target, embeddings).len() <= embeddings.len(),
        forall|k: int|
            0 <= k < others(target, embeddings).len() ==> {
                let c = #[trigger] others(target, embeddings)[k];
                &&& 0 <= c.index < embeddings.len()
                &&& c.movie_id == embeddings[c.index as int].movie_id
                &&& c.movie_id != target.movie_id
                &&& embeddings[c.index as int].embeddings is Some
            },
        forall|k: int, l: int|
            0 <= k < l < others(target, embeddings).len() ==> others(target, embeddings)[k].index
                < others(target, embeddings)[l].index,
    decreases embeddings.len(),
{
    if embeddings.len() > 0 {
        lemma_others_are_other_movies_with_vectors(target, embeddings.drop_last());
    }
}

/// No record of another movie that carries a vector is left out.
pub proof fn lemma_others_are_complete(
    target: MovieEmbedding,
    embeddings: Seq<MovieEmbedding>,
    i: int,
)
    requires
        embeddings.len() <= usize::MAX,
        0 <= i < embeddings.len(),
        is_other(target, embeddings[i]),
    ensures
        exists|k: int|
            0 <= k < others(target, embeddings).len() && #[trigger] others(
                target,
                embeddings,
            )[k].index == i,
    decreases embeddings.len(),
{
    let list = others(target, embeddings);
    if i == embeddings.len() - 1 {
        assert(list[list.len() - 1].index == i);
    } else {
        lemma_others_are_complete(target, embeddings.drop_last(), i);
        let k = choose|k: int|
            0 <= k < others(target, embeddings.drop_last()).len() && #[trigger] others(
                target,
                embeddings.drop_last(),
            )[k].index == i;
        assert(list[k].index == i);
    }
}

/// Where every record is of another movie and carries a vector, every
/// record is compared.
proof fn lemma_others_of_all_others(target: MovieEmbedding, embeddings: Seq<MovieEmbedding>)
    requires
        forall|i: int| 0 <= i < embeddings.len() ==> is_other(target, #[trigger] embeddings[i]),
    ensures
        others(target, embeddings).len() == embeddings.len(),
    decreases embeddings.len(),
{
    if embeddings.len() > 0 {
        let before = embeddings.drop_last();
        assert forall|i: int| 0 <= i < before.len() implies is_other(
            target,
            #[trigger] before[i],
        ) by {
            assert(before[i] == embeddings[i]);
        }
        lemma_others_of_all_others(target, before);
    }
}

/// In a collection of N records that all carry a vector, a movie whose id
/// stands in one record only is compared with the N - 1 other records, and
/// never with itself.
pub proof fn lemma_every_other_record_is_compared(embeddings: Seq<MovieEmbedding>, t: int)
    requires
        embeddings.len() <= usize::MAX,
        0 <= t < embeddings.len(),
        forall|i: int| 0 <= i < embeddings.len() ==> (#[trigger] embeddings[i]).embeddings is Some,
        forall|i: int|
            0 <= i < embeddings.len() && i != t ==> (#[trigger] embeddings[i]).movie_id
                != embeddings[t].movie_id,
    ensures
        others(embeddings[t], embeddings).len() == embeddings.len() - 1,
        forall|k: int|
            0 <= k < others(embeddings[t], embeddings).len() ==> (#[trigger] others(
                embeddings[t],
                embeddings,
            )[k]).movie_id != embeddings[t].movie_id,
{
    let target = embeddings[t];
    lemma_others_are_other_movies_with_vectors(target, embeddings);
    lemma_count_without_target(target, embeddings, t);
}

/// The count behind `lemma_every_other_record_is_compared`, for a target
/// that need not be the record at `t` itself.
proof fn lemma_count_without_target(
    target: MovieEmbedding,
    embeddings: Seq<MovieEmbedding>,
    t: int,
)
    requires
        0 <= t < embeddings.len(),
        embeddings[t].movie_id == target.movie_id,
        forall|i: int| 0 <= i < embeddings.len() ==> (#[trigger] embeddings[i]).embeddings is Some,
        forall|i: int|
            0 <= i < embeddings.len() && i != t ==> (#[trigger] embeddings[i]).movie_id
                != target.movie_id,
    ensures
        others(target, embeddings).len() == embeddings.len() - 1,
    decreases embeddings.len(),
{
    let before = embeddings.drop_last();
    if t == embeddings.len() - 1 {
        assert forall|i: int| 0 <= i < before.len() implies is_other(
            target,
            #[trigger] before[i],
        ) by {
            assert(before[i] == embeddings[i]);
        }
        lemma_others_of_all_others(target, before);
    } else {
        assert forall|i: int| 0 <= i < before.len() implies (#[trigger] before[i]).embeddings
            is Some by {
            assert(before[i] == embeddings[i]);
        }
        assert forall|i: int| 0 <= i < before.len() && i != t implies (
        #[trigger] before[i]).movie_id != target.movie_id by {
            assert(before[i] == embeddings[i]);
        }
        assert(before[t] == embeddings[t]);
        lemma_count_without_target(target, before, t);
        assert(is_other(target, embeddings.last()));
    }
}

/// The record that a search finds is a record of the movie that was asked
/// for: where `movie_id` is the decimal form of `id`, the first record that
/// carries that text is the first record whose id is `id`.
pub proof fn lemma_first_named_is_first_with_id(
    id: i32,
    embeddings: Seq<MovieEmbedding>,
    i: int,
)
    requires
        first_named(decimal_text(id as int), embeddings, i),
    ensures
        embeddings[i].movie_id == id,
        forall|j: int| 0 <= j < i ==> (#[trigger] embeddings[j]).movie_id != id,
{
    lemma_decimal_text_is_injective(embeddings[i].movie_id as int, id as int);
}

/// In a collection of N records that all carry a vector, a search for a
/// movie whose id stands in one record only gives N - 1 scores, none of
/// them for the movie itself.
pub proof fn lemma_every_other_movie_is_scored<F: Fn(&Vec<Single>, &Vec<Single>) -> Option<Single>>(
    id: i32,
    embeddings: Seq<MovieEmbedding>,
    similarity: F,
    scores: Seq<CosineSimilarity>,
    t: int,
)
    requires
        embeddings.len() <= usize::MAX,
        0 <= t < embeddings.len(),
        embeddings[t].movie_id == id,
        forall|i: int|
            0 <= i < embeddings.len() && i != t ==> (#[trigger] embeddings[i]).movie_id != id,
        forall|i: int| 0 <= i < embeddings.len() ==> (#[trigger] embeddings[i]).embeddings is Some,
        similar_found(decimal_text(id as int), embeddings, similarity, Ok(scores)),
    ensures
        scores.len() == embeddings.len() - 1,
        forall|k: int| 0 <= k < scores.len() ==> (#[trigger] scores[k]).movie_id != id,
{
    let movie_id = decimal_text(id as int);
    let i = choose|i: int|
        #[trigger] first_named(movie_id, embeddings, i) && scored(
            similarity,
            embeddings[i],
            embeddings,
            others(embeddings[i], embeddings),
            Ok(scores),
        );
    lemma_first_named_is_first_with_id(id, embeddings, i);
    assert(i == t);
    lemma_every_other_record_is_compared(embeddings, t);
}

/// A vector of zeros is never scored: where a list of comparisons is scored
/// without failure, neither the vector of the movie nor the vector of any
/// compared record is a vector of zeros.
pub proof fn lemma_vectors_of_zeros_are_not_scored<
    F: Fn(&Vec<Single>, &Vec<Single>) -> Option<Single>,
>(
    similarity: F,
    target: MovieEmbedding,
    embeddings: Seq<MovieEmbedding>,
    comparisons: Seq<Comparison>,
    scores: Seq<CosineSimilarity>,
)
    requires
        scored(similarity, target, embeddings, comparisons, Ok(scores)),
    ensures
        forall|k: int|
            0 <= k < comparisons.len() ==> !all_zero(target.embeddings->0@) && !all_zero(
                embeddings[(#[trigger] comparisons[k]).index as int].embeddings->0@,
            ),
{
    assert forall|k: int| 0 <= k < comparisons.len() implies !all_zero(target.embeddings->0@)
        && !all_zero(embeddings[(#[trigger] comparisons[k]).index as int].embeddings->0@) by {
        assert(measured(
            similarity,
            target,
            embeddings,
            comparisons[k],
            Some(scores[k].similarity),
        ));
    }
}

/// A movie without a vector is never scored: no score of a search is for a
/// movie whose records all lack a vector.
pub proof fn lemma_movies_without_vectors_are_not_scored<
    F: Fn(&Vec<Single>, &Vec<Single>) -> Option<Single>,
>(
    movie_id: Seq<char>,
    embeddings: Seq<MovieEmbedding>,
    similarity: F,
    scores: Seq<CosineSimilarity>,
    absent: i32,
)
    requires
        embeddings.len() <= usize::MAX,
        similar_found(movie_id, embeddings, similarity, Ok(scores)),
        forall|i: int|
            0 <= i < embeddings.len() && (#[trigger] embeddings[i]).movie_id == absent
                ==> embeddings[i].embeddings is None,
    ensures
        forall|k: int| 0 <= k < scores.len() ==> (#[trigger] scores[k]).movie_id != absent,
{
    let i = choose|i: int|
        #[trigger] first_named(movie_id, embeddings, i) && scored(
            similarity,
            embeddings[i],
            embeddings,
            others(embeddings[i], embeddings),
            Ok(scores),
        );
    let list = others(embeddings[i], embeddings);
    lemma_others_are_other_movies_with_vectors(embeddings[i], embeddings);
    assert forall|k: int| 0 <= k < scores.len() implies (#[trigger] scores[k]).movie_id
        != absent by {
        assert(scores[k].movie_id == list[k].movie_id);
        assert(embeddings[list[k].index as int].embeddings is Some);
    }
}

/// A similarity is only ever asked for of two vectors that can be compared:
/// where the search succeeds, the vector of every record that it hands out
/// is filled and as long as the vector of the movie.
pub proof fn lemma_compared_vectors_fit(
    target: MovieEmbedding,
    embeddings: Seq<MovieEmbedding>,
    list: Seq<Comparison>,
)
    requires
        embeddings.len() <= usize::MAX,
        compared(target, embeddings, Ok(list)),
    ensures
        target.embeddings is Some,
        forall|k: int|
            0 <= k < list.len() ==> {
                let other = embeddings[(#[trigger] list[k]).index as int];
                &&& 0 <= list[k].index < embeddings.len()
                &&& other.embeddings is Some
                &&& comparable(target.embeddings->0@, other.embeddings->0@)
            },
{
    lemma_others_are_other_movies_with_vectors(target, embeddings);
    assert forall|k: int| 0 <= k < list.len() implies {
        let other = embeddings[(#[trigger] list[k]).index as int];
        &&& 0 <= list[k].index < embeddings.len()
        &&& other.embeddings is Some
        &&& comparable(target.embeddings->0@, other.embeddings->0@)
    } by {
        let c = others(target, embeddings)[k];
        assert(!misfit_at(target, embeddings, c.index as int));
    }
}

/// The catalog after the six constraints were applied one after the other,
/// each to what the one before it left.
pub open spec fn filtered_in_stages(criteria: MovieCriteria, movies: Seq<TopRatedMovie>) -> Seq<
    TopRatedMovie,
> {
    movies.filter(|m: TopRatedMovie| criteria.accepts_genre(m)).filter(
        |m: TopRatedMovie| criteria.accepts_mpaa(m),
    ).filter(|m: TopRatedMovie| criteria.accepts_release_date_min(m)).filter(
        |m: TopRatedMovie| criteria.accepts_release_date_max(m),
    ).filter(|m: TopRatedMovie| criteria.accepts_score_min(m)).filter(
        |m: TopRatedMovie| criteria.accepts_score_max(m),
    )
}

/// Filtering twice keeps what meets both conditions.
proof fn lemma_filter_twice(
    movies: Seq<TopRatedMovie>,
    first: spec_fn(TopRatedMovie) -> bool,
    second: spec_fn(TopRatedMovie) -> bool,
    both: spec_fn(TopRatedMovie) -> bool,
)
    requires
        forall|m: TopRatedMovie| #[trigger] both(m) == (first(m) && second(m)),
    ensures
        movies.filter(first).filter(second) == movies.filter(both),
    decreases movies.len(),
{
    if movies.len() > 0 {
        let before = movies.drop_last();
        lemma_filter_twice(before, first, second, both);
        assert(before.push(movies.last()) =~= movies);
        before.lemma_filter_push(movies.last(), first);
        before.lemma_filter_push(movies.last(), both);
        if first(movies.last()) {
            before.filter(first).lemma_filter_push(movies.last(), second);
        }
    }
}

/// Applying the constraints in their order, each to what the one before it
/// left, keeps the movies that meet all of them.
pub proof fn lemma_stages_keep_what_meets_all(criteria: MovieCriteria, movies: Seq<TopRatedMovie>)
    ensures
        filtered_in_stages(criteria, movies) == movies.filter(
            |m: TopRatedMovie| criteria.accepts(m),
        ),
{
    let by_genre = |m: TopRatedMovie| criteria.accepts_genre(m);
    let by_mpaa = |m: TopRatedMovie| criteria.accepts_mpaa(m);
    let by_release_min = |m: TopRatedMovie| criteria.accepts_release_date_min(m);
    let by_release_max = |m: TopRatedMovie| criteria.accepts_release_date_max(m);
    let by_score_min = |m: TopRatedMovie| criteria.accepts_score_min(m);
    let by_score_max = |m: TopRatedMovie| criteria.accepts_score_max(m);
    let first_two = |m: TopRatedMovie| by_genre(m) && by_mpaa(m);
    let first_three = |m: TopRatedMovie| first_two(m) && by_release_min(m);
    let first_four = |m: TopRatedMovie| first_three(m) && by_release_max(m);
    let first_five = |m: TopRatedMovie| first_four(m) && by_score_min(m);
    let all = |m: TopRatedMovie| criteria.accepts(m);
    lemma_filter_twice(movies, by_genre, by_mpaa, first_two);
    lemma_filter_twice(movies, first_two, by_release_min, first_three);
    lemma_filter_twice(movies, first_three, by_release_max, first_four);
    lemma_filter_twice(movies, first_four, by_score_min, first_five);
    lemma_filter_twice(movies, first_five, by_score_max, all);
}

/// Where every movie is accepted, the filter returns the catalog as it came.
proof fn lemma_filter_keeps_all(movies: Seq<TopRatedMovie>, keep: spec_fn(TopRatedMovie) -> bool)
    requires
        forall|i: int| 0 <= i < movies.len() ==> keep(#[trigger] movies[i]),
    ensures
        movies.filter(keep) == movies,
    decreases movies.len(),
{
    if movies.len() > 0 {
        let before = movies.drop_last();
        assert forall|i: int| 0 <= i < before.len() implies keep(#[trigger] before[i]) by {
            assert(before[i] == movies[i]);
        }
        lemma_filter_keeps_all(before, keep);
        assert(before.push(movies.last()) =~= movies);
        before.lemma_filter_push(movies.last(), keep);
    }
}

/// Criteria without a constraint return the catalog unchanged, in its order.
pub proof fn lemma_no_constraint_keeps_all(criteria: MovieCriteria, movies: Seq<TopRatedMovie>)
    requires
        criteria.genre is None,
        criteria.mpaa is None,
        criteria.release_date_min is None,
        criteria.release_date_max is None,
        criteria.score_min is None,
        criteria.score_max is None,
    ensures
        movies.filter(|m: TopRatedMovie| criteria.accepts(m)) == movies,
{
    lemma_filter_keeps_all(movies, |m: TopRatedMovie| criteria.accepts(m));
}

/// A movie whose release date spells no day is dropped as soon as a date
/// bound is set. Without a date bound its date plays no part: the movie is
/// kept where it meets the constraints on genre, rating and score.
pub proof fn lemma_unreadable_release_date(
    criteria: MovieCriteria,
    movies: Seq<TopRatedMovie>,
    movie: TopRatedMovie,
)
    requires
        calendar_date(movie.release_date@) is None,
    ensures
        criteria.release_date_min is Some || criteria.release_date_max is Some
            ==> !criteria.accepts(movie) && !movies.filter(
            |m: TopRatedMovie| criteria.accepts(m),
        ).contains(movie),
        criteria.release_date_min is None && criteria.release_date_max is None ==> (
        criteria.accepts(movie) <==> criteria.accepts_genre(movie) && criteria.accepts_mpaa(movie)
            && criteria.accepts_score_min(movie) && criteria.accepts_score_max(movie)),
{
    let keep = |m: TopRatedMovie| criteria.accepts(m);
    if movies.filter(keep).contains(movie) {
        let kept = movies.filter(keep);
        let i = choose|i: int| 0 <= i < kept.len() && kept[i] == movie;
        movies.lemma_filter_pred(keep, i);
    }
}

} // verus!
