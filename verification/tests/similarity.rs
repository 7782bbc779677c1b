use movie_engine::api::movies::{find_movie, most_similar_movies, resolve, similar_movies};
use movie_engine::model::cache::Cache;
use movie_engine::model::cosine_similarity::{Comparison, CosineSimilarity, SimilarityError};
use movie_engine::model::missing_field::MissingField;
use movie_engine::model::movies::movie::TopRatedMovie;
use movie_engine::model::movies::movie_embedding::MovieEmbedding;
use movie_engine::model::scalar::{Double, Single};
use movie_engine::util::movie_helper::{
    compare_with, find_comparisons, find_similar_movies, locate, score_comparisons,
};
use movie_engine::util::ranking::{find_place, rank_similarities, rank_top, TOP_K};
use movie_engine::util::vector_math_helper::{VectorError, VectorMathHelper};

fn single(x: f32) -> Single {
    Single::from_bits(x.to_bits())
}

fn vector(values: &[f32]) -> Vec<Single> {
    values.iter().map(|x| single(*x)).collect()
}

fn record(movie_id: i32, values: Option<&[f32]>) -> MovieEmbedding {
    MovieEmbedding { movie_id, embeddings: values.map(vector) }
}

fn pair(movie_id: i32, similarity: f32) -> CosineSimilarity {
    CosineSimilarity { movie_id, similarity: single(similarity) }
}

fn movie(id: i32) -> TopRatedMovie {
    TopRatedMovie {
        backdrop_path: String::new(),
        id,
        title: format!("movie {}", id),
        poster_path: String::new(),
        release_date: "2020-01-01".to_string(),
        vote_average: Double::from_bits(0),
        vote_count: 0,
        popularity: Double::from_bits(0),
        overview: None,
        imdb_id: None,
        budget: None,
        homepage: None,
        revenue: None,
        runtime: 90,
        tagline: None,
        genres: Vec::new(),
        cast: None,
        keywords: None,
        mpaa: "R".to_string(),
        summaries: None,
        synopsis: None,
        imdb_score: Double::from_bits(0),
    }
}

fn cosine(a: &Vec<Single>, b: &Vec<Single>) -> Option<Single> {
    let mut dot = 0.0f32;
    let mut norm_a = 0.0f32;
    let mut norm_b = 0.0f32;
    for i in 0..a.len() {
        let x = f32::from_bits(a[i].to_bits());
        let y = f32::from_bits(b[i].to_bits());
        dot += x * y;
        norm_a += x * x;
        norm_b += y * y;
    }
    let norm_a = norm_a.sqrt();
    let norm_b = norm_b.sqrt();
    if norm_a == 0.0 || norm_b == 0.0 {
        None
    } else {
        Some(single(dot / (norm_a * norm_b)))
    }
}

fn numbers(list: &[CosineSimilarity]) -> Vec<(i32, f32)> {
    list.iter().map(|p| (p.movie_id, f32::from_bits(p.similarity.to_bits()))).collect()
}

fn ids(list: &[CosineSimilarity]) -> Vec<i32> {
    list.iter().map(|p| p.movie_id).collect()
}

#[test]
fn every_other_record_is_compared() {
    let embeddings = vec![
        record(10, Some(&[1.0, 0.0])),
        record(20, Some(&[0.0, 1.0])),
        record(30, Some(&[1.0, 1.0])),
        record(40, Some(&[-1.0, 2.0])),
    ];
    let found = find_comparisons("30", &embeddings).unwrap();
    assert_eq!(
        found,
        vec![
            Comparison { movie_id: 10, index: 0 },
            Comparison { movie_id: 20, index: 1 },
            Comparison { movie_id: 40, index: 3 },
        ]
    );
    assert_eq!(found.len(), embeddings.len() - 1);
    assert!(found.iter().all(|c| c.movie_id != 30));
}

#[test]
fn records_without_a_vector_are_passed_over() {
    let embeddings = vec![
        record(1, None),
        record(2, Some(&[0.5, 0.5, 0.5])),
        record(3, None),
        record(4, Some(&[1.0, 2.0, 3.0])),
        record(5, Some(&[3.0, 2.0, 1.0])),
    ];
    let found = find_comparisons("4", &embeddings).unwrap();
    assert_eq!(found, vec![Comparison { movie_id: 2, index: 1 }, Comparison { movie_id: 5, index: 4 }]);
}

#[test]
fn a_movie_alone_has_nothing_to_be_compared_with() {
    let embeddings = vec![record(7, Some(&[1.0]))];
    assert_eq!(find_comparisons("7", &embeddings), Ok(Vec::new()));
}

#[test]
fn an_unknown_movie_is_not_found() {
    let embeddings = vec![record(1, Some(&[1.0])), record(2, Some(&[2.0]))];
    assert_eq!(find_comparisons("3", &embeddings), Err(SimilarityError::NotFound));
    assert_eq!(find_comparisons("", &embeddings), Err(SimilarityError::NotFound));
    assert_eq!(find_comparisons("01", &embeddings), Err(SimilarityError::NotFound));
    assert_eq!(find_comparisons("+1", &embeddings), Err(SimilarityError::NotFound));
    assert_eq!(find_comparisons("1", &Vec::new()), Err(SimilarityError::NotFound));
}

#[test]
fn ids_are_matched_by_their_decimal_form() {
    let embeddings = vec![record(-12, Some(&[1.0])), record(0, Some(&[2.0])), record(2147483647, Some(&[3.0]))];
    assert_eq!(locate("-12", &embeddings), Some(0));
    assert_eq!(locate("0", &embeddings), Some(1));
    assert_eq!(locate("2147483647", &embeddings), Some(2));
    assert_eq!(locate("12", &embeddings), None);
    assert_eq!(locate("-0", &embeddings), None);
}

#[test]
fn a_movie_without_a_vector_has_no_embedding() {
    let embeddings = vec![record(1, None), record(2, Some(&[2.0]))];
    assert_eq!(find_comparisons("1", &embeddings), Err(SimilarityError::NoEmbedding));
}

#[test]
fn the_first_record_with_the_id_is_the_movie() {
    let embeddings = vec![record(1, None), record(1, Some(&[2.0])), record(2, Some(&[2.0]))];
    assert_eq!(find_comparisons("1", &embeddings), Err(SimilarityError::NoEmbedding));
    let twice = vec![record(1, Some(&[1.0])), record(2, Some(&[2.0])), record(1, Some(&[3.0]))];
    assert_eq!(find_comparisons("1", &twice), Ok(vec![Comparison { movie_id: 2, index: 1 }]));
}

#[test]
fn vectors_of_other_lengths_cannot_be_compared() {
    let embeddings = vec![
        record(1, Some(&[1.0, 2.0])),
        record(2, Some(&[1.0, 2.0])),
        record(3, Some(&[1.0])),
        record(4, Some(&[])),
    ];
    assert_eq!(find_comparisons("1", &embeddings), Err(SimilarityError::Incomparable { movie_id: 3 }));
    assert_eq!(compare_with(&embeddings[3], &embeddings), Err(SimilarityError::Incomparable { movie_id: 1 }));
    assert_eq!(compare_with(&record(4, Some(&[])), &vec![record(4, Some(&[]))]), Ok(Vec::new()));
}

#[test]
fn vectors_are_valid_when_both_are_filled_and_equally_long() {
    assert_eq!(VectorMathHelper::check_vectors(&vector(&[1.0, 2.0]), &vector(&[0.0, 0.0])), Ok(()));
    assert_eq!(VectorMathHelper::check_vectors(&vector(&[1.0, 2.0]), &vector(&[1.0])), Err(VectorError::LengthMismatch));
    assert_eq!(VectorMathHelper::check_vectors(&vector(&[]), &vector(&[1.0])), Err(VectorError::Empty));
    assert_eq!(VectorMathHelper::check_vectors(&vector(&[1.0]), &vector(&[])), Err(VectorError::Empty));
    assert_eq!(VectorMathHelper::check_vectors(&vector(&[]), &vector(&[])), Err(VectorError::Empty));
    assert!(VectorMathHelper::can_compare(&vector(&[1.0, 2.0]), &vector(&[0.0, 0.0])));
    assert!(VectorMathHelper::can_compare(&vector(&[f32::NAN]), &vector(&[f32::INFINITY])));
    assert!(!VectorMathHelper::can_compare(&vector(&[1.0, 2.0]), &vector(&[1.0])));
    assert!(!VectorMathHelper::can_compare(&vector(&[]), &vector(&[1.0])));
    assert!(!VectorMathHelper::can_compare(&vector(&[1.0]), &vector(&[])));
    assert!(!VectorMathHelper::can_compare(&vector(&[]), &vector(&[])));
    VectorMathHelper::validate_vectors(&vector(&[1.0, 2.0]), &vector(&[3.0, 4.0]));
}

#[test]
fn a_vector_of_zeros_is_told_by_its_bits() {
    assert!(VectorMathHelper::is_zero_vector(&vector(&[0.0])));
    assert!(VectorMathHelper::is_zero_vector(&vector(&[0.0, -0.0, 0.0])));
    assert!(VectorMathHelper::is_zero_vector(&vector(&[])));
    assert!(!VectorMathHelper::is_zero_vector(&vector(&[0.0, 1.0e-45, 0.0])));
    assert!(!VectorMathHelper::is_zero_vector(&vector(&[-1.0])));
    assert!(!VectorMathHelper::is_zero_vector(&vector(&[0.0, f32::NAN])));
}

#[test]
fn vectors_that_cannot_be_compared_have_no_similarity() {
    let never = |_: &Vec<Single>, _: &Vec<Single>| -> Option<Single> { panic!("measured although the vectors do not fit") };
    assert_eq!(VectorMathHelper::try_cosine_similarity(&vector(&[1.0, 2.0]), &vector(&[1.0]), &never), Err(VectorError::LengthMismatch));
    assert_eq!(VectorMathHelper::try_cosine_similarity(&vector(&[0.0, 0.0]), &vector(&[0.0]), &never), Err(VectorError::LengthMismatch));
    assert_eq!(VectorMathHelper::try_cosine_similarity(&vector(&[]), &vector(&[1.0]), &never), Err(VectorError::Empty));
    assert_eq!(VectorMathHelper::try_cosine_similarity(&vector(&[]), &vector(&[]), &never), Err(VectorError::Empty));
}

#[test]
fn a_vector_of_zeros_has_no_similarity() {
    let never = |_: &Vec<Single>, _: &Vec<Single>| -> Option<Single> { panic!("measured although a vector has no direction") };
    assert_eq!(VectorMathHelper::try_cosine_similarity(&vector(&[0.0, 0.0]), &vector(&[1.0, 2.0]), &never), Err(VectorError::ZeroVector));
    assert_eq!(VectorMathHelper::try_cosine_similarity(&vector(&[1.0, 2.0]), &vector(&[0.0, -0.0]), &never), Err(VectorError::ZeroVector));
    assert_eq!(VectorMathHelper::try_cosine_similarity(&vector(&[0.0]), &vector(&[1.0]), &never), Err(VectorError::ZeroVector));
    assert_eq!(VectorMathHelper::try_cosine_similarity(&vector(&[-0.0]), &vector(&[0.0]), &never), Err(VectorError::ZeroVector));
}

#[test]
fn a_length_that_comes_out_as_zero_gives_no_similarity() {
    let tiny = vector(&[1.0e-30, 1.0e-30]);
    let plain = vector(&[1.0, 2.0]);
    assert_eq!(VectorMathHelper::cosine_similarity(&tiny, &plain, &cosine), Err(VectorError::ZeroVector));
    assert_eq!(VectorMathHelper::try_cosine_similarity(&plain, &tiny, &cosine), Err(VectorError::ZeroVector));
}

#[test]
fn the_similarity_is_what_the_arithmetic_gives() {
    let fixed = |_: &Vec<Single>, b: &Vec<Single>| Some(b[0]);
    assert_eq!(VectorMathHelper::cosine_similarity(&vector(&[1.0]), &vector(&[0.25]), &fixed), Ok(single(0.25)));
    assert_eq!(VectorMathHelper::try_cosine_similarity(&vector(&[1.0, 0.0]), &vector(&[0.5, 0.0]), &fixed), Ok(single(0.5)));
    let none = |_: &Vec<Single>, _: &Vec<Single>| -> Option<Single> { None };
    assert_eq!(VectorMathHelper::cosine_similarity(&vector(&[1.0]), &vector(&[2.0]), &none), Err(VectorError::ZeroVector));
}

#[test]
fn a_vector_is_as_similar_to_itself_as_can_be() {
    for values in [vec![1.0f32], vec![3.0, 4.0], vec![-2.0, 0.5, 8.0], vec![1.0e-3, 2.0e3, -7.0, 0.25]] {
        let a = vector(&values);
        let same = VectorMathHelper::cosine_similarity(&a, &a, &cosine).unwrap();
        assert!((f32::from_bits(same.to_bits()) - 1.0).abs() < 1.0e-6);
    }
    let a = vector(&[1.0, 2.0, 3.0]);
    let b = vector(&[-4.0, 0.5, 6.0]);
    assert_eq!(VectorMathHelper::cosine_similarity(&a, &b, &cosine), VectorMathHelper::cosine_similarity(&b, &a, &cosine));
    assert_eq!(VectorMathHelper::cosine_similarity(&vector(&[3.0, 4.0]), &vector(&[4.0, 3.0]), &cosine), Ok(single(24.0 / 25.0)));
}

#[test]
fn ranking_puts_the_highest_score_first() {
    let scores = vec![pair(1, 0.25), pair(2, 0.9), pair(3, -0.5), pair(4, 0.5), pair(5, 1.0)];
    assert_eq!(ids(&rank_similarities(&scores).unwrap()), vec![5, 2, 4, 1, 3]);
    assert_eq!(rank_similarities(&Vec::new()), Ok(Vec::new()));
}

#[test]
fn equal_scores_keep_their_order() {
    let scores = vec![pair(1, 0.5), pair(2, 0.75), pair(3, 0.5), pair(4, 0.75), pair(5, 0.5), pair(6, 0.0), pair(7, -0.0)];
    assert_eq!(ids(&rank_similarities(&scores).unwrap()), vec![2, 4, 1, 3, 5, 6, 7]);
}

#[test]
fn ranking_agrees_with_a_stable_sort_of_the_numbers() {
    let values: [f32; 12] = [0.1, -0.3, 0.99, 0.1, 1.0e-40, -1.0e-40, 0.0, 0.5, -0.0, 0.99, -1.0, f32::INFINITY];
    let scores: Vec<CosineSimilarity> = values.iter().enumerate().map(|(i, x)| pair(i as i32, *x)).collect();
    let mut expected: Vec<(i32, f32)> = values.iter().enumerate().map(|(i, x)| (i as i32, *x)).collect();
    expected.sort_by(|a, b| b.1.partial_cmp(&a.1).unwrap());
    let expected_ids: Vec<i32> = expected.iter().map(|p| p.0).collect();
    assert_eq!(ids(&rank_similarities(&scores).unwrap()), expected_ids);
}

#[test]
fn a_score_that_is_not_a_number_has_no_rank() {
    let scores = vec![pair(1, 0.5), pair(2, f32::NAN), pair(3, f32::NAN)];
    assert_eq!(rank_similarities(&scores), Err(SimilarityError::Unordered { movie_id: 2 }));
    assert_eq!(rank_top(&scores), Err(SimilarityError::Unordered { movie_id: 2 }));
    assert_eq!(rank_similarities(&vec![pair(9, -f32::NAN)]), Err(SimilarityError::Unordered { movie_id: 9 }));
}

#[test]
fn find_place_counts_the_scores_that_are_at_least_as_high() {
    let list = vec![pair(1, 0.9), pair(2, 0.5), pair(3, 0.5), pair(4, 0.1)];
    assert_eq!(find_place(&list, &pair(9, 1.0)), 0);
    assert_eq!(find_place(&list, &pair(9, 0.9)), 1);
    assert_eq!(find_place(&list, &pair(9, 0.5)), 3);
    assert_eq!(find_place(&list, &pair(9, 0.2)), 3);
    assert_eq!(find_place(&list, &pair(9, 0.0)), 4);
    assert_eq!(find_place(&Vec::new(), &pair(9, 0.0)), 0);
}

#[test]
fn the_top_of_the_ranking_holds_ten_scores() {
    assert_eq!(TOP_K, 10);
    let scores: Vec<CosineSimilarity> = (0..15).map(|i| pair(i, (i % 5) as f32 / 10.0)).collect();
    assert_eq!(ids(&rank_top(&scores).unwrap()), vec![4, 9, 14, 3, 8, 13, 2, 7, 12, 1]);
    let few: Vec<CosineSimilarity> = (0..3).map(|i| pair(i, i as f32)).collect();
    assert_eq!(ids(&rank_top(&few).unwrap()), vec![2, 1, 0]);
}

#[test]
fn similar_movies_are_resolved_from_the_catalog() {
    let catalog: Vec<TopRatedMovie> = (1..=12).map(movie).collect();
    let scores: Vec<CosineSimilarity> = (1..=12).map(|i| pair(i, i as f32 / 12.0)).collect();
    let found = most_similar_movies(&scores, &catalog).unwrap();
    let found_ids: Vec<i32> = found.iter().map(|m| m.id).collect();
    assert_eq!(found_ids, vec![12, 11, 10, 9, 8, 7, 6, 5, 4, 3]);
    assert_eq!(found[0].title, "movie 12");
}

#[test]
fn no_scores_give_no_similar_movies() {
    let catalog: Vec<TopRatedMovie> = (1..=3).map(movie).collect();
    assert_eq!(most_similar_movies(&Vec::new(), &catalog).err(), Some(SimilarityError::NoSimilarMovies));
}

#[test]
fn a_ranked_movie_that_the_catalog_lacks_fails_loudly() {
    let catalog: Vec<TopRatedMovie> = vec![movie(1), movie(3)];
    let scores = vec![pair(1, 0.5), pair(2, 0.9), pair(4, 0.1), pair(3, 0.3)];
    assert_eq!(most_similar_movies(&scores, &catalog).err(), Some(SimilarityError::Inconsistent { movie_id: 2 }));
    assert_eq!(resolve(&vec![pair(3, 0.3), pair(4, 0.1), pair(2, 0.9)], &catalog).err(), Some(SimilarityError::Inconsistent { movie_id: 4 }));
    assert_eq!(most_similar_movies(&vec![pair(1, f32::NAN), pair(2, 0.1)], &catalog).err(), Some(SimilarityError::Unordered { movie_id: 1 }));
}

#[test]
fn a_movie_outside_the_top_ten_need_not_be_in_the_catalog() {
    let catalog: Vec<TopRatedMovie> = (1..=10).map(movie).collect();
    let mut scores: Vec<CosineSimilarity> = (1..=10).map(|i| pair(i, 0.5)).collect();
    scores.push(pair(99, 0.1));
    assert_eq!(most_similar_movies(&scores, &catalog).unwrap().len(), 10);
}

#[test]
fn find_movie_takes_the_first_record_with_the_id() {
    let mut first = movie(5);
    first.title = "first".to_string();
    let mut second = movie(5);
    second.title = "second".to_string();
    let catalog = vec![movie(1), first, second];
    assert_eq!(find_movie(&catalog, 5).map(|m| m.title.clone()), Some("first".to_string()));
    assert!(find_movie(&catalog, 2).is_none());
    assert!(find_movie(&Vec::new(), 1).is_none());
}

#[test]
fn an_embedding_needs_the_id_of_its_movie() {
    let built = MovieEmbedding::builder().movie_id(3).embeddings(vector(&[1.0, 2.0])).build().unwrap();
    assert_eq!(built.movie_id, 3);
    assert_eq!(built.embeddings, Some(vector(&[1.0, 2.0])));
    let bare = MovieEmbedding::builder().movie_id(4).build().unwrap();
    assert_eq!(bare.embeddings, None);
    assert_eq!(MovieEmbedding::builder().embeddings(vector(&[1.0])).build().err(), Some(MissingField::MovieId));
}

#[test]
fn every_other_movie_is_scored() {
    let embeddings = vec![
        record(10, Some(&[1.0, 0.0])),
        record(20, Some(&[0.0, 2.0])),
        record(30, Some(&[3.0, 0.0])),
        record(40, Some(&[-1.0, 0.0])),
        record(50, Some(&[3.0, 4.0])),
    ];
    let found = find_similar_movies("30", &embeddings, cosine).unwrap();
    assert_eq!(numbers(&found), vec![(10, 1.0), (20, 0.0), (40, -1.0), (50, 0.6)]);
    assert_eq!(found.len(), embeddings.len() - 1);
    assert!(found.iter().all(|p| p.movie_id != 30));
}

#[test]
fn movies_without_a_vector_are_not_scored() {
    let embeddings = vec![
        record(1, None),
        record(2, Some(&[1.0, 1.0])),
        record(3, None),
        record(4, Some(&[2.0, 2.0])),
    ];
    let found = find_similar_movies("2", &embeddings, cosine).unwrap();
    assert_eq!(ids(&found), vec![4]);
    assert!((f32::from_bits(found[0].similarity.to_bits()) - 1.0).abs() < 1.0e-6);
}

#[test]
fn a_search_fails_before_anything_is_measured() {
    let never = |_: &Vec<Single>, _: &Vec<Single>| -> Option<Single> { panic!("measured although the search fails") };
    let embeddings = vec![record(1, None), record(2, Some(&[1.0, 1.0])), record(3, Some(&[1.0]))];
    assert_eq!(find_similar_movies("9", &embeddings, never), Err(SimilarityError::NotFound));
    assert_eq!(find_similar_movies("1", &embeddings, never), Err(SimilarityError::NoEmbedding));
    assert_eq!(find_similar_movies("2", &embeddings, never), Err(SimilarityError::Incomparable { movie_id: 3 }));
    assert_eq!(find_similar_movies("3", &embeddings, never), Err(SimilarityError::Incomparable { movie_id: 2 }));
}

#[test]
fn a_record_of_zeros_fails_the_search_whatever_the_arithmetic() {
    let always = |_: &Vec<Single>, _: &Vec<Single>| Some(single(1.0));
    let embeddings = vec![record(1, Some(&[1.0, 1.0])), record(2, Some(&[3.0, 1.0])), record(3, Some(&[0.0, -0.0]))];
    assert_eq!(find_similar_movies("1", &embeddings, always), Err(SimilarityError::Undefined { movie_id: 3 }));
    assert_eq!(find_similar_movies("3", &embeddings, always), Err(SimilarityError::Undefined { movie_id: 1 }));
    assert_eq!(find_similar_movies("1", &embeddings[..2].to_vec(), always), Ok(vec![pair(2, 1.0)]));
}

#[test]
fn a_vector_without_direction_has_no_similarity() {
    let embeddings = vec![record(1, Some(&[1.0, 1.0])), record(2, Some(&[0.0, 0.0])), record(3, Some(&[1.0, 2.0]))];
    assert_eq!(find_similar_movies("1", &embeddings, cosine), Err(SimilarityError::Undefined { movie_id: 2 }));
    assert_eq!(find_similar_movies("2", &embeddings, cosine), Err(SimilarityError::Undefined { movie_id: 1 }));
    assert_eq!(find_similar_movies("3", &embeddings, cosine), Err(SimilarityError::Undefined { movie_id: 2 }));
}

#[test]
fn comparisons_are_scored_in_their_order() {
    let embeddings = vec![record(1, Some(&[1.0, 0.0])), record(2, Some(&[0.0, 1.0])), record(3, Some(&[1.0, 0.0]))];
    let comparisons = compare_with(&embeddings[0], &embeddings).unwrap();
    let constant = |_: &Vec<Single>, b: &Vec<Single>| Some(b[1]);
    let scores = score_comparisons(&embeddings[0], &embeddings, &comparisons, constant).unwrap();
    assert_eq!(scores, vec![pair(2, 1.0), pair(3, 0.0)]);
    let seen = |a: &Vec<Single>, _: &Vec<Single>| Some(a[0]);
    let scores = score_comparisons(&embeddings[1], &embeddings, &compare_with(&embeddings[1], &embeddings).unwrap(), seen).unwrap();
    assert_eq!(scores, vec![pair(1, 0.0), pair(3, 0.0)]);
}

#[test]
fn the_most_similar_movies_come_first() {
    let mut cache = Cache::new();
    cache.movie_embeddings = vec![
        record(1, Some(&[1.0, 0.0])),
        record(2, Some(&[0.0, 1.0])),
        record(3, Some(&[1.0, 1.0])),
        record(4, None),
        record(5, Some(&[2.0, 0.0])),
        record(6, Some(&[-1.0, 0.0])),
    ];
    cache.top_movies = (1..=6).map(movie).collect();
    let found: Vec<i32> = similar_movies("1", &cache, cosine).unwrap().iter().map(|m| m.id).collect();
    assert_eq!(found, vec![5, 3, 2, 6]);
    let found: Vec<i32> = similar_movies("3", &cache, cosine).unwrap().iter().map(|m| m.id).collect();
    assert_eq!(found, vec![1, 2, 5, 6]);
    assert_eq!(similar_movies("4", &cache, cosine).err(), Some(SimilarityError::NoEmbedding));
    assert_eq!(similar_movies("7", &cache, cosine).err(), Some(SimilarityError::NotFound));
    cache.top_movies.remove(1);
    assert_eq!(similar_movies("1", &cache, cosine).err(), Some(SimilarityError::Inconsistent { movie_id: 2 }));
    cache.movie_embeddings.truncate(1);
    assert_eq!(similar_movies("1", &cache, cosine).err(), Some(SimilarityError::NoSimilarMovies));
}

#[test]
fn the_top_of_the_ranking_is_the_head_of_the_whole_ranking() {
    let values: Vec<f32> = (0..57).map(|i| ((i * 37) % 19) as f32 / 19.0 - 0.5).collect();
    let scores: Vec<CosineSimilarity> = values.iter().enumerate().map(|(i, x)| pair(i as i32, *x)).collect();
    let whole = rank_similarities(&scores).unwrap();
    assert_eq!(whole.len(), 57);
    assert_eq!(rank_top(&scores).unwrap(), whole[..10].to_vec());
    for n in 0..12 {
        let few = scores[..n].to_vec();
        let whole = rank_similarities(&few).unwrap();
        let top = rank_top(&few).unwrap();
        assert_eq!(top, whole[..n.min(10)].to_vec());
    }
}
