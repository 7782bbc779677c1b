use movie_engine::api::movies::recommend;
use movie_engine::model::movies::movie::TopRatedMovie;
use movie_engine::model::movies::movie_criteria::MovieCriteria;
use movie_engine::model::scalar::Double;
use movie_engine::util::movie_helper::{accepts_movie, filter_movies, matches_movie, prepare};

fn score(x: f64) -> Double {
    Double::from_bits(x.to_bits())
}

fn movie(id: i32, genres: &[&str], mpaa: &str, release_date: &str, imdb_score: f64) -> TopRatedMovie {
    TopRatedMovie {
        backdrop_path: String::new(),
        id,
        title: format!("movie {}", id),
        poster_path: String::new(),
        release_date: release_date.to_string(),
        vote_average: score(0.0),
        vote_count: 0,
        popularity: score(0.0),
        overview: None,
        imdb_id: None,
        budget: None,
        homepage: None,
        revenue: None,
        runtime: 90,
        tagline: None,
        genres: genres.iter().map(|g| g.to_string()).collect(),
        cast: None,
        keywords: None,
        mpaa: mpaa.to_string(),
        summaries: None,
        synopsis: None,
        imdb_score: score(imdb_score),
    }
}

fn none() -> MovieCriteria {
    MovieCriteria::builder().build()
}

fn ids(movies: &[TopRatedMovie]) -> Vec<i32> {
    movies.iter().map(|m| m.id).collect()
}

fn catalog() -> Vec<TopRatedMovie> {
    vec![
        movie(1, &["Action", "Thriller"], "PG-13", "2020-01-01", 7.0),
        movie(2, &["Drama"], "R", "2019-06-01", 3.0),
        movie(3, &["Science Fiction", "Drama"], "PG", "1999-03-31", 8.7),
        movie(4, &["comedy"], "R", "not a date", 6.5),
        movie(5, &[], "pg", "2020-01-02", 7.0),
    ]
}

#[test]
fn genre_and_score_keep_only_the_action_movie() {
    let a = movie(1, &["Action"], "PG", "2020-01-01", 7.0);
    let b = movie(2, &["Drama"], "PG", "2019-06-01", 3.0);
    let mut criteria = none();
    criteria.genre = Some("Action".to_string());
    criteria.score_min = Some(score(5.0));
    let kept = filter_movies(criteria, vec![a, b]);
    assert_eq!(ids(&kept), vec![1]);
    assert_eq!(kept[0].title, "movie 1");
    assert_eq!(kept[0].release_date, "2020-01-01");
}

#[test]
fn criteria_without_a_field_keep_the_catalog_in_order() {
    let kept = filter_movies(none(), catalog());
    assert_eq!(ids(&kept), vec![1, 2, 3, 4, 5]);
    assert_eq!(filter_movies(none(), Vec::new()).len(), 0);
}

#[test]
fn search_and_natural_language_filter_nothing() {
    let mut criteria = none();
    criteria.search = Some("space".to_string());
    criteria.natural_language = Some("something with robots".to_string());
    assert_eq!(ids(&filter_movies(criteria, catalog())), vec![1, 2, 3, 4, 5]);
}

#[test]
fn an_unreadable_release_date_is_dropped_by_either_date_bound() {
    let mut since = none();
    since.release_date_min = Some("1900-01-01".to_string());
    assert_eq!(ids(&filter_movies(since, catalog())), vec![1, 2, 3, 5]);
    let mut until = none();
    until.release_date_max = Some("2100-01-01".to_string());
    assert_eq!(ids(&filter_movies(until, catalog())), vec![1, 2, 3, 5]);
    let mut other = none();
    other.mpaa = Some("R".to_string());
    assert_eq!(ids(&filter_movies(other, catalog())), vec![2, 4]);
}

#[test]
fn an_unreadable_bound_drops_every_movie() {
    let mut since = none();
    since.release_date_min = Some("01/01/2000".to_string());
    assert_eq!(ids(&filter_movies(since, catalog())), Vec::<i32>::new());
    let mut until = none();
    until.release_date_max = Some("".to_string());
    assert_eq!(ids(&filter_movies(until, catalog())), Vec::<i32>::new());
}

#[test]
fn date_bounds_include_the_bound_itself() {
    let mut since = none();
    since.release_date_min = Some("2020-01-01".to_string());
    assert_eq!(ids(&filter_movies(since, catalog())), vec![1, 5]);
    let mut until = none();
    until.release_date_max = Some("2020-01-01".to_string());
    assert_eq!(ids(&filter_movies(until, catalog())), vec![1, 2, 3]);
    let mut both = none();
    both.release_date_min = Some("1999-03-31".to_string());
    both.release_date_max = Some("2019-06-01".to_string());
    assert_eq!(ids(&filter_movies(both, catalog())), vec![2, 3]);
}

#[test]
fn an_impossible_day_is_no_date() {
    let mut since = none();
    since.release_date_min = Some("2019-02-30".to_string());
    assert_eq!(ids(&filter_movies(since, catalog())), Vec::<i32>::new());
    let odd = movie(9, &[], "R", "2021-13-01", 5.0);
    let mut criteria = none();
    criteria.release_date_max = Some("2030-01-01".to_string());
    assert_eq!(ids(&filter_movies(criteria, vec![odd])), Vec::<i32>::new());
}

#[test]
fn genre_matches_any_listed_genre_whatever_the_case() {
    let mut criteria = none();
    criteria.genre = Some("COMEDY, science fiction".to_string());
    assert_eq!(ids(&filter_movies(criteria, catalog())), vec![3, 4]);
    let mut drama = none();
    drama.genre = Some(" drama ".to_string());
    assert_eq!(ids(&filter_movies(drama, catalog())), vec![2, 3]);
    let mut part = none();
    part.genre = Some("Science".to_string());
    assert_eq!(ids(&filter_movies(part, catalog())), Vec::<i32>::new());
}

#[test]
fn an_empty_genre_matches_only_an_empty_genre() {
    let mut criteria = none();
    criteria.genre = Some("".to_string());
    assert_eq!(ids(&filter_movies(criteria, catalog())), Vec::<i32>::new());
    let mut listed = none();
    listed.genre = Some("Action,".to_string());
    let unnamed = movie(7, &[""], "R", "2000-01-01", 1.0);
    let mut movies = catalog();
    movies.push(unnamed);
    assert_eq!(ids(&filter_movies(listed, movies)), vec![1, 7]);
}

#[test]
fn mpaa_is_matched_letter_for_letter() {
    let mut criteria = none();
    criteria.mpaa = Some("PG".to_string());
    assert_eq!(ids(&filter_movies(criteria, catalog())), vec![3]);
    let mut lower = none();
    lower.mpaa = Some("pg".to_string());
    assert_eq!(ids(&filter_movies(lower, catalog())), vec![5]);
}

#[test]
fn score_bounds_include_the_bound_itself() {
    let mut low = none();
    low.score_min = Some(score(7.0));
    assert_eq!(ids(&filter_movies(low, catalog())), vec![1, 3, 5]);
    let mut high = none();
    high.score_max = Some(score(6.5));
    assert_eq!(ids(&filter_movies(high, catalog())), vec![2, 4]);
    let mut both = none();
    both.score_min = Some(score(6.5));
    both.score_max = Some(score(7.0));
    assert_eq!(ids(&filter_movies(both, catalog())), vec![1, 4, 5]);
}

#[test]
fn a_score_that_is_not_a_number_meets_no_bound() {
    let odd = movie(8, &[], "R", "2000-01-01", f64::NAN);
    let mut low = none();
    low.score_min = Some(score(0.0));
    assert_eq!(ids(&filter_movies(low, vec![odd.clone()])), Vec::<i32>::new());
    let mut bound = none();
    bound.score_max = Some(score(f64::NAN));
    assert_eq!(ids(&filter_movies(bound, catalog())), Vec::<i32>::new());
    assert_eq!(ids(&filter_movies(none(), vec![odd])), vec![8]);
}

#[test]
fn negative_scores_are_ordered_as_numbers() {
    let cold = movie(10, &[], "R", "2000-01-01", -2.5);
    let zero = movie(11, &[], "R", "2000-01-01", -0.0);
    let mut low = none();
    low.score_min = Some(score(-1.0));
    assert_eq!(ids(&filter_movies(low, vec![cold.clone(), zero.clone()])), vec![11]);
    let mut at_zero = none();
    at_zero.score_min = Some(score(0.0));
    assert_eq!(ids(&filter_movies(at_zero, vec![cold, zero])), vec![11]);
}

#[test]
fn all_constraints_hold_together() {
    let mut criteria = none();
    criteria.genre = Some("drama,action".to_string());
    criteria.release_date_min = Some("2000-01-01".to_string());
    criteria.score_max = Some(score(7.5));
    criteria.mpaa = Some("R".to_string());
    assert_eq!(ids(&filter_movies(criteria, catalog())), vec![2]);
}

#[test]
fn accepts_movie_agrees_with_the_filter() {
    let mut criteria = none();
    criteria.genre = Some("Thriller".to_string());
    criteria.release_date_max = Some("2020-12-31".to_string());
    let prepared = prepare(&criteria);
    assert_eq!(prepared.genres, Some(vec!["thriller".to_string()]));
    assert_eq!(prepared.since, None);
    assert_eq!(prepared.until, Some(Some((2020, 12, 31))));
    let movies = catalog();
    let answers: Vec<bool> = movies.iter().map(|m| accepts_movie(&criteria, &prepared, m)).collect();
    assert_eq!(answers, vec![true, false, false, false, false]);
    let answers: Vec<bool> = movies.iter().map(|m| matches_movie(&criteria, m)).collect();
    assert_eq!(answers, vec![true, false, false, false, false]);
}

#[test]
fn recommend_stops_at_ten_movies() {
    let mut movies = Vec::new();
    for id in 0..25 {
        movies.push(movie(id, &["Drama"], "R", "2001-01-01", if id % 2 == 0 { 8.0 } else { 2.0 }));
    }
    let mut criteria = none();
    criteria.score_min = Some(score(5.0));
    let picked = recommend(criteria, movies);
    assert_eq!(ids(&picked), vec![0, 2, 4, 6, 8, 10, 12, 14, 16, 18]);
    let mut few = none();
    few.genre = Some("Action".to_string());
    assert_eq!(ids(&recommend(few, catalog())), vec![1]);
}
