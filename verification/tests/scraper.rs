use movie_engine::api::scraper::{
    append_record, embedding_input, embedding_request, find_append_offset, join_with_commas,
    pending_movies, populate_existing_movie_ids,
};
use movie_engine::model::movies::movie::TopRatedMovie;
use movie_engine::model::movies::movie_embedding::MovieEmbedding;
use movie_engine::model::scalar::Double;
use std::collections::HashSet;

fn movie(id: i32) -> TopRatedMovie {
    TopRatedMovie {
        backdrop_path: String::new(),
        id,
        title: format!("movie {}", id),
        poster_path: String::new(),
        release_date: "2020-01-01".to_string(),
        vote_average: Double::from_bits(0),
        vote_count: 0,
        popularity: Double::from_bits(0),
        overview: None,
        imdb_id: None,
        budget: None,
        homepage: None,
        revenue: None,
        runtime: 90,
        tagline: None,
        genres: Vec::new(),
        cast: None,
        keywords: None,
        mpaa: "R".to_string(),
        summaries: None,
        synopsis: None,
        imdb_score: Double::from_bits(0),
    }
}

fn strings(items: &[&str]) -> Vec<String> {
    items.iter().map(|s| s.to_string()).collect()
}

fn apply(contents: &[u8], record: &[u8]) -> String {
    let (offset, bytes) = append_record(&contents.to_vec(), &record.to_vec());
    let mut file = contents.to_vec();
    file.truncate(offset);
    file.extend_from_slice(&bytes);
    String::from_utf8(file).unwrap()
}

#[test]
fn the_existing_ids_are_those_of_the_records() {
    let records = vec![
        MovieEmbedding { movie_id: 3, embeddings: None },
        MovieEmbedding { movie_id: 1, embeddings: None },
        MovieEmbedding { movie_id: 3, embeddings: None },
    ];
    let ids = populate_existing_movie_ids(records);
    assert_eq!(ids, HashSet::from([1, 3]));
    assert!(populate_existing_movie_ids(Vec::new()).is_empty());
}

#[test]
fn movies_with_a_record_are_not_embedded_again() {
    let catalog: Vec<TopRatedMovie> = [5, 1, 7, 5, 2, 7, 9].iter().map(|id| movie(*id)).collect();
    assert_eq!(pending_movies(&catalog, HashSet::from([1, 9, 100])), vec![0, 2, 4]);
    assert_eq!(pending_movies(&catalog, HashSet::new()), vec![0, 1, 2, 4, 6]);
    assert_eq!(pending_movies(&catalog, HashSet::from([1, 2, 5, 7, 9])), Vec::<usize>::new());
    assert_eq!(pending_movies(&Vec::new(), HashSet::from([1])), Vec::<usize>::new());
}

#[test]
fn lists_are_joined_by_commas() {
    assert_eq!(join_with_commas(&strings(&["Action", "Drama", "War"])), "Action,Drama,War");
    assert_eq!(join_with_commas(&strings(&["Action"])), "Action");
    assert_eq!(join_with_commas(&strings(&[])), "");
    assert_eq!(join_with_commas(&strings(&["", "", "x"])), ",,x");
    for list in [strings(&["a", "b"]), strings(&[""]), strings(&["é", " ", ","])] {
        assert_eq!(join_with_commas(&list), list.join(","));
    }
}

#[test]
fn a_movie_is_described_by_six_texts() {
    let mut film = movie(1);
    film.overview = Some("An overview.".to_string());
    film.tagline = Some("A tagline".to_string());
    film.genres = strings(&["Action", "Drama"]);
    film.keywords = Some(strings(&["space", "robot", "future"]));
    film.summaries = Some(strings(&["short"]));
    film.synopsis = Some("Long text".to_string());
    assert_eq!(
        embedding_input(&film),
        strings(&["An overview.", "A tagline", "Action,Drama", "space,robot,future", "short", "Long text"])
    );
    assert_eq!(embedding_input(&movie(2)), strings(&["", "", "", "", "", ""]));
    let mut partly = movie(3);
    partly.keywords = Some(Vec::new());
    partly.tagline = Some(String::new());
    partly.genres = strings(&["War"]);
    assert_eq!(embedding_input(&partly), strings(&["", "", "War", "", "", ""]));
}

#[test]
fn the_embedding_request_names_model_size_and_user() {
    let mut film = movie(1);
    film.overview = Some("An overview.".to_string());
    let request = embedding_request(&film);
    assert_eq!(request.input, strings(&["An overview.", "", "", "", "", ""]));
    assert_eq!(request.model, "text-embedding-3-large");
    assert_eq!(request.dimensions, Some(1024));
    assert_eq!(request.user, Some("ah-scraper".to_string()));
    assert_eq!(request.encoding_format, None);
}

#[test]
fn a_record_goes_over_the_last_closing_bracket() {
    assert_eq!(find_append_offset(&b"[{\"a\":[1]}\n]\n".to_vec()), 11);
    assert_eq!(find_append_offset(&b"[".to_vec()), 1);
    assert_eq!(find_append_offset(&b"".to_vec()), 0);
    assert_eq!(find_append_offset(&b"]".to_vec()), 0);
    assert_eq!(find_append_offset(&b"[]  \n\t".to_vec()), 1);
    assert_eq!(find_append_offset(&b"abc".to_vec()), 3);
}

#[test]
fn the_first_record_gets_no_comma() {
    assert_eq!(append_record(&b"[".to_vec(), &b"{\"movie_id\":1}".to_vec()), (1, b"{\"movie_id\":1}\n]\n".to_vec()));
    assert_eq!(apply(b"[", b"{\"movie_id\":1}"), "[{\"movie_id\":1}\n]\n");
    assert_eq!(apply(b"[]", b"{}"), "[{}\n]\n");
    assert_eq!(apply(b"", b"{}"), "{}\n]\n");
}

#[test]
fn a_later_record_follows_a_comma() {
    let once = apply(b"[", b"{\"movie_id\":1,\"v\":[0.5]}");
    let twice = apply(once.as_bytes(), b"{\"movie_id\":2,\"v\":[1.5]}");
    assert_eq!(twice, "[{\"movie_id\":1,\"v\":[0.5]}\n,{\"movie_id\":2,\"v\":[1.5]}\n]\n");
    let thrice = apply(twice.as_bytes(), b"{\"movie_id\":3}");
    let parsed: serde_json::Value = serde_json::from_str(&thrice).unwrap();
    assert_eq!(parsed.as_array().map(|a| a.len()), Some(3));
    assert_eq!(parsed.pointer("/2/movie_id").and_then(|v| v.as_i64()), Some(3));
    assert_eq!(append_record(&b"[1]".to_vec(), &b"2".to_vec()), (2, b",2\n]\n".to_vec()));
}
