//! Catalog records.
use crate::model::scalar::Double;
use vstd::prelude::*;

verus! {

/// A member of a movie's cast.
#[derive(Clone, Debug)]
pub struct Cast {
    pub name: String,
    pub character: String,
    pub profile_path: String,
}

/// A movie as the search index describes it, with every field present.
#[derive(Clone, Debug)]
pub struct Movie {
    pub backdrop_path: String,
    pub id: String,
    pub title: String,
    pub poster_path: String,
    pub release_date: String,
    pub vote_average: Double,
    pub vote_count: u32,
    pub popularity: Double,
    pub overview: String,
    pub imdb_id: String,
    pub budget: u32,
    pub homepage: String,
    pub revenue: u32,
    pub runtime: u32,
    pub tagline: String,
    pub genres: Vec<String>,
    pub cast: Vec<Cast>,
    pub keywords: Vec<String>,
    pub mpaa: String,
    pub summaries: Vec<String>,
    pub synopsis: String,
    pub imdb_score: Double,
}

/// A record of the catalog. `id` is its key; `release_date` is meant to be
/// written as year-month-day, and is kept as it came.
#[derive(Clone, Debug)]
pub struct TopRatedMovie {
    pub backdrop_path: String,
    pub id: i32,
    pub title: String,
    pub poster_path: String,
    pub release_date: String,
    pub vote_average: Double,
    pub vote_count: u32,
    pub popularity: Double,
    pub overview: Option<String>,
    pub imdb_id: Option<String>,
    pub budget: Option<u32>,
    pub homepage: Option<String>,
    pub revenue: Option<u32>,
    pub runtime: u32,
    pub tagline: Option<String>,
    pub genres: Vec<String>,
    pub cast: Option<Vec<Cast>>,
    pub keywords: Option<Vec<String>>,
    pub mpaa: String,
    pub summaries: Option<Vec<String>>,
    pub synopsis: Option<String>,
    pub imdb_score: Double,
}

} // verus!
