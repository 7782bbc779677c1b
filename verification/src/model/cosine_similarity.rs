//! Similarity scores and the ways a similarity search can fail.
use crate::model::scalar::Single;
use vstd::prelude::*;

verus! {

/// How similar the movie `movie_id` is to the movie that was asked about.
#[derive(Clone, Copy, Debug, PartialEq, Eq, Structural)]
pub struct CosineSimilarity {
    pub movie_id: i32,
    pub similarity: Single,
}

/// A record whose vector is to be compared with the vector of the movie that
/// was asked about: its movie and its place among the embedding records.
#[derive(Clone, Copy, Debug, PartialEq, Eq, Structural)]
pub struct Comparison {
    pub movie_id: i32,
    pub index: usize,
}

/// Why a similarity search gave no result.
#[derive(Clone, Copy, Debug, PartialEq, Eq, Structural)]
pub enum SimilarityError {
    /// No embedding record carries the movie's id.
    NotFound,
    /// The movie's record carries no vector.
    NoEmbedding,
    /// The vector of `movie_id` cannot be compared with the movie's: one of
    /// the two is empty, or their lengths differ.
    Incomparable { movie_id: i32 },
    /// The similarity to `movie_id` is undefined: one of the two vectors has
    /// no direction.
    Undefined { movie_id: i32 },
    /// The similarity of `movie_id` is not a number, so it has no rank.
    Unordered { movie_id: i32 },
    /// Nothing was there to compare the movie with.
    NoSimilarMovies,
    /// A ranked movie is missing from the catalog: embeddings and catalog
    /// have come apart.
    Inconsistent { movie_id: i32 },
}

} // verus!
