//! Embedding records.
use crate::model::missing_field::MissingField;
use crate::model::scalar::Single;
use vstd::prelude::*;

verus! {

/// The embedding of one movie. A movie that was not embedded yet has no
/// vector.
#[derive(Clone, Debug)]
pub struct MovieEmbedding {
    pub movie_id: i32,
    pub embeddings: Option<Vec<Single>>,
}

impl MovieEmbedding {
    pub fn builder() -> (b: MovieEmbeddingBuilder)
        ensures
            b.movie_id is None,
            b.embeddings is None,
    {
        MovieEmbeddingBuilder::new()
    }
}

/// Collects the fields of a `MovieEmbedding` one at a time.
pub struct MovieEmbeddingBuilder {
    pub movie_id: Option<i32>,
    pub embeddings: Option<Vec<Single>>,
}

impl MovieEmbeddingBuilder {
    pub fn new() -> (b: Self)
        ensures
            b.movie_id is None,
            b.embeddings is None,
    {
        MovieEmbeddingBuilder { movie_id: None, embeddings: None }
    }

    pub fn movie_id(self, movie_id: i32) -> (b: Self)
        ensures
            b.movie_id == Some(movie_id),
            b.embeddings == self.embeddings,
    {
        MovieEmbeddingBuilder { movie_id: Some(movie_id), embeddings: self.embeddings }
    }

    pub fn embeddings(self, embeddings: Vec<Single>) -> (b: Self)
        ensures
            b.movie_id == self.movie_id,
            b.embeddings == Some(embeddings),
    {
        MovieEmbeddingBuilder { movie_id: self.movie_id, embeddings: Some(embeddings) }
    }

    /// The record; it cannot be built without the id of its movie.
    pub fn build(self) -> (r: Result<MovieEmbedding, MissingField>)
        ensures
            r == match self.movie_id {
                Some(movie_id) => Ok::<MovieEmbedding, MissingField>(
                    MovieEmbedding { movie_id, embeddings: self.embeddings },
                ),
                None => Err::<MovieEmbedding, MissingField>(MissingField::MovieId),
            },
    {
        match self.movie_id {
            Some(movie_id) => Ok(MovieEmbedding { movie_id, embeddings: self.embeddings }),
            None => Err(MissingField::MovieId),
        }
    }
}

} // verus!
