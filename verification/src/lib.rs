//! The core of a movie recommendation service.
//!
//! The service keeps two collections in memory, the embedding of each movie
//! and the catalog, and answers two kinds of questions from them: which
//! movies are most similar to a given one, and which movies meet criteria
//! that a caller, or a language model on the caller's behalf, has stated.
//!
//! * `model` holds the values: catalog records, embeddings, criteria, the
//!   requests and answers of the language model, and the cache.
//! * `util` holds the rules: ranking by similarity, filtering by criteria,
//!   reading criteria out of an answer.
//! * `api` puts them together into what the service answers.
//!
//! Real numbers are held as their bit patterns (`model::scalar`); the
//! arithmetic of similarity is the caller's, and is handed in as a function.
pub mod api;
pub mod model;
pub mod util;
