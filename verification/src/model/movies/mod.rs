pub mod movie;
pub mod movie_criteria;
pub mod movie_embedding;
