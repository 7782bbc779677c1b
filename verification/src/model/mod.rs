pub mod cache;
pub mod chat_completion_request;
pub mod chat_completion_response;
pub mod config;
pub mod cosine_similarity;
pub mod embedding_request_body;
pub mod missing_field;
pub mod movies;
pub mod open_ai_request;
pub mod open_ai_response;
pub mod openai;
pub mod query;
pub mod scalar;
