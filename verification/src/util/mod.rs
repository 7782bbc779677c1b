pub mod date;
pub mod json;
pub mod movie_helper;
pub mod ranking;
pub mod response_helper;
pub mod text;
pub mod tool_helper;
pub mod vector_math_helper;
