pub mod movies;
pub mod scraper;
