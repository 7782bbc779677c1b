//! The tool that the language model is offered.
use crate::model::chat_completion_request::{RequestTool, ToolFunction};
use crate::util::json::{json_document, parse_document};
use vstd::prelude::*;

verus! {

/// The name of the filter tool.
pub const FILTER_NAME: &'static str = "filter_movies";

/// What the model is told of the filter tool.
pub const FILTER_DESCRIPTION: &'static str =
    "Filters movies based on the movie criteria. Requires both movie_criteria and top_rated_movies to filter down.";

/// The JSON schema of the arguments of the filter tool: the criteria under
/// `movie_criteria`, the movies to filter under `top_rated_movies`.
pub const FILTER_PARAMETERS: &'static str = r#"{
  "type": "object",
  "properties": {
    "movie_criteria": {
      "type": "object",
      "properties": {
        "search": { "type": "string" },
        "genre": { "type": "string" },
        "mpaa": { "type": "string" },
        "release_date_min": { "type": "string" },
        "release_date_max": { "type": "string" },
        "score_min": { "type": "number" },
        "score_max": { "type": "number" },
        "natural_language": { "type": "string" }
      },
      "required": ["search"]
    },
    "top_rated_movies": {
      "type": "array",
      "items": {
        "type": "object",
        "properties": {
          "backdrop_path": { "type": "string" },
          "id": { "type": "integer" },
          "title": { "type": "string" },
          "poster_path": { "type": "string" },
          "release_date": { "type": "string" },
          "vote_average": { "type": "number" },
          "vote_count": { "type": "integer" },
          "popularity": { "type": "number" },
          "overview": { "type": "string" },
          "imdb_id": { "type": "string" },
          "budget": { "type": "integer" },
          "homepage": { "type": "string" },
          "revenue": { "type": "integer" },
          "runtime": { "type": "integer" },
          "tagline": { "type": "string" },
          "genres": { "type": "array", "items": { "type": "string" } },
          "cast": { "type": "array", "items": { "type": "object" } },
          "keywords": { "type": "array", "items": { "type": "string" } },
          "mpaa": { "type": "string" },
          "summaries": { "type": "array", "items": { "type": "string" } },
          "synopsis": { "type": "string" },
          "imdb_score": { "type": "number" }
        },
        "required": ["backdrop_path", "id", "title", "poster_path", "release_date", "vote_average", "vote_count", "popularity", "mpaa", "imdb_score"]
      }
    }
  },
  "required": ["movie_criteria", "top_rated_movies"]
}"#;

/// The filter tool: a function named `FILTER_NAME`, described by
/// `FILTER_DESCRIPTION`, whose parameters are the document that
/// `FILTER_PARAMETERS` spells.
pub fn return_filter_tool() -> (tool: RequestTool)
    ensures
        tool._type@ == "function"@,
        tool.function.name@ == FILTER_NAME@,
        tool.function.description is Some,
        tool.function.description->0@ == FILTER_DESCRIPTION@,
        tool.function.parameters == json_document(FILTER_PARAMETERS@),
{
    let function = ToolFunction {
        description: Some(FILTER_DESCRIPTION.to_owned()),
        name: FILTER_NAME.to_owned(),
        parameters: parse_document(FILTER_PARAMETERS),
    };
    RequestTool { _type: "function".to_owned(), function }
}

} // verus!
