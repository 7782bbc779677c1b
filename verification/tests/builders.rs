use movie_engine::api::movies::{
    chat_request, criteria_request, question_request, say, CHAT_PROMPT, CRITERIA_PROMPT,
};
use movie_engine::model::chat_completion_request::{
    ChatCompletionRequest, Message, RequestTool, RequestToolBuilder, ResponseFormat, ResponseType,
    ToolFunction,
};
use movie_engine::model::embedding_request_body::EmbeddingRequestBody;
use movie_engine::model::missing_field::MissingField;
use movie_engine::model::movies::movie_criteria::MovieCriteria;
use movie_engine::model::open_ai_request::{Message as PlainMessage, OAIRequest, ResponseFormat as PlainFormat};
use movie_engine::model::openai::UserMessage;
use movie_engine::model::scalar::Double;
use movie_engine::util::tool_helper::{return_filter_tool, FILTER_DESCRIPTION, FILTER_NAME, FILTER_PARAMETERS};

#[test]
fn a_message_needs_a_role() {
    let message = Message::builder().role("user".to_string()).content("hi".to_string()).name("ann".to_string()).build().unwrap();
    assert_eq!(message.role, "user");
    assert_eq!(message.content, Some("hi".to_string()));
    assert_eq!(message.name, Some("ann".to_string()));
    assert!(message.tool_calls.is_none());
    let bare = Message::builder().role("system".to_string()).build().unwrap();
    assert_eq!(bare.content, None);
    assert_eq!(bare.name, None);
    assert_eq!(Message::builder().content("hi".to_string()).build().err(), Some(MissingField::Role));
}

#[test]
fn a_plain_message_needs_a_role_and_content() {
    let message = PlainMessage::builder().role("user".to_string()).content("hi".to_string()).build().unwrap();
    assert_eq!((message.role.as_str(), message.content.as_str()), ("user", "hi"));
    assert_eq!(PlainMessage::builder().content("hi".to_string()).build().err(), Some(MissingField::Role));
    assert_eq!(PlainMessage::builder().role("user".to_string()).build().err(), Some(MissingField::Content));
    assert_eq!(PlainMessage::builder().build().err(), Some(MissingField::Role));
}

#[test]
fn a_user_message_needs_a_role_and_content() {
    let message = UserMessage::builder().content("hi".to_string()).role("user".to_string()).build().unwrap();
    assert_eq!((message.role.as_str(), message.content.as_str()), ("user", "hi"));
    assert_eq!(UserMessage::builder().content("hi".to_string()).build().err(), Some(MissingField::Role));
    assert_eq!(UserMessage::builder().role("user".to_string()).build().err(), Some(MissingField::Content));
}

#[test]
fn a_later_value_replaces_an_earlier_one() {
    let message = PlainMessage::builder()
        .role("user".to_string())
        .role("system".to_string())
        .content("one".to_string())
        .content("two".to_string())
        .build()
        .unwrap();
    assert_eq!((message.role.as_str(), message.content.as_str()), ("system", "two"));
}

#[test]
fn a_plain_request_keeps_its_messages_in_order() {
    let first = PlainMessage::builder().role("system".to_string()).content("a".to_string()).build().unwrap();
    let second = PlainMessage::builder().role("user".to_string()).content("b".to_string()).build().unwrap();
    let request = OAIRequest::builder()
        .model("gpt".to_string())
        .message(first)
        .message(second)
        .response_format(PlainFormat { type_: "json_object".to_string() })
        .build();
    assert_eq!(request.model, Some("gpt".to_string()));
    let contents: Vec<&str> = request.messages.iter().map(|m| m.content.as_str()).collect();
    assert_eq!(contents, vec!["a", "b"]);
    assert_eq!(request.response_format.map(|f| f.type_), Some("json_object".to_string()));
    let empty = OAIRequest::builder().build();
    assert!(empty.model.is_none() && empty.messages.is_empty() && empty.response_format.is_none());
}

#[test]
fn an_embedding_request_needs_a_model() {
    let request = EmbeddingRequestBody::builder()
        .input(vec!["one".to_string(), "two".to_string()])
        .model(Some("text-embedding-3-large".to_string()))
        .encoding_format(Some("float".to_string()))
        .dimensions(Some(1024))
        .user(Some("me".to_string()))
        .build()
        .unwrap();
    assert_eq!(request.input, vec!["one".to_string(), "two".to_string()]);
    assert_eq!(request.model, "text-embedding-3-large");
    assert_eq!(request.encoding_format, Some("float".to_string()));
    assert_eq!(request.dimensions, Some(1024));
    assert_eq!(request.user, Some("me".to_string()));
    assert_eq!(EmbeddingRequestBody::builder().input(vec!["x".to_string()]).build().err(), Some(MissingField::Model));
    assert_eq!(
        EmbeddingRequestBody::builder().model(Some("m".to_string())).model(None).build().err(),
        Some(MissingField::Model)
    );
    let bare = EmbeddingRequestBody::builder().model(Some("m".to_string())).build().unwrap();
    assert!(bare.input.is_empty() && bare.encoding_format.is_none() && bare.dimensions.is_none() && bare.user.is_none());
}

#[test]
fn a_tool_function_needs_a_name() {
    let function = ToolFunction::builder().name("f".to_string()).description("does f".to_string()).build().unwrap();
    assert_eq!(function.name, "f");
    assert_eq!(function.description, Some("does f".to_string()));
    assert!(function.parameters.is_none());
    assert_eq!(ToolFunction::builder().description("d".to_string()).build().err(), Some(MissingField::Name));
    let with = ToolFunction::builder().name("g".to_string()).parameters(serde_json::Value::Bool(true)).build().unwrap();
    assert_eq!(with.parameters, Some(serde_json::Value::Bool(true)));
}

#[test]
fn a_tool_is_a_function_unless_told_otherwise() {
    let function = ToolFunction::builder().name("f".to_string()).build().unwrap();
    let tool = RequestTool::builder().function(function.clone()).build().unwrap();
    assert_eq!(tool._type, "function");
    assert_eq!(tool.function.name, "f");
    let other = RequestTool::builder()._type("retrieval".to_string()).function(function).build().unwrap();
    assert_eq!(other._type, "retrieval");
    assert_eq!(RequestTool::builder().build().err(), Some(MissingField::Function));
    let untyped = RequestToolBuilder {
        _type: None,
        function: Some(ToolFunction::builder().name("f".to_string()).build().unwrap()),
    };
    assert_eq!(untyped.build().err(), Some(MissingField::Type));
}

#[test]
fn a_chat_request_keeps_messages_and_tools_in_order() {
    let tool = |name: &str| {
        RequestTool::builder().function(ToolFunction::builder().name(name.to_string()).build().unwrap()).build().unwrap()
    };
    let message = |text: &str| Message::builder().role("user".to_string()).content(text.to_string()).build().unwrap();
    let request = ChatCompletionRequest::builder()
        .model("gpt".to_string())
        .tool(tool("first"))
        .message(message("a"))
        .response_format(ResponseFormat { type_: ResponseType::Text })
        .tool(tool("second"))
        .message(message("b"))
        .build();
    assert_eq!(request.model, Some("gpt".to_string()));
    let contents: Vec<Option<String>> = request.messages.iter().map(|m| m.content.clone()).collect();
    assert_eq!(contents, vec![Some("a".to_string()), Some("b".to_string())]);
    let names: Vec<String> = request.tools.unwrap().iter().map(|t| t.function.name.clone()).collect();
    assert_eq!(names, vec!["first".to_string(), "second".to_string()]);
    assert_eq!(request.response_format.map(|f| f.type_), Some(ResponseType::Text));
    let empty = ChatCompletionRequest::builder().build();
    assert!(empty.tools.is_none() && empty.messages.is_empty());
}

#[test]
fn criteria_are_built_field_by_field() {
    let criteria = MovieCriteria::builder()
        .search("s".to_string())
        .genre("g".to_string())
        .mpaa("m".to_string())
        .release_date_min("2000-01-01".to_string())
        .release_date_max("2001-01-01".to_string())
        .score_min(Double::from_bits(1.5f64.to_bits()))
        .score_max(Double::from_bits(9.5f64.to_bits()))
        .natural_language("n".to_string())
        .build();
    assert_eq!(criteria.search, Some("s".to_string()));
    assert_eq!(criteria.genre, Some("g".to_string()));
    assert_eq!(criteria.mpaa, Some("m".to_string()));
    assert_eq!(criteria.release_date_min, Some("2000-01-01".to_string()));
    assert_eq!(criteria.release_date_max, Some("2001-01-01".to_string()));
    assert_eq!(criteria.score_min.map(|d| d.to_bits()), Some(1.5f64.to_bits()));
    assert_eq!(criteria.score_max.map(|d| d.to_bits()), Some(9.5f64.to_bits()));
    assert_eq!(criteria.natural_language, Some("n".to_string()));
    let none = MovieCriteria::builder().build();
    assert!(none.search.is_none() && none.genre.is_none() && none.mpaa.is_none());
    assert!(none.release_date_min.is_none() && none.release_date_max.is_none());
    assert!(none.score_min.is_none() && none.score_max.is_none() && none.natural_language.is_none());
    let one = MovieCriteria::builder().genre("a".to_string()).genre("b".to_string()).build();
    assert_eq!(one.genre, Some("b".to_string()));
    assert!(one.search.is_none());
}

#[test]
fn the_filter_tool_carries_its_schema() {
    let tool = return_filter_tool();
    assert_eq!(tool._type, "function");
    assert_eq!(tool.function.name, "filter_movies");
    assert_eq!(FILTER_NAME, "filter_movies");
    assert_eq!(tool.function.description.as_deref(), Some(FILTER_DESCRIPTION));
    let schema = tool.function.parameters.unwrap();
    assert_eq!(schema, serde_json::from_str::<serde_json::Value>(FILTER_PARAMETERS).unwrap());
    assert_eq!(schema.pointer("/type").and_then(|v| v.as_str()), Some("object"));
    assert_eq!(schema.pointer("/properties/movie_criteria/properties/score_min/type").and_then(|v| v.as_str()), Some("number"));
    assert_eq!(schema.pointer("/properties/movie_criteria/required/0").and_then(|v| v.as_str()), Some("search"));
    assert_eq!(schema.pointer("/properties/top_rated_movies/items/required").and_then(|v| v.as_array()).map(|a| a.len()), Some(10));
    assert_eq!(schema.pointer("/required/1").and_then(|v| v.as_str()), Some("top_rated_movies"));
}

#[test]
fn a_question_is_asked_with_the_movie_as_context() {
    let request = question_request("gpt".to_string(), "Movie { id: 7 }", "Who directed it?".to_string());
    assert_eq!(request.model, Some("gpt".to_string()));
    assert_eq!(request.messages.len(), 2);
    assert_eq!(request.messages[0].role, "system");
    assert_eq!(
        request.messages[0].content.as_deref(),
        Some("Please answer the user's question using the provided movie context.\n            context: Movie { id: 7 }")
    );
    assert_eq!(request.messages[1].role, "user");
    assert_eq!(request.messages[1].content.as_deref(), Some("Who directed it?"));
    assert!(request.response_format.is_none() && request.tools.is_none());
}

#[test]
fn criteria_are_asked_for_as_a_json_object() {
    let request = criteria_request("gpt".to_string(), "funny movies from the nineties".to_string());
    assert_eq!(request.messages.len(), 2);
    assert_eq!(request.messages[0].role, "system");
    let told = request.messages[0].content.clone().unwrap();
    assert!(told.starts_with("Please take the user's question to generate a application/json response object"));
    assert!(told.contains("\n            {\n              \"search\"?: string, // A keyword search query\n"));
    assert!(told.ends_with("\"scoreMax\"?: number // The maximum vote/score/rating to filter on. 0-10 scale.\n            }\n            "));
    assert_eq!(told, CRITERIA_PROMPT);
    assert_eq!(request.messages[1].content.as_deref(), Some("funny movies from the nineties"));
    assert_eq!(request.response_format.map(|f| f.type_), Some(ResponseType::JsonObject));
    assert!(request.tools.is_none());
}

#[test]
fn a_chat_starts_with_the_scene_and_offers_the_filter() {
    let said = |role: &str, text: &str| say(role, text.to_string());
    let request = chat_request("gpt".to_string(), vec![said("user", "hi"), said("assistant", "hello"), said("user", "a western")]);
    assert_eq!(request.model, Some("gpt".to_string()));
    let turns: Vec<(String, Option<String>)> = request.messages.iter().map(|m| (m.role.clone(), m.content.clone())).collect();
    assert_eq!(turns.len(), 4);
    assert_eq!(turns[0], ("system".to_string(), Some(CHAT_PROMPT.to_string())));
    assert_eq!(turns[1], ("user".to_string(), Some("hi".to_string())));
    assert_eq!(turns[2], ("assistant".to_string(), Some("hello".to_string())));
    assert_eq!(turns[3], ("user".to_string(), Some("a western".to_string())));
    assert!(CHAT_PROMPT.starts_with("You are an expert movie critic."));
    assert_eq!(request.response_format.map(|f| f.type_), Some(ResponseType::Text));
    let tools = request.tools.unwrap();
    assert_eq!(tools.len(), 1);
    assert_eq!(tools[0].function.name, "filter_movies");
    let alone = chat_request("gpt".to_string(), Vec::new());
    assert_eq!(alone.messages.len(), 1);
}
