//! What the service answers, worked out from values that are already at hand.
use crate::model::cache::Cache;
use crate::model::chat_completion_request::{
    ChatCompletionRequest, Message, ResponseFormat, ResponseType,
};
use crate::model::chat_completion_response::{ChatCompletionChoice, ChatCompletionResponse};
use crate::model::cosine_similarity::{CosineSimilarity, SimilarityError};
use crate::model::movies::movie::TopRatedMovie;
use crate::model::movies::movie_criteria::{criteria_in, MovieCriteria, MovieCriteriaView};
use crate::model::scalar::Single;
use crate::util::movie_helper::{filter_movies, find_similar_movies, scores_view, similar_found};
use crate::util::ranking::{first_unordered, rank_top, top_ranked, TOP_K};
use crate::util::response_helper::{
    extract_message, first_in_choices, message_of, no_choices_text, Extracted,
};
use crate::util::tool_helper::{return_filter_tool, FILTER_NAME};
use crate::util::vector_math_helper::measures;
use vstd::prelude::*;

verus! {

/// The first record of the catalog that carries `id`.
pub open spec fn record_of(catalog: Seq<TopRatedMovie>, id: i32) -> Option<TopRatedMovie>
    decreases catalog.len(),
{
    if catalog.len() == 0 {
        None
    } else if catalog[0].id == id {
        Some(catalog[0])
    } else {
        record_of(catalog.drop_first(), id)
    }
}

/// Whether the score at `k` is the first whose movie the catalog lacks.
pub open spec fn first_missing(
    ranked: Seq<CosineSimilarity>,
    catalog: Seq<TopRatedMovie>,
    k: int,
) -> bool {
    &&& 0 <= k < ranked.len()
    &&& record_of(catalog, ranked[k].movie_id) is None
    &&& forall|j: int| 0 <= j < k ==> record_of(catalog, (#[trigger] ranked[j]).movie_id) is Some
}

/// What resolving scores against the catalog gives: the record of each
/// score's movie, in the order of the scores, or the first movie that the
/// catalog lacks.
pub open spec fn resolved(
    ranked: Seq<CosineSimilarity>,
    catalog: Seq<TopRatedMovie>,
    outcome: Result<Seq<TopRatedMovie>, SimilarityError>,
) -> bool {
    match outcome {
        Ok(movies) => {
            &&& movies.len() == ranked.len()
            &&& forall|k: int|
                0 <= k < ranked.len() ==> record_of(catalog, (#[trigger] ranked[k]).movie_id)
                    == Some(movies[k])
        },
        Err(SimilarityError::Inconsistent { movie_id }) => exists|k: int|
            #[trigger] first_missing(ranked, catalog, k) && movie_id == ranked[k].movie_id,
        Err(_) => false,
    }
}

/// The records behind a list of references.
pub open spec fn records(movies: Seq<&TopRatedMovie>) -> Seq<TopRatedMovie> {
    movies.map_values(|m: &TopRatedMovie| *m)
}

/// The view of a list of records that may have failed.
pub open spec fn records_view(outcome: Result<Vec<&TopRatedMovie>, SimilarityError>) -> Result<
    Seq<TopRatedMovie>,
    SimilarityError,
> {
    match outcome {
        Ok(movies) => Ok(records(movies@)),
        Err(e) => Err(e),
    }
}

/// The first record of the catalog that carries `id`.
pub fn find_movie<'a>(catalog: &'a Vec<TopRatedMovie>, id: i32) -> (found: Option<
    &'a TopRatedMovie,
>)
    ensures
        match found {
            Some(movie) => record_of(catalog@, id) == Some(*movie),
            None => record_of(catalog@, id) is None,
        },
{
    let mut i: usize = 0;
    assert(catalog@.skip(0) =~= catalog@);
    while i < catalog.len()
        invariant
            i <= catalog.len(),
            record_of(catalog@, id) == record_of(catalog@.skip(i as int), id),
        decreases catalog.len() - i,
    {
        if catalog[i].id == id {
            return Some(&catalog[i]);
        }
        assert(catalog@.skip(i as int).drop_first() =~= catalog@.skip(i + 1));
        i += 1;
    }
    None
}

/// The catalog record of each score's movie, in the order of the scores.
/// A movie that the catalog lacks fails the whole call: no score is passed
/// over in silence.
pub fn resolve<'a>(ranked: &Vec<CosineSimilarity>, catalog: &'a Vec<TopRatedMovie>) -> (outcome:
    Result<Vec<&'a TopRatedMovie>, SimilarityError>)
    ensures
        resolved(ranked@, catalog@, records_view(outcome)),
{
    let mut movies: Vec<&'a TopRatedMovie> = Vec::new();
    let mut k: usize = 0;
    while k < ranked.len()
        invariant
            k <= ranked.len(),
            movies.len() == k,
            forall|j: int|
                0 <= j < k ==> record_of(catalog@, (#[trigger] ranked[j]).movie_id) == Some(
                    *movies[j],
                ),
        decreases ranked.len() - k,
    {
        match find_movie(catalog, ranked[k].movie_id) {
            Some(movie) => {
                movies.push(movie);
            },
            None => {
                assert(first_missing(ranked@, catalog@, k as int));
                return Err(SimilarityError::Inconsistent { movie_id: ranked[k].movie_id });
            },
        }
        k += 1;
    }
    Ok(movies)
}

/// What ranking and resolving a list of scores gives: the records of the
/// `TOP_K` most similar movies, the most similar first.
pub open spec fn most_similar(
    similarities: Seq<CosineSimilarity>,
    catalog: Seq<TopRatedMovie>,
    outcome: Result<Seq<TopRatedMovie>, SimilarityError>,
) -> bool {
    if similarities.len() == 0 {
        outcome == Err::<Seq<TopRatedMovie>, SimilarityError>(SimilarityError::NoSimilarMovies)
    } else if exists|i: int|
        0 <= i < similarities.len() && (#[trigger] similarities[i]).similarity.not_a_number() {
        exists|i: int|
            #[trigger] first_unordered(similarities, i) && outcome == Err::<
                Seq<TopRatedMovie>,
                SimilarityError,
            >(SimilarityError::Unordered { movie_id: similarities[i].movie_id })
    } else {
        resolved(top_ranked(similarities), catalog, outcome)
    }
}

/// The catalog records of the `TOP_K` movies with the highest scores, the
/// most similar first; equally similar movies keep the order in which their
/// scores came. Fails where there is no score at all, where a score is not
/// a number, and where the catalog lacks one of the ranked movies.
pub fn most_similar_movies<'a>(
    similarities: &Vec<CosineSimilarity>,
    top_movies: &'a Vec<TopRatedMovie>,
) -> (outcome: Result<Vec<&'a TopRatedMovie>, SimilarityError>)
    ensures
        most_similar(similarities@, top_movies@, records_view(outcome)),
{
    if similarities.len() == 0 {
        return Err(SimilarityError::NoSimilarMovies);
    }
    match rank_top(similarities) {
        Ok(ranked) => resolve(&ranked, top_movies),
        Err(e) => Err(e),
    }
}

/// The `TOP_K` movies of the catalog that are most similar to the movie
/// `movie_id`, the most similar first, with `similarity` as the measure.
///
/// Every other movie that carries a vector is scored; the scores are
/// ranked, equal scores in the order of the embeddings; the first `TOP_K`
/// are resolved against the catalog. The call fails as
/// `find_similar_movies` and `most_similar_movies` do.
pub fn similar_movies<'a, F>(movie_id: &str, cache: &'a Cache, similarity: F) -> (outcome: Result<
    Vec<&'a TopRatedMovie>,
    SimilarityError,
>) where F: Fn(&Vec<Single>, &Vec<Single>) -> Option<Single>
    requires
        measures(similarity),
    ensures
        exists|scores: Result<Seq<CosineSimilarity>, SimilarityError>| #[trigger]
            similar_found(movie_id@, cache.movie_embeddings@, similarity, scores) && match scores {
                Ok(list) => most_similar(list, cache.top_movies@, records_view(outcome)),
                Err(e) => outcome == Err::<Vec<&'a TopRatedMovie>, SimilarityError>(e),
            },
{
    let found = find_similar_movies(movie_id, &cache.movie_embeddings, similarity);
    let outcome = match &found {
        Ok(scores) => most_similar_movies(scores, &cache.top_movies),
        Err(e) => Err(*e),
    };
    assert(similar_found(movie_id@, cache.movie_embeddings@, similarity, scores_view(found)));
    outcome
}

/// The first `TOP_K` movies of the catalog that meet the criteria, in the
/// order of the catalog.
pub open spec fn recommended(criteria: MovieCriteria, catalog: Seq<TopRatedMovie>) -> Seq<
    TopRatedMovie,
> {
    let kept = catalog.filter(|movie: TopRatedMovie| criteria.accepts(movie));
    if kept.len() <= TOP_K {
        kept
    } else {
        kept.take(TOP_K as int)
    }
}

/// The first `TOP_K` movies of the catalog that meet the criteria, in the
/// order of the catalog, or all of them where there are fewer.
pub fn recommend(criteria: MovieCriteria, top_movies: Vec<TopRatedMovie>) -> (movies: Vec<
    TopRatedMovie,
>)
    ensures
        movies@ == recommended(criteria, top_movies@),
{
    let mut movies = filter_movies(criteria, top_movies);
    movies.truncate(TOP_K);
    movies
}

/// The text that an answer gives where no tool call carries criteria.
pub open spec fn reply_text(choices: Seq<ChatCompletionChoice>) -> Seq<char> {
    if choices.len() == 0 {
        no_choices_text()
    } else {
        message_of(choices)
    }
}

/// The criteria that a chat answer asks to filter by: those that a tool
/// call carries, or else those that the text of the answer spells as JSON.
pub open spec fn criteria_asked(choices: Seq<ChatCompletionChoice>) -> Option<
    MovieCriteriaView,
> {
    match first_in_choices(choices) {
        Some(criteria) => Some(criteria),
        None => criteria_in(reply_text(choices), Seq::<char>::empty()),
    }
}

/// What a chat answer asks for: `Ok` with the criteria to filter the
/// catalog by, from a tool call or spelled as JSON in the text of the
/// answer; else `Err` with that text, which is then the reply.
pub fn chat_criteria(json: &ChatCompletionResponse) -> (asked: Result<MovieCriteria, String>)
    ensures
        match asked {
            Ok(criteria) => criteria_asked(json.choices@) == Some(criteria@),
            Err(reply) => criteria_asked(json.choices@) is None && reply@ == reply_text(
                json.choices@,
            ),
        },
{
    match extract_message(json) {
        Extracted::Criteria(criteria) => Ok(criteria),
        Extracted::Message(text) => match MovieCriteria::from_json(text.as_str()) {
            Some(criteria) => Ok(criteria),
            None => Err(text),
        },
    }
}

/// What the model is told before a question about one movie; the movie
/// follows it.
pub const QUESTION_PROMPT: &'static str =
    "Please answer the user's question using the provided movie context.
            context: ";

/// What the model is told before it turns a question into criteria.
pub const CRITERIA_PROMPT: &'static str = r#"Please take the user's question to generate a application/json response object with the following format that can be used in an api call:
            {
              "search"?: string, // A keyword search query
              "genre"?: string, // A genre to filter on. Single value. The genre should be one of: Action, Adventure, Animation, Comedy, Crime, Documentary, Drama, Family, Fantasy, History, Horror, Music, Mystery, Romance, Science Fiction, Thriller, War, Western, TV Movie.
              "mpaa"?: string, // An MPAA rating to filter on (PG, PG-13, R, etc.)
              "releaseDateMin"?: string, // The minimum release date to filter on. Format: YYYY-MM-DD
              "releaseDateMax"?: string, // The maximum release date to filter on. Format: YYYY-MM-DD
              "scoreMin"?: number, // The minimum vote/score/rating to filter on. 0-10 scale.
              "scoreMax"?: number // The maximum vote/score/rating to filter on. 0-10 scale.
            }
            "#;

/// What the model is told before a conversation about movies.
pub const CHAT_PROMPT: &'static str = r#"You are an expert movie critic. You will be tasked with providing movie recommendations to someone based on criteria they provide.
            You will need to phish for more information until you think you are ready to answer the question using the movie criteria.
            "#;

/// Whether `message` is said in the role `role`, holds the text `content`
/// and nothing else.
pub open spec fn says(message: Message, role: Seq<char>, content: Seq<char>) -> bool {
    &&& message.role@ == role
    &&& message.content is Some
    &&& message.content->0@ == content
    &&& message.name is None
    &&& message.tool_calls is None
}

/// A message in a role, with a text.
pub fn say(role: &str, content: String) -> (message: Message)
    ensures
        says(message, role@, content@),
{
    Message { role: role.to_owned(), content: Some(content), name: None, tool_calls: None }
}

/// The request that asks the model a question about one movie: the system
/// is given the movie as context, the user asks the question.
pub fn question_request(model: String, context: &str, question: String) -> (request:
    ChatCompletionRequest)
    ensures
        request.model == Some(model),
        request.messages@.len() == 2,
        says(request.messages@[0], "system"@, QUESTION_PROMPT@ + context@),
        says(request.messages@[1], "user"@, question@),
        request.response_format is None,
        request.tools is None,
{
    let mut told = QUESTION_PROMPT.to_owned();
    told.append(context);
    ChatCompletionRequest::builder().model(model).message(say("system", told)).message(
        say("user", question),
    ).build()
}

/// The request that has the model turn what the user typed into criteria,
/// written as a JSON object.
pub fn criteria_request(model: String, input: String) -> (request: ChatCompletionRequest)
    ensures
        request.model == Some(model),
        request.messages@.len() == 2,
        says(request.messages@[0], "system"@, CRITERIA_PROMPT@),
        says(request.messages@[1], "user"@, input@),
        request.response_format matches Some(format) && format.type_ == ResponseType::JsonObject,
        request.tools is None,
{
    ChatCompletionRequest::builder().model(model).message(
        say("system", CRITERIA_PROMPT.to_owned()),
    ).message(say("user", input)).response_format(
        ResponseFormat { type_: ResponseType::JsonObject },
    ).build()
}

/// The request that continues a conversation about movies: the system sets
/// the scene, the conversation follows in its order, and the model is
/// offered the filter tool.
pub fn chat_request(model: String, conversation: Vec<Message>) -> (request: ChatCompletionRequest)
    ensures
        request.model == Some(model),
        request.messages@.len() == conversation@.len() + 1,
        says(request.messages@[0], "system"@, CHAT_PROMPT@),
        request.messages@.skip(1) == conversation@,
        request.response_format matches Some(format) && format.type_ == ResponseType::Text,
        request.tools matches Some(tools) && tools@.len() == 1 && tools@[0].function.name@
            == FILTER_NAME@,
{
    let mut builder = ChatCompletionRequest::builder().model(model).tool(
        return_filter_tool(),
    ).response_format(ResponseFormat { type_: ResponseType::Text }).message(
        say("system", CHAT_PROMPT.to_owned()),
    );
    let ghost first = builder.messages@[0];
    let ghost tools = builder.tools;
    for message in it: conversation
        invariant
            it.seq() == conversation@,
            builder.model == Some(model),
            builder.messages@ == seq![first] + it.seq().take(it.index() as int),
            builder.response_format matches Some(format) && format.type_ == ResponseType::Text,
            builder.tools == tools,
    {
        proof {
            let i = it.index() as int;
            assert(it.seq().take(i + 1) =~= it.seq().take(i).push(message));
            assert((seq![first] + it.seq().take(i)).push(message) =~= seq![first] + it.seq().take(
                i + 1,
            ));
        }
        builder = builder.message(message);
    }
    let request = builder.build();
    proof {
        assert(conversation@.take(conversation@.len() as int) =~= conversation@);
        assert((seq![first] + conversation@).skip(1) =~= conversation@);
    }
    request
}

} // verus!
