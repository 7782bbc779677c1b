//! Reading a chat answer: criteria that the model hands to a tool, or else
//! the text that it answers with.
use crate::model::chat_completion_response::{ChatCompletionChoice, ChatCompletionResponse,
    ToolCall};
use crate::model::movies::movie_criteria::{criteria_in, criteria_view, MovieCriteria,
    MovieCriteriaView};
use vstd::prelude::*;

verus! {

/// What stands for an answer without choices.
pub open spec fn no_choices_text() -> Seq<char> {
    "No choices found in JSON"@
}

/// What stands for an answer in which no choice has a text.
pub open spec fn no_message_text() -> Seq<char> {
    "Couldn't parse a message"@
}

/// Where the arguments of a tool call hold the criteria.
pub open spec fn criteria_place() -> Seq<char> {
    "/movie_criteria"@
}

/// What was taken from a chat answer.
#[derive(Clone, Debug)]
pub enum Extracted {
    /// The criteria that the model handed to a tool.
    Criteria(MovieCriteria),
    /// The text of the answer, or what stands for a missing one.
    Message(String),
}

/// The text of the first choice that has one.
pub open spec fn first_content(choices: Seq<ChatCompletionChoice>) -> Option<Seq<char>>
    decreases choices.len(),
{
    if choices.len() == 0 {
        None
    } else {
        match choices[0].message.content {
            Some(content) => Some(content@),
            None => first_content(choices.drop_first()),
        }
    }
}

/// The message that the choices give: the text of the first choice that has
/// one, or else `no_message_text`.
pub open spec fn message_of(choices: Seq<ChatCompletionChoice>) -> Seq<char> {
    match first_content(choices) {
        Some(content) => content,
        None => no_message_text(),
    }
}

/// The criteria that a tool call carries: its arguments are a JSON object
/// whose field `movie_criteria` holds them.
pub open spec fn call_criteria(call: ToolCall) -> Option<MovieCriteriaView> {
    match call.function.arguments {
        Some(arguments) => criteria_in(arguments@, criteria_place()),
        None => None,
    }
}

/// The criteria of the first call that carries any.
pub open spec fn first_in_calls(calls: Seq<ToolCall>) -> Option<MovieCriteriaView>
    decreases calls.len(),
{
    if calls.len() == 0 {
        None
    } else {
        match call_criteria(calls[0]) {
            Some(criteria) => Some(criteria),
            None => first_in_calls(calls.drop_first()),
        }
    }
}

/// The criteria that a choice carries in its tool calls.
pub open spec fn choice_criteria(choice: ChatCompletionChoice) -> Option<MovieCriteriaView> {
    match choice.message.tool_calls {
        Some(calls) => first_in_calls(calls@),
        None => None,
    }
}

/// The criteria of the first choice that carries any. A call whose
/// arguments spell no criteria is passed over.
pub open spec fn first_in_choices(choices: Seq<ChatCompletionChoice>) -> Option<
    MovieCriteriaView,
>
    decreases choices.len(),
{
    if choices.len() == 0 {
        None
    } else {
        match choice_criteria(choices[0]) {
            Some(criteria) => Some(criteria),
            None => first_in_choices(choices.drop_first()),
        }
    }
}

/// What is taken from the choices of an answer: criteria where a tool call
/// carries them, else the message, else what stands for a missing one.
pub open spec fn extracted_from(choices: Seq<ChatCompletionChoice>, found: Extracted) -> bool {
    if choices.len() == 0 {
        found matches Extracted::Message(text) && text@ == no_choices_text()
    } else {
        match first_in_choices(choices) {
            Some(criteria) => found matches Extracted::Criteria(c) && c@ == criteria,
            None => found matches Extracted::Message(text) && text@ == message_of(choices),
        }
    }
}

/// The text of the first choice that has one, or else
/// "Couldn't parse a message".
pub fn handle_choices(choices: &Vec<ChatCompletionChoice>) -> (message: String)
    ensures
        message@ == message_of(choices@),
{
    let mut i: usize = 0;
    assert(choices@.skip(0) =~= choices@);
    while i < choices.len()
        invariant
            i <= choices.len(),
            first_content(choices@) == first_content(choices@.skip(i as int)),
        decreases choices.len() - i,
    {
        match &choices[i].message.content {
            Some(content) => {
                return content.clone();
            },
            None => {},
        }
        assert(choices@.skip(i as int).drop_first() =~= choices@.skip(i + 1));
        i += 1;
    }
    "Couldn't parse a message".to_owned()
}

/// The criteria of the first call that carries any.
pub fn criteria_in_calls(calls: &Vec<ToolCall>) -> (criteria: Option<MovieCriteria>)
    ensures
        criteria_view(criteria) == first_in_calls(calls@),
{
    let mut j: usize = 0;
    assert(calls@.skip(0) =~= calls@);
    while j < calls.len()
        invariant
            j <= calls.len(),
            first_in_calls(calls@) == first_in_calls(calls@.skip(j as int)),
        decreases calls.len() - j,
    {
        match &calls[j].function.arguments {
            Some(arguments) => {
                match MovieCriteria::from_json_at(arguments.as_str(), "/movie_criteria") {
                    Some(criteria) => {
                        return Some(criteria);
                    },
                    None => {},
                }
            },
            None => {},
        }
        assert(calls@.skip(j as int).drop_first() =~= calls@.skip(j + 1));
        j += 1;
    }
    None
}

/// The criteria that the model handed to a tool: those of the first choice,
/// and in it of the first call, whose arguments spell any. Arguments that
/// spell none are passed over, and never fail the call.
pub fn handle_tool_calls(choices: &Vec<ChatCompletionChoice>) -> (criteria: Option<
    MovieCriteria,
>)
    ensures
        criteria_view(criteria) == first_in_choices(choices@),
{
    let mut i: usize = 0;
    assert(choices@.skip(0) =~= choices@);
    while i < choices.len()
        invariant
            i <= choices.len(),
            first_in_choices(choices@) == first_in_choices(choices@.skip(i as int)),
        decreases choices.len() - i,
    {
        match &choices[i].message.tool_calls {
            Some(calls) => {
                match criteria_in_calls(calls) {
                    Some(criteria) => {
                        return Some(criteria);
                    },
                    None => {},
                }
            },
            None => {},
        }
        assert(choices@.skip(i as int).drop_first() =~= choices@.skip(i + 1));
        i += 1;
    }
    None
}

/// What a chat answer holds for the caller: the criteria that the model
/// handed to a tool, or else its message. An answer without choices gives
/// the message "No choices found in JSON".
pub fn extract_message(json: &ChatCompletionResponse) -> (found: Extracted)
    ensures
        extracted_from(json.choices@, found),
{
    if json.choices.len() == 0 {
        return Extracted::Message("No choices found in JSON".to_owned());
    }
    match handle_tool_calls(&json.choices) {
        Some(criteria) => Extracted::Criteria(criteria),
        None => Extracted::Message(handle_choices(&json.choices)),
    }
}

/// Where no tool call carries criteria and the first choice has a text,
/// that text is what is taken from the answer.
pub proof fn lemma_text_of_first_choice(choices: Seq<ChatCompletionChoice>, found: Extracted)
    requires
        choices.len() > 0,
        choices[0].message.content is Some,
        first_in_choices(choices) is None,
        extracted_from(choices, found),
    ensures
        found matches Extracted::Message(text) && text@ == choices[0].message.content->0@,
{
}

/// Where the first call of the first choice carries criteria, these are
/// what is taken from the answer, whatever text stands beside them.
pub proof fn lemma_criteria_of_first_call(choices: Seq<ChatCompletionChoice>, found: Extracted)
    requires
        choices.len() > 0,
        choices[0].message.tool_calls matches Some(calls) && calls@.len() > 0 && call_criteria(
            calls@[0],
        ) is Some,
        extracted_from(choices, found),
    ensures
        found matches Extracted::Criteria(criteria) && Some(criteria@) == call_criteria(
            choices[0].message.tool_calls->0@[0],
        ),
{
}

} // verus!
