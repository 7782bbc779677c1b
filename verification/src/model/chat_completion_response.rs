//! What the language model answers to a chat request.
use std::collections::HashMap;
use vstd::prelude::*;

verus! {

/// A completion in the older form.
#[derive(Clone, Debug)]
pub struct OAIChoices {
    pub text: String,
    pub index: u8,
    pub logprobs: Option<u8>,
    pub finish_reason: String,
}

/// What the request cost.
#[derive(Clone, Copy, Debug)]
pub struct Usage {
    pub prompt_tokens: i32,
    pub completion_tokens: i32,
    pub total_tokens: i32,
}

/// Who speaks in a message.
#[allow(non_camel_case_types)]
#[derive(Clone, Copy, Debug, PartialEq, Eq)]
pub enum MessageRole {
    user,
    system,
    assistant,
    function,
}

/// What a tool is called with: the arguments are JSON, as a text.
#[derive(Clone, Debug)]
pub struct ToolCallFunction {
    pub name: Option<String>,
    pub arguments: Option<String>,
}

/// A call of a tool, as the model asks for it.
#[derive(Clone, Debug)]
pub struct ToolCall {
    pub id: String,
    pub _type: String,
    pub function: ToolCallFunction,
}

/// Why the model stopped.
#[allow(non_camel_case_types)]
#[derive(Clone, Copy, Debug, PartialEq, Eq)]
pub enum FinishReason {
    stop,
    length,
    content_filter,
    tool_calls,
    null,
}

/// More on why the model stopped.
#[derive(Clone, Debug)]
pub struct FinishDetails {
    pub _type: FinishReason,
    pub stop: String,
}

/// What the model says in one choice: a text, calls of tools, both or
/// neither.
#[derive(Clone, Debug)]
pub struct ChatCompletionMessageForResponse {
    pub role: MessageRole,
    pub content: Option<String>,
    pub name: Option<String>,
    pub tool_calls: Option<Vec<ToolCall>>,
}

/// One of the answers that the model offers.
#[derive(Clone, Debug)]
pub struct ChatCompletionChoice {
    pub index: i64,
    pub message: ChatCompletionMessageForResponse,
    pub finish_reason: Option<FinishReason>,
    pub finish_details: Option<FinishDetails>,
}

/// The whole answer: the choices in the order in which the model gave them.
#[derive(Clone, Debug)]
pub struct ChatCompletionResponse {
    pub id: Option<String>,
    pub object: Option<String>,
    pub created: Option<u64>,
    pub model: Option<String>,
    pub choices: Vec<ChatCompletionChoice>,
    pub usage: Usage,
    pub system_fingerprint: Option<String>,
    pub headers: Option<HashMap<String, String>>,
}

} // verus!
