//! The answer to a plain chat request.
use crate::model::open_ai_request::Message;
use vstd::prelude::*;

verus! {

/// A completion in the older form.
#[derive(Clone, Debug)]
pub struct OAIChoices {
    pub text: String,
    pub index: u8,
    pub logprobs: Option<u8>,
    pub finish_reason: String,
}

/// One of the answers that the model offers.
#[derive(Clone, Debug)]
pub struct OAIChoiceResponse {
    pub message: Message,
}

/// What the model answered.
#[derive(Clone, Debug)]
pub struct OAIResponse {
    pub id: Option<String>,
    pub object: Option<String>,
    pub created: Option<u64>,
    pub model: Option<String>,
    pub choices: Vec<OAIChoiceResponse>,
}

} // verus!
