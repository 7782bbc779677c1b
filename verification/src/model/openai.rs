//! The first form of the chat messages: what a user says, and what comes back.
use crate::model::missing_field::MissingField;
use vstd::prelude::*;

verus! {

/// A completion in the older form.
#[derive(Clone, Debug)]
pub struct OAIChoices {
    pub text: String,
    pub index: u8,
    pub logprobs: Option<u8>,
    pub finish_reason: String,
}

/// What the model answered.
#[derive(Clone, Debug)]
pub struct OAIResponse {
    pub id: Option<String>,
    pub object: Option<String>,
    pub created: Option<u64>,
    pub model: Option<String>,
    pub choices: Vec<OAIChoiceResponse>,
}

/// One message of a conversation.
#[derive(Clone, Debug)]
pub struct UserMessage {
    pub role: String,
    pub content: String,
}

impl UserMessage {
    pub fn builder() -> (b: UserMessageBuilder)
        ensures
            b.role is None,
            b.content is None,
    {
        UserMessageBuilder::new()
    }
}

/// Collects the fields of a `UserMessage` one at a time.
pub struct UserMessageBuilder {
    pub role: Option<String>,
    pub content: Option<String>,
}

impl UserMessageBuilder {
    pub fn new() -> (b: Self)
        ensures
            b.role is None,
            b.content is None,
    {
        UserMessageBuilder { role: None, content: None }
    }

    pub fn role(self, role: String) -> (b: Self)
        ensures
            b == (UserMessageBuilder { role: Some(role), ..self }),
    {
        UserMessageBuilder { role: Some(role), content: self.content }
    }

    pub fn content(self, content: String) -> (b: Self)
        ensures
            b == (UserMessageBuilder { content: Some(content), ..self }),
    {
        UserMessageBuilder { role: self.role, content: Some(content) }
    }

    /// The message; it cannot be built without a role, nor without content.
    pub fn build(self) -> (r: Result<UserMessage, MissingField>)
        ensures
            r == match (self.role, self.content) {
                (Some(role), Some(content)) => Ok::<UserMessage, MissingField>(
                    UserMessage { role, content },
                ),
                (None, _) => Err::<UserMessage, MissingField>(MissingField::Role),
                (Some(_), None) => Err::<UserMessage, MissingField>(MissingField::Content),
            },
    {
        match self.role {
            Some(role) => match self.content {
                Some(content) => Ok(UserMessage { role, content }),
                None => Err(MissingField::Content),
            },
            None => Err(MissingField::Role),
        }
    }
}

/// A chat request.
#[derive(Clone, Debug)]
pub struct OAIRequest {
    pub messages: Vec<UserMessage>,
}

/// One of the answers that the model offers.
#[derive(Clone, Debug)]
pub struct OAIChoiceResponse {
    pub message: UserMessage,
}

} // verus!
