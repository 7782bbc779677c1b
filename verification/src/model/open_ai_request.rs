//! A plain chat request: a model and messages.
use crate::model::missing_field::MissingField;
use vstd::prelude::*;

verus! {

/// One message of a conversation.
#[derive(Clone, Debug)]
pub struct Message {
    pub role: String,
    pub content: String,
}

impl Message {
    pub fn builder() -> (b: MessageBuilder)
        ensures
            b.role is None,
            b.content is None,
    {
        MessageBuilder::new()
    }
}

/// Collects the fields of a `Message` one at a time.
pub struct MessageBuilder {
    pub role: Option<String>,
    pub content: Option<String>,
}

impl MessageBuilder {
    pub fn new() -> (b: Self)
        ensures
            b.role is None,
            b.content is None,
    {
        MessageBuilder { role: None, content: None }
    }

    pub fn role(self, role: String) -> (b: Self)
        ensures
            b == (MessageBuilder { role: Some(role), ..self }),
    {
        MessageBuilder { role: Some(role), content: self.content }
    }

    pub fn content(self, content: String) -> (b: Self)
        ensures
            b == (MessageBuilder { content: Some(content), ..self }),
    {
        MessageBuilder { role: self.role, content: Some(content) }
    }

    /// The message; it cannot be built without a role, nor without content.
    pub fn build(self) -> (r: Result<Message, MissingField>)
        ensures
            r == match (self.role, self.content) {
                (Some(role), Some(content)) => Ok::<Message, MissingField>(
                    Message { role, content },
                ),
                (None, _) => Err::<Message, MissingField>(MissingField::Role),
                (Some(_), None) => Err::<Message, MissingField>(MissingField::Content),
            },
    {
        match self.role {
            Some(role) => match self.content {
                Some(content) => Ok(Message { role, content }),
                None => Err(MissingField::Content),
            },
            None => Err(MissingField::Role),
        }
    }
}

/// The form in which the answer is wanted.
#[derive(Clone, Debug)]
pub struct ResponseFormat {
    pub type_: String,
}

/// A chat request.
#[derive(Clone, Debug)]
pub struct OAIRequest {
    pub model: Option<String>,
    pub messages: Vec<Message>,
    pub response_format: Option<ResponseFormat>,
}

impl OAIRequest {
    pub fn builder() -> (b: OAIRequestBuilder)
        ensures
            b.model is None,
            b.messages@.len() == 0,
            b.response_format is None,
    {
        OAIRequestBuilder::new()
    }
}

/// Collects the fields of an `OAIRequest`; messages are kept in the order
/// in which they were given.
pub struct OAIRequestBuilder {
    pub model: Option<String>,
    pub messages: Vec<Message>,
    pub response_format: Option<ResponseFormat>,
}

impl OAIRequestBuilder {
    pub fn new() -> (b: Self)
        ensures
            b.model is None,
            b.messages@.len() == 0,
            b.response_format is None,
    {
        OAIRequestBuilder { model: None, messages: Vec::new(), response_format: None }
    }

    pub fn model(self, model: String) -> (b: Self)
        ensures
            b == (OAIRequestBuilder { model: Some(model), ..self }),
    {
        let mut b = self;
        b.model = Some(model);
        b
    }

    pub fn message(self, message: Message) -> (b: Self)
        ensures
            b.messages@ == self.messages@.push(message),
            b.model == self.model,
            b.response_format == self.response_format,
    {
        let mut b = self;
        b.messages.push(message);
        b
    }

    pub fn response_format(self, response_format: ResponseFormat) -> (b: Self)
        ensures
            b == (OAIRequestBuilder { response_format: Some(response_format), ..self }),
    {
        let mut b = self;
        b.response_format = Some(response_format);
        b
    }

    pub fn build(self) -> (request: OAIRequest)
        ensures
            request.model == self.model,
            request.messages == self.messages,
            request.response_format == self.response_format,
    {
        OAIRequest {
            model: self.model,
            messages: self.messages,
            response_format: self.response_format,
        }
    }
}

} // verus!
