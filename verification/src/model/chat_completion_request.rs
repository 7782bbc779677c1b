//! A chat request that may offer tools to the model.
use crate::model::missing_field::MissingField;
use vstd::prelude::*;

verus! {

/// What a tool is called with.
#[derive(Clone, Debug)]
pub struct ToolCallFunction {
    pub name: Option<String>,
    pub arguments: Option<String>,
}

/// A call of a tool, as the model asks for it.
#[derive(Clone, Debug)]
pub struct ToolCall {
    pub id: String,
    pub _type: String,
    pub function: ToolCallFunction,
}

/// One message of a conversation.
#[derive(Clone, Debug)]
pub struct Message {
    pub role: String,
    pub content: Option<String>,
    pub name: Option<String>,
    pub tool_calls: Option<Vec<ToolCall>>,
}

impl Message {
    pub fn builder() -> (b: MessageBuilder)
        ensures
            b.is_new(),
    {
        MessageBuilder::new()
    }
}

/// Collects the fields of a `Message` one at a time.
pub struct MessageBuilder {
    pub role: Option<String>,
    pub content: Option<String>,
    pub name: Option<String>,
    pub tool_calls: Option<Vec<ToolCall>>,
}

impl MessageBuilder {
    /// Whether nothing was given yet.
    pub open spec fn is_new(self) -> bool {
        self.role is None && self.content is None && self.name is None && self.tool_calls is None
    }

    pub fn new() -> (b: Self)
        ensures
            b.is_new(),
    {
        MessageBuilder { role: None, content: None, name: None, tool_calls: None }
    }

    pub fn role(self, role: String) -> (b: Self)
        ensures
            b == (MessageBuilder { role: Some(role), ..self }),
    {
        let mut b = self;
        b.role = Some(role);
        b
    }

    pub fn content(self, content: String) -> (b: Self)
        ensures
            b == (MessageBuilder { content: Some(content), ..self }),
    {
        let mut b = self;
        b.content = Some(content);
        b
    }

    pub fn name(self, name: String) -> (b: Self)
        ensures
            b == (MessageBuilder { name: Some(name), ..self }),
    {
        let mut b = self;
        b.name = Some(name);
        b
    }

    /// The message; it cannot be built without a role.
    pub fn build(self) -> (r: Result<Message, MissingField>)
        ensures
            r == match self.role {
                Some(role) => Ok::<Message, MissingField>(
                    Message {
                        role,
                        content: self.content,
                        name: self.name,
                        tool_calls: self.tool_calls,
                    },
                ),
                None => Err::<Message, MissingField>(MissingField::Role),
            },
    {
        match self.role {
            Some(role) => Ok(
                Message {
                    role,
                    content: self.content,
                    name: self.name,
                    tool_calls: self.tool_calls,
                },
            ),
            None => Err(MissingField::Role),
        }
    }
}

/// The kind of answer that is wanted.
#[derive(Clone, Copy, Debug, PartialEq, Eq)]
pub enum ResponseType {
    Text,
    JsonObject,
}

/// The form in which the answer is wanted.
#[derive(Clone, Copy, Debug)]
pub struct ResponseFormat {
    pub type_: ResponseType,
}

/// A function that the model may ask to have called. Its parameters are a
/// JSON schema, carried as it is.
#[derive(Clone, Debug)]
pub struct ToolFunction {
    pub description: Option<String>,
    pub name: String,
    pub parameters: Option<serde_json::Value>,
}

impl ToolFunction {
    pub fn builder() -> (b: ToolFunctionBuilder)
        ensures
            b.description is None,
            b.name is None,
            b.parameters is None,
    {
        ToolFunctionBuilder::new()
    }
}

/// Collects the fields of a `ToolFunction` one at a time.
pub struct ToolFunctionBuilder {
    pub description: Option<String>,
    pub name: Option<String>,
    pub parameters: Option<serde_json::Value>,
}

impl ToolFunctionBuilder {
    pub fn new() -> (b: Self)
        ensures
            b.description is None,
            b.name is None,
            b.parameters is None,
    {
        ToolFunctionBuilder { description: None, name: None, parameters: None }
    }

    pub fn description(self, description: String) -> (b: Self)
        ensures
            b == (ToolFunctionBuilder { description: Some(description), ..self }),
    {
        let mut b = self;
        b.description = Some(description);
        b
    }

    pub fn name(self, name: String) -> (b: Self)
        ensures
            b == (ToolFunctionBuilder { name: Some(name), ..self }),
    {
        let mut b = self;
        b.name = Some(name);
        b
    }

    pub fn parameters(self, parameters: serde_json::Value) -> (b: Self)
        ensures
            b == (ToolFunctionBuilder { parameters: Some(parameters), ..self }),
    {
        let mut b = self;
        b.parameters = Some(parameters);
        b
    }

    /// The function; it cannot be built without a name.
    pub fn build(self) -> (r: Result<ToolFunction, MissingField>)
        ensures
            r == match self.name {
                Some(name) => Ok::<ToolFunction, MissingField>(
                    ToolFunction {
                        description: self.description,
                        name,
                        parameters: self.parameters,
                    },
                ),
                None => Err::<ToolFunction, MissingField>(MissingField::Name),
            },
    {
        match self.name {
            Some(name) => Ok(
                ToolFunction { description: self.description, name, parameters: self.parameters },
            ),
            None => Err(MissingField::Name),
        }
    }
}

/// A tool that the model may use.
#[derive(Clone, Debug)]
pub struct RequestTool {
    pub _type: String,
    pub function: ToolFunction,
}

impl RequestTool {
    pub fn builder() -> (b: RequestToolBuilder)
        ensures
            b._type is Some,
            b._type->0@ == "function"@,
            b.function is None,
    {
        RequestToolBuilder::new()
    }
}

/// Collects the fields of a `RequestTool`; its type is `function` unless
/// another is given.
pub struct RequestToolBuilder {
    pub _type: Option<String>,
    pub function: Option<ToolFunction>,
}

impl RequestToolBuilder {
    pub fn new() -> (b: Self)
        ensures
            b._type is Some,
            b._type->0@ == "function"@,
            b.function is None,
    {
        RequestToolBuilder { _type: Some("function".to_owned()), function: None }
    }

    pub fn _type(self, _type: String) -> (b: Self)
        ensures
            b == (RequestToolBuilder { _type: Some(_type), ..self }),
    {
        let mut b = self;
        b._type = Some(_type);
        b
    }

    pub fn function(self, function: ToolFunction) -> (b: Self)
        ensures
            b == (RequestToolBuilder { function: Some(function), ..self }),
    {
        let mut b = self;
        b.function = Some(function);
        b
    }

    /// The tool; it cannot be built without a type, nor without a function.
    pub fn build(self) -> (r: Result<RequestTool, MissingField>)
        ensures
            r == match (self._type, self.function) {
                (Some(_type), Some(function)) => Ok::<RequestTool, MissingField>(
                    RequestTool { _type, function },
                ),
                (None, _) => Err::<RequestTool, MissingField>(MissingField::Type),
                (Some(_), None) => Err::<RequestTool, MissingField>(MissingField::Function),
            },
    {
        match self._type {
            Some(_type) => match self.function {
                Some(function) => Ok(RequestTool { _type, function }),
                None => Err(MissingField::Function),
            },
            None => Err(MissingField::Type),
        }
    }
}

/// A chat request.
#[derive(Clone, Debug)]
pub struct ChatCompletionRequest {
    pub model: Option<String>,
    pub messages: Vec<Message>,
    pub response_format: Option<ResponseFormat>,
    pub tools: Option<Vec<RequestTool>>,
}

impl ChatCompletionRequest {
    pub fn builder() -> (b: ChatCompletionRequestBuilder)
        ensures
            b.is_new(),
    {
        ChatCompletionRequestBuilder::new()
    }
}

/// Collects the fields of a `ChatCompletionRequest`; messages and tools are
/// kept in the order in which they were given.
pub struct ChatCompletionRequestBuilder {
    pub model: Option<String>,
    pub messages: Vec<Message>,
    pub response_format: Option<ResponseFormat>,
    pub tools: Option<Vec<RequestTool>>,
}

impl ChatCompletionRequestBuilder {
    /// Whether nothing was given yet.
    pub open spec fn is_new(self) -> bool {
        &&& self.model is None
        &&& self.messages@.len() == 0
        &&& self.response_format is None
        &&& self.tools is None
    }

    /// The tools that were given so far.
    pub open spec fn tools_given(self) -> Seq<RequestTool> {
        match self.tools {
            Some(tools) => tools@,
            None => Seq::empty(),
        }
    }

    pub fn new() -> (b: Self)
        ensures
            b.is_new(),
    {
        ChatCompletionRequestBuilder {
            model: None,
            messages: Vec::new(),
            response_format: None,
            tools: None,
        }
    }

    pub fn model(self, model: String) -> (b: Self)
        ensures
            b == (ChatCompletionRequestBuilder { model: Some(model), ..self }),
    {
        let mut b = self;
        b.model = Some(model);
        b
    }

    pub fn message(self, message: Message) -> (b: Self)
        ensures
            b.messages@ == self.messages@.push(message),
            b.model == self.model,
            b.response_format == self.response_format,
            b.tools == self.tools,
    {
        let mut b = self;
        b.messages.push(message);
        b
    }

    pub fn response_format(self, response_format: ResponseFormat) -> (b: Self)
        ensures
            b == (ChatCompletionRequestBuilder {
                response_format: Some(response_format),
                ..self
            }),
    {
        let mut b = self;
        b.response_format = Some(response_format);
        b
    }

    pub fn tool(self, request_tool: RequestTool) -> (b: Self)
        ensures
            b.tools is Some,
            b.tools_given() == self.tools_given().push(request_tool),
            b.model == self.model,
            b.messages == self.messages,
            b.response_format == self.response_format,
    {
        let mut tools = match self.tools {
            Some(tools) => tools,
            None => Vec::new(),
        };
        tools.push(request_tool);
        ChatCompletionRequestBuilder {
            model: self.model,
            messages: self.messages,
            response_format: self.response_format,
            tools: Some(tools),
        }
    }

    pub fn build(self) -> (request: ChatCompletionRequest)
        ensures
            request.model == self.model,
            request.messages == self.messages,
            request.response_format == self.response_format,
            request.tools == self.tools,
    {
        ChatCompletionRequest {
            model: self.model,
            messages: self.messages,
            response_format: self.response_format,
            tools: self.tools,
        }
    }
}

} // verus!
