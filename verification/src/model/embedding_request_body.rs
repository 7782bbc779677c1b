//! The request for the embedding of some texts.
use crate::model::missing_field::MissingField;
use vstd::prelude::*;

verus! {

/// What is sent to have texts embedded.
#[derive(Clone, Debug)]
pub struct EmbeddingRequestBody {
    pub input: Vec<String>,
    pub model: String,
    pub encoding_format: Option<String>,
    pub dimensions: Option<i32>,
    pub user: Option<String>,
}

impl EmbeddingRequestBody {
    pub fn builder() -> (b: EmbeddingRequestBodyBuilder)
        ensures
            b.is_new(),
    {
        EmbeddingRequestBodyBuilder::new()
    }
}

/// Collects the fields of an `EmbeddingRequestBody` one at a time.
pub struct EmbeddingRequestBodyBuilder {
    pub input: Vec<String>,
    pub model: Option<String>,
    pub encoding_format: Option<String>,
    pub dimensions: Option<i32>,
    pub user: Option<String>,
}

impl EmbeddingRequestBodyBuilder {
    /// Whether nothing was given yet.
    pub open spec fn is_new(self) -> bool {
        &&& self.input@.len() == 0
        &&& self.model is None
        &&& self.encoding_format is None
        &&& self.dimensions is None
        &&& self.user is None
    }

    pub fn new() -> (b: Self)
        ensures
            b.is_new(),
    {
        EmbeddingRequestBodyBuilder {
            input: Vec::new(),
            model: None,
            encoding_format: None,
            dimensions: None,
            user: None,
        }
    }

    pub fn input(self, input: Vec<String>) -> (b: Self)
        ensures
            b == (EmbeddingRequestBodyBuilder { input, ..self }),
    {
        let mut b = self;
        b.input = input;
        b
    }

    pub fn model(self, model: Option<String>) -> (b: Self)
        ensures
            b == (EmbeddingRequestBodyBuilder { model, ..self }),
    {
        let mut b = self;
        b.model = model;
        b
    }

    pub fn encoding_format(self, encoding_format: Option<String>) -> (b: Self)
        ensures
            b == (EmbeddingRequestBodyBuilder { encoding_format, ..self }),
    {
        let mut b = self;
        b.encoding_format = encoding_format;
        b
    }

    pub fn dimensions(self, dimensions: Option<i32>) -> (b: Self)
        ensures
            b == (EmbeddingRequestBodyBuilder { dimensions, ..self }),
    {
        let mut b = self;
        b.dimensions = dimensions;
        b
    }

    pub fn user(self, user: Option<String>) -> (b: Self)
        ensures
            b == (EmbeddingRequestBodyBuilder { user, ..self }),
    {
        let mut b = self;
        b.user = user;
        b
    }

    /// The request; it cannot be built without a model.
    pub fn build(self) -> (r: Result<EmbeddingRequestBody, MissingField>)
        ensures
            r == match self.model {
                Some(model) => Ok::<EmbeddingRequestBody, MissingField>(
                    EmbeddingRequestBody {
                        input: self.input,
                        model,
                        encoding_format: self.encoding_format,
                        dimensions: self.dimensions,
                        user: self.user,
                    },
                ),
                None => Err::<EmbeddingRequestBody, MissingField>(MissingField::Model),
            },
    {
        match self.model {
            Some(model) => Ok(
                EmbeddingRequestBody {
                    input: self.input,
                    model,
                    encoding_format: self.encoding_format,
                    dimensions: self.dimensions,
                    user: self.user,
                },
            ),
            None => Err(MissingField::Model),
        }
    }
}

} // verus!
