//! What a request carries in its query string.
use vstd::prelude::*;

verus! {

/// A question about one movie.
#[derive(Clone, Debug)]
pub struct QuestionObject {
    pub question: String,
}

/// What the user typed, to be turned into criteria.
#[derive(Clone, Debug)]
pub struct InputObject {
    pub input: String,
}

} // verus!
