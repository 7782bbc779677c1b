//! Why a builder could not build.
use vstd::prelude::*;

verus! {

/// The field that a value cannot be built without, and that was not given.
#[derive(Clone, Copy, Debug, PartialEq, Eq, Structural)]
pub enum MissingField {
    Role,
    Content,
    Name,
    Type,
    Function,
    Model,
    MovieId,
}

} // verus!
