use vstd::prelude::*;

verus! {

/// Every way an operation of this library can fail.
#[derive(Debug, Clone, PartialEq, Eq)]
pub enum PlaygroundError {
    /// A template was empty or held only white space.
    EmptyTemplate,
    /// The completion client was used before `initialize`.
    NotInitialized,
    /// The HTTP transport could not be created or the request did not go through.
    Transport,
    /// The endpoint answered with a status outside 200..=299.
    HttpStatus { code: u16 },
    /// The reply held no `message.content` string.
    MalformedResponse,
    /// No template stands at the index asked for.
    TemplateNotFound,
    /// `process` was asked of a component that has nothing to process.
    NothingToProcess,
}

} // verus!
