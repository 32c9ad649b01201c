use vstd::prelude::*;

verus! {

/// Why a query could not be answered.
#[derive(Clone, Copy, Debug, PartialEq, Eq, Structural)]
pub enum EngineError {
    /// The completion service could not be reached.
    ServiceUnavailable,
    /// The service answered, but not with the expected envelope.
    MalformedResponse,
    /// The payload inside the envelope is not valid JSON or breaks the shape
    /// of a search result document.
    SchemaViolation,
}

/// The sentence that describes `e` to an end user.
pub open spec fn message_text(e: EngineError) -> Seq<char> {
    match e {
        EngineError::ServiceUnavailable => "the completion service could not be reached"@,
        EngineError::MalformedResponse => "the completion service sent a malformed response"@,
        EngineError::SchemaViolation => "the completion service sent results of the wrong shape"@,
    }
}

impl EngineError {
    /// A sentence that describes the error to an end user.
    pub fn message(&self) -> (r: String)
        ensures
            r@ == message_text(*self),
    {
        let r = match self {
            EngineError::ServiceUnavailable => "the completion service could not be reached",
            EngineError::MalformedResponse => "the completion service sent a malformed response",
            EngineError::SchemaViolation => "the completion service sent results of the wrong shape",
        };
        r.to_owned()
    }
}

} // verus!
