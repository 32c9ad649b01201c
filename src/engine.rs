//! Building the completion request, reading the completion service's answer
//! and memoising validated documents per query.
use vstd::prelude::*;
use crate::cache::{store_model, Cache};
use crate::error::EngineError;
use crate::document::{decode_document, document_of};
use crate::json::{json_of, parse_json, text_member, text_member_of};
use crate::model::{ResultsModel, SearchResults};

verus! {

/// Address of the completion service.
pub const COMPLETION_URL: &'static str = "http://localhost:8080/completion";

/// Seed sent with every request, so that sampling is reproducible.
pub const SEED: u64 = 0;

/// Prompt text before the schema.
pub const PROMPT_OPENING: &'static str = "You are a search engine. Write the results page for the query below as one JSON document that follows this JSON schema:\n";

/// Prompt text between the schema and the query.
pub const PROMPT_MIDDLE: &'static str = "\n\nQuery: ";

/// Prompt text after the query.
pub const PROMPT_CLOSING: &'static str = "\n";

/// The prompt for `query`, with the schema text embedded.
pub open spec fn prompt_text(schema: Seq<char>, query: Seq<char>) -> Seq<char> {
    PROMPT_OPENING@ + schema + PROMPT_MIDDLE@ + query + PROMPT_CLOSING@
}

/// The body of one call to the completion service.
#[derive(Clone, Debug, PartialEq, Eq)]
pub struct CompletionRequest {
    pub prompt: String,
    /// The JSON schema of a results document, as JSON text.
    pub json_schema: String,
    pub seed: u64,
}

/// Builds the request for `query`, given the JSON schema of a results
/// document as text.
pub fn build_request(schema: &str, query: &str) -> (r: CompletionRequest)
    ensures
        r.prompt@ == prompt_text(schema@, query@),
        r.json_schema@ == schema@,
        r.seed == SEED,
{
    let mut prompt = PROMPT_OPENING.to_owned();
    prompt.append(schema);
    prompt.append(PROMPT_MIDDLE);
    prompt.append(query);
    prompt.append(PROMPT_CLOSING);
    CompletionRequest { prompt, json_schema: schema.to_owned(), seed: SEED }
}

/// The text held in the envelope's string member `content`, when the body
/// is a JSON object that has one.
pub open spec fn envelope_content_of(body: Seq<char>) -> Option<Seq<char>> {
    match json_of(body) {
        Some(v) => text_member_of(v, "content"@),
        None => None,
    }
}

/// What the content text gives: the document it holds when that is JSON
/// text of a valid document, else a schema violation.
pub open spec fn payload_outcome(content: Seq<char>) -> Result<ResultsModel, EngineError> {
    match json_of(content) {
        Some(v) => match document_of(v) {
            Some(d) => if d.valid() {
                Ok(d)
            } else {
                Err(EngineError::SchemaViolation)
            },
            None => Err(EngineError::SchemaViolation),
        },
        None => Err(EngineError::SchemaViolation),
    }
}

/// What a reply body from the service gives: a malformed response when it
/// is no envelope with string content, else what that content gives.
pub open spec fn reply_outcome(body: Seq<char>) -> Result<ResultsModel, EngineError> {
    match envelope_content_of(body) {
        Some(content) => payload_outcome(content),
        None => Err(EngineError::MalformedResponse),
    }
}

/// Reads the service's envelope, a JSON object whose member `content` is a
/// string holding the JSON text of the document, and returns that string.
pub fn decode_envelope(body: &str) -> (r: Result<String, EngineError>)
    ensures
        match r {
            Ok(s) => envelope_content_of(body@) == Some(s@),
            Err(e) => envelope_content_of(body@) is None && e == EngineError::MalformedResponse,
        },
{
    let envelope = match parse_json(body) {
        Some(v) => v,
        None => return Err(EngineError::MalformedResponse),
    };
    match text_member(&envelope, "content") {
        Some(s) => Ok(s),
        None => Err(EngineError::MalformedResponse),
    }
}

/// Accepts a document exactly when it satisfies every bound of its shape.
pub fn check_document(doc: SearchResults) -> (r: Result<SearchResults, EngineError>)
    ensures
        r is Ok <==> doc@.valid(),
        r matches Ok(v) ==> v@ == doc@,
        r matches Err(e) ==> e == EngineError::SchemaViolation,
{
    if doc.is_valid() {
        Ok(doc)
    } else {
        Err(EngineError::SchemaViolation)
    }
}

/// Reads and checks the document held as JSON text in the envelope's
/// `content`.
pub fn decode_payload(content: &str) -> (r: Result<SearchResults, EngineError>)
    ensures
        match r {
            Ok(v) => payload_outcome(content@) == Ok::<ResultsModel, EngineError>(v@),
            Err(e) => payload_outcome(content@) == Err::<ResultsModel, EngineError>(e),
        },
{
    let value = match parse_json(content) {
        Some(v) => v,
        None => return Err(EngineError::SchemaViolation),
    };
    match decode_document(&value) {
        Some(doc) => check_document(doc),
        None => Err(EngineError::SchemaViolation),
    }
}

/// Checks a document read from the service and, when it is valid, stores
/// it under `query` and returns it; otherwise the cache is left as it was.
pub fn accept_document(cache: &mut Cache, query: &str, doc: SearchResults) -> (r: Result<SearchResults, EngineError>)
    requires
        old(cache).wf(),
    ensures
        final(cache).wf(),
        r is Ok <==> doc@.valid(),
        r matches Ok(v) ==> v@ == doc@ && final(cache)@ == store_model(old(cache)@, query@, doc@),
        r matches Err(e) ==> e == EngineError::SchemaViolation && final(cache)@ == old(cache)@,
{
    let doc = check_document(doc)?;
    cache.store(query, doc.duplicate());
    Ok(doc)
}

/// Answers `query` from what the completion service sent: `reply` is the
/// body of its response, or nothing when the call could not be made. A
/// document is cached only when it is returned; no error is ever cached.
pub fn finish_request(cache: &mut Cache, query: &str, reply: Option<String>) -> (r: Result<SearchResults, EngineError>)
    requires
        old(cache).wf(),
    ensures
        final(cache).wf(),
        match reply {
            None => r == Err::<SearchResults, EngineError>(EngineError::ServiceUnavailable),
            Some(body) => match r {
                Ok(v) => reply_outcome(body@) == Ok::<ResultsModel, EngineError>(v@),
                Err(e) => reply_outcome(body@) == Err::<ResultsModel, EngineError>(e),
            },
        },
        r matches Ok(v) ==> v@.valid() && final(cache)@ == store_model(old(cache)@, query@, v@),
        r is Err ==> final(cache)@ == old(cache)@,
{
    let body = match reply {
        Some(b) => b,
        None => return Err(EngineError::ServiceUnavailable),
    };
    let content = decode_envelope(body.as_str())?;
    let doc = decode_payload(content.as_str())?;
    accept_document(cache, query, doc)
}

} // verus!
