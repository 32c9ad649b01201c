//! Properties that relate the engine's functions to one another.
use vstd::prelude::*;
use crate::cache::{lookup_model, store_model, CacheModel};
use crate::document::{document_of, results_of};
use crate::engine::{envelope_content_of, payload_outcome, reply_outcome};
use crate::error::EngineError;
use crate::json::{json_of, member_of, text_of, Json};
use crate::model::{ResultModel, ResultsModel, BLURB_MAX, RESULTS_MAX, RESULTS_MIN, TITLE_MAX};

verus! {

/// Once a document is stored for a query, a lookup of the same query text
/// finds that very document, so a repeated request is answered from the
/// cache with no call to the service.
pub proof fn law_repeated_query_hits_cache(m: CacheModel, query: Seq<char>, doc: ResultsModel)
    ensures
        lookup_model(store_model(m, query, doc), query) == Some(doc),
{
}

/// Storing a document for one query text leaves the lookup of every other
/// query text as it was.
pub proof fn law_distinct_queries_isolated(m: CacheModel, stored: Seq<char>, other: Seq<char>, doc: ResultsModel)
    requires
        stored != other,
    ensures
        lookup_model(store_model(m, stored, doc), other) == lookup_model(m, other),
{
}

/// A document with fewer than 10 or more than 20 results is not valid, so
/// it is rejected whole rather than cut or padded.
pub proof fn law_result_count_enforced(doc: ResultsModel)
    requires
        doc.results.len() < RESULTS_MIN || doc.results.len() > RESULTS_MAX,
    ensures
        !doc.valid(),
{
}

/// A document with a result title over 100 characters, or with a panel
/// blurb over 400 characters, is not valid.
pub proof fn law_field_bounds_enforced(doc: ResultsModel)
    requires
        (exists|i: int| 0 <= i < doc.results.len() && #[trigger] doc.results[i].title.len() > TITLE_MAX)
            || (doc.knowledge_panel matches Some(p) && p.blurb.len() > BLURB_MAX),
    ensures
        !doc.valid(),
{
    if exists|i: int| 0 <= i < doc.results.len() && #[trigger] doc.results[i].title.len() > TITLE_MAX {
        let i = choose|i: int| 0 <= i < doc.results.len() && #[trigger] doc.results[i].title.len() > TITLE_MAX;
        assert(!doc.results[i].valid());
    }
}

/// A document without a knowledge panel is valid whenever its results are:
/// the panel is optional.
pub proof fn law_panel_optional(doc: ResultsModel)
    requires
        doc.knowledge_panel is None,
        RESULTS_MIN <= doc.results.len() <= RESULTS_MAX,
        forall|i: int| 0 <= i < doc.results.len() ==> #[trigger] doc.results[i].valid(),
    ensures
        doc.valid(),
{
}

/// The payload of a reply is read in two steps: the envelope's `content`
/// is a string, and what the reply gives is what the JSON text inside that
/// string gives.
pub proof fn law_content_decoded_twice(body: Seq<char>, content: Seq<char>)
    requires
        envelope_content_of(body) == Some(content),
    ensures
        reply_outcome(body) == payload_outcome(content),
{
}

/// An envelope whose `content` is not a string, such as a document nested
/// directly, is a malformed response.
pub proof fn law_single_level_envelope_malformed(body: Seq<char>, v: Json, content: Json)
    requires
        json_of(body) == Some(v),
        member_of(v, "content"@) == Some(content),
        text_of(content) is None,
    ensures
        reply_outcome(body) == Err::<ResultsModel, EngineError>(EngineError::MalformedResponse),
{
}

/// Content whose document has fewer than 10 or more than 20 results is a
/// schema violation.
pub proof fn law_payload_result_count(content: Seq<char>, v: Json, doc: ResultsModel)
    requires
        json_of(content) == Some(v),
        document_of(v) == Some(doc),
        doc.results.len() < RESULTS_MIN || doc.results.len() > RESULTS_MAX,
    ensures
        payload_outcome(content) == Err::<ResultsModel, EngineError>(EngineError::SchemaViolation),
{
    law_result_count_enforced(doc);
}

/// Content whose document has a result title over 100 characters, or a
/// panel blurb over 400 characters, is a schema violation.
pub proof fn law_payload_field_bounds(content: Seq<char>, v: Json, doc: ResultsModel)
    requires
        json_of(content) == Some(v),
        document_of(v) == Some(doc),
        (exists|i: int| 0 <= i < doc.results.len() && #[trigger] doc.results[i].title.len() > TITLE_MAX)
            || (doc.knowledge_panel matches Some(p) && p.blurb.len() > BLURB_MAX),
    ensures
        payload_outcome(content) == Err::<ResultsModel, EngineError>(EngineError::SchemaViolation),
{
    law_field_bounds_enforced(doc);
}

/// Content whose `knowledge_panel` is absent or null, with 10 to 20 valid
/// results, gives the document without a panel and with those results.
pub proof fn law_payload_panel_optional(content: Seq<char>, v: Json, items: Seq<Json>, results: Seq<ResultModel>)
    requires
        json_of(content) == Some(v),
        member_of(v, "knowledge_panel"@) is None || member_of(v, "knowledge_panel"@) == Some(Json::Null),
        member_of(v, "results"@) matches Some(Json::Array(a)) && a@ == items,
        results_of(items) == Some(results),
        RESULTS_MIN <= results.len() <= RESULTS_MAX,
        forall|i: int| 0 <= i < results.len() ==> #[trigger] results[i].valid(),
    ensures
        payload_outcome(content) == Ok::<ResultsModel, EngineError>(
            ResultsModel { knowledge_panel: None, results },
        ),
{
    law_panel_optional(ResultsModel { knowledge_panel: None, results });
}

} // verus!
