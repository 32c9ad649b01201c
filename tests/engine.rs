use search_engine::cache::Cache;
use search_engine::engine::{
    build_request, check_document, decode_envelope, decode_payload, finish_request,
    PROMPT_CLOSING, PROMPT_MIDDLE, PROMPT_OPENING, SEED,
};
use search_engine::error::EngineError;
use search_engine::model::{KnowledgePanel, SearchResult, SearchResults};

const SCHEMA: &str = "{\"type\":\"object\"}";

fn result(i: usize) -> SearchResult {
    SearchResult { title: format!("Title {i}"), excerpt: format!("Excerpt number {i}") }
}

fn panel() -> KnowledgePanel {
    KnowledgePanel {
        name: "Cat".to_string(),
        blurb: "A small domesticated carnivore.".to_string(),
        metadata: vec![("Family".to_string(), "Felidae".to_string())],
    }
}

fn document(n: usize, with_panel: bool) -> SearchResults {
    SearchResults {
        knowledge_panel: if with_panel { Some(panel()) } else { None },
        results: (0..n).map(result).collect(),
    }
}

fn results_json(n: usize) -> String {
    let items: Vec<String> = (0..n)
        .map(|i| format!("{{\"title\": \"Title {i}\", \"excerpt\": \"Excerpt number {i}\"}}"))
        .collect();
    format!("[{}]", items.join(", "))
}

fn payload(n: usize, panel_json: Option<&str>) -> String {
    match panel_json {
        Some(p) => format!("{{\"knowledge_panel\": {p}, \"results\": {}}}", results_json(n)),
        None => format!("{{\"results\": {}}}", results_json(n)),
    }
}

fn envelope(content: &str) -> String {
    format!("{{\"content\": {}}}", serde_json::to_string(content).unwrap())
}

#[test]
fn request_embeds_schema_and_query_with_fixed_seed() {
    let req = build_request(SCHEMA, "rust traits");
    assert_eq!(req.prompt, format!("{PROMPT_OPENING}{SCHEMA}{PROMPT_MIDDLE}rust traits{PROMPT_CLOSING}"));
    assert_eq!(req.json_schema, SCHEMA);
    assert_eq!(req.seed, 0);
    assert_eq!(SEED, 0);
}

#[test]
fn ten_and_twenty_results_are_accepted() {
    assert_eq!(check_document(document(10, true)), Ok(document(10, true)));
    assert_eq!(check_document(document(20, true)), Ok(document(20, true)));
}

#[test]
fn nine_or_twenty_one_results_are_rejected() {
    assert_eq!(check_document(document(9, true)), Err(EngineError::SchemaViolation));
    assert_eq!(check_document(document(21, true)), Err(EngineError::SchemaViolation));
    assert_eq!(check_document(document(0, false)), Err(EngineError::SchemaViolation));
}

#[test]
fn over_long_title_is_rejected() {
    let mut doc = document(10, true);
    doc.results[3].title = "t".repeat(101);
    assert_eq!(check_document(doc), Err(EngineError::SchemaViolation));
    let mut doc = document(10, true);
    doc.results[3].title = "t".repeat(100);
    assert!(check_document(doc).is_ok());
}

#[test]
fn title_length_counts_characters() {
    let mut doc = document(10, false);
    doc.results[0].title = "\u{e9}".repeat(100);
    assert!(check_document(doc).is_ok());
}

#[test]
fn over_long_blurb_is_rejected() {
    let mut doc = document(10, true);
    doc.knowledge_panel.as_mut().unwrap().blurb = "b".repeat(401);
    assert_eq!(check_document(doc), Err(EngineError::SchemaViolation));
    let mut doc = document(10, true);
    doc.knowledge_panel.as_mut().unwrap().blurb = "b".repeat(400);
    assert!(check_document(doc).is_ok());
}

#[test]
fn over_long_excerpt_and_empty_fields_are_rejected() {
    let mut doc = document(10, false);
    doc.results[9].excerpt = "e".repeat(301);
    assert_eq!(check_document(doc), Err(EngineError::SchemaViolation));
    let mut doc = document(10, false);
    doc.results[0].title = String::new();
    assert_eq!(check_document(doc), Err(EngineError::SchemaViolation));
    let mut doc = document(10, true);
    doc.knowledge_panel.as_mut().unwrap().metadata.clear();
    assert_eq!(check_document(doc), Err(EngineError::SchemaViolation));
    let mut doc = document(10, true);
    doc.knowledge_panel.as_mut().unwrap().name = "n".repeat(101);
    assert_eq!(check_document(doc), Err(EngineError::SchemaViolation));
}

#[test]
fn absent_or_null_panel_is_accepted() {
    assert_eq!(decode_payload(&payload(12, None)), Ok(document(12, false)));
    assert_eq!(decode_payload(&payload(12, Some("null"))), Ok(document(12, false)));
}

#[test]
fn panel_is_read_from_payload() {
    let p = "{\"name\": \"Cat\", \"blurb\": \"A small domesticated carnivore.\", \"metadata\": {\"Family\": \"Felidae\"}}";
    assert_eq!(decode_payload(&payload(10, Some(p))), Ok(document(10, true)));
}

#[test]
fn payload_of_wrong_shape_is_a_schema_violation() {
    assert_eq!(decode_payload("not json"), Err(EngineError::SchemaViolation));
    assert_eq!(decode_payload("{\"results\": 5}"), Err(EngineError::SchemaViolation));
    assert_eq!(decode_payload(&payload(9, None)), Err(EngineError::SchemaViolation));
    assert_eq!(decode_payload(&payload(21, None)), Err(EngineError::SchemaViolation));
    assert_eq!(decode_payload("{\"results\": [{\"title\": 1, \"excerpt\": \"x\"}]}"), Err(EngineError::SchemaViolation));
}

#[test]
fn content_is_decoded_twice() {
    let inner = payload(10, Some("null"));
    assert_eq!(decode_envelope(&envelope(&inner)), Ok(inner.clone()));
    let mut cache = Cache::new();
    let r = finish_request(&mut cache, "cats", Some(envelope(&inner)));
    assert_eq!(r, Ok(document(10, false)));
}

#[test]
fn single_level_envelope_is_malformed() {
    let body = format!("{{\"content\": {}}}", payload(10, Some("null")));
    assert_eq!(decode_envelope(&body), Err(EngineError::MalformedResponse));
    let mut cache = Cache::new();
    assert_eq!(finish_request(&mut cache, "cats", Some(body)), Err(EngineError::MalformedResponse));
    assert_eq!(cache.lookup("cats"), None);
}

#[test]
fn envelope_errors() {
    assert_eq!(decode_envelope("<html>"), Err(EngineError::MalformedResponse));
    assert_eq!(decode_envelope("{\"text\": \"x\"}"), Err(EngineError::MalformedResponse));
    let mut cache = Cache::new();
    let r = finish_request(&mut cache, "cats", Some(envelope("not json")));
    assert_eq!(r, Err(EngineError::SchemaViolation));
    assert_eq!(cache.lookup("cats"), None);
}

#[test]
fn transport_failure_leaves_cache_empty() {
    let mut cache = Cache::new();
    assert_eq!(finish_request(&mut cache, "cats", None), Err(EngineError::ServiceUnavailable));
    assert_eq!(cache.lookup("cats"), None);
}

#[test]
fn second_request_is_served_from_cache() {
    let mut cache = Cache::new();
    assert_eq!(cache.lookup("cats"), None);
    let first = finish_request(&mut cache, "cats", Some(envelope(&payload(11, None)))).unwrap();
    assert_eq!(cache.lookup("cats"), Some(first));
}

#[test]
fn invalid_payload_is_not_cached() {
    let mut cache = Cache::new();
    let r = finish_request(&mut cache, "cats", Some(envelope(&payload(21, Some("null")))));
    assert_eq!(r, Err(EngineError::SchemaViolation));
    assert_eq!(cache.lookup("cats"), None);
}

#[test]
fn numbers_and_unknown_members_are_ignored() {
    let content = format!("{{\"extra\": [1, 2.5, true, null], \"results\": {}}}", results_json(10));
    assert_eq!(decode_payload(&content), Ok(document(10, false)));
}

#[test]
fn distinct_queries_are_isolated() {
    let mut cache = Cache::new();
    cache.store("cats", document(10, true));
    assert_eq!(cache.lookup("dogs"), None);
    assert_eq!(cache.lookup("Cats"), None);
    assert_eq!(cache.lookup("cats"), Some(document(10, true)));
}

#[test]
fn store_replaces_earlier_entry() {
    let mut cache = Cache::new();
    cache.store("cats", document(10, true));
    cache.store("dogs", document(12, false));
    cache.store("cats", document(15, false));
    assert_eq!(cache.lookup("cats"), Some(document(15, false)));
    assert_eq!(cache.lookup("dogs"), Some(document(12, false)));
}

#[test]
fn error_messages_are_distinct() {
    let a = EngineError::ServiceUnavailable.message();
    let b = EngineError::MalformedResponse.message();
    let c = EngineError::SchemaViolation.message();
    assert!(!a.is_empty() && a != b && b != c && a != c);
}

#[test]
fn repeated_metadata_key_is_rejected() {
    let mut doc = document(10, true);
    let metadata = &mut doc.knowledge_panel.as_mut().unwrap().metadata;
    metadata.push(("Order".to_string(), "Carnivora".to_string()));
    assert!(check_document(doc.clone()).is_ok());
    doc.knowledge_panel.as_mut().unwrap().metadata.push(("Family".to_string(), "Canidae".to_string()));
    assert_eq!(check_document(doc), Err(EngineError::SchemaViolation));
}
