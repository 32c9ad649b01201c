//! Reading a results document out of a JSON value.
use vstd::prelude::*;
use crate::json::{member, member_of, text_member, text_member_of, text_of, Json};
use crate::model::{pair_view, KnowledgePanel, PanelModel, ResultModel, ResultsModel, SearchResult, SearchResults};

verus! {

/// A search result read from a JSON object with string members `title` and
/// `excerpt`.
pub open spec fn result_of(v: Json) -> Option<ResultModel> {
    match (text_member_of(v, "title"@), text_member_of(v, "excerpt"@)) {
        (Some(title), Some(excerpt)) => Some(ResultModel { title, excerpt }),
        _ => None,
    }
}

/// The metadata read from the members of a JSON object, each of which must
/// be a string.
pub open spec fn metadata_of(entries: Seq<(String, Json)>) -> Option<Seq<(Seq<char>, Seq<char>)>> {
    if forall|i: int| 0 <= i < entries.len() ==> #[trigger] text_of(entries[i].1) is Some {
        Some(Seq::new(entries.len(), |i: int| (entries[i].0@, text_of(entries[i].1)->0)))
    } else {
        None
    }
}

/// A knowledge panel read from a JSON object with string members `name` and
/// `blurb` and an object `metadata` of strings.
pub open spec fn panel_of(v: Json) -> Option<PanelModel> {
    match (text_member_of(v, "name"@), text_member_of(v, "blurb"@), member_of(v, "metadata"@)) {
        (Some(name), Some(blurb), Some(Json::Object(entries))) => match metadata_of(entries@) {
            Some(metadata) => Some(PanelModel { name, blurb, metadata }),
            None => None,
        },
        _ => None,
    }
}

/// The search results read from the items of a JSON array.
pub open spec fn results_of(items: Seq<Json>) -> Option<Seq<ResultModel>> {
    if forall|i: int| 0 <= i < items.len() ==> #[trigger] result_of(items[i]) is Some {
        Some(Seq::new(items.len(), |i: int| result_of(items[i])->0))
    } else {
        None
    }
}

/// A results document read from a JSON object: an array `results`, and a
/// `knowledge_panel` that may be absent or null. Bounds play no part here.
pub open spec fn document_of(v: Json) -> Option<ResultsModel> {
    match member_of(v, "results"@) {
        Some(Json::Array(items)) => match results_of(items@) {
            Some(results) => match member_of(v, "knowledge_panel"@) {
                None | Some(Json::Null) => Some(ResultsModel { knowledge_panel: None, results }),
                Some(p) => match panel_of(p) {
                    Some(panel) => Some(ResultsModel { knowledge_panel: Some(panel), results }),
                    None => None,
                },
            },
            None => None,
        },
        _ => None,
    }
}

/// Reads one search result.
pub fn decode_result(v: &Json) -> (r: Option<SearchResult>)
    ensures
        match r {
            Some(x) => result_of(*v) == Some(x@),
            None => result_of(*v) is None,
        },
{
    let title = text_member(v, "title")?;
    let excerpt = text_member(v, "excerpt")?;
    Some(SearchResult { title, excerpt })
}

/// Reads a knowledge panel.
pub fn decode_panel(v: &Json) -> (r: Option<KnowledgePanel>)
    ensures
        match r {
            Some(p) => panel_of(*v) == Some(p@),
            None => panel_of(*v) is None,
        },
{
    let name = text_member(v, "name")?;
    let blurb = text_member(v, "blurb")?;
    let entries = match member(v, "metadata") {
        Some(Json::Object(entries)) => entries,
        _ => return None,
    };
    let mut metadata: Vec<(String, String)> = Vec::new();
    let n = entries.len();
    for i in 0..n
        invariant
            n == entries@.len(),
            text_member_of(*v, "name"@) == Some(name@),
            text_member_of(*v, "blurb"@) == Some(blurb@),
            member_of(*v, "metadata"@) == Some(Json::Object(*entries)),
            metadata@.len() == i,
            forall|j: int| 0 <= j < i ==> #[trigger] text_of(entries@[j].1) is Some,
            forall|j: int| 0 <= j < i ==> #[trigger] pair_view(metadata@[j]) == (entries@[j].0@, text_of(entries@[j].1)->0),
    {
        match &entries[i].1 {
            Json::Text(s) => metadata.push((entries[i].0.clone(), s.clone())),
            _ => {
                assert(!(text_of(entries@[i as int].1) is Some));
                assert(metadata_of(entries@) is None);
                return None;
            },
        }
    }
    let r = KnowledgePanel { name, blurb, metadata };
    assert(r@.metadata =~= metadata_of(entries@)->0);
    Some(r)
}

/// Reads a results document from a JSON value, exactly as `document_of`
/// says; bounds are checked apart.
pub fn decode_document(v: &Json) -> (r: Option<SearchResults>)
    ensures
        match r {
            Some(d) => document_of(*v) == Some(d@),
            None => document_of(*v) is None,
        },
{
    let items = match member(v, "results") {
        Some(Json::Array(items)) => items,
        _ => return None,
    };
    let mut results: Vec<SearchResult> = Vec::new();
    let n = items.len();
    for i in 0..n
        invariant
            n == items@.len(),
            member_of(*v, "results"@) == Some(Json::Array(*items)),
            results@.len() == i,
            forall|j: int| 0 <= j < i ==> #[trigger] result_of(items@[j]) == Some(results@[j]@),
    {
        match decode_result(&items[i]) {
            Some(x) => results.push(x),
            None => {
                assert(result_of(items@[i as int]) is None);
                assert(results_of(items@) is None);
                return None;
            },
        }
    }
    assert forall|j: int| 0 <= j < items@.len() implies #[trigger] result_of(items@[j]) is Some by {
        assert(result_of(items@[j]) == Some(results@[j]@));
    }
    let ghost rs = results_of(items@)->0;
    assert(results@.map_values(|x: SearchResult| x@) =~= rs);
    let knowledge_panel = match member(v, "knowledge_panel") {
        None => None,
        Some(Json::Null) => None,
        Some(p) => Some(decode_panel(p)?),
    };
    Some(SearchResults { knowledge_panel, results })
}

} // verus!
