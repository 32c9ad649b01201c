use vstd::prelude::*;

verus! {

/// Longest title of a search result, in characters.
pub const TITLE_MAX: usize = 100;

/// Longest excerpt of a search result, in characters.
pub const EXCERPT_MAX: usize = 300;

/// Longest name of a knowledge panel, in characters.
pub const NAME_MAX: usize = 100;

/// Longest blurb of a knowledge panel, in characters.
pub const BLURB_MAX: usize = 400;

/// Largest number of metadata entries of a knowledge panel.
pub const METADATA_MAX: usize = 100;

/// Fewest search results in a document.
pub const RESULTS_MIN: usize = 10;

/// Most search results in a document.
pub const RESULTS_MAX: usize = 20;

/// An optional summary card about the subject of the query.
#[derive(Clone, Debug, PartialEq, Eq)]
pub struct KnowledgePanel {
    pub name: String,
    pub blurb: String,
    /// Factoids about the subject, as (key, value) pairs.
    pub metadata: Vec<(String, String)>,
}

/// One synthetic search-engine hit.
#[derive(Clone, Debug, PartialEq, Eq)]
pub struct SearchResult {
    pub title: String,
    pub excerpt: String,
}

/// The whole answer to a query.
#[derive(Clone, Debug, PartialEq, Eq)]
pub struct SearchResults {
    pub knowledge_panel: Option<KnowledgePanel>,
    pub results: Vec<SearchResult>,
}

/// What a knowledge panel holds, as mathematical values.
pub struct PanelModel {
    pub name: Seq<char>,
    pub blurb: Seq<char>,
    pub metadata: Seq<(Seq<char>, Seq<char>)>,
}

/// What a search result holds, as mathematical values.
pub struct ResultModel {
    pub title: Seq<char>,
    pub excerpt: Seq<char>,
}

/// What a results document holds, as mathematical values.
pub struct ResultsModel {
    pub knowledge_panel: Option<PanelModel>,
    pub results: Seq<ResultModel>,
}

/// True when a text has between 1 and `max` characters.
pub open spec fn length_within(s: Seq<char>, max: nat) -> bool {
    1 <= s.len() <= max
}

/// No key occurs twice among the entries: they form a mapping.
pub open spec fn keys_distinct(entries: Seq<(Seq<char>, Seq<char>)>) -> bool {
    forall|i: int, j: int| 0 <= i < j < entries.len() ==> (#[trigger] entries[i]).0 != (#[trigger] entries[j]).0
}

pub open spec fn pair_view(p: (String, String)) -> (Seq<char>, Seq<char>) {
    (p.0@, p.1@)
}

impl View for KnowledgePanel {
    type V = PanelModel;

    open spec fn view(&self) -> PanelModel {
        PanelModel {
            name: self.name@,
            blurb: self.blurb@,
            metadata: self.metadata@.map_values(|p: (String, String)| pair_view(p)),
        }
    }
}

impl View for SearchResult {
    type V = ResultModel;

    open spec fn view(&self) -> ResultModel {
        ResultModel { title: self.title@, excerpt: self.excerpt@ }
    }
}

impl View for SearchResults {
    type V = ResultsModel;

    open spec fn view(&self) -> ResultsModel {
        ResultsModel {
            knowledge_panel: match self.knowledge_panel {
                Some(p) => Some(p@),
                None => None,
            },
            results: self.results@.map_values(|r: SearchResult| r@),
        }
    }
}

impl PanelModel {
    /// Name, blurb and number of metadata entries are within their bounds.
    pub open spec fn valid(&self) -> bool {
        &&& length_within(self.name, NAME_MAX as nat)
        &&& length_within(self.blurb, BLURB_MAX as nat)
        &&& 1 <= self.metadata.len() <= METADATA_MAX
        &&& keys_distinct(self.metadata)
    }
}

impl ResultModel {
    /// Title and excerpt are within their bounds.
    pub open spec fn valid(&self) -> bool {
        &&& length_within(self.title, TITLE_MAX as nat)
        &&& length_within(self.excerpt, EXCERPT_MAX as nat)
    }
}

impl ResultsModel {
    /// The document satisfies every bound of its shape: the panel, if any,
    /// is valid, and there are 10 to 20 results, each valid.
    pub open spec fn valid(&self) -> bool {
        &&& match self.knowledge_panel {
            Some(p) => p.valid(),
            None => true,
        }
        &&& RESULTS_MIN <= self.results.len() <= RESULTS_MAX
        &&& forall|i: int| 0 <= i < self.results.len() ==> #[trigger] self.results[i].valid()
    }
}

fn text_length_within(s: &String, max: usize) -> (r: bool)
    ensures
        r == length_within(s@, max as nat),
{
    let n = s.as_str().unicode_len();
    1 <= n && n <= max
}

fn metadata_keys_distinct(entries: &Vec<(String, String)>) -> (r: bool)
    ensures
        r == keys_distinct(entries@.map_values(|p: (String, String)| pair_view(p))),
{
    let ghost view = entries@.map_values(|p: (String, String)| pair_view(p));
    let n = entries.len();
    for j in 0..n
        invariant
            n == entries@.len(),
            view == entries@.map_values(|p: (String, String)| pair_view(p)),
            forall|a: int, b: int| 0 <= a < b < j ==> (#[trigger] view[a]).0 != (#[trigger] view[b]).0,
    {
        for i in 0..j
            invariant
                n == entries@.len(),
                j < n,
                view == entries@.map_values(|p: (String, String)| pair_view(p)),
                forall|a: int, b: int| 0 <= a < b < j ==> (#[trigger] view[a]).0 != (#[trigger] view[b]).0,
                forall|a: int| 0 <= a < i ==> (#[trigger] view[a]).0 != view[j as int].0,
        {
            if entries[i].0 == entries[j].0 {
                assert(view[i as int].0 == view[j as int].0);
                return false;
            }
        }
    }
    true
}

impl KnowledgePanel {
    /// Tells whether the panel is within the bounds of its shape.
    pub fn is_valid(&self) -> (r: bool)
        ensures
            r == self@.valid(),
    {
        text_length_within(&self.name, NAME_MAX) && text_length_within(&self.blurb, BLURB_MAX)
            && 1 <= self.metadata.len() && self.metadata.len() <= METADATA_MAX
            && metadata_keys_distinct(&self.metadata)
    }

    /// An independent copy of the panel.
    pub fn duplicate(&self) -> (r: KnowledgePanel)
        ensures
            r@ == self@,
    {
        let mut metadata: Vec<(String, String)> = Vec::new();
        let n = self.metadata.len();
        for i in 0..n
            invariant
                n == self.metadata@.len(),
                metadata@.len() == i,
                forall|j: int| 0 <= j < i ==> #[trigger] pair_view(metadata@[j]) == pair_view(self.metadata@[j]),
        {
            let (k, v) = (&self.metadata[i].0, &self.metadata[i].1);
            metadata.push((k.clone(), v.clone()));
        }
        let r = KnowledgePanel { name: self.name.clone(), blurb: self.blurb.clone(), metadata };
        assert(r@.metadata =~= self@.metadata);
        r
    }
}

impl SearchResult {
    /// Tells whether title and excerpt are within their bounds.
    pub fn is_valid(&self) -> (r: bool)
        ensures
            r == self@.valid(),
    {
        text_length_within(&self.title, TITLE_MAX) && text_length_within(&self.excerpt, EXCERPT_MAX)
    }

    /// An independent copy of the result.
    pub fn duplicate(&self) -> (r: SearchResult)
        ensures
            r@ == self@,
    {
        SearchResult { title: self.title.clone(), excerpt: self.excerpt.clone() }
    }
}

impl SearchResults {
    /// Tells whether the document satisfies every bound of its shape.
    pub fn is_valid(&self) -> (r: bool)
        ensures
            r == self@.valid(),
    {
        let panel_ok = match &self.knowledge_panel {
            Some(p) => p.is_valid(),
            None => true,
        };
        if !panel_ok {
            return false;
        }
        let n = self.results.len();
        if n < RESULTS_MIN || n > RESULTS_MAX {
            return false;
        }
        for i in 0..n
            invariant
                n == self.results@.len(),
                forall|j: int| 0 <= j < i ==> (#[trigger] self.results@[j])@.valid(),
        {
            if !self.results[i].is_valid() {
                assert(!self@.results[i as int].valid());
                return false;
            }
        }
        assert forall|i: int| 0 <= i < self@.results.len() implies #[trigger] self@.results[i].valid() by {
            assert(self.results@[i]@.valid());
        }
        true
    }

    /// An independent copy of the document.
    pub fn duplicate(&self) -> (r: SearchResults)
        ensures
            r@ == self@,
    {
        let knowledge_panel = match &self.knowledge_panel {
            Some(p) => Some(p.duplicate()),
            None => None,
        };
        let mut results: Vec<SearchResult> = Vec::new();
        let n = self.results.len();
        for i in 0..n
            invariant
                n == self.results@.len(),
                results@.len() == i,
                forall|j: int| 0 <= j < i ==> (#[trigger] results@[j])@ == self.results@[j]@,
        {
            results.push(self.results[i].duplicate());
        }
        let r = SearchResults { knowledge_panel, results };
        assert(r@.results =~= self@.results);
        r
    }
}

} // verus!
