use vstd::prelude::*;
use crate::model::{ResultsModel, SearchResults};

verus! {

/// What the cache holds: each query text mapped to the document stored for it.
pub type CacheModel = Map<Seq<char>, ResultsModel>;

/// What a lookup of `query` finds in a cache that holds `m`.
pub open spec fn lookup_model(m: CacheModel, query: Seq<char>) -> Option<ResultsModel> {
    if m.contains_key(query) {
        Some(m[query])
    } else {
        None
    }
}

/// What a cache that held `m` holds once `value` is stored under `query`.
pub open spec fn store_model(m: CacheModel, query: Seq<char>, value: ResultsModel) -> CacheModel {
    m.insert(query, value)
}

/// Documents already computed, keyed by the exact text of their query.
pub struct Cache {
    entries: Vec<(String, SearchResults)>,
    model: Ghost<CacheModel>,
}

impl View for Cache {
    type V = CacheModel;

    closed spec fn view(&self) -> CacheModel {
        self.model@
    }
}

impl Cache {
    /// Each stored query appears once, and the entries are exactly the model.
    pub closed spec fn wf(&self) -> bool {
        &&& forall|i: int, j: int|
            0 <= i < j < self.entries@.len() ==> (#[trigger] self.entries@[i]).0@
                != (#[trigger] self.entries@[j]).0@
        &&& forall|i: int|
            0 <= i < self.entries@.len() ==> {
                &&& self.model@.contains_key((#[trigger] self.entries@[i]).0@)
                &&& self.model@[self.entries@[i].0@] == self.entries@[i].1@
            }
        &&& forall|k: Seq<char>|
            #[trigger] self.model@.contains_key(k) ==> exists|i: int|
                0 <= i < self.entries@.len() && (#[trigger] self.entries@[i]).0@ == k
    }

    /// An empty cache.
    pub fn new() -> (r: Cache)
        ensures
            r.wf(),
            r@ == Map::<Seq<char>, ResultsModel>::empty(),
    {
        Cache { entries: Vec::new(), model: Ghost(Map::empty()) }
    }

    fn position(&self, query: &str) -> (r: Option<usize>)
        requires
            self.wf(),
        ensures
            match r {
                Some(i) => i < self.entries@.len() && self.entries@[i as int].0@ == query@,
                None => !self@.contains_key(query@),
            },
    {
        let key = query.to_owned();
        let n = self.entries.len();
        for i in 0..n
            invariant
                n == self.entries@.len(),
                key@ == query@,
                forall|j: int| 0 <= j < i ==> (#[trigger] self.entries@[j]).0@ != query@,
        {
            if self.entries[i].0 == key {
                return Some(i);
            }
        }
        None
    }

    /// A copy of the document stored under exactly this query text, if any.
    pub fn lookup(&self, query: &str) -> (r: Option<SearchResults>)
        requires
            self.wf(),
        ensures
            match r {
                Some(v) => lookup_model(self@, query@) == Some(v@),
                None => lookup_model(self@, query@) is None,
            },
    {
        match self.position(query) {
            Some(i) => Some(self.entries[i].1.duplicate()),
            None => None,
        }
    }

    /// Stores `value` under exactly this query text, in place of any
    /// document stored there before.
    pub fn store(&mut self, query: &str, value: SearchResults)
        requires
            old(self).wf(),
        ensures
            final(self).wf(),
            final(self)@ == store_model(old(self)@, query@, value@),
    {
        let ghost m = self.model@.insert(query@, value@);
        let ghost mut at: int = 0;
        match self.position(query) {
            Some(i) => {
                self.entries.set(i, (query.to_owned(), value));
                proof {
                    at = i as int;
                }
            },
            None => {
                self.entries.push((query.to_owned(), value));
                proof {
                    at = self.entries@.len() - 1;
                }
            },
        }
        self.model = Ghost(m);
        assert forall|k: Seq<char>| #[trigger] self.model@.contains_key(k) implies exists|i: int|
            0 <= i < self.entries@.len() && (#[trigger] self.entries@[i]).0@ == k by {
            if k != query@ {
                let j = choose|j: int| 0 <= j < old(self).entries@.len() && (#[trigger] old(self).entries@[j]).0@ == k;
                assert(self.entries@[j].0@ == k);
            } else {
                assert(self.entries@[at].0@ == k);
            }
        }
    }
}

} // verus!
