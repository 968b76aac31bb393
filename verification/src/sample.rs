//! A small sample query object, showing how a caller hands a field set
//! to a query binding.

use vstd::prelude::*;
use crate::attributes::pairs_view;
use crate::text::{dec_chars, u64_to_string};

verus! {

/// A search request: a term and a page number.
pub struct SearchQuery {
    pub q: String,
    pub page: u32,
}

impl SearchQuery {
    /// The field set of the query, in declared order.
    pub fn to_pairs(&self) -> (r: Vec<(String, String)>)
        ensures
            pairs_view(r@) == seq![("q"@, self.q@), ("page"@, dec_chars(self.page as int))],
    {
        let mut v: Vec<(String, String)> = Vec::new();
        v.push((String::from_str("q"), self.q.clone()));
        v.push((String::from_str("page"), u64_to_string(self.page as u64)));
        proof {
            assert(pairs_view(v@) =~~= seq![("q"@, self.q@), ("page"@, dec_chars(self.page as int))]);
        }
        v
    }
}

} // verus!
