//! The leaderboard for a category.

use crate::endpoint::Endpoint;
use crate::err::RacetimeError;
use vstd::prelude::*;

verus! {

/// The leaderboard data of one category, keyed by its slug.
pub struct Leaderboards {
    pub category: String,
}

impl Leaderboards {
    /// A leaderboard request for the given category slug.
    pub fn new(category: String) -> (r: Self)
        ensures
            r.category@ == category@,
    {
        Leaderboards { category }
    }
}

impl Endpoint for Leaderboards {
    open spec fn spec_endpoint(&self) -> Seq<char> {
        self.category@ + "/leaderboards/data"@
    }

    open spec fn spec_query_pairs(&self) -> Seq<(Seq<char>, Seq<char>)> {
        Seq::empty()
    }

    fn endpoint(&self) -> (r: String) {
        let mut r = self.category.clone();
        r.append("/leaderboards/data");
        r
    }

    fn query_parameters(&self) -> (r: Result<String, RacetimeError>) {
        Ok(String::new())
    }
}

} // verus!
