//! All in-progress races.

use crate::endpoint::Endpoint;
use crate::err::RacetimeError;
use vstd::prelude::*;

verus! {

/// All races currently in progress, across every category.
pub struct AllRaces {}

impl Endpoint for AllRaces {
    open spec fn spec_endpoint(&self) -> Seq<char> {
        "/races/data"@
    }

    open spec fn spec_query_pairs(&self) -> Seq<(Seq<char>, Seq<char>)> {
        Seq::empty()
    }

    fn endpoint(&self) -> (r: String) {
        String::from_str("/races/data")
    }

    fn query_parameters(&self) -> (r: Result<String, RacetimeError>) {
        Ok(String::new())
    }
}

} // verus!
