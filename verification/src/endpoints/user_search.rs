//! Fuzzy or exact user search.

use crate::endpoint::{pairs_view, urlencode_pairs, Endpoint};
use crate::err::RacetimeError;
use crate::strutil::{spec_dec, spec_pad4, u32_to_dec_pad4};
use vstd::prelude::*;

verus! {

/// A user search. The term is one of a plain name (a starts-with search),
/// `#` followed by a scrim (exact), or `name#scrim` (conjunctive).
pub struct UserSearch {
    pub term: String,
}

impl UserSearch {
    /// term is one of `name`, `#scrim`, or `name#scrim`.
    /// The name search is always a startswith search (e.g. foo matches
    /// foobar); the scrim search is always exact.
    pub fn from_term(term: &str) -> (r: Self)
        ensures
            r.term@ == term@,
    {
        UserSearch { term: term.to_owned() }
    }

    /// You have to provide at least one of the params. Filtering is
    /// conjunctive if both are given; the scrim is rendered zero-padded to
    /// at least four digits. See [`Self::from_term`].
    pub fn from_name_and_scrim(name: Option<&str>, scrim: Option<u32>) -> (r: Result<
        Self,
        &'static str,
    >)
        ensures
            match (name, scrim) {
                (Some(n), Some(s)) => (r matches Ok(us) && us.term@ == n@ + "#"@ + spec_pad4(
                    spec_dec(s as nat),
                )),
                (Some(n), None) => (r matches Ok(us) && us.term@ == n@),
                (None, Some(s)) => (r matches Ok(us) && us.term@ == "#"@ + spec_pad4(
                    spec_dec(s as nat),
                )),
                (None, None) => r is Err,
            },
    {
        match (name, scrim) {
            (Some(n), Some(s)) => {
                let mut term = n.to_owned();
                term.append("#");
                let padded = u32_to_dec_pad4(s);
                term.append(padded.as_str());
                Ok(UserSearch { term })
            },
            (Some(n), None) => Ok(UserSearch { term: n.to_owned() }),
            (None, Some(s)) => {
                let mut term = String::from_str("#");
                let padded = u32_to_dec_pad4(s);
                term.append(padded.as_str());
                Ok(UserSearch { term })
            },
            (None, None) => Err("You must provide at least one of name and scrim"),
        }
    }
}

impl Endpoint for UserSearch {
    open spec fn spec_endpoint(&self) -> Seq<char> {
        "/user/search"@
    }

    open spec fn spec_query_pairs(&self) -> Seq<(Seq<char>, Seq<char>)> {
        seq![("term"@, self.term@)]
    }

    fn endpoint(&self) -> (r: String) {
        String::from_str("/user/search")
    }

    fn query_parameters(&self) -> (r: Result<String, RacetimeError>) {
        let mut pairs: Vec<(String, String)> = Vec::new();
        pairs.push((String::from_str("term"), self.term.clone()));
        proof {
            assert(pairs_view(pairs@) =~= self.spec_query_pairs());
        }
        match urlencode_pairs(&pairs) {
            Ok(q) => Ok(q),
            Err(e) => Err(RacetimeError::ParameterSerializationError(e)),
        }
    }
}

} // verus!
