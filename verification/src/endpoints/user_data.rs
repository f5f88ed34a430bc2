//! A user's profile data.

use crate::endpoint::Endpoint;
use crate::err::RacetimeError;
use vstd::prelude::*;

verus! {

/// The profile data of one user, by user id.
pub struct UserData {
    pub id: String,
}

impl UserData {
    /// A profile-data request for the given user id.
    pub fn new(id: String) -> (r: Self)
        ensures
            r.id@ == id@,
    {
        UserData { id }
    }
}

impl Endpoint for UserData {
    open spec fn spec_endpoint(&self) -> Seq<char> {
        "user/"@ + self.id@ + "/data"@
    }

    open spec fn spec_query_pairs(&self) -> Seq<(Seq<char>, Seq<char>)> {
        Seq::empty()
    }

    fn endpoint(&self) -> (r: String) {
        let mut r = String::from_str("user/");
        r.append(self.id.as_str());
        r.append("/data");
        r
    }

    fn query_parameters(&self) -> (r: Result<String, RacetimeError>) {
        Ok(String::new())
    }
}

} // verus!
