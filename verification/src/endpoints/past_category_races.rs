//! Past races in a category, queried via the paginated historical listing.

use crate::endpoint::{pairs_view, urlencode_pairs, Endpoint};
use crate::err::RacetimeError;
use crate::strutil::{spec_dec, u32_to_dec};
use vstd::prelude::*;

verus! {

/// The past races of one category. `show_entrants` and `page` are optional
/// parameters: a field left at its default (`false`, `None`) is omitted from
/// the serialized query string entirely, since the API treats an absent
/// parameter as "default behavior".
pub struct PastCategoryRaces {
    pub category: String,
    pub show_entrants: bool,
    pub page: Option<u32>,
}

impl PastCategoryRaces {
    /// A past-races request for the given category slug; pass `false` and
    /// `None` to leave the optional parameters at their defaults.
    pub fn new(category: String, show_entrants: bool, page: Option<u32>) -> (r: Self)
        ensures
            r.category@ == category@,
            r.show_entrants == show_entrants,
            r.page == page,
    {
        PastCategoryRaces { category, show_entrants, page }
    }
}

/// An optional field left at its default contributes no key to the query
/// pairs at all, while a field that is explicitly set contributes its key
/// with the rendered value.
pub proof fn lemma_optional_fields_omitted_at_default(p: PastCategoryRaces)
    ensures
        (!p.show_entrants && p.page is None) ==> p.spec_query_pairs() =~= seq![
            ("category"@, p.category@),
        ],
        p.show_entrants ==> p.spec_query_pairs().contains(("show_entrants"@, "true"@)),
        !p.show_entrants ==> !p.spec_query_pairs().contains(("show_entrants"@, "true"@)),
        p.page matches Some(n) ==> p.spec_query_pairs().contains(("page"@, spec_dec(n as nat))),
        p.page is None ==> (forall|v: Seq<char>| !p.spec_query_pairs().contains(("page"@, v))),
{
    let pairs = p.spec_query_pairs();
    if p.show_entrants {
        assert(pairs[1] == ("show_entrants"@, "true"@));
    } else {
        assert forall|i: int| 0 <= i < pairs.len() implies (#[trigger] pairs[i]).0
            != "show_entrants"@ by {
            reveal_strlit("category");
            reveal_strlit("show_entrants");
            reveal_strlit("page");
            assert("category"@.len() == 8);
            assert("show_entrants"@.len() == 13);
            assert("page"@.len() == 4);
            if i == 0 {
                assert(pairs[i].0 == "category"@);
            } else {
                assert(pairs[i].0 == "page"@);
            }
        }
    }
    if let Some(n) = p.page {
        let last = pairs.len() - 1;
        assert(pairs[last as int] == ("page"@, spec_dec(n as nat)));
    } else {
        assert forall|i: int| 0 <= i < pairs.len() implies (#[trigger] pairs[i]).0 != "page"@ by {
            reveal_strlit("category");
            reveal_strlit("show_entrants");
            reveal_strlit("page");
            assert("category"@.len() == 8);
            assert("show_entrants"@.len() == 13);
            assert("page"@.len() == 4);
            if i == 0 {
                assert(pairs[i].0 == "category"@);
            } else {
                assert(pairs[i].0 == "show_entrants"@);
            }
        }
        assert forall|v: Seq<char>| !pairs.contains(("page"@, v)) by {
            assert(forall|i: int| 0 <= i < pairs.len() ==> (#[trigger] pairs[i]).0 != "page"@);
        }
    }
}

impl Endpoint for PastCategoryRaces {
    open spec fn spec_endpoint(&self) -> Seq<char> {
        self.category@ + "/races/data"@
    }

    open spec fn spec_query_pairs(&self) -> Seq<(Seq<char>, Seq<char>)> {
        let with_category = seq![("category"@, self.category@)];
        let with_entrants = if self.show_entrants {
            with_category + seq![("show_entrants"@, "true"@)]
        } else {
            with_category
        };
        match self.page {
            Some(p) => with_entrants + seq![("page"@, spec_dec(p as nat))],
            None => with_entrants,
        }
    }

    fn endpoint(&self) -> (r: String) {
        let mut r = self.category.clone();
        r.append("/races/data");
        r
    }

    fn query_parameters(&self) -> (r: Result<String, RacetimeError>) {
        let mut pairs: Vec<(String, String)> = Vec::new();
        pairs.push((String::from_str("category"), self.category.clone()));
        if self.show_entrants {
            pairs.push((String::from_str("show_entrants"), String::from_str("true")));
        }
        if let Some(p) = self.page {
            pairs.push((String::from_str("page"), u32_to_dec(p)));
        }
        proof {
            assert(pairs_view(pairs@) =~= self.spec_query_pairs());
        }
        match urlencode_pairs(&pairs) {
            Ok(q) => Ok(q),
            Err(e) => Err(RacetimeError::ParameterSerializationError(e)),
        }
    }
}

} // verus!
