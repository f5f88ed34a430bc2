//! The client side of the transport: the fixed base address and the
//! resolution of endpoint-relative paths against it.
//!
//! The HTTP client handle itself performs network I/O and lives outside this
//! library; everything here is the pure part of dispatching a request: which
//! absolute URL a given endpoint descriptor asks for.

use crate::endpoint::{encoded_pairs, Endpoint};
use crate::err::RacetimeError;
use crate::strutil::{spec_strip_slashes, strip_leading_slashes};
use vstd::prelude::*;

verus! {

/// The root of the racetime.gg API; fixed for the lifetime of a client.
pub const BASE_URL: &'static str = "https://racetime.gg/";

/// What resolving a relative reference against a base address yields, as
/// `url::Url::join` computes it: a function of the two strings alone.
pub uninterp spec fn join_of(base: Seq<char>, rel: Seq<char>) -> Seq<char>;

/// Whether resolving a relative reference against a base address succeeds,
/// as `url::Url::parse` and `url::Url::join` decide it: like the resolved
/// URL itself, a function of the two strings alone.
pub uninterp spec fn join_ok(base: Seq<char>, rel: Seq<char>) -> bool;

/// Relies on `url::Url::parse` and `url::Url::join`: the base address is
/// parsed and the relative reference is resolved against it; the resulting
/// absolute URL is returned as a string. Parsing and joining are
/// deterministic, so whether the call succeeds is a function of the two
/// strings, named by `join_ok`.
#[verifier::external_body]
fn join_url(base: &str, rel: &str) -> (r: Result<String, url::ParseError>)
    ensures
        r is Ok <==> join_ok(base@, rel@),
        r matches Ok(u) ==> u@ == join_of(base@, rel@),
{
    match url::Url::parse(base) {
        Ok(b) => match b.join(rel) {
            Ok(u) => Ok(u.as_str().to_owned()),
            Err(e) => Err(e),
        },
        Err(e) => Err(e),
    }
}

/// Resolve an endpoint-relative path (leading slashes stripped) against the
/// base address. The call succeeds exactly when the join does; failure to
/// join is a `ParseError`: a programming or configuration error in an
/// endpoint descriptor.
pub fn rest_endpoint(base: &str, endpoint: &str) -> (r: Result<String, RacetimeError>)
    ensures
        r is Ok <==> join_ok(base@, spec_strip_slashes(endpoint@)),
        r matches Ok(u) ==> u@ == join_of(base@, spec_strip_slashes(endpoint@)),
        r matches Err(e) ==> e is ParseError,
{
    let rel = strip_leading_slashes(endpoint);
    match join_url(base, rel) {
        Ok(u) => Ok(u),
        Err(e) => Err(RacetimeError::ParseError(e)),
    }
}

/// The URL that a query for endpoint `e` requests: the endpoint's path
/// resolved against the base address, with the query string attached when it
/// is non-empty.
pub open spec fn spec_request_url<E: Endpoint>(base: Seq<char>, e: E) -> Seq<char> {
    let resolved = join_of(base, spec_strip_slashes(e.spec_endpoint()));
    let q = encoded_pairs(e.spec_query_pairs());
    if q.len() == 0 {
        resolved
    } else {
        resolved + seq!['?'] + q
    }
}

/// Build the full request URL for an endpoint descriptor: resolve its
/// relative path against the base address, then attach its query string if
/// there is one. The call succeeds exactly when the join does — serializing
/// the query pairs cannot fail — and a failure is the propagated
/// `ParseError`.
pub fn request_url<E: Endpoint>(base: &str, e: &E) -> (r: Result<String, RacetimeError>)
    ensures
        r is Ok <==> join_ok(base@, spec_strip_slashes(e.spec_endpoint())),
        r matches Ok(u) ==> u@ == spec_request_url(base@, *e),
        r matches Err(err) ==> err is ParseError,
{
    let path = e.endpoint();
    let mut url = match rest_endpoint(base, path.as_str()) {
        Ok(u) => u,
        Err(err) => {
            return Err(err);
        },
    };
    let q = match e.query_parameters() {
        Ok(q) => q,
        Err(err) => {
            return Err(err);
        },
    };
    if !q.as_str().is_empty() {
        proof {
            reveal_strlit("?");
            assert("?"@ =~= seq!['?']);
        }
        url.append("?");
        url.append(q.as_str());
    }
    Ok(url)
}

} // verus!
