//! The endpoint capability and the uniform interpretation of responses.
//!
//! An [`Endpoint`] describes one API operation: a relative path and an
//! optional query string. [`interpret_response`] is the single decision path
//! for every endpoint/target-type pair: a 404 becomes the distinguished
//! `NotFound` outcome, any other non-2xx status becomes `UnexpectedStatus`,
//! and a 2xx body is deserialized as JSON into the caller's target type.

use crate::err::RacetimeError;
use vstd::prelude::*;

verus! {

/// The form-urlencoding of one string, as `serde_urlencoded` computes it.
/// The result depends on the characters alone.
pub uninterp spec fn form_encoded(s: Seq<char>) -> Seq<char>;

/// One `key=value` pair, each side form-urlencoded.
pub open spec fn encoded_pair(p: (Seq<char>, Seq<char>)) -> Seq<char> {
    form_encoded(p.0) + seq!['='] + form_encoded(p.1)
}

/// Encoded pairs joined by '&'.
pub open spec fn encoded_pairs(ps: Seq<(Seq<char>, Seq<char>)>) -> Seq<char>
    decreases ps.len(),
{
    if ps.len() == 0 {
        Seq::empty()
    } else if ps.len() == 1 {
        encoded_pair(ps[0])
    } else {
        encoded_pair(ps[0]) + seq!['&'] + encoded_pairs(ps.drop_first())
    }
}

/// The views of a list of key/value pairs.
pub open spec fn pairs_view(ps: Seq<(String, String)>) -> Seq<(Seq<char>, Seq<char>)> {
    ps.map_values(|p: (String, String)| (p.0@, p.1@))
}

/// Relies on `serde_urlencoded::to_string`: a sequence of string pairs is
/// serialized by percent-encoding each key and value and joining the pairs
/// as `k=v&k=v`. The serializer accepts every string key and value, so on
/// this input type it cannot fail.
#[verifier::external_body]
pub(crate) fn urlencode_pairs(pairs: &Vec<(String, String)>) -> (r: Result<
    String,
    serde_urlencoded::ser::Error,
>)
    ensures
        r is Ok,
        r matches Ok(q) ==> q@ == encoded_pairs(pairs_view(pairs@)),
        pairs@.len() == 1 ==> (r matches Ok(q) ==> q@ == form_encoded(pairs@[0].0@) + seq!['=']
            + form_encoded(pairs@[0].1@)),
{
    serde_urlencoded::to_string(pairs)
}

/// An endpoint exposed by racetime.gg: one API operation's path and
/// parameters. Every request descriptor implements this capability.
pub trait Endpoint {
    /// The relative path of the endpoint.
    spec fn spec_endpoint(&self) -> Seq<char>;

    /// The key/value pairs of the query string, in order. A descriptor whose
    /// optional fields hold their default value omits their keys entirely.
    spec fn spec_query_pairs(&self) -> Seq<(Seq<char>, Seq<char>)>;

    /// The endpoint path fragment, always required.
    fn endpoint(&self) -> (r: String)
        ensures
            r@ == self.spec_endpoint(),
    ;

    /// The URL-encoded query string; empty for an endpoint without
    /// parameters. Serialization failure would be a reportable error kind,
    /// not a panic; for every descriptor of this crate the encoding of
    /// string pairs cannot fail, so success is promised outright.
    fn query_parameters(&self) -> (r: Result<String, RacetimeError>)
        ensures
            r is Ok,
            r matches Ok(q) ==> q@ == encoded_pairs(self.spec_query_pairs()),
    ;
}

/// An endpoint whose descriptor sets no parameters serializes to the empty
/// query string.
pub proof fn lemma_no_parameters_empty_query<E: Endpoint>(e: &E)
    requires
        e.spec_query_pairs() == Seq::<(Seq<char>, Seq<char>)>::empty(),
    ensures
        encoded_pairs(e.spec_query_pairs()) == Seq::<char>::empty(),
{
}

/// Relies on `serde_json::from_slice`: the bytes are parsed as JSON into a
/// value of the target type, or a parse error is returned. Which of the two
/// happens depends on the target type's deserialization, so nothing is
/// promised here; `response_from_parse` says what becomes of each outcome.
#[verifier::external_body]
fn parse_json<T: serde::de::DeserializeOwned>(body: &[u8]) -> (r: Result<T, serde_json::Error>)
{
    serde_json::from_slice(body)
}

/// A successful parse is the query's result; a failed parse is a
/// `DeserializationError` carrying the parse diagnostic, never confused with
/// a network or status-code failure.
pub fn response_from_parse<T>(parsed: Result<T, serde_json::Error>) -> (r: Result<
    T,
    RacetimeError,
>)
    ensures
        parsed matches Ok(t) ==> r matches Ok(v) && v == t,
        parsed matches Err(e) ==> r == Err::<T, RacetimeError>(
            RacetimeError::DeserializationError(e),
        ),
{
    match parsed {
        Ok(t) => Ok(t),
        Err(e) => Err(RacetimeError::DeserializationError(e)),
    }
}

/// Interpret a full HTTP response uniformly, for every endpoint/target-type
/// pair: 404 is the distinguished `NotFound` outcome; any other non-2xx
/// status is `UnexpectedStatus` carrying the code, with the body discarded;
/// a 2xx body is deserialized as JSON, and a parse failure is a
/// `DeserializationError`.
pub fn interpret_response<T: serde::de::DeserializeOwned>(status: u16, body: &[u8]) -> (r: Result<
    T,
    RacetimeError,
>)
    ensures
        status == 404 ==> (r matches Err(e) && e is NotFound),
        status != 404 && !(200 <= status < 300) ==> r == Err::<T, RacetimeError>(
            RacetimeError::UnexpectedStatus(status),
        ),
        200 <= status < 300 ==> (r matches Err(e) ==> e is DeserializationError),
{
    if status == 404 {
        return Err(RacetimeError::NotFound);
    }
    if !(200 <= status && status < 300) {
        return Err(RacetimeError::UnexpectedStatus(status));
    }
    response_from_parse(parse_json::<T>(body))
}

} // verus!
