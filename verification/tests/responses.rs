use racetime_api::endpoint::interpret_response;
use racetime_api::endpoint::response_from_parse;
use racetime_api::err::RacetimeError;

#[test]
fn stub_404_is_not_found() {
    let body = b"<html>generic user-facing 404 page</html>";
    let r: Result<serde_json::Value, RacetimeError> = interpret_response(404, &body[..]);
    assert!(matches!(r, Err(RacetimeError::NotFound)));
}

#[test]
fn stub_404_is_not_found_for_numeric_target() {
    let r: Result<u32, RacetimeError> = interpret_response(404, &b"17"[..]);
    assert!(matches!(r, Err(RacetimeError::NotFound)));
}

#[test]
fn stub_500_is_unexpected_status() {
    let r: Result<serde_json::Value, RacetimeError> = interpret_response(500, &b"{}"[..]);
    assert!(matches!(r, Err(RacetimeError::UnexpectedStatus(500))));
}

#[test]
fn stub_503_is_unexpected_status() {
    let r: Result<serde_json::Value, RacetimeError> = interpret_response(503, &b"{}"[..]);
    assert!(matches!(r, Err(RacetimeError::UnexpectedStatus(503))));
}

#[test]
fn stub_301_is_unexpected_status() {
    let r: Result<serde_json::Value, RacetimeError> = interpret_response(301, &b"{}"[..]);
    assert!(matches!(r, Err(RacetimeError::UnexpectedStatus(301))));
}

#[test]
fn mismatched_body_is_deserialization_error() {
    let r: Result<u32, RacetimeError> = interpret_response(200, &b"\"zelda\""[..]);
    match r {
        Err(RacetimeError::DeserializationError(e)) => {
            let diagnostic = e.to_string();
            assert!(!diagnostic.is_empty());
        },
        _ => panic!("expected a deserialization failure"),
    }
}

#[test]
fn matching_body_is_ok() {
    let r: Result<u32, RacetimeError> = interpret_response(200, &b"17"[..]);
    assert_eq!(17, r.unwrap());
}

#[test]
fn parse_outcome_keeps_value_and_diagnostic() {
    let ok: Result<u64, serde_json::Error> = serde_json::from_slice(&b"99"[..]);
    let r = response_from_parse(ok);
    assert_eq!(99, r.unwrap());

    let bad: Result<u64, serde_json::Error> = serde_json::from_slice(&b"[1,"[..]);
    let r2 = response_from_parse(bad);
    assert!(matches!(r2, Err(RacetimeError::DeserializationError(_))));
}

#[test]
fn many_queries_are_independent() {
    let mut results: Vec<u32> = Vec::new();
    for i in 0..50u32 {
        let body = format!("{}", i);
        let r: Result<u32, RacetimeError> = interpret_response(200, body.as_bytes());
        results.push(r.unwrap());
    }
    for i in 0..50u32 {
        assert_eq!(i, results[i as usize]);
    }
}
