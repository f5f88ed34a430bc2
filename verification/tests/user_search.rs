use racetime_api::endpoint::Endpoint;
use racetime_api::endpoints::UserSearch;

#[test]
fn test_term_name() {
    let us = UserSearch::from_term("fox");
    assert_eq!("term=fox", us.query_parameters().unwrap());
}

#[test]
fn test_term_scrim() {
    let us = UserSearch::from_term("#0123");
    assert_eq!("term=%230123", us.query_parameters().unwrap());
}

#[test]
fn test_name() {
    let us = UserSearch::from_name_and_scrim(Some("fox"), None).unwrap();
    assert_eq!("term=fox", us.query_parameters().unwrap());
}

#[test]
fn test_scrim() {
    let us = UserSearch::from_name_and_scrim(None, Some(0123)).unwrap();
    assert_eq!("term=%230123", us.query_parameters().unwrap());
}

#[test]
fn test_name_and_scrim() {
    let us = UserSearch::from_name_and_scrim(Some("fox"), Some(0123)).unwrap();
    assert_eq!("term=fox%230123", us.query_parameters().unwrap());
}

#[test]
fn test_neither() {
    let us = UserSearch::from_name_and_scrim(None, None);
    assert!(us.is_err());
}

#[test]
fn test_scrim_five_digits() {
    let us = UserSearch::from_name_and_scrim(None, Some(98765)).unwrap();
    assert_eq!("term=%2398765", us.query_parameters().unwrap());
}

#[test]
fn test_scrim_zero() {
    let us = UserSearch::from_name_and_scrim(None, Some(0)).unwrap();
    assert_eq!("term=%230000", us.query_parameters().unwrap());
}

#[test]
fn test_search_endpoint_path() {
    let us = UserSearch::from_term("fox");
    assert_eq!("/user/search", us.endpoint());
}
