use racetime_api::client::request_url;
use racetime_api::client::rest_endpoint;
use racetime_api::client::BASE_URL;
use racetime_api::endpoints::AllRaces;
use racetime_api::endpoints::Leaderboards;
use racetime_api::endpoints::PastCategoryRaces;
use racetime_api::endpoints::UserSearch;
use racetime_api::err::RacetimeError;

#[test]
fn resolves_relative_path_with_leading_slash() {
    let u = rest_endpoint(BASE_URL, "/races/data").unwrap();
    assert_eq!("https://racetime.gg/races/data", u);
}

#[test]
fn resolves_relative_path_without_leading_slash() {
    let u = rest_endpoint(BASE_URL, "alttp/leaderboards/data").unwrap();
    assert_eq!("https://racetime.gg/alttp/leaderboards/data", u);
}

#[test]
fn request_url_without_query() {
    let u = request_url(BASE_URL, &AllRaces {}).unwrap();
    assert_eq!("https://racetime.gg/races/data", u);
}

#[test]
fn request_url_for_leaderboards() {
    let u = request_url(BASE_URL, &Leaderboards::new(String::from("alttp"))).unwrap();
    assert_eq!("https://racetime.gg/alttp/leaderboards/data", u);
}

#[test]
fn unparsable_base_is_a_parse_error() {
    let r = rest_endpoint("not an absolute url", "races/data");
    assert!(matches!(r, Err(RacetimeError::ParseError(_))));
}

#[test]
fn request_url_attaches_query() {
    let us = UserSearch::from_term("fox");
    let u = request_url(BASE_URL, &us).unwrap();
    assert_eq!("https://racetime.gg/user/search?term=fox", u);
}

#[test]
fn request_url_attaches_all_parameters() {
    let e = PastCategoryRaces::new(String::from("alttp"), true, Some(3));
    let u = request_url(BASE_URL, &e).unwrap();
    assert_eq!("https://racetime.gg/alttp/races/data?category=alttp&show_entrants=true&page=3", u);
}
