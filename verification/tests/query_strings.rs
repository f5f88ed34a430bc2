use racetime_api::endpoint::Endpoint;
use racetime_api::endpoints::AllRaces;
use racetime_api::endpoints::Leaderboards;
use racetime_api::endpoints::PastCategoryRaces;
use racetime_api::endpoints::UserData;

#[test]
fn all_races_has_no_parameters() {
    let e = AllRaces {};
    assert_eq!("", e.query_parameters().unwrap());
    assert_eq!("/races/data", e.endpoint());
}

#[test]
fn leaderboards_has_no_parameters() {
    let e = Leaderboards::new(String::from("alttp"));
    assert_eq!("", e.query_parameters().unwrap());
    assert_eq!("alttp/leaderboards/data", e.endpoint());
}

#[test]
fn user_data_has_no_parameters() {
    let e = UserData::new(String::from("abc123"));
    assert_eq!("", e.query_parameters().unwrap());
    assert_eq!("user/abc123/data", e.endpoint());
}

#[test]
fn past_races_defaults_omit_optional_keys() {
    let e = PastCategoryRaces::new(String::from("alttp"), false, None);
    assert_eq!("category=alttp", e.query_parameters().unwrap());
    assert_eq!("alttp/races/data", e.endpoint());
}

#[test]
fn past_races_show_entrants_serialized_when_set() {
    let e = PastCategoryRaces::new(String::from("alttp"), true, None);
    assert_eq!("category=alttp&show_entrants=true", e.query_parameters().unwrap());
}

#[test]
fn past_races_page_serialized_when_set() {
    let e = PastCategoryRaces::new(String::from("alttp"), false, Some(2));
    assert_eq!("category=alttp&page=2", e.query_parameters().unwrap());
}

#[test]
fn past_races_all_parameters() {
    let e = PastCategoryRaces::new(String::from("alttp"), true, Some(12));
    assert_eq!("category=alttp&show_entrants=true&page=12", e.query_parameters().unwrap());
}
