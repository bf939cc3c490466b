use url::Url;

use type_matrux::executor::{
    complete, request_url, try_request_url, BaseUrl, ExecutorError, ResponseParts,
};
use type_matrux::requests::PopularTags;

fn base(text: &str) -> BaseUrl {
    match BaseUrl::try_new(Url::parse(text).unwrap()) {
        Ok(b) => b,
        Err(_) => panic!("not a base"),
    }
}

fn texts(v: &[&str]) -> Vec<String> {
    v.iter().map(|s| s.to_string()).collect()
}

fn pairs(v: &[(&str, &str)]) -> Vec<(String, String)> {
    v.iter().map(|(k, v)| (k.to_string(), v.to_string())).collect()
}

#[test]
fn url_from_endpoint_without_query() {
    let mut url = base("https://example.com/");
    url.extend_path(&texts(&["x", "y"]));
    url.add_params(&pairs(&[]));
    let url = url.into_inner();
    assert_eq!(url.path(), "/x/y");
    assert_eq!(url.query(), None);
    assert_eq!(url.as_str(), "https://example.com/x/y");
}

#[test]
fn url_keeps_repeated_query_names_in_order() {
    let mut url = base("https://example.com/");
    url.extend_path(&texts(&["x", "y"]));
    url.add_params(&pairs(&[("a", "1"), ("a", "2")]));
    let url = url.into_inner();
    assert_eq!(url.path(), "/x/y");
    assert_eq!(url.query(), Some("a=1&a=2"));
}

#[test]
fn url_encodes_segments_and_values() {
    let mut url = base("https://example.com/api");
    url.extend_path(&texts(&["a b", "c/d"]));
    url.add_params(&pairs(&[("name", "Дія & co")]));
    let url = url.into_inner();
    assert_eq!(url.path(), "/api/a%20b/c%2Fd");
    assert_eq!(url.query(), Some("name=%D0%94%D1%96%D1%8F+%26+co"));
}

#[test]
fn base_url_is_not_changed_by_a_request() {
    let b = base("https://example.com/");
    let url = request_url(&b, &PopularTags).into_inner();
    assert_eq!(url.as_str(), "https://example.com/api/articles/tags/popular");
    assert_eq!(b.into_inner().as_str(), "https://example.com/");
}

#[test]
fn duplicate_copies_the_url() {
    let b = base("https://example.com/p");
    assert_eq!(b.duplicate().into_inner().as_str(), "https://example.com/p");
}

#[test]
fn cannot_be_a_base_url_is_refused() {
    let url = Url::parse("mailto:someone@example.com").unwrap();
    match BaseUrl::try_new(url) {
        Ok(_) => panic!("accepted a cannot-be-a-base url"),
        Err(e) => assert_eq!(e.0.as_str(), "mailto:someone@example.com"),
    }
}

#[test]
fn transport_failure_is_an_execution_error() {
    let r = complete(&PopularTags, Err::<ResponseParts, &str>("connection reset"));
    assert!(matches!(r, Err(ExecutorError::Execution("connection reset"))));
}

#[test]
fn malformed_json_is_a_response_error() {
    let parts = ResponseParts { status_code: 200, body: "{not json".to_string() };
    let r = complete(&PopularTags, Ok::<ResponseParts, &str>(parts));
    assert!(matches!(r, Err(ExecutorError::Response(_))));
}

#[test]
fn well_formed_json_is_returned() {
    let parts = ResponseParts { status_code: 200, body: "[1, 2]".to_string() };
    let r = complete(&PopularTags, Ok::<ResponseParts, &str>(parts));
    match r {
        Ok(v) => assert_eq!(v[1], 2),
        Err(_) => panic!("valid JSON was refused"),
    }
}

#[test]
fn checked_url_matches_the_plain_one() {
    let b = base("https://example.com/");
    let checked = try_request_url(&b, &PopularTags).map(|u| u.into_inner());
    let plain = request_url(&b, &PopularTags).into_inner();
    assert_eq!(checked, Some(plain));
}

#[test]
fn base_url_clones_and_shows_its_text() {
    let b = base("https://example.com/p?q=1");
    let c = b.clone();
    assert_eq!(c.as_str(), "https://example.com/p?q=1");
    let u: &Url = b.as_ref();
    assert_eq!(u.path(), "/p");
}
