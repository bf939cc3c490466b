use edge_http::Method;
use url::Url;

use type_matrux::executor::{request_url, BaseUrl, Request, ResponseParts};
use type_matrux::primitives::PageIndex;
use type_matrux::requests::{PopularTags, SearchUsers, SearchUsersSpec};
use type_matrux::sow::ASow;

fn drukarnia() -> BaseUrl {
    match BaseUrl::try_new(Url::parse("https://drukarnia.com.ua/").unwrap()) {
        Ok(b) => b,
        Err(_) => panic!("not a base"),
    }
}

#[test]
fn popular_tags_request() {
    assert_eq!(PopularTags.endpoint(), vec!["api", "articles", "tags", "popular"]);
    assert_eq!(PopularTags.method(), Method::Get);
    assert!(PopularTags.query_params().is_empty());
    let url = request_url(&drukarnia(), &PopularTags).into_inner();
    assert_eq!(url.as_str(), "https://drukarnia.com.ua/api/articles/tags/popular");
}

#[test]
fn popular_tags_response_is_json() {
    let body = r#"[{"_id":"0123456789abcdef01234567","name":"Ігри","slug":"igri","mentionsNum":369}]"#;
    let parts = ResponseParts { status_code: 200, body: body.to_string() };
    let value = PopularTags.generate_reponse(parts).unwrap();
    assert_eq!(value[0]["slug"], "igri");
    assert_eq!(value[0]["mentionsNum"], 369);
}

#[test]
fn search_users_first_page() {
    let search = SearchUsers::new(ASow::from_string("Poroshenko".to_string()));
    assert_eq!(search.endpoint(), vec!["api", "users", "info"]);
    assert_eq!(search.method(), Method::Get);
    let expected: Vec<(String, String)> = vec![
        ("name".to_string(), "Poroshenko".to_string()),
        ("page".to_string(), "1".to_string()),
        ("withRelationships".to_string(), "false".to_string()),
    ];
    assert_eq!(search.query_params(), expected);
    assert!(!SearchUsers::<false>::relationships());
    assert!(SearchUsers::<true>::relationships());
}

#[test]
fn search_users_with_page() {
    let search = SearchUsers::new(ASow::Reference("Іван")).with_page(PageIndex::from(120));
    let url = request_url(&drukarnia(), &search).into_inner();
    assert_eq!(url.path(), "/api/users/info");
    assert_eq!(
        url.query(),
        Some("name=%D0%86%D0%B2%D0%B0%D0%BD&page=120&withRelationships=false")
    );
}

#[test]
fn search_users_bad_body_fails() {
    let search = SearchUsers::new(ASow::Reference("x"));
    let parts = ResponseParts { status_code: 200, body: "<html>".to_string() };
    assert!(search.generate_reponse(parts).is_err());
}
