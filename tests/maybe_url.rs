use std::hash::Hasher;
use url::ParseError;

use type_matrux::maybe_url::{parse_error_tag, MaybeUrl};
use type_matrux::primitives::{Avatar, Relationships, TagMentions, TagName};

#[test]
fn valid_avatar_url_parses() {
    let avatar = Avatar(MaybeUrl::from_source("https://cdn.example.com/a.png".to_string()));
    assert!(avatar.0.is_url());
    assert_eq!(avatar.0.as_str(), "https://cdn.example.com/a.png");
}

#[test]
fn url_text_is_the_serialization() {
    let url = MaybeUrl::from_source("HTTPS://Example.COM".to_string());
    assert!(url.is_url());
    assert_eq!(url.as_str(), "https://example.com/");
}

#[test]
fn bad_avatar_url_keeps_its_source() {
    let url = MaybeUrl::from_source("not a url".to_string());
    assert!(!url.is_url());
    assert_eq!(url.as_str(), "not a url");
    match url {
        MaybeUrl::BadUrl(bad) => {
            assert_eq!(bad.source, "not a url");
            assert_eq!(bad.error(), ParseError::RelativeUrlWithoutBase);
        }
        MaybeUrl::Url(_) => panic!("parsed a bad url"),
    }
}

#[test]
fn plain_records_compare_by_fields() {
    let r = Relationships { is_subscribed: true, is_blocked: false };
    assert_eq!(r, Relationships { is_subscribed: true, is_blocked: false });
    assert!(TagMentions(3) < TagMentions(4));
    assert_eq!(TagName("Ігри".to_string()), TagName("Ігри".to_string()));
}

#[test]
fn bad_urls_compare_by_source_and_error_kind() {
    let bad = |s: &str| match MaybeUrl::from_source(s.to_string()) {
        MaybeUrl::BadUrl(b) => b,
        MaybeUrl::Url(_) => panic!("parsed a bad url"),
    };
    assert!(bad("nope") == bad("nope"));
    assert!(bad("nope") != bad("nah"));
    assert!(bad("http://[::1") != bad("nope"));
}

#[test]
fn parse_error_kinds_are_numbered() {
    assert_eq!(parse_error_tag(ParseError::EmptyHost), 0);
    assert_eq!(parse_error_tag(ParseError::RelativeUrlWithoutBase), 6);
    assert_eq!(parse_error_tag(ParseError::Overflow), 9);
}

fn hash_of<T: std::hash::Hash>(v: &T) -> u64 {
    let mut h = std::collections::hash_map::DefaultHasher::new();
    v.hash(&mut h);
    h.finish()
}

#[test]
fn maybe_urls_clone_and_hash_alike() {
    let good = MaybeUrl::from_source("https://example.com/a".to_string());
    let copy = good.clone();
    assert_eq!(copy.as_str(), "https://example.com/a");
    assert_eq!(hash_of(&good), hash_of(&copy));
    let bad = MaybeUrl::from_source("nope".to_string());
    let bad_copy = bad.clone();
    assert_eq!(bad_copy.as_str(), "nope");
    assert_eq!(hash_of(&bad), hash_of(&bad_copy));
    let avatar = Avatar(bad);
    assert_eq!(hash_of(&avatar), hash_of(&Avatar(bad_copy)));
}

#[test]
fn maybe_urls_compare_by_text() {
    let a = MaybeUrl::from_source("https://example.com".to_string());
    let b = MaybeUrl::from_source("https://example.com/".to_string());
    assert!(a == b);
    assert!(a != MaybeUrl::from_source("https://example.org/".to_string()));
    assert!(MaybeUrl::from_source("x".to_string()) == MaybeUrl::from_source("x".to_string()));
    assert!(MaybeUrl::from_source("x".to_string()) != a);
    assert!(Avatar(a.clone()) == Avatar(b));
}
