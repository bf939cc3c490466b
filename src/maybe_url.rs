//! URLs from user content, which may not parse.

use vstd::prelude::*;

use url::{ParseError, Url};

use crate::executor::{clone_url, url_serialization, url_text};

verus! {

/// `url::ParseError` is an enum of unit variants only: its variants are
/// visible to proofs.
#[verifier::external_type_specification]
pub struct ExParseError(ParseError);

/// A number for each kind of parse error; kinds added to the enum later
/// share the last number.
pub open spec fn parse_error_tag_spec(error: ParseError) -> u8 {
    match error {
        ParseError::EmptyHost => 0,
        ParseError::IdnaError => 1,
        ParseError::InvalidPort => 2,
        ParseError::InvalidIpv4Address => 3,
        ParseError::InvalidIpv6Address => 4,
        ParseError::InvalidDomainCharacter => 5,
        ParseError::RelativeUrlWithoutBase => 6,
        ParseError::RelativeUrlWithCannotBeABaseBase => 7,
        ParseError::SetHostOnCannotBeABaseUrl => 8,
        ParseError::Overflow => 9,
        _ => 10,
    }
}

/// The number of the kind of `error`.
pub fn parse_error_tag(error: ParseError) -> (r: u8)
    ensures
        r == parse_error_tag_spec(error),
{
    match error {
        ParseError::EmptyHost => 0,
        ParseError::IdnaError => 1,
        ParseError::InvalidPort => 2,
        ParseError::InvalidIpv4Address => 3,
        ParseError::InvalidIpv6Address => 4,
        ParseError::InvalidDomainCharacter => 5,
        ParseError::RelativeUrlWithoutBase => 6,
        ParseError::RelativeUrlWithCannotBeABaseBase => 7,
        ParseError::SetHostOnCannotBeABaseUrl => 8,
        ParseError::Overflow => 9,
        _ => 10,
    }
}

/// What `url::Url::parse` gives for the text.
pub uninterp spec fn parsed_url(text: Seq<char>) -> Result<url::Url, url::ParseError>;


/// Relies on `url::Url::parse`: parses an absolute URL, failing with the
/// reason where the text is none. The result depends on the text alone.
#[verifier::external_body]
fn parse_url(text: &str) -> (r: Result<Url, ParseError>)
    ensures
        r == parsed_url(text@),
{
    Url::parse(text)
}

/// A URL that does not parse: the text as given, and why it does not parse.
#[derive(Debug)]
pub struct BadUrl {
    pub source: String,
    error_inner: ParseError,
}

impl BadUrl {
    /// The text as given.
    pub closed spec fn text(&self) -> Seq<char> {
        self.source@
    }

    /// Why the source does not parse.
    pub closed spec fn reason(&self) -> ParseError {
        self.error_inner
    }

    /// Why the source does not parse.
    pub fn error(&self) -> (r: ParseError)
        ensures
            r == self.reason(),
    {
        self.error_inner
    }
}

impl PartialEq for BadUrl {
    /// Bad URLs are equal where their sources are and their errors are of
    /// the same kind.
    fn eq(&self, other: &BadUrl) -> (r: bool) {
        self.source == other.source && parse_error_tag(self.error_inner) == parse_error_tag(
            other.error_inner,
        )
    }
}

impl vstd::std_specs::cmp::PartialEqSpecImpl for BadUrl {
    open spec fn obeys_eq_spec() -> bool {
        true
    }

    open spec fn eq_spec(&self, other: &BadUrl) -> bool {
        self.text() == other.text() && parse_error_tag_spec(self.reason())
            == parse_error_tag_spec(other.reason())
    }
}

impl Eq for BadUrl {

}

impl Clone for BadUrl {
    fn clone(&self) -> BadUrl {
        BadUrl { source: self.source.clone(), error_inner: self.error_inner }
    }
}

/// Relies on `Hash` for `String`: feeds the text to the hasher.
pub assume_specification<H: std::hash::Hasher>[ <String as std::hash::Hash>::hash::<H> ](
    data: &String,
    state: &mut H,
);

/// Relies on `Hash` for `u8`: feeds the byte to the hasher.
pub assume_specification<H: std::hash::Hasher>[ <u8 as std::hash::Hash>::hash::<H> ](
    data: &u8,
    state: &mut H,
);

/// Relies on the `Hash` impl that `url::Url` has: feeds the serialization
/// to the hasher.
pub assume_specification<H: std::hash::Hasher>[ <url::Url as std::hash::Hash>::hash::<H> ](
    data: &url::Url,
    state: &mut H,
);

impl std::hash::Hash for BadUrl {
    /// Hashes what equality compares: the source and the kind of error.
    fn hash<H: std::hash::Hasher>(&self, state: &mut H) {
        self.source.hash(state);
        parse_error_tag(self.error_inner).hash(state);
    }
}

/// A URL taken from user content, which may not parse.
#[derive(Debug, Hash)]
pub enum MaybeUrl {
    Url(Url),
    BadUrl(BadUrl),
}

impl MaybeUrl {
    /// Parses `source`, keeping it as a bad URL where it does not parse.
    pub fn from_source(source: String) -> (r: MaybeUrl)
        ensures
            parsed_url(source@) is Ok ==> r == MaybeUrl::Url(parsed_url(source@)->Ok_0),
            parsed_url(source@) is Err ==> r is BadUrl,
            r is BadUrl ==> r->BadUrl_0.text() == source@,
            r is BadUrl ==> r->BadUrl_0.reason() == parsed_url(source@)->Err_0,
    {
        match parse_url(source.as_str()) {
            Ok(url) => MaybeUrl::Url(url),
            Err(error) => MaybeUrl::BadUrl(BadUrl { source, error_inner: error }),
        }
    }

    /// The text of the URL: its serialization, or the source of a bad URL.
    pub fn as_str(&self) -> (r: &str)
        ensures
            self is Url ==> r@ == url_serialization(self->Url_0),
            self is BadUrl ==> r@ == self->BadUrl_0.text(),
    {
        match self {
            MaybeUrl::Url(url) => url_text(url),
            MaybeUrl::BadUrl(bad) => bad.source.as_str(),
        }
    }

    /// Whether this is a URL that parsed.
    pub fn is_url(&self) -> (r: bool)
        ensures
            r <==> self is Url,
    {
        match self {
            MaybeUrl::Url(_) => true,
            MaybeUrl::BadUrl(_) => false,
        }
    }
}

impl Clone for MaybeUrl {
    fn clone(&self) -> MaybeUrl {
        match self {
            MaybeUrl::Url(url) => MaybeUrl::Url(clone_url(url)),
            MaybeUrl::BadUrl(bad) => MaybeUrl::BadUrl(bad.clone()),
        }
    }
}

/// Relies on the `PartialEq` impl of `url::Url`: URLs are equal where their
/// serializations are.
pub assume_specification[ <url::Url as PartialEq>::eq ](this: &url::Url, other: &url::Url) -> (r:
    bool)
    ensures
        r == (url_serialization(*this) == url_serialization(*other)),
;

impl PartialEq for MaybeUrl {
    /// Equal where both parsed to URLs with the same text, or both are equal
    /// bad URLs.
    fn eq(&self, other: &MaybeUrl) -> (r: bool) {
        match (self, other) {
            (MaybeUrl::Url(a), MaybeUrl::Url(b)) => a.eq(b),
            (MaybeUrl::BadUrl(a), MaybeUrl::BadUrl(b)) => a.eq(b),
            _ => false,
        }
    }
}

impl vstd::std_specs::cmp::PartialEqSpecImpl for MaybeUrl {
    open spec fn obeys_eq_spec() -> bool {
        true
    }

    open spec fn eq_spec(&self, other: &MaybeUrl) -> bool {
        match (self, other) {
            (MaybeUrl::Url(a), MaybeUrl::Url(b)) => url_serialization(*a) == url_serialization(*b),
            (MaybeUrl::BadUrl(a), MaybeUrl::BadUrl(b)) => a.text() == b.text()
                && parse_error_tag_spec(a.reason()) == parse_error_tag_spec(b.reason()),
            _ => false,
        }
    }
}

impl Eq for MaybeUrl {

}

impl AsRef<str> for MaybeUrl {
    fn as_ref(&self) -> &str {
        self.as_str()
    }
}

} // verus!
