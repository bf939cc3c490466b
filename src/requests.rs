//! The requests of the API that this library knows.

use vstd::prelude::*;
use vstd::string::{StrSliceExecFns, StringExecFns};

use edge_http::Method;

use crate::executor::{pair_texts, texts, Request, ResponseParts};
use crate::primitives::{
    Avatar, DisplayName, PageIndex, Relationships, TagId, TagMentions, TagName, TagSlug, UserId,
    Username,
};
use crate::sow::ASow;

verus! {

/// `serde_json::Value`, carried through without looking inside.
#[verifier::external_type_specification]
#[verifier::external_body]
pub struct ExJsonValue(serde_json::Value);

/// `serde_json::Error`, carried through without looking inside.
#[verifier::external_type_specification]
#[verifier::external_body]
pub struct ExJsonError(serde_json::Error);

/// What `serde_json::from_str` gives for the text, read as a
/// `serde_json::Value`.
pub uninterp spec fn json_of(text: Seq<char>) -> Result<serde_json::Value, serde_json::Error>;

/// Relies on `serde_json::from_str` into a `serde_json::Value`: the value
/// the text holds, or why it holds none. The result depends on the text
/// alone.
#[verifier::external_body]
fn parse_json(text: &str) -> (r: Result<serde_json::Value, serde_json::Error>)
    ensures
        r == json_of(text@),
{
    serde_json::from_str(text)
}

/// The decimal digit `d`.
pub open spec fn decimal_digit(d: nat) -> char {
    seq!['0', '1', '2', '3', '4', '5', '6', '7', '8', '9'][d as int]
}

/// `n` in decimal, without leading zeros.
pub open spec fn decimal_text(n: nat) -> Seq<char>
    decreases n,
{
    if n < 10 {
        seq![decimal_digit(n)]
    } else {
        decimal_text(n / 10).push(decimal_digit(n % 10))
    }
}

/// Appends `n` in decimal to `out`.
fn push_decimal(out: &mut String, n: u64)
    ensures
        final(out)@ == old(out)@ + decimal_text(n as nat),
    decreases n,
{
    let digits = "0123456789";
    proof {
        reveal_strlit("0123456789");
        assert(digits@ =~= seq!['0', '1', '2', '3', '4', '5', '6', '7', '8', '9']);
    }
    if n >= 10 {
        push_decimal(out, n / 10);
    }
    let d = (n % 10) as usize;
    let digit = digits.substring_char(d, d + 1);
    assert(digit@ =~= seq![decimal_digit((n % 10) as nat)]);
    out.append(digit);
    proof {
        if n >= 10 {
            assert(decimal_text(n as nat) == decimal_text((n / 10) as nat).push(
                decimal_digit((n % 10) as nat),
            ));
        }
    }
    assert(out@ =~= old(out)@ + decimal_text(n as nat));
}

/// `n` in decimal.
fn decimal(n: u64) -> (r: String)
    ensures
        r@ == decimal_text(n as nat),
{
    let mut out = String::new();
    push_decimal(&mut out, n);
    out
}

/// `b` as text.
pub open spec fn bool_text(b: bool) -> Seq<char> {
    if b {
        seq!['t', 'r', 'u', 'e']
    } else {
        seq!['f', 'a', 'l', 's', 'e']
    }
}

/// `b` as text.
fn bool_string(b: bool) -> (r: String)
    ensures
        r@ == bool_text(b),
{
    proof {
        reveal_strlit("true");
        reveal_strlit("false");
    }
    if b {
        let r = String::from_str("true");
        assert(r@ =~= bool_text(b));
        r
    } else {
        let r = String::from_str("false");
        assert(r@ =~= bool_text(b));
        r
    }
}

/// The text of each literal, as owned strings, in order.
fn strings(parts: &[&str]) -> (r: Vec<String>)
    ensures
        texts(r@) == parts@.map_values(|p: &str| p@),
{
    let mut r: Vec<String> = Vec::new();
    let mut i: usize = 0;
    while i < parts.len()
        invariant
            i <= parts@.len(),
            texts(r@) == parts@.subrange(0, i as int).map_values(|p: &str| p@),
        decreases parts@.len() - i,
    {
        r.push(String::from_str(parts[i]));
        assert(parts@.subrange(0, i + 1).map_values(|p: &str| p@) =~= parts@.subrange(
            0,
            i as int,
        ).map_values(|p: &str| p@).push(parts@[i as int]@));
        assert(texts(r@) =~= parts@.subrange(0, i + 1).map_values(|p: &str| p@));
        i = i + 1;
    }
    assert(parts@.subrange(0, parts@.len() as int) =~= parts@);
    r
}

/// Reads the body of `parts` as JSON.
fn json_response(parts: ResponseParts) -> (r: Result<serde_json::Value, serde_json::Error>)
    ensures
        r == json_of(parts.body@),
{
    parse_json(parts.body.as_str())
}

/// The currently popular tags: a GET of `/api/articles/tags/popular`.
pub struct PopularTags;

impl Request for PopularTags {
    /// A JSON array of `Tag` records.
    type Response = serde_json::Value;

    type ResponseError = serde_json::Error;

    open spec fn endpoint_spec(&self) -> Seq<Seq<char>> {
        seq!["api"@, "articles"@, "tags"@, "popular"@]
    }

    open spec fn method_spec(&self) -> Method {
        Method::Get
    }

    open spec fn query_spec(&self) -> Seq<(Seq<char>, Seq<char>)> {
        Seq::empty()
    }

    open spec fn decoded(&self, parts: ResponseParts) -> Result<
        serde_json::Value,
        serde_json::Error,
    > {
        json_of(parts.body@)
    }

    fn endpoint(&self) -> (r: Vec<String>) {
        let parts: [&str; 4] = ["api", "articles", "tags", "popular"];
        let r = strings(&parts);
        assert(parts@.map_values(|p: &str| p@) =~= self.endpoint_spec());
        r
    }

    fn method(&self) -> (r: Method) {
        Method::Get
    }

    fn query_params(&self) -> (r: Vec<(String, String)>) {
        let r: Vec<(String, String)> = Vec::new();
        assert(pair_texts(r@) =~= self.query_spec());
        r
    }

    fn generate_reponse(&self, parts: ResponseParts) -> (r: Result<
        serde_json::Value,
        serde_json::Error,
    >) {
        json_response(parts)
    }
}

/// A popular tag.
#[derive(Debug, Clone)]
pub struct Tag {
    pub id: TagId,
    pub name: TagName,
    pub slug: TagSlug,
    pub mentions_num: TagMentions,
}

/// A user search: a GET of
/// `/api/users/info?name={name}&page={page}&withRelationships={RELATIONSHIPS}`.
#[derive(Debug)]
pub struct SearchUsers<const RELATIONSHIPS: bool> {
    name: ASow<'static, str>,
    page: PageIndex,
}

impl<const RELATIONSHIPS: bool> SearchUsers<RELATIONSHIPS> {
    /// The name searched for.
    pub closed spec fn name_spec(&self) -> Seq<char> {
        self.name.value()@
    }

    /// The page asked for.
    pub closed spec fn page_spec(&self) -> nat {
        self.page@
    }
}

impl SearchUsers<false> {
    /// A search for `name` that asks for the first page and no
    /// relationships.
    pub fn new(name: ASow<'static, str>) -> (r: SearchUsers<false>)
        ensures
            r.name_spec() == name.value()@,
            r.page_spec() == 1,
    {
        SearchUsers { name, page: PageIndex::first() }
    }
}

impl<const RELATIONSHIPS: bool> SearchUsers<RELATIONSHIPS> {
    /// The same search, asking for `page`.
    pub fn with_page(self, page: PageIndex) -> (r: SearchUsers<RELATIONSHIPS>)
        ensures
            r.name_spec() == self.name_spec(),
            r.page_spec() == page@,
    {
        SearchUsers { page, ..self }
    }
}

/// What a user search gives, by whether it asks for relationships.
pub trait SearchUsersSpec {
    /// Whether the search asks for relationships.
    fn relationships() -> bool;

    /// The user record it gives.
    type User;
}

impl SearchUsersSpec for SearchUsers<false> {
    fn relationships() -> bool {
        false
    }

    type User = UserNoRel;
}

impl SearchUsersSpec for SearchUsers<true> {
    fn relationships() -> bool {
        true
    }

    type User = UserRel;
}

impl<const RELATIONSHIPS: bool> Request for SearchUsers<RELATIONSHIPS> {
    /// A JSON array of user records.
    type Response = serde_json::Value;

    type ResponseError = serde_json::Error;

    open spec fn endpoint_spec(&self) -> Seq<Seq<char>> {
        seq!["api"@, "users"@, "info"@]
    }

    open spec fn method_spec(&self) -> Method {
        Method::Get
    }

    open spec fn query_spec(&self) -> Seq<(Seq<char>, Seq<char>)> {
        seq![
            ("name"@, self.name_spec()),
            ("page"@, decimal_text(self.page_spec())),
            ("withRelationships"@, bool_text(RELATIONSHIPS)),
        ]
    }

    open spec fn decoded(&self, parts: ResponseParts) -> Result<
        serde_json::Value,
        serde_json::Error,
    > {
        json_of(parts.body@)
    }

    fn endpoint(&self) -> (r: Vec<String>) {
        let parts: [&str; 3] = ["api", "users", "info"];
        let r = strings(&parts);
        assert(parts@.map_values(|p: &str| p@) =~= self.endpoint_spec());
        r
    }

    fn method(&self) -> (r: Method) {
        Method::Get
    }

    fn query_params(&self) -> (r: Vec<(String, String)>) {
        let mut r: Vec<(String, String)> = Vec::new();
        r.push((String::from_str("name"), self.name.get().to_owned()));
        r.push((String::from_str("page"), decimal(self.page.get())));
        r.push((String::from_str("withRelationships"), bool_string(RELATIONSHIPS)));
        assert(pair_texts(r@) =~= self.query_spec());
        r
    }

    fn generate_reponse(&self, parts: ResponseParts) -> (r: Result<
        serde_json::Value,
        serde_json::Error,
    >) {
        json_response(parts)
    }
}

/// A user as a search without relationships gives it.
#[derive(Debug)]
pub struct UserNoRel {
    pub id: UserId,
    pub username: Username,
    pub display_name: DisplayName,
    pub avatar: Avatar,
}

/// A user as a search with relationships gives it.
#[derive(Debug)]
pub struct UserRel {
    pub id: UserId,
    pub username: Username,
    pub display_name: DisplayName,
    pub avatar: Avatar,
    pub relationships: Relationships,
}

} // verus!
