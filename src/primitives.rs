//! Plain values of the API: page indices, names, slugs and identifiers.

use vstd::prelude::*;
use vstd::string::StringExecFns;

use crate::maybe_url::MaybeUrl;

verus! {

/// Search page index, i.e. how far you are into the search. Always at least 1.
#[derive(Debug, Clone, Copy, PartialEq, Eq, PartialOrd, Ord, Hash)]
pub struct PageIndex(u64);

/// The value given to `PageIndex::try_from` was zero.
#[derive(Debug, Clone, Copy, PartialEq, Eq, Structural)]
pub struct ZeroPageIndex;

impl View for PageIndex {
    type V = nat;

    closed spec fn view(&self) -> nat {
        self.0 as nat
    }
}

impl PageIndex {
    #[verifier::type_invariant]
    spec fn positive(self) -> bool {
        self.0 >= 1
    }

    /// The first page.
    pub fn first() -> (r: PageIndex)
        ensures
            r@ == 1,
    {
        PageIndex(1)
    }

    /// The numeric value of the index.
    pub fn get(self) -> (r: u64)
        ensures
            r as nat == self@,
            r >= 1,
    {
        proof {
            use_type_invariant(self);
        }
        self.0
    }

    /// Returns the next page index. The caller must not be on the last
    /// representable page.
    pub fn next(self) -> (r: PageIndex)
        requires
            self@ < u64::MAX,
        ensures
            r@ == self@ + 1,
    {
        proof {
            use_type_invariant(self);
        }
        PageIndex(self.0 + 1)
    }

    /// Returns the next page index, staying on the last representable page
    /// once it is reached.
    pub fn saturating_next(self) -> (r: PageIndex)
        ensures
            r@ == if self@ < u64::MAX { self@ + 1 } else { self@ },
    {
        proof {
            use_type_invariant(self);
        }
        if self.0 < u64::MAX {
            PageIndex(self.0 + 1)
        } else {
            self
        }
    }

    /// Creates a page index from a value that is known to be non-zero.
    pub fn from(v: u64) -> (r: PageIndex)
        requires
            v >= 1,
        ensures
            r@ == v as nat,
    {
        PageIndex(v)
    }

    /// Creates a page index, failing on zero.
    pub fn try_from(v: u64) -> (r: Result<PageIndex, ZeroPageIndex>)
        ensures
            v == 0 <==> r is Err,
            r is Ok ==> r->Ok_0@ == v as nat,
    {
        if v == 0 {
            Err(ZeroPageIndex)
        } else {
            Ok(PageIndex(v))
        }
    }
}

/// Name of an article tag.
#[derive(Debug, Clone, PartialEq, Eq, PartialOrd, Ord, Hash)]
pub struct TagName(pub String);

/// Number of mentions of a tag.
#[derive(Debug, Clone, Copy, PartialEq, Eq, PartialOrd, Ord, Hash)]
pub struct TagMentions(pub u64);

/// Whether the user has subscribed to and/or blocked something (another
/// user, a tag, an article).
#[derive(Debug, Clone, Copy, PartialEq, Eq, PartialOrd, Ord, Hash)]
pub struct Relationships {
    pub is_subscribed: bool,
    pub is_blocked: bool,
}

/// Username of a user.
#[derive(Debug, Clone, PartialEq, Eq, PartialOrd, Ord, Hash)]
pub struct Username(pub String);

/// Display name of a user.
#[derive(Debug, Clone, PartialEq, Eq, PartialOrd, Ord, Hash)]
pub struct DisplayName(pub String);

/// Avatar of a user.
#[derive(Debug, Clone, PartialEq, Eq, Hash)]
pub struct Avatar(pub MaybeUrl);

/// Slug of something: a string that names it in URLs. Immutable once made.
#[derive(Debug, Clone, PartialEq, Eq, PartialOrd, Ord, Hash)]
pub struct Slug(String);

impl View for Slug {
    type V = Seq<char>;

    closed spec fn view(&self) -> Seq<char> {
        self.0@
    }
}

impl Slug {
    /// A slug with text `text`.
    pub fn from_string(text: String) -> (r: Slug)
        ensures
            r@ == text@,
    {
        Slug(text)
    }

    /// The text of the slug.
    pub fn as_str(&self) -> (r: &str)
        ensures
            r@ == self@,
    {
        self.0.as_str()
    }
}

impl AsRef<str> for Slug {
    fn as_ref(&self) -> &str {
        self.as_str()
    }
}

/// Slug of an article tag.
#[derive(Debug, Clone, PartialEq, Eq, PartialOrd, Ord, Hash)]
pub struct TagSlug(Slug);

impl View for TagSlug {
    type V = Seq<char>;

    closed spec fn view(&self) -> Seq<char> {
        self.0@
    }
}

impl TagSlug {
    /// A tag slug with text `text`.
    pub fn from_string(text: String) -> (r: TagSlug)
        ensures
            r@ == text@,
    {
        TagSlug(Slug::from_string(text))
    }

    /// The slug.
    pub fn into_slug(self) -> (r: Slug)
        ensures
            r@ == self@,
    {
        self.0
    }
}

/// The hexadecimal digits, lower or upper case.
pub open spec fn hex_digits(upper: bool) -> Seq<char> {
    if upper {
        seq!['0', '1', '2', '3', '4', '5', '6', '7', '8', '9', 'A', 'B', 'C', 'D', 'E', 'F']
    } else {
        seq!['0', '1', '2', '3', '4', '5', '6', '7', '8', '9', 'a', 'b', 'c', 'd', 'e', 'f']
    }
}

/// A byte in hexadecimal, right-aligned in two places: a byte under 16 is a
/// space and one digit.
pub open spec fn byte_hex(b: u8, upper: bool) -> Seq<char> {
    if b < 16 {
        seq![' ', hex_digits(upper)[b as int]]
    } else {
        seq![hex_digits(upper)[(b / 16) as int], hex_digits(upper)[(b % 16) as int]]
    }
}

/// The bytes in hexadecimal, two places each, in order.
pub open spec fn bytes_hex(bytes: Seq<u8>, upper: bool) -> Seq<char>
    decreases bytes.len(),
{
    if bytes.len() == 0 {
        Seq::empty()
    } else {
        bytes_hex(bytes.drop_last(), upper) + byte_hex(bytes.last(), upper)
    }
}

/// The hexadecimal digit of `d`, as text.
fn hex_digit(d: u8, upper: bool) -> (r: &'static str)
    requires
        d < 16,
    ensures
        r@ == seq![hex_digits(upper)[d as int]],
{
    let digits = if upper {
        "0123456789ABCDEF"
    } else {
        "0123456789abcdef"
    };
    proof {
        reveal_strlit("0123456789ABCDEF");
        reveal_strlit("0123456789abcdef");
        assert(digits@ =~= hex_digits(upper));
    }
    let r = digits.substring_char(d as usize, d as usize + 1);
    assert(r@ =~= seq![hex_digits(upper)[d as int]]);
    r
}

/// Appends `bytes` in hexadecimal, two places each, to `out`.
fn push_hex(out: &mut String, bytes: &[u8; 12], upper: bool)
    ensures
        final(out)@ == old(out)@ + bytes_hex(bytes@, upper),
{
    let mut i: usize = 0;
    while i < 12
        invariant
            i <= 12,
            bytes@.len() == 12,
            out@ == old(out)@ + bytes_hex(bytes@.subrange(0, i as int), upper),
        decreases 12 - i,
    {
        let b = bytes[i];
        if b < 16 {
            proof {
                reveal_strlit(" ");
            }
            out.append(" ");
            out.append(hex_digit(b, upper));
        } else {
            out.append(hex_digit(b / 16, upper));
            out.append(hex_digit(b % 16, upper));
        }
        proof {
            assert(bytes@.subrange(0, i + 1).drop_last() =~= bytes@.subrange(0, i as int));
        }
        i = i + 1;
    }
    assert(bytes@.subrange(0, 12) =~= bytes@);
}

/// Identifier of something on the site. Immutable once made.
#[derive(Debug, Clone, Copy, PartialEq, Eq, PartialOrd, Ord, Hash)]
pub struct Id([u8; 12]);

impl View for Id {
    type V = Seq<u8>;

    closed spec fn view(&self) -> Seq<u8> {
        self.0@
    }
}

impl Id {
    /// The identifier made of `bytes`.
    pub fn from_bytes(bytes: [u8; 12]) -> (r: Id)
        ensures
            r@ == bytes@,
    {
        Id(bytes)
    }

    /// The bytes of the identifier.
    pub fn as_bytes(&self) -> (r: &[u8; 12])
        ensures
            r@ == self@,
    {
        &self.0
    }

    /// The identifier in lower-case hexadecimal, each byte right-aligned in
    /// two places.
    pub fn to_lower_hex(&self) -> (r: String)
        ensures
            r@ == bytes_hex(self@, false),
    {
        let mut out = String::new();
        push_hex(&mut out, &self.0, false);
        out
    }

    /// The identifier in upper-case hexadecimal, each byte right-aligned in
    /// two places.
    pub fn to_upper_hex(&self) -> (r: String)
        ensures
            r@ == bytes_hex(self@, true),
    {
        let mut out = String::new();
        push_hex(&mut out, &self.0, true);
        out
    }
}

/// Identifier of an article tag.
#[derive(Debug, Clone, Copy, PartialEq, Eq, PartialOrd, Ord, Hash)]
pub struct TagId(Id);

impl TagId {
    /// The tag identifier made of `id`.
    pub fn from_id(id: Id) -> (r: TagId)
        ensures
            r.into_id_spec() == id,
    {
        TagId(id)
    }

    pub closed spec fn into_id_spec(self) -> Id {
        self.0
    }

    /// The plain identifier.
    pub fn into_id(self) -> (r: Id)
        ensures
            r == self.into_id_spec(),
    {
        self.0
    }
}

/// Identifier of a user.
#[derive(Debug, Clone, Copy, PartialEq, Eq, PartialOrd, Ord, Hash)]
pub struct UserId(Id);

impl UserId {
    /// The user identifier made of `id`.
    pub fn from_id(id: Id) -> (r: UserId)
        ensures
            r.into_id_spec() == id,
    {
        UserId(id)
    }

    pub closed spec fn into_id_spec(self) -> Id {
        self.0
    }

    /// The plain identifier.
    pub fn into_id(self) -> (r: Id)
        ensures
            r == self.into_id_spec(),
    {
        self.0
    }
}

} // verus!
