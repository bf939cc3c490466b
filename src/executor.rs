//! Requests and their execution: the base URL, the `Request` contract, and
//! the steps of a `send` around the transport call.

use vstd::prelude::*;
use vstd::string::StrSliceExecFns;

use edge_http::Method;
use url::Url;

verus! {

/// `url::Url`, carried through without looking inside.
#[verifier::external_type_specification]
#[verifier::external_body]
pub struct ExUrl(url::Url);

/// `edge_http::Method` is an enum of unit variants only: its variants are
/// visible to proofs.
#[verifier::external_type_specification]
pub struct ExMethod(Method);

/// The serialization of the URL, as `url::Url::as_str` gives it.
pub uninterp spec fn url_serialization(u: url::Url) -> Seq<char>;

/// Whether `url::Url::cannot_be_a_base` holds of the URL.
pub uninterp spec fn lacks_base(u: url::Url) -> bool;

/// The URL that `url::PathSegmentsMut::push` leaves after appending segment `s`.
pub uninterp spec fn with_segment(u: url::Url, s: Seq<char>) -> url::Url;

/// The URL that `form_urlencoded::Serializer::append_pair` leaves after
/// appending the pair `k=v` to the query.
pub uninterp spec fn with_pair(u: url::Url, k: Seq<char>, v: Seq<char>) -> url::Url;

/// Relies on `url::Url::cannot_be_a_base`: whether the URL has no
/// hierarchical path that segments could be appended to. It reads the URL
/// alone.
pub assume_specification[ url::Url::cannot_be_a_base ](target: &url::Url) -> (r: bool)
    ensures
        r == lacks_base(*target),
;

/// Relies on the `Clone` impl that `url::Url` derives: the copy is equal to
/// the original.
#[verifier::external_body]
pub(crate) fn clone_url(url: &Url) -> (r: Url)
    ensures
        r == *url,
{
    url.clone()
}

/// Relies on `url::Url::as_str`: the serialization of the URL, which the
/// URL holds.
#[verifier::external_body]
pub(crate) fn url_text(url: &Url) -> (r: &str)
    ensures
        r@ == url_serialization(*url),
{
    url.as_str()
}

/// Relies on `url::Url::path_segments_mut` and `url::PathSegmentsMut::push`:
/// appends `segment`, percent-encoded, as the last path segment (a URL that
/// cannot be a base has no segments and is left as it is). The result
/// depends on the URL and the segment alone. The URL grows by at most a `/`
/// and 12 characters per character of the segment (4 UTF-8 bytes, each
/// percent-encoded); it keeps its scheme, so whether it can be a base does
/// not change. The url crate panics where its text outgrows `u32`.
#[verifier::external_body]
fn push_path_segment(url: &mut Url, segment: &str)
    requires
        url_serialization(*old(url)).len() + segment_growth(segment@) <= u32::MAX,
    ensures
        *final(url) == with_segment(*old(url), segment@),
        url_serialization(*final(url)).len() <= url_serialization(*old(url)).len()
            + segment_growth(segment@),
        lacks_base(*final(url)) == lacks_base(*old(url)),
{
    if let Ok(mut segments) = url.path_segments_mut() {
        segments.push(segment);
    }
}

/// Relies on `url::Url::query_pairs_mut` and
/// `form_urlencoded::Serializer::append_pair`: appends `name=value`,
/// form-urlencoded, to the query string. The result depends on the URL, the
/// name and the value alone. The URL grows by at most a separator (`?` or
/// `&`), the `=` and 12 characters per character of the name and value; the
/// path and scheme stay, so whether it can be a base does not change. The
/// url crate panics where its text outgrows `u32`.
#[verifier::external_body]
fn append_query_pair(url: &mut Url, name: &str, value: &str)
    requires
        url_serialization(*old(url)).len() + pair_growth((name@, value@)) <= u32::MAX,
    ensures
        *final(url) == with_pair(*old(url), name@, value@),
        url_serialization(*final(url)).len() <= url_serialization(*old(url)).len()
            + pair_growth((name@, value@)),
        lacks_base(*final(url)) == lacks_base(*old(url)),
{
    url.query_pairs_mut().append_pair(name, value);
}

/// The most that appending segment `s` adds to a URL's text.
pub open spec fn segment_growth(s: Seq<char>) -> nat {
    1 + 12 * s.len()
}

/// The most that appending pair `p` adds to a URL's text.
pub open spec fn pair_growth(p: (Seq<char>, Seq<char>)) -> nat {
    2 + 12 * (p.0.len() + p.1.len())
}

/// The most that appending all of `segments` adds to a URL's text.
pub open spec fn segments_growth(segments: Seq<Seq<char>>) -> nat
    decreases segments.len(),
{
    if segments.len() == 0 {
        0
    } else {
        segments_growth(segments.drop_last()) + segment_growth(segments.last())
    }
}

/// The most that appending all of `pairs` adds to a URL's text.
pub open spec fn pairs_growth(pairs: Seq<(Seq<char>, Seq<char>)>) -> nat
    decreases pairs.len(),
{
    if pairs.len() == 0 {
        0
    } else {
        pairs_growth(pairs.drop_last()) + pair_growth(pairs.last())
    }
}

/// Appending a prefix adds no more than appending the whole.
proof fn lemma_segments_growth_prefix(segments: Seq<Seq<char>>, i: int)
    requires
        0 <= i <= segments.len(),
    ensures
        segments_growth(segments.subrange(0, i)) <= segments_growth(segments),
    decreases segments.len(),
{
    if i < segments.len() {
        lemma_segments_growth_prefix(segments.drop_last(), i);
        assert(segments.drop_last().subrange(0, i) =~= segments.subrange(0, i));
    } else {
        assert(segments.subrange(0, i) =~= segments);
    }
}

/// Appending a prefix adds no more than appending the whole.
proof fn lemma_pairs_growth_prefix(pairs: Seq<(Seq<char>, Seq<char>)>, i: int)
    requires
        0 <= i <= pairs.len(),
    ensures
        pairs_growth(pairs.subrange(0, i)) <= pairs_growth(pairs),
    decreases pairs.len(),
{
    if i < pairs.len() {
        lemma_pairs_growth_prefix(pairs.drop_last(), i);
        assert(pairs.drop_last().subrange(0, i) =~= pairs.subrange(0, i));
    } else {
        assert(pairs.subrange(0, i) =~= pairs);
    }
}

/// `u` with each segment appended to its path, in order.
pub open spec fn pushed(u: url::Url, segments: Seq<Seq<char>>) -> url::Url
    decreases segments.len(),
{
    if segments.len() == 0 {
        u
    } else {
        with_segment(pushed(u, segments.drop_last()), segments.last())
    }
}

/// `u` with each pair appended to its query, in order.
pub open spec fn appended(u: url::Url, pairs: Seq<(Seq<char>, Seq<char>)>) -> url::Url
    decreases pairs.len(),
{
    if pairs.len() == 0 {
        u
    } else {
        with_pair(appended(u, pairs.drop_last()), pairs.last().0, pairs.last().1)
    }
}

/// The text of each string, in order.
pub open spec fn texts(v: Seq<String>) -> Seq<Seq<char>> {
    v.map_values(|s: String| s@)
}

/// The text of each name and value, in order.
pub open spec fn pair_texts(v: Seq<(String, String)>) -> Seq<(Seq<char>, Seq<char>)> {
    v.map_values(|p: (String, String)| (p.0@, p.1@))
}

/// A URL that cannot be a base was given where a base URL is needed.
pub struct CannotBeABase(pub Url);

/// A URL that was accepted as a base: path segments can be appended to it.
pub struct BaseUrl {
    inner: Url,
}

impl BaseUrl {
    /// The URL as it stands.
    pub closed spec fn as_url(&self) -> Url {
        self.inner
    }

    /// The length of the URL's text.
    pub open spec fn text_len(&self) -> nat {
        url_serialization(self.as_url()).len()
    }

    /// A base URL can always take path segments.
    #[verifier::type_invariant]
    spec fn can_be_base(self) -> bool {
        !lacks_base(self.inner)
    }

    /// Accepts `url` as a base, unless it cannot be a base.
    pub fn try_new(url: Url) -> (r: Result<BaseUrl, CannotBeABase>)
        ensures
            r is Err <==> lacks_base(url),
            r is Ok ==> r->Ok_0.as_url() == url,
            r is Err ==> r->Err_0.0 == url,
    {
        if url.cannot_be_a_base() {
            return Err(CannotBeABase(url));
        }
        Ok(BaseUrl { inner: url })
    }

    /// The URL.
    pub fn into_inner(self) -> (r: Url)
        ensures
            r == self.as_url(),
            !lacks_base(r),
    {
        proof {
            use_type_invariant(&self);
        }
        self.inner
    }

    /// The URL's text.
    pub fn as_str(&self) -> (r: &str)
        ensures
            r@ == url_serialization(self.as_url()),
    {
        url_text(&self.inner)
    }

    /// A copy of this base.
    pub fn duplicate(&self) -> (r: BaseUrl)
        ensures
            r.as_url() == self.as_url(),
    {
        proof {
            use_type_invariant(self);
        }
        BaseUrl { inner: clone_url(&self.inner) }
    }

    /// Appends each segment, in order, to the path. The URL's text must stay
    /// within `u32`, as the url crate asks.
    pub fn extend_path(&mut self, segments: &Vec<String>)
        requires
            old(self).text_len() + segments_growth(texts(segments@)) <= u32::MAX,
        ensures
            final(self).as_url() == pushed(old(self).as_url(), texts(segments@)),
            final(self).text_len() <= old(self).text_len() + segments_growth(texts(segments@)),
    {
        let ghost start = self.as_url();
        let mut url = clone_url(&self.inner);
        proof {
            use_type_invariant(&*self);
        }
        let mut i: usize = 0;
        while i < segments.len()
            invariant
                i <= segments@.len(),
                url == pushed(start, texts(segments@.subrange(0, i as int))),
                url_serialization(url).len() <= url_serialization(start).len() + segments_growth(
                    texts(segments@.subrange(0, i as int)),
                ),
                url_serialization(start).len() + segments_growth(texts(segments@)) <= u32::MAX,
                lacks_base(url) == lacks_base(start),
            decreases segments@.len() - i,
        {
            assert(texts(segments@.subrange(0, i + 1)).drop_last() =~= texts(
                segments@.subrange(0, i as int),
            ));
            assert(texts(segments@.subrange(0, i + 1)) =~= texts(segments@).subrange(0, i + 1));
            proof {
                lemma_segments_growth_prefix(texts(segments@), i + 1);
            }
            push_path_segment(&mut url, segments[i].as_str());
            i = i + 1;
        }
        assert(segments@.subrange(0, segments@.len() as int) =~= segments@);
        *self = BaseUrl { inner: url };
    }

    /// Appends each pair, in order and duplicates kept, to the query string.
    /// With no pairs the URL is left as it is: no empty query is added. The
    /// URL's text must stay within `u32`, as the url crate asks.
    pub fn add_params(&mut self, params: &Vec<(String, String)>)
        requires
            old(self).text_len() + pairs_growth(pair_texts(params@)) <= u32::MAX,
        ensures
            final(self).as_url() == appended(old(self).as_url(), pair_texts(params@)),
            params@.len() == 0 ==> final(self).as_url() == old(self).as_url(),
            final(self).text_len() <= old(self).text_len() + pairs_growth(pair_texts(params@)),
    {
        let ghost start = self.as_url();
        let mut url = clone_url(&self.inner);
        proof {
            use_type_invariant(&*self);
        }
        let mut i: usize = 0;
        while i < params.len()
            invariant
                i <= params@.len(),
                url == appended(start, pair_texts(params@.subrange(0, i as int))),
                url_serialization(url).len() <= url_serialization(start).len() + pairs_growth(
                    pair_texts(params@.subrange(0, i as int)),
                ),
                url_serialization(start).len() + pairs_growth(pair_texts(params@)) <= u32::MAX,
                lacks_base(url) == lacks_base(start),
            decreases params@.len() - i,
        {
            assert(pair_texts(params@.subrange(0, i + 1)).drop_last() =~= pair_texts(
                params@.subrange(0, i as int),
            ));
            assert(pair_texts(params@.subrange(0, i + 1)) =~= pair_texts(params@).subrange(
                0,
                i + 1,
            ));
            proof {
                lemma_pairs_growth_prefix(pair_texts(params@), i + 1);
            }
            let pair = &params[i];
            append_query_pair(&mut url, pair.0.as_str(), pair.1.as_str());
            i = i + 1;
        }
        assert(params@.subrange(0, params@.len() as int) =~= params@);
        assert(pair_texts(params@).len() == params@.len());
        *self = BaseUrl { inner: url };
    }
}

impl Clone for BaseUrl {
    fn clone(&self) -> BaseUrl {
        self.duplicate()
    }
}

impl AsRef<Url> for BaseUrl {
    fn as_ref(&self) -> &Url {
        &self.inner
    }
}

/// What the transport hands back: the status code and the body as text.
pub struct ResponseParts {
    pub status_code: u16,
    pub body: String,
}

/// A failed `send`: either the transport failed, or the response could not
/// be interpreted. The first may be worth retrying; the second will repeat.
#[derive(Debug)]
pub enum ExecutorError<E, R> {
    Execution(E),
    Response(R),
}

/// One operation of the API: where it goes, how, with which query, and how
/// its response is read.
pub trait Request {
    /// What a successful response decodes to.
    type Response;

    /// Why a response could not be decoded.
    type ResponseError;

    /// The path segments of the endpoint, in order.
    spec fn endpoint_spec(&self) -> Seq<Seq<char>>;

    /// The HTTP method.
    spec fn method_spec(&self) -> Method;

    /// The query parameters, in order.
    spec fn query_spec(&self) -> Seq<(Seq<char>, Seq<char>)>;

    /// What decoding `parts` gives.
    spec fn decoded(&self, parts: ResponseParts) -> Result<Self::Response, Self::ResponseError>;

    fn endpoint(&self) -> (r: Vec<String>)
        ensures
            texts(r@) == self.endpoint_spec(),
    ;

    fn method(&self) -> (r: Method)
        ensures
            r == self.method_spec(),
    ;

    fn query_params(&self) -> (r: Vec<(String, String)>)
        ensures
            pair_texts(r@) == self.query_spec(),
    ;

    fn generate_reponse(&self, parts: ResponseParts) -> (r: Result<Self::Response, Self::ResponseError>)
        ensures
            r == self.decoded(parts),
    ;
}

/// Whether the URL for `request` built on `base` surely stays within the
/// `u32` length that the url crate can hold.
pub open spec fn fits_url<R: Request>(base: &BaseUrl, request: &R) -> bool {
    base.text_len() + segments_growth(request.endpoint_spec()) + pairs_growth(request.query_spec())
        <= u32::MAX
}

/// The URL that `request` is sent to: a copy of `base` with the request's
/// path segments appended in order, then its query parameters in order.
/// The URL's text must stay within `u32`, as the url crate asks; see
/// `try_request_url` for a version that checks this.
pub fn request_url<R: Request>(base: &BaseUrl, request: &R) -> (r: BaseUrl)
    requires
        fits_url(base, request),
    ensures
        r.as_url() == appended(
            pushed(base.as_url(), request.endpoint_spec()),
            request.query_spec(),
        ),
{
    let mut url = base.duplicate();
    let segments = request.endpoint();
    url.extend_path(&segments);
    let params = request.query_params();
    url.add_params(&params);
    url
}

/// The URL that `request` is sent to, as `request_url` builds it, or `None`
/// where its text could outgrow the `u32` length that the url crate can hold.
pub fn try_request_url<R: Request>(base: &BaseUrl, request: &R) -> (r: Option<BaseUrl>)
    ensures
        r is Some <==> fits_url(base, request),
        r is Some ==> r->Some_0.as_url() == appended(
            pushed(base.as_url(), request.endpoint_spec()),
            request.query_spec(),
        ),
{
    let limit: u64 = 0xffff_ffff;
    let segments = request.endpoint();
    let params = request.query_params();
    let ghost segs = texts(segments@);
    let ghost pairs = pair_texts(params@);
    let base_len = base.as_str().unicode_len();
    if base_len as u64 > limit {
        return None;
    }
    let mut total: u64 = base_len as u64;
    let mut i: usize = 0;
    while i < segments.len()
        invariant
            segs == texts(segments@),
            segs == request.endpoint_spec(),
            pairs == request.query_spec(),
            i <= segments@.len(),
            total == base.text_len() + segments_growth(segs.subrange(0, i as int)),
            total <= limit,
            limit == u32::MAX,
        decreases segments@.len() - i,
    {
        proof {
            assert(segs.subrange(0, i + 1).drop_last() =~= segs.subrange(0, i as int));
            lemma_segments_growth_prefix(segs, i + 1);
        }
        let n = segments[i].as_str().unicode_len();
        proof {
            assert(segs[i as int] == segments@[i as int]@);
            assert(segs.subrange(0, i + 1).last() == segs[i as int]);
            assert(base.text_len() + segments_growth(segs.subrange(0, i + 1)) == total
                + segment_growth(segs[i as int]));
        }
        if n as u64 > limit / 12 {
            assert(12 * (n as int) > limit) by (nonlinear_arith)
                requires
                    n as int > limit as int / 12,
                    limit == u32::MAX,
            ;
            return None;
        }
        let g: u64 = 1 + 12 * n as u64;
        if total + g > limit {
            return None;
        }
        total = total + g;
        i = i + 1;
    }
    assert(segs.subrange(0, segs.len() as int) =~= segs);
    let ghost after_path = total;
    let mut j: usize = 0;
    while j < params.len()
        invariant
            segs == texts(segments@),
            pairs == pair_texts(params@),
            segs == request.endpoint_spec(),
            pairs == request.query_spec(),
            j <= params@.len(),
            total == after_path + pairs_growth(pairs.subrange(0, j as int)),
            after_path == base.text_len() + segments_growth(segs),
            total <= limit,
            limit == u32::MAX,
        decreases params@.len() - j,
    {
        proof {
            assert(pairs.subrange(0, j + 1).drop_last() =~= pairs.subrange(0, j as int));
            lemma_pairs_growth_prefix(pairs, j + 1);
        }
        let name_len = params[j].0.as_str().unicode_len();
        let value_len = params[j].1.as_str().unicode_len();
        proof {
            assert(pairs[j as int] == (params@[j as int].0@, params@[j as int].1@));
            assert(pairs.subrange(0, j + 1).last() == pairs[j as int]);
            assert(after_path + pairs_growth(pairs.subrange(0, j + 1)) == total + pair_growth(
                pairs[j as int],
            ));
        }
        if name_len as u64 > limit / 12 || value_len as u64 > limit / 12 {
            assert(12 * (name_len as int + value_len as int) > limit) by (nonlinear_arith)
                requires
                    name_len as int > limit as int / 12 || value_len as int > limit as int / 12,
                    limit == u32::MAX,
            ;
            return None;
        }
        let g: u64 = 2 + 12 * (name_len as u64 + value_len as u64);
        if total + g > limit {
            return None;
        }
        total = total + g;
        j = j + 1;
    }
    assert(pairs.subrange(0, pairs.len() as int) =~= pairs);
    Some(request_url(base, request))
}

/// Finishes a `send` of `request` once the transport has answered: a
/// transport failure is an `Execution` error; a response is decoded by the
/// request, and a decoding failure is a `Response` error.
pub fn complete<R: Request, X>(request: &R, outcome: Result<ResponseParts, X>) -> (r: Result<
    R::Response,
    ExecutorError<X, R::ResponseError>,
>)
    ensures
        outcome is Err ==> r == Err::<R::Response, _>(
            ExecutorError::<X, R::ResponseError>::Execution(outcome->Err_0),
        ),
        outcome is Ok ==> r == match request.decoded(outcome->Ok_0) {
            Ok(v) => Ok(v),
            Err(e) => Err(ExecutorError::<X, R::ResponseError>::Response(e)),
        },
{
    match outcome {
        Err(e) => Err(ExecutorError::Execution(e)),
        Ok(parts) => match request.generate_reponse(parts) {
            Ok(v) => Ok(v),
            Err(e) => Err(ExecutorError::Response(e)),
        },
    }
}

} // verus!
