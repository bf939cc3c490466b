//! Pagination: a page stream that decides which page to fetch and what to
//! hand out, and an item stream over it.

use vstd::prelude::*;

use crate::primitives::PageIndex;

verus! {

/// Where a page stream stands.
#[derive(Debug, Clone, Copy, PartialEq, Eq, Structural)]
pub enum StreamState {
    /// More pages may follow.
    Active,
    /// An empty page was fetched: the results have ended.
    Exhausted,
    /// A page failed: the error was handed out and nothing follows it.
    Errored,
}

/// The abstract state of a `PageSearchStream`: the page it fetches next and
/// where it stands.
pub struct PageStreamView {
    pub page: nat,
    pub state: StreamState,
}

/// The page that follows `p`; the last representable page is followed by
/// itself.
pub open spec fn saturating_succ(p: nat) -> nat {
    if p < u64::MAX {
        p + 1
    } else {
        p
    }
}

impl PageStreamView {
    /// The state on page `page`, standing at `state`.
    pub open spec fn at(page: nat, state: StreamState) -> PageStreamView {
        PageStreamView { page, state }
    }

    /// A fresh stream: on page 1, fetching it.
    pub open spec fn initial() -> PageStreamView {
        PageStreamView { page: 1, state: StreamState::Active }
    }

    pub open spec fn is_active(self) -> bool {
        self.state == StreamState::Active
    }

    /// One poll of a stream in this state, given the outcome of the page it
    /// was fetching (`None` where it was not fetching any): the next state
    /// and what the poll yields.
    pub open spec fn poll<T, E>(self, fetched: Option<Result<Vec<T>, E>>) -> (
        PageStreamView,
        Option<Result<Vec<T>, E>>,
    ) {
        if !self.is_active() {
            (self, None)
        } else {
            match fetched {
                Some(Ok(items)) => {
                    if items@.len() == 0 {
                        (PageStreamView { state: StreamState::Exhausted, ..self }, None)
                    } else {
                        (
                            PageStreamView { page: saturating_succ(self.page), state: self.state },
                            Some(Ok(items)),
                        )
                    }
                },
                Some(Err(e)) => (
                    PageStreamView { state: StreamState::Errored, ..self },
                    Some(Err(e)),
                ),
                None => (self, None),
            }
        }
    }
}

/// The state after `n` polls of a fresh stream whose page `p` comes out as
/// `pages(p)`, and what those polls yielded, in order.
pub open spec fn run<T, E>(pages: spec_fn(nat) -> Result<Vec<T>, E>, n: nat) -> (
    PageStreamView,
    Seq<Option<Result<Vec<T>, E>>>,
)
    decreases n,
{
    if n == 0 {
        (PageStreamView::initial(), Seq::empty())
    } else {
        let (s, out) = run(pages, (n - 1) as nat);
        let fetched = if s.is_active() {
            Some(pages(s.page))
        } else {
            None
        };
        let (next, yielded) = s.poll(fetched);
        (next, out.push(yielded))
    }
}

/// The first `m` pages of `pages`, each handed out as it came.
pub open spec fn leading_pages<T, E>(pages: spec_fn(nat) -> Result<Vec<T>, E>, m: nat) -> Seq<
    Option<Result<Vec<T>, E>>,
> {
    Seq::new(m, |i: int| Some(pages((i + 1) as nat)))
}

/// `m` polls that yield nothing.
pub open spec fn finished_polls<X>(m: nat) -> Seq<Option<X>> {
    Seq::new(m, |i: int| None)
}

/// How many pages a sequence of polls handed out.
pub open spec fn count_pages<T, E>(out: Seq<Option<Result<Vec<T>, E>>>) -> nat
    decreases out.len(),
{
    if out.len() == 0 {
        0
    } else {
        count_pages(out.drop_last()) + match out.last() {
            Some(Ok(_)) => 1nat,
            _ => 0nat,
        }
    }
}

/// Where pages 1 to `n` are non-empty and page `n + 1` is empty, the stream
/// hands out exactly pages 1 to `n`, in order, and then finishes without an
/// error.
pub proof fn lemma_pages_until_empty<T, E>(pages: spec_fn(nat) -> Result<Vec<T>, E>, n: nat, m: nat)
    requires
        n + 1 <= u64::MAX,
        forall|i: nat| 1 <= i <= n ==> (#[trigger] pages(i)) is Ok && pages(i)->Ok_0@.len() > 0,
        pages(n + 1) is Ok,
        pages(n + 1)->Ok_0@.len() == 0,
    ensures
        m <= n ==> run(pages, m) == (
            PageStreamView::at(m + 1, StreamState::Active),
            leading_pages(pages, m),
        ),
        m > n ==> run(pages, m).0.state == StreamState::Exhausted,
        m > n ==> run(pages, m).1 == leading_pages(pages, n) + finished_polls::<Result<Vec<T>, E>>(
            (m - n) as nat,
        ),
    decreases m,
{
    if m > 0 {
        lemma_pages_until_empty(pages, n, (m - 1) as nat);
        let out = run(pages, (m - 1) as nat).1;
        if m <= n {
            assert(out.push(Some(pages(m))) =~= leading_pages(pages, m));
        } else if m == n + 1 {
            assert(out.push(None) =~= leading_pages(pages, n) + finished_polls::<Result<Vec<T>, E>>(1));
        } else {
            assert(out.push(None) =~= leading_pages(pages, n) + finished_polls::<Result<Vec<T>, E>>(
                (m - n) as nat,
            ));
        }
    }
}

/// Where pages 1 to `k - 1` are non-empty and page `k` fails, the stream hands
/// out those pages, then the error, and then finishes; it never asks for a
/// page after `k`.
pub proof fn lemma_error_ends_stream<T, E>(pages: spec_fn(nat) -> Result<Vec<T>, E>, k: nat, m: nat)
    requires
        1 <= k <= u64::MAX,
        forall|i: nat| 1 <= i < k ==> (#[trigger] pages(i)) is Ok && pages(i)->Ok_0@.len() > 0,
        pages(k) is Err,
    ensures
        m < k ==> run(pages, m) == (
            PageStreamView::at(m + 1, StreamState::Active),
            leading_pages(pages, m),
        ),
        m >= k ==> run(pages, m).0 == PageStreamView::at(k, StreamState::Errored),
        m >= k ==> run(pages, m).1 == leading_pages(pages, k) + finished_polls::<Result<Vec<T>, E>>(
            (m - k) as nat,
        ),
        run(pages, m).0.is_active() ==> run(pages, m).0.page <= k,
    decreases m,
{
    if m > 0 {
        lemma_error_ends_stream(pages, k, (m - 1) as nat);
        let out = run(pages, (m - 1) as nat).1;
        if m <= k {
            assert(out.push(Some(pages(m))) =~= leading_pages(pages, m));
            if m == k {
                assert(leading_pages(pages, k) =~= leading_pages(pages, k) + finished_polls::<Result<Vec<T>, E>>(0));
            }
        } else {
            assert(out.push(None) =~= leading_pages(pages, k) + finished_polls::<Result<Vec<T>, E>>(
                (m - k) as nat,
            ));
        }
    }
}

/// The stream starts on page 1 and moves on by exactly one page for each
/// page it hands out, up to the last representable page.
pub proof fn lemma_page_follows_count<T, E>(pages: spec_fn(nat) -> Result<Vec<T>, E>, m: nat)
    ensures
        run(pages, m).0.page == if 1 + count_pages(run(pages, m).1) <= u64::MAX {
            1 + count_pages(run(pages, m).1)
        } else {
            u64::MAX as nat
        },
    decreases m,
{
    if m > 0 {
        lemma_page_follows_count(pages, (m - 1) as nat);
        let (s, out) = run(pages, (m - 1) as nat);
        let fetched = if s.is_active() {
            Some(pages(s.page))
        } else {
            None
        };
        let y = s.poll(fetched).1;
        assert(out.push(y).drop_last() =~= out);
    }
}

/// Page-level pagination: decides, poll by poll, which page to fetch and
/// what to hand out. The fetching itself is done by the caller, who starts
/// fetching `page_to_fetch()` as soon as it is `Some` and hands the outcome
/// to the next `poll_next`.
pub struct PageSearchStream {
    current_page: PageIndex,
    state: StreamState,
}

impl View for PageSearchStream {
    type V = PageStreamView;

    closed spec fn view(&self) -> PageStreamView {
        PageStreamView { page: self.current_page@, state: self.state }
    }
}

impl PageSearchStream {
    /// A stream on the first page. The first page is to be fetched at once.
    pub fn create() -> (r: PageSearchStream)
        ensures
            r@ == PageStreamView::initial(),
    {
        PageSearchStream { current_page: PageIndex::first(), state: StreamState::Active }
    }

    /// The page whose outcome the next poll needs, if any.
    pub fn page_to_fetch(&self) -> (r: Option<PageIndex>)
        ensures
            r is Some <==> self@.is_active(),
            r is Some ==> r->Some_0@ == self@.page,
    {
        match self.state {
            StreamState::Active => Some(self.current_page),
            _ => None,
        }
    }

    /// Turns this stream of pages into a stream of the items on them.
    pub fn flat<T>(self) -> (r: SearchStream<T>)
        ensures
            r@ == (SearchStreamView::<T> { parent: self@, pending: Seq::empty() }),
    {
        SearchStream { parent: self, this_page: Vec::new() }
    }

    /// Where the stream stands.
    pub fn state(&self) -> (r: StreamState)
        ensures
            r == self@.state,
    {
        self.state
    }

    /// One poll. `fetched` is the outcome of the page this stream was
    /// fetching; it is needed exactly when the stream is active.
    ///
    /// A non-empty page is handed out and the stream moves to the next page;
    /// an empty page ends the stream; an error is handed out once and then
    /// the stream stays finished.
    pub fn poll_next<T, E>(&mut self, fetched: Option<Result<Vec<T>, E>>) -> (r: Option<
        Result<Vec<T>, E>,
    >)
        requires
            old(self)@.is_active() ==> fetched is Some,
        ensures
            (final(self)@, r) == old(self)@.poll(fetched),
    {
        match self.state {
            StreamState::Active => {},
            _ => return None,
        }
        match fetched {
            Some(Ok(items)) => {
                if items.len() == 0 {
                    self.state = StreamState::Exhausted;
                    None
                } else {
                    self.current_page = self.current_page.saturating_next();
                    Some(Ok(items))
                }
            },
            Some(Err(e)) => {
                self.state = StreamState::Errored;
                Some(Err(e))
            },
            None => None,
        }
    }
}

/// The abstract state of a `SearchStream`: the page stream under it and the
/// items of the current page that are still to be handed out, in order.
pub struct SearchStreamView<T> {
    pub parent: PageStreamView,
    pub pending: Seq<T>,
}

impl<T> SearchStreamView<T> {
    /// Whether the next poll needs the outcome of a page fetch.
    pub open spec fn needs_page(self) -> bool {
        self.pending.len() == 0 && self.parent.is_active()
    }

    /// One poll: a pending item is handed out first; otherwise the page
    /// stream is polled with `fetched`, and the first item of a page it
    /// hands out, or its error, is handed on.
    pub open spec fn poll<E>(self, fetched: Option<Result<Vec<T>, E>>) -> (
        SearchStreamView<T>,
        Option<Result<T, E>>,
    ) {
        if self.pending.len() > 0 {
            (
                SearchStreamView { parent: self.parent, pending: self.pending.drop_first() },
                Some(Ok(self.pending[0])),
            )
        } else {
            let (parent, yielded) = self.parent.poll(fetched);
            match yielded {
                Some(Ok(items)) => (
                    SearchStreamView { parent, pending: items@.drop_first() },
                    Some(Ok(items@[0])),
                ),
                Some(Err(e)) => (SearchStreamView { parent, pending: Seq::empty() }, Some(Err(e))),
                None => (SearchStreamView { parent, pending: Seq::empty() }, None),
            }
        }
    }
}

/// Item-level pagination over a `PageSearchStream`: hands out the items of
/// each page in order, one per poll.
pub struct SearchStream<T> {
    parent: PageSearchStream,
    /// The rest of the current page, last item first.
    this_page: Vec<T>,
}

impl<T> View for SearchStream<T> {
    type V = SearchStreamView<T>;

    closed spec fn view(&self) -> SearchStreamView<T> {
        SearchStreamView { parent: self.parent@, pending: self.this_page@.reverse() }
    }
}

impl<T> SearchStream<T> {
    /// The page whose outcome the next poll needs, if any.
    pub fn page_to_fetch(&self) -> (r: Option<PageIndex>)
        ensures
            r is Some <==> self@.needs_page(),
            r is Some ==> r->Some_0@ == self@.parent.page,
    {
        if self.this_page.len() == 0 {
            self.parent.page_to_fetch()
        } else {
            None
        }
    }

    /// The page stream under this one.
    pub fn parent(&self) -> (r: &PageSearchStream)
        ensures
            r@ == self@.parent,
    {
        &self.parent
    }

    /// One poll. `fetched` is the outcome of the page being fetched; it is
    /// needed exactly when `page_to_fetch` is `Some`.
    pub fn poll_next<E>(&mut self, fetched: Option<Result<Vec<T>, E>>) -> (r: Option<Result<T, E>>)
        requires
            old(self)@.needs_page() ==> fetched is Some,
        ensures
            (final(self)@, r) == old(self)@.poll(fetched),
    {
        if self.this_page.len() == 0 {
            match self.parent.poll_next(fetched) {
                Some(Ok(page)) => {
                    let ghost items = page@;
                    self.this_page = reversed(page);
                    assert(self.this_page@.reverse() =~= items);
                },
                Some(Err(e)) => {
                    return Some(Err(e));
                },
                None => {
                    assert(self.this_page@.reverse() =~= Seq::<T>::empty());
                    return None;
                },
            }
        }
        let ghost before = self.this_page@;
        let item = self.this_page.pop();
        assert(self.this_page@.reverse() =~= before.reverse().drop_first());
        match item {
            Some(x) => Some(Ok(x)),
            None => None,
        }
    }
}

/// The items of `v` in reverse order.
fn reversed<T>(v: Vec<T>) -> (r: Vec<T>)
    ensures
        r@ == v@.reverse(),
{
    let ghost original = v@;
    let mut rest = v;
    let mut r: Vec<T> = Vec::new();
    while rest.len() > 0
        invariant
            rest@ == original.subrange(0, rest@.len() as int),
            r@.len() + rest@.len() == original.len(),
            forall|i: int| 0 <= i < r@.len() ==> r@[i] == original[original.len() - 1 - i],
        decreases rest@.len(),
    {
        let x = rest.pop().unwrap();
        r.push(x);
    }
    assert(r@ =~= original.reverse());
    r
}

/// The state after `n` polls of a fresh item stream whose page `p` comes out
/// as `pages(p)`, and what those polls yielded, in order.
pub open spec fn run_flat<T, E>(pages: spec_fn(nat) -> Result<Vec<T>, E>, n: nat) -> (
    SearchStreamView<T>,
    Seq<Option<Result<T, E>>>,
)
    decreases n,
{
    if n == 0 {
        (SearchStreamView { parent: PageStreamView::initial(), pending: Seq::empty() }, Seq::empty())
    } else {
        let (s, out) = run_flat(pages, (n - 1) as nat);
        let fetched = if s.needs_page() {
            Some(pages(s.parent.page))
        } else {
            None
        };
        let (next, yielded) = s.poll(fetched);
        (next, out.push(yielded))
    }
}

/// The items of pages 1 to `j`, in order.
pub open spec fn items_through<T, E>(pages: spec_fn(nat) -> Result<Vec<T>, E>, j: nat) -> Seq<T>
    decreases j,
{
    if j == 0 {
        Seq::empty()
    } else {
        items_through(pages, (j - 1) as nat) + pages(j)->Ok_0@
    }
}

/// Polls that hand out the first `m` of `items`, in order.
pub open spec fn item_polls<T, E>(items: Seq<T>, m: nat) -> Seq<Option<Result<T, E>>> {
    Seq::new(m, |i: int| Some(Ok(items[i])))
}

/// The items of the first `j` pages come first among those of the first `n`.
proof fn lemma_items_prefix<T, E>(pages: spec_fn(nat) -> Result<Vec<T>, E>, j: nat, n: nat)
    requires
        j <= n,
    ensures
        items_through(pages, j).len() <= items_through(pages, n).len(),
        items_through(pages, n).subrange(0, items_through(pages, j).len() as int)
            =~= items_through(pages, j),
    decreases n,
{
    if j < n {
        lemma_items_prefix(pages, j, (n - 1) as nat);
        let a = items_through(pages, (n - 1) as nat);
        assert(items_through(pages, n).subrange(0, a.len() as int) =~= a);
    }
}

/// Where every page is non-empty, the items of more pages are more.
proof fn lemma_items_grow<T, E>(pages: spec_fn(nat) -> Result<Vec<T>, E>, j: nat)
    requires
        forall|i: nat| 1 <= i <= j ==> (#[trigger] pages(i)) is Ok && pages(i)->Ok_0@.len() > 0,
    ensures
        items_through(pages, j).len() >= j,
    decreases j,
{
    if j > 0 {
        lemma_items_grow(pages, (j - 1) as nat);
    }
}

/// The state while page `j` is being handed out, after `m` polls.
proof fn lemma_flat_on_page<T, E>(pages: spec_fn(nat) -> Result<Vec<T>, E>, n: nat, j: nat, m: nat)
    requires
        n + 1 <= u64::MAX,
        forall|i: nat| 1 <= i <= n ==> (#[trigger] pages(i)) is Ok && pages(i)->Ok_0@.len() > 0,
        1 <= j <= n,
        items_through(pages, (j - 1) as nat).len() < m <= items_through(pages, j).len(),
    ensures
        run_flat(pages, m).0 == (SearchStreamView {
            parent: PageStreamView::at(j + 1, StreamState::Active),
            pending: items_through(pages, j).subrange(m as int, items_through(pages, j).len() as int),
        }),
        run_flat(pages, m).1 == item_polls::<T, E>(items_through(pages, j), m),
    decreases m,
{
    let prev = items_through(pages, (j - 1) as nat);
    let cur = items_through(pages, j);
    let (s, out) = run_flat(pages, (m - 1) as nat);
    if m - 1 > prev.len() {
        lemma_flat_on_page(pages, n, j, (m - 1) as nat);
        assert(cur.subrange(m - 1, cur.len() as int).drop_first() =~= cur.subrange(
            m as int,
            cur.len() as int,
        ));
        assert(out.push(Some(Ok(cur[m - 1]))) =~= item_polls::<T, E>(cur, m));
    } else {
        if j == 1 {
            assert(s == SearchStreamView::<T> {
                parent: PageStreamView::initial(),
                pending: Seq::empty(),
            });
        } else {
            lemma_items_grow(pages, (j - 2) as nat);
            lemma_flat_on_page(pages, n, (j - 1) as nat, (m - 1) as nat);
            lemma_items_prefix(pages, (j - 1) as nat, j);
            assert(out =~= item_polls::<T, E>(cur, (m - 1) as nat));
        }
        assert(s.pending.len() == 0);
        let page = pages(j)->Ok_0@;
        assert(cur =~= prev + page);
        assert(cur.subrange(m as int, cur.len() as int) =~= page.drop_first());
        assert(out.push(Some(Ok(page[0]))) =~= item_polls::<T, E>(cur, m));
    }
}

/// While the items of non-empty pages 1 to `n` are being handed out, the
/// item stream hands them out in order; once all are out it is about to
/// fetch page `n + 1`.
proof fn lemma_leading_items<T, E>(pages: spec_fn(nat) -> Result<Vec<T>, E>, n: nat, m: nat)
    requires
        n + 1 <= u64::MAX,
        forall|i: nat| 1 <= i <= n ==> (#[trigger] pages(i)) is Ok && pages(i)->Ok_0@.len() > 0,
        m <= items_through(pages, n).len(),
    ensures
        run_flat(pages, m).1 == item_polls::<T, E>(items_through(pages, n), m),
        m == items_through(pages, n).len() ==> run_flat(pages, m).0 == (SearchStreamView {
            parent: PageStreamView::at(n + 1, StreamState::Active),
            pending: Seq::<T>::empty(),
        }),
{
    let all = items_through(pages, n);
    if m == 0 {
        assert(run_flat(pages, m).1 =~= item_polls::<T, E>(all, m));
    } else {
        let j = choose_page(pages, n, m);
        lemma_flat_on_page(pages, n, j, m);
        lemma_items_prefix(pages, j, n);
        assert(item_polls::<T, E>(items_through(pages, j), m) =~= item_polls::<T, E>(all, m));
    }
    if m == all.len() {
        if n == 0 {
            assert(run_flat(pages, 0).0 == (SearchStreamView {
                parent: PageStreamView::initial(),
                pending: Seq::<T>::empty(),
            }));
        } else {
            lemma_items_grow(pages, (n - 1) as nat);
            lemma_flat_on_page(pages, n, n, all.len());
            assert(run_flat(pages, all.len()).0.pending =~= Seq::<T>::empty());
        }
    }
}

/// Where pages 1 to `n` are non-empty and page `n + 1` is empty, the item
/// stream hands out the items of those pages in order, page after page, and
/// then finishes without an error.
pub proof fn lemma_items_in_order<T, E>(pages: spec_fn(nat) -> Result<Vec<T>, E>, n: nat, m: nat)
    requires
        n + 1 <= u64::MAX,
        forall|i: nat| 1 <= i <= n ==> (#[trigger] pages(i)) is Ok && pages(i)->Ok_0@.len() > 0,
        pages(n + 1) is Ok,
        pages(n + 1)->Ok_0@.len() == 0,
    ensures
        m <= items_through(pages, n).len() ==> run_flat(pages, m).1 == item_polls::<T, E>(
            items_through(pages, n),
            m,
        ),
        m > items_through(pages, n).len() ==> run_flat(pages, m).1 == item_polls::<T, E>(
            items_through(pages, n),
            items_through(pages, n).len(),
        ) + finished_polls::<Result<T, E>>((m - items_through(pages, n).len()) as nat),
        m > items_through(pages, n).len() ==> run_flat(pages, m).0.parent.state
            == StreamState::Exhausted,
        m > items_through(pages, n).len() ==> run_flat(pages, m).0.pending.len() == 0,
    decreases m,
{
    let all = items_through(pages, n);
    if m <= all.len() {
        lemma_leading_items(pages, n, m);
    } else {
        lemma_items_in_order(pages, n, (m - 1) as nat);
        let out = run_flat(pages, (m - 1) as nat).1;
        if m - 1 == all.len() {
            lemma_leading_items(pages, n, all.len());
            assert(out.push(None) =~= item_polls::<T, E>(all, all.len()) + finished_polls::<
                Result<T, E>,
            >(1));
        } else {
            assert(out.push(None) =~= item_polls::<T, E>(all, all.len()) + finished_polls::<
                Result<T, E>,
            >((m - all.len()) as nat));
        }
    }
}

/// Where pages 1 to `k - 1` are non-empty and page `k` fails, the item
/// stream hands out the items of those pages in order, then the error, and
/// then finishes.
pub proof fn lemma_items_then_error<T, E>(pages: spec_fn(nat) -> Result<Vec<T>, E>, k: nat, m: nat)
    requires
        1 <= k <= u64::MAX,
        forall|i: nat| 1 <= i < k ==> (#[trigger] pages(i)) is Ok && pages(i)->Ok_0@.len() > 0,
        pages(k) is Err,
    ensures
        m <= items_through(pages, (k - 1) as nat).len() ==> run_flat(pages, m).1 == item_polls::<
            T,
            E,
        >(items_through(pages, (k - 1) as nat), m),
        m > items_through(pages, (k - 1) as nat).len() ==> run_flat(pages, m).1 == item_polls::<
            T,
            E,
        >(items_through(pages, (k - 1) as nat), items_through(pages, (k - 1) as nat).len()).push(
            Some(Err(pages(k)->Err_0)),
        ) + finished_polls::<Result<T, E>>(
            (m - items_through(pages, (k - 1) as nat).len() - 1) as nat,
        ),
        m > items_through(pages, (k - 1) as nat).len() ==> run_flat(pages, m).0.parent.state
            == StreamState::Errored,
        m > items_through(pages, (k - 1) as nat).len() ==> run_flat(pages, m).0.pending.len()
            == 0,
    decreases m,
{
    let n = (k - 1) as nat;
    let all = items_through(pages, n);
    if m <= all.len() {
        lemma_leading_items(pages, n, m);
    } else {
        lemma_items_then_error(pages, k, (m - 1) as nat);
        let out = run_flat(pages, (m - 1) as nat).1;
        let head = item_polls::<T, E>(all, all.len()).push(Some(Err(pages(k)->Err_0)));
        if m - 1 == all.len() {
            lemma_leading_items(pages, n, all.len());
            assert(head =~= head + finished_polls::<Result<T, E>>(0));
        } else {
            assert(out.push(None) =~= head + finished_polls::<Result<T, E>>(
                (m - all.len() - 1) as nat,
            ));
        }
    }
}

/// The page whose items include the `m`th item (counting from 1) of pages
/// 1 to `n`.
proof fn choose_page<T, E>(pages: spec_fn(nat) -> Result<Vec<T>, E>, n: nat, m: nat) -> (j: nat)
    requires
        1 <= m <= items_through(pages, n).len(),
    ensures
        1 <= j <= n,
        items_through(pages, (j - 1) as nat).len() < m <= items_through(pages, j).len(),
    decreases n,
{
    if m <= items_through(pages, (n - 1) as nat).len() {
        choose_page(pages, (n - 1) as nat, m)
    } else {
        n
    }
}

} // verus!
