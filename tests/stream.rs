use type_matrux::primitives::PageIndex;
use type_matrux::stream::{PageSearchStream, SearchStream, StreamState};

type Page = Result<Vec<char>, String>;

/// Page `p` of `pages`, or an empty page past their end.
fn page(pages: &[Page], p: u64) -> Page {
    pages.get((p - 1) as usize).cloned().unwrap_or(Ok(vec![]))
}

/// Polls a page stream `polls` times, fetching each page it asks for from
/// `pages`. Returns what the polls yielded and the pages that were fetched.
fn drive_pages(pages: &[Page], polls: usize) -> (Vec<Option<Page>>, Vec<u64>) {
    let mut stream = PageSearchStream::create();
    let mut fetched_pages = Vec::new();
    let mut in_flight = stream.page_to_fetch().map(|p: PageIndex| {
        fetched_pages.push(p.get());
        page(pages, p.get())
    });
    let mut out = Vec::new();
    for _ in 0..polls {
        out.push(stream.poll_next(in_flight.take()));
        if let Some(p) = stream.page_to_fetch() {
            fetched_pages.push(p.get());
            in_flight = Some(page(pages, p.get()));
        }
    }
    (out, fetched_pages)
}

/// Polls a flat stream `polls` times, fetching each page it asks for from
/// `pages`.
fn drive_items(pages: &[Page], polls: usize) -> Vec<Option<Result<char, String>>> {
    let mut stream: SearchStream<char> = PageSearchStream::create().flat();
    let mut out = Vec::new();
    for _ in 0..polls {
        let fetched = stream.page_to_fetch().map(|p: PageIndex| page(pages, p.get()));
        out.push(stream.poll_next(fetched));
    }
    out
}

#[test]
fn pages_until_an_empty_page() {
    let pages: Vec<Page> = vec![Ok(vec!['a']), Ok(vec!['b', 'c']), Ok(vec!['d']), Ok(vec![])];
    let (out, fetched) = drive_pages(&pages, 6);
    assert_eq!(
        out,
        vec![
            Some(Ok(vec!['a'])),
            Some(Ok(vec!['b', 'c'])),
            Some(Ok(vec!['d'])),
            None,
            None,
            None
        ]
    );
    assert_eq!(fetched, vec![1, 2, 3, 4]);
}

#[test]
fn error_ends_the_page_stream() {
    let pages: Vec<Page> =
        vec![Ok(vec!['a']), Ok(vec!['b']), Err("down".to_string()), Ok(vec!['z'])];
    let (out, fetched) = drive_pages(&pages, 5);
    assert_eq!(
        out,
        vec![
            Some(Ok(vec!['a'])),
            Some(Ok(vec!['b'])),
            Some(Err("down".to_string())),
            None,
            None
        ]
    );
    assert_eq!(fetched, vec![1, 2, 3]);
}

#[test]
fn error_on_the_first_page() {
    let pages: Vec<Page> = vec![Err("down".to_string())];
    let (out, fetched) = drive_pages(&pages, 3);
    assert_eq!(out, vec![Some(Err("down".to_string())), None, None]);
    assert_eq!(fetched, vec![1]);
}

#[test]
fn empty_first_page_yields_nothing() {
    let (out, fetched) = drive_pages(&[], 2);
    assert_eq!(out, vec![None, None]);
    assert_eq!(fetched, vec![1]);
}

#[test]
fn page_index_moves_by_one_per_page() {
    let mut stream = PageSearchStream::create();
    assert_eq!(stream.page_to_fetch().map(|p| p.get()), Some(1));
    assert_eq!(stream.state(), StreamState::Active);
    let out = stream.poll_next::<char, String>(Some(Ok(vec!['x'])));
    assert_eq!(out, Some(Ok(vec!['x'])));
    assert_eq!(stream.page_to_fetch().map(|p| p.get()), Some(2));
    stream.poll_next::<char, String>(Some(Ok(vec!['y', 'z'])));
    assert_eq!(stream.page_to_fetch().map(|p| p.get()), Some(3));
    assert_eq!(stream.poll_next::<char, String>(Some(Ok(vec![]))), None);
    assert_eq!(stream.state(), StreamState::Exhausted);
    assert_eq!(stream.page_to_fetch(), None);
}

#[test]
fn errored_stream_stays_finished() {
    let mut stream = PageSearchStream::create();
    let out = stream.poll_next::<char, &str>(Some(Err("bad")));
    assert_eq!(out, Some(Err("bad")));
    assert_eq!(stream.state(), StreamState::Errored);
    assert_eq!(stream.page_to_fetch(), None);
    assert_eq!(stream.poll_next::<char, &str>(None), None);
    assert_eq!(stream.poll_next::<char, &str>(None), None);
}

#[test]
fn flat_stream_yields_items_in_order() {
    let pages: Vec<Page> = vec![Ok(vec!['a', 'b']), Ok(vec!['c']), Ok(vec![])];
    let out = drive_items(&pages, 5);
    assert_eq!(out, vec![Some(Ok('a')), Some(Ok('b')), Some(Ok('c')), None, None]);
}

#[test]
fn flat_stream_passes_the_error_on_last() {
    let pages: Vec<Page> = vec![Ok(vec!['a', 'b']), Err("broken".to_string())];
    let out = drive_items(&pages, 5);
    assert_eq!(
        out,
        vec![Some(Ok('a')), Some(Ok('b')), Some(Err("broken".to_string())), None, None]
    );
}

#[test]
fn flat_stream_fetches_only_when_its_buffer_is_empty() {
    let mut stream: SearchStream<u32> = PageSearchStream::create().flat();
    assert_eq!(stream.page_to_fetch().map(|p| p.get()), Some(1));
    assert_eq!(stream.poll_next::<()>(Some(Ok(vec![7, 8, 9]))), Some(Ok(7)));
    assert_eq!(stream.page_to_fetch(), None);
    assert_eq!(stream.poll_next::<()>(None), Some(Ok(8)));
    assert_eq!(stream.poll_next::<()>(None), Some(Ok(9)));
    assert_eq!(stream.page_to_fetch().map(|p| p.get()), Some(2));
    assert_eq!(stream.parent().state(), StreamState::Active);
    assert_eq!(stream.poll_next::<()>(Some(Ok(vec![]))), None);
    assert_eq!(stream.parent().state(), StreamState::Exhausted);
    assert_eq!(stream.page_to_fetch(), None);
}
