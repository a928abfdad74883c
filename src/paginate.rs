//! The cursor-driven paginator: it names the query of each page, takes the
//! outcome of the request, and decides whether to go on, to finish with every
//! record in page order, or to fail.
use vstd::prelude::*;
use crate::query::{build_list_query, list_query, list_request_body, json_string_literal, envelope_of};
use crate::repo::RepositoryRecord;

verus! {

/// Repositories asked for per page.
pub const DEFAULT_PAGE_SIZE: u32 = 100;

/// Pages a listing may take before it is given up; it bounds the work that a
/// service which never reports a last page can cause.
pub const DEFAULT_MAX_PAGES: u32 = 5000;

/// What a request for one page could not deliver.
#[derive(Debug, Clone, PartialEq, Eq)]
pub enum TransportError {
    /// The connection failed; the text describes why.
    Connection(String),
    /// The service answered with a status other than success.
    Status(u16),
    /// The answer did not have the expected shape; the text describes why.
    Decode(String),
}

/// Why a listing failed.
#[derive(Debug, Clone, PartialEq, Eq)]
pub enum FetchError {
    /// A page request failed.
    Transport(TransportError),
    /// A page announced a next page but gave no cursor to resume from.
    MissingCursor,
    /// The listing needed more pages than the limit it was made with.
    PageLimit(u32),
}

/// Where a page ends: whether another follows, and the cursor to resume
/// after it.
#[derive(Debug, Clone)]
pub struct PageInfo {
    pub has_next_page: bool,
    pub end_cursor: Option<String>,
}

/// One page of a listing.
#[derive(Debug, Clone)]
pub struct Page {
    pub nodes: Vec<RepositoryRecord>,
    pub page_info: PageInfo,
}

/// The view of an optional owned string.
pub open spec fn opt_string_view(o: Option<String>) -> Option<Seq<char>> {
    match o {
        Some(s) => Some(s@),
        None => None,
    }
}

/// The state of a listing in progress.
pub ghost struct PaginatorView {
    pub login: Seq<char>,
    pub page_size: nat,
    pub max_pages: nat,
    pub cursor: Option<Seq<char>>,
    pub pages_fetched: nat,
    pub records: Seq<RepositoryRecord>,
}

/// What the paginator does after a page: ask for the next one from a new
/// state, finish with the records, or fail.
pub ghost enum ProgressView {
    More(PaginatorView),
    Done(Seq<RepositoryRecord>),
    Failed(FetchError),
}

/// A listing of the repositories of one login, a page at a time.
pub struct Paginator {
    pub login: String,
    pub page_size: u32,
    pub max_pages: u32,
    pub cursor: Option<String>,
    pub pages_fetched: u32,
    pub records: Vec<RepositoryRecord>,
}

impl View for Paginator {
    type V = PaginatorView;

    open spec fn view(&self) -> PaginatorView {
        PaginatorView {
            login: self.login@,
            page_size: self.page_size as nat,
            max_pages: self.max_pages as nat,
            cursor: opt_string_view(self.cursor),
            pages_fetched: self.pages_fetched as nat,
            records: self.records@,
        }
    }
}

/// What follows a page.
pub enum Progress {
    More(Paginator),
    Done(Vec<RepositoryRecord>),
    Failed(FetchError),
}

impl View for Progress {
    type V = ProgressView;

    open spec fn view(&self) -> ProgressView {
        match self {
            Progress::More(p) => ProgressView::More(p@),
            Progress::Done(v) => ProgressView::Done(v@),
            Progress::Failed(e) => ProgressView::Failed(*e),
        }
    }
}

/// The state of a listing before its first page.
pub open spec fn fresh(login: Seq<char>, page_size: nat, max_pages: nat) -> PaginatorView {
    PaginatorView {
        login,
        page_size,
        max_pages,
        cursor: None,
        pages_fetched: 0,
        records: Seq::empty(),
    }
}

/// The query that a state asks for next.
pub open spec fn next_query(v: PaginatorView) -> Seq<char> {
    list_query(v.login, v.page_size, v.cursor)
}

/// One step of a listing. A failed request fails the whole listing, and no
/// record reaches the caller. Otherwise the page's records are appended in
/// order; the listing is done when the page says no page follows, and goes
/// on from the page's end cursor when one does. A page beyond the limit, or
/// a next page with no cursor, fails the listing.
pub open spec fn step(v: PaginatorView, outcome: Result<Page, TransportError>) -> ProgressView {
    match outcome {
        Err(e) => ProgressView::Failed(FetchError::Transport(e)),
        Ok(page) => {
            if v.pages_fetched >= v.max_pages {
                ProgressView::Failed(FetchError::PageLimit(v.max_pages as u32))
            } else if !page.page_info.has_next_page {
                ProgressView::Done(v.records + page.nodes@)
            } else if v.pages_fetched + 1 >= v.max_pages {
                ProgressView::Failed(FetchError::PageLimit(v.max_pages as u32))
            } else {
                match page.page_info.end_cursor {
                    None => ProgressView::Failed(FetchError::MissingCursor),
                    Some(c) => ProgressView::More(
                        PaginatorView {
                            cursor: Some(c@),
                            pages_fetched: v.pages_fetched + 1,
                            records: v.records + page.nodes@,
                            ..v
                        },
                    ),
                }
            }
        },
    }
}

impl Paginator {
    /// Starts a listing of the repositories of `login`, `page_size` per page
    /// and at most `max_pages` pages.
    pub fn new(login: String, page_size: u32, max_pages: u32) -> (r: Paginator)
        requires
            page_size > 0,
        ensures
            r@ == fresh(login@, page_size as nat, max_pages as nat),
    {
        Paginator {
            login,
            page_size,
            max_pages,
            cursor: None,
            pages_fetched: 0,
            records: Vec::new(),
        }
    }

    /// The query text for the next page.
    pub fn query(&self) -> (r: String)
        ensures
            r@ == next_query(self@),
    {
        let cursor = match &self.cursor {
            Some(c) => Some(c.as_str()),
            None => None,
        };
        build_list_query(self.login.as_str(), self.page_size, cursor)
    }

    /// The JSON body of the request for the next page.
    pub fn request_body(&self) -> (r: String)
        ensures
            r@ == envelope_of(json_string_literal(next_query(self@))),
    {
        let cursor = match &self.cursor {
            Some(c) => Some(c.as_str()),
            None => None,
        };
        list_request_body(self.login.as_str(), self.page_size, cursor)
    }

    /// Takes the outcome of the request for the next page.
    pub fn receive(self, outcome: Result<Page, TransportError>) -> (r: Progress)
        ensures
            r@ == step(self@, outcome),
    {
        let ghost v = self@;
        let ghost o = outcome;
        match outcome {
            Err(e) => Progress::Failed(FetchError::Transport(e)),
            Ok(page) => {
                if self.pages_fetched >= self.max_pages {
                    return Progress::Failed(FetchError::PageLimit(self.max_pages));
                }
                let Paginator { login, page_size, max_pages, cursor: _, pages_fetched, mut records } =
                    self;
                let Page { mut nodes, page_info } = page;
                records.append(&mut nodes);
                let fetched = pages_fetched + 1;
                if !page_info.has_next_page {
                    Progress::Done(records)
                } else if fetched >= max_pages {
                    Progress::Failed(FetchError::PageLimit(max_pages))
                } else {
                    match page_info.end_cursor {
                        None => Progress::Failed(FetchError::MissingCursor),
                        Some(c) => {
                            let next = Paginator {
                                login,
                                page_size,
                                max_pages,
                                cursor: Some(c),
                                pages_fetched: fetched,
                                records,
                            };
                            proof {
                                assert(next@ == (PaginatorView {
                                    cursor: Some(c@),
                                    pages_fetched: v.pages_fetched + 1,
                                    records: v.records + o->Ok_0.nodes@,
                                    ..v
                                }));
                            }
                            Progress::More(next)
                        },
                    }
                }
            },
        }
    }
}

} // verus!
