//! Whole listings: the paginator run over the outcomes of successive page
//! requests, and what holds of every such run.
use vstd::prelude::*;
use crate::paginate::{fresh, next_query, step, opt_string_view, FetchError, Page, PaginatorView, ProgressView, TransportError};
use crate::query::list_query;
use crate::repo::RepositoryRecord;

verus! {

/// The paginator run from state `v` over the outcomes of successive page
/// requests; `More` when the outcomes end before the listing does.
pub open spec fn run(v: PaginatorView, outcomes: Seq<Result<Page, TransportError>>) -> ProgressView
    decreases outcomes.len(),
{
    if outcomes.len() == 0 {
        ProgressView::More(v)
    } else {
        match step(v, outcomes[0]) {
            ProgressView::More(w) => run(w, outcomes.drop_first()),
            other => other,
        }
    }
}

/// Every record of the pages, page after page.
pub open spec fn all_records(pages: Seq<Page>) -> Seq<RepositoryRecord>
    decreases pages.len(),
{
    if pages.len() == 0 {
        Seq::empty()
    } else {
        pages[0].nodes@ + all_records(pages.drop_first())
    }
}

/// Each page delivered without error.
pub open spec fn delivered(pages: Seq<Page>) -> Seq<Result<Page, TransportError>> {
    pages.map_values(|p: Page| Ok(p))
}

/// The pages chain up: each but the last announces a next page with a
/// cursor, and the last announces none.
pub open spec fn chained(pages: Seq<Page>) -> bool {
    &&& pages.len() >= 1
    &&& forall|i: int| 0 <= i < pages.len() - 1 ==> {
        &&& #[trigger] pages[i].page_info.has_next_page
        &&& pages[i].page_info.end_cursor is Some
    }
    &&& !pages.last().page_info.has_next_page
}

proof fn lemma_run_chained(v: PaginatorView, pages: Seq<Page>)
    requires
        chained(pages),
        v.pages_fetched + pages.len() <= v.max_pages,
    ensures
        run(v, delivered(pages)) == ProgressView::Done(v.records + all_records(pages)),
    decreases pages.len(),
{
    let outs = delivered(pages);
    assert(outs[0] == Ok::<Page, TransportError>(pages[0]));
    if pages.len() == 1 {
        assert(all_records(pages.drop_first()) =~= Seq::empty());
        assert(v.records + all_records(pages) =~= v.records + pages[0].nodes@);
    } else {
        assert(pages[0].page_info.has_next_page);
        let w = PaginatorView {
            cursor: opt_string_view(pages[0].page_info.end_cursor),
            pages_fetched: v.pages_fetched + 1,
            records: v.records + pages[0].nodes@,
            ..v
        };
        assert(step(v, outs[0]) == ProgressView::More(w));
        let rest = pages.drop_first();
        assert forall|i: int| 0 <= i < rest.len() - 1 implies {
            &&& #[trigger] rest[i].page_info.has_next_page
            &&& rest[i].page_info.end_cursor is Some
        } by {
            assert(rest[i] == pages[i + 1]);
        }
        assert(rest.last() == pages.last());
        assert(outs.drop_first() =~= delivered(rest));
        lemma_run_chained(w, rest);
        assert(w.records + all_records(rest) =~= v.records + all_records(pages));
    }
}

/// A listing whose pages chain up to a last page, within the page limit,
/// is done with every record of every page, in page order.
pub proof fn law_listing_complete(login: Seq<char>, page_size: nat, max_pages: nat, pages: Seq<Page>)
    requires
        chained(pages),
        pages.len() <= max_pages,
    ensures
        run(fresh(login, page_size, max_pages), delivered(pages)) == ProgressView::Done(
            all_records(pages),
        ),
{
    let v = fresh(login, page_size, max_pages);
    lemma_run_chained(v, pages);
    assert(v.records + all_records(pages) =~= all_records(pages));
}

proof fn lemma_run_fails_at(v: PaginatorView, outcomes: Seq<Result<Page, TransportError>>, k: int)
    requires
        0 <= k < outcomes.len(),
        outcomes[k] is Err,
        v.pages_fetched + k < v.max_pages,
        forall|i: int| 0 <= i < k ==> {
            &&& #[trigger] outcomes[i] is Ok
            &&& outcomes[i]->Ok_0.page_info.has_next_page
            &&& outcomes[i]->Ok_0.page_info.end_cursor is Some
        },
    ensures
        run(v, outcomes) == ProgressView::Failed(FetchError::Transport(outcomes[k]->Err_0)),
    decreases k,
{
    if k > 0 {
        assert(outcomes[0] is Ok);
        let page = outcomes[0]->Ok_0;
        let w = PaginatorView {
            cursor: opt_string_view(page.page_info.end_cursor),
            pages_fetched: v.pages_fetched + 1,
            records: v.records + page.nodes@,
            ..v
        };
        assert(step(v, outcomes[0]) == ProgressView::More(w));
        let rest = outcomes.drop_first();
        assert forall|i: int| 0 <= i < k - 1 implies {
            &&& #[trigger] rest[i] is Ok
            &&& rest[i]->Ok_0.page_info.has_next_page
            &&& rest[i]->Ok_0.page_info.end_cursor is Some
        } by {
            assert(rest[i] == outcomes[i + 1]);
        }
        lemma_run_fails_at(w, rest, k - 1);
    }
}

/// A failed page request fails the whole listing with that error, whatever
/// pages came before it: no record reaches the caller.
pub proof fn law_listing_fails_fast(
    login: Seq<char>,
    page_size: nat,
    max_pages: nat,
    outcomes: Seq<Result<Page, TransportError>>,
    k: int,
)
    requires
        0 <= k < outcomes.len(),
        k < max_pages,
        outcomes[k] is Err,
        forall|i: int| 0 <= i < k ==> {
            &&& #[trigger] outcomes[i] is Ok
            &&& outcomes[i]->Ok_0.page_info.has_next_page
            &&& outcomes[i]->Ok_0.page_info.end_cursor is Some
        },
    ensures
        run(fresh(login, page_size, max_pages), outcomes) == ProgressView::Failed(
            FetchError::Transport(outcomes[k]->Err_0),
        ),
{
    lemma_run_fails_at(fresh(login, page_size, max_pages), outcomes, k);
}

/// After a page that announces a next page, the next query asks for the
/// same login and page size after exactly that page's end cursor.
pub proof fn law_cursor_propagates(v: PaginatorView, page: Page)
    requires
        step(v, Ok(page)) is More,
    ensures
        page.page_info.has_next_page,
        page.page_info.end_cursor is Some,
        next_query(step(v, Ok(page))->More_0) == list_query(
            v.login,
            v.page_size,
            Some(page.page_info.end_cursor->Some_0@),
        ),
{
}

/// Listing the same login twice over an unchanged set of chained pages
/// gives the same records in the same order both times, whatever page
/// limit each listing was started with, as long as the pages fit under it.
pub proof fn law_listing_repeatable(
    login: Seq<char>,
    page_size: nat,
    first_limit: nat,
    second_limit: nat,
    pages: Seq<Page>,
)
    requires
        chained(pages),
        pages.len() <= first_limit,
        pages.len() <= second_limit,
    ensures
        run(fresh(login, page_size, first_limit), delivered(pages)) == run(
            fresh(login, page_size, second_limit),
            delivered(pages),
        ),
        run(fresh(login, page_size, first_limit), delivered(pages)) == ProgressView::Done(
            all_records(pages),
        ),
{
    law_listing_complete(login, page_size, first_limit, pages);
    law_listing_complete(login, page_size, second_limit, pages);
}

} // verus!
