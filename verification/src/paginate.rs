//! The collection paginator: it asks for page after page of the listing and
//! accumulates the entries until the platform signals that no page follows.
//! A failed page aborts the whole retrieval; the continuation flag is
//! trusted unconditionally, so a platform that keeps answering `true` keeps
//! the retrieval going — the caller may bound it.

use vstd::prelude::*;

use crate::api::CollectionEntry;
use crate::api::PageResult;

verus! {

/// The paginator's state: the next page to ask for, the platform's last
/// continuation signal, and everything accumulated so far.
#[derive(Clone, Debug)]
pub struct Paginator {
    pub page: u64,
    pub has_more: bool,
    pub entries: Vec<CollectionEntry>,
}

/// The paginator's state as a mathematical value.
pub struct PagModel {
    pub page: int,
    pub has_more: bool,
    pub entries: Seq<CollectionEntry>,
}

/// What one accepted page does to the state: its entries are appended, its
/// continuation flag is taken over, and the page number advances.
pub open spec fn step_model(m: PagModel, p: PageResult) -> PagModel {
    PagModel { page: m.page + 1, has_more: p.has_more, entries: m.entries + p.entries@ }
}

/// The state after accepting a whole sequence of pages, first to last.
pub open spec fn run_model(m: PagModel, pages: Seq<PageResult>) -> PagModel
    decreases pages.len(),
{
    if pages.len() == 0 {
        m
    } else {
        run_model(step_model(m, pages[0]), pages.drop_first())
    }
}

/// All entries of a sequence of pages, in page order.
pub open spec fn entries_of_pages(pages: Seq<PageResult>) -> Seq<CollectionEntry>
    decreases pages.len(),
{
    if pages.len() == 0 {
        Seq::empty()
    } else {
        pages[0].entries@ + entries_of_pages(pages.drop_first())
    }
}

impl Paginator {
    pub open spec fn model(&self) -> PagModel {
        PagModel { page: self.page as int, has_more: self.has_more, entries: self.entries@ }
    }

    /// A fresh retrieval: the first page is asked for next, nothing is
    /// accumulated, and at least one page is still expected.
    pub fn new() -> (r: Paginator)
        ensures
            r.page == 1,
            r.has_more,
            r.entries@ == Seq::<CollectionEntry>::empty(),
    {
        Paginator { page: 1, has_more: true, entries: Vec::new() }
    }

    /// Whether the platform has signalled that no page follows.
    pub fn done(&self) -> (r: bool)
        ensures
            r == !self.has_more,
    {
        !self.has_more
    }

    /// Accepts one page: appends its entries in order, takes over its
    /// continuation flag and advances the page number.
    pub fn step(&mut self, page: PageResult)
        requires
            old(self).page < u64::MAX,
        ensures
            final(self).model() == step_model(old(self).model(), page),
            final(self).entries@ == old(self).entries@ + page.entries@,
            final(self).has_more == page.has_more,
            final(self).page == old(self).page + 1,
    {
        let mut incoming = page.entries;
        self.entries.append(&mut incoming);
        self.has_more = page.has_more;
        self.page = self.page + 1;
    }
}

/// Pagination returns the union of all pages' entries, in page order: after
/// accepting any sequence of pages, the accumulated entries are what was
/// there before followed by every page's entries, first page first; the
/// continuation flag is the last page's, so a sequence whose last page says
/// no more leaves the paginator done; and the page number has advanced once
/// per page.
pub proof fn lemma_pagination_union(m: PagModel, pages: Seq<PageResult>)
    ensures
        run_model(m, pages).entries == m.entries + entries_of_pages(pages),
        pages.len() > 0 ==> run_model(m, pages).has_more == pages.last().has_more,
        pages.len() == 0 ==> run_model(m, pages) == m,
        run_model(m, pages).page == m.page + pages.len(),
    decreases pages.len(),
{
    if pages.len() == 0 {
        assert(m.entries + entries_of_pages(pages) =~= m.entries);
    } else {
        let m1 = step_model(m, pages[0]);
        lemma_pagination_union(m1, pages.drop_first());
        assert((m.entries + pages[0].entries@) + entries_of_pages(pages.drop_first())
            =~= m.entries + (pages[0].entries@ + entries_of_pages(pages.drop_first())));
        if pages.len() > 1 {
            assert(pages.drop_first().last() == pages.last());
        }
    }
}

} // verus!
