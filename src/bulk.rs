//! The bulk fetch: drains the remote source into the store page by page,
//! independently of the browsing cursor, until the budget, the end of the
//! data or a transport failure stops it.

use vstd::prelude::*;

use crate::cache::{BoundedNoteStore, admission};
use crate::models::Note;
use crate::window::{FetchRequest, MAX_PAGE_SIZE};

verus! {

/// Page size of every bulk request: the remote service's page-size ceiling.
pub const BULK_PAGE_SIZE: usize = MAX_PAGE_SIZE;

/// Why a bulk fetch ended.
#[derive(Clone, Copy, PartialEq, Eq, Debug, Structural)]
pub enum BulkEnd {
    /// The store's budget stopped the admission of a page.
    BudgetReached,
    /// A page came back shorter than requested.
    EndOfData,
    /// The transport failed; what was fetched so far stays.
    Failed,
}

/// What the bulk fetch does after a page.
#[derive(Clone, Copy, PartialEq, Eq, Debug, Structural)]
pub enum BulkStep {
    /// Fetch this page next.
    Continue(FetchRequest),
    /// The bulk fetch is over.
    Finished(BulkEnd),
}

/// State of a bulk fetch: whether it runs, and the remote offset of the
/// next request.
pub struct BulkFetchController {
    pub active: bool,
    pub cursor: usize,
}

/// Step after a page of `fetched` notes was requested at `cursor` and its
/// admission ended with `budget_reached`.
pub open spec fn bulk_step(cursor: usize, fetched: nat, budget_reached: bool) -> BulkStep {
    if budget_reached {
        BulkStep::Finished(BulkEnd::BudgetReached)
    } else if fetched < BULK_PAGE_SIZE {
        BulkStep::Finished(BulkEnd::EndOfData)
    } else if cursor + BULK_PAGE_SIZE <= usize::MAX {
        BulkStep::Continue(
            FetchRequest { limit: BULK_PAGE_SIZE, offset: (cursor + BULK_PAGE_SIZE) as usize },
        )
    } else {
        BulkStep::Finished(BulkEnd::EndOfData)
    }
}

impl BulkFetchController {
    /// A running bulk fetch at remote offset 0.
    pub fn start() -> (r: Self)
        ensures
            r.active,
            r.cursor == 0,
    {
        BulkFetchController { active: true, cursor: 0 }
    }

    /// The request to issue next.
    pub fn request(&self) -> (r: FetchRequest)
        ensures
            r == (FetchRequest { limit: BULK_PAGE_SIZE, offset: self.cursor }),
    {
        FetchRequest { limit: BULK_PAGE_SIZE, offset: self.cursor }
    }

    /// Takes in the page fetched for the current request: offers it to the
    /// store, then continues at the next offset, or ends on a full store or
    /// on a short page.
    pub fn receive_page(&mut self, store: &mut BoundedNoteStore, page: Vec<Note>) -> (r: BulkStep)
        requires
            old(store).wf(),
        ensures
            final(store).wf(),
            final(store).budget() == old(store).budget(),
            final(store)@ == admission(old(store)@, old(store).budget(), page@).0,
            r == bulk_step(
                old(self).cursor,
                page@.len(),
                admission(old(store)@, old(store).budget(), page@).1,
            ),
            final(self).active == (r is Continue),
            final(self).cursor == (match r {
                BulkStep::Continue(next) => next.offset,
                BulkStep::Finished(_) => old(self).cursor,
            }),
    {
        let fetched = page.len();
        let ghost offered = page@;
        let (_added, reached) = store.insert_many(page);
        assert(reached == admission(old(store)@, old(store).budget(), offered).1);
        if reached {
            self.active = false;
            BulkStep::Finished(BulkEnd::BudgetReached)
        } else if fetched < BULK_PAGE_SIZE {
            self.active = false;
            BulkStep::Finished(BulkEnd::EndOfData)
        } else if self.cursor <= usize::MAX - BULK_PAGE_SIZE {
            self.cursor = self.cursor + BULK_PAGE_SIZE;
            self.active = true;
            BulkStep::Continue(FetchRequest { limit: BULK_PAGE_SIZE, offset: self.cursor })
        } else {
            self.active = false;
            BulkStep::Finished(BulkEnd::EndOfData)
        }
    }

    /// Ends the bulk fetch after a transport failure; the store keeps what
    /// was fetched so far.
    pub fn fail(&mut self) -> (r: BulkStep)
        ensures
            r == BulkStep::Finished(BulkEnd::Failed),
            !final(self).active,
            final(self).cursor == old(self).cursor,
    {
        self.active = false;
        BulkStep::Finished(BulkEnd::Failed)
    }
}

} // verus!
