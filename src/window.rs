//! The offset/limit cursor for browsing the cache page by page, and its
//! decisions on when a remote page is needed.

use vstd::prelude::*;

use crate::cache::{BoundedNoteStore, admission, clamped_range};
use crate::models::Note;

verus! {

/// Largest page size: the ceiling of the remote service's page size.
pub const MAX_PAGE_SIZE: usize = 50;

/// Terminal rows taken by everything but the table's body rows.
pub const CHROME_ROWS: u16 = 7;

/// Page size for a terminal of `rows` rows: the rows left after the fixed
/// chrome, clamped to `1..=MAX_PAGE_SIZE`.
pub open spec fn page_size_for(rows: u16) -> usize {
    if rows <= CHROME_ROWS + 1 {
        1
    } else if rows - CHROME_ROWS >= MAX_PAGE_SIZE {
        MAX_PAGE_SIZE
    } else {
        (rows - CHROME_ROWS) as usize
    }
}

/// Page size for a terminal of `rows` rows.
pub fn page_size_for_rows(rows: u16) -> (r: usize)
    ensures
        r == page_size_for(rows),
        1 <= r <= MAX_PAGE_SIZE,
{
    let body = rows.saturating_sub(CHROME_ROWS);
    if body < 1 {
        1
    } else if body as usize > MAX_PAGE_SIZE {
        MAX_PAGE_SIZE
    } else {
        body as usize
    }
}

/// One request to the remote note source.
#[derive(Clone, Copy, PartialEq, Eq, Debug, Structural)]
pub struct FetchRequest {
    pub limit: usize,
    pub offset: usize,
}

/// What moving the window forward requires.
#[derive(Clone, Copy, PartialEq, Eq, Debug, Structural)]
pub enum Advance {
    /// The cache already covered the next page; the window moved.
    Moved,
    /// The next page must be fetched first.
    Fetch(FetchRequest),
    /// The remote source has no more data; nothing changed.
    AtEnd,
}

/// How a fetched page for the window was taken in.
#[derive(Clone, Copy, PartialEq, Eq, Debug, Structural)]
pub enum PageArrival {
    /// The store now reaches the requested offset; the window moved there.
    Advanced,
    /// The page did not reach the requested offset and the budget stopped
    /// its admission.
    CacheFull,
    /// The page did not reach the requested offset: no more data.
    Exhausted,
}

/// One-based number of the page that starts at `offset` with pages of
/// `limit` notes (a zero limit counts as one), capped at the largest `usize`.
pub open spec fn page_of(offset: usize, limit: usize) -> usize {
    let q = offset / (if limit == 0 {
        1usize
    } else {
        limit
    });
    if q < usize::MAX {
        (q + 1) as usize
    } else {
        usize::MAX
    }
}

/// One-based number of the page that starts at `offset`.
pub fn page_number(offset: usize, limit: usize) -> (r: usize)
    ensures
        r == page_of(offset, limit),
{
    let per_page: usize = if limit == 0 {
        1
    } else {
        limit
    };
    (offset / per_page).saturating_add(1)
}

/// What one screen shows: the notes of the current page, its one-based
/// number, and, while a search is active, how many notes match.
pub struct PageView {
    pub notes: Vec<Note>,
    pub page: usize,
    pub total_matches: Option<usize>,
}

/// The window's cursor: first shown position, page size, and the length of
/// the last page fetched for it.
pub struct PageWindow {
    pub offset: usize,
    pub limit: usize,
    pub last_fetched: usize,
}

/// Step of `advance` on a window in the state (`offset`, `limit`,
/// `last_fetched`) over a store of `len` notes.
pub open spec fn advance_step(offset: usize, limit: usize, last_fetched: usize, len: nat) -> Advance {
    if offset + limit < len {
        Advance::Moved
    } else if last_fetched == limit && offset + limit <= usize::MAX {
        Advance::Fetch(FetchRequest { limit, offset: (offset + limit) as usize })
    } else {
        Advance::AtEnd
    }
}

impl PageWindow {
    /// Page size in bounds.
    pub open spec fn wf(&self) -> bool {
        1 <= self.limit <= MAX_PAGE_SIZE
    }

    /// A window at the start, with page size `limit`, before any fetch.
    pub fn new(limit: usize) -> (r: Self)
        requires
            1 <= limit <= MAX_PAGE_SIZE,
        ensures
            r.wf(),
            r.offset == 0,
            r.limit == limit,
            r.last_fetched == 0,
    {
        PageWindow { offset: 0, limit, last_fetched: 0 }
    }

    /// Moves forward by one page when the cache already covers it. Otherwise,
    /// when the last fetch returned a full page, asks for the next page
    /// (without moving); else the remote data is exhausted and nothing
    /// changes.
    pub fn advance(&mut self, store_len: usize) -> (r: Advance)
        ensures
            r == advance_step(old(self).offset, old(self).limit, old(self).last_fetched, store_len as nat),
            final(self).limit == old(self).limit,
            final(self).last_fetched == old(self).last_fetched,
            final(self).offset == (if r == Advance::Moved {
                (old(self).offset + old(self).limit) as usize
            } else {
                old(self).offset
            }),
    {
        if self.offset < store_len && self.limit < store_len - self.offset {
            self.offset = self.offset + self.limit;
            Advance::Moved
        } else if self.last_fetched == self.limit && self.offset <= usize::MAX - self.limit {
            Advance::Fetch(FetchRequest { limit: self.limit, offset: self.offset + self.limit })
        } else {
            Advance::AtEnd
        }
    }

    /// Moves back by one page, stopping at the start. Served from the cache
    /// alone: earlier pages are always held.
    pub fn retreat(&mut self)
        ensures
            final(self).offset == (if old(self).offset >= old(self).limit {
                (old(self).offset - old(self).limit) as usize
            } else {
                0
            }),
            final(self).limit == old(self).limit,
            final(self).last_fetched == old(self).last_fetched,
    {
        if self.offset > 0 {
            self.offset = self.offset.saturating_sub(self.limit);
        }
    }

    /// The page the window shows over `store`: the notes from `offset` to
    /// `offset + limit`, clamped to what is cached. Reads the cache only.
    pub fn view(&self, store: &BoundedNoteStore) -> (r: PageView)
        ensures
            r.notes@ == clamped_range(store@, self.offset as int, self.offset + self.limit),
            r.page == page_of(self.offset, self.limit),
            r.total_matches.is_none(),
    {
        let len = store.len();
        let end = if self.limit <= len && self.offset <= len - self.limit {
            self.offset + self.limit
        } else {
            len
        };
        PageView {
            notes: store.slice(self.offset, end),
            page: page_number(self.offset, self.limit),
            total_matches: None,
        }
    }

    /// Takes a new page size; the offset and the fetch record stay.
    pub fn on_resize(&mut self, new_limit: usize)
        requires
            1 <= new_limit <= MAX_PAGE_SIZE,
        ensures
            final(self).wf(),
            final(self).limit == new_limit,
            final(self).offset == old(self).offset,
            final(self).last_fetched == old(self).last_fetched,
    {
        self.limit = new_limit;
    }

    /// Takes in the page fetched for `request`: records its length, offers its
    /// notes to the store, and moves to `request.offset` when the store now
    /// reaches past it. Otherwise the window stays and the result tells
    /// whether the budget or the end of the data is the reason.
    pub fn receive_page(&mut self, store: &mut BoundedNoteStore, request: FetchRequest, page: Vec<Note>) -> (r: PageArrival)
        requires
            old(store).wf(),
        ensures
            final(store).wf(),
            final(store).budget() == old(store).budget(),
            final(store)@ == admission(old(store)@, old(store).budget(), page@).0,
            r == (if request.offset < final(store)@.len() {
                PageArrival::Advanced
            } else if admission(old(store)@, old(store).budget(), page@).1 {
                PageArrival::CacheFull
            } else {
                PageArrival::Exhausted
            }),
            final(self).last_fetched == page@.len(),
            final(self).limit == old(self).limit,
            final(self).offset == (if r == PageArrival::Advanced {
                request.offset
            } else {
                old(self).offset
            }),
    {
        self.last_fetched = page.len();
        let (_added, reached) = store.insert_many(page);
        if request.offset < store.len() {
            self.offset = request.offset;
            PageArrival::Advanced
        } else if reached {
            PageArrival::CacheFull
        } else {
            PageArrival::Exhausted
        }
    }
}

} // verus!
