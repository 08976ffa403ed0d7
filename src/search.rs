//! The live search projection: a query, and a cursor over the notes of the
//! cache that match it.

use vstd::prelude::*;

use crate::cache::{BoundedNoteStore, clamped_range, slice_notes};
use crate::models::Note;
use crate::text::search_results;
use crate::window::{PageView, page_number, page_of};

verus! {

/// Relies on `String::push`: appends one character.
pub assume_specification[ String::push ](s: &mut String, ch: char)
    ensures
        final(s)@ == old(s)@.push(ch),
;

/// Relies on `String::pop`: removes and returns the last character, if any.
pub assume_specification[ String::pop ](s: &mut String) -> (r: Option<char>)
    ensures
        old(s)@.len() == 0 ==> r == None::<char> && final(s)@ == old(s)@,
        old(s)@.len() > 0 ==> r == Some(old(s)@.last()) && final(s)@ == old(s)@.drop_last(),
;

/// Query text and the offset into its results.
pub struct SearchView {
    pub query: String,
    pub offset: usize,
}

/// Offset after moving forward one page of `limit` over `total` results:
/// moves only when a further result exists.
pub open spec fn next_offset(offset: usize, limit: usize, total: usize) -> usize {
    if offset + limit < total {
        (offset + limit) as usize
    } else {
        offset
    }
}

/// Offset after moving back one page of `limit`, stopping at the start.
pub open spec fn prev_offset(offset: usize, limit: usize) -> usize {
    if offset >= limit {
        (offset - limit) as usize
    } else {
        0
    }
}

impl SearchView {
    /// An empty query at the first result.
    pub fn new() -> (r: Self)
        ensures
            r.query@ == Seq::<char>::empty(),
            r.offset == 0,
    {
        SearchView { query: String::new(), offset: 0 }
    }

    /// Whether the search applies: the query is not empty.
    pub fn is_active(&self) -> (r: bool)
        ensures
            r == (self.query@.len() > 0),
    {
        !self.query.as_str().is_empty()
    }

    /// Appends a character to the query and goes back to the first result.
    pub fn push_char(&mut self, c: char)
        ensures
            final(self).query@ == old(self).query@.push(c),
            final(self).offset == 0,
    {
        self.query.push(c);
        self.offset = 0;
    }

    /// Removes the last character of the query, if any, and goes back to the
    /// first result.
    pub fn pop_char(&mut self)
        ensures
            final(self).query@ == (if old(self).query@.len() > 0 {
                old(self).query@.drop_last()
            } else {
                old(self).query@
            }),
            final(self).offset == 0,
    {
        let _ = self.query.pop();
        self.offset = 0;
    }

    /// Goes back to the first result, keeping the query.
    pub fn rewind(&mut self)
        ensures
            final(self).query == old(self).query,
            final(self).offset == 0,
    {
        self.offset = 0;
    }

    /// Empties the query and goes back to the first result.
    pub fn clear(&mut self)
        ensures
            final(self).query@ == Seq::<char>::empty(),
            final(self).offset == 0,
    {
        self.query = String::new();
        self.offset = 0;
    }

    /// All notes of the store that match the query, in store order.
    pub fn matches(&self, store: &BoundedNoteStore) -> (r: Vec<Note>)
        ensures
            r@ == search_results(store@, self.query@),
    {
        store.filter_by_substring(self.query.as_str())
    }

    /// Moves forward one page of `limit` over `total` results; a move past the
    /// last page does nothing. Returns whether the offset moved.
    pub fn next_page(&mut self, total: usize, limit: usize) -> (r: bool)
        ensures
            final(self).offset == next_offset(old(self).offset, limit, total),
            final(self).query == old(self).query,
            r == (final(self).offset != old(self).offset),
    {
        if self.offset < total && limit < total - self.offset {
            self.offset = self.offset + limit;
            limit > 0
        } else {
            false
        }
    }

    /// Moves back one page of `limit`, stopping at the first result. Returns
    /// whether the offset moved.
    pub fn prev_page(&mut self, limit: usize) -> (r: bool)
        ensures
            final(self).offset == prev_offset(old(self).offset, limit),
            final(self).query == old(self).query,
            r == (final(self).offset != old(self).offset),
    {
        let before = self.offset;
        if self.offset > 0 {
            self.offset = self.offset.saturating_sub(limit);
        }
        self.offset != before
    }

    /// The page of results that starts at the offset, with pages of `limit`
    /// notes, and the number of results. Recomputed from the whole store.
    pub fn view(&self, store: &BoundedNoteStore, limit: usize) -> (r: PageView)
        ensures
            r.notes@ == clamped_range(
                search_results(store@, self.query@),
                self.offset as int,
                self.offset + limit,
            ),
            r.page == page_of(self.offset, limit),
            r.total_matches == Some(search_results(store@, self.query@).len() as usize),
    {
        let found = self.matches(store);
        let end = self.offset.saturating_add(limit);
        PageView {
            notes: slice_notes(&found, self.offset, end),
            page: page_number(self.offset, limit),
            total_matches: Some(found.len()),
        }
    }
}

} // verus!
