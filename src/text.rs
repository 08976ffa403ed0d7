//! Case-insensitive substring matching of notes against a search query.

use vstd::prelude::*;

use crate::models::Note;

verus! {

/// What `str::to_lowercase` makes of a string.
pub uninterp spec fn lower_of(s: Seq<char>) -> Seq<char>;

/// `needle` occurs in `hay` as a contiguous run (the empty needle occurs
/// everywhere).
pub open spec fn contains_text(hay: Seq<char>, needle: Seq<char>) -> bool {
    exists|i: int|
        0 <= i && i + needle.len() <= hay.len() && #[trigger] hay.subrange(i, i + needle.len())
            == needle
}

/// A note matches an already case-folded query when its case-folded title or
/// case-folded plain-text content contains it.
pub open spec fn note_matches(n: Note, folded: Seq<char>) -> bool {
    contains_text(lower_of(n.title@), folded) || contains_text(lower_of(n.content_plaintext@), folded)
}

/// The notes of `notes` that match the case-folded query `folded`, in order.
pub open spec fn matching(notes: Seq<Note>, folded: Seq<char>) -> Seq<Note>
    decreases notes.len(),
{
    if notes.len() == 0 {
        Seq::empty()
    } else if note_matches(notes.last(), folded) {
        matching(notes.drop_last(), folded).push(notes.last())
    } else {
        matching(notes.drop_last(), folded)
    }
}

/// Search results of `query` over `notes`: nothing for the empty query,
/// otherwise the notes that match its case-folded form.
pub open spec fn search_results(notes: Seq<Note>, query: Seq<char>) -> Seq<Note> {
    if query.len() == 0 {
        Seq::empty()
    } else {
        matching(notes, lower_of(query))
    }
}

/// Relies on `str::to_lowercase`: the lowercase form of a string depends on
/// its characters alone, and that of the empty string is empty.
#[verifier::external_body]
pub(crate) fn fold_case(s: &str) -> (r: String)
    ensures
        r@ == lower_of(s@),
        s@.len() == 0 ==> r@.len() == 0,
{
    s.to_lowercase()
}

/// Relies on `str::contains` with a `&str` pattern: whether `needle` occurs
/// in `hay` as a substring.
#[verifier::external_body]
fn text_contains(hay: &str, needle: &str) -> (r: bool)
    ensures
        r == contains_text(hay@, needle@),
{
    hay.contains(needle)
}

/// Whether a case-folded query occurs in a case-folded title or in a
/// case-folded plain-text content.
pub fn matches_folded(folded_query: &str, folded_title: &str, folded_content: &str) -> (r: bool)
    ensures
        r == (contains_text(folded_title@, folded_query@) || contains_text(
            folded_content@,
            folded_query@,
        )),
{
    text_contains(folded_title, folded_query) || text_contains(folded_content, folded_query)
}

/// Whether `note` matches the case-folded query `folded_query`.
pub fn note_matches_folded(note: &Note, folded_query: &str) -> (r: bool)
    ensures
        r == note_matches(*note, folded_query@),
{
    let title = fold_case(note.title.as_str());
    let content = fold_case(note.content_plaintext.as_str());
    matches_folded(folded_query, title.as_str(), content.as_str())
}

/// Whatever the notes, the empty query yields no search result: search only
/// applies to a non-empty query.
pub proof fn lemma_empty_query_matches_nothing(notes: Seq<Note>)
    ensures
        search_results(notes, Seq::empty()) == Seq::<Note>::empty(),
{
}

} // verus!
