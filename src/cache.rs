//! Cache accounting: the per-note size estimate and the byte-bounded,
//! deduplicated, insertion-ordered note store.

use vstd::prelude::*;

use crate::models::Note;
use crate::text::{fold_case, lower_of, matching, note_matches_folded, search_results};

verus! {

/// Number of bytes in the UTF-8 encoding of `s`, as the string reports its
/// own length (a `usize`).
pub open spec fn text_bytes(s: String) -> nat {
    (vstd::utf8::encode_utf8(s@).len() as usize) as nat
}

/// Fixed part of a note's footprint plus the bytes of all of its text fields.
pub open spec fn raw_note_size(n: Note) -> nat {
    vstd::layout::size_of::<Note>() + text_bytes(n.id.workspace_id) + text_bytes(n.id.note_id)
        + text_bytes(n.parent_object) + text_bytes(n.parent_record_id) + text_bytes(n.title)
        + text_bytes(n.content_plaintext) + text_bytes(n.content_markdown) + text_bytes(
        n.created_at,
    )
}

/// Estimated footprint of a note, capped at the largest `usize`.
pub open spec fn note_size(n: Note) -> nat {
    if raw_note_size(n) <= usize::MAX {
        raw_note_size(n)
    } else {
        usize::MAX as nat
    }
}

fn text_len(s: &String) -> (r: usize)
    ensures
        r as nat == text_bytes(*s),
{
    s.as_str().len()
}

/// Estimates the memory footprint of a note in bytes: the fixed size of the
/// record plus the length of every text field. It depends on the contents
/// alone, so the same note always gets the same estimate.
pub fn estimate_note_size(note: &Note) -> (r: usize)
    ensures
        r as nat == note_size(*note),
{
    let base: usize = core::mem::size_of::<Note>();
    let mut total: usize = base;
    total = total.saturating_add(text_len(&note.id.workspace_id));
    total = total.saturating_add(text_len(&note.id.note_id));
    total = total.saturating_add(text_len(&note.parent_object));
    total = total.saturating_add(text_len(&note.parent_record_id));
    total = total.saturating_add(text_len(&note.title));
    total = total.saturating_add(text_len(&note.content_plaintext));
    total = total.saturating_add(text_len(&note.content_markdown));
    total = total.saturating_add(text_len(&note.created_at));
    total
}

/// Identity used for deduplication: the note-scope component of the key.
pub open spec fn key_of(n: Note) -> Seq<char> {
    n.id.note_id@
}

/// Sum of the estimated sizes of `notes`.
pub open spec fn total_size(notes: Seq<Note>) -> nat
    decreases notes.len(),
{
    if notes.len() == 0 {
        0
    } else {
        total_size(notes.drop_last()) + note_size(notes.last())
    }
}

/// Some note of `notes` has the note-scope id `key`.
pub open spec fn holds_key(notes: Seq<Note>, key: Seq<char>) -> bool {
    exists|i: int| 0 <= i < notes.len() && key_of(#[trigger] notes[i]) == key
}

/// No two notes of `notes` share a note-scope id.
pub open spec fn keys_unique(notes: Seq<Note>) -> bool {
    forall|i: int, j: int|
        0 <= i < j < notes.len() ==> key_of(#[trigger] notes[i]) != key_of(#[trigger] notes[j])
}

/// Outcome of offering `cands`, in order, to a store that holds `notes` under a
/// budget of `budget` bytes: the notes held afterwards, and whether a candidate
/// that did not fit stopped the admission. A candidate whose id is already
/// held is skipped; the first new one that does not fit ends the offer, and
/// the candidates after it are never considered.
pub open spec fn admission(notes: Seq<Note>, budget: nat, cands: Seq<Note>) -> (Seq<Note>, bool)
    decreases cands.len(),
{
    if cands.len() == 0 {
        (notes, false)
    } else if holds_key(notes, key_of(cands[0])) {
        admission(notes, budget, cands.drop_first())
    } else if total_size(notes) + note_size(cands[0]) <= budget {
        admission(notes.push(cands[0]), budget, cands.drop_first())
    } else {
        (notes, true)
    }
}

/// The notes of `notes` from `start` up to `end`, both clamped to its bounds.
pub open spec fn clamped_range(notes: Seq<Note>, start: int, end: int) -> Seq<Note> {
    let stop = if end < notes.len() {
        end
    } else {
        notes.len() as int
    };
    if start < stop {
        notes.subrange(start, stop)
    } else {
        Seq::empty()
    }
}

/// Budget in bytes for a limit given in megabytes, capped at the largest `usize`.
pub open spec fn budget_for_mb(mb: u64) -> nat {
    if mb * 1048576 <= usize::MAX {
        (mb * 1048576) as nat
    } else {
        usize::MAX as nat
    }
}

/// Appending a note adds its size to the total.
pub proof fn lemma_total_size_push(notes: Seq<Note>, n: Note)
    ensures
        total_size(notes.push(n)) == total_size(notes) + note_size(n),
{
    assert(notes.push(n).drop_last() =~= notes);
}

/// The notes of `notes` from `start` up to `end`, clamped to its bounds.
pub fn slice_notes(notes: &Vec<Note>, start: usize, end: usize) -> (r: Vec<Note>)
    ensures
        r@ == clamped_range(notes@, start as int, end as int),
{
    let stop = if end < notes.len() {
        end
    } else {
        notes.len()
    };
    let mut out: Vec<Note> = Vec::new();
    if start < stop {
        let mut i: usize = start;
        while i < stop
            invariant
                start <= i <= stop <= notes@.len(),
                out@ =~= notes@.subrange(start as int, i as int),
            decreases stop - i,
        {
            out.push(notes[i].clone());
            i += 1;
        }
    }
    out
}

/// Severity band of cache usage, for the renderer to colour.
#[derive(Clone, Copy, PartialEq, Eq, Debug, Structural)]
pub enum UsageBand {
    /// Below 70% of the budget.
    Low,
    /// From 70% up to, not including, 90% of the budget.
    Elevated,
    /// 90% of the budget or more (or no budget at all).
    Critical,
}

/// Band of `used` bytes out of a budget of `budget` bytes.
pub open spec fn band_of(used: nat, budget: nat) -> UsageBand {
    if used * 100 < budget * 70 {
        UsageBand::Low
    } else if used * 100 < budget * 90 {
        UsageBand::Elevated
    } else {
        UsageBand::Critical
    }
}

/// Classifies `used` bytes out of `budget` into a usage band.
pub fn usage_band(used: usize, budget: usize) -> (r: UsageBand)
    ensures
        r == band_of(used as nat, budget as nat),
{
    let used_pct = (used as u128) * 100;
    let budget_wide = budget as u128;
    if used_pct < budget_wide * 70 {
        UsageBand::Low
    } else if used_pct < budget_wide * 90 {
        UsageBand::Elevated
    } else {
        UsageBand::Critical
    }
}

/// Whatever candidates are offered, a store within its budget stays within
/// it, and its note-scope ids stay unique.
pub proof fn lemma_admission_keeps_budget(notes: Seq<Note>, budget: nat, cands: Seq<Note>)
    requires
        total_size(notes) <= budget,
        keys_unique(notes),
    ensures
        total_size(admission(notes, budget, cands).0) <= budget,
        keys_unique(admission(notes, budget, cands).0),
        notes.is_prefix_of(admission(notes, budget, cands).0),
    decreases cands.len(),
{
    if cands.len() > 0 && !holds_key(notes, key_of(cands[0])) && total_size(notes) + note_size(
        cands[0],
    ) <= budget {
        let grown = notes.push(cands[0]);
        lemma_total_size_push(notes, cands[0]);
        assert forall|a: int, b: int| 0 <= a < b < grown.len() implies key_of(
            #[trigger] grown[a],
        ) != key_of(#[trigger] grown[b]) by {
            if b == notes.len() {
                assert(grown[a] == notes[a]);
            }
        }
        lemma_admission_keeps_budget(grown, budget, cands.drop_first());
    } else if cands.len() > 0 && holds_key(notes, key_of(cands[0])) {
        lemma_admission_keeps_budget(notes, budget, cands.drop_first());
    }
}

/// Offering a note whose note-scope id is already held changes nothing: the
/// held notes (so their count and total size) stay as they are, and the
/// remaining candidates are treated as if it had not been offered.
pub proof fn lemma_duplicate_is_skipped(notes: Seq<Note>, budget: nat, dup: Note, rest: Seq<Note>)
    requires
        holds_key(notes, key_of(dup)),
    ensures
        admission(notes, budget, seq![dup]) == (notes, false),
        admission(notes, budget, seq![dup] + rest) == admission(notes, budget, rest),
{
    assert(seq![dup].drop_first() =~= Seq::<Note>::empty());
    assert(admission(notes, budget, seq![dup]) == admission(notes, budget, Seq::<Note>::empty()));
    assert((seq![dup] + rest).drop_first() =~= rest);
    assert((seq![dup] + rest)[0] == dup);
}

/// Admission is order-sensitive: once a new candidate does not fit, the call
/// ends there and no later candidate is considered, even one that would fit.
pub proof fn lemma_first_misfit_ends_admission(
    notes: Seq<Note>,
    budget: nat,
    misfit: Note,
    rest: Seq<Note>,
)
    requires
        !holds_key(notes, key_of(misfit)),
        total_size(notes) + note_size(misfit) > budget,
    ensures
        admission(notes, budget, seq![misfit] + rest) == (notes, true),
{
    assert((seq![misfit] + rest)[0] == misfit);
}

/// An insertion-ordered, deduplicated collection of notes whose summed size
/// estimate never exceeds a byte budget fixed at construction. It only grows:
/// once full it reports so and never evicts.
pub struct BoundedNoteStore {
    notes: Vec<Note>,
    total: usize,
    budget: usize,
}

impl View for BoundedNoteStore {
    type V = Seq<Note>;

    closed spec fn view(&self) -> Seq<Note> {
        self.notes@
    }
}

impl BoundedNoteStore {
    /// The byte budget.
    pub closed spec fn budget(&self) -> nat {
        self.budget as nat
    }

    /// The running total that the store keeps of its notes' sizes.
    pub closed spec fn recorded_total(&self) -> nat {
        self.total as nat
    }

    /// Well-formedness: ids are unique, the running total is the sum of the
    /// notes' sizes, and it stays within the budget.
    pub open spec fn wf(&self) -> bool {
        &&& keys_unique(self@)
        &&& self.recorded_total() == total_size(self@)
        &&& total_size(self@) <= self.budget()
        &&& self.budget() <= usize::MAX
    }

    /// An empty store with a budget of `budget` bytes.
    pub fn with_budget_bytes(budget: usize) -> (r: Self)
        ensures
            r.wf(),
            r@ == Seq::<Note>::empty(),
            r.budget() == budget,
    {
        BoundedNoteStore { notes: Vec::new(), total: 0, budget }
    }

    /// An empty store whose budget is `cache_limit_mb` megabytes
    /// (1 MB = 1,048,576 bytes), capped at the largest `usize`.
    pub fn with_limit_mb(cache_limit_mb: u64) -> (r: Self)
        ensures
            r.wf(),
            r@ == Seq::<Note>::empty(),
            r.budget() == budget_for_mb(cache_limit_mb),
    {
        let bytes = (cache_limit_mb as u128) * 1048576u128;
        let budget: usize = if bytes <= usize::MAX as u128 {
            bytes as usize
        } else {
            usize::MAX
        };
        Self::with_budget_bytes(budget)
    }

    /// Number of notes held.
    pub fn len(&self) -> (r: usize)
        ensures
            r == self@.len(),
    {
        self.notes.len()
    }

    /// Whether the store holds no note.
    pub fn is_empty(&self) -> (r: bool)
        ensures
            r == (self@.len() == 0),
    {
        self.notes.len() == 0
    }

    /// Sum of the size estimates of the notes held.
    pub fn total_bytes(&self) -> (r: usize)
        requires
            self.wf(),
        ensures
            r == total_size(self@),
    {
        self.total
    }

    /// The byte budget fixed at construction.
    pub fn budget_bytes(&self) -> (r: usize)
        ensures
            r == self.budget(),
    {
        self.budget
    }

    /// The note at position `i` in insertion order.
    pub fn get(&self, i: usize) -> (r: &Note)
        requires
            i < self@.len(),
        ensures
            *r == self@[i as int],
    {
        &self.notes[i]
    }

    /// Whether a note with note-scope id `note_id` is held.
    pub fn contains_id(&self, note_id: &String) -> (r: bool)
        ensures
            r == holds_key(self@, note_id@),
    {
        let mut i: usize = 0;
        while i < self.notes.len()
            invariant
                0 <= i <= self@.len(),
                forall|k: int| 0 <= k < i ==> key_of(#[trigger] self@[k]) != note_id@,
            decreases self@.len() - i,
        {
            if self.notes[i].id.note_id == *note_id {
                return true;
            }
            i += 1;
        }
        false
    }

    /// Offers `candidates` in order. A candidate whose note-scope id is already
    /// held is skipped. A new one is appended when it fits in what is left of
    /// the budget; the first new one that does not fit stops the call, and the
    /// remaining candidates are not considered. Returns how many notes were
    /// appended and whether the budget stopped the call.
    pub fn insert_many(&mut self, candidates: Vec<Note>) -> (r: (usize, bool))
        requires
            old(self).wf(),
        ensures
            final(self).wf(),
            final(self).budget() == old(self).budget(),
            final(self)@ == admission(old(self)@, old(self).budget(), candidates@).0,
            r.1 == admission(old(self)@, old(self).budget(), candidates@).1,
            final(self)@.len() == old(self)@.len() + r.0,
            old(self)@.is_prefix_of(final(self)@),
            total_size(final(self)@) <= final(self).budget(),
    {
        let ghost start = self@;
        let ghost budget = self.budget();
        let start_len = self.notes.len();
        let mut reached = false;
        let mut i: usize = 0;
        assert(candidates@.skip(0) =~= candidates@);
        while i < candidates.len() && !reached
            invariant
                self.wf(),
                self.budget() == budget,
                0 <= i <= candidates@.len(),
                start_len == start.len(),
                start.is_prefix_of(self@),
                !reached ==> admission(self@, budget, candidates@.skip(i as int)) == admission(
                    start,
                    budget,
                    candidates@,
                ),
                reached ==> (self@, true) == admission(start, budget, candidates@),
            decreases candidates@.len() - i, if reached { 0int } else { 1int },
        {
            let cand = &candidates[i];
            proof {
                assert(candidates@.skip(i as int)[0] == *cand);
                assert(candidates@.skip(i as int).drop_first() =~= candidates@.skip(i + 1));
            }
            if self.contains_id(&cand.id.note_id) {
                i += 1;
            } else {
                let size = estimate_note_size(cand);
                if size <= self.budget - self.total {
                    let ghost before = self@;
                    self.notes.push(cand.clone());
                    self.total = self.total + size;
                    proof {
                        lemma_total_size_push(before, *cand);
                        assert forall|a: int, b: int| 0 <= a < b < self@.len() implies key_of(
                            #[trigger] self@[a],
                        ) != key_of(#[trigger] self@[b]) by {
                            if b == before.len() {
                                assert(self@[a] == before[a]);
                            } else {
                                assert(self@[a] == before[a] && self@[b] == before[b]);
                            }
                        }
                    }
                    i += 1;
                } else {
                    reached = true;
                }
            }
        }
        proof {
            if !reached {
                assert(candidates@.skip(i as int) =~= Seq::<Note>::empty());
            }
        }
        (self.notes.len() - start_len, reached)
    }

    /// The notes from position `start` up to `end`, clamped to the store's
    /// bounds; empty when `start` is at or past the end.
    pub fn slice(&self, start: usize, end: usize) -> (r: Vec<Note>)
        ensures
            r@ == clamped_range(self@, start as int, end as int),
    {
        slice_notes(&self.notes, start, end)
    }

    /// The notes whose title or plain-text content contains `query`, compared
    /// case-insensitively, in store order. An empty query matches nothing.
    pub fn filter_by_substring(&self, query: &str) -> (r: Vec<Note>)
        ensures
            r@ == search_results(self@, query@),
            query@.len() == 0 ==> r@.len() == 0,
    {
        let mut out: Vec<Note> = Vec::new();
        if query.is_empty() {
            return out;
        }
        let folded = fold_case(query);
        let mut i: usize = 0;
        while i < self.notes.len()
            invariant
                0 <= i <= self@.len(),
                folded@ == lower_of(query@),
                out@ == matching(self@.take(i as int), folded@),
            decreases self@.len() - i,
        {
            proof {
                assert(self@.take(i + 1).drop_last() =~= self@.take(i as int));
                assert(self@.take(i + 1).last() == self@[i as int]);
            }
            if note_matches_folded(&self.notes[i], folded.as_str()) {
                out.push(self.notes[i].clone());
            }
            i += 1;
        }
        assert(self@.take(self@.len() as int) =~= self@);
        out
    }
}

} // verus!
