use attio_cli::cache::{usage_band, UsageBand};
use attio_cli::{estimate_note_size, BoundedNoteStore, Note, NoteId};

fn note(id: &str, title: &str, content: &str) -> Note {
    Note {
        id: NoteId {
            workspace_id: "ws".to_string(),
            note_id: id.to_string(),
        },
        parent_object: "people".to_string(),
        parent_record_id: "rec".to_string(),
        title: title.to_string(),
        content_plaintext: content.to_string(),
        content_markdown: String::new(),
        created_at: "2024-01-01".to_string(),
    }
}

fn note_of_size(id: &str, bytes: usize) -> Note {
    let mut n = note(id, "", "");
    let base = estimate_note_size(&n);
    n.content_plaintext = "x".repeat(bytes - base);
    assert_eq!(estimate_note_size(&n), bytes);
    n
}

#[test]
fn insert_appends_in_order_and_tracks_total() {
    let mut store = BoundedNoteStore::with_budget_bytes(1_000_000);
    let a = note("a", "A", "alpha");
    let b = note("b", "B", "beta");
    let expected = estimate_note_size(&a) + estimate_note_size(&b);
    let (added, reached) = store.insert_many(vec![a, b]);
    assert_eq!((added, reached), (2, false));
    assert_eq!(store.len(), 2);
    assert_eq!(store.total_bytes(), expected);
    assert_eq!(store.get(0).id.note_id, "a");
    assert_eq!(store.get(1).id.note_id, "b");
}

#[test]
fn duplicate_id_changes_neither_len_nor_total() {
    let mut store = BoundedNoteStore::with_budget_bytes(1_000_000);
    store.insert_many(vec![note("a", "A", "one")]);
    let len = store.len();
    let total = store.total_bytes();
    let (added, reached) = store.insert_many(vec![note("a", "Other title", "much longer content")]);
    assert_eq!((added, reached), (0, false));
    assert_eq!(store.len(), len);
    assert_eq!(store.total_bytes(), total);
    assert_eq!(store.get(0).title, "A");
}

#[test]
fn dedup_compares_note_scope_id_only() {
    let mut store = BoundedNoteStore::with_budget_bytes(1_000_000);
    let mut other_ws = note("a", "A", "");
    other_ws.id.workspace_id = "ws_other".to_string();
    let (added, _) = store.insert_many(vec![note("a", "A", ""), other_ws]);
    assert_eq!(added, 1);
    assert!(store.contains_id(&"a".to_string()));
    assert!(!store.contains_id(&"b".to_string()));
}

#[test]
fn first_misfit_stops_the_batch() {
    let mb = 1024 * 1024;
    let mut store = BoundedNoteStore::with_limit_mb(12);
    assert_eq!(store.budget_bytes(), 12 * mb);
    let a = note_of_size("A", 10 * mb);
    let b = note_of_size("B", 5 * mb);
    let (added, reached) = store.insert_many(vec![a, b]);
    assert_eq!(added, 1);
    assert!(reached);
    assert_eq!(store.len(), 1);
    assert_eq!(store.get(0).id.note_id, "A");
    assert_eq!(store.total_bytes(), 10 * mb);
}

#[test]
fn misfit_stops_even_when_a_later_small_note_fits() {
    let mut store = BoundedNoteStore::with_budget_bytes(1000);
    let big = note_of_size("big", 900);
    let small = note_of_size("small", 300);
    let tiny = note_of_size("tiny", 250);
    let (added, reached) = store.insert_many(vec![small, big, tiny]);
    assert_eq!((added, reached), (1, true));
    assert_eq!(store.total_bytes(), 300);
}

#[test]
fn exact_fit_is_admitted() {
    let mut store = BoundedNoteStore::with_budget_bytes(600);
    let (added, reached) = store.insert_many(vec![note_of_size("a", 300), note_of_size("b", 300)]);
    assert_eq!((added, reached), (2, false));
    assert_eq!(store.total_bytes(), store.budget_bytes());
    let (added, reached) = store.insert_many(vec![note_of_size("c", 300)]);
    assert_eq!((added, reached), (0, true));
}

#[test]
fn total_never_exceeds_budget() {
    let mut store = BoundedNoteStore::with_budget_bytes(5000);
    for round in 0..10 {
        let batch: Vec<Note> = (0..7)
            .map(|i| note_of_size(&format!("r{}n{}", round, i), 300 + 37 * i))
            .collect();
        store.insert_many(batch);
        assert!(store.total_bytes() <= store.budget_bytes());
    }
}

#[test]
fn zero_budget_admits_nothing() {
    let mut store = BoundedNoteStore::with_limit_mb(0);
    assert_eq!(store.budget_bytes(), 0);
    let (added, reached) = store.insert_many(vec![note("a", "", "")]);
    assert_eq!((added, reached), (0, true));
    assert!(store.is_empty());
}

#[test]
fn huge_megabyte_limit_saturates() {
    let store = BoundedNoteStore::with_limit_mb(u64::MAX);
    assert_eq!(store.budget_bytes(), usize::MAX);
}

#[test]
fn empty_batch_changes_nothing() {
    let mut store = BoundedNoteStore::with_budget_bytes(100);
    assert_eq!(store.insert_many(Vec::new()), (0, false));
    assert_eq!(store.len(), 0);
    assert_eq!(store.total_bytes(), 0);
}

#[test]
fn slice_is_clamped() {
    let mut store = BoundedNoteStore::with_budget_bytes(1_000_000);
    store.insert_many((0..5).map(|i| note(&format!("n{}", i), "", "")).collect());
    let ids = |v: Vec<Note>| v.into_iter().map(|n| n.id.note_id).collect::<Vec<_>>();
    assert_eq!(ids(store.slice(1, 3)), vec!["n1", "n2"]);
    assert_eq!(ids(store.slice(3, 100)), vec!["n3", "n4"]);
    assert!(store.slice(5, 10).is_empty());
    assert!(store.slice(7, 2).is_empty());
}

#[test]
fn filter_is_case_insensitive_on_title_or_content() {
    let mut store = BoundedNoteStore::with_budget_bytes(1_000_000);
    store.insert_many(vec![
        note("1", "Meeting with ACME", "agenda"),
        note("2", "Groceries", "milk, eggs"),
        note("3", "Call", "discuss acme contract"),
        note("4", "Misc", "nothing"),
    ]);
    let found: Vec<String> = store
        .filter_by_substring("AcMe")
        .into_iter()
        .map(|n| n.id.note_id)
        .collect();
    assert_eq!(found, vec!["1", "3"]);
    assert!(store.filter_by_substring("zzz").is_empty());
}

#[test]
fn empty_query_matches_nothing() {
    let mut store = BoundedNoteStore::with_budget_bytes(1_000_000);
    store.insert_many(vec![note("1", "Anything", "at all")]);
    assert!(store.filter_by_substring("").is_empty());
}

#[test]
fn usage_bands() {
    assert_eq!(usage_band(0, 100), UsageBand::Low);
    assert_eq!(usage_band(69, 100), UsageBand::Low);
    assert_eq!(usage_band(70, 100), UsageBand::Elevated);
    assert_eq!(usage_band(89, 100), UsageBand::Elevated);
    assert_eq!(usage_band(90, 100), UsageBand::Critical);
    assert_eq!(usage_band(100, 100), UsageBand::Critical);
    assert_eq!(usage_band(0, 0), UsageBand::Critical);
    assert_eq!(usage_band(usize::MAX, usize::MAX), UsageBand::Critical);
}
