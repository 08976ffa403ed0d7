use attio_cli::bulk::{BulkEnd, BulkStep};
use attio_cli::cache::UsageBand;
use attio_cli::session::{command_for, Action, Command, Event, InputMode, Key, KeyPress, Notice, Session};
use attio_cli::window::{FetchRequest, PageArrival};
use attio_cli::{Note, NoteId};

fn note(id: &str, title: &str) -> Note {
    Note {
        id: NoteId {
            workspace_id: "ws".to_string(),
            note_id: id.to_string(),
        },
        parent_object: "people".to_string(),
        parent_record_id: "rec".to_string(),
        title: title.to_string(),
        content_plaintext: "body".to_string(),
        content_markdown: String::new(),
        created_at: "2024-01-01".to_string(),
    }
}

fn numbered(range: std::ops::Range<usize>) -> Vec<Note> {
    range.map(|i| note(&format!("n{:04}", i), "t")).collect()
}

fn key(k: Key) -> Event {
    Event::Key(KeyPress { key: k, ctrl: false })
}

fn ch(c: char) -> Event {
    key(Key::Char(c))
}

/// A session of 10-row pages (17 terminal rows) holding the first 30 notes.
fn browsing_session() -> Session {
    let mut s = Session::new(50, 17);
    let first = s.initial_request();
    assert_eq!(first, FetchRequest { limit: 10, offset: 0 });
    assert_eq!(s.receive_page(first, numbered(0..10)), PageArrival::Advanced);
    s.store.insert_many(numbered(10..30));
    s
}

#[test]
fn commands_depend_on_mode() {
    let plain = |k| KeyPress { key: k, ctrl: false };
    assert_eq!(command_for(InputMode::Normal, false, plain(Key::Char('q'))), Command::Quit);
    assert_eq!(command_for(InputMode::Search, false, plain(Key::Char('q'))), Command::Type('q'));
    assert_eq!(command_for(InputMode::Normal, false, plain(Key::Esc)), Command::Quit);
    assert_eq!(command_for(InputMode::Search, true, plain(Key::Esc)), Command::LeaveSearch);
    assert_eq!(command_for(InputMode::Normal, false, plain(Key::Char('/'))), Command::EnterSearch);
    assert_eq!(
        command_for(InputMode::Normal, false, KeyPress { key: Key::Char('a'), ctrl: true }),
        Command::FetchAll
    );
    assert_eq!(command_for(InputMode::Normal, false, plain(Key::Char('a'))), Command::Ignore);
    assert_eq!(
        command_for(InputMode::Search, false, KeyPress { key: Key::Char('a'), ctrl: true }),
        Command::Type('a')
    );
    assert_eq!(command_for(InputMode::Search, false, plain(Key::Backspace)), Command::Erase);
    assert_eq!(command_for(InputMode::Normal, false, plain(Key::Backspace)), Command::Ignore);
    assert_eq!(command_for(InputMode::Normal, false, plain(Key::Right)), Command::PageNext);
    assert_eq!(command_for(InputMode::Normal, true, plain(Key::Right)), Command::SearchNext);
    assert_eq!(command_for(InputMode::Search, false, plain(Key::Right)), Command::Ignore);
    assert_eq!(command_for(InputMode::Normal, false, plain(Key::Left)), Command::PagePrev);
    assert_eq!(command_for(InputMode::Search, true, plain(Key::Left)), Command::SearchPrev);
    assert_eq!(command_for(InputMode::Normal, false, plain(Key::Other)), Command::Ignore);
}

#[test]
fn quit_and_escape() {
    let mut s = Session::new(50, 17);
    assert_eq!(s.handle_event(ch('q')), Action::Quit);
    assert_eq!(s.handle_event(key(Key::Esc)), Action::Quit);
}

#[test]
fn search_mode_round_trip() {
    let mut s = browsing_session();
    assert_eq!(s.handle_event(ch('/')), Action::Nothing);
    assert_eq!(s.mode, InputMode::Search);
    s.handle_event(ch('q'));
    s.handle_event(ch('x'));
    assert_eq!(s.search.query, "qx");
    s.handle_event(key(Key::Backspace));
    assert_eq!(s.search.query, "q");
    assert_eq!(s.handle_event(key(Key::Esc)), Action::Nothing);
    assert_eq!(s.mode, InputMode::Normal);
    assert_eq!(s.search.query, "");
}

#[test]
fn right_moves_within_cache_then_fetches() {
    let mut s = browsing_session();
    assert_eq!(s.handle_event(key(Key::Right)), Action::Repage);
    assert_eq!(s.window.offset, 10);
    assert_eq!(s.handle_event(key(Key::Right)), Action::Repage);
    assert_eq!(s.window.offset, 20);
    let req = FetchRequest { limit: 10, offset: 30 };
    assert_eq!(s.handle_event(key(Key::Right)), Action::Fetch(req));
    assert_eq!(s.window.offset, 20);
    assert_eq!(s.receive_page(req, numbered(30..40)), PageArrival::Advanced);
    assert_eq!(s.window.offset, 30);
    assert!(s.notice.is_none());
}

#[test]
fn left_never_fetches() {
    let mut s = browsing_session();
    s.handle_event(key(Key::Right));
    s.handle_event(key(Key::Right));
    let len = s.store.len();
    assert_eq!(s.handle_event(key(Key::Left)), Action::Repage);
    assert_eq!(s.window.offset, 10);
    assert_eq!(s.handle_event(key(Key::Left)), Action::Repage);
    assert_eq!(s.handle_event(key(Key::Left)), Action::Nothing);
    assert_eq!(s.window.offset, 0);
    assert_eq!(s.store.len(), len);
}

#[test]
fn resize_changes_limit_only() {
    let mut s = browsing_session();
    s.handle_event(key(Key::Right));
    let len = s.store.len();
    assert_eq!(s.handle_event(Event::Resize(12)), Action::Nothing);
    assert_eq!(s.window.limit, 5);
    assert_eq!(s.window.offset, 10);
    assert_eq!(s.store.len(), len);
    let view = s.view();
    assert_eq!(view.notes.len(), 5);
    assert_eq!(view.notes[0].id.note_id, "n0010");
    assert_eq!(view.page, 3);
}

#[test]
fn search_pages_over_matches() {
    let mut s = browsing_session();
    s.store.insert_many(vec![note("x1", "Alpha one"), note("x2", "alpha two")]);
    s.handle_event(ch('/'));
    for c in "ALPHA".chars() {
        s.handle_event(ch(c));
    }
    let view = s.view();
    assert_eq!(view.total_matches, Some(2));
    assert_eq!(view.notes.len(), 2);
    assert_eq!(s.handle_event(key(Key::Right)), Action::Nothing);
    assert_eq!(s.search.offset, 0);
}

#[test]
fn fetch_all_runs_bulk_controller() {
    let mut s = Session::new(50, 17);
    let req = FetchRequest { limit: 50, offset: 0 };
    assert_eq!(
        s.handle_event(Event::Key(KeyPress { key: Key::Char('a'), ctrl: true })),
        Action::FetchAll(req)
    );
    assert!(s.bulk.active);
    assert_eq!(
        s.receive_bulk_page(numbered(0..50)),
        BulkStep::Continue(FetchRequest { limit: 50, offset: 50 })
    );
    assert_eq!(s.receive_bulk_page(numbered(50..60)), BulkStep::Finished(BulkEnd::EndOfData));
    assert!(!s.bulk.active);
    assert_eq!(s.store.len(), 60);
    assert!(s.notice.is_none());
}

#[test]
fn failures_become_notices() {
    let mut s = browsing_session();
    s.fetch_failed("boom".to_string());
    assert!(matches!(&s.notice, Some(Notice::FetchFailed(m)) if m == "boom"));
    assert_eq!(s.bulk_failed("down".to_string()), BulkStep::Finished(BulkEnd::Failed));
    assert!(matches!(&s.notice, Some(Notice::BulkFetchFailed(m)) if m == "down"));
    assert_eq!(s.store.len(), 30);
}

#[test]
fn bulk_budget_becomes_notice() {
    let mut s = Session::new(0, 17);
    assert_eq!(s.receive_bulk_page(numbered(0..50)), BulkStep::Finished(BulkEnd::BudgetReached));
    assert!(matches!(s.notice, Some(Notice::BulkCacheFull)));
    let req = FetchRequest { limit: 10, offset: 0 };
    assert_eq!(s.receive_page(req, numbered(0..10)), PageArrival::CacheFull);
    assert!(matches!(s.notice, Some(Notice::CacheFull)));
    assert_eq!(s.usage(), UsageBand::Critical);
}

#[test]
fn usage_of_fresh_session_is_low() {
    let s = browsing_session();
    assert_eq!(s.usage(), UsageBand::Low);
}
