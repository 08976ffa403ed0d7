//! The state of one interactive browsing session and its reaction to each
//! input or resize event. The caller runs the loop: it polls an event, hands
//! it over, performs the action that comes back (a remote fetch, a quit), and
//! hands the outcome of a fetch back.

use vstd::prelude::*;

use crate::bulk::{BULK_PAGE_SIZE, BulkEnd, BulkFetchController, BulkStep, bulk_step};
use crate::cache::{
    BoundedNoteStore, UsageBand, admission, band_of, budget_for_mb, clamped_range, total_size,
    usage_band,
};
use crate::models::Note;
use crate::search::{SearchView, next_offset, prev_offset};
use crate::text::search_results;
use crate::window::{
    Advance, FetchRequest, PageArrival, PageView, PageWindow, advance_step, page_of, page_size_for,
    page_size_for_rows,
};

verus! {

/// Which keys are meaningful: browsing, or typing a query.
#[derive(Clone, Copy, PartialEq, Eq, Debug, Structural)]
pub enum InputMode {
    Normal,
    Search,
}

/// A key, as far as the session tells keys apart.
#[derive(Clone, Copy, PartialEq, Eq, Debug, Structural)]
pub enum Key {
    Char(char),
    Esc,
    Backspace,
    Left,
    Right,
    Other,
}

/// A key press, with whether Control was held.
#[derive(Clone, Copy, PartialEq, Eq, Debug, Structural)]
pub struct KeyPress {
    pub key: Key,
    pub ctrl: bool,
}

/// An input event: a key press, or a terminal resized to a number of rows.
#[derive(Clone, Copy, PartialEq, Eq, Debug, Structural)]
pub enum Event {
    Key(KeyPress),
    Resize(u16),
}

/// What a key press asks for in the current mode.
#[derive(Clone, Copy, PartialEq, Eq, Debug, Structural)]
pub enum Command {
    Quit,
    EnterSearch,
    LeaveSearch,
    FetchAll,
    Type(char),
    Erase,
    SearchNext,
    SearchPrev,
    PageNext,
    PagePrev,
    Ignore,
}

/// What the caller must do after an event.
#[derive(Clone, Copy, PartialEq, Eq, Debug, Structural)]
pub enum Action {
    /// Redraw only.
    Nothing,
    /// The page changed: clear the screen, then redraw.
    Repage,
    /// End the session.
    Quit,
    /// Fetch this page for the window, then hand it to `receive_page`.
    Fetch(FetchRequest),
    /// A bulk fetch started: fetch this page, then hand it to
    /// `receive_bulk_page`.
    FetchAll(FetchRequest),
}

/// A status to show in place of the notes.
pub enum Notice {
    /// A fetched page did not fit in the cache.
    CacheFull,
    /// The bulk fetch stopped on a full cache.
    BulkCacheFull,
    /// A fetch for the window failed with this message.
    FetchFailed(String),
    /// The bulk fetch failed with this message.
    BulkFetchFailed(String),
}

/// The command that key press `k` stands for in mode `mode`, with a
/// non-empty query when `searching`.
pub open spec fn command_of(mode: InputMode, searching: bool, k: KeyPress) -> Command {
    let normal = mode == InputMode::Normal;
    match k.key {
        Key::Char(c) => {
            if c == 'q' && normal {
                Command::Quit
            } else if c == '/' && normal {
                Command::EnterSearch
            } else if c == 'a' && normal && k.ctrl {
                Command::FetchAll
            } else if !normal {
                Command::Type(c)
            } else {
                Command::Ignore
            }
        },
        Key::Esc => if normal {
            Command::Quit
        } else {
            Command::LeaveSearch
        },
        Key::Backspace => if normal {
            Command::Ignore
        } else {
            Command::Erase
        },
        Key::Right => if searching {
            Command::SearchNext
        } else if normal {
            Command::PageNext
        } else {
            Command::Ignore
        },
        Key::Left => if searching {
            Command::SearchPrev
        } else if normal {
            Command::PagePrev
        } else {
            Command::Ignore
        },
        Key::Other => Command::Ignore,
    }
}

/// The command that key press `k` stands for.
pub fn command_for(mode: InputMode, searching: bool, k: KeyPress) -> (r: Command)
    ensures
        r == command_of(mode, searching, k),
{
    let normal = mode == InputMode::Normal;
    match k.key {
        Key::Char(c) => {
            if c == 'q' && normal {
                Command::Quit
            } else if c == '/' && normal {
                Command::EnterSearch
            } else if c == 'a' && normal && k.ctrl {
                Command::FetchAll
            } else if !normal {
                Command::Type(c)
            } else {
                Command::Ignore
            }
        },
        Key::Esc => if normal {
            Command::Quit
        } else {
            Command::LeaveSearch
        },
        Key::Backspace => if normal {
            Command::Ignore
        } else {
            Command::Erase
        },
        Key::Right => if searching {
            Command::SearchNext
        } else if normal {
            Command::PageNext
        } else {
            Command::Ignore
        },
        Key::Left => if searching {
            Command::SearchPrev
        } else if normal {
            Command::PagePrev
        } else {
            Command::Ignore
        },
        Key::Other => Command::Ignore,
    }
}

/// One browsing session: the cache, the browsing window, the search, the
/// input mode, the status shown, and the bulk fetch.
pub struct Session {
    pub store: BoundedNoteStore,
    pub window: PageWindow,
    pub search: SearchView,
    pub mode: InputMode,
    pub notice: Option<Notice>,
    pub bulk: BulkFetchController,
}

impl Session {
    /// The store and the window are well-formed.
    pub open spec fn wf(&self) -> bool {
        self.store.wf() && self.window.wf()
    }

    /// The command that `k` stands for now.
    pub open spec fn command(&self, k: KeyPress) -> Command {
        command_of(self.mode, self.search.query@.len() > 0, k)
    }

    /// A session with an empty cache of `cache_limit_mb` megabytes, a page
    /// size fitted to `rows` terminal rows, in normal mode.
    pub fn new(cache_limit_mb: u64, rows: u16) -> (r: Self)
        ensures
            r.wf(),
            r.store@ == Seq::<Note>::empty(),
            r.store.budget() == budget_for_mb(cache_limit_mb),
            r.window.offset == 0,
            r.window.limit == page_size_for(rows),
            r.window.last_fetched == 0,
            r.search.query@ == Seq::<char>::empty(),
            r.search.offset == 0,
            r.mode == InputMode::Normal,
            r.notice.is_none(),
            !r.bulk.active,
    {
        Session {
            store: BoundedNoteStore::with_limit_mb(cache_limit_mb),
            window: PageWindow::new(page_size_for_rows(rows)),
            search: SearchView::new(),
            mode: InputMode::Normal,
            notice: None,
            bulk: BulkFetchController { active: false, cursor: 0 },
        }
    }

    /// The first request of the session: one page at the start.
    pub fn initial_request(&self) -> (r: FetchRequest)
        ensures
            r == (FetchRequest { limit: self.window.limit, offset: 0 }),
    {
        FetchRequest { limit: self.window.limit, offset: 0 }
    }

    /// Reacts to one event. Nothing here fetches: a fetch the event needs
    /// comes back as the action, and the cached notes stay as they are.
    pub fn handle_event(&mut self, ev: Event) -> (r: Action)
        requires
            old(self).wf(),
        ensures
            final(self).wf(),
            final(self).store@ == old(self).store@,
            final(self).store.budget() == old(self).store.budget(),
            final(self).notice == old(self).notice,
            match ev {
                Event::Resize(rows) => {
                    &&& r == Action::Nothing
                    &&& final(self).window.limit == page_size_for(rows)
                    &&& final(self).window.offset == old(self).window.offset
                    &&& final(self).window.last_fetched == old(self).window.last_fetched
                    &&& final(self).search == old(self).search
                    &&& final(self).mode == old(self).mode
                    &&& final(self).bulk == old(self).bulk
                },
                Event::Key(k) => Self::key_effect(*old(self), *final(self), old(self).command(k), r),
            },
            match ev {
                Event::Key(k) => k.key == Key::Left ==> (r == Action::Nothing || r
                    == Action::Repage),
                Event::Resize(_) => r == Action::Nothing,
            },
    {
        match ev {
            Event::Resize(rows) => {
                let limit = page_size_for_rows(rows);
                self.window.on_resize(limit);
                Action::Nothing
            },
            Event::Key(k) => {
                let cmd = command_for(self.mode, self.search.is_active(), k);
                self.run_command(cmd)
            },
        }
    }

    /// How the state `s` becomes `t`, with action `r`, on command `cmd`.
    pub open spec fn key_effect(s: Session, t: Session, cmd: Command, r: Action) -> bool {
        let limit = s.window.limit;
        let same_window = t.window == s.window;
        let same_search = t.search == s.search;
        &&& t.window.limit == limit
        &&& t.window.last_fetched == s.window.last_fetched
        &&& (cmd != Command::FetchAll ==> t.bulk == s.bulk)
        &&& match cmd {
            Command::Quit => r == Action::Quit && same_window && same_search && t.mode == s.mode,
            Command::EnterSearch => {
                &&& r == Action::Nothing
                &&& same_window
                &&& t.mode == InputMode::Search
                &&& t.search.query == s.search.query
                &&& t.search.offset == 0
            },
            Command::LeaveSearch => {
                &&& r == Action::Nothing
                &&& same_window
                &&& t.mode == InputMode::Normal
                &&& t.search.query@ == Seq::<char>::empty()
                &&& t.search.offset == 0
            },
            Command::FetchAll => {
                &&& r == Action::FetchAll(FetchRequest { limit: BULK_PAGE_SIZE, offset: 0 })
                &&& same_window
                &&& same_search
                &&& t.mode == s.mode
                &&& t.bulk.active
                &&& t.bulk.cursor == 0
            },
            Command::Type(c) => {
                &&& r == Action::Nothing
                &&& same_window
                &&& t.mode == s.mode
                &&& t.search.query@ == s.search.query@.push(c)
                &&& t.search.offset == 0
            },
            Command::Erase => {
                &&& r == Action::Nothing
                &&& same_window
                &&& t.mode == s.mode
                &&& t.search.query@ == (if s.search.query@.len() > 0 {
                    s.search.query@.drop_last()
                } else {
                    s.search.query@
                })
                &&& t.search.offset == 0
            },
            Command::SearchNext => {
                let total = search_results(s.store@, s.search.query@).len() as usize;
                &&& same_window
                &&& t.mode == s.mode
                &&& t.search.query == s.search.query
                &&& t.search.offset == next_offset(s.search.offset, limit, total)
                &&& r == (if t.search.offset != s.search.offset {
                    Action::Repage
                } else {
                    Action::Nothing
                })
            },
            Command::SearchPrev => {
                &&& same_window
                &&& t.mode == s.mode
                &&& t.search.query == s.search.query
                &&& t.search.offset == prev_offset(s.search.offset, limit)
                &&& r == (if t.search.offset != s.search.offset {
                    Action::Repage
                } else {
                    Action::Nothing
                })
            },
            Command::PageNext => {
                let step = advance_step(
                    s.window.offset,
                    limit,
                    s.window.last_fetched,
                    s.store@.len(),
                );
                &&& same_search
                &&& t.mode == s.mode
                &&& match step {
                    Advance::Moved => r == Action::Repage && t.window.offset == s.window.offset
                        + limit,
                    Advance::Fetch(req) => r == Action::Fetch(req) && t.window.offset
                        == s.window.offset,
                    Advance::AtEnd => r == Action::Nothing && t.window.offset == s.window.offset,
                }
            },
            Command::PagePrev => {
                &&& same_search
                &&& t.mode == s.mode
                &&& t.window.offset == prev_offset(s.window.offset, limit)
                &&& r == (if t.window.offset != s.window.offset {
                    Action::Repage
                } else {
                    Action::Nothing
                })
            },
            Command::Ignore => r == Action::Nothing && same_window && same_search && t.mode
                == s.mode,
        }
    }

    /// Takes in the page fetched for the window's `request`: the store admits
    /// it, the window moves to the requested offset when the store now reaches
    /// past it, and the status says why it did not otherwise.
    pub fn receive_page(&mut self, request: FetchRequest, page: Vec<Note>) -> (r: PageArrival)
        requires
            old(self).wf(),
        ensures
            final(self).wf(),
            final(self).store.budget() == old(self).store.budget(),
            final(self).store@ == admission(old(self).store@, old(self).store.budget(), page@).0,
            r == (if request.offset < final(self).store@.len() {
                PageArrival::Advanced
            } else if admission(old(self).store@, old(self).store.budget(), page@).1 {
                PageArrival::CacheFull
            } else {
                PageArrival::Exhausted
            }),
            final(self).window.last_fetched == page@.len(),
            final(self).window.limit == old(self).window.limit,
            final(self).window.offset == (if r == PageArrival::Advanced {
                request.offset
            } else {
                old(self).window.offset
            }),
            final(self).notice == (match r {
                PageArrival::Advanced => None,
                PageArrival::CacheFull => Some(Notice::CacheFull),
                PageArrival::Exhausted => old(self).notice,
            }),
            final(self).search == old(self).search,
            final(self).mode == old(self).mode,
            final(self).bulk == old(self).bulk,
    {
        let arrival = self.window.receive_page(&mut self.store, request, page);
        match arrival {
            PageArrival::Advanced => {
                self.notice = None;
            },
            PageArrival::CacheFull => {
                self.notice = Some(Notice::CacheFull);
            },
            PageArrival::Exhausted => {},
        }
        arrival
    }

    /// Records that a fetch for the window failed; nothing else changes.
    pub fn fetch_failed(&mut self, message: String)
        ensures
            final(self).notice == Some(Notice::FetchFailed(message)),
            final(self).store == old(self).store,
            final(self).window == old(self).window,
            final(self).search == old(self).search,
            final(self).mode == old(self).mode,
            final(self).bulk == old(self).bulk,
    {
        self.notice = Some(Notice::FetchFailed(message));
    }

    /// Takes in a page of the bulk fetch; says whether to go on, and with
    /// which request. A full cache ends it with a status.
    pub fn receive_bulk_page(&mut self, page: Vec<Note>) -> (r: BulkStep)
        requires
            old(self).wf(),
        ensures
            final(self).wf(),
            final(self).store.budget() == old(self).store.budget(),
            final(self).store@ == admission(old(self).store@, old(self).store.budget(), page@).0,
            r == bulk_step(
                old(self).bulk.cursor,
                page@.len(),
                admission(old(self).store@, old(self).store.budget(), page@).1,
            ),
            final(self).bulk.active == (r is Continue),
            final(self).notice == (if r == BulkStep::Finished(BulkEnd::BudgetReached) {
                Some(Notice::BulkCacheFull)
            } else {
                old(self).notice
            }),
            final(self).window == old(self).window,
            final(self).search == old(self).search,
            final(self).mode == old(self).mode,
    {
        let step = self.bulk.receive_page(&mut self.store, page);
        if step == BulkStep::Finished(BulkEnd::BudgetReached) {
            self.notice = Some(Notice::BulkCacheFull);
        }
        step
    }

    /// Ends the bulk fetch after a transport failure, with a status; the
    /// notes fetched so far stay.
    pub fn bulk_failed(&mut self, message: String) -> (r: BulkStep)
        ensures
            r == BulkStep::Finished(BulkEnd::Failed),
            !final(self).bulk.active,
            final(self).notice == Some(Notice::BulkFetchFailed(message)),
            final(self).store == old(self).store,
            final(self).window == old(self).window,
            final(self).search == old(self).search,
            final(self).mode == old(self).mode,
    {
        self.notice = Some(Notice::BulkFetchFailed(message));
        self.bulk.fail()
    }

    /// What the screen shows: with a non-empty query, the current page of
    /// search results and their count; otherwise the window's page of the
    /// cache. Reads the cache only, with the current page size.
    pub fn view(&self) -> (r: PageView)
        ensures
            self.search.query@.len() > 0 ==> {
                let found = search_results(self.store@, self.search.query@);
                &&& r.notes@ == clamped_range(
                    found,
                    self.search.offset as int,
                    self.search.offset + self.window.limit,
                )
                &&& r.page == page_of(self.search.offset, self.window.limit)
                &&& r.total_matches == Some(found.len() as usize)
            },
            self.search.query@.len() == 0 ==> {
                &&& r.notes@ == clamped_range(
                    self.store@,
                    self.window.offset as int,
                    self.window.offset + self.window.limit,
                )
                &&& r.page == page_of(self.window.offset, self.window.limit)
                &&& r.total_matches.is_none()
            },
    {
        if self.search.is_active() {
            self.search.view(&self.store, self.window.limit)
        } else {
            self.window.view(&self.store)
        }
    }

    /// Severity band of the cache's usage of its budget.
    pub fn usage(&self) -> (r: UsageBand)
        requires
            self.wf(),
        ensures
            r == band_of(total_size(self.store@), self.store.budget()),
    {
        usage_band(self.store.total_bytes(), self.store.budget_bytes())
    }

    fn run_command(&mut self, cmd: Command) -> (r: Action)
        requires
            old(self).wf(),
        ensures
            final(self).wf(),
            final(self).store@ == old(self).store@,
            final(self).store.budget() == old(self).store.budget(),
            final(self).notice == old(self).notice,
            Self::key_effect(*old(self), *final(self), cmd, r),
    {
        match cmd {
            Command::Quit => Action::Quit,
            Command::EnterSearch => {
                self.mode = InputMode::Search;
                self.search.rewind();
                Action::Nothing
            },
            Command::LeaveSearch => {
                self.mode = InputMode::Normal;
                self.search.clear();
                Action::Nothing
            },
            Command::FetchAll => {
                self.bulk = BulkFetchController::start();
                Action::FetchAll(self.bulk.request())
            },
            Command::Type(c) => {
                self.search.push_char(c);
                Action::Nothing
            },
            Command::Erase => {
                self.search.pop_char();
                Action::Nothing
            },
            Command::SearchNext => {
                let total = self.search.matches(&self.store).len();
                if self.search.next_page(total, self.window.limit) {
                    Action::Repage
                } else {
                    Action::Nothing
                }
            },
            Command::SearchPrev => {
                if self.search.prev_page(self.window.limit) {
                    Action::Repage
                } else {
                    Action::Nothing
                }
            },
            Command::PageNext => {
                match self.window.advance(self.store.len()) {
                    Advance::Moved => Action::Repage,
                    Advance::Fetch(req) => Action::Fetch(req),
                    Advance::AtEnd => Action::Nothing,
                }
            },
            Command::PagePrev => {
                let before = self.window.offset;
                self.window.retreat();
                if self.window.offset != before {
                    Action::Repage
                } else {
                    Action::Nothing
                }
            },
            Command::Ignore => Action::Nothing,
        }
    }
}

} // verus!
