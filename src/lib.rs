//! Client-side engine of an interactive browser for a remote note collection:
//! a byte-bounded, deduplicated note cache, cursor-based paging over it, a
//! filtered search projection, a bulk-fetch controller and the event-driven
//! session state that ties them together.

pub mod bulk;
pub mod cache;
pub mod models;
pub mod search;
pub mod session;
pub mod text;
pub mod window;

pub use cache::{estimate_note_size, BoundedNoteStore};
pub use models::{Cacheable, Config, Note, NoteId};
