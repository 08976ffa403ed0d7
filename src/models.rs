//! Records exchanged with the remote note service, and the client's
//! configuration.

pub mod common;
pub mod config;
pub mod note;

pub use common::{Cacheable, CreateRequest, GetResponse, IdentifyResponse, ListResponse};
pub use config::{choose_token, default_cache_limit_mb, pick_token, Config};
pub use note::{CreateNoteData, CreateNoteRequest, GetNoteResponse, ListNotesResponse, Note, NoteId};
