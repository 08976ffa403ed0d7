use vstd::prelude::*;

use super::common::{Cacheable, CreateRequest, GetResponse, ListResponse};
use crate::cache::{estimate_note_size, note_size};

verus! {

/// Composite key of a note: the workspace scope and the note scope.
pub struct NoteId {
    pub workspace_id: String,
    pub note_id: String,
}

/// One note record as the remote service describes it.
pub struct Note {
    pub id: NoteId,
    pub parent_object: String,
    pub parent_record_id: String,
    pub title: String,
    pub content_plaintext: String,
    pub content_markdown: String,
    pub created_at: String,
}

/// Payload for creating a note.
pub struct CreateNoteData {
    pub parent_object: String,
    pub parent_record_id: String,
    pub title: String,
    pub format: String,
    pub content: String,
}

pub type ListNotesResponse = ListResponse<Note>;

pub type GetNoteResponse = GetResponse<Note>;

pub type CreateNoteRequest = CreateRequest<CreateNoteData>;

/// Path segment of the web app for records of `parent_object`: the plural
/// object names it knows take their singular form, others stay as they are.
pub open spec fn object_segment(parent_object: Seq<char>) -> Seq<char> {
    if parent_object == "people"@ {
        "person"@
    } else if parent_object == "companies"@ {
        "company"@
    } else {
        parent_object
    }
}

impl Note {
    /// Path segment of the web app for this note's parent object.
    pub fn parent_segment(&self) -> (r: String)
        ensures
            r@ == object_segment(self.parent_object@),
    {
        if self.parent_object == "people".to_owned() {
            "person".to_owned()
        } else if self.parent_object == "companies".to_owned() {
            "company".to_owned()
        } else {
            self.parent_object.clone()
        }
    }
}

impl Clone for NoteId {
    fn clone(&self) -> (r: Self)
        ensures
            r == *self,
    {
        NoteId { workspace_id: self.workspace_id.clone(), note_id: self.note_id.clone() }
    }
}

impl Clone for Note {
    fn clone(&self) -> (r: Self)
        ensures
            r == *self,
    {
        Note {
            id: self.id.clone(),
            parent_object: self.parent_object.clone(),
            parent_record_id: self.parent_record_id.clone(),
            title: self.title.clone(),
            content_plaintext: self.content_plaintext.clone(),
            content_markdown: self.content_markdown.clone(),
            created_at: self.created_at.clone(),
        }
    }
}

impl Cacheable for Note {
    open spec fn size_estimate(&self) -> nat {
        note_size(*self)
    }

    fn estimate_size_bytes(&self) -> (r: usize) {
        estimate_note_size(self)
    }
}

} // verus!
