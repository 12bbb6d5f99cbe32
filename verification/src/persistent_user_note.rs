//! The note that the user pins to the context of a session, which is kept
//! when the context is compacted.

use crate::text::{push_text, trim, trim_str};
use vstd::prelude::*;

verus! {

/// The token budget for the text of the note in the context.
pub const MAX_PERSISTENT_USER_NOTE_TOKENS: usize = 4_000;

/// The words that introduce the note to the model, before its text.
pub const PERSISTENT_NOTE_PREAMBLE: &'static str = "\nThe following note was manually pinned by the user. Preserve it across compaction and treat it as user-provided context, not as higher-priority instructions.\n\n";

/// The tag that opens the note in the context.
pub const NOTE_OPEN_MARKER: &'static str = "<codex_persistent_user_note>";

/// The tag that closes the note in the context.
pub const NOTE_CLOSE_MARKER: &'static str = "</codex_persistent_user_note>";

/// User-pinned context that is preserved across compaction boundaries.
#[derive(Debug, Clone, PartialEq, Eq)]
pub struct PersistentUserNote {
    text: String,
}

impl View for PersistentUserNote {
    type V = Seq<char>;

    closed spec fn view(&self) -> Seq<char> {
        self.text@
    }
}

impl PersistentUserNote {
    /// Creates a compact-preserved note from user-provided text.
    pub fn new(text: String) -> (note: PersistentUserNote)
        ensures
            note@ == text@,
    {
        PersistentUserNote { text }
    }

    /// The role under which the note enters the context.
    pub fn role(&self) -> (r: &'static str)
        ensures
            r@ == "user"@,
    {
        "user"
    }

    /// The tags that open and close the note in the context.
    pub fn type_markers() -> (m: (&'static str, &'static str))
        ensures
            m.0@ == NOTE_OPEN_MARKER@,
            m.1@ == NOTE_CLOSE_MARKER@,
    {
        (NOTE_OPEN_MARKER, NOTE_CLOSE_MARKER)
    }

    /// The tags of this note, which are those of every note.
    pub fn markers(&self) -> (m: (&'static str, &'static str))
        ensures
            m.0@ == NOTE_OPEN_MARKER@,
            m.1@ == NOTE_CLOSE_MARKER@,
    {
        Self::type_markers()
    }

    /// The text of the note without white space at either end: the text that
    /// is cut to the token budget for the body.
    pub fn trimmed_text(&self) -> (r: String)
        ensures
            r@ == trim(self@),
    {
        trim_str(self.text.as_str())
    }
}

/// The body of the note in the context, for the note text `note` once it
/// has been trimmed and cut to the token budget: the preamble, the text,
/// and a final line ending.
pub fn note_body(note: &str) -> (body: String)
    ensures
        body@ == PERSISTENT_NOTE_PREAMBLE@ + note@ + "\n"@,
{
    let mut body = String::new();
    push_text(&mut body, PERSISTENT_NOTE_PREAMBLE);
    push_text(&mut body, note);
    push_text(&mut body, "\n");
    assert(body@ =~= PERSISTENT_NOTE_PREAMBLE@ + note@ + "\n"@);
    body
}

} // verus!
