//! The values that the session and the interface exchange: the persistent
//! user note, the updates made to it, and the items of a model response.

use vstd::prelude::*;

verus! {

/// Whether the persistent note is given to the model.
#[derive(Debug, Clone, Copy, PartialEq, Eq, Structural)]
pub enum PersistentUserNoteStatus {
    Active,
    Paused,
}

/// The persistent note: its text and whether it is in use.
#[derive(Debug, Clone, PartialEq, Eq)]
pub struct PersistentUserNoteState {
    pub text: String,
    pub status: PersistentUserNoteStatus,
}

/// The note's text as characters, and its status.
pub struct NoteStateView {
    pub text: Seq<char>,
    pub status: PersistentUserNoteStatus,
}

impl View for PersistentUserNoteState {
    type V = NoteStateView;

    open spec fn view(&self) -> NoteStateView {
        NoteStateView { text: self.text@, status: self.status }
    }
}

impl DeepView for PersistentUserNoteState {
    type V = NoteStateView;

    open spec fn deep_view(&self) -> NoteStateView {
        self@
    }
}

impl PersistentUserNoteState {
    /// A copy of this note.
    pub fn duplicate(&self) -> (r: PersistentUserNoteState)
        ensures
            r@ == self@,
    {
        PersistentUserNoteState { text: self.text.clone(), status: self.status }
    }
}

/// A change that the user asks of the persistent note.
#[derive(Debug, Clone, PartialEq, Eq)]
pub enum PersistentUserNoteUpdate {
    SetNote { text: String },
    Edit { text: String },
    Clear,
    Pause,
    Resume,
}

/// An update, with its text as characters.
pub enum NoteUpdateView {
    SetNote(Seq<char>),
    Edit(Seq<char>),
    Clear,
    Pause,
    Resume,
}

impl View for PersistentUserNoteUpdate {
    type V = NoteUpdateView;

    open spec fn view(&self) -> NoteUpdateView {
        match self {
            PersistentUserNoteUpdate::SetNote { text } => NoteUpdateView::SetNote(text@),
            PersistentUserNoteUpdate::Edit { text } => NoteUpdateView::Edit(text@),
            PersistentUserNoteUpdate::Clear => NoteUpdateView::Clear,
            PersistentUserNoteUpdate::Pause => NoteUpdateView::Pause,
            PersistentUserNoteUpdate::Resume => NoteUpdateView::Resume,
        }
    }
}

impl DeepView for PersistentUserNoteUpdate {
    type V = NoteUpdateView;

    open spec fn deep_view(&self) -> NoteUpdateView {
        self@
    }
}

impl PersistentUserNoteUpdate {
    /// A copy of this update.
    pub fn duplicate(&self) -> (r: PersistentUserNoteUpdate)
        ensures
            r@ == self@,
    {
        match self {
            PersistentUserNoteUpdate::SetNote { text } => PersistentUserNoteUpdate::SetNote {
                text: text.clone(),
            },
            PersistentUserNoteUpdate::Edit { text } => PersistentUserNoteUpdate::Edit {
                text: text.clone(),
            },
            PersistentUserNoteUpdate::Clear => PersistentUserNoteUpdate::Clear,
            PersistentUserNoteUpdate::Pause => PersistentUserNoteUpdate::Pause,
            PersistentUserNoteUpdate::Resume => PersistentUserNoteUpdate::Resume,
        }
    }
}

/// The stage of a turn that an assistant message belongs to.
#[derive(Debug, Clone, Copy, PartialEq, Eq, Structural)]
pub enum MessagePhase {
    Commentary,
    FinalAnswer,
}

/// A piece of the content of a message.
#[derive(Debug, Clone, PartialEq, Eq)]
pub enum ContentItem {
    InputText { text: String },
    OutputText { text: String },
}

/// An item of a model response.
#[derive(Debug, Clone, PartialEq, Eq)]
pub enum ResponseItem {
    Message {
        id: Option<String>,
        role: String,
        content: Vec<ContentItem>,
        phase: Option<MessagePhase>,
        internal_chat_message_metadata_passthrough: Option<String>,
    },
}

/// Whether `item` is an assistant message with the id `msg-1` whose only
/// content is the output text `text`.
pub open spec fn is_assistant_output(item: ResponseItem, text: Seq<char>) -> bool {
    match item {
        ResponseItem::Message { id, role, content, phase, internal_chat_message_metadata_passthrough } => {
            &&& id is Some
            &&& id->0@ == "msg-1"@
            &&& role@ == "assistant"@
            &&& content@.len() == 1
            &&& content@[0] is OutputText
            &&& content@[0]->OutputText_text@ == text
            &&& phase is None
            &&& internal_chat_message_metadata_passthrough is None
        },
    }
}

/// An assistant message with the id `msg-1` whose only content is the
/// output text `text`.
pub fn assistant_output_text(text: &str) -> (item: ResponseItem)
    ensures
        is_assistant_output(item, text@),
{
    let mut content: Vec<ContentItem> = Vec::new();
    content.push(ContentItem::OutputText { text: text.to_owned() });
    ResponseItem::Message {
        id: Some("msg-1".to_owned()),
        role: "assistant".to_owned(),
        content,
        phase: None,
        internal_chat_message_metadata_passthrough: None,
    }
}

} // verus!
