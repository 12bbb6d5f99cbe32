//! The persistent note as the chat interface shows and edits it: the
//! summary that the `/note` command prints, the editor it opens, and the
//! local update of the note with the messages that report it.
//!
//! The interface is held here as plain values: the note it knows of, the
//! cells it adds to the history, the updates it sends to the session, and
//! the prompt it shows. Drawing them on a terminal is left to the caller.

use crate::protocol::{
    NoteStateView,
    NoteUpdateView,
    PersistentUserNoteState,
    PersistentUserNoteStatus,
    PersistentUserNoteUpdate,
};
use crate::text::{
    join_text,
    first_nonblank,
    first_nonblank_line,
    is_blank,
    lemma_trim_idempotent,
    lines,
    str_is_blank,
    str_lines,
    string_views,
    trim,
    trim_str,
};
use vstd::prelude::*;

verus! {

/// The reply to an update that would leave the note empty.
pub const EMPTY_NOTE_MESSAGE: &'static str = "Persistent note must not be empty.";

/// The reply to an update that needs a note when there is none.
pub const NO_NOTE_MESSAGE: &'static str = "No note is currently set.";

/// The heading of the note summary.
pub const NOTE_HEADING: &'static str = "Note";

/// The commands offered when there is no note.
pub const COMMANDS_WITHOUT_NOTE: &'static str = "Commands: /note <text>, /note edit, /note pause, /note clear";

/// The commands offered while the note is active.
pub const COMMANDS_WHILE_ACTIVE: &'static str = "Commands: /note edit, /note pause, /note clear";

/// The commands offered while the note is paused.
pub const COMMANDS_WHILE_PAUSED: &'static str = "Commands: /note edit, /note resume, /note clear";

/// The title of the note editor.
pub const EDIT_PROMPT_TITLE: &'static str = "Edit note";

/// The placeholder of the note editor.
pub const EDIT_PROMPT_PLACEHOLDER: &'static str = "Type a persistent note and press Enter";

// ---------------------------------------------------------------------------
// Lines of styled text
// ---------------------------------------------------------------------------

/// How a piece of a line is drawn.
#[derive(Debug, Clone, Copy, PartialEq, Eq, Structural)]
pub enum SpanStyle {
    Plain,
    Bold,
    Dim,
}

/// A piece of a line, drawn in one style.
#[derive(Debug, PartialEq, Eq)]
pub struct Span {
    pub content: String,
    pub style: SpanStyle,
}

impl DeepView for Span {
    type V = (Seq<char>, SpanStyle);

    open spec fn deep_view(&self) -> (Seq<char>, SpanStyle) {
        (self.content@, self.style)
    }
}

/// A line of the history, made of styled pieces.
#[derive(Debug, PartialEq, Eq)]
pub struct Line {
    pub spans: Vec<Span>,
}

impl DeepView for Line {
    type V = Seq<(Seq<char>, SpanStyle)>;

    open spec fn deep_view(&self) -> Seq<(Seq<char>, SpanStyle)> {
        self.spans.deep_view()
    }
}

/// A line of one piece of text in one style.
pub open spec fn single(text: Seq<char>, style: SpanStyle) -> Seq<(Seq<char>, SpanStyle)> {
    seq![(text, style)]
}

/// A line of one piece of `text` in `style`.
pub fn styled_line(text: &str, style: SpanStyle) -> (line: Line)
    ensures
        line.deep_view() == single(text@, style),
{
    let mut spans: Vec<Span> = Vec::new();
    spans.push(Span { content: text.to_owned(), style });
    let line = Line { spans };
    assert(line.deep_view() =~= single(text@, style));
    line
}

/// The empty line.
pub fn empty_line() -> (line: Line)
    ensures
        line.deep_view() == Seq::<(Seq<char>, SpanStyle)>::empty(),
{
    let line = Line { spans: Vec::new() };
    assert(line.deep_view() =~= Seq::<(Seq<char>, SpanStyle)>::empty());
    line
}

// ---------------------------------------------------------------------------
// The state of the interface
// ---------------------------------------------------------------------------

/// A cell that the interface adds to its history.
#[derive(Debug, PartialEq, Eq)]
pub enum HistoryCell {
    /// Lines of plain history.
    Lines(Vec<Line>),
    /// An informational message, with an optional hint below it.
    Info { message: String, hint: Option<String> },
    /// An error message.
    Error(String),
}

/// The characters of an optional string.
pub open spec fn opt_string_view(s: Option<String>) -> Option<Seq<char>> {
    match s {
        Some(t) => Some(t@),
        None => None,
    }
}

/// A history cell, with its text as characters.
pub enum HistoryCellView {
    Lines(Seq<Seq<(Seq<char>, SpanStyle)>>),
    Info { message: Seq<char>, hint: Option<Seq<char>> },
    Error(Seq<char>),
}

impl DeepView for HistoryCell {
    type V = HistoryCellView;

    open spec fn deep_view(&self) -> HistoryCellView {
        match self {
            HistoryCell::Lines(lines) => HistoryCellView::Lines(lines.deep_view()),
            HistoryCell::Info { message, hint } => HistoryCellView::Info {
                message: message@,
                hint: opt_string_view(*hint),
            },
            HistoryCell::Error(message) => HistoryCellView::Error(message@),
        }
    }
}

/// The prompt in which the user edits the note.
#[derive(Debug, PartialEq, Eq)]
pub struct NoteEditPrompt {
    pub title: String,
    pub placeholder: String,
    pub initial_text: String,
    pub context_label: Option<String>,
}

/// The prompt's title, placeholder and initial text as characters, and
/// whether it has a context label.
pub struct NoteEditPromptView {
    pub title: Seq<char>,
    pub placeholder: Seq<char>,
    pub initial_text: Seq<char>,
    pub has_context_label: bool,
}

impl DeepView for NoteEditPrompt {
    type V = NoteEditPromptView;

    open spec fn deep_view(&self) -> NoteEditPromptView {
        NoteEditPromptView {
            title: self.title@,
            placeholder: self.placeholder@,
            initial_text: self.initial_text@,
            has_context_label: self.context_label is Some,
        }
    }
}

impl NoteEditPrompt {
    /// The update that the prompt sends when the user submits `text`.
    pub fn submit(&self, text: String) -> (update: PersistentUserNoteUpdate)
        ensures
            update@ == NoteUpdateView::Edit(text@),
    {
        PersistentUserNoteUpdate::Edit { text }
    }
}

/// What the chat interface holds of the persistent note, and what it has
/// shown and sent about it.
#[derive(Debug, PartialEq, Eq)]
pub struct ChatWidget {
    /// The note as the interface knows it.
    pub current_persistent_note: Option<PersistentUserNoteState>,
    /// The cells added to the history, oldest first.
    pub history: Vec<HistoryCell>,
    /// The updates sent to the session, oldest first.
    pub submitted_note_updates: Vec<PersistentUserNoteUpdate>,
    /// The prompt shown in the bottom pane, if any.
    pub bottom_view: Option<NoteEditPrompt>,
}

impl ChatWidget {
    /// An interface that knows of the note `note` and has shown and sent
    /// nothing yet.
    pub fn new(note: Option<PersistentUserNoteState>) -> (chat: ChatWidget)
        ensures
            chat.current_persistent_note == note,
            chat.history@.len() == 0,
            chat.submitted_note_updates@.len() == 0,
            chat.bottom_view is None,
    {
        ChatWidget {
            current_persistent_note: note,
            history: Vec::new(),
            submitted_note_updates: Vec::new(),
            bottom_view: None,
        }
    }
}

// ---------------------------------------------------------------------------
// What the interface shows
// ---------------------------------------------------------------------------

/// The word for a note's status.
pub open spec fn status_label(status: PersistentUserNoteStatus) -> Seq<char> {
    match status {
        PersistentUserNoteStatus::Active => "active"@,
        PersistentUserNoteStatus::Paused => "paused"@,
    }
}

/// The commands offered for a note with status `status`.
pub open spec fn command_hint(status: PersistentUserNoteStatus) -> Seq<char> {
    match status {
        PersistentUserNoteStatus::Active => COMMANDS_WHILE_ACTIVE@,
        PersistentUserNoteStatus::Paused => COMMANDS_WHILE_PAUSED@,
    }
}

/// Whether `note` is a note with some text that is not white space.
pub open spec fn has_visible_note(note: Option<NoteStateView>) -> bool {
    note is Some && !is_blank(note->0.text)
}

/// The summary lines for the note `note`: a heading, then either the
/// statement that there is no note, or the note's status and each line of
/// its text; then an empty line and the commands that apply.
pub open spec fn summary_lines(note: Option<NoteStateView>) -> Seq<Seq<(Seq<char>, SpanStyle)>> {
    if has_visible_note(note) {
        let n = note->0;
        seq![
            single(NOTE_HEADING@, SpanStyle::Bold),
            seq![("Status: "@, SpanStyle::Dim), (status_label(n.status), SpanStyle::Plain)],
            single("Text: "@, SpanStyle::Dim),
        ] + lines(n.text).map_values(|l: Seq<char>| single(l, SpanStyle::Plain)) + seq![
            Seq::<(Seq<char>, SpanStyle)>::empty(),
            single(command_hint(n.status), SpanStyle::Dim),
        ]
    } else {
        seq![
            single(NOTE_HEADING@, SpanStyle::Bold),
            single(NO_NOTE_MESSAGE@, SpanStyle::Plain),
            Seq::<(Seq<char>, SpanStyle)>::empty(),
            single(COMMANDS_WITHOUT_NOTE@, SpanStyle::Dim),
        ]
    }
}

/// The word for the status `status`.
pub fn persistent_note_status_label(status: &PersistentUserNoteStatus) -> (label: &'static str)
    ensures
        label@ == status_label(*status),
{
    match status {
        PersistentUserNoteStatus::Active => "active",
        PersistentUserNoteStatus::Paused => "paused",
    }
}

/// The first line of `text` that is not blank, or the empty string.
pub fn first_note_line(text: &str) -> (line: String)
    ensures
        line@ == first_nonblank(lines(text@)),
{
    first_nonblank_line(text)
}

/// `text` without white space at either end, or an error where nothing
/// else is left.
pub fn normalized_note_text(text: &str) -> (r: Result<String, String>)
    ensures
        match r {
            Ok(t) => !is_blank(text@) && t@ == trim(text@),
            Err(e) => is_blank(text@) && e@ == EMPTY_NOTE_MESSAGE@,
        },
{
    let trimmed = trim_str(text);
    if trimmed.as_str().is_empty() {
        Err(EMPTY_NOTE_MESSAGE.to_owned())
    } else {
        Ok(trimmed)
    }
}

/// The summary lines for `note`.
pub fn persistent_note_summary_lines(note: Option<&PersistentUserNoteState>) -> (r: Vec<Line>)
    ensures
        r.deep_view() == summary_lines(note.deep_view()),
{
    let visible = match note {
        Some(n) => !str_is_blank(n.text.as_str()),
        None => false,
    };
    let mut out: Vec<Line> = Vec::new();
    if !visible {
        out.push(styled_line(NOTE_HEADING, SpanStyle::Bold));
        out.push(styled_line(NO_NOTE_MESSAGE, SpanStyle::Plain));
        out.push(empty_line());
        out.push(styled_line(COMMANDS_WITHOUT_NOTE, SpanStyle::Dim));
        assert(out.deep_view() =~= summary_lines(note.deep_view()));
        return out;
    }
    let n = note.unwrap();
    let hint_text = match n.status {
        PersistentUserNoteStatus::Active => COMMANDS_WHILE_ACTIVE,
        PersistentUserNoteStatus::Paused => COMMANDS_WHILE_PAUSED,
    };
    out.push(styled_line(NOTE_HEADING, SpanStyle::Bold));
    let mut status_spans: Vec<Span> = Vec::new();
    status_spans.push(Span { content: "Status: ".to_owned(), style: SpanStyle::Dim });
    status_spans.push(
        Span {
            content: persistent_note_status_label(&n.status).to_owned(),
            style: SpanStyle::Plain,
        },
    );
    let status_line = Line { spans: status_spans };
    assert(status_line.deep_view() =~= seq![
        ("Status: "@, SpanStyle::Dim),
        (status_label(n.status), SpanStyle::Plain),
    ]);
    out.push(status_line);
    out.push(styled_line("Text: ", SpanStyle::Dim));
    assert(out.deep_view().len() == 3);
    let text_lines = str_lines(n.text.as_str());
    let ghost head = out.deep_view();
    let ghost body = lines(n.text@).map_values(|l: Seq<char>| single(l, SpanStyle::Plain));
    let mut i: usize = 0;
    while i < text_lines.len()
        invariant
            i <= text_lines.len(),
            string_views(text_lines@) == lines(n.text@),
            body == lines(n.text@).map_values(|l: Seq<char>| single(l, SpanStyle::Plain)),
            out.deep_view() == head + body.take(i as int),
        decreases text_lines.len() - i,
    {
        let line = styled_line(text_lines[i].as_str(), SpanStyle::Plain);
        let ghost before = out.deep_view();
        out.push(line);
        proof {
            assert(string_views(text_lines@)[i as int] == text_lines@[i as int]@);
            assert(body[i as int] == single(text_lines@[i as int]@, SpanStyle::Plain));
            assert(out.deep_view() =~= before.push(body[i as int]));
            assert(body.take(i + 1) =~= body.take(i as int).push(body[i as int]));
        }
        i += 1;
    }
    let ghost mid = out.deep_view();
    out.push(empty_line());
    let ghost mid2 = out.deep_view();
    out.push(styled_line(hint_text, SpanStyle::Dim));
    proof {
        assert(body.take(i as int) =~= body);
        assert(mid2 =~= mid.push(Seq::<(Seq<char>, SpanStyle)>::empty()));
        assert(out.deep_view() =~= mid2.push(single(hint_text@, SpanStyle::Dim)));
        assert(has_visible_note(note.deep_view()));
        assert(hint_text@ == command_hint(n.status));
        assert(head =~= seq![
            single(NOTE_HEADING@, SpanStyle::Bold),
            seq![("Status: "@, SpanStyle::Dim), (status_label(n.status), SpanStyle::Plain)],
            single("Text: "@, SpanStyle::Dim),
        ]);
        assert(out.deep_view() =~= summary_lines(note.deep_view()));
    }
    out
}

// ---------------------------------------------------------------------------
// Updating the note
// ---------------------------------------------------------------------------

/// The note after `update` is applied to `current`, or the message that
/// refuses the update: a new text must not be blank and is kept trimmed;
/// pausing or resuming needs a note and keeps its text.
pub open spec fn note_after_update(current: Option<NoteStateView>, update: NoteUpdateView) -> Result<
    Option<NoteStateView>,
    Seq<char>,
> {
    match update {
        NoteUpdateView::SetNote(t) | NoteUpdateView::Edit(t) => if is_blank(t) {
            Err(EMPTY_NOTE_MESSAGE@)
        } else {
            Ok(Some(NoteStateView { text: trim(t), status: PersistentUserNoteStatus::Active }))
        },
        NoteUpdateView::Clear => Ok(None),
        NoteUpdateView::Pause => match current {
            Some(n) => Ok(Some(NoteStateView { text: n.text, status: PersistentUserNoteStatus::Paused })),
            None => Err(NO_NOTE_MESSAGE@),
        },
        NoteUpdateView::Resume => match current {
            Some(n) => Ok(Some(NoteStateView { text: n.text, status: PersistentUserNoteStatus::Active })),
            None => Err(NO_NOTE_MESSAGE@),
        },
    }
}

/// The state reported for the note `next`: the note itself, or an empty
/// paused note where there is none.
pub open spec fn reported_note(next: Option<NoteStateView>) -> NoteStateView {
    match next {
        Some(n) => n,
        None => NoteStateView { text: seq![], status: PersistentUserNoteStatus::Paused },
    }
}

/// The message that reports the note `state`: that it was cleared where its
/// text is blank; otherwise its status, with its first line that is not
/// blank as a hint.
pub open spec fn update_message(state: NoteStateView) -> HistoryCellView {
    if is_blank(state.text) {
        HistoryCellView::Info { message: "Note cleared"@, hint: None }
    } else {
        HistoryCellView::Info {
            message: "Note "@ + status_label(state.status),
            hint: Some("Text: "@ + first_nonblank(lines(state.text))),
        }
    }
}

/// The editor opened for the note `current`, holding its text.
pub open spec fn edit_prompt(current: Option<NoteStateView>) -> NoteEditPromptView {
    NoteEditPromptView {
        title: EDIT_PROMPT_TITLE@,
        placeholder: EDIT_PROMPT_PLACEHOLDER@,
        initial_text: match current {
            Some(n) => n.text,
            None => seq![],
        },
        has_context_label: false,
    }
}

/// Whether `note` is absent, or holds a text that is trimmed and not blank.
pub open spec fn is_tidy(note: Option<NoteStateView>) -> bool {
    match note {
        Some(n) => !is_blank(n.text) && trim(n.text) == n.text,
        None => true,
    }
}

/// A text accepted for the note is trimmed and not blank, and normalizing it
/// again gives it back unchanged.
pub proof fn lemma_normalized_text_is_stable(t: Seq<char>)
    requires
        !is_blank(t),
    ensures
        !is_blank(trim(t)),
        trim(trim(t)) == trim(t),
{
    lemma_trim_idempotent(t);
}

/// Every accepted update keeps the note absent or trimmed and not blank.
pub proof fn lemma_update_keeps_note_tidy(current: Option<NoteStateView>, update: NoteUpdateView)
    requires
        is_tidy(current),
    ensures
        note_after_update(current, update) matches Ok(next) ==> is_tidy(next),
{
    match update {
        NoteUpdateView::SetNote(t) | NoteUpdateView::Edit(t) => {
            if !is_blank(t) {
                lemma_normalized_text_is_stable(t);
            }
        },
        _ => {},
    }
}

/// Pausing a note and resuming it gives back the note, active, with the
/// same text.
pub proof fn lemma_pause_then_resume(current: Option<NoteStateView>)
    requires
        current is Some,
    ensures
        note_after_update(current, NoteUpdateView::Pause) is Ok,
        note_after_update(
            note_after_update(current, NoteUpdateView::Pause)->Ok_0,
            NoteUpdateView::Resume,
        ) == Ok::<Option<NoteStateView>, Seq<char>>(
            Some(NoteStateView { text: current->0.text, status: PersistentUserNoteStatus::Active }),
        ),
{
}

/// Once the note is cleared there is nothing to pause or resume, and the
/// state reported for it is an empty paused note.
pub proof fn lemma_cleared_note_cannot_be_paused_or_resumed(current: Option<NoteStateView>)
    ensures
        note_after_update(current, NoteUpdateView::Clear) == Ok::<
            Option<NoteStateView>,
            Seq<char>,
        >(None),
        note_after_update(None, NoteUpdateView::Pause) == Err::<Option<NoteStateView>, Seq<char>>(
            NO_NOTE_MESSAGE@,
        ),
        note_after_update(None, NoteUpdateView::Resume) == Err::<Option<NoteStateView>, Seq<char>>(
            NO_NOTE_MESSAGE@,
        ),
        reported_note(None).text.len() == 0,
        update_message(reported_note(None)) == (HistoryCellView::Info {
            message: "Note cleared"@,
            hint: None,
        }),
{
    assert(is_blank(Seq::<char>::empty())) by {
        crate::text::lemma_blank_iff_all_whitespace(Seq::<char>::empty());
    }
}

/// A new text for the note replaces it whatever it was before, and the
/// note is active afterwards.
pub proof fn lemma_new_text_replaces_note(
    current1: Option<NoteStateView>,
    current2: Option<NoteStateView>,
    t: Seq<char>,
)
    requires
        !is_blank(t),
    ensures
        note_after_update(current1, NoteUpdateView::SetNote(t)) == note_after_update(
            current2,
            NoteUpdateView::Edit(t),
        ),
        note_after_update(current1, NoteUpdateView::SetNote(t)) == Ok::<
            Option<NoteStateView>,
            Seq<char>,
        >(Some(NoteStateView { text: trim(t), status: PersistentUserNoteStatus::Active })),
{
}

/// Pausing an existing note, whatever its status, keeps its text and leaves
/// it paused; resuming it keeps its text and leaves it active.
pub proof fn lemma_pause_and_resume_any_note(n: NoteStateView)
    ensures
        note_after_update(Some(n), NoteUpdateView::Pause) == Ok::<Option<NoteStateView>, Seq<char>>(
            Some(NoteStateView { text: n.text, status: PersistentUserNoteStatus::Paused }),
        ),
        note_after_update(Some(n), NoteUpdateView::Resume) == Ok::<Option<NoteStateView>, Seq<char>>(
            Some(NoteStateView { text: n.text, status: PersistentUserNoteStatus::Active }),
        ),
{
}

/// The editor opens with the text of the note, whatever its status, and
/// empty only where there is no note.
pub proof fn lemma_edit_prompt_holds_note_text(n: NoteStateView)
    ensures
        edit_prompt(Some(n)).initial_text == n.text,
        edit_prompt(None).initial_text.len() == 0,
        edit_prompt(Some(n)).title == EDIT_PROMPT_TITLE@,
        edit_prompt(Some(n)).placeholder == EDIT_PROMPT_PLACEHOLDER@,
{
}

impl ChatWidget {
    fn add_plain_history_lines(&mut self, lines: Vec<Line>)
        ensures
            final(self).history.deep_view() == old(self).history.deep_view().push(
                HistoryCellView::Lines(lines.deep_view()),
            ),
            final(self).current_persistent_note == old(self).current_persistent_note,
            final(self).submitted_note_updates == old(self).submitted_note_updates,
            final(self).bottom_view == old(self).bottom_view,
    {
        self.history.push(HistoryCell::Lines(lines));
        assert(self.history.deep_view() =~= old(self).history.deep_view().push(
            HistoryCellView::Lines(lines.deep_view()),
        ));
    }

    fn add_info_message(&mut self, message: String, hint: Option<String>)
        ensures
            final(self).history.deep_view() == old(self).history.deep_view().push(
                HistoryCellView::Info {
                    message: message@,
                    hint: opt_string_view(hint),
                },
            ),
            final(self).current_persistent_note == old(self).current_persistent_note,
            final(self).submitted_note_updates == old(self).submitted_note_updates,
            final(self).bottom_view == old(self).bottom_view,
    {
        let ghost cell = HistoryCellView::Info { message: message@, hint: opt_string_view(hint) };
        self.history.push(HistoryCell::Info { message, hint });
        assert(self.history.deep_view() =~= old(self).history.deep_view().push(cell));
    }

    fn add_error_message(&mut self, message: String)
        ensures
            final(self).history.deep_view() == old(self).history.deep_view().push(
                HistoryCellView::Error(message@),
            ),
            final(self).current_persistent_note == old(self).current_persistent_note,
            final(self).submitted_note_updates == old(self).submitted_note_updates,
            final(self).bottom_view == old(self).bottom_view,
    {
        let ghost cell = HistoryCellView::Error(message@);
        self.history.push(HistoryCell::Error(message));
        assert(self.history.deep_view() =~= old(self).history.deep_view().push(cell));
    }

    /// Adds the summary of the current note to the history.
    pub fn show_persistent_note_summary(&mut self)
        ensures
            final(self).history.deep_view() == old(self).history.deep_view().push(
                HistoryCellView::Lines(summary_lines(old(self).current_persistent_note.deep_view())),
            ),
            final(self).current_persistent_note == old(self).current_persistent_note,
            final(self).submitted_note_updates == old(self).submitted_note_updates,
            final(self).bottom_view == old(self).bottom_view,
    {
        let lines = persistent_note_summary_lines(self.current_persistent_note.as_ref());
        self.add_plain_history_lines(lines);
    }

    /// Opens the note editor in the bottom pane, holding the current note's
    /// text; what the user submits there becomes an edit of the note
    /// (`NoteEditPrompt::submit`).
    pub fn show_persistent_note_edit_prompt(&mut self)
        ensures
            final(self).bottom_view matches Some(p) && p.deep_view() == edit_prompt(
                old(self).current_persistent_note.deep_view(),
            ),
            old(self).current_persistent_note matches Some(n)
                ==> final(self).bottom_view->0.initial_text@ == n.text@,
            old(self).current_persistent_note is None
                ==> final(self).bottom_view->0.initial_text@.len() == 0,
            final(self).current_persistent_note == old(self).current_persistent_note,
            final(self).history == old(self).history,
            final(self).submitted_note_updates == old(self).submitted_note_updates,
    {
        let initial_text = match &self.current_persistent_note {
            Some(note) => note.text.clone(),
            None => String::new(),
        };
        let view = NoteEditPrompt {
            title: EDIT_PROMPT_TITLE.to_owned(),
            placeholder: EDIT_PROMPT_PLACEHOLDER.to_owned(),
            initial_text,
            context_label: None,
        };
        self.bottom_view = Some(view);
    }

    /// Applies `update` to the note the interface knows of, and returns the
    /// state to report; refuses it, leaving the note as it was, where
    /// `note_after_update` gives a message.
    pub fn apply_persistent_note_update_locally(&mut self, update: &PersistentUserNoteUpdate) -> (r:
        Result<PersistentUserNoteState, String>)
        ensures
            match note_after_update(old(self).current_persistent_note.deep_view(), update@) {
                Ok(next) => {
                    &&& r matches Ok(s)
                    &&& r->Ok_0@ == reported_note(next)
                    &&& final(self).current_persistent_note.deep_view() == next
                },
                Err(m) => {
                    &&& r matches Err(e)
                    &&& r->Err_0@ == m
                    &&& final(self).current_persistent_note == old(self).current_persistent_note
                },
            },
            (update@ is Pause || update@ is Resume) && old(self).current_persistent_note is Some ==> {
                &&& r is Ok
                &&& r->Ok_0.text@ == old(self).current_persistent_note->0.text@
                &&& r->Ok_0.status == if update@ is Pause {
                    PersistentUserNoteStatus::Paused
                } else {
                    PersistentUserNoteStatus::Active
                }
                &&& final(self).current_persistent_note.deep_view() == Some(r->Ok_0@)
            },
            (update@ is Pause || update@ is Resume) && old(self).current_persistent_note is None ==> {
                &&& r is Err
                &&& final(self).current_persistent_note is None
            },
            final(self).history == old(self).history,
            final(self).submitted_note_updates == old(self).submitted_note_updates,
            final(self).bottom_view == old(self).bottom_view,
    {
        let current = match &self.current_persistent_note {
            Some(n) => Some(n.duplicate()),
            None => None,
        };
        let next: Option<PersistentUserNoteState> = match update {
            PersistentUserNoteUpdate::SetNote { text } | PersistentUserNoteUpdate::Edit { text } => {
                match normalized_note_text(text.as_str()) {
                    Ok(t) => Some(
                        PersistentUserNoteState { text: t, status: PersistentUserNoteStatus::Active },
                    ),
                    Err(e) => {
                        return Err(e);
                    },
                }
            },
            PersistentUserNoteUpdate::Clear => None,
            PersistentUserNoteUpdate::Pause => match current {
                Some(n) => Some(
                    PersistentUserNoteState { text: n.text, status: PersistentUserNoteStatus::Paused },
                ),
                None => {
                    return Err(NO_NOTE_MESSAGE.to_owned());
                },
            },
            PersistentUserNoteUpdate::Resume => match current {
                Some(n) => Some(
                    PersistentUserNoteState { text: n.text, status: PersistentUserNoteStatus::Active },
                ),
                None => {
                    return Err(NO_NOTE_MESSAGE.to_owned());
                },
            },
        };
        let reported = match &next {
            Some(n) => n.duplicate(),
            None => PersistentUserNoteState {
                text: String::new(),
                status: PersistentUserNoteStatus::Paused,
            },
        };
        self.current_persistent_note = next;
        Ok(reported)
    }

    /// Adds to the history the message that reports the note `state`.
    pub fn add_persistent_note_update_message(&mut self, state: &PersistentUserNoteState)
        ensures
            final(self).history.deep_view() == old(self).history.deep_view().push(
                update_message(state@),
            ),
            final(self).current_persistent_note == old(self).current_persistent_note,
            final(self).submitted_note_updates == old(self).submitted_note_updates,
            final(self).bottom_view == old(self).bottom_view,
    {
        let blank = str_is_blank(state.text.as_str());
        let title = if blank {
            "Note cleared".to_owned()
        } else {
            join_text("Note ", persistent_note_status_label(&state.status))
        };
        let hint = if blank {
            None
        } else {
            Some(join_text("Text: ", first_note_line(state.text.as_str()).as_str()))
        };
        self.add_info_message(title, hint);
    }

    /// Applies `update` as the user asked it in the interface: where it is
    /// accepted, sends it to the session and reports the new note; where it
    /// is refused, shows the reason as an error.
    pub fn set_persistent_note_from_ui(&mut self, update: PersistentUserNoteUpdate)
        ensures
            match note_after_update(old(self).current_persistent_note.deep_view(), update@) {
                Ok(next) => {
                    &&& final(self).current_persistent_note.deep_view() == next
                    &&& final(self).submitted_note_updates.deep_view()
                        == old(self).submitted_note_updates.deep_view().push(update@)
                    &&& final(self).history.deep_view() == old(self).history.deep_view().push(
                        update_message(reported_note(next)),
                    )
                },
                Err(m) => {
                    &&& final(self).current_persistent_note == old(self).current_persistent_note
                    &&& final(self).submitted_note_updates == old(self).submitted_note_updates
                    &&& final(self).history.deep_view() == old(self).history.deep_view().push(
                        HistoryCellView::Error(m),
                    )
                },
            },
            final(self).bottom_view == old(self).bottom_view,
    {
        match self.apply_persistent_note_update_locally(&update) {
            Ok(state) => {
                let ghost sent = update@;
                self.submitted_note_updates.push(update);
                assert(self.submitted_note_updates.deep_view() =~= old(
                    self,
                ).submitted_note_updates.deep_view().push(sent));
                self.add_persistent_note_update_message(&state);
            },
            Err(message) => {
                self.add_error_message(message);
            },
        }
    }
}

} // verus!
