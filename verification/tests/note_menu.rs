use codex_support::note_menu::{
    first_note_line, normalized_note_text, persistent_note_status_label,
    persistent_note_summary_lines, ChatWidget, HistoryCell, Line, SpanStyle,
    COMMANDS_WHILE_ACTIVE, COMMANDS_WHILE_PAUSED, COMMANDS_WITHOUT_NOTE, EDIT_PROMPT_PLACEHOLDER,
    EDIT_PROMPT_TITLE, EMPTY_NOTE_MESSAGE, NO_NOTE_MESSAGE,
};
use codex_support::protocol::{
    PersistentUserNoteState, PersistentUserNoteStatus, PersistentUserNoteUpdate,
};

fn line_text(line: &Line) -> String {
    line.spans.iter().map(|s| s.content.as_str()).collect()
}

fn rendered(chat: &ChatWidget) -> String {
    let mut out = Vec::new();
    for cell in &chat.history {
        match cell {
            HistoryCell::Lines(lines) => out.extend(lines.iter().map(line_text)),
            HistoryCell::Info { message, hint } => {
                out.push(message.clone());
                if let Some(hint) = hint {
                    out.push(hint.clone());
                }
            }
            HistoryCell::Error(message) => out.push(message.clone()),
        }
    }
    out.join("\n")
}

fn note(text: &str, status: PersistentUserNoteStatus) -> PersistentUserNoteState {
    PersistentUserNoteState {
        text: text.to_string(),
        status,
    }
}

#[test]
fn setting_a_multiline_note_reports_it_active_with_its_first_line() {
    let mut chat = ChatWidget::new(None);
    chat.set_persistent_note_from_ui(PersistentUserNoteUpdate::SetNote {
        text: "remember q09\navoid extra read copies".to_string(),
    });

    assert_eq!(
        chat.submitted_note_updates,
        vec![PersistentUserNoteUpdate::SetNote {
            text: "remember q09\navoid extra read copies".to_string(),
        }]
    );
    let shown = rendered(&chat);
    assert!(shown.contains("Note active"));
    assert!(shown.contains("Text: remember q09"));
    assert_eq!(
        chat.current_persistent_note,
        Some(note(
            "remember q09\navoid extra read copies",
            PersistentUserNoteStatus::Active
        ))
    );
}

#[test]
fn edit_clear_pause_and_resume_are_sent_in_order() {
    let mut chat = ChatWidget::new(None);
    let updates = [
        PersistentUserNoteUpdate::SetNote {
            text: "original note".to_string(),
        },
        PersistentUserNoteUpdate::Pause,
        PersistentUserNoteUpdate::Resume,
        PersistentUserNoteUpdate::Edit {
            text: "updated note".to_string(),
        },
        PersistentUserNoteUpdate::Clear,
    ];
    for update in updates.clone() {
        chat.set_persistent_note_from_ui(update);
    }
    assert_eq!(chat.submitted_note_updates, updates.to_vec());
    assert_eq!(chat.current_persistent_note, None);
    let shown = rendered(&chat);
    assert_eq!(
        shown,
        [
            "Note active",
            "Text: original note",
            "Note paused",
            "Text: original note",
            "Note active",
            "Text: original note",
            "Note active",
            "Text: updated note",
            "Note cleared",
        ]
        .join("\n")
    );
}

#[test]
fn bare_summary_shows_the_current_note() {
    let mut chat = ChatWidget::new(None);
    chat.set_persistent_note_from_ui(PersistentUserNoteUpdate::SetNote {
        text: "remember q09".to_string(),
    });
    chat.history.clear();
    chat.show_persistent_note_summary();

    let shown = rendered(&chat);
    assert!(shown.contains("Note"));
    assert!(shown.contains("Status: active"));
    assert!(shown.contains("remember q09"));
    assert!(shown.contains(COMMANDS_WHILE_ACTIVE));
}

#[test]
fn summary_of_a_paused_multiline_note_lists_every_line() {
    let state = note("resume note\nsecond line", PersistentUserNoteStatus::Paused);
    let lines = persistent_note_summary_lines(Some(&state));
    let texts: Vec<String> = lines.iter().map(line_text).collect();
    assert_eq!(
        texts,
        vec![
            "Note",
            "Status: paused",
            "Text: ",
            "resume note",
            "second line",
            "",
            COMMANDS_WHILE_PAUSED,
        ]
    );
    assert_eq!(SpanStyle::Bold, lines[0].spans[0].style);
    assert_eq!(SpanStyle::Dim, lines[1].spans[0].style);
    assert_eq!(SpanStyle::Plain, lines[1].spans[1].style);
    assert_eq!(SpanStyle::Dim, lines[2].spans[0].style);
    assert_eq!(SpanStyle::Plain, lines[3].spans[0].style);
    assert!(lines[5].spans.is_empty());
    assert_eq!(SpanStyle::Dim, lines[6].spans[0].style);
}

#[test]
fn summary_without_a_note_offers_the_commands() {
    for state in [None, Some(note(" \n\t", PersistentUserNoteStatus::Active))] {
        let lines = persistent_note_summary_lines(state.as_ref());
        let texts: Vec<String> = lines.iter().map(line_text).collect();
        assert_eq!(texts, vec!["Note", NO_NOTE_MESSAGE, "", COMMANDS_WITHOUT_NOTE]);
        assert_eq!(SpanStyle::Bold, lines[0].spans[0].style);
        assert_eq!(SpanStyle::Plain, lines[1].spans[0].style);
        assert_eq!(SpanStyle::Dim, lines[3].spans[0].style);
    }
}

#[test]
fn editor_opens_with_the_existing_note() {
    let mut chat = ChatWidget::new(None);
    chat.set_persistent_note_from_ui(PersistentUserNoteUpdate::SetNote {
        text: "initial note".to_string(),
    });
    chat.show_persistent_note_edit_prompt();
    let prompt = chat.bottom_view.as_ref().expect("the editor should be open");
    assert_eq!(prompt.title, EDIT_PROMPT_TITLE);
    assert_eq!(prompt.placeholder, EDIT_PROMPT_PLACEHOLDER);
    assert_eq!(prompt.initial_text, "initial note");
    assert_eq!(prompt.context_label, None);
    let typed = format!("{} plus edit", prompt.initial_text);
    match prompt.submit(typed) {
        PersistentUserNoteUpdate::Edit { text } => assert_eq!(text, "initial note plus edit"),
        other => panic!("expected persistent note edit update, got {other:?}"),
    }
}

#[test]
fn editor_uses_the_note_from_the_session() {
    let mut chat = ChatWidget::new(Some(note("resume note", PersistentUserNoteStatus::Active)));
    chat.show_persistent_note_edit_prompt();
    let prompt = chat.bottom_view.as_ref().expect("the editor should be open");
    let typed = format!("{} edited", prompt.initial_text);
    match prompt.submit(typed) {
        PersistentUserNoteUpdate::Edit { text } => assert_eq!(text, "resume note edited"),
        other => panic!("expected persistent note edit update, got {other:?}"),
    }
}

#[test]
fn editor_starts_empty_without_a_note() {
    let mut chat = ChatWidget::new(None);
    chat.show_persistent_note_edit_prompt();
    assert_eq!(chat.bottom_view.unwrap().initial_text, "");
}

#[test]
fn refused_updates_show_an_error_and_change_nothing() {
    let mut chat = ChatWidget::new(None);
    chat.set_persistent_note_from_ui(PersistentUserNoteUpdate::Pause);
    chat.set_persistent_note_from_ui(PersistentUserNoteUpdate::Resume);
    chat.set_persistent_note_from_ui(PersistentUserNoteUpdate::SetNote {
        text: "  \n ".to_string(),
    });
    assert!(chat.submitted_note_updates.is_empty());
    assert_eq!(chat.current_persistent_note, None);
    assert_eq!(
        chat.history,
        vec![
            HistoryCell::Error(NO_NOTE_MESSAGE.to_string()),
            HistoryCell::Error(NO_NOTE_MESSAGE.to_string()),
            HistoryCell::Error(EMPTY_NOTE_MESSAGE.to_string()),
        ]
    );

    let mut chat = ChatWidget::new(Some(note("keep me", PersistentUserNoteStatus::Paused)));
    chat.set_persistent_note_from_ui(PersistentUserNoteUpdate::Edit {
        text: "\t".to_string(),
    });
    assert_eq!(
        chat.current_persistent_note,
        Some(note("keep me", PersistentUserNoteStatus::Paused))
    );
}

#[test]
fn applying_updates_reports_the_new_state() {
    let mut chat = ChatWidget::new(None);
    let set = chat
        .apply_persistent_note_update_locally(&PersistentUserNoteUpdate::SetNote {
            text: "  padded note \n".to_string(),
        })
        .unwrap();
    assert_eq!(set, note("padded note", PersistentUserNoteStatus::Active));
    let paused = chat
        .apply_persistent_note_update_locally(&PersistentUserNoteUpdate::Pause)
        .unwrap();
    assert_eq!(paused, note("padded note", PersistentUserNoteStatus::Paused));
    let resumed = chat
        .apply_persistent_note_update_locally(&PersistentUserNoteUpdate::Resume)
        .unwrap();
    assert_eq!(resumed, note("padded note", PersistentUserNoteStatus::Active));
    let cleared = chat
        .apply_persistent_note_update_locally(&PersistentUserNoteUpdate::Clear)
        .unwrap();
    assert_eq!(cleared, note("", PersistentUserNoteStatus::Paused));
    assert_eq!(chat.current_persistent_note, None);
    assert_eq!(
        chat.apply_persistent_note_update_locally(&PersistentUserNoteUpdate::Pause),
        Err(NO_NOTE_MESSAGE.to_string())
    );
    assert!(chat.history.is_empty());
    assert!(chat.submitted_note_updates.is_empty());
}

#[test]
fn update_message_for_a_note_after_blank_lines() {
    let mut chat = ChatWidget::new(None);
    chat.add_persistent_note_update_message(&note(
        "\n  \nsecond\nthird",
        PersistentUserNoteStatus::Paused,
    ));
    chat.add_persistent_note_update_message(&note(" ", PersistentUserNoteStatus::Active));
    assert_eq!(
        chat.history,
        vec![
            HistoryCell::Info {
                message: "Note paused".to_string(),
                hint: Some("Text: second".to_string()),
            },
            HistoryCell::Info {
                message: "Note cleared".to_string(),
                hint: None,
            },
        ]
    );
}

#[test]
fn note_text_is_normalized_or_refused() {
    assert_eq!(normalized_note_text("  a note\n"), Ok("a note".to_string()));
    assert_eq!(normalized_note_text("x"), Ok("x".to_string()));
    assert_eq!(
        normalized_note_text(" \t\r\n\u{3000}"),
        Err(EMPTY_NOTE_MESSAGE.to_string())
    );
    assert_eq!(normalized_note_text(""), Err(EMPTY_NOTE_MESSAGE.to_string()));
    // Normalizing twice gives the same text.
    let once = normalized_note_text("\u{a0} inner  space \u{2003}").unwrap();
    assert_eq!(once, "inner  space");
    assert_eq!(normalized_note_text(&once), Ok(once.clone()));
}

#[test]
fn first_note_line_skips_blank_lines() {
    assert_eq!(first_note_line("first\nsecond"), "first");
    assert_eq!(first_note_line("\n   \n\tthird\r\nfourth"), "\tthird");
    assert_eq!(first_note_line(""), "");
    assert_eq!(first_note_line(" \n \n"), "");
}

#[test]
fn status_labels() {
    assert_eq!("active", persistent_note_status_label(&PersistentUserNoteStatus::Active));
    assert_eq!("paused", persistent_note_status_label(&PersistentUserNoteStatus::Paused));
}
