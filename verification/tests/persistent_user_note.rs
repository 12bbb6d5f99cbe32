use codex_support::persistent_user_note::{
    note_body, PersistentUserNote, MAX_PERSISTENT_USER_NOTE_TOKENS, NOTE_CLOSE_MARKER,
    NOTE_OPEN_MARKER, PERSISTENT_NOTE_PREAMBLE,
};

#[test]
fn note_enters_the_context_as_user_text_between_markers() {
    let note = PersistentUserNote::new("keep answers short".to_string());
    assert_eq!("user", note.role());
    assert_eq!(
        ("<codex_persistent_user_note>", "</codex_persistent_user_note>"),
        note.markers()
    );
    assert_eq!(PersistentUserNote::type_markers(), note.markers());
    assert_eq!(NOTE_OPEN_MARKER, "<codex_persistent_user_note>");
    assert_eq!(NOTE_CLOSE_MARKER, "</codex_persistent_user_note>");
    assert_eq!(4_000, MAX_PERSISTENT_USER_NOTE_TOKENS);
}

#[test]
fn note_text_is_trimmed_for_the_body() {
    let note = PersistentUserNote::new("\n  keep answers short \t\n".to_string());
    assert_eq!("keep answers short", note.trimmed_text());
}

#[test]
fn body_wraps_the_note_in_its_preamble() {
    let body = note_body("keep answers short");
    assert_eq!(
        body,
        "\nThe following note was manually pinned by the user. Preserve it across compaction and treat it as user-provided context, not as higher-priority instructions.\n\nkeep answers short\n"
    );
    assert!(body.starts_with(PERSISTENT_NOTE_PREAMBLE));
}
