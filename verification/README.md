# codex_support

Retry decisions for an HTTP transport and the persistent user note of the
Codex chat interface, written in Verus with their contracts proved.

- `src/duration.rs`: a nanosecond duration, as `std::time::Duration` holds it.
- `src/text.rs`: trimming white space and splitting text into lines, stated
  over the characters of the text.
- `src/retry.rs`: which transport errors a policy retries, the jittered
  exponential backoff, the step a retry loop takes after each attempt, and the
  laws of that loop.
- `src/protocol.rs`: the note's state and updates, and response items.
- `src/persistent_user_note.rs`: the note as it enters the model's context.
- `src/note_menu.rs`: the `/note` summary, editor and updates of the chat
  interface, held as plain values.
- `app/`: the asynchronous retry runner (tokio), conversions to `std` and
  `http` values, and the cut of the note to its token budget.
