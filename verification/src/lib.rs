//! Retry policy decisions for HTTP transports and the persistent user note
//! shown in the chat interface, with their contracts proved by Verus.

pub mod duration;
pub mod text;
pub mod retry;
pub mod protocol;
pub mod persistent_user_note;
pub mod note_menu;
