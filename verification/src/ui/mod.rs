//! Presentation logic: what each part of the screen shows, without drawing it.

pub mod key;
pub mod text_input;

pub use key::Key;
pub use text_input::{truncate_display, TextInput};
pub mod rows;
pub mod status;
pub mod detail;
pub mod layout;
