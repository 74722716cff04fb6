//! Clipboard history: the entries kept, the rules that decide what is
//! recorded, and the text shown for each entry.

pub mod text;
pub mod pid;
pub mod time;
pub mod history;
pub mod monitor;
pub mod popup;
pub mod platform;

