//! A small text buffer with a cursor, and the edit operations of a terminal
//! text editor, each proved against a model of rows of characters.

pub mod app;
pub mod message;
pub mod laws;

pub use app::{App, BufferState};
pub use message::{Key, Message};
