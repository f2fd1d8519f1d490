//! Core state of a keyboard-driven HTTP request composer: a single-line
//! text buffer with a caret, cyclic and clamped selection cursors, the
//! focus state machine that routes input between them, pointer hit-testing,
//! and the splitting of header/query lines into key/value pairs.

pub mod app;
pub mod controller;
pub mod event;
pub mod parse;
pub mod text_input;

pub use text_input::TextInput;
