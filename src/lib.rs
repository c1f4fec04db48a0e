//! A keyboard-driven editor for four independent text fields: a token, a
//! header fragment, a payload fragment and a signing key.
//!
//! The library holds the editing state machine: which field has focus, how
//! keystrokes are interpreted in each input mode, and how insertion, deletion
//! and cursor movement act on the focused field. Drawing and reading the
//! terminal are left to the caller.
pub mod app;
pub mod buffer;
pub mod focus;
