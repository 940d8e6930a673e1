//! Core of an interactive "terminal" widget for a personal site: a fixed,
//! case-sensitive dispatch table maps each submitted line to either a plain
//! text entry, a hyperlink entry (with a navigation side effect), or a clear
//! of the scrollback, and a capacity-bounded history stores the entries.
//!
//! The interpreter is pure: it returns the history operation and the side
//! effect as values, and the hosting page performs the navigation itself.

pub mod history;
pub mod terminal;
