//! In-memory state core of a text-editing shell: open buffers, the tab
//! controls that mirror them, and the single-selection protocol that keeps
//! exactly one tab active.

pub mod buffer;
pub mod editor_window;
