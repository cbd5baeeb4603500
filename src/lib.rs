//! Keyboard chatter filter: a per-key debounce engine, the store it keeps
//! its per-key history in, the settings surface, and the decisions of the
//! low-level keyboard hook and of the thread that hosts it.

pub mod commands;
pub mod debounce;
pub mod hook;
pub mod lifecycle;
pub mod state;
pub mod store;
