//! The session controller of a terminal task list: a two-mode state machine
//! over a cached list of tasks, a list cursor and a text draft.

pub mod editor;
pub mod session;
pub mod laws;
