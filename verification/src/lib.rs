//! An interactive editor for an ordered list of search-path entries.
//!
//! The library holds the verified core: the list model with its selection
//! cursor, the input-mode state machine, the pure renderer projection, and
//! the shell-command generator. Terminal handling and environment access
//! live outside the library and hand it plain values.

pub mod command;
pub mod list;
pub mod render;
pub mod state;
pub mod text;
