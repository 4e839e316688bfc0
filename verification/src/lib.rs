//! Verified core of a SQLite database viewer and of the search and preview
//! panes around it: SQL text building, page assembly, cell editing and the
//! viewer's state transitions.

pub mod text;
pub mod db;
pub mod viewer;
pub mod search;
pub mod office;
pub mod tabular;
