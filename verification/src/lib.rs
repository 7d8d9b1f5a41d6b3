//! In-memory text-document core: a character-addressed buffer with a cursor
//! and an optional selection, edited through a small set of total operations
//! (insert, delete, cursor and selection movement), each returning an
//! immutable snapshot of the resulting state.

pub mod editor;
pub mod laws;
