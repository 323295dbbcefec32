//! A keyboard-driven note and time log: a modal key handler over an
//! append-only collection of notes, with the time of each session credited
//! to the note that last had focus, and the saved state that carries the
//! notes from one run to the next.
pub mod index_map;
pub mod mode_manager;
pub mod note_editors;
pub mod savestate;
pub mod text;
