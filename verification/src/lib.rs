//! Logic core of an editor extension for navigating wiki-style note
//! references (`[[id]]` / `[[id|tag]]`) embedded in free text.
//!
//! The crate provides the reference grammar with exact round-trip
//! serialization, a cursor-position resolver that maps display columns
//! (grapheme clusters) to reference spans, a strict configuration decoder
//! with path-tracked failures, the one-shot session setup state machine,
//! the dual-channel command dispatcher, and a deterministic frontmatter
//! formatter. Host-editor glue lives outside this crate.

pub mod client;
pub mod commands;
pub mod config;
pub mod error;
pub mod messages;
pub mod note;
pub mod note_ref;
pub mod setup;
pub mod util;

pub use client::Client;
pub use error::Error;
pub use note::Note;
pub use note_ref::NoteRef;
