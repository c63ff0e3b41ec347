//! Width-aware, optionally styled rendering of structured log records.
//!
//! A [`terminal::Terminal`] is made once per session from the flags of the
//! command line, the persisted configuration and a profile. It is then handed
//! one [`record::Record`] after the other, with the width of the terminal at
//! that moment, and says what is to be printed: the lines of the record, each
//! a row of [`line::Span`]s with their styles. Printing is left to the caller.
//!
//! What a session shows for a record, and how the record changes the session,
//! is defined on [`session::Session`], the mathematical view of the renderer;
//! [`laws`] holds what follows from it for every session and every record.

pub mod color;
pub mod config;
pub mod laws;
pub mod layout;
pub mod line;
pub mod pattern;
pub mod record;
pub mod session;
pub mod terminal;
pub mod text;
pub mod timestamp;
