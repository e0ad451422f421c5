//! Orchestration core for converting Apple Unified Logging archives into rows.
//!
//! The binary `tracev3` format is decoded by a parsing library that this crate
//! never sees.  What lives here is everything around it that has to be right:
//! the order in which trace files are visited, what is carried from one file
//! to the next, which entries are retried at the end, how many entries were
//! written, and what a written row looks like.

pub mod category;
pub mod history;
pub mod laws;
pub mod layout;
pub mod machine;
pub mod row;
pub mod schema;
pub mod sequencer;
pub mod startup;
pub mod text;
pub mod time;
pub mod tsv;
pub mod uuid;
