//! A line server's core: an immutable, id-indexed store of the lines of a
//! text, and the per-connection command protocol that answers lookups on it.

pub mod chars;
pub mod command;
pub mod database;
pub mod lines;
pub mod session;
