//! A file-persisted text adventure session: a seeded generator whose state is checked
//! out by one caller at a time and stored back on release, a registry of characters,
//! and the state machine that decides which character is in play and where.
//!
//! The library decides; the caller reads and writes the session's documents. Every
//! operation takes what was read (see `store::Fetched`) and returns what is to be
//! stored.

pub mod character;
pub mod commands;
pub mod dungeon;
pub mod error;
pub mod laws;
pub mod meta;
pub mod narration;
pub mod registry;
pub mod rng;
pub mod session;
pub mod store;
pub mod strings;
