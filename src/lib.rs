//! Append-mostly records kept in program-owned storage cells at derived
//! addresses: one primary record per actor, an indexed collection of comments
//! on each record, and a reward for each successful write.
//!
//! The library decides; the host acts. Each command is decoded, checked
//! against the accounts it names and turned into a plan (cells to create,
//! bytes to write, a reward to mint) that the host carries out as one
//! all-or-nothing unit of work.
pub mod address;
pub mod codec;
pub mod error;
pub mod instruction;
pub mod lemmas;
pub mod processor;
pub mod state;
