//! Closes issue-tracker tickets when a release is published.
//!
//! The crate holds the decision logic of a three-stage pipeline (release
//! notes to pull-request numbers, pull requests to ticket identifiers,
//! ticket identifiers to state transitions) together with the machinery
//! the stages share: text scanning, deduplication and configuration.

pub mod config;
pub mod extract_tickets;
pub mod orchestrator;
pub mod parse_notes;
pub mod seen;
pub mod text;
pub mod update_tickets;
pub mod utils;
