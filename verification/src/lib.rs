//! A turn engine for multi-player drafts.
//!
//! Players take turns picking or banning creatures from a shared pool until
//! every roster holds the number of picks the rules ask for. The crate holds
//! the schedule (whose turn, which action), the completion test, and the
//! session state machine that admits players and applies their selections.

pub mod rules;
pub mod schedule;
pub mod secret;
pub mod error;
pub mod user;
pub mod session;
pub mod pokemon;
pub mod api;
pub mod engine;
pub mod picks;
