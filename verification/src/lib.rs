//! Opponent-scouting library for one-versus-one replay files.
//!
//! The library resolves the opponent recorded in a finished replay and
//! extracts that opponent's public win/loss record from their profile page:
//! connect-code parsing and formatting, replay decoding, opponent
//! resolution, profile-URL construction and response classification,
//! win/loss extraction, and the watcher state machine that drives one
//! pipeline run per filesystem creation event.

pub mod connect_code;
pub mod digits;
pub mod fetcher;
pub mod pipeline;
pub mod replay;
pub mod resolver;
pub mod stats;
pub mod watcher;
