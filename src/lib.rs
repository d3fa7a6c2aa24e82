//! Streaming transfer pipeline with monotonic progress reporting, stall
//! detection and cleanup of partial output, plus the small text and model
//! utilities that surround it.

pub mod progress;
pub mod watchdog;
pub mod session;
pub mod laws;
pub mod models;
pub mod chat;
pub mod text_diff;
pub mod text;
pub mod uuid_gen;
pub mod lipsum;
pub mod jwt_decode;
