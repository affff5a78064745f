//! The state machine, layout and scoring of a terminal typing-speed test.

pub mod keys;
pub mod word;
pub mod session;
pub mod layout;
pub mod metrics;
pub mod text;
pub mod report;
