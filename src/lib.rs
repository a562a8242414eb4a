//! HyStart++ slow start: detects a rising round-trip time and leaves
//! exponential window growth before a loss forces it to.
//!
//! `engine` holds the HyStart++ engine and the spec functions that describe
//! it, `classic` the classic slow start it falls back to, and `laws` the
//! properties proved of the engine.
pub mod classic;
pub mod engine;
pub mod laws;
