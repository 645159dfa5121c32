//! Helpers for observing streams.

pub mod rate_counting_reader;
