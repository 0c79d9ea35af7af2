//! Shared helpers for the tag builders.

pub mod into_raw;
