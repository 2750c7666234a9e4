//! Shared view types used by several backends.
pub mod meta;
