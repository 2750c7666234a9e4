//! Automatic file inspector core: classifies a request by MIME type,
//! resolves the first capable viewing backend from an ordered registry,
//! and builds rendering plans whose text is styled through a stylesheet.
//!
//! The library is pure: it decides which backend wins, which view mode is
//! produced, what text is printed and which external programs are asked
//! for. Performing the resulting actions (printing, spawning programs,
//! paging) is left to the surrounding binary.

pub mod backends;
pub mod dispatch;
pub mod interface;
pub mod mime;
pub mod numfmt;
pub mod policy;
pub mod programs;
pub mod strutil;
pub mod styling;
pub mod views;
