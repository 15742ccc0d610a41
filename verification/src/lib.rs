//! Planning for a batch rename that strips a fixed-length prefix from file
//! names and optionally puts the parent directory's name in its place.
//!
//! The library decides; it touches no file. A caller enumerates directories
//! and files, hands the paths over as text, and carries out the rename
//! operations that come back.

pub mod collect;
pub mod filter;
pub mod names;
pub mod paths;
pub mod plan;
pub mod rename;
