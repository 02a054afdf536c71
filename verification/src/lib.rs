//! Indexing of a directory tree: the rules that decide which entries of a walk
//! are listed, how each listed entry is described, and how the listing is
//! totalled. The walk itself is the caller's: this crate takes what a walk
//! observed as plain values and is verified for every such observation.

pub mod text;
pub mod names;
pub mod options;
pub mod entry;
pub mod walk;
pub mod filter;
pub mod summary;
pub mod indexer;
pub mod laws;
