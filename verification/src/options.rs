//! What a caller may set for one indexing run, and the values used when
//! nothing is set.

use vstd::prelude::*;

verus! {

/// Depth limit of a run for which no options were given.
pub const DEFAULT_MAX_DEPTH: usize = 3;

/// Largest listed file, in bytes, of a run for which no options were given:
/// 10 MiB.
pub const DEFAULT_MAX_FILE_SIZE: u64 = 10 * 1024 * 1024;

/// Options of one indexing run.
#[derive(Debug, Clone, Copy, PartialEq, Eq)]
pub struct IndexOptions {
    /// How far below the root's own children the walk descends: with `Some(0)`
    /// only the root's children are listed. `None` sets no limit.
    pub max_depth: Option<usize>,
    /// Files larger than this many bytes are not listed. `None` sets no limit.
    pub max_file_size: Option<u64>,
    /// Whether the walk descends through symbolic links.
    pub follow_links: bool,
    /// Whether ignore files suppress the entries they match.
    pub respect_gitignore: bool,
}

/// The options of a run for which none were given.
pub open spec fn default_options() -> IndexOptions {
    IndexOptions {
        max_depth: Some(3usize),
        max_file_size: Some(10_485_760u64),
        follow_links: false,
        respect_gitignore: true,
    }
}

/// The options that a run works with: those given, or the defaults.
pub open spec fn resolved(options: Option<IndexOptions>) -> IndexOptions {
    match options {
        Some(given) => given,
        None => default_options(),
    }
}

impl Default for IndexOptions {
    fn default() -> (options: Self)
        ensures
            options == default_options(),
    {
        IndexOptions {
            max_depth: Some(DEFAULT_MAX_DEPTH),
            max_file_size: Some(DEFAULT_MAX_FILE_SIZE),
            follow_links: false,
            respect_gitignore: true,
        }
    }
}

/// Settles the options of a run: options that were given are used as they
/// are, and a run without options uses the defaults.
pub fn resolve_options(options: Option<IndexOptions>) -> (settled: IndexOptions)
    ensures
        settled == resolved(options),
{
    match options {
        Some(given) => given,
        None => IndexOptions::default(),
    }
}

} // verus!
