//! The whole operation on what a caller observed: the root is checked, the
//! options are settled, the walk's entries go through the filter pipeline,
//! and the accepted ones are totalled.

use vstd::prelude::*;
use crate::entry::{node_views, raw_views, RawEntry};
use crate::filter::{accepted, filter_entries};
use crate::options::{resolve_options, resolved, IndexOptions};
use crate::summary::{aggregate, total_size, total_size_of, IndexResult};
use crate::walk::{root_check, validate_path, PathProbe};

verus! {

/// Sum of the sizes of the entries of a walk that the pipeline accepts.
pub open spec fn accepted_size(entries: Seq<RawEntry>, options: Option<IndexOptions>) -> nat {
    total_size_of(accepted(raw_views(entries), resolved(options)))
}

/// Whether the sizes of the accepted entries of a walk add up to a number of
/// 64 bits, as `index_directory` needs them to.
pub fn sizes_fit(entries: &Vec<RawEntry>, options: Option<IndexOptions>) -> (fit: bool)
    ensures
        fit == (accepted_size(entries@, options) <= u64::MAX),
{
    let settled = resolve_options(options);
    let nodes = filter_entries(entries, &settled);
    total_size(&nodes).is_some()
}

/// Whether `outcome` is what indexing gives for a root found as `probe`, a
/// walk that observed `entries`, and a run that took `duration_ms`:
///
/// - for a root that can be indexed, a result that lists the descriptor of
///   every accepted entry, in the order of the entries, with totals that agree
///   with the list, and the duration as given;
/// - for any other root, the message of its error, which names `path`.
pub open spec fn is_outcome(
    outcome: Result<IndexResult, String>,
    path: Seq<char>,
    options: Option<IndexOptions>,
    probe: PathProbe,
    entries: Seq<RawEntry>,
    duration_ms: u64,
) -> bool {
    match outcome {
        Ok(result) => {
            &&& root_check(probe) is Ok
            &&& result.listed() == accepted(raw_views(entries), resolved(options))
            &&& result.wf()
            &&& result.duration_ms == duration_ms
        },
        Err(message) => {
            &&& root_check(probe) is Err
            &&& message@ == root_check(probe)->Err_0.message_for(path)
        },
    }
}

/// Indexes the directory at `path` from what was observed of it: `probe` is
/// what a look at the path found, `entries` are the entries of the walk from
/// it, and `duration_ms` is the time that the run took.
///
/// A path that does not exist, or that is no directory, gives the error
/// message that says so and names the path; `entries` are then not looked at.
/// Otherwise the result lists the descriptor of every accepted entry, in the
/// order of the entries, with their count, the sum of their sizes, and the
/// duration as given. Without options the defaults apply.
///
/// The sizes of the accepted entries have to add up to a number of 64 bits;
/// `try_index_directory` asks nothing.
pub fn index_directory(
    path: &str,
    options: Option<IndexOptions>,
    probe: PathProbe,
    entries: &Vec<RawEntry>,
    duration_ms: u64,
) -> (outcome: Result<IndexResult, String>)
    requires
        root_check(probe) is Ok ==> accepted_size(entries@, options) <= u64::MAX,
    ensures
        is_outcome(outcome, path@, options, probe, entries@, duration_ms),
{
    match validate_path(probe) {
        Err(error) => Err(error.message(path)),
        Ok(()) => {
            let settled = resolve_options(options);
            let nodes = filter_entries(entries, &settled);
            Ok(aggregate(nodes, duration_ms))
        },
    }
}

/// Indexes like `index_directory`, for any walk: `None` where the root can be
/// indexed and the sizes of the accepted entries do not add up to a number of
/// 64 bits, the outcome of `index_directory` everywhere else.
pub fn try_index_directory(
    path: &str,
    options: Option<IndexOptions>,
    probe: PathProbe,
    entries: &Vec<RawEntry>,
    duration_ms: u64,
) -> (outcome: Option<Result<IndexResult, String>>)
    ensures
        match outcome {
            Some(inner) => is_outcome(inner, path@, options, probe, entries@, duration_ms),
            None => root_check(probe) is Ok && accepted_size(entries@, options) > u64::MAX,
        },
{
    if validate_path(probe).is_ok() && !sizes_fit(entries, options) {
        None
    } else {
        Some(index_directory(path, options, probe, entries, duration_ms))
    }
}

} // verus!
