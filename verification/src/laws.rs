//! What holds of every run, proved from the definitions of the pipeline.

use vstd::prelude::*;
use crate::entry::{FileNodeView, RawEntryView};
use crate::filter::{
    accepted, descriptor_of, filtered, lemma_accepted_members, too_large, verdict_of, Verdict,
};
use crate::names::{extension_of, has_dangerous_extension, is_hidden, last_dot, lemma_last_dot};
use crate::options::IndexOptions;
use crate::summary::total_size_of;
use crate::walk::{walker_depth_limit, within_depth};

verus! {

/// An entry whose extension is dangerous is rejected under every choice of
/// options, and no listed descriptor has a dangerous extension.
pub proof fn dangerous_extensions_never_listed(entries: Seq<RawEntryView>, options: IndexOptions)
    ensures
        forall|i: int|
            0 <= i < entries.len() && has_dangerous_extension(entries[i].name)
                ==> #[trigger] filtered(entries[i], options) is None,
        forall|node: FileNodeView| #[trigger]
            accepted(entries, options).contains(node) ==> !has_dangerous_extension(node.name),
{
    lemma_accepted_members(entries, options);
}

/// An entry with a hidden name is rejected under every choice of options, and
/// a listed descriptor whose name starts with the hidden marker is named
/// exactly like the version-control metadata directory.
pub proof fn hidden_names_never_listed(entries: Seq<RawEntryView>, options: IndexOptions)
    ensures
        forall|i: int|
            0 <= i < entries.len() && is_hidden(entries[i].name) ==> #[trigger] filtered(
                entries[i],
                options,
            ) is None,
        forall|node: FileNodeView| #[trigger]
            accepted(entries, options).contains(node) && node.name.len() > 0 && node.name[0] == '.'
                ==> node.name == ".git"@,
{
    lemma_accepted_members(entries, options);
}

/// The name of the version-control metadata directory is not hidden and has
/// no extension, so neither name stage rejects it.
pub proof fn vcs_dir_name_passes_name_stages()
    ensures
        !is_hidden(".git"@),
        extension_of(".git"@) is None,
        !has_dangerous_extension(".git"@),
{
    reveal_strlit(".git");
    let name = ".git"@;
    lemma_last_dot(name);
    assert(name[0] == '.');
    assert(name[1] == 'g');
    assert(name[2] == 'i');
    assert(name[3] == 't');
    assert(last_dot(name) == Some(0int));
}

/// An entry named exactly like the version-control metadata directory is
/// listed, with the descriptor of that entry, wherever it lies within the
/// depth limit and is not a file over the size limit.
pub proof fn vcs_dir_is_listed(entries: Seq<RawEntryView>, options: IndexOptions, i: int)
    requires
        0 <= i < entries.len(),
        entries[i].name == ".git"@,
        within_depth(entries[i].depth, options.max_depth),
        !too_large(entries[i].is_dir, entries[i].size, options.max_file_size),
    ensures
        verdict_of(entries[i], options) == Verdict::Accepted,
        accepted(entries, options).contains(descriptor_of(entries[i])),
{
    vcs_dir_name_passes_name_stages();
    lemma_accepted_members(entries, options);
    assert(filtered(entries[i], options) == Some(descriptor_of(entries[i])));
}

/// A file larger than the size limit is rejected, and every listed file is
/// within the limit.
pub proof fn oversized_files_never_listed(entries: Seq<RawEntryView>, options: IndexOptions)
    ensures
        forall|i: int|
            0 <= i < entries.len() && too_large(
                entries[i].is_dir,
                entries[i].size,
                options.max_file_size,
            ) ==> #[trigger] filtered(entries[i], options) is None,
        forall|node: FileNodeView| #[trigger]
            accepted(entries, options).contains(node) && !node.is_dir
                && options.max_file_size is Some ==> node.size <= options.max_file_size->0,
{
    lemma_accepted_members(entries, options);
}

/// The size stage never rejects a directory: whatever size is reported for a
/// directory and whatever size limit is set, the verdict on it is the same
/// and is never `TooLarge`.
pub proof fn directories_pass_size_stage(
    entry: RawEntryView,
    options: IndexOptions,
    size: nat,
    max_file_size: Option<u64>,
)
    requires
        entry.is_dir,
    ensures
        verdict_of(entry, options) != Verdict::TooLarge,
        verdict_of(
            RawEntryView { size, ..entry },
            IndexOptions { max_file_size, ..options },
        ) == verdict_of(entry, options),
{
}

/// With a depth limit of 0 exactly the root's children pass the depth stage:
/// every listed descriptor belongs to an entry one step below the root.
pub proof fn depth_zero_lists_children_only(entries: Seq<RawEntryView>, options: IndexOptions)
    requires
        options.max_depth == Some(0usize),
    ensures
        forall|i: int|
            0 <= i < entries.len() ==> (entries[i].depth == 1 <==> #[trigger] verdict_of(
                entries[i],
                options,
            ) != Verdict::OutOfDepth),
        forall|node: FileNodeView| #[trigger]
            accepted(entries, options).contains(node) ==> exists|i: int|
                0 <= i < entries.len() && entries[i].depth == 1 && #[trigger] filtered(
                    entries[i],
                    options,
                ) == Some(node),
{
    lemma_accepted_members(entries, options);
    assert forall|node: FileNodeView| #[trigger]
        accepted(entries, options).contains(node) implies exists|i: int|
        0 <= i < entries.len() && entries[i].depth == 1 && #[trigger] filtered(
            entries[i],
            options,
        ) == Some(node) by {
        let i = choose|i: int|
            0 <= i < entries.len() && #[trigger] filtered(entries[i], options) == Some(node);
        assert(verdict_of(entries[i], options) == Verdict::Accepted);
    }
}

/// Without a depth limit the depth stage rejects the root itself and nothing
/// else.
pub proof fn no_depth_limit_admits_every_level(entry: RawEntryView, options: IndexOptions)
    requires
        options.max_depth is None,
    ensures
        verdict_of(entry, options) == Verdict::OutOfDepth <==> entry.depth == 0,
{
}

/// The depth limit handed to the walker agrees with the depth stage: below the
/// root, the walker reports a level exactly when the depth stage admits it.
pub proof fn walker_limit_matches_depth_stage(depth: usize, max_depth: Option<usize>)
    requires
        depth >= 1,
    ensures
        within_depth(depth as nat, max_depth) <==> match walker_depth_limit(max_depth) {
            Some(limit) => depth <= limit,
            None => true,
        },
{
}

/// A listed descriptor is the descriptor of an accepted entry of the walk, and
/// every accepted entry's descriptor is listed: nothing is made up and nothing
/// accepted is lost.
pub proof fn listed_are_exactly_the_accepted(entries: Seq<RawEntryView>, options: IndexOptions)
    ensures
        forall|node: FileNodeView| #[trigger]
            accepted(entries, options).contains(node) <==> exists|i: int|
                0 <= i < entries.len() && verdict_of(entries[i], options) == Verdict::Accepted
                    && #[trigger] descriptor_of(entries[i]) == node,
        accepted(entries, options).len() <= entries.len(),
{
    lemma_accepted_members(entries, options);
    assert forall|node: FileNodeView| #[trigger]
        accepted(entries, options).contains(node) implies exists|i: int|
        0 <= i < entries.len() && verdict_of(entries[i], options) == Verdict::Accepted
            && #[trigger] descriptor_of(entries[i]) == node by {
        let i = choose|i: int|
            0 <= i < entries.len() && #[trigger] filtered(entries[i], options) == Some(node);
        assert(descriptor_of(entries[i]) == node);
    }
    assert forall|node: FileNodeView|
        (exists|i: int|
            0 <= i < entries.len() && verdict_of(entries[i], options) == Verdict::Accepted
                && #[trigger] descriptor_of(entries[i]) == node) implies #[trigger] accepted(
        entries,
        options,
    ).contains(node) by {
        let i = choose|i: int|
            0 <= i < entries.len() && verdict_of(entries[i], options) == Verdict::Accepted
                && #[trigger] descriptor_of(entries[i]) == node;
        assert(filtered(entries[i], options) == Some(node));
    }
    accepted_len_bound(entries, options);
}

proof fn accepted_len_bound(entries: Seq<RawEntryView>, options: IndexOptions)
    ensures
        accepted(entries, options).len() <= entries.len(),
    decreases entries.len(),
{
    if entries.len() > 0 {
        accepted_len_bound(entries.drop_last(), options);
    }
}

/// The pipeline works entry by entry: a walk handled in two parts gives the
/// two parts' descriptors one after the other.
pub proof fn lemma_accepted_concat(
    first: Seq<RawEntryView>,
    second: Seq<RawEntryView>,
    options: IndexOptions,
)
    ensures
        accepted(first + second, options) == accepted(first, options) + accepted(second, options),
    decreases second.len(),
{
    if second.len() == 0 {
        assert(first + second == first);
    } else {
        lemma_accepted_concat(first, second.drop_last(), options);
        assert((first + second).drop_last() == first + second.drop_last());
        assert((first + second).last() == second.last());
    }
}

/// The sum of the sizes of two lists, one after the other, is the sum of
/// their sums.
pub proof fn lemma_total_size_concat(first: Seq<FileNodeView>, second: Seq<FileNodeView>)
    ensures
        total_size_of(first + second) == total_size_of(first) + total_size_of(second),
    decreases second.len(),
{
    if second.len() == 0 {
        assert(first + second == first);
    } else {
        lemma_total_size_concat(first, second.drop_last());
        assert((first + second).drop_last() == first + second.drop_last());
        assert((first + second).last() == second.last());
    }
}

/// A walk handled in two parts and merged gives the totals of the walk
/// handled in one piece: the same number of descriptors and the same sum of
/// sizes.
pub proof fn merged_parts_total_alike(
    first: Seq<RawEntryView>,
    second: Seq<RawEntryView>,
    options: IndexOptions,
)
    ensures
        accepted(first + second, options).len() == accepted(first, options).len() + accepted(
            second,
            options,
        ).len(),
        total_size_of(accepted(first + second, options)) == total_size_of(
            accepted(first, options),
        ) + total_size_of(accepted(second, options)),
{
    lemma_accepted_concat(first, second, options);
    lemma_total_size_concat(accepted(first, options), accepted(second, options));
}

} // verus!
