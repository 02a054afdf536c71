//! The filter pipeline: each observed entry is judged on its own, by the same
//! stages in the same order, and an accepted entry is turned into its
//! descriptor. Nothing here keeps state between entries.

use vstd::prelude::*;
use crate::entry::{node_views, raw_views, FileNode, FileNodeView, RawEntry, RawEntryView};
use crate::names::{
    extension, extension_of, has_dangerous_extension, is_hidden, name_has_dangerous_extension,
    name_is_hidden,
};
use crate::options::IndexOptions;
use crate::walk::{depth_allowed, within_depth};

verus! {

/// How the pipeline judged one entry: the first stage that rejected it, or
/// that none did.
#[derive(Debug, Clone, Copy, PartialEq, Eq, Structural)]
pub enum Verdict {
    /// The entry is the root itself or lies below the depth limit.
    OutOfDepth,
    /// The entry's extension is a dangerous one.
    DangerousExtension,
    /// The entry is a file larger than the size limit.
    TooLarge,
    /// The entry's name is hidden.
    Hidden,
    /// No stage rejected the entry.
    Accepted,
}

/// Whether the size stage rejects an entry: it is no directory, a limit is
/// set, and its size exceeds the limit.
pub open spec fn too_large(is_dir: bool, size: nat, max_file_size: Option<u64>) -> bool {
    !is_dir && match max_file_size {
        Some(limit) => size > limit,
        None => false,
    }
}

/// The verdict on one entry: the stages in their order, the first rejection
/// deciding.
pub open spec fn verdict_of(entry: RawEntryView, options: IndexOptions) -> Verdict {
    if !within_depth(entry.depth, options.max_depth) {
        Verdict::OutOfDepth
    } else if has_dangerous_extension(entry.name) {
        Verdict::DangerousExtension
    } else if too_large(entry.is_dir, entry.size, options.max_file_size) {
        Verdict::TooLarge
    } else if is_hidden(entry.name) {
        Verdict::Hidden
    } else {
        Verdict::Accepted
    }
}

/// The descriptor of an entry: name, path, kind, size copied; the time of
/// modification in seconds where known; a file's extension as its type.
pub open spec fn descriptor_of(entry: RawEntryView) -> FileNodeView {
    FileNodeView {
        name: entry.name,
        path: entry.path,
        is_dir: entry.is_dir,
        size: entry.size,
        modified: entry.modified.seconds(),
        file_type: if entry.is_dir {
            None
        } else {
            extension_of(entry.name)
        },
    }
}

/// What the pipeline makes of one entry: its descriptor if it is accepted,
/// nothing otherwise.
pub open spec fn filtered(entry: RawEntryView, options: IndexOptions) -> Option<FileNodeView> {
    if verdict_of(entry, options) == Verdict::Accepted {
        Some(descriptor_of(entry))
    } else {
        None
    }
}

/// What the pipeline makes of a whole walk: the descriptors of the accepted
/// entries, in the order of the entries.
pub open spec fn accepted(entries: Seq<RawEntryView>, options: IndexOptions) -> Seq<FileNodeView>
    decreases entries.len(),
{
    if entries.len() == 0 {
        Seq::empty()
    } else {
        let before = accepted(entries.drop_last(), options);
        match filtered(entries.last(), options) {
            Some(node) => before.push(node),
            None => before,
        }
    }
}

/// Judges one entry.
pub fn classify(entry: &RawEntry, options: &IndexOptions) -> (verdict: Verdict)
    ensures
        verdict == verdict_of(entry@, *options),
{
    if !depth_allowed(entry.depth, options.max_depth) {
        return Verdict::OutOfDepth;
    }
    if name_has_dangerous_extension(entry.name.as_str()) {
        return Verdict::DangerousExtension;
    }
    if !entry.is_dir {
        if let Some(limit) = options.max_file_size {
            if entry.size > limit {
                return Verdict::TooLarge;
            }
        }
    }
    if name_is_hidden(entry.name.as_str()) {
        return Verdict::Hidden;
    }
    Verdict::Accepted
}

/// Builds the descriptor of an entry.
pub fn describe(entry: &RawEntry) -> (node: FileNode)
    ensures
        node@ == descriptor_of(entry@),
{
    let file_type = if entry.is_dir {
        None
    } else {
        match extension(entry.name.as_str()) {
            Some(ext) => Some(String::from_str(ext)),
            None => None,
        }
    };
    FileNode {
        name: entry.name.clone(),
        path: entry.path.clone(),
        is_dir: entry.is_dir,
        size: entry.size,
        modified: entry.modified.to_seconds(),
        file_type,
    }
}

/// Runs the pipeline on one entry: the descriptor of an accepted entry, `None`
/// for a rejected one.
pub fn filter_entry(entry: &RawEntry, options: &IndexOptions) -> (kept: Option<FileNode>)
    ensures
        match kept {
            Some(node) => filtered(entry@, *options) == Some(node@),
            None => filtered(entry@, *options) is None,
        },
{
    match classify(entry, options) {
        Verdict::Accepted => Some(describe(entry)),
        _ => None,
    }
}

/// Runs the pipeline on every entry of a walk and collects the descriptors in
/// the order of the entries.
pub fn filter_entries(entries: &Vec<RawEntry>, options: &IndexOptions) -> (nodes: Vec<FileNode>)
    ensures
        node_views(nodes@) == accepted(raw_views(entries@), *options),
{
    let mut nodes: Vec<FileNode> = Vec::new();
    let mut i: usize = 0;
    while i < entries.len()
        invariant
            i <= entries.len(),
            node_views(nodes@) == accepted(raw_views(entries@).take(i as int), *options),
        decreases entries.len() - i,
    {
        let ghost seen = raw_views(entries@).take(i as int);
        let ghost listed = nodes@;
        assert(raw_views(entries@).take(i + 1).drop_last() == seen);
        assert(raw_views(entries@).take(i + 1).last() == entries@[i as int]@);
        match filter_entry(&entries[i], options) {
            Some(node) => {
                nodes.push(node);
                assert(node_views(nodes@) == node_views(listed).push(node@));
            },
            None => {},
        }
        i = i + 1;
    }
    assert(raw_views(entries@).take(i as int) == raw_views(entries@));
    nodes
}

/// Every listed descriptor is that of an accepted entry of the walk, and every
/// accepted entry of the walk has its descriptor listed.
pub proof fn lemma_accepted_members(entries: Seq<RawEntryView>, options: IndexOptions)
    ensures
        forall|node: FileNodeView| #[trigger]
            accepted(entries, options).contains(node) <==> exists|i: int|
                0 <= i < entries.len() && #[trigger] filtered(entries[i], options) == Some(node),
    decreases entries.len(),
{
    if entries.len() == 0 {
    } else {
        let front = entries.drop_last();
        let before = accepted(front, options);
        lemma_accepted_members(front, options);
        assert forall|node: FileNodeView| #[trigger]
            accepted(entries, options).contains(node) <==> exists|i: int|
                0 <= i < entries.len() && #[trigger] filtered(entries[i], options) == Some(
                    node,
                ) by {
            let all = accepted(entries, options);
            if all.contains(node) {
                let k = choose|k: int| 0 <= k < all.len() && all[k] == node;
                if k < before.len() {
                    assert(before[k] == node);
                    assert(before.contains(node));
                    let i = choose|i: int|
                        0 <= i < front.len() && #[trigger] filtered(front[i], options) == Some(
                            node,
                        );
                    assert(filtered(entries[i], options) == Some(node));
                } else {
                    assert(filtered(entries[entries.len() - 1], options) == Some(node));
                }
            }
            if exists|i: int|
                0 <= i < entries.len() && #[trigger] filtered(entries[i], options) == Some(node) {
                let i = choose|i: int|
                    0 <= i < entries.len() && #[trigger] filtered(entries[i], options) == Some(
                        node,
                    );
                if i < front.len() {
                    assert(filtered(front[i], options) == Some(node));
                    assert(before.contains(node));
                    let k = choose|k: int| 0 <= k < before.len() && before[k] == node;
                    assert(all[k] == node);
                } else {
                    assert(all[all.len() - 1] == node);
                }
            }
        }
    }
}

} // verus!
