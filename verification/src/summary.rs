//! The result of a run: the listed descriptors with their count, their total
//! size and the time that the run took.

use vstd::prelude::*;
use crate::entry::{node_views, FileNode, FileNodeView};

verus! {

/// The result of one indexing run.
#[derive(Debug, Clone, PartialEq, Eq)]
pub struct IndexResult {
    /// The listed descriptors; their order carries no meaning.
    pub files: Vec<FileNode>,
    /// How many descriptors are listed.
    pub total_count: usize,
    /// Sum of the listed descriptors' sizes, in bytes.
    pub total_size: u64,
    /// Time that the run took, in milliseconds.
    pub duration_ms: u64,
}

/// Sum of the sizes of `nodes`.
pub open spec fn total_size_of(nodes: Seq<FileNodeView>) -> nat
    decreases nodes.len(),
{
    if nodes.len() == 0 {
        0
    } else {
        total_size_of(nodes.drop_last()) + nodes.last().size
    }
}

impl IndexResult {
    /// The listed descriptors as mathematical values.
    pub open spec fn listed(&self) -> Seq<FileNodeView> {
        node_views(self.files@)
    }

    /// The totals agree with the list: the count is the number of listed
    /// descriptors and the size is the sum of their sizes.
    pub open spec fn wf(&self) -> bool {
        &&& self.total_count == self.files@.len()
        &&& self.total_size == total_size_of(self.listed())
    }
}

/// A sum of sizes only grows as descriptors are added.
pub proof fn lemma_total_size_prefix(nodes: Seq<FileNodeView>, n: int)
    requires
        0 <= n <= nodes.len(),
    ensures
        total_size_of(nodes.take(n)) <= total_size_of(nodes),
    decreases nodes.len() - n,
{
    if n == nodes.len() {
        assert(nodes.take(n) == nodes);
    } else {
        lemma_total_size_prefix(nodes, n + 1);
        assert(nodes.take(n + 1).drop_last() == nodes.take(n));
    }
}

/// Sum of the sizes of `nodes`, or `None` where the sum does not fit in 64
/// bits.
pub fn total_size(nodes: &Vec<FileNode>) -> (total: Option<u64>)
    ensures
        match total {
            Some(sum) => sum == total_size_of(node_views(nodes@)),
            None => total_size_of(node_views(nodes@)) > u64::MAX,
        },
{
    let ghost all = node_views(nodes@);
    let mut sum: u64 = 0;
    let mut i: usize = 0;
    while i < nodes.len()
        invariant
            i <= nodes.len(),
            all == node_views(nodes@),
            sum == total_size_of(all.take(i as int)),
        decreases nodes.len() - i,
    {
        proof {
            assert(all.take(i + 1).drop_last() == all.take(i as int));
            assert(all.take(i + 1).last().size == nodes@[i as int].size);
            lemma_total_size_prefix(all, i + 1);
        }
        match sum.checked_add(nodes[i].size) {
            Some(next) => {
                sum = next;
            },
            None => {
                return None;
            },
        }
        i = i + 1;
    }
    assert(all.take(i as int) == all);
    Some(sum)
}

/// Assembles the result of a run from the listed descriptors and the time
/// taken. The sum of the sizes has to fit in 64 bits; `summarize` tests that.
pub fn aggregate(files: Vec<FileNode>, duration_ms: u64) -> (result: IndexResult)
    requires
        total_size_of(node_views(files@)) <= u64::MAX,
    ensures
        result.files == files,
        result.duration_ms == duration_ms,
        result.wf(),
{
    let total_size = total_size(&files).unwrap();
    let total_count = files.len();
    IndexResult { files, total_count, total_size, duration_ms }
}

/// Assembles the result of a run, or gives `None` where the sum of the sizes
/// does not fit in 64 bits.
pub fn summarize(files: Vec<FileNode>, duration_ms: u64) -> (result: Option<IndexResult>)
    ensures
        match result {
            Some(r) => r.files == files && r.duration_ms == duration_ms && r.wf(),
            None => total_size_of(node_views(files@)) > u64::MAX,
        },
{
    match total_size(&files) {
        Some(total_size) => {
            let total_count = files.len();
            Some(IndexResult { files, total_count, total_size, duration_ms })
        },
        None => None,
    }
}

} // verus!
