//! The two records of a run: what the walk observed of an entry, and the
//! descriptor under which an accepted entry is listed.

use vstd::prelude::*;

verus! {

/// What the filesystem reported as an entry's time of last modification.
#[derive(Debug, Clone, Copy, PartialEq, Eq)]
pub enum ModifiedTime {
    /// The filesystem could not report it.
    Unavailable,
    /// It lies before the epoch.
    BeforeEpoch,
    /// It lies this many whole seconds after the epoch.
    SinceEpoch(u64),
}

impl ModifiedTime {
    /// Seconds since the epoch, where the time is known and not before it.
    pub open spec fn seconds(self) -> Option<u64> {
        match self {
            ModifiedTime::SinceEpoch(secs) => Some(secs),
            _ => None,
        }
    }

    /// Seconds since the epoch, where the time is known and not before it.
    pub fn to_seconds(self) -> (secs: Option<u64>)
        ensures
            secs == self.seconds(),
    {
        match self {
            ModifiedTime::SinceEpoch(secs) => Some(secs),
            _ => None,
        }
    }
}

/// One entry as the walk observed it.
#[derive(Debug, Clone, PartialEq, Eq)]
pub struct RawEntry {
    /// Base name of the entry.
    pub name: String,
    /// Path of the entry, as it is to be shown.
    pub path: String,
    /// Steps below the root: 0 for the root itself, 1 for its children.
    pub depth: usize,
    /// Whether the entry is a directory.
    pub is_dir: bool,
    /// Size in bytes, as the filesystem reports it.
    pub size: u64,
    /// Time of last modification.
    pub modified: ModifiedTime,
}

/// A `RawEntry` as a mathematical value.
pub struct RawEntryView {
    pub name: Seq<char>,
    pub path: Seq<char>,
    pub depth: nat,
    pub is_dir: bool,
    pub size: nat,
    pub modified: ModifiedTime,
}

impl View for RawEntry {
    type V = RawEntryView;

    open spec fn view(&self) -> RawEntryView {
        RawEntryView {
            name: self.name@,
            path: self.path@,
            depth: self.depth as nat,
            is_dir: self.is_dir,
            size: self.size as nat,
            modified: self.modified,
        }
    }
}

/// The descriptor of one listed entry.
#[derive(Debug, Clone, PartialEq, Eq)]
pub struct FileNode {
    /// Base name of the entry.
    pub name: String,
    /// Path of the entry.
    pub path: String,
    /// Whether the entry is a directory.
    pub is_dir: bool,
    /// Size in bytes.
    pub size: u64,
    /// Time of last modification in seconds since the epoch, where known.
    pub modified: Option<u64>,
    /// Extension of a file's name, as written; absent for a directory and for
    /// a file without extension.
    pub file_type: Option<String>,
}

/// A `FileNode` as a mathematical value.
pub struct FileNodeView {
    pub name: Seq<char>,
    pub path: Seq<char>,
    pub is_dir: bool,
    pub size: nat,
    pub modified: Option<u64>,
    pub file_type: Option<Seq<char>>,
}

impl View for FileNode {
    type V = FileNodeView;

    open spec fn view(&self) -> FileNodeView {
        FileNodeView {
            name: self.name@,
            path: self.path@,
            is_dir: self.is_dir,
            size: self.size as nat,
            modified: self.modified,
            file_type: match self.file_type {
                Some(ext) => Some(ext@),
                None => None,
            },
        }
    }
}

/// The entries of a walk as mathematical values, in the same order.
pub open spec fn raw_views(entries: Seq<RawEntry>) -> Seq<RawEntryView> {
    entries.map_values(|e: RawEntry| e@)
}

/// Descriptors as mathematical values, in the same order.
pub open spec fn node_views(nodes: Seq<FileNode>) -> Seq<FileNodeView> {
    nodes.map_values(|n: FileNode| n@)
}

} // verus!
