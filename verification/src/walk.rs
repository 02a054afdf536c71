//! What is settled before and around the walk: whether the root can be
//! indexed at all, how the walker is to be set up, and how deep below the
//! root an entry may lie.

use vstd::prelude::*;
use crate::options::IndexOptions;

verus! {

/// Name of the ignore file of this tool, read with the rules of a
/// version-control ignore file.
pub const CUSTOM_IGNORE_FILENAME: &'static str = ".dmignore";

/// What a look at the root path found.
#[derive(Debug, Clone, Copy, PartialEq, Eq)]
pub struct PathProbe {
    /// Whether anything exists at the path.
    pub exists: bool,
    /// Whether what exists there is a directory.
    pub is_dir: bool,
}

/// Why a root path cannot be indexed.
#[derive(Debug, Clone, Copy, PartialEq, Eq)]
pub enum PathError {
    /// Nothing exists at the path.
    NotFound,
    /// The path exists and is not a directory.
    NotADirectory,
}

/// Whether a probed root can be indexed; if not, why.
pub open spec fn root_check(probe: PathProbe) -> Result<(), PathError> {
    if !probe.exists {
        Err(PathError::NotFound)
    } else if !probe.is_dir {
        Err(PathError::NotADirectory)
    } else {
        Ok(())
    }
}

impl PathError {
    /// The message for this error about the root `path`.
    pub open spec fn message_for(self, path: Seq<char>) -> Seq<char> {
        match self {
            PathError::NotFound => "Path does not exist: "@ + path,
            PathError::NotADirectory => "Path is not a directory: "@ + path,
        }
    }

    /// The message for this error about the root `path`: it says what is
    /// wrong and ends with the path.
    pub fn message(&self, path: &str) -> (text: String)
        ensures
            text@ == self.message_for(path@),
    {
        match self {
            PathError::NotFound => String::from_str("Path does not exist: ").concat(path),
            PathError::NotADirectory => String::from_str("Path is not a directory: ").concat(
                path,
            ),
        }
    }
}

/// Decides before a walk whether the root can be indexed: a root that does
/// not exist is refused as
/// `NotFound`, one that exists and is no directory as `NotADirectory`.
pub fn validate_path(probe: PathProbe) -> (checked: Result<(), PathError>)
    ensures
        checked == root_check(probe),
{
    if !probe.exists {
        Err(PathError::NotFound)
    } else if !probe.is_dir {
        Err(PathError::NotADirectory)
    } else {
        Ok(())
    }
}

/// Whether an entry `depth` steps below the root is listed under the depth
/// limit `max_depth`. The root itself (depth 0) never is. A limit of `n` admits
/// the root's children and `n` levels below them; no limit admits every depth.
pub open spec fn within_depth(depth: nat, max_depth: Option<usize>) -> bool {
    depth >= 1 && match max_depth {
        Some(limit) => depth - 1 <= limit,
        None => true,
    }
}

/// Decides `within_depth`.
pub fn depth_allowed(depth: usize, max_depth: Option<usize>) -> (allowed: bool)
    ensures
        allowed == within_depth(depth as nat, max_depth),
{
    if depth == 0 {
        false
    } else {
        match max_depth {
            Some(limit) => depth - 1 <= limit,
            None => true,
        }
    }
}

/// How the walker is to be set up for a run. Every filter of the walker that
/// has no field here stays off.
#[derive(Debug, Clone, Copy, PartialEq, Eq)]
pub struct WalkSettings {
    /// Deepest level that the walker reports, the root being level 0; `None`
    /// for no limit.
    pub max_depth: Option<usize>,
    /// Whether the walker descends through symbolic links.
    pub follow_links: bool,
    /// Whether the walker honours version-control ignore files.
    pub git_ignore: bool,
    /// Name of one more ignore file that the walker honours, if any.
    pub custom_ignore_filename: Option<&'static str>,
    /// Whether the walker drops hidden entries by itself. Always off: hidden
    /// entries are judged by this crate, which lists one of them.
    pub skip_hidden: bool,
}

/// The walker's depth limit for the options' limit: one level more, since the
/// walker counts the root as level 0 and the options count from its children.
/// A limit that has no successor is no limit at all.
pub open spec fn walker_depth_limit(max_depth: Option<usize>) -> Option<usize> {
    match max_depth {
        Some(limit) => if limit < usize::MAX {
            Some((limit + 1) as usize)
        } else {
            None
        },
        None => None,
    }
}

/// The walker's setup for `options`: ignore files count exactly when the
/// options respect them, and then this tool's own ignore file counts too; the
/// symlink policy is handed on; the depth limit is shifted to the walker's
/// counting; the walker's own hidden filter is off.
pub fn walk_settings(options: &IndexOptions) -> (settings: WalkSettings)
    ensures
        settings.max_depth == walker_depth_limit(options.max_depth),
        settings.follow_links == options.follow_links,
        settings.git_ignore == options.respect_gitignore,
        options.respect_gitignore ==> settings.custom_ignore_filename is Some
            && settings.custom_ignore_filename->0@ == ".dmignore"@,
        !options.respect_gitignore ==> settings.custom_ignore_filename is None,
        !settings.skip_hidden,
{
    let max_depth = match options.max_depth {
        Some(limit) => limit.checked_add(1),
        None => None,
    };
    let custom_ignore_filename = if options.respect_gitignore {
        Some(CUSTOM_IGNORE_FILENAME)
    } else {
        None
    };
    WalkSettings {
        max_depth,
        follow_links: options.follow_links,
        git_ignore: options.respect_gitignore,
        custom_ignore_filename,
        skip_hidden: false,
    }
}

} // verus!
