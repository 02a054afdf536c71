//! Rules on an entry's base name: its extension, whether the extension marks a
//! native executable artifact, and whether the name is hidden.

use vstd::prelude::*;
use vstd::std_specs::iter::IteratorSpec;
use crate::text::{lowercase_of, same_text, to_lowercase};

verus! {

/// Extensions of native executables, shared libraries and application bundles,
/// in lowercase. An entry with one of them is never listed.
pub const DANGEROUS_EXTENSIONS: [&'static str; 6] = ["exe", "dll", "so", "dylib", "bin", "app"];

/// The one hidden name that is listed all the same: the version-control
/// metadata directory.
pub const VCS_DIR_NAME: &'static str = ".git";

/// The character that starts a hidden name.
pub const HIDDEN_MARKER: char = '.';

/// Position of the last `.` in `name`, if it has one.
pub open spec fn last_dot(name: Seq<char>) -> Option<int>
    decreases name.len(),
{
    if name.len() == 0 {
        None
    } else if name.last() == '.' {
        Some(name.len() - 1)
    } else {
        last_dot(name.drop_last())
    }
}

/// The extension of a base name: what follows its last `.`, without the dot.
/// A name without a dot has none, nor has one whose only dot is its first
/// character, nor has `..`. A name that ends in a dot has the empty extension.
pub open spec fn extension_of(name: Seq<char>) -> Option<Seq<char>> {
    match last_dot(name) {
        None => None,
        Some(dot) => if dot == 0 || name == seq!['.', '.'] {
            None
        } else {
            Some(name.skip(dot + 1))
        },
    }
}

/// Whether a lowercase extension is one of `DANGEROUS_EXTENSIONS`.
pub open spec fn is_dangerous(lowered: Seq<char>) -> bool {
    ||| lowered == "exe"@
    ||| lowered == "dll"@
    ||| lowered == "so"@
    ||| lowered == "dylib"@
    ||| lowered == "bin"@
    ||| lowered == "app"@
}

/// Whether `name` has an extension that, once lowercased, is dangerous.
pub open spec fn has_dangerous_extension(name: Seq<char>) -> bool {
    match extension_of(name) {
        Some(ext) => is_dangerous(lowercase_of(ext)),
        None => false,
    }
}

/// Whether `name` is hidden: it starts with the hidden marker and is not the
/// version-control metadata directory's name.
pub open spec fn is_hidden(name: Seq<char>) -> bool {
    name.len() > 0 && name[0] == '.' && name != ".git"@
}

/// `last_dot` finds a dot, and no dot stands behind it.
pub proof fn lemma_last_dot(name: Seq<char>)
    ensures
        match last_dot(name) {
            Some(dot) => 0 <= dot < name.len() && name[dot] == '.' && forall|k: int|
                dot < k < name.len() ==> name[k] != '.',
            None => forall|k: int| 0 <= k < name.len() ==> name[k] != '.',
        },
    decreases name.len(),
{
    if name.len() > 0 && name.last() != '.' {
        let front = name.drop_last();
        lemma_last_dot(front);
        assert forall|k: int| 0 <= k < front.len() implies front[k] == name[k] by {}
        match last_dot(front) {
            Some(dot) => {
                assert forall|k: int| dot < k < name.len() implies name[k] != '.' by {
                    if k < front.len() {
                        assert(front[k] != '.');
                    }
                }
            },
            None => {
                assert forall|k: int| 0 <= k < name.len() implies name[k] != '.' by {
                    if k < front.len() {
                        assert(front[k] != '.');
                    }
                }
            },
        }
    }
}

/// Finds the last `.` of `name`, counting in characters.
pub fn find_last_dot(name: &str) -> (found: Option<usize>)
    ensures
        match found {
            Some(dot) => last_dot(name@) == Some(dot as int),
            None => last_dot(name@) is None,
        },
{
    let n: usize = name.unicode_len();
    let mut found: Option<usize> = None;
    let mut i: usize = 0;
    for c in it: name.chars()
        invariant
            i == it.index(),
            it.seq() == name@,
            n == name@.len(),
            match found {
                Some(dot) => last_dot(name@.take(i as int)) == Some(dot as int),
                None => last_dot(name@.take(i as int)) is None,
            },
    {
        assert(name@.take(i + 1).drop_last() == name@.take(i as int));
        if c == '.' {
            found = Some(i);
        }
        i = i + 1;
    }
    assert(name@.take(i as int) == name@);
    found
}

/// The extension of a base name, as a slice of it.
pub fn extension(name: &str) -> (ext: Option<&str>)
    ensures
        match ext {
            Some(e) => extension_of(name@) == Some(e@),
            None => extension_of(name@) is None,
        },
{
    match find_last_dot(name) {
        None => None,
        Some(dot) => {
            proof {
                lemma_last_dot(name@);
                reveal_strlit("..");
                assert(".."@ == seq!['.', '.']);
            }
            if dot == 0 || same_text(name, "..") {
                None
            } else {
                let n: usize = name.unicode_len();
                Some(name.substring_char(dot + 1, n))
            }
        },
    }
}

/// Whether a lowercase extension is in the dangerous set.
pub fn is_dangerous_extension(lowered: &str) -> (dangerous: bool)
    ensures
        dangerous == is_dangerous(lowered@),
{
    let mut i: usize = 0;
    while i < 6
        invariant
            i <= 6,
            forall|k: int| 0 <= k < i ==> DANGEROUS_EXTENSIONS@[k]@ != lowered@,
        decreases 6 - i,
    {
        if same_text(DANGEROUS_EXTENSIONS[i], lowered) {
            return true;
        }
        i = i + 1;
    }
    false
}

/// Whether the extension of `name`, lowercased, is in the dangerous set.
pub fn name_has_dangerous_extension(name: &str) -> (dangerous: bool)
    ensures
        dangerous == has_dangerous_extension(name@),
{
    match extension(name) {
        None => false,
        Some(ext) => {
            let lowered = to_lowercase(ext);
            is_dangerous_extension(lowered.as_str())
        },
    }
}

/// Whether `name` is hidden.
pub fn name_is_hidden(name: &str) -> (hidden: bool)
    ensures
        hidden == is_hidden(name@),
{
    let mut chars = name.chars();
    match chars.next() {
        None => false,
        Some(first) => first == HIDDEN_MARKER && !same_text(name, VCS_DIR_NAME),
    }
}

} // verus!
