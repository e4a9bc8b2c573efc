//! Locating the repository root.  The root is the directory holding the
//! marker file; the outer layer walks from the working directory upward and
//! hands each directory's entry names here, innermost first.

use vstd::prelude::*;

verus! {

use crate::text::list_contains;

/// A directory with these entries is the root of a checkout.
pub open spec fn spec_is_repo_root(entries: Seq<Seq<char>>) -> bool {
    entries.contains("servobuild.example"@)
}

/// Whether a directory, given by its entry names, is the root of a
/// checkout: it holds the example build-configuration file.
pub fn is_servo_repo_root(dir_entries: &Vec<String>) -> (r: bool)
    ensures
        r == spec_is_repo_root(dir_entries.deep_view()),
{
    list_contains(dir_entries, "servobuild.example")
}

/// Among a chain of directories, innermost first, the first that is a
/// repository root — the root the tool runs against, or nothing when the
/// walk reached the filesystem root without finding one.
pub fn first_repo_root(ancestors: &Vec<Vec<String>>) -> (r: Option<usize>)
    ensures
        match r {
            Some(i) => i < ancestors@.len() && spec_is_repo_root(ancestors@[i as int].deep_view())
                && forall|j: int|
                0 <= j < i ==> !spec_is_repo_root(#[trigger] ancestors@[j].deep_view()),
            None => forall|j: int|
                0 <= j < ancestors@.len() ==> !spec_is_repo_root(
                    #[trigger] ancestors@[j].deep_view(),
                ),
        },
{
    let mut i: usize = 0;
    while i < ancestors.len()
        invariant
            0 <= i <= ancestors@.len(),
            forall|j: int| 0 <= j < i ==> !spec_is_repo_root(#[trigger] ancestors@[j].deep_view()),
        decreases ancestors.len() - i,
    {
        if is_servo_repo_root(&ancestors[i]) {
            return Some(i);
        }
        i = i + 1;
    }
    None
}

} // verus!
