//! How a walk of a directory tree treats each entry it meets, for copying,
//! listing and deleting: a junction is never entered.
use vstd::prelude::*;

verus! {

/// The kinds of entries a walk tells apart.
#[derive(PartialEq, Eq, Structural, Clone, Copy, Debug)]
pub enum EntryKind {
    /// A directory junction: recreated when copying, left out when listing,
    /// removed as a link when deleting; never entered.
    Junction,
    /// A file symbolic link: skipped when copying or listing, removed as a
    /// link when deleting.
    Link,
    /// An ordinary directory: walked into.
    Directory,
    /// An ordinary file.
    File,
}

/// The kind of an entry from what its metadata says. The junction test
/// comes first and stands alone: `std` reports a junction neither as a
/// directory nor as a symbolic link, so the junction flag (the reparse
/// attribute read from the file system) decides by itself.
pub open spec fn entry_kind_spec(is_dir: bool, is_junction: bool, is_symlink: bool) -> EntryKind {
    if is_junction {
        EntryKind::Junction
    } else if is_symlink {
        EntryKind::Link
    } else if is_dir {
        EntryKind::Directory
    } else {
        EntryKind::File
    }
}

/// Classifies an entry met by a walk.
pub fn classify_entry(is_dir: bool, is_junction: bool, is_symlink: bool) -> (r: EntryKind)
    ensures
        r == entry_kind_spec(is_dir, is_junction, is_symlink),
{
    if is_junction {
        EntryKind::Junction
    } else if is_symlink {
        EntryKind::Link
    } else if is_dir {
        EntryKind::Directory
    } else {
        EntryKind::File
    }
}

/// Law (a junction is never entered): only ordinary directories are walked
/// into; a junction never is, and it is always treated as a junction,
/// whatever else its metadata says.
pub proof fn lemma_junction_never_entered(is_dir: bool, is_junction: bool, is_symlink: bool)
    ensures
        entry_kind_spec(is_dir, is_junction, is_symlink) == EntryKind::Directory ==> is_dir && !is_junction
            && !is_symlink,
        is_junction ==> entry_kind_spec(is_dir, is_junction, is_symlink) == EntryKind::Junction,
{
}

} // verus!
