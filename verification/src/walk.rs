//! The rules of the walk through a directory tree.
//!
//! The walk itself reads directories and belongs to the caller. What it may
//! enter is decided here, entry by entry and at every depth alike: a
//! symbolic link is never followed, and a directory with a pruned name is
//! never entered.

use vstd::prelude::*;
use crate::template::str_text_of;
use crate::text::same_text;

verus! {

/// The directory names that the walk never enters: version-control data,
/// directories of dependencies, build output and virtual environments.
pub open spec fn is_pruned(name: Seq<char>) -> bool {
    name == ".git"@ || name == "node_modules"@ || name == "target"@ || name == "vendor"@ || name
        == ".venv"@ || name == "venv"@
}

/// Whether a directory of this name is left out of the walk.
pub fn should_skip_dir(name: &str) -> (skip: bool)
    ensures
        skip == is_pruned(name@),
{
    same_text(name, ".git") || same_text(name, "node_modules") || same_text(name, "target")
        || same_text(name, "vendor") || same_text(name, ".venv") || same_text(name, "venv")
}

/// What a directory holds at one of its entries, the entry itself and not
/// what a link leads to.
#[derive(Clone, Copy, Debug, PartialEq, Eq)]
pub enum EntryKind {
    /// A regular file.
    File,
    /// A directory.
    Directory,
    /// A symbolic link, to whatever it leads.
    Symlink,
    /// Anything else.
    Other,
}

/// Whether the walk goes on into an entry of kind `kind` and file name
/// `name`, where it has one that can be read.
pub open spec fn is_walked(kind: EntryKind, name: Option<Seq<char>>) -> bool {
    match kind {
        EntryKind::Symlink => false,
        EntryKind::Directory => !(name is Some && is_pruned(name->0)),
        _ => true,
    }
}

/// Decides whether the walk goes on into an entry of a directory. A
/// symbolic link is never followed, whether it leads to a file or to a
/// directory, and a directory with a pruned name is never entered; nothing
/// else is left out. The answer does not depend on how deep the entry lies.
pub fn should_walk_entry(kind: EntryKind, name: Option<&str>) -> (walk: bool)
    ensures
        walk == is_walked(kind, str_text_of(name)),
        kind is Symlink ==> !walk,
        kind is Directory && name is Some && is_pruned(name->0@) ==> !walk,
{
    match kind {
        EntryKind::Symlink => false,
        EntryKind::Directory => match name {
            Some(name) => !should_skip_dir(name),
            None => true,
        },
        _ => true,
    }
}

/// What the walk does with a path that it has come to.
#[derive(Clone, Copy, Debug, PartialEq, Eq)]
pub enum RootAction {
    /// The path is passed over.
    Skip,
    /// The path is a file and is processed as itself.
    Process,
    /// The path is a directory and its entries are walked.
    Walk,
}

/// Decides what the walk does with a path of kind `kind`, be it a path that
/// was given to start from or an entry that the walk goes on into. A file
/// is processed as itself and a directory is walked; a symbolic link is
/// never followed, neither as a file nor as a directory, and anything else
/// is passed over.
pub fn root_action(kind: EntryKind) -> (action: RootAction)
    ensures
        kind is Symlink ==> action is Skip,
        kind is File ==> action is Process,
        kind is Directory ==> action is Walk,
        kind is Other ==> action is Skip,
{
    match kind {
        EntryKind::File => RootAction::Process,
        EntryKind::Directory => RootAction::Walk,
        EntryKind::Symlink => RootAction::Skip,
        EntryKind::Other => RootAction::Skip,
    }
}

} // verus!
