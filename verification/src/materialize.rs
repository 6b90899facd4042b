use vstd::prelude::*;

verus! {

/// What the tree materializer does with one entry of the source tree.
#[derive(Debug, Clone, Copy, PartialEq, Eq, Structural)]
pub enum EntryAction {
    /// A directory: make sure it exists at the destination and walk into it.
    Recurse,
    /// The tracked manifest file, and the destination already has one:
    /// merge the two instead of overwriting.
    MergeManifest,
    /// Any other file: copy it byte for byte, overwriting what is there.
    CopyFile,
}

/// Decides how one directory entry is materialized.  Directories are walked
/// into; a file whose name is the tracked manifest filename is merged when
/// the destination already has a file of that name; every other file is
/// copied verbatim.
pub fn plan_entry(
    is_dir: bool,
    name: &String,
    manifest_filename: &String,
    destination_exists: bool,
) -> (r: EntryAction)
    ensures
        is_dir ==> r == EntryAction::Recurse,
        (!is_dir && name@ == manifest_filename@ && destination_exists) ==> r
            == EntryAction::MergeManifest,
        (!is_dir && (name@ != manifest_filename@ || !destination_exists)) ==> r
            == EntryAction::CopyFile,
{
    if is_dir {
        EntryAction::Recurse
    } else if destination_exists && *name == *manifest_filename {
        EntryAction::MergeManifest
    } else {
        EntryAction::CopyFile
    }
}

} // verus!
