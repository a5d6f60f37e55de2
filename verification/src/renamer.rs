//! The decisions around the rename: what the file is called now, and whether
//! it may be given its new name.

use vstd::prelude::*;
use crate::error::Failure;
use crate::filename::has_extension;
use crate::filename::has_pdf_extension;
use crate::filename::valid_filename;
use crate::filename::validate_filename;

verus! {

/// `part` stands somewhere in `whole` as a run of neighbouring characters.
pub open spec fn is_part_of(part: Seq<char>, whole: Seq<char>) -> bool {
    exists|i: int, j: int| 0 <= i <= j <= whole.len() && #[trigger] whole.subrange(i, j) == part
}

/// `Path::file_name` of the standard library, on a path given as text: the
/// final component of the path, if it has one. How a path falls into
/// components differs between platforms, so all that is claimed is that the
/// component is a part of the path.
#[verifier::external_body]
fn final_component(path: &str) -> (r: Option<String>)
    ensures
        r matches Some(name) ==> is_part_of(name@, path@),
{
    std::path::Path::new(path).file_name().and_then(|name| name.to_str()).map(|name| name.to_string())
}

/// The file's name, given the final component of its path, if it has one.
pub fn filename_from(component: Option<String>) -> (r: Result<String, Failure>)
    ensures
        r == match component {
            Some(name) => Ok::<String, Failure>(name),
            None => Err::<String, Failure>(Failure::NoFilename),
        },
{
    match component {
        Some(name) => Ok(name),
        None => Err(Failure::NoFilename),
    }
}

/// The name of the file that a path leads to: the path's final component. A
/// path without one, such as a root or a path that ends in `..`, fails with
/// `NoFilename`, and no other failure occurs.
pub fn get_filename(path: &str) -> (r: Result<String, Failure>)
    ensures
        r matches Ok(name) ==> is_part_of(name@, path@),
        r matches Err(e) ==> e == Failure::NoFilename,
{
    filename_from(final_component(path))
}

/// Checks the path that the run was started with, and gives the name of the
/// file it leads to. A path that does not end with `.pdf` fails with `NotPdf`.
pub fn check_source_path(path: &str) -> (r: Result<String, Failure>)
    ensures
        !has_extension(path@) ==> r == Err::<String, Failure>(Failure::NotPdf),
        has_extension(path@) ==> (r matches Ok(name) ==> is_part_of(name@, path@)),
        has_extension(path@) ==> (r matches Err(e) ==> e == Failure::NoFilename),
{
    if !has_pdf_extension(path) {
        return Err(Failure::NotPdf);
    }
    get_filename(path)
}

/// What was found on disk before a rename.
#[derive(Debug, Clone, Copy, PartialEq, Eq, Structural)]
pub struct RenameProbe {
    /// The path to rename exists.
    pub source_exists: bool,
    /// The path to rename is a file.
    pub source_is_file: bool,
    /// The path to rename has a parent directory.
    pub has_parent: bool,
    /// The parent directory holds an entry of the new name already.
    pub target_exists: bool,
}

/// Whether the rename may go ahead, and if not, why. The first of these that
/// applies decides: an invalid name, a missing source, a source that is no
/// file, a source without a parent directory, a target that exists.
pub open spec fn rename_verdict(new_filename: Seq<char>, probe: RenameProbe) -> Result<
    (),
    Failure,
> {
    if !valid_filename(new_filename) {
        Err(Failure::InvalidFilename)
    } else if !probe.source_exists {
        Err(Failure::SourceMissing)
    } else if !probe.source_is_file {
        Err(Failure::SourceNotFile)
    } else if !probe.has_parent {
        Err(Failure::NoParent)
    } else if probe.target_exists {
        Err(Failure::TargetExists)
    } else {
        Ok(())
    }
}

/// Decides whether a file may be renamed to `new_filename` within its
/// directory, given what was found on disk.
pub fn check_rename(new_filename: &str, probe: &RenameProbe) -> (r: Result<(), Failure>)
    ensures
        r == rename_verdict(new_filename@, *probe),
{
    if !validate_filename(new_filename) {
        Err(Failure::InvalidFilename)
    } else if !probe.source_exists {
        Err(Failure::SourceMissing)
    } else if !probe.source_is_file {
        Err(Failure::SourceNotFile)
    } else if !probe.has_parent {
        Err(Failure::NoParent)
    } else if probe.target_exists {
        Err(Failure::TargetExists)
    } else {
        Ok(())
    }
}

/// A rename is refused whenever the target exists, and it goes ahead only to a
/// valid name, from an existing file, to a name that is free.
pub proof fn lemma_rename_refusals(new_filename: Seq<char>, probe: RenameProbe)
    ensures
        probe.target_exists ==> rename_verdict(new_filename, probe) is Err,
        rename_verdict(new_filename, probe) is Ok <==> valid_filename(new_filename)
            && probe.source_exists && probe.source_is_file && probe.has_parent
            && !probe.target_exists,
{
}

/// What follows when no text could be read from the document and the user was
/// asked whether to enter the metadata by hand: entering by hand is not
/// offered and fails; declining ends the run without a failure.
pub fn after_failed_extraction(wants_manual_entry: bool) -> (r: Result<(), Failure>)
    ensures
        r == if wants_manual_entry {
            Err::<(), Failure>(Failure::ManualEntryUnavailable)
        } else {
            Ok::<(), Failure>(())
        },
{
    if wants_manual_entry {
        Err(Failure::ManualEntryUnavailable)
    } else {
        Ok(())
    }
}

} // verus!
