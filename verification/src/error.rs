//! The ways in which a run can fail.

use vstd::prelude::*;

verus! {

/// Why a run ended without a rename.
#[derive(Debug, Clone, Copy, PartialEq, Eq, Structural)]
pub enum Failure {
    /// The path given does not end with `.pdf`.
    NotPdf,
    /// The path given has no final component to show as the file's name.
    NoFilename,
    /// No text could be read from the document.
    Unextractable,
    /// The document's text is empty or blank.
    EmptyText,
    /// The user asked to enter the metadata by hand, which is not offered.
    ManualEntryUnavailable,
    /// The model service could not be reached.
    ServiceUnreachable,
    /// The model service answered with a status that is not a success.
    ServiceStatus,
    /// The model service's answer could not be read.
    MalformedReply,
    /// The model service has no model installed.
    NoModelInstalled,
    /// The model's completion is not metadata in the expected form.
    MalformedMetadata,
    /// The model's completion lacks the author, the year or the title.
    IncompleteMetadata,
    /// The name is not safe to use as a file name.
    InvalidFilename,
    /// The file to rename does not exist.
    SourceMissing,
    /// The path to rename is not a file.
    SourceNotFile,
    /// The file to rename has no parent directory.
    NoParent,
    /// A file of the new name exists already.
    TargetExists,
}

/// A text or a failure, the text as a sequence of characters.
pub open spec fn text_result(r: Result<String, Failure>) -> Result<Seq<char>, Failure> {
    match r {
        Ok(text) => Ok(text@),
        Err(failure) => Err(failure),
    }
}

} // verus!
