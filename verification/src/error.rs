//! The one error type of the library.

use vstd::prelude::*;

verus! {

/// The ways in which loading a plan or moving its files can fail.
#[derive(Clone, Copy, Debug, PartialEq, Eq, Structural)]
pub enum ErrorKind {
    /// The manifest could not be read.
    ManifestRead,
    /// The manifest text does not describe a plan.
    ManifestParse,
    /// A declared file has a `..` segment and would leave its base directory.
    ManifestPathTraversal,
    /// The working directory, or one of the two locations that are compared,
    /// could not be read.
    LocationUnreadable,
    /// Source and destination are one and the same place.
    SameLocation,
    /// A directory could not be created.
    DirectoryCreate,
    /// A declared file does not exist at the source.
    SourceNotFound,
    /// A declared file exists but is not a regular file.
    NotAFile,
    /// The byte copy itself failed.
    CopyIO,
}

/// What an [`Error`] stands for: its kind and the text of its message.
pub struct ErrorView {
    pub kind: ErrorKind,
    pub message: Seq<char>,
}

/// A failure, with its kind and the message shown to the user.
#[derive(Debug)]
pub struct Error {
    kind: ErrorKind,
    details: String,
}

impl View for Error {
    type V = ErrorView;

    closed spec fn view(&self) -> ErrorView {
        ErrorView { kind: self.kind, message: self.details@ }
    }
}

impl Error {
    #[must_use]
    pub fn new(kind: ErrorKind, details: String) -> (e: Error)
        ensures
            e@ == (ErrorView { kind, message: details@ }),
    {
        Error { kind, details }
    }

    /// Which failure this is.
    pub fn kind(&self) -> (kind: ErrorKind)
        ensures
            kind == self@.kind,
    {
        self.kind
    }

    /// The message, as it is shown to the user.
    pub fn to_string(&self) -> (text: String)
        ensures
            text@ == self@.message,
    {
        self.details.clone()
    }
}

/// What the outcome of an operation stands for.
pub open spec fn result_view(result: Result<(), Error>) -> Result<(), ErrorView> {
    match result {
        Ok(()) => Ok(()),
        Err(e) => Err(e@),
    }
}

/// What a text, or the [`Error`] in its place, stands for.
pub open spec fn text_result_view(result: Result<String, Error>) -> Result<Seq<char>, ErrorView> {
    match result {
        Ok(text) => Ok(text@),
        Err(e) => Err(e@),
    }
}

} // verus!
