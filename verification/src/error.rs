//! Failures of a run.

use vstd::prelude::*;

verus! {

/// The classes of failure that end a run.
#[derive(Clone, Copy, Debug, PartialEq, Eq, Structural)]
pub enum ErrorKind {
    /// A required program is not installed.
    MissingDependency,
    /// A program could not be started, or ended abnormally.
    ExecutionFailure,
    /// The palette generator printed something other than a palette.
    ParseFailure,
    /// A path argument is malformed.
    InvalidInput,
    /// A file could not be listed, removed, copied or written.
    IOFailure,
    /// Something that the fixed shape of the data rules out happened anyway.
    InternalError,
}

/// A failure: its class and the message shown to the user.
#[derive(Debug, PartialEq, Eq)]
pub struct WallpaperError {
    pub kind: ErrorKind,
    pub message: String,
}

/// What a `WallpaperError` stands for in contracts.
pub ghost struct ErrorView {
    pub kind: ErrorKind,
    pub message: Seq<char>,
}

impl View for WallpaperError {
    type V = ErrorView;

    open spec fn view(&self) -> ErrorView {
        ErrorView { kind: self.kind, message: self.message@ }
    }
}

impl Clone for WallpaperError {
    fn clone(&self) -> (copy: WallpaperError)
        ensures
            copy@ == self@,
    {
        WallpaperError { kind: self.kind, message: self.message.clone() }
    }
}

impl WallpaperError {
    /// Builds a failure of class `kind` with the given message.
    pub fn new(kind: ErrorKind, message: String) -> (error: WallpaperError)
        ensures
            error@ == (ErrorView { kind, message: message@ }),
    {
        WallpaperError { kind, message }
    }

    /// The message shown to the user.
    pub fn to_text(&self) -> (text: String)
        ensures
            text@ == self@.message,
    {
        self.message.clone()
    }
}

} // verus!
