use vstd::prelude::*;

verus! {

/// The GLib file-error codes that this library itself reports.
#[derive(Clone, Copy, Debug, PartialEq, Eq, Structural)]
pub enum FileErrorKind {
    /// A file or directory does not exist (`G_FILE_ERROR_NOENT`).
    Noent,
    /// An argument was invalid (`G_FILE_ERROR_INVAL`).
    Inval,
}

/// An error raised before Poppler is reached: a file-error code and its message.
#[derive(Debug)]
pub struct PopplerError {
    pub kind: FileErrorKind,
    pub message: String,
}

impl PopplerError {
    /// True when this error has the given code and message.
    pub open spec fn is(self, kind: FileErrorKind, message: Seq<char>) -> bool {
        self.kind == kind && self.message@ == message
    }

    /// Builds an error from a code and a message.
    pub fn new(kind: FileErrorKind, message: &str) -> (e: PopplerError)
        ensures
            e.is(kind, message@),
    {
        PopplerError { kind, message: String::from_str(message) }
    }
}

} // verus!
