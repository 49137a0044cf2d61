use vstd::prelude::*;

verus! {

/// The ways an edit session can fail.
///
/// Every failure of a session is reported as exactly one of these values;
/// none is retried automatically, since editing is an interactive operation
/// and re-invoking the call is the user's responsibility.
#[derive(Clone, Copy, Debug, PartialEq, Eq, Structural)]
pub enum ScrawlError {
    /// The combination of content source and target mode is invalid:
    /// an in-place edit was requested without an existing file to edit.
    Configuration,
    /// The resolved editor command could not be launched.
    EditorNotFound,
    /// The editor process exited with a non-zero status; `code` is the
    /// status the process runner reported.
    EditorExit { code: i32 },
    /// Creating, reading or copying a file failed.
    Io,
    /// The edited file's bytes are not valid text.
    Encoding,
}

impl ScrawlError {
    /// A short human-readable description of the error.
    pub fn describe(&self) -> (r: &'static str)
        ensures
            *self is Configuration ==> r@ == "in-place editing requires an existing file"@,
            *self is EditorNotFound ==> r@ == "the editor command could not be launched"@,
            *self is EditorExit ==> r@ == "the editor exited with a failure status"@,
            *self is Io ==> r@ == "a file could not be created, copied or read"@,
            *self is Encoding ==> r@ == "the edited file does not contain valid text"@,
    {
        match self {
            ScrawlError::Configuration => "in-place editing requires an existing file",
            ScrawlError::EditorNotFound => "the editor command could not be launched",
            ScrawlError::EditorExit { .. } => "the editor exited with a failure status",
            ScrawlError::Io => "a file could not be created, copied or read",
            ScrawlError::Encoding => "the edited file does not contain valid text",
        }
    }
}

} // verus!
