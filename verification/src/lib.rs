//! Scrawl: obtain freeform text from a human by launching their preferred
//! text editor on a temporary or designated file and capturing the result.
//!
//! The library holds the decision core of that flow: the session
//! configuration, the resolution of the editor command, and the session
//! state machine that decides, after each outside step (create a scratch
//! file, run the editor, read a file back, delete the scratch file), what
//! happens next. A host program performs those outside steps and feeds
//! their outcomes back into the machine.

use vstd::prelude::*;

pub mod editor;
pub mod error;
pub mod scratch;
pub mod session;

verus! {

use crate::editor::Editor;

/// Configures a session that opens an empty buffer in an editor; the host
/// runs it and returns the buffer's final contents.
pub fn new() -> (e: Editor)
    ensures
        e.content_source is Empty,
        e.target_mode is Temporary,
        e.editor_override is None,
{
    editor::new()
}

/// Configures a session that opens a buffer holding `content`; the host
/// runs it and returns the edited contents.
pub fn with(content: &str) -> (e: Editor)
    ensures
        e.content_source matches editor::ContentSource::InlineText(t) && t@ == content@,
        e.target_mode is Temporary,
        e.editor_override is None,
{
    editor::new().contents(content)
}

/// Configures a session that opens a buffer with the contents of the file
/// at `path`, editing a scratch copy: the file itself is never written.
pub fn open(path: &str) -> (e: Editor)
    ensures
        e.content_source matches editor::ContentSource::ExistingFile(p) && p@ == path@,
        e.target_mode is Temporary,
        e.editor_override is None,
{
    editor::new().file(path)
}

/// Configures a session that edits the file at `path` in place: the file
/// itself receives the editor's changes and no text is returned.
pub fn edit(path: &str) -> (e: Editor)
    ensures
        e.content_source matches editor::ContentSource::ExistingFile(p) && p@ == path@,
        e.target_mode is InPlace,
        e.editor_override is None,
{
    editor::new().file(path).edit()
}

} // verus!
