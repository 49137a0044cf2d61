use vstd::prelude::*;

verus! {

/// Where the initial text of the edited buffer comes from.
#[derive(Debug, PartialEq, Eq)]
pub enum ContentSource {
    /// Start from an empty buffer.
    Empty,
    /// Start from the given text.
    InlineText(String),
    /// Start from the current contents of the file at the given path.
    ExistingFile(String),
}

/// Whether the session edits a scratch copy or the named file itself.
#[derive(Clone, Copy, Debug, PartialEq, Eq, Structural)]
pub enum TargetMode {
    /// Edit a scratch copy; the original file, if any, is left untouched.
    Temporary,
    /// Edit the named file directly. Only valid when the content source
    /// is an existing file.
    InPlace,
}

/// An executable name plus its ordered argument list, immutable once
/// resolved. The command is kept pre-split into a program and arguments,
/// so no shell-quoting semantics are ever guessed.
#[derive(Debug, PartialEq, Eq)]
pub struct EditorCommand {
    /// The program to launch.
    pub program: String,
    /// The arguments handed to the program, before the target path.
    pub args: Vec<String>,
}

/// The configuration of one edit session: what initial content the buffer
/// receives, whether the source file is mutated in place, and which editor
/// command overrides the environment's default. Built once, consumed by
/// one execution, not reused.
#[derive(Debug, PartialEq, Eq)]
pub struct Editor {
    /// The origin of the buffer's initial text.
    pub content_source: ContentSource,
    /// Scratch copy or in-place edit.
    pub target_mode: TargetMode,
    /// An explicit command to use instead of the environment's default.
    pub editor_override: Option<EditorCommand>,
}

/// A configuration is valid unless it asks for an in-place edit of
/// something that is not an existing file.
pub open spec fn config_valid(e: Editor) -> bool {
    e.target_mode is InPlace ==> e.content_source is ExistingFile
}

/// What the resolved editor command must be: the explicit override when one
/// is configured, otherwise the environment's editor as a bare program name,
/// otherwise the fallback editor `vi`. Resolution itself never fails; a bad
/// command is only discovered at launch time.
pub open spec fn resolves_to(
    configured: Option<EditorCommand>,
    env_editor: Option<String>,
    cmd: EditorCommand,
) -> bool {
    match configured {
        Some(c) => cmd.program@ == c.program@ && cmd.args@ == c.args@,
        None => match env_editor {
            Some(name) => cmd.program@ == name@ && cmd.args@.len() == 0,
            None => cmd.program@ == "vi"@ && cmd.args@.len() == 0,
        },
    }
}

/// Resolves the editor command for a session: the configured override wins,
/// then the environment's editor (`env_editor`, the value of the recognized
/// environment variable, if set), then the fallback editor.
pub fn resolve_command(configured: &Option<EditorCommand>, env_editor: Option<String>) -> (cmd:
    EditorCommand)
    ensures
        resolves_to(*configured, env_editor, cmd),
{
    match configured {
        Some(c) => {
            let args = c.args.clone();
            proof {
                assert forall|i: int| 0 <= i < c.args@.len() implies args@[i] == c.args@[i] by {
                    assert(cloned::<String>(c.args@[i], args@[i]));
                }
                assert(args@ =~= c.args@);
            }
            EditorCommand { program: c.program.clone(), args }
        },
        None => match env_editor {
            Some(name) => EditorCommand { program: name, args: Vec::new() },
            None => EditorCommand { program: "vi".to_string(), args: Vec::new() },
        },
    }
}

/// Starts a new session configuration: empty buffer, scratch file,
/// editor taken from the environment.
pub fn new() -> (e: Editor)
    ensures
        e.content_source is Empty,
        e.target_mode is Temporary,
        e.editor_override is None,
{
    Editor {
        content_source: ContentSource::Empty,
        target_mode: TargetMode::Temporary,
        editor_override: None,
    }
}

impl Editor {
    /// Pre-populates the buffer with the given text.
    pub fn contents(self, text: &str) -> (e: Editor)
        ensures
            e.content_source matches ContentSource::InlineText(t) && t@ == text@,
            e.target_mode == self.target_mode,
            e.editor_override == self.editor_override,
    {
        Editor { content_source: ContentSource::InlineText(text.to_string()), ..self }
    }

    /// Takes the buffer's initial contents from the file at `path`.
    pub fn file(self, path: &str) -> (e: Editor)
        ensures
            e.content_source matches ContentSource::ExistingFile(p) && p@ == path@,
            e.target_mode == self.target_mode,
            e.editor_override == self.editor_override,
    {
        Editor { content_source: ContentSource::ExistingFile(path.to_string()), ..self }
    }

    /// Switches the session to edit the named file directly instead of a
    /// scratch copy.
    pub fn edit(self) -> (e: Editor)
        ensures
            e.target_mode is InPlace,
            e.content_source == self.content_source,
            e.editor_override == self.editor_override,
    {
        Editor { target_mode: TargetMode::InPlace, ..self }
    }

    /// Overrides the editor command with the given program, launched with
    /// no extra arguments.
    pub fn editor(self, program: &str) -> (e: Editor)
        ensures
            e.editor_override matches Some(c) && c.program@ == program@ && c.args@.len() == 0,
            e.content_source == self.content_source,
            e.target_mode == self.target_mode,
    {
        Editor {
            editor_override: Some(EditorCommand { program: program.to_string(), args: Vec::new() }),
            ..self
        }
    }
}

} // verus!
